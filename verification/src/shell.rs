//! Choosing the shell integration snippet to print.

use vstd::prelude::*;

use crate::error::StoreError;
use crate::model::opt_string_view;
use crate::text::{chars_of, string_from_chars, tail_from};

verus! {

/// The wrapper function for zsh and bash, which share the same syntax.
pub const BASH_ZSH: &'static str = r#"# Spacer shell integration — add to your .zshrc / .bashrc:
#   eval "$(spacer shell)"
function spacer() {
    if [[ "$1" == "space" && "$2" == "go" ]]; then
        cd "$(command spacer space go "${@:3}")"
    elif [[ "$1" == "project" && "$2" == "go" ]]; then
        cd "$(command spacer project go "${@:3}")"
    else
        command spacer "$@"
    fi
}"#;

/// The wrapper function for a POSIX shell.
pub const SH: &'static str = r#"# Spacer shell integration — add to your .profile:
#   eval "$(spacer shell sh)"
spacer() {
    if [ "$1" = "space" ] && [ "$2" = "go" ]; then
        shift 2
        cd "$(command spacer space go "$@")"
    elif [ "$1" = "project" ] && [ "$2" = "go" ]; then
        shift 2
        cd "$(command spacer project go "$@")"
    else
        command spacer "$@"
    fi
}"#;

/// The last `/`-separated part of `s` (all of `s` when it has no `/`).
pub open spec fn last_segment(s: Seq<char>) -> Seq<char>
    decreases s.len(),
{
    if s.len() == 0 {
        s
    } else if s.last() == '/' {
        Seq::empty()
    } else {
        last_segment(s.drop_last()).push(s.last())
    }
}

proof fn lemma_last_segment_from(s: Seq<char>, k: int)
    requires
        0 <= k <= s.len(),
        forall|m: int| k <= m < s.len() ==> s[m] != '/',
        k > 0 ==> s[k - 1] == '/',
    ensures
        last_segment(s) == s.skip(k),
    decreases s.len(),
{
    if s.len() == k {
        if k > 0 {
            assert(s.last() == '/');
        }
        assert(s.skip(k) =~= Seq::<char>::empty());
    } else {
        lemma_last_segment_from(s.drop_last(), k);
        assert(s.drop_last().skip(k).push(s.last()) =~= s.skip(k));
    }
}

/// The name of a shell from its path, e.g. `zsh` from `/bin/zsh`.
pub fn shell_name(path: &str) -> (r: String)
    ensures
        r@ == last_segment(path@),
{
    let chars = chars_of(path);
    let mut k = chars.len();
    while k > 0 && chars[k - 1] != '/'
        invariant
            k <= chars@.len(),
            forall|m: int| k <= m < chars@.len() ==> chars@[m] != '/',
        decreases k,
    {
        k -= 1;
    }
    proof {
        lemma_last_segment_from(chars@, k as int);
    }
    let tail = tail_from(&chars, k);
    string_from_chars(tail.as_slice())
}

/// The shell to integrate with: the one asked for, else the one the
/// environment's `SHELL` path names, else `sh`.
pub open spec fn chosen_shell(asked: Option<Seq<char>>, env_shell: Option<Seq<char>>) -> Seq<char> {
    match asked {
        Some(s) => s,
        None => match env_shell {
            Some(p) => last_segment(p),
            None => "sh"@,
        },
    }
}

/// The shell to integrate with, given the one asked for and the value of
/// `SHELL`, if any.
pub fn choose_shell(asked: Option<String>, env_shell: Option<String>) -> (r: String)
    ensures
        r@ == chosen_shell(opt_string_view(asked), opt_string_view(env_shell)),
{
    match asked {
        Some(s) => s,
        None => match env_shell {
            Some(p) => shell_name(p.as_str()),
            None => "sh".to_owned(),
        },
    }
}

/// Whether two strings hold the same characters.
fn text_eq(a: &str, b: &str) -> (r: bool)
    ensures
        r == (a@ == b@),
{
    let t = a.to_owned();
    crate::registry::same_text(&t, b)
}

/// The integration snippet for `shell`: one for zsh and bash, one for sh.
pub fn snippet_for(shell: &str) -> (r: Result<&'static str, StoreError>)
    ensures
        shell@ == "zsh"@ || shell@ == "bash"@ ==> r == Ok::<&str, StoreError>(BASH_ZSH),
        shell@ == "sh"@ ==> r == Ok::<&str, StoreError>(SH),
        !(shell@ == "zsh"@ || shell@ == "bash"@ || shell@ == "sh"@) ==> (r matches Err(
            StoreError::UnsupportedShell { shell: s },
        ) && s@ == shell@),
{
    proof {
        reveal_strlit("zsh");
        reveal_strlit("bash");
        reveal_strlit("sh");
        assert("sh"@.len() == 2);
        assert("zsh"@.len() == 3);
        assert("bash"@.len() == 4);
    }
    if text_eq(shell, "zsh") || text_eq(shell, "bash") {
        Ok(BASH_ZSH)
    } else if text_eq(shell, "sh") {
        Ok(SH)
    } else {
        Err(StoreError::UnsupportedShell { shell: shell.to_owned() })
    }
}

} // verus!
