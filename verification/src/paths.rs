//! Path arithmetic on plain strings, following the Unix rules of joining a
//! path component onto a base directory.

use vstd::prelude::*;

verus! {

/// The path obtained by adjoining `part` to `base`: an absolute `part`
/// replaces `base`; otherwise one `/` separates them unless `base` is empty
/// or already ends with one.
pub open spec fn joined(base: Seq<char>, part: Seq<char>) -> Seq<char> {
    if part.len() > 0 && part[0] == '/' {
        part
    } else if base.len() == 0 || base.last() == '/' {
        base + part
    } else {
        base + seq!['/'] + part
    }
}

/// Adjoins `part` to the directory `base`.
pub fn join_path(base: &str, part: &str) -> (r: String)
    ensures
        r@ == joined(base@, part@),
{
    let part_len = part.unicode_len();
    if part_len > 0 && part.get_char(0) == '/' {
        return part.to_owned();
    }
    let base_len = base.unicode_len();
    let mut r = base.to_owned();
    if base_len > 0 && base.get_char(base_len - 1) != '/' {
        r.append("/");
        proof {
            reveal_strlit("/");
        }
    }
    r.append(part);
    r
}

/// The directory that holds the workspace's own files.
pub open spec fn spacer_dir_of(root: Seq<char>) -> Seq<char> {
    joined(root, ".spacer"@)
}

/// The file in which the git back end keeps the active space and project.
pub open spec fn state_path_of(root: Seq<char>) -> Seq<char> {
    joined(spacer_dir_of(root), "state.json"@)
}

/// `<root>/.spacer`
pub fn spacer_dir(root: &str) -> (r: String)
    ensures
        r@ == spacer_dir_of(root@),
{
    join_path(root, ".spacer")
}

/// The file in which the configuration back end keeps the whole state.
pub open spec fn config_path_of(root: Seq<char>) -> Seq<char> {
    joined(spacer_dir_of(root), "config.json"@)
}

/// `<root>/.spacer/config.json`
pub fn config_path(root: &str) -> (r: String)
    ensures
        r@ == config_path_of(root@),
{
    let dir = spacer_dir(root);
    join_path(&dir, "config.json")
}

/// `<root>/.spacer/state.json`
pub fn state_path(root: &str) -> (r: String)
    ensures
        r@ == state_path_of(root@),
{
    let dir = spacer_dir(root);
    join_path(&dir, "state.json")
}

} // verus!
