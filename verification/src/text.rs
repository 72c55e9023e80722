//! Character-level helpers on strings.

use vstd::prelude::*;

verus! {

/// The characters of `s`, in order.
pub fn chars_of(s: &str) -> (r: Vec<char>)
    ensures
        r@ == s@,
{
    broadcast use vstd::string::group_string_axioms;
    let mut r: Vec<char> = Vec::new();
    for c in it: s.chars()
        invariant
            r@ == it.seq().take(it.index()),
    {
        r.push(c);
    }
    assert(r@ =~= s@);
    r
}

/// Whether `line` begins with the characters of `tag`.
pub open spec fn has_prefix(line: Seq<char>, tag: Seq<char>) -> bool {
    tag.len() <= line.len() && line.take(tag.len() as int) == tag
}

/// Whether `line` begins with the characters of `tag`.
pub fn starts_with(line: &Vec<char>, tag: &str) -> (r: bool)
    ensures
        r == has_prefix(line@, tag@),
{
    let n = tag.unicode_len();
    if n > line.len() {
        return false;
    }
    let mut i: usize = 0;
    while i < n
        invariant
            n == tag@.len(),
            n <= line@.len(),
            i <= n,
            forall|j: int| 0 <= j < i ==> line@[j] == tag@[j],
        decreases n - i,
    {
        if line[i] != tag.get_char(i) {
            assert(line@.take(n as int)[i as int] != tag@[i as int]);
            return false;
        }
        i += 1;
    }
    assert(line@.take(n as int) =~= tag@);
    true
}

/// The characters of `line` from position `start` on.
pub fn tail_from(line: &Vec<char>, start: usize) -> (r: Vec<char>)
    requires
        start <= line@.len(),
    ensures
        r@ == line@.skip(start as int),
{
    let mut r: Vec<char> = Vec::new();
    let mut i = start;
    while i < line.len()
        invariant
            start <= i <= line@.len(),
            r@ == line@.subrange(start as int, i as int),
        decreases line.len() - i,
    {
        r.push(line[i]);
        assert(r@ =~= line@.subrange(start as int, i as int + 1));
        i += 1;
    }
    assert(r@ =~= line@.skip(start as int));
    r
}

/// The string made of `chars`, in order.
///
/// Trusted: calls std's `FromIterator<&char>` for `String`, which appends
/// each character in turn, so the string holds exactly these characters.
#[verifier::external_body]
pub fn string_from_chars(chars: &[char]) -> (r: String)
    ensures
        r@ == chars@,
{
    String::from_iter(chars.iter())
}

} // verus!
