//! Small operations on text that the rest of the library states its
//! contracts with: prefixes, occurrences and joining.

use vstd::prelude::*;
use vstd::string::*;

verus! {

/// `p` stands at the start of `s`.
pub open spec fn is_prefix(p: Seq<char>, s: Seq<char>) -> bool {
    p.len() <= s.len() && s.subrange(0, p.len() as int) == p
}

/// `p` stands in `s` at position `i`.
pub open spec fn occurs_at(p: Seq<char>, s: Seq<char>, i: int) -> bool {
    0 <= i && i + p.len() <= s.len() && s.subrange(i, i + p.len()) == p
}

/// `p` stands somewhere in `s`.
pub open spec fn occurs_in(p: Seq<char>, s: Seq<char>) -> bool {
    exists|i: int| occurs_at(p, s, i)
}

/// The texts of a list of strings, in order.
pub open spec fn texts(v: Seq<String>) -> Seq<Seq<char>> {
    Seq::new(v.len(), |i: int| v[i]@)
}

/// The parts in order with `sep` between each two of them.
pub open spec fn joined(parts: Seq<Seq<char>>, sep: Seq<char>) -> Seq<char>
    decreases parts.len(),
{
    if parts.len() == 0 {
        Seq::empty()
    } else if parts.len() == 1 {
        parts[0]
    } else {
        joined(parts.drop_last(), sep) + sep + parts.last()
    }
}

/// Whether two texts are the same.
pub fn same_text(a: &str, b: &str) -> (same: bool)
    ensures
        same == (a@ == b@),
{
    let x = String::from_str(a);
    let y = String::from_str(b);
    x == y
}

/// Whether `s` begins with `prefix`.
pub fn starts_with(s: &str, prefix: &str) -> (b: bool)
    ensures
        b == is_prefix(prefix@, s@),
{
    let n = prefix.unicode_len();
    let m = s.unicode_len();
    if m < n {
        return false;
    }
    let head = s.substring_char(0, n);
    same_text(head, prefix)
}

/// Whether `pattern` occurs in `s`.
pub fn contains(s: &str, pattern: &str) -> (b: bool)
    ensures
        b == occurs_in(pattern@, s@),
{
    let n = pattern.unicode_len();
    let m = s.unicode_len();
    if m < n {
        assert(!occurs_in(pattern@, s@)) by {
            assert forall|i: int| !occurs_at(pattern@, s@, i) by {}
        }
        return false;
    }
    let last: usize = m - n;
    let mut i: usize = 0;
    while i < last
        invariant
            n == pattern@.len(),
            m == s@.len(),
            last == m - n,
            i <= last,
            forall|j: int| 0 <= j < i ==> !occurs_at(pattern@, s@, j),
        decreases last - i,
    {
        let window = s.substring_char(i, i + n);
        if same_text(window, pattern) {
            assert(occurs_at(pattern@, s@, i as int));
            return true;
        }
        i = i + 1;
    }
    let window = s.substring_char(last, m);
    let found = same_text(window, pattern);
    assert(found == occurs_at(pattern@, s@, last as int));
    assert(!found ==> !occurs_in(pattern@, s@)) by {
        assert forall|j: int| !found implies !occurs_at(pattern@, s@, j) by {}
    }
    found
}

/// The strings of `parts` in order with `sep` between each two of them.
pub fn join(parts: &Vec<String>, sep: &str) -> (text: String)
    ensures
        text@ == joined(texts(parts@), sep@),
{
    let mut text = String::new();
    let mut i: usize = 0;
    while i < parts.len()
        invariant
            i <= parts.len(),
            text@ == joined(texts(parts@).take(i as int), sep@),
        decreases parts.len() - i,
    {
        let ghost before = texts(parts@).take(i as int);
        let ghost after = texts(parts@).take(i + 1);
        assert(after.drop_last() =~= before);
        if i > 0 {
            text.append(sep);
        }
        text.append(parts[i].as_str());
        assert(text@ =~= joined(after, sep@));
        i = i + 1;
    }
    assert(texts(parts@).take(i as int) =~= texts(parts@));
    text
}

} // verus!
