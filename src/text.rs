use vstd::prelude::*;

verus! {

/// The text an optional string holds.
pub open spec fn opt_string(o: Option<String>) -> Option<Seq<char>> {
    match o {
        Some(s) => Some(s@),
        None => None,
    }
}

/// The decimal digit character for `d` (0 to 9).
pub open spec fn digit_char(d: int) -> char {
    seq!['0', '1', '2', '3', '4', '5', '6', '7', '8', '9'][d]
}

/// The uppercase ASCII letter at position `k` of the alphabet (0 to 25).
pub open spec fn upper_letter(k: int) -> char {
    seq![
        'A', 'B', 'C', 'D', 'E', 'F', 'G', 'H', 'I', 'J', 'K', 'L', 'M',
        'N', 'O', 'P', 'Q', 'R', 'S', 'T', 'U', 'V', 'W', 'X', 'Y', 'Z',
    ][k]
}

/// The character of decimal digit `d`.
pub fn digit_char_of(d: u64) -> (c: char)
    requires
        d < 10,
    ensures
        c == digit_char(d as int),
{
    (48u8 + d as u8) as char
}

/// The uppercase letter at position `k` of the alphabet.
pub fn upper_letter_of(k: u32) -> (c: char)
    requires
        k < 26,
    ensures
        c == upper_letter(k as int),
{
    (65u8 + k as u8) as char
}

/// Whether `s` begins with `p`.
pub open spec fn has_prefix(s: Seq<char>, p: Seq<char>) -> bool {
    p.len() <= s.len() && s.subrange(0, p.len() as int) == p
}

/// Tests whether `s` begins with `p`, character by character.
pub fn starts_with(s: &str, p: &str) -> (r: bool)
    ensures
        r == has_prefix(s@, p@),
{
    let n = s.unicode_len();
    let m = p.unicode_len();
    if m > n {
        return false;
    }
    let mut i: usize = 0;
    while i < m
        invariant
            m == p@.len(),
            n == s@.len(),
            m <= n,
            i <= m,
            forall|j: int| 0 <= j < i ==> s@[j] == p@[j],
        decreases m - i,
    {
        if s.get_char(i) != p.get_char(i) {
            assert(s@.subrange(0, m as int)[i as int] != p@[i as int]);
            return false;
        }
        i = i + 1;
    }
    assert(s@.subrange(0, m as int) =~= p@);
    true
}

/// Removes one leading copy of `p` from `s`, if `s` begins with it.
pub fn strip_prefix_once<'a>(s: &'a str, p: &str) -> (r: &'a str)
    ensures
        has_prefix(s@, p@) ==> r@ == s@.subrange(p@.len() as int, s@.len() as int),
        !has_prefix(s@, p@) ==> r@ == s@,
{
    if starts_with(s, p) {
        let n = s.unicode_len();
        let m = p.unicode_len();
        s.substring_char(m, n)
    } else {
        s
    }
}

/// Relies on `String: FromIterator<&char>`, which appends the characters in order.
#[verifier::external_body]
pub(crate) fn string_from_chars(v: &Vec<char>) -> (r: String)
    ensures
        r@ == v@,
{
    String::from_iter(v)
}

} // verus!
