use vstd::prelude::*;

use crate::text::{digit_char, digit_char_of, string_from_chars, upper_letter, upper_letter_of};

verus! {

/// Number of characters in a recovery code.
pub const CODE_LEN: usize = 5;

/// How long a recovery code stays usable, in seconds (15 minutes).
pub const CODE_TTL: u64 = 900;

/// Number of decimal digits in a recovery code; the rest are letters.
pub const CODE_DIGITS: usize = 2;

pub open spec fn is_ascii_digit(c: char) -> bool {
    '0' as u32 <= c as u32 && c as u32 <= '9' as u32
}

pub open spec fn is_ascii_upper(c: char) -> bool {
    'A' as u32 <= c as u32 && c as u32 <= 'Z' as u32
}

/// A code layout before shuffling: the digits first, then the uppercase letters.
pub open spec fn sorted_code_layout(pre: Seq<char>) -> bool {
    &&& pre.len() == CODE_LEN
    &&& forall|i: int| 0 <= i < CODE_DIGITS ==> is_ascii_digit(#[trigger] pre[i])
    &&& forall|i: int| CODE_DIGITS <= i < CODE_LEN ==> is_ascii_upper(#[trigger] pre[i])
}

/// A well-formed recovery code: five characters, exactly two ASCII digits and
/// three uppercase ASCII letters, in any order.
pub open spec fn is_recovery_code(s: Seq<char>) -> bool {
    &&& s.len() == CODE_LEN
    &&& exists|pre: Seq<char>| sorted_code_layout(pre) && pre.to_multiset() == s.to_multiset()
}

/// Relies on rand's `thread_rng` and `Rng::gen_range`, which draws a value from
/// the half-open range `0..bound` and panics only on an empty range.
#[verifier::external_body]
fn draw_below(bound: u32) -> (r: u32)
    requires
        bound > 0,
    ensures
        r < bound,
{
    rand::Rng::gen_range(&mut rand::thread_rng(), 0..bound)
}

/// Relies on rand's `SliceRandom::shuffle`, which reorders the slice by swapping
/// its elements, so the same characters come out.
#[verifier::external_body]
fn shuffle_chars(v: &mut Vec<char>)
    ensures
        final(v)@.to_multiset() == old(v)@.to_multiset(),
{
    rand::seq::SliceRandom::shuffle(v.as_mut_slice(), &mut rand::thread_rng())
}


/// The unshuffled code for two drawn digits and three drawn letter positions:
/// the digits first, then the letters.
pub fn code_from_draws(d0: u32, d1: u32, k0: u32, k1: u32, k2: u32) -> (r: Vec<char>)
    requires
        d0 < 10,
        d1 < 10,
        k0 < 26,
        k1 < 26,
        k2 < 26,
    ensures
        r@ == seq![
            digit_char(d0 as int),
            digit_char(d1 as int),
            upper_letter(k0 as int),
            upper_letter(k1 as int),
            upper_letter(k2 as int),
        ],
        sorted_code_layout(r@),
{
    let mut code: Vec<char> = Vec::new();
    code.push(digit_char_of(d0 as u64));
    code.push(digit_char_of(d1 as u64));
    code.push(upper_letter_of(k0));
    code.push(upper_letter_of(k1));
    code.push(upper_letter_of(k2));
    proof {
        assert(code@ =~= seq![
            digit_char(d0 as int),
            digit_char(d1 as int),
            upper_letter(k0 as int),
            upper_letter(k1 as int),
            upper_letter(k2 as int),
        ]);
        assert forall|i: int| 0 <= i < CODE_DIGITS implies is_ascii_digit(#[trigger] code@[i]) by {}
        assert forall|i: int| CODE_DIGITS <= i < CODE_LEN implies is_ascii_upper(#[trigger] code@[i]) by {}
    }
    code
}

/// Produces a recovery code: two random digits and three random uppercase
/// letters, shuffled so that positions do not reveal which is which.
pub fn generate_code() -> (r: String)
    ensures
        is_recovery_code(r@),
{
    let d0 = draw_below(10);
    let d1 = draw_below(10);
    let k0 = draw_below(26);
    let k1 = draw_below(26);
    let k2 = draw_below(26);
    let mut code = code_from_draws(d0, d1, k0, k1, k2);
    let ghost pre = code@;
    shuffle_chars(&mut code);
    proof {
        vstd::seq_lib::to_multiset_len(pre);
        vstd::seq_lib::to_multiset_len(code@);
    }
    string_from_chars(&code)
}

} // verus!
