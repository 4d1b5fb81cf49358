//! The confirmation-token generator: 25 symbols drawn independently and
//! uniformly from the 62-symbol alphanumeric alphabet, about 149 bits of
//! entropy. Uniformity comes from rejection sampling: a byte is kept only
//! when it falls below 248, the largest multiple of 62 in a byte's range.
//!
//! No reuse check is made here; the entropy budget makes a collision
//! negligible (though not impossible), and the store refuses a duplicate.

use crate::strutil::string_push;
use vstd::prelude::*;

verus! {

/// The generated token length, in characters.
pub const TOKEN_LENGTH: usize = 25;

/// An ASCII digit or letter.
pub open spec fn is_alphanumeric_ascii(c: char) -> bool {
    ||| 48 <= (c as u32) <= 57
    ||| 65 <= (c as u32) <= 90
    ||| 97 <= (c as u32) <= 122
}

/// A well-formed confirmation token: exactly 25 alphanumeric ASCII symbols.
pub open spec fn is_valid_token(s: Seq<char>) -> bool {
    &&& s.len() == TOKEN_LENGTH
    &&& forall|i: int| 0 <= i < s.len() ==> is_alphanumeric_ascii(#[trigger] s[i])
}

/// Maps an index below 62 to its symbol: digits, then upper case, then lower
/// case.
fn alphanumeric_symbol(idx: u8) -> (c: char)
    requires
        idx < 62,
    ensures
        is_alphanumeric_ascii(c),
{
    if idx < 10 {
        (48 + idx) as char
    } else if idx < 36 {
        (55 + idx) as char
    } else {
        (61 + idx) as char
    }
}

/// Draws a fresh token. `None` is the astronomically unlikely case that the
/// randomness source keeps answering in the rejected band; the caller
/// reports it as an unexpected failure.
pub fn generate_subscription_token() -> (r: Option<String>)
    ensures
        r matches Some(t) ==> is_valid_token(t@),
{
    let mut out = String::new();
    let mut i: usize = 0;
    while i < TOKEN_LENGTH
        invariant
            i <= TOKEN_LENGTH,
            out@.len() == i,
            forall|j: int| 0 <= j < i ==> is_alphanumeric_ascii(#[trigger] out@[j]),
        decreases TOKEN_LENGTH - i,
    {
        let mut drawn: Option<u8> = None;
        let mut attempts: usize = 0;
        while attempts < 64 && drawn.is_none()
            invariant
                attempts <= 64,
                drawn matches Some(b) ==> b < 62,
            decreases 64 - attempts,
        {
            let b: u8 = rand::random::<u8>();
            if b < 248 {
                drawn = Some(b % 62);
            }
            attempts = attempts + 1;
        }
        match drawn {
            Some(idx) => {
                string_push(&mut out, alphanumeric_symbol(idx));
                i = i + 1;
            },
            None => {
                return None;
            },
        }
    }
    Some(out)
}

} // verus!
