//! Short codes: what they are, and how one is drawn.

use rand::distributions::Alphanumeric;
use rand::Rng;
use vstd::prelude::*;

verus! {

/// Number of characters in a short code.
pub const SHORT_CODE_LEN: usize = 7;

/// Whether `c` is one of the 62 ASCII letters and digits.
pub open spec fn is_alphanumeric(c: char) -> bool {
    ('0' <= c && c <= '9') || ('A' <= c && c <= 'Z') || ('a' <= c && c <= 'z')
}

/// Whether `s` is a short code: exactly seven characters, each a letter or a
/// digit.
pub open spec fn is_short_code(s: Seq<char>) -> bool {
    &&& s.len() == SHORT_CODE_LEN
    &&& forall|i: int| 0 <= i < s.len() ==> is_alphanumeric(#[trigger] s[i])
}

/// Draws one byte from `rand`'s `Alphanumeric` distribution on the thread-local
/// generator. The distribution picks from a table that holds the ASCII letters
/// and digits and nothing else; which of them comes out is left open.
#[verifier::external_body]
fn sample_alphanumeric() -> (b: u8)
    ensures
        is_alphanumeric(b as char),
{
    rand::thread_rng().sample(Alphanumeric)
}

/// Generates a short code, character by character, from the thread-local
/// random source. Nothing is said of which code comes out, and none is kept
/// from coming out twice.
pub fn generate_short_code() -> (code: String)
    ensures
        is_short_code(code@),
{
    let mut code = String::new();
    let mut i: usize = 0;
    while i < SHORT_CODE_LEN
        invariant
            i <= SHORT_CODE_LEN,
            code@.len() == i,
            forall|j: int| 0 <= j < code@.len() ==> is_alphanumeric(#[trigger] code@[j]),
        decreases SHORT_CODE_LEN - i,
    {
        let b: u8 = sample_alphanumeric();
        code.push(b as char);
        i += 1;
    }
    code
}

/// Tells whether `c` is an ASCII letter or digit.
fn is_alphanumeric_char(c: char) -> (yes: bool)
    ensures
        yes == is_alphanumeric(c),
{
    ('0' <= c && c <= '9') || ('A' <= c && c <= 'Z') || ('a' <= c && c <= 'z')
}

/// Tells whether `text` is a short code.
pub fn is_short_code_text(text: &str) -> (yes: bool)
    ensures
        yes == is_short_code(text@),
{
    let n: usize = text.unicode_len();
    if n != SHORT_CODE_LEN {
        return false;
    }
    let mut i: usize = 0;
    while i < n
        invariant
            n == text@.len(),
            i <= n,
            forall|j: int| 0 <= j < i ==> is_alphanumeric(#[trigger] text@[j]),
        decreases n - i,
    {
        if !is_alphanumeric_char(text.get_char(i)) {
            return false;
        }
        i += 1;
    }
    true
}

} // verus!
