//! Random salts for password hashes.

use vstd::prelude::*;
use rand::Rng;

verus! {

/// How many characters a salt has.
pub const SALT_LEN: usize = 16;

/// An ASCII letter or digit.
pub open spec fn is_alphanumeric(c: char) -> bool {
    ('a' <= c && c <= 'z') || ('A' <= c && c <= 'Z') || ('0' <= c && c <= '9')
}

/// Relies on `rand::Rng::sample` with `rand::distributions::Alphanumeric`
/// on the thread's generator, which draws a byte among the ASCII letters
/// and digits.
#[verifier::external_body]
fn random_alphanumeric() -> (r: char)
    ensures
        is_alphanumeric(r),
{
    char::from(rand::thread_rng().sample(rand::distributions::Alphanumeric))
}

/// Relies on `String::push`, which appends one character.
#[verifier::external_body]
fn push_char(s: &mut String, c: char)
    ensures
        final(s)@ == old(s)@.push(c),
{
    s.push(c)
}

/// A fresh salt: `SALT_LEN` random ASCII letters and digits.
pub fn gen_salt() -> (r: String)
    ensures
        r@.len() == SALT_LEN,
        forall|i: int| 0 <= i < r@.len() ==> is_alphanumeric(#[trigger] r@[i]),
{
    let mut s = String::new();
    let mut i: usize = 0;
    while i < SALT_LEN
        invariant
            i <= SALT_LEN,
            s@.len() == i,
            forall|k: int| 0 <= k < s@.len() ==> is_alphanumeric(#[trigger] s@[k]),
        decreases SALT_LEN - i,
    {
        let c = random_alphanumeric();
        push_char(&mut s, c);
        i = i + 1;
    }
    s
}

} // verus!
