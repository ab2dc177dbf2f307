//! Generation of short identifiers.
//!
//! A short id is exactly ten characters long and drawn from the 36-symbol
//! alphabet of lowercase ASCII letters and digits. Fresh ids are produced
//! by sampling a wider alphanumeric distribution and discarding every
//! sample outside that alphabet until ten have been accepted.

use vstd::prelude::*;

verus! {

/// Length of every short identifier.
pub const SHORT_ID_LEN: usize = 10;

/// Consecutive rejected draws tolerated for one position before the last
/// sample is folded into the alphabet instead of discarded. A rejection
/// happens with probability 26/62 per draw, so this path is unreachable
/// in practice; it exists to bound the sampling loop.
const MAX_DRAWS: usize = 64;

/// A character the short-id alphabet admits: a lowercase ASCII letter or
/// an ASCII digit.
pub open spec fn is_id_char(c: char) -> bool {
    ('a' <= c && c <= 'z') || ('0' <= c && c <= '9')
}

/// A well-formed short identifier: exactly ten characters, each drawn
/// from the lowercase-alphanumeric alphabet.
pub open spec fn valid_short_id(s: Seq<char>) -> bool {
    &&& s.len() == SHORT_ID_LEN
    &&& forall|i: int| 0 <= i < s.len() ==> is_id_char(#[trigger] s[i])
}

/// Relies on rand's `Alphanumeric` distribution: every sample is one of
/// the bytes `A`-`Z`, `a`-`z`, `0`-`9`. The draw consumes entropy from
/// the thread-local generator, so nothing beyond the sampled alphabet is
/// promised of the result.
#[verifier::external_body]
fn sample_alphanumeric() -> (r: u8)
    ensures
        (65 <= r && r <= 90) || (97 <= r && r <= 122) || (48 <= r && r <= 57),
{
    rand::Rng::sample(&mut rand::thread_rng(), rand::distributions::Alphanumeric)
}

/// Relies on `String`'s `FromIterator` implementation, reached through
/// `Iterator::collect`: the returned string holds exactly the given
/// characters, in order.
#[verifier::external_body]
fn chars_to_string(cs: &Vec<char>) -> (r: String)
    ensures
        r@ == cs@,
{
    cs.iter().collect()
}

/// One character of a fresh identifier: samples the alphanumeric
/// distribution and discards uppercase letters, keeping the first
/// lowercase letter or digit. Should `MAX_DRAWS` draws in a row all be
/// rejected, one more sample is taken and, if uppercase, folded to the
/// lowercase letter thirty-two code points above it.
fn next_id_char() -> (c: char)
    ensures
        is_id_char(c),
{
    let mut attempts: usize = 0;
    while attempts < MAX_DRAWS
        invariant
            attempts <= MAX_DRAWS,
        decreases MAX_DRAWS - attempts,
    {
        let b = sample_alphanumeric();
        if (97 <= b && b <= 122) || (48 <= b && b <= 57) {
            return b as char;
        }
        attempts = attempts + 1;
    }
    let b = sample_alphanumeric();
    if (97 <= b && b <= 122) || (48 <= b && b <= 57) {
        b as char
    } else {
        (b + 32) as char
    }
}

/// Produces a fresh short identifier: ten characters, each a lowercase
/// ASCII letter or digit. No uniqueness check against existing ids is
/// made; the caller owns any collision policy.
pub fn generate_random_id() -> (r: String)
    ensures
        valid_short_id(r@),
{
    let mut accepted: Vec<char> = Vec::new();
    while accepted.len() < SHORT_ID_LEN
        invariant
            accepted.len() <= SHORT_ID_LEN,
            forall|i: int| 0 <= i < accepted@.len() ==> is_id_char(#[trigger] accepted@[i]),
        decreases SHORT_ID_LEN - accepted.len(),
    {
        let c = next_id_char();
        accepted.push(c);
    }
    chars_to_string(&accepted)
}

} // verus!
