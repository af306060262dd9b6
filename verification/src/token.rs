//! Random secrets and the shape that every secret must have.

use rand::distributions::{Alphanumeric, DistString};
use vstd::prelude::*;
use vstd::string::*;

verus! {

/// Length of a session token.
pub const SESSION_ID_LEN: usize = 16;

/// Length of a login challenge token and of a registration code.
pub const CHALLENGE_REGCODE_LEN: usize = 16;

/// Length of the response secret that is mailed to the user.
pub const RESPONSE_LEN: usize = 8;

/// How often a token is drawn before a free key is given up on.
pub const MAX_ATTEMPTS: u8 = 10;

/// The alphabet of secrets: the ASCII letters and digits.
pub open spec fn is_token_char(c: char) -> bool {
    ('0' <= c && c <= '9') || ('A' <= c && c <= 'Z') || ('a' <= c && c <= 'z')
}

/// A secret of `len` characters, all from the alphabet.
pub open spec fn is_token(s: Seq<char>, len: nat) -> bool {
    &&& s.len() == len
    &&& forall|i: int| 0 <= i < s.len() ==> is_token_char(#[trigger] s[i])
}

/// Whether `c` belongs to the alphabet of secrets.
pub fn token_char(c: char) -> (b: bool)
    ensures
        b == is_token_char(c),
{
    ('0' <= c && c <= '9') || ('A' <= c && c <= 'Z') || ('a' <= c && c <= 'z')
}

/// Whether `s` has exactly `len` characters, all of them letters or digits.
pub fn well_formed_token(s: &str, len: usize) -> (b: bool)
    ensures
        b == is_token(s@, len as nat),
{
    let n: usize = s.unicode_len();
    if n != len {
        return false;
    }
    let mut i: usize = 0;
    while i < n
        invariant
            n == s@.len(),
            i <= n,
            forall|j: int| 0 <= j < i ==> is_token_char(#[trigger] s@[j]),
        decreases n - i,
    {
        if !token_char(s.get_char(i)) {
            return false;
        }
        i = i + 1;
    }
    true
}

/// Draws `len` characters from the thread's random generator with
/// `rand::distributions::Alphanumeric::sample_string`. The crate documents
/// that each character is one of a-z, A-Z and 0-9 and that `len` of them
/// are produced; nothing else is claimed, in particular not that two draws
/// differ. The generator is seeded by the operating system and panics if
/// that fails.
#[verifier::external_body]
pub(crate) fn random_token(len: usize) -> (s: String)
    ensures
        is_token(s@, len as nat),
{
    Alphanumeric.sample_string(&mut rand::thread_rng(), len)
}

} // verus!
