//! Random state-parameter generation for authorization requests.

use rand::Rng;
use vstd::prelude::*;

verus! {

/// True for ASCII letters and digits.
pub open spec fn is_alnum_char(c: char) -> bool {
    ('A' <= c && c <= 'Z') || ('a' <= c && c <= 'z') || ('0' <= c && c <= '9')
}

/// Relies on `rand`'s `Alphanumeric` distribution: `len` characters, each an
/// ASCII letter or digit; nothing is promised of which ones.
#[verifier::external_body]
pub fn random_state(len: usize) -> (r: String)
    ensures
        r@.len() == len,
        forall|i: int| 0 <= i < r@.len() ==> is_alnum_char(#[trigger] r@[i]),
{
    rand::thread_rng().sample_iter(&rand::distributions::Alphanumeric).take(len).map(
        char::from,
    ).collect()
}

} // verus!
