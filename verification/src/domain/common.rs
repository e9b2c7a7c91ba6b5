//! Fresh ids.

use rand::distributions::{Alphanumeric, DistString};
use vstd::prelude::*;

verus! {

/// Whether `c` is one of the characters an id is drawn from: an ASCII
/// letter or digit.
pub open spec fn is_id_char(c: char) -> bool {
    ('0' <= c && c <= '9') || ('a' <= c && c <= 'z') || ('A' <= c && c <= 'Z')
}

/// Whether `id` is an id of length `len`.
pub open spec fn is_id(id: Seq<char>, len: nat) -> bool {
    id.len() == len && forall|i: int| 0 <= i < id.len() ==> is_id_char(#[trigger] id[i])
}

/// Calls `Alphanumeric.sample_string` of `rand` with the thread's generator.
/// Trusted: the string has `len` characters, each an ASCII letter or digit.
/// Which ones is chance, uniform over the 62 of them, and nothing is said of
/// it.
#[verifier::external_body]
fn sample_alphanumeric(len: usize) -> (s: String)
    ensures
        is_id(s@, len as nat),
{
    Alphanumeric.sample_string(&mut rand::thread_rng(), len)
}

/// A fresh random id of `len` letters and digits.
pub fn create_id(len: usize) -> (id: String)
    ensures
        is_id(id@, len as nat),
{
    sample_alphanumeric(len)
}

} // verus!
