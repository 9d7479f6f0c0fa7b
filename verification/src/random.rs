//! Random identifiers, drawn from the thread-local generator of the `rand` crate.
use rand::rngs::ThreadRng;
use rand::RngCore;
use vstd::prelude::*;

verus! {

#[verifier::external_type_specification]
#[verifier::external_body]
pub struct ExThreadRng(rand::rngs::ThreadRng);

/// `rand::thread_rng` gives a handle to the generator of the current thread.
/// Nothing is claimed of the handle. The call fails only where the operating
/// system has no entropy to seed the generator with.
pub assume_specification[ rand::thread_rng ]() -> ThreadRng;

/// Draws `len` bytes with `RngCore::fill_bytes`, which fills the whole of the
/// slice that it is given. Of the bytes themselves nothing is claimed. The
/// call fails only where the operating system has no entropy to reseed the
/// generator with. A length beyond `isize::MAX` cannot be allocated and is
/// left out.
#[verifier::external_body]
pub(crate) fn random_bytes(rng: &mut ThreadRng, len: usize) -> (bytes: Vec<u8>)
    requires
        len <= isize::MAX,
    ensures
        bytes@.len() == len,
{
    let mut bytes = vec![0u8; len];
    rng.fill_bytes(&mut bytes);
    bytes
}

} // verus!
