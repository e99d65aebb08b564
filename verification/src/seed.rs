//! Fresh random seeds for wallets.

use vstd::prelude::*;

verus! {

/// One byte from the thread-local generator, by `rand::random`. Nothing is
/// claimed of its value: any byte may come back. The first call on a thread
/// seeds the generator from the system, and panics where the system has no
/// entropy to give.
#[verifier::external_body]
fn random_byte() -> u8 {
    rand::random()
}

/// A seed of `size` bytes, each drawn from the thread-local generator.
pub fn generate(size: usize) -> (seed: Vec<u8>)
    ensures
        seed@.len() == size,
{
    let mut bytes: Vec<u8> = Vec::new();
    let mut i: usize = 0;
    while i < size
        invariant
            i <= size,
            bytes@.len() == i,
        decreases size - i,
    {
        bytes.push(random_byte());
        i = i + 1;
    }
    bytes
}

} // verus!
