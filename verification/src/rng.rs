//! The randomness the handshake draws on: private exponents, public
//! parameters, integrity seeds and initial keys all come from the process
//! CSPRNG.  Nothing can be promised of a drawn value; every function that
//! works with one takes it as an argument and is verified for all of them.

use vstd::prelude::*;

verus! {

/// Relies on `rand::random`: one value drawn from the thread-local
/// CSPRNG.  No clause: nothing holds of a random value.
pub assume_specification<T>[ rand::random::<T> ]() -> (r: T)
    where
        rand::distributions::Standard: rand::distributions::Distribution<T>,
;

/// Draw a fresh 32-bit value, for private exponents, parameters and
/// seeds.
pub fn random_u32() -> u32 {
    rand::random::<u32>()
}

/// Draw a fresh 8-byte key.
pub fn random_key() -> [u8; 8] {
    rand::random::<[u8; 8]>()
}

} // verus!
