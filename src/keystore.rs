//! The device's symmetric key: reading it back from stored bytes, and
//! generating a fresh one.

use crate::primitives::{random_key, KEY_LEN};
use vstd::prelude::*;

verus! {

/// Why stored key material could not be used.
#[derive(Debug, Clone, Copy, PartialEq, Eq, Structural)]
pub enum KeyError {
    /// The stored key is shorter than a key.
    KeyCorrupt,
}

/// Reads a key from the stored bytes: the first 32 of them. Fewer than 32
/// bytes is a corrupt key.
pub fn key_from_bytes(bytes: &[u8]) -> (r: Result<[u8; 32], KeyError>)
    ensures
        bytes@.len() < KEY_LEN ==> r == Err::<[u8; 32], KeyError>(KeyError::KeyCorrupt),
        bytes@.len() >= KEY_LEN ==> (r matches Ok(k) && k@ == bytes@.take(KEY_LEN as int)),
{
    if bytes.len() < KEY_LEN {
        return Err(KeyError::KeyCorrupt);
    }
    let mut key: [u8; 32] = [0u8; 32];
    let mut i: usize = 0;
    while i < KEY_LEN
        invariant
            i <= KEY_LEN <= bytes@.len(),
            key@.len() == KEY_LEN,
            forall|j: int| 0 <= j < i ==> key@[j] == bytes@[j],
        decreases KEY_LEN - i,
    {
        key[i] = bytes[i];
        i = i + 1;
    }
    assert(key@ =~= bytes@.take(KEY_LEN as int));
    Ok(key)
}

/// A fresh key drawn from a cryptographically secure random source.
pub fn generate_key() -> (r: [u8; 32])
    ensures
        r@.len() == KEY_LEN,
{
    random_key()
}

} // verus!
