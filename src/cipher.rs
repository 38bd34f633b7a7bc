//! Authenticated encryption of byte strings into printable blobs:
//! base64 of `nonce || ciphertext || tag` under AES-256-GCM.

use crate::primitives::{
    aes256gcm_open, aes256gcm_seal, aes_decrypt, aes_encrypt, base64_decode, base64_decoding,
    base64_encode, base64_encoding, random_nonce, MAX_PLAINTEXT_LEN, NONCE_LEN,
};
use vstd::prelude::*;

verus! {

/// Why encrypting or decrypting a blob failed.
#[derive(Debug, Clone, Copy, PartialEq, Eq, Structural)]
pub enum CipherError {
    /// The plaintext is longer than the cipher accepts.
    EncryptionFailed,
    /// The blob is not base64, or decodes to fewer bytes than a nonce.
    DecodeError,
    /// The tag does not verify: the blob was tampered with or the key is wrong.
    AuthenticationFailed,
}

/// The blob that encrypting `plaintext` under `key` with `nonce` produces.
pub open spec fn sealed_blob(key: Seq<u8>, nonce: Seq<u8>, plaintext: Seq<u8>) -> Seq<char> {
    base64_encoding(nonce + aes256gcm_seal(key, nonce, plaintext))
}

/// Whether `blob` is the encryption of `plaintext` under `key` with some nonce.
pub open spec fn is_sealed_blob(key: Seq<u8>, plaintext: Seq<u8>, blob: Seq<char>) -> bool {
    exists|nonce: Seq<u8>| nonce.len() == NONCE_LEN && blob == #[trigger] sealed_blob(key, nonce, plaintext)
}

/// What decrypting `blob` under `key` yields.
pub open spec fn decrypt_result(key: Seq<u8>, blob: Seq<char>) -> Result<Seq<u8>, CipherError> {
    match base64_decoding(blob) {
        None => Err(CipherError::DecodeError),
        Some(bytes) => if bytes.len() < NONCE_LEN {
            Err(CipherError::DecodeError)
        } else {
            match aes256gcm_open(key, bytes.take(NONCE_LEN as int), bytes.skip(NONCE_LEN as int)) {
                Some(p) => Ok(p),
                None => Err(CipherError::AuthenticationFailed),
            }
        },
    }
}

/// Encrypts `plaintext` under `key` with the given nonce.
pub fn seal_with_nonce(plaintext: &[u8], key: &[u8; 32], nonce: &[u8; 12]) -> (r: Result<String, CipherError>)
    ensures
        plaintext@.len() <= MAX_PLAINTEXT_LEN ==> r is Ok && r->Ok_0@ == sealed_blob(key@, nonce@, plaintext@),
        plaintext@.len() > MAX_PLAINTEXT_LEN ==> r == Err::<String, CipherError>(CipherError::EncryptionFailed),
{
    match aes_encrypt(key, nonce, plaintext) {
        Err(_) => Err(CipherError::EncryptionFailed),
        Ok(ciphertext) => {
            let mut combined: Vec<u8> = Vec::new();
            let mut i: usize = 0;
            while i < NONCE_LEN
                invariant
                    i <= NONCE_LEN,
                    combined@ == nonce@.take(i as int),
                decreases NONCE_LEN - i,
            {
                combined.push(nonce[i]);
                i = i + 1;
                assert(combined@ =~= nonce@.take(i as int));
            }
            let mut j: usize = 0;
            while j < ciphertext.len()
                invariant
                    j <= ciphertext@.len(),
                    combined@ == nonce@ + ciphertext@.take(j as int),
                decreases ciphertext@.len() - j,
            {
                combined.push(ciphertext[j]);
                j = j + 1;
                assert(combined@ =~= nonce@ + ciphertext@.take(j as int));
            }
            assert(ciphertext@.take(ciphertext@.len() as int) =~= ciphertext@);
            Ok(base64_encode(combined.as_slice()))
        },
    }
}

/// Encrypts `plaintext` under `key` with a fresh random nonce.
pub fn encrypt_data(plaintext: &[u8], key: &[u8; 32]) -> (r: Result<String, CipherError>)
    ensures
        plaintext@.len() <= MAX_PLAINTEXT_LEN ==> r is Ok,
        plaintext@.len() > MAX_PLAINTEXT_LEN ==> r == Err::<String, CipherError>(CipherError::EncryptionFailed),
        r matches Ok(blob) ==> is_sealed_blob(key@, plaintext@, blob@),
{
    let nonce = random_nonce();
    let r = seal_with_nonce(plaintext, key, &nonce);
    proof {
        if r is Ok {
            assert(sealed_blob(key@, nonce@, plaintext@) == r->Ok_0@);
        }
    }
    r
}

/// Decrypts a blob under `key`. A blob that `encrypt_data` made from a
/// plaintext under the same key decrypts to that plaintext.
pub fn decrypt_data(blob: &str, key: &[u8; 32]) -> (r: Result<Vec<u8>, CipherError>)
    ensures
        match r {
            Ok(p) => decrypt_result(key@, blob@) == Ok::<Seq<u8>, CipherError>(p@),
            Err(e) => decrypt_result(key@, blob@) == Err::<Seq<u8>, CipherError>(e),
        },
        forall|plaintext: Seq<u8>|
            plaintext.len() <= MAX_PLAINTEXT_LEN && #[trigger] is_sealed_blob(key@, plaintext, blob@)
                ==> r is Ok && r->Ok_0@ == plaintext,
{
    let combined = match base64_decode(blob) {
        Ok(bytes) => bytes,
        Err(_) => {
            return Err(CipherError::DecodeError);
        },
    };
    if combined.len() < NONCE_LEN {
        return Err(CipherError::DecodeError);
    }
    let mut nonce: [u8; 12] = [0u8; 12];
    let mut i: usize = 0;
    while i < NONCE_LEN
        invariant
            i <= NONCE_LEN <= combined@.len(),
            nonce@.len() == NONCE_LEN,
            forall|k: int| 0 <= k < i ==> nonce@[k] == combined@[k],
        decreases NONCE_LEN - i,
    {
        nonce[i] = combined[i];
        i = i + 1;
    }
    assert(nonce@ =~= combined@.take(NONCE_LEN as int));
    let mut ciphertext: Vec<u8> = Vec::new();
    let mut j: usize = NONCE_LEN;
    while j < combined.len()
        invariant
            NONCE_LEN <= j <= combined@.len(),
            ciphertext@ == combined@.subrange(NONCE_LEN as int, j as int),
        decreases combined@.len() - j,
    {
        ciphertext.push(combined[j]);
        j = j + 1;
        assert(ciphertext@ =~= combined@.subrange(NONCE_LEN as int, j as int));
    }
    assert(ciphertext@ =~= combined@.skip(NONCE_LEN as int));
    let r = match aes_decrypt(key, &nonce, ciphertext.as_slice()) {
        Ok(p) => Ok(p),
        Err(_) => Err(CipherError::AuthenticationFailed),
    };
    assert forall|plaintext: Seq<u8>|
        plaintext.len() <= MAX_PLAINTEXT_LEN && #[trigger] is_sealed_blob(key@, plaintext, blob@)
            implies r is Ok && r->Ok_0@ == plaintext by {
        let n = choose|n: Seq<u8>| n.len() == NONCE_LEN && blob@ == #[trigger] sealed_blob(key@, n, plaintext);
        let sealed = aes256gcm_seal(key@, n, plaintext);
        assert(combined@ == n + sealed);
        assert(combined@.take(NONCE_LEN as int) =~= n);
        assert(combined@.skip(NONCE_LEN as int) =~= sealed);
    }
    r
}

} // verus!
