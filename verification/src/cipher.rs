//! The boundary to the `aes-gcm` crate: what the library takes on trust
//! about AES-256-GCM.

use aes_gcm::aead::generic_array::GenericArray;
use aes_gcm::aead::{Aead, AeadCore, KeyInit, OsRng};
use aes_gcm::Aes256Gcm;
use vstd::prelude::*;

verus! {

/// Length of the symmetric key, in bytes.
pub const KEY_SIZE: usize = 32;

/// Length of the nonce, in bytes.
pub const NONCE_SIZE: usize = 12;

/// Length of the authentication tag that follows the ciphertext, in bytes.
pub const TAG_SIZE: usize = 16;

/// The longest plaintext, in bytes, that the cipher accepts (2^36).
pub open spec fn max_plaintext_len() -> int {
    0x10_0000_0000
}

/// The error of the `aead` traits. It carries no information.
#[verifier::external_type_specification]
#[verifier::external_body]
pub struct ExAeadError(aes_gcm::Error);

/// What `Aes256Gcm::encrypt` returns for a 32-byte key, a 12-byte nonce and a
/// plaintext that it accepts, with no associated data: the ciphertext
/// followed by the tag.
pub uninterp spec fn aes256_gcm_seal(key: Seq<u8>, nonce: Seq<u8>, plaintext: Seq<u8>) -> Seq<u8>;

/// What `Aes256Gcm::decrypt` returns for a 32-byte key, a 12-byte nonce and a
/// ciphertext with its tag, with no associated data: the plaintext, or `None`
/// where the cipher refuses the input.
pub uninterp spec fn aes256_gcm_open(key: Seq<u8>, nonce: Seq<u8>, sealed: Seq<u8>) -> Option<
    Seq<u8>,
>;

/// Calls `Aes256Gcm::new` on the key and `Aead::encrypt` on the nonce and the
/// plaintext.
///
/// Taken on trust, from the source of `aes-gcm` and `aead`: the call fails
/// exactly when the plaintext is longer than 2^36 bytes; otherwise the output
/// depends on key, nonce and plaintext alone, is 16 bytes longer than the
/// plaintext, and `Aead::decrypt` under the same key and nonce gives the
/// plaintext back (it recomputes the same tag over the same ciphertext and
/// applies the same keystream).
#[verifier::external_body]
pub(crate) fn aead_encrypt(key: &[u8; 32], nonce: &[u8], plaintext: &[u8]) -> (r: Result<
    Vec<u8>,
    aes_gcm::Error,
>)
    requires
        nonce@.len() == NONCE_SIZE,
    ensures
        r is Ok <==> plaintext@.len() <= max_plaintext_len(),
        r is Ok ==> r->Ok_0@ == aes256_gcm_seal(key@, nonce@, plaintext@),
        r is Ok ==> r->Ok_0@.len() == plaintext@.len() + TAG_SIZE,
        r is Ok ==> aes256_gcm_open(key@, nonce@, r->Ok_0@) == Some(plaintext@),
{
    let cipher = Aes256Gcm::new(GenericArray::from_slice(key));
    cipher.encrypt(GenericArray::from_slice(nonce), plaintext)
}

/// Calls `Aes256Gcm::new` on the key and `Aead::decrypt` on the nonce and the
/// sealed bytes.
///
/// Taken on trust, from the source of `aes-gcm` and `aead`: the outcome
/// depends on key, nonce and input alone; an input shorter than the 16-byte
/// tag is refused; a plaintext that comes back is 16 bytes shorter than the
/// input. Nothing is claimed about which other inputs are refused.
#[verifier::external_body]
pub(crate) fn aead_decrypt(key: &[u8; 32], nonce: &[u8], sealed: &[u8]) -> (r: Result<
    Vec<u8>,
    aes_gcm::Error,
>)
    requires
        nonce@.len() == NONCE_SIZE,
    ensures
        r is Ok ==> aes256_gcm_open(key@, nonce@, sealed@) == Some(r->Ok_0@),
        r is Err ==> aes256_gcm_open(key@, nonce@, sealed@) is None,
        sealed@.len() < TAG_SIZE ==> r is Err,
        r is Ok ==> r->Ok_0@.len() + TAG_SIZE == sealed@.len(),
{
    let cipher = Aes256Gcm::new(GenericArray::from_slice(key));
    cipher.decrypt(GenericArray::from_slice(nonce), sealed)
}

/// Calls `Aes256Gcm::generate_nonce` with the operating system's random
/// number generator. Nothing is claimed about the twelve bytes: two calls may
/// return anything, equal values included. The generator panics where the
/// operating system cannot supply random bytes.
#[verifier::external_body]
pub(crate) fn random_nonce() -> (nonce: [u8; 12]) {
    Aes256Gcm::generate_nonce(&mut OsRng).into()
}

} // verus!
