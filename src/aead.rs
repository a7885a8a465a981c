use vstd::prelude::*;
use aes_gcm::aead::generic_array::GenericArray;
use aes_gcm::aead::{Aead, AeadCore, OsRng};
use aes_gcm::{Aes256Gcm, KeyInit};

verus! {

/// Length in bytes of an AES-256 key.
pub const KEY_LEN: usize = 32;

/// Length in bytes of an AES-GCM nonce.
pub const NONCE_LEN: usize = 12;

/// Length in bytes of the authentication tag appended to a sealed body.
pub const TAG_LEN: usize = 16;

/// Longest plaintext that AES-GCM seals, in bytes.
pub const MAX_PLAINTEXT_LEN: u64 = 68719476736;

/// The ciphertext and tag that AES-256-GCM makes of `plaintext` under `key`
/// and `nonce`, with no associated data.
pub uninterp spec fn gcm_seal(key: Seq<u8>, nonce: Seq<u8>, plaintext: Seq<u8>) -> Seq<u8>;

/// What AES-256-GCM recovers from `sealed` under `key` and `nonce`, with no
/// associated data: `None` where the tag does not check out.
pub uninterp spec fn gcm_open(key: Seq<u8>, nonce: Seq<u8>, sealed: Seq<u8>) -> Option<Seq<u8>>;

/// Relies on `Aes256Gcm::generate_nonce` with `OsRng`: a fresh nonce drawn
/// from the operating system's secure random source. Nothing is known of
/// its value.
#[verifier::external_body]
pub(crate) fn fresh_nonce() -> (r: [u8; 12]) {
    let nonce = Aes256Gcm::generate_nonce(OsRng);
    let mut out = [0u8; 12];
    out.copy_from_slice(nonce.as_slice());
    out
}

/// Relies on `Aes256Gcm::new` and `Aead::encrypt` of aes-gcm: a plaintext
/// of at most `P_MAX` bytes is sealed into ciphertext followed by a 16-byte
/// tag, which opening under the same key and nonce turns back into the
/// plaintext; a longer one is refused.
#[verifier::external_body]
pub(crate) fn seal(key: &[u8], nonce: &[u8; 12], plaintext: &[u8]) -> (r: Option<Vec<u8>>)
    requires
        key@.len() == KEY_LEN,
    ensures
        r is Some <==> plaintext@.len() <= MAX_PLAINTEXT_LEN,
        r matches Some(c) ==> c@ == gcm_seal(key@, nonce@, plaintext@),
        r matches Some(c) ==> c@.len() == plaintext@.len() + TAG_LEN,
        r matches Some(c) ==> gcm_open(key@, nonce@, c@) == Some(plaintext@),
{
    let cipher = Aes256Gcm::new(GenericArray::from_slice(key));
    cipher.encrypt(GenericArray::from_slice(nonce), plaintext).ok()
}

/// Relies on `Aes256Gcm::new` and `Aead::decrypt` of aes-gcm: the body is
/// opened, or refused where its tag does not check out.
#[verifier::external_body]
pub(crate) fn open(key: &[u8], nonce: &[u8; 12], sealed: &[u8]) -> (r: Option<Vec<u8>>)
    requires
        key@.len() == KEY_LEN,
    ensures
        match r {
            Some(p) => gcm_open(key@, nonce@, sealed@) == Some(p@),
            None => gcm_open(key@, nonce@, sealed@) is None,
        },
{
    let cipher = Aes256Gcm::new(GenericArray::from_slice(key));
    cipher.decrypt(GenericArray::from_slice(nonce), sealed).ok()
}

} // verus!
