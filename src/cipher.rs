//! AES-256-GCM sealing of a payload under a caller-supplied key and nonce.

use vstd::prelude::*;
use aes_gcm::aead::{Aead, KeyInit};
use crate::error::PipelineError;

verus! {

/// Key length of AES-256-GCM, in bytes.
pub const KEY_LEN: usize = 32;

/// Nonce length of AES-256-GCM as used here, in bytes.
pub const NONCE_LEN: usize = 12;

/// Length of the authentication tag appended to every ciphertext, in bytes.
pub const TAG_LEN: usize = 16;

/// Longest plaintext that AES-GCM accepts: 2^36 bytes.
pub const PLAINTEXT_MAX: u64 = 68_719_476_736;

/// The AES-256-GCM ciphertext (payload followed by its tag) of `plaintext`
/// under `key` and `nonce`, with no associated data.
pub uninterp spec fn aes256gcm_seal_of(key: Seq<u8>, nonce: Seq<u8>, plaintext: Seq<u8>) -> Seq<u8>;

#[verifier::external_type_specification]
#[verifier::external_body]
pub struct ExAeadError(aes_gcm::Error);

/// Relies on `Aead::encrypt` of `aes_gcm::Aes256Gcm` with an empty
/// associated data: it refuses a plaintext longer than 2^36 bytes and
/// otherwise returns the encrypted payload followed by a 16-byte tag. The
/// payload is the plaintext XORed with a keystream fixed by key and nonce,
/// so under one key and nonce no two plaintexts share a ciphertext.
#[verifier::external_body]
fn aes256gcm_seal(key: &[u8], nonce: &[u8], plaintext: &[u8]) -> (r: Result<Vec<u8>, aes_gcm::Error>)
    requires
        key@.len() == KEY_LEN,
        nonce@.len() == NONCE_LEN,
    ensures
        r is Ok <==> plaintext@.len() <= PLAINTEXT_MAX,
        r is Ok ==> r->Ok_0@ == aes256gcm_seal_of(key@, nonce@, plaintext@),
        r is Ok ==> r->Ok_0@.len() == plaintext@.len() + TAG_LEN,
        r is Ok ==> forall|other: Seq<u8>|
            other != plaintext@ && other.len() <= PLAINTEXT_MAX
                ==> #[trigger] aes256gcm_seal_of(key@, nonce@, other) != r->Ok_0@,
{
    let cipher = aes_gcm::Aes256Gcm::new(aes_gcm::Key::<aes_gcm::Aes256Gcm>::from_slice(key));
    cipher.encrypt(aes_gcm::Nonce::from_slice(nonce), plaintext)
}

/// Whether `encrypt` accepts these inputs: a 32-byte key, a 12-byte nonce
/// and a plaintext within the AES-GCM limit.
pub open spec fn encryption_accepts(key: Seq<u8>, nonce: Seq<u8>, plaintext: Seq<u8>) -> bool {
    &&& key.len() == KEY_LEN
    &&& nonce.len() == NONCE_LEN
    &&& plaintext.len() <= PLAINTEXT_MAX
}

/// Seals `plaintext` under `key` and `nonce`. Fails with
/// `EncryptionFailure` exactly when a length is out of range.
pub fn encrypt(key: &[u8], nonce: &[u8], plaintext: &[u8]) -> (r: Result<Vec<u8>, PipelineError>)
    ensures
        r is Ok <==> encryption_accepts(key@, nonce@, plaintext@),
        r is Ok ==> r->Ok_0@ == aes256gcm_seal_of(key@, nonce@, plaintext@),
        r is Ok ==> r->Ok_0@.len() == plaintext@.len() + TAG_LEN,
        r is Ok ==> forall|other: Seq<u8>|
            other != plaintext@ && other.len() <= PLAINTEXT_MAX
                ==> #[trigger] aes256gcm_seal_of(key@, nonce@, other) != r->Ok_0@,
        r is Err ==> r->Err_0 == PipelineError::EncryptionFailure,
{
    if key.len() != KEY_LEN || nonce.len() != NONCE_LEN {
        return Err(PipelineError::EncryptionFailure);
    }
    match aes256gcm_seal(key, nonce, plaintext) {
        Ok(sealed) => Ok(sealed),
        Err(_) => Err(PipelineError::EncryptionFailure),
    }
}

} // verus!
