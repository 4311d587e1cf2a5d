//! The orchestrator: seal the input, hex-encode the ciphertext, commit to the
//! hex text with both digests.

use vstd::prelude::*;
use vstd::utf8::encode_utf8;
use crate::cipher::{aes256gcm_seal_of, encrypt, encryption_accepts, KEY_LEN, PLAINTEXT_MAX, TAG_LEN};
use crate::digest::{commit, digest_pair_of, DIGEST_LEN};
use crate::encoding::{hex_encode, hex_of, lemma_hex_injective};
use crate::error::PipelineError;
use crate::keys::KeyMaterial;

verus! {

/// The outcome of one invocation: the hex ciphertext and the two hex
/// digests of that hex text. Built once and never changed.
#[derive(Clone, Debug, PartialEq, Eq)]
pub struct PipelineResult {
    pub ciphertext_hex: String,
    pub blake3_hex: String,
    pub sha256_hex: String,
}

impl View for PipelineResult {
    type V = (Seq<char>, Seq<char>, Seq<char>);

    open spec fn view(&self) -> (Seq<char>, Seq<char>, Seq<char>) {
        (self.ciphertext_hex@, self.blake3_hex@, self.sha256_hex@)
    }
}

/// Hex text of the AES-256-GCM ciphertext of `input`.
pub open spec fn ciphertext_hex_of(input: Seq<u8>, key: Seq<u8>, nonce: Seq<u8>) -> Seq<char> {
    hex_of(aes256gcm_seal_of(key, nonce, input))
}

/// What the pipeline yields for `input` under `key` and `nonce`: the hex
/// ciphertext with the digest pair of that hex text, or the failure of the
/// sealing step.
pub open spec fn pipeline_outcome(input: Seq<u8>, key: Seq<u8>, nonce: Seq<u8>) -> Result<
    (Seq<char>, Seq<char>, Seq<char>),
    PipelineError,
> {
    if encryption_accepts(key, nonce, input) {
        let c = ciphertext_hex_of(input, key, nonce);
        Ok((c, digest_pair_of(c).0, digest_pair_of(c).1))
    } else {
        Err(PipelineError::EncryptionFailure)
    }
}

/// The view of a pipeline return value.
pub open spec fn outcome_view(r: Result<PipelineResult, PipelineError>) -> Result<
    (Seq<char>, Seq<char>, Seq<char>),
    PipelineError,
> {
    match r {
        Ok(v) => Ok(v@),
        Err(e) => Err(e),
    }
}

/// What `process` promises of its return value `r`.
pub open spec fn process_post(
    input: Seq<u8>,
    key: Seq<u8>,
    nonce: Seq<u8>,
    r: Result<PipelineResult, PipelineError>,
) -> bool {
    &&& key.len() == KEY_LEN
    &&& outcome_view(r) == pipeline_outcome(input, key, nonce)
    &&& r is Ok ==> forall|other: Seq<u8>|
        other != input && other.len() <= PLAINTEXT_MAX
            ==> #[trigger] aes256gcm_seal_of(key, nonce, other) != aes256gcm_seal_of(key, nonce, input)
    &&& r is Ok ==> r->Ok_0.ciphertext_hex@.len() == 2 * (input.len() + TAG_LEN)
    &&& r is Ok ==> r->Ok_0.blake3_hex@.len() == 2 * DIGEST_LEN
    &&& r is Ok ==> r->Ok_0.sha256_hex@.len() == 2 * DIGEST_LEN
}

/// Runs the pipeline on `input` with a resolved key: seal, hex-encode, then
/// hash the hex text's bytes with BLAKE3 and SHA-256. All or nothing.
pub fn process(input: &[u8], key: &KeyMaterial, nonce: &[u8]) -> (r: Result<PipelineResult, PipelineError>)
    ensures
        process_post(input@, key@, nonce@, r),
{
    let sealed = match encrypt(key.as_bytes(), nonce, input) {
        Ok(c) => c,
        Err(e) => return Err(e),
    };
    let ciphertext_hex = hex_encode(sealed.as_slice());
    let pair = commit(ciphertext_hex.as_str());
    Ok(PipelineResult { ciphertext_hex, blake3_hex: pair.blake3_hex, sha256_hex: pair.sha256_hex })
}

/// Runs the pipeline on the UTF-8 bytes of `data`, with a key resolved from
/// the fixed secret `secret`: `KeyUnavailable` unless the secret is 32
/// bytes, else what `process` yields.
pub fn process_data_for_blockchain(data: &str, secret: &[u8], nonce: &[u8]) -> (r: Result<PipelineResult, PipelineError>)
    ensures
        secret@.len() != KEY_LEN ==> r == Err::<PipelineResult, PipelineError>(PipelineError::KeyUnavailable),
        secret@.len() == KEY_LEN ==> process_post(encode_utf8(data@), secret@, nonce@, r),
{
    let key = match KeyMaterial::from_static(secret) {
        Ok(k) => k,
        Err(e) => return Err(e),
    };
    process(data.as_bytes(), &key, nonce)
}

/// Repeated runs on the same input, key and nonce give the same ciphertext
/// and the same digest pair.
pub proof fn lemma_pipeline_deterministic(
    input: Seq<u8>,
    key: Seq<u8>,
    nonce: Seq<u8>,
    r1: Result<PipelineResult, PipelineError>,
    r2: Result<PipelineResult, PipelineError>,
)
    requires
        process_post(input, key, nonce, r1),
        process_post(input, key, nonce, r2),
    ensures
        outcome_view(r1) == outcome_view(r2),
        r1 is Ok <==> r2 is Ok,
{
}

/// Under one key and nonce, distinct inputs never share a hex ciphertext.
pub proof fn lemma_distinct_inputs_distinct_ciphertexts(
    p1: Seq<u8>,
    p2: Seq<u8>,
    key: Seq<u8>,
    nonce: Seq<u8>,
    r1: Result<PipelineResult, PipelineError>,
    r2: Result<PipelineResult, PipelineError>,
)
    requires
        process_post(p1, key, nonce, r1),
        process_post(p2, key, nonce, r2),
        r1 is Ok,
        r2 is Ok,
        p1 != p2,
    ensures
        r1->Ok_0.ciphertext_hex@ != r2->Ok_0.ciphertext_hex@,
{
    assert(aes256gcm_seal_of(key, nonce, p2) != aes256gcm_seal_of(key, nonce, p1));
    if r1->Ok_0.ciphertext_hex@ == r2->Ok_0.ciphertext_hex@ {
        lemma_hex_injective(aes256gcm_seal_of(key, nonce, p1), aes256gcm_seal_of(key, nonce, p2));
    }
}

} // verus!
