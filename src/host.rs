//! The two hosting surfaces: a request handler returning a structured
//! payload (with a variant whose input comes back from a key service), and a
//! ledger program entry that logs the result.

use vstd::prelude::*;
use vstd::utf8::{decode_utf8, decode_utf8_encode_utf8, encode_utf8, valid_utf8};
use crate::cipher::{KEY_LEN, TAG_LEN};
use crate::digest::DIGEST_LEN;
use crate::error::PipelineError;
use crate::keys::{unwrap_error, unwrap_failure_error, KeyMaterial, UnwrapFailure};
use crate::pipeline::{pipeline_outcome, process, PipelineResult};

verus! {

/// Text processed when a request carries no `data` field.
pub const PLACEHOLDER_DATA: &'static str = "No data provided";

/// The `message` field of every successful response.
pub const RESPONSE_MESSAGE: &'static str = "Data processed by FlexNet GX Lambda";

/// The payload a request handler returns: the hex ciphertext and both hex
/// digests, each digest under a field that names its algorithm.
#[derive(Clone, Debug, PartialEq, Eq)]
pub struct HandlerResponse {
    pub message: String,
    pub encrypted_data: String,
    pub sha256_hash: String,
    pub blake3_hash: String,
}

/// The text a request is processed on: its `data` field, or the
/// placeholder when the field is absent.
pub open spec fn request_text(data: Option<Seq<char>>) -> Seq<char> {
    match data {
        Some(d) => d,
        None => PLACEHOLDER_DATA@,
    }
}

/// `r` is the response to processing `input` under `key` and `nonce`: the
/// pipeline's three fields with the fixed message, or its failure as is.
pub open spec fn response_post(
    input: Seq<u8>,
    key: Seq<u8>,
    nonce: Seq<u8>,
    r: Result<HandlerResponse, PipelineError>,
) -> bool {
    &&& key.len() == KEY_LEN
    &&& match pipeline_outcome(input, key, nonce) {
        Ok(v) => {
            &&& r is Ok
            &&& r->Ok_0.message@ == RESPONSE_MESSAGE@
            &&& r->Ok_0.encrypted_data@ == v.0
            &&& r->Ok_0.blake3_hash@ == v.1
            &&& r->Ok_0.sha256_hash@ == v.2
            &&& r->Ok_0.encrypted_data@.len() == 2 * (input.len() + TAG_LEN)
            &&& r->Ok_0.blake3_hash@.len() == 2 * DIGEST_LEN
            &&& r->Ok_0.sha256_hash@.len() == 2 * DIGEST_LEN
        },
        Err(e) => r == Err::<HandlerResponse, PipelineError>(e),
    }
}

fn respond(input: &[u8], key: &KeyMaterial, nonce: &[u8]) -> (r: Result<HandlerResponse, PipelineError>)
    ensures
        response_post(input@, key@, nonce@, r),
{
    match process(input, key, nonce) {
        Ok(res) => Ok(
            HandlerResponse {
                message: RESPONSE_MESSAGE.to_owned(),
                encrypted_data: res.ciphertext_hex,
                sha256_hash: res.sha256_hex,
                blake3_hash: res.blake3_hex,
            },
        ),
        Err(e) => Err(e),
    }
}

/// Handles a request whose `data` field is `data`: the pipeline runs on its
/// UTF-8 bytes, or on the placeholder's when the field is absent.
pub fn handle_request(data: Option<&str>, key: &KeyMaterial, nonce: &[u8]) -> (r: Result<HandlerResponse, PipelineError>)
    ensures
        response_post(
            encode_utf8(
                request_text(
                    match data {
                        Some(d) => Some(d@),
                        None => None,
                    },
                ),
            ),
            key@,
            nonce@,
            r,
        ),
{
    let text: &str = match data {
        Some(d) => d,
        None => PLACEHOLDER_DATA,
    };
    respond(text.as_bytes(), key, nonce)
}

/// Relies on `String::from_utf8`: it accepts exactly the well-formed UTF-8
/// byte strings, and the text it returns is what they encode.
#[verifier::external_body]
fn utf8_text(bytes: Vec<u8>) -> (r: Option<String>)
    ensures
        r is Some <==> valid_utf8(bytes@),
        r is Some ==> r->0@ == decode_utf8(bytes@),
{
    String::from_utf8(bytes).ok()
}

/// Handles a request whose payload came back from the key service's unwrap
/// call: a failed call becomes its pipeline error, bytes that are not UTF-8
/// give `InvalidUtf8`, and otherwise the text they spell is processed as
/// `handle_request` processes its `data`.
pub fn handle_unwrapped(
    unwrapped: Result<Vec<u8>, UnwrapFailure>,
    key: &KeyMaterial,
    nonce: &[u8],
) -> (r: Result<HandlerResponse, PipelineError>)
    ensures
        match unwrapped {
            Err(f) => r == Err::<HandlerResponse, PipelineError>(unwrap_failure_error(f)),
            Ok(b) => if valid_utf8(b@) {
                response_post(b@, key@, nonce@, r)
            } else {
                r == Err::<HandlerResponse, PipelineError>(PipelineError::InvalidUtf8)
            },
        },
{
    let bytes = match unwrapped {
        Ok(b) => b,
        Err(f) => return Err(unwrap_error(f)),
    };
    let ghost raw = bytes@;
    let text = match utf8_text(bytes) {
        Some(t) => t,
        None => return Err(PipelineError::InvalidUtf8),
    };
    proof {
        decode_utf8_encode_utf8(raw);
    }
    respond(text.as_str().as_bytes(), key, nonce)
}

/// The three lines a ledger program logs for a result.
pub open spec fn log_lines_of(v: (Seq<char>, Seq<char>, Seq<char>)) -> Seq<Seq<char>> {
    seq!["Encrypted Data: "@ + v.0, "BLAKE3 Hash: "@ + v.1, "SHA256 Hash: "@ + v.2]
}

/// The log lines for `result`, in the order the ledger program emits them.
pub fn ledger_log_lines(result: &PipelineResult) -> (r: Vec<String>)
    ensures
        r@.len() == 3,
        forall|i: int| 0 <= i < 3 ==> #[trigger] r@[i]@ == log_lines_of(result@)[i],
{
    let mut encrypted = "Encrypted Data: ".to_owned();
    encrypted.append(result.ciphertext_hex.as_str());
    let mut blake3 = "BLAKE3 Hash: ".to_owned();
    blake3.append(result.blake3_hex.as_str());
    let mut sha256 = "SHA256 Hash: ".to_owned();
    sha256.append(result.sha256_hex.as_str());
    let mut lines: Vec<String> = Vec::new();
    lines.push(encrypted);
    lines.push(blake3);
    lines.push(sha256);
    lines
}

/// The ledger entry's work on an instruction: run the pipeline on the
/// instruction bytes and return the lines to log. A failure aborts the call
/// and logs nothing.
pub fn process_instruction(instruction_data: &[u8], key: &KeyMaterial, nonce: &[u8]) -> (r: Result<Vec<String>, PipelineError>)
    ensures
        match pipeline_outcome(instruction_data@, key@, nonce@) {
            Ok(v) => r is Ok && r->Ok_0@.len() == 3
                && forall|i: int| 0 <= i < 3 ==> #[trigger] r->Ok_0@[i]@ == log_lines_of(v)[i],
            Err(e) => r == Err::<Vec<String>, PipelineError>(e),
        },
{
    match process(instruction_data, key, nonce) {
        Ok(res) => Ok(ledger_log_lines(&res)),
        Err(e) => Err(e),
    }
}

} // verus!
