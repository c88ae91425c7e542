//! The decisions of the daemon's `POST /transcribe` handler and of its
//! listener setup.
//!
//! The handler admits a payload only if it reads as WAV; a refused payload is
//! answered with 400 before any inference starts. Inference then either gives
//! a transcript (200, the text as the body) or fails (500).

use vstd::prelude::*;
use crate::config::ServerConfig;
use crate::text::{append_decimal, decimal, push_char};
use crate::wav::{hound_header, read_wav, reads_as, supported_header, WavContent, WavError};

verus! {

/// The answer to one transcription request.
#[derive(Debug, PartialEq, Eq)]
pub enum Reply {
    /// 200 OK, with the transcript as the plain-text body.
    Transcript(String),
    /// 400 Bad Request: the payload is not a WAV file in a supported format.
    BadRequest,
    /// 500 Internal Server Error: inference did not produce a transcript.
    InternalError,
}

/// Why inference did not produce a transcript.
#[derive(Debug, Clone, Copy, PartialEq, Eq)]
pub enum InferenceFailure {
    /// The lock around the model was poisoned by an earlier panic.
    LockPoisoned,
    /// The model provider returned an error.
    ProviderFailed,
    /// The blocking task that ran inference panicked.
    WorkerPanicked,
}

/// The HTTP status code of a reply.
pub open spec fn status_of(reply: Reply) -> u16 {
    match reply {
        Reply::Transcript(_) => 200,
        Reply::BadRequest => 400,
        Reply::InternalError => 500,
    }
}

/// The body of a reply: the transcript, or nothing.
pub open spec fn body_of(reply: Reply) -> Seq<char> {
    match reply {
        Reply::Transcript(text) => text@,
        _ => Seq::empty(),
    }
}

impl Reply {
    /// The HTTP status code of this reply.
    pub fn status(&self) -> (code: u16)
        ensures
            code == status_of(*self),
    {
        match self {
            Reply::Transcript(_) => 200,
            Reply::BadRequest => 400,
            Reply::InternalError => 500,
        }
    }

    /// The body of this reply.
    pub fn into_body(self) -> (body: String)
        ensures
            body@ == body_of(self),
    {
        match self {
            Reply::Transcript(text) => text,
            _ => String::new(),
        }
    }
}

/// A payload that was not admitted: the reply it gets, and why it could not
/// be read.
#[derive(Debug, PartialEq, Eq)]
pub struct Rejection {
    pub reply: Reply,
    pub cause: WavError,
}

/// Admits a request payload: the WAV content where the bytes read as WAV in
/// a supported format (float, or integer of at most 16 bits), otherwise the
/// 400 reply (with the reading error), before any inference.
pub fn admit_payload(bytes: &[u8]) -> (r: Result<WavContent, Rejection>)
    ensures
        r is Ok <==> (hound_header(bytes@) matches Some(h) && supported_header(h)),
        (hound_header(bytes@) matches Some(h) && !supported_header(h)) ==> (r matches Err(rejection)
            && rejection.cause == WavError::TooWide),
        r matches Ok(content) ==> reads_as(bytes@, content),
        r matches Err(rejection) ==> rejection.reply == Reply::BadRequest && status_of(rejection.reply) == 400,
{
    match read_wav(bytes) {
        Ok(content) => Ok(content),
        Err(cause) => Err(Rejection { reply: Reply::BadRequest, cause }),
    }
}

/// The reply once inference has run: the transcript, unchanged, where it
/// succeeded, and 500 whatever made it fail.
pub fn reply_for_inference(outcome: Result<String, InferenceFailure>) -> (reply: Reply)
    ensures
        match outcome {
            Ok(text) => reply == Reply::Transcript(text) && status_of(reply) == 200 && body_of(reply) == text@,
            Err(_) => reply == Reply::InternalError && status_of(reply) == 500,
        },
{
    match outcome {
        Ok(text) => Reply::Transcript(text),
        Err(_) => Reply::InternalError,
    }
}

/// The address the daemon binds: `host:port`, the port in decimal.
pub fn bind_address(config: &ServerConfig) -> (addr: String)
    ensures
        addr@ == config.host@ + seq![':'] + decimal(config.port as nat),
{
    let mut addr = config.host.clone();
    push_char(&mut addr, ':');
    append_decimal(&mut addr, config.port as u64);
    addr
}

} // verus!
