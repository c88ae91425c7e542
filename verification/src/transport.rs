//! The client's rules for talking to the daemon: where a request goes and
//! what a response means.

use vstd::prelude::*;
use vstd::string::*;

verus! {

/// Why the daemon's response does not give a transcript.
#[derive(Debug, PartialEq, Eq)]
pub enum TransportError {
    /// The daemon answered with a status outside 200..=299; `body` is the
    /// response text, empty where it could not be read.
    Status { status: u16, body: String },
    /// The daemon answered with success but its body could not be read.
    UnreadableBody,
}

/// The endpoint that transcribes: the daemon address followed by
/// `/transcribe`.
pub fn transcribe_url(daemon_url: &str) -> (url: String)
    ensures
        url@ == daemon_url@ + "/transcribe"@,
{
    let mut url = String::from_str(daemon_url);
    url.append("/transcribe");
    url
}

/// Whether an HTTP status code is a success (200 to 299).
pub fn is_success(status: u16) -> (ok: bool)
    ensures
        ok == (200 <= status <= 299),
{
    200 <= status && status <= 299
}

/// What the daemon's response gives the client, from its status code and its
/// body (`None` where the body could not be read as text): the body where
/// the status is a success, otherwise an error that carries the status and
/// the body, empty if it could not be read.
pub fn read_reply(status: u16, body: Option<String>) -> (r: Result<String, TransportError>)
    ensures
        200 <= status <= 299 ==> match body {
            Some(text) => r == Ok::<String, TransportError>(text),
            None => r == Err::<String, TransportError>(TransportError::UnreadableBody),
        },
        !(200 <= status <= 299) ==> (r matches Err(TransportError::Status { status: s, body: b })
            && s == status && b@ == match body {
                Some(text) => text@,
                None => Seq::<char>::empty(),
            }),
{
    if is_success(status) {
        match body {
            Some(text) => Ok(text),
            None => Err(TransportError::UnreadableBody),
        }
    } else {
        let text = match body {
            Some(text) => text,
            None => String::new(),
        };
        Err(TransportError::Status { status, body: text })
    }
}

} // verus!
