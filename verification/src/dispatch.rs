//! The synchronous dispatcher: decode a request envelope, hand the selected
//! case to its handler on the calling thread, and encode what comes back.

use crate::buffer::printable;
use crate::envelope::oneof_encoding;
use crate::envelope::Case;
use crate::envelope::Message;
use crate::envelope::Oneof;
use crate::envelope::Request;
use crate::envelope::SyncCase;
use crate::envelope::SyncRequest;
use crate::wire::DecodeError;
use vstd::prelude::*;

verus! {

/// How a handler ended.
#[derive(Clone, Debug, PartialEq, Eq)]
pub enum HandlerOutcome {
    /// It returned a response: the bytes of its message.
    Done(Vec<u8>),
    /// It returned an error of its domain, here as text.
    Failed(String),
    /// It ended abnormally; the text says how.
    Panicked(String),
}

/// The message of a synchronous request that selects no case.
pub open spec fn no_case_message() -> Seq<char> {
    "no sync req"@
}

/// The message of a response that is too long to encode.
pub open spec fn too_large_message() -> Seq<char> {
    "response too large"@
}

/// The message of a request that does not decode.
pub open spec fn decode_message(e: DecodeError) -> Seq<char> {
    match e {
        DecodeError::Truncated => "invalid request: unexpected EOF"@,
        DecodeError::IncorrectVarint => "invalid request: incorrect varint"@,
        DecodeError::IncorrectTag => "invalid request: incorrect tag"@,
        DecodeError::UnexpectedWireType => "invalid request: unexpected wire type"@,
        DecodeError::NoCase => "invalid request: no case"@,
    }
}

/// The messages that the dispatcher writes itself are printable.
pub proof fn lemma_messages_printable(e: DecodeError)
    ensures
        printable(no_case_message()),
        printable(too_large_message()),
        printable(decode_message(e)),
{
    reveal_strlit("no sync req");
    reveal_strlit("response too large");
    reveal_strlit("invalid request: unexpected EOF");
    reveal_strlit("invalid request: incorrect varint");
    reveal_strlit("invalid request: incorrect tag");
    reveal_strlit("invalid request: unexpected wire type");
    reveal_strlit("invalid request: no case");
}

/// The text of a decode failure.
pub fn describe(e: DecodeError) -> (message: String)
    ensures
        message@ == decode_message(e),
{
    match e {
        DecodeError::Truncated => "invalid request: unexpected EOF".to_owned(),
        DecodeError::IncorrectVarint => "invalid request: incorrect varint".to_owned(),
        DecodeError::IncorrectTag => "invalid request: incorrect tag".to_owned(),
        DecodeError::UnexpectedWireType => "invalid request: unexpected wire type".to_owned(),
        DecodeError::NoCase => "invalid request: no case".to_owned(),
    }
}

/// What a call answers once its handler has ended: on success the bytes of
/// the response envelope, which selects the case of the request, else a message.
pub open spec fn response_of<C: Case>(case: C, outcome: HandlerOutcome) -> Result<
    Seq<u8>,
    Seq<char>,
> {
    match outcome {
        HandlerOutcome::Done(payload) => match oneof_encoding((case, payload@)) {
            Ok(bytes) => Ok(bytes),
            Err(_) => Err(too_large_message()),
        },
        HandlerOutcome::Failed(message) => Err(message@),
        HandlerOutcome::Panicked(message) => Err(message@),
    }
}

/// The view of what a call answers.
pub open spec fn answer_view(r: Result<Vec<u8>, String>) -> Result<Seq<u8>, Seq<char>> {
    match r {
        Ok(bytes) => Ok(bytes@),
        Err(message) => Err(message@),
    }
}

/// Turns the outcome of a handler into the answer of the call.
pub fn respond<C: Case>(case: C, outcome: HandlerOutcome) -> (r: Result<Vec<u8>, String>)
    ensures
        answer_view(r) == response_of(case, outcome),
{
    match outcome {
        HandlerOutcome::Done(payload) => {
            let response = Oneof { case, payload };
            match response.write_to_bytes() {
                Ok(bytes) => Ok(bytes),
                Err(_) => Err("response too large".to_owned()),
            }
        },
        HandlerOutcome::Failed(message) => Err(message),
        HandlerOutcome::Panicked(message) => Err(message),
    }
}

/// Serves a decoded request: the handler gets the selected case and its
/// payload, and its outcome becomes the answer. A request without a case is
/// answered with a message and no handler runs.
pub fn dispatch_request<H: FnOnce(SyncCase, Vec<u8>) -> HandlerOutcome>(
    req: SyncRequest,
    handler: H,
) -> (r: Result<Vec<u8>, String>)
    requires
        req.value matches Some(oneof) ==> handler.requires((oneof.case, oneof.payload)),
    ensures
        match req.value {
            Some(oneof) => exists|outcome: HandlerOutcome|
                #[trigger] handler.ensures((oneof.case, oneof.payload), outcome) && answer_view(r)
                    == response_of(oneof.case, outcome),
            None => answer_view(r) == Err::<Seq<u8>, Seq<char>>(no_case_message()),
        },
{
    match req.value {
        Some(oneof) => {
            let case = oneof.case;
            let outcome = handler(case, oneof.payload);
            respond(case, outcome)
        },
        None => Err("no sync req".to_owned()),
    }
}

/// Whether `answer` is what some run of the handler on the selected case gives.
pub open spec fn served<H: FnOnce(SyncCase, Vec<u8>) -> HandlerOutcome>(
    handler: H,
    selected: (SyncCase, Seq<u8>),
    answer: Result<Seq<u8>, Seq<char>>,
) -> bool {
    exists|payload: Vec<u8>, outcome: HandlerOutcome|
        payload@ == selected.1 && #[trigger] handler.ensures((selected.0, payload), outcome)
            && answer == response_of(selected.0, outcome)
}

/// Whether `answer` is what serving the request in `bytes` with the handler
/// can give: the message of bytes that do not decode or select no case, else
/// what a run of the handler on the selected case gives.
pub open spec fn answers<H: FnOnce(SyncCase, Vec<u8>) -> HandlerOutcome>(
    handler: H,
    bytes: Seq<u8>,
    answer: Result<Seq<u8>, Seq<char>>,
) -> bool {
    match Request::<SyncCase>::decoding(bytes) {
        Err(e) => answer == Err::<Seq<u8>, Seq<char>>(decode_message(e)),
        Ok(None) => answer == Err::<Seq<u8>, Seq<char>>(no_case_message()),
        Ok(Some(selected)) => served(handler, selected, answer),
    }
}

/// Serves a request from its bytes: bytes that do not decode are answered
/// with a message that says why, the rest as `dispatch_request` does.
pub fn dispatch<H: FnOnce(SyncCase, Vec<u8>) -> HandlerOutcome>(bytes: &[u8], handler: H) -> (r:
    Result<Vec<u8>, String>)
    requires
        forall|case: SyncCase, payload: Vec<u8>| handler.requires((case, payload)),
    ensures
        answers(handler, bytes@, answer_view(r)),
{
    let ghost run = handler;
    match Request::<SyncCase>::parse_from_bytes(bytes) {
        Ok(req) => {
            let ghost value = req.value;
            let r = dispatch_request(req, handler);
            proof {
                if let Some(oneof) = value {
                    let outcome = choose|outcome: HandlerOutcome|
                        #[trigger] run.ensures((oneof.case, oneof.payload), outcome)
                            && answer_view(r) == response_of(oneof.case, outcome);
                    assert(oneof.payload@ == oneof@.1 && run.ensures(
                        (oneof@.0, oneof.payload),
                        outcome,
                    ));
                    assert(served(run, oneof@, answer_view(r)));
                }
            }
            r
        },
        Err(e) => Err(describe(e)),
    }
}

} // verus!
