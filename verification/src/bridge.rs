//! The entry points of the boundary, on plain values: what the host calls
//! with the bytes of a request, and how it gives a buffer back.

use crate::async_dispatch::dispatch_request_async;
use crate::async_dispatch::no_async_case_message;
use crate::async_dispatch::refuse;
use crate::async_dispatch::AsyncAction;
use crate::async_dispatch::AsyncCall;
use crate::async_dispatch::RustCallback;
use crate::buffer::carriable;
use crate::buffer::lemma_until_nul;
use crate::buffer::until_nul;
use crate::buffer::lemma_printable_no_nul;
use crate::buffer::result_view;
use crate::buffer::BufferView;
use crate::buffer::ByteBuffer;
use crate::dispatch::answer_view;
use crate::dispatch::answers;
use crate::dispatch::decode_message;
use crate::dispatch::describe;
use crate::dispatch::dispatch;
use crate::dispatch::lemma_messages_printable;
use crate::dispatch::no_case_message;
use crate::dispatch::too_large_message;
use crate::dispatch::HandlerOutcome;
use crate::envelope::AsyncCase;
use crate::envelope::Message;
use crate::envelope::Request;
use crate::envelope::SyncCase;
use crate::wire::DecodeError;
use vstd::prelude::*;
use vstd::utf8::encode_utf8;

verus! {

/// The synchronous entry point: serves the request in `data` and hands the
/// answer over in a buffer, which carries exactly one of a payload and an
/// error. Of a message with a zero byte it carries what comes before that byte.
pub fn rust_call<H: FnOnce(SyncCase, Vec<u8>) -> HandlerOutcome>(data: &[u8], handler: H) -> (buffer:
    ByteBuffer)
    requires
        forall|case: SyncCase, payload: Vec<u8>| handler.requires((case, payload)),
    ensures
        buffer.wf(),
        buffer.is_payload() != buffer.is_error(),
        exists|answer: Result<Vec<u8>, String>| #[trigger]
            answers(handler, data@, answer_view(answer)) && buffer@ == carriable(
                result_view(answer),
            ),
{
    ByteBuffer::from_answer(dispatch(data, handler))
}

/// The asynchronous entry point: submits the request in `data`. Bytes that do
/// not decode, and a request without a case, are answered at once through
/// the callback with a message that says why.
pub fn rust_call_async(data: &[u8], callback: RustCallback) -> (step: (AsyncCall, AsyncAction))
    ensures
        step.0.callback() == callback,
        match Request::<AsyncCase>::decoding(data@) {
            Ok(Some(selected)) => step.0.pending() == Some(selected.0) && (step.1 matches AsyncAction::Run {
                case,
                payload,
            } && case == selected.0 && payload@ == selected.1),
            Ok(None) => step.0.pending() is None && (step.1 matches AsyncAction::Invoke(c)
                && c.callback == callback && c.buffer.is_error() && c.buffer@
                == BufferView::Error(encode_utf8(no_async_case_message()))),
            Err(e) => step.0.pending() is None && (step.1 matches AsyncAction::Invoke(c)
                && c.callback == callback && c.buffer.is_error() && c.buffer@
                == BufferView::Error(encode_utf8(decode_message(e)))),
        },
{
    match Request::<AsyncCase>::parse_from_bytes(data) {
        Ok(req) => dispatch_request_async(req, callback),
        Err(e) => {
            proof {
                lemma_messages_printable(e);
                lemma_printable_no_nul(decode_message(e));
            }
            refuse(describe(e), callback)
        },
    }
}

/// Releases a buffer: hands its allocations back to the side that frees
/// them, the data, empty for an error buffer, and the error message with its
/// terminator, if any. Dropping them ends the buffer's life.
pub fn rust_free(byte_buffer: ByteBuffer) -> (freed: (Vec<u8>, Option<Vec<u8>>))
    requires
        byte_buffer.wf(),
    ensures
        freed.0@.len() == byte_buffer.len,
        match byte_buffer@ {
            BufferView::Payload(bytes) => freed.0@ == bytes && freed.1 is None,
            BufferView::Error(message) => freed.1 matches Some(text) && text@ == message.push(0),
        },
{
    proof {
        if byte_buffer.err is Some {
            let text = byte_buffer.err->Some_0@;
            assert(text =~= text.drop_last().push(0));
        }
    }
    let data: Vec<u8> = match byte_buffer.data {
        Some(bytes) => bytes,
        None => Vec::new(),
    };
    (data, byte_buffer.err)
}

/// The messages that the dispatchers write themselves hold no zero byte, so
/// that a buffer carries them whole.
pub proof fn lemma_own_messages_whole(e: DecodeError)
    ensures
        until_nul(encode_utf8(decode_message(e))) == encode_utf8(decode_message(e)),
        until_nul(encode_utf8(no_case_message())) == encode_utf8(no_case_message()),
        until_nul(encode_utf8(too_large_message())) == encode_utf8(too_large_message()),
        until_nul(encode_utf8(no_async_case_message())) == encode_utf8(no_async_case_message()),
{
    lemma_messages_printable(e);
    reveal_strlit("no async req");
    lemma_printable_no_nul(decode_message(e));
    lemma_printable_no_nul(no_case_message());
    lemma_printable_no_nul(too_large_message());
    lemma_printable_no_nul(no_async_case_message());
    lemma_until_nul(encode_utf8(decode_message(e)));
    lemma_until_nul(encode_utf8(no_case_message()));
    lemma_until_nul(encode_utf8(too_large_message()));
    lemma_until_nul(encode_utf8(no_async_case_message()));
}

} // verus!
