//! The asynchronous dispatcher: a call is submitted once, its handler runs
//! elsewhere, and the first completion reported for it yields the one
//! invocation of its callback.

use crate::buffer::carriable;
use crate::buffer::lemma_printable_no_nul;
use crate::buffer::no_nul;
use crate::buffer::BufferView;
use crate::buffer::ByteBuffer;
use crate::dispatch::respond;
use crate::dispatch::response_of;
use crate::dispatch::HandlerOutcome;
use crate::envelope::AsyncCase;
use crate::envelope::AsyncRequest;
use vstd::prelude::*;
use vstd::utf8::encode_utf8;

verus! {

/// The caller's registration for one call: the context that its callback
/// gets back unchanged.
#[derive(Clone, Copy, Debug, PartialEq, Eq, Structural)]
pub struct RustCallback {
    pub user_data: usize,
}

/// One invocation of a callback: the registration and the buffer it receives.
#[derive(Debug, PartialEq, Eq)]
pub struct Completion {
    pub callback: RustCallback,
    pub buffer: ByteBuffer,
}

/// What the caller of the dispatcher does next.
#[derive(Debug, PartialEq, Eq)]
pub enum AsyncAction {
    /// Run the handler of the case on a worker, then report how it ended.
    Run { case: AsyncCase, payload: Vec<u8> },
    /// Invoke the callback now.
    Invoke(Completion),
}

/// The state of one asynchronous call.
#[derive(Debug)]
pub struct AsyncCall {
    pending: Option<AsyncCase>,
    callback: RustCallback,
}

/// The message of an asynchronous request that selects no case.
pub open spec fn no_async_case_message() -> Seq<char> {
    "no async req"@
}

/// What the buffer of an answer carries.
pub open spec fn carried(answer: Result<Seq<u8>, Seq<char>>) -> BufferView {
    match answer {
        Ok(bytes) => BufferView::Payload(bytes),
        Err(message) => BufferView::Error(encode_utf8(message)),
    }
}

impl AsyncCall {
    /// The case whose handler has not been reported as ended; `None` once the
    /// callback's invocation has been handed out.
    pub closed spec fn pending(&self) -> Option<AsyncCase> {
        self.pending
    }

    /// The registration of the call.
    pub closed spec fn callback(&self) -> RustCallback {
        self.callback
    }

    /// Whether the callback's invocation is still owed.
    pub fn is_pending(&self) -> (b: bool)
        ensures
            b == self.pending() is Some,
    {
        self.pending.is_some()
    }

    /// Reports that the handler ended, however it did. The first report yields
    /// the invocation of the callback, with the registration unchanged and a
    /// buffer that carries the answer, of a message with a zero byte what
    /// comes before that byte; a later report yields nothing.
    pub fn complete(&mut self, outcome: HandlerOutcome) -> (completion: Option<Completion>)
        ensures
            final(self).pending() is None,
            final(self).callback() == old(self).callback(),
            match old(self).pending() {
                Some(case) => completion matches Some(c) && c.callback == old(self).callback()
                    && c.buffer.wf() && c.buffer@ == carriable(
                    carried(response_of(case, outcome)),
                ),
                None => completion is None,
            },
    {
        match self.pending.take() {
            Some(case) => {
                let answer = respond(case, outcome);
                Some(Completion { callback: self.callback, buffer: ByteBuffer::from_answer(answer) })
            },
            None => None,
        }
    }
}

/// A call that ends before any handler runs: its callback is owed the message.
pub(crate) fn refuse(message: String, callback: RustCallback) -> (step: (AsyncCall, AsyncAction))
    requires
        no_nul(encode_utf8(message@)),
    ensures
        step.0.pending() is None,
        step.0.callback() == callback,
        step.1 matches AsyncAction::Invoke(c) && c.callback == callback && c.buffer.is_error()
            && c.buffer@ == BufferView::Error(encode_utf8(message@)),
{
    let buffer = ByteBuffer::from_err(message.as_str());
    (AsyncCall { pending: None, callback }, AsyncAction::Invoke(Completion { callback, buffer }))
}

/// Submits a decoded request: the selected case is to be run, and the call
/// waits for its completion. A request without a case is answered at once
/// with a message.
pub fn dispatch_request_async(req: AsyncRequest, callback: RustCallback) -> (step: (
    AsyncCall,
    AsyncAction,
))
    ensures
        step.0.callback() == callback,
        match req.value {
            Some(oneof) => step.0.pending() == Some(oneof.case) && step.1 == (AsyncAction::Run {
                case: oneof.case,
                payload: oneof.payload,
            }),
            None => step.0.pending() is None && (step.1 matches AsyncAction::Invoke(c)
                && c.callback == callback && c.buffer.is_error() && c.buffer@
                == BufferView::Error(encode_utf8(no_async_case_message()))),
        },
{
    match req.value {
        Some(oneof) => (
            AsyncCall { pending: Some(oneof.case), callback },
            AsyncAction::Run { case: oneof.case, payload: oneof.payload },
        ),
        None => {
            proof {
                reveal_strlit("no async req");
                lemma_printable_no_nul(no_async_case_message());
            }
            refuse("no async req".to_owned(), callback)
        },
    }
}

/// How many invocations of the callback a state yields when the given
/// completions are reported to it one after the other.
pub open spec fn invocations(pending: Option<AsyncCase>, reports: Seq<HandlerOutcome>) -> nat
    decreases reports.len(),
{
    if reports.len() == 0 {
        0
    } else if pending is Some {
        1 + invocations(None, reports.drop_first())
    } else {
        invocations(None, reports.drop_first())
    }
}

/// A call whose callback has been invoked yields no further invocation.
pub proof fn lemma_no_second_invocation(reports: Seq<HandlerOutcome>)
    ensures
        invocations(None, reports) == 0,
    decreases reports.len(),
{
    if reports.len() > 0 {
        lemma_no_second_invocation(reports.drop_first());
    }
}

/// How many invocations of the callback submitting a request yields: one
/// where it selects no case and is answered at once.
pub open spec fn invocations_at_submission(selected: Option<AsyncCase>) -> nat {
    if selected is None {
        1
    } else {
        0
    }
}

/// The callback of a call is invoked exactly once: at submission where the
/// request selects no case, else by the first completion that is reported,
/// whether the handler succeeded, failed or ended abnormally, and however many
/// reports follow.
pub proof fn lemma_callback_exactly_once(
    selected: Option<AsyncCase>,
    reports: Seq<HandlerOutcome>,
)
    requires
        selected is Some ==> reports.len() >= 1,
    ensures
        invocations_at_submission(selected) + invocations(selected, reports) == 1,
{
    lemma_no_second_invocation(reports);
    if reports.len() > 0 {
        lemma_no_second_invocation(reports.drop_first());
    }
}

} // verus!
