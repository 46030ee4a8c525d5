use logic::async_dispatch::dispatch_request_async;
use logic::async_dispatch::AsyncAction;
use logic::async_dispatch::RustCallback;
use logic::bridge::rust_call_async;
use logic::dispatch::HandlerOutcome;
use logic::envelope::AsyncCase;
use logic::envelope::AsyncRequest;
use logic::envelope::Message;
use logic::envelope::Oneof;
use logic::envelope::Request;

fn request(case: AsyncCase, payload: &[u8]) -> Vec<u8> {
    let request: AsyncRequest = Request { value: Some(Oneof { case, payload: payload.to_vec() }) };
    request.write_to_bytes().unwrap()
}

#[test]
fn submitted_call_runs_its_case() {
    let callback = RustCallback { user_data: 42 };
    let (call, action) = rust_call_async(&request(AsyncCase::ForumList, b"q"), callback);
    assert!(call.is_pending());
    assert_eq!(action, AsyncAction::Run { case: AsyncCase::ForumList, payload: b"q".to_vec() });
}

#[test]
fn callback_is_invoked_once_on_success() {
    let callback = RustCallback { user_data: 42 };
    let (mut call, _action) = rust_call_async(&request(AsyncCase::PostVote, b"+1"), callback);
    let completion = call.complete(HandlerOutcome::Done(b"ok".to_vec())).unwrap();
    assert_eq!(completion.callback, callback);
    assert_eq!(completion.buffer.data, Some(vec![0x32, 0x02, b'o', b'k']));
    assert_eq!(completion.buffer.err, None);
    assert!(!call.is_pending());
    assert_eq!(call.complete(HandlerOutcome::Done(b"again".to_vec())), None);
    assert_eq!(call.complete(HandlerOutcome::Failed("late".to_string())), None);
}

#[test]
fn callback_is_invoked_once_on_failure() {
    let callback = RustCallback { user_data: 7 };
    let (mut call, _action) = rust_call_async(&request(AsyncCase::TopicList, b""), callback);
    let completion = call.complete(HandlerOutcome::Failed("offline".to_string())).unwrap();
    assert_eq!(completion.callback.user_data, 7);
    assert_eq!(completion.buffer.data, None);
    assert_eq!(completion.buffer.err, Some(b"offline\0".to_vec()));
    assert_eq!(call.complete(HandlerOutcome::Done(Vec::new())), None);
}

#[test]
fn callback_is_invoked_once_on_panic() {
    let callback = RustCallback { user_data: 8 };
    let (mut call, _action) = rust_call_async(&request(AsyncCase::TopicFavor, b""), callback);
    let completion = call.complete(HandlerOutcome::Panicked("overflow".to_string())).unwrap();
    assert_eq!(completion.callback.user_data, 8);
    assert_eq!(completion.buffer.err, Some(b"overflow\0".to_vec()));
    assert!(completion.buffer.is_valid());
    assert_eq!(call.complete(HandlerOutcome::Panicked("again".to_string())), None);
}

#[test]
fn request_without_a_case_is_answered_at_once() {
    let callback = RustCallback { user_data: 3 };
    let (mut call, action) = dispatch_request_async(Request { value: None }, callback);
    assert!(!call.is_pending());
    match action {
        AsyncAction::Invoke(completion) => {
            assert_eq!(completion.callback, callback);
            assert_eq!(completion.buffer.err, Some(b"no async req\0".to_vec()));
            assert_eq!(completion.buffer.data, None);
        }
        AsyncAction::Run { .. } => panic!("nothing to run"),
    }
    assert_eq!(call.complete(HandlerOutcome::Done(Vec::new())), None);
}

#[test]
fn malformed_bytes_are_answered_at_once() {
    let callback = RustCallback { user_data: 5 };
    let (mut call, action) = rust_call_async(&[0x0a, 0x05, 1], callback);
    assert!(!call.is_pending());
    match action {
        AsyncAction::Invoke(completion) => {
            assert_eq!(completion.callback, callback);
            assert_eq!(completion.buffer.err, Some(b"invalid request: unexpected EOF\0".to_vec()));
        }
        AsyncAction::Run { .. } => panic!("nothing to run"),
    }
    assert_eq!(call.complete(HandlerOutcome::Done(Vec::new())), None);
}

#[test]
fn calls_complete_in_any_order() {
    let (mut first, _a) = rust_call_async(&request(AsyncCase::TopicList, b"1"), RustCallback { user_data: 1 });
    let (mut second, _b) =
        rust_call_async(&request(AsyncCase::TopicDetails, b"2"), RustCallback { user_data: 2 });
    let late = second.complete(HandlerOutcome::Done(b"b".to_vec())).unwrap();
    let early = first.complete(HandlerOutcome::Done(b"a".to_vec())).unwrap();
    assert_eq!(late.callback.user_data, 2);
    assert_eq!(late.buffer.data, Some(vec![0x12, 0x01, b'b']));
    assert_eq!(early.callback.user_data, 1);
    assert_eq!(early.buffer.data, Some(vec![0x0a, 0x01, b'a']));
}

#[test]
fn callback_is_invoked_once_whatever_the_message_holds() {
    let callback = RustCallback { user_data: 11 };
    let (mut call, _action) = rust_call_async(&request(AsyncCase::TopicList, b""), callback);
    let completion = call.complete(HandlerOutcome::Failed("a\0b".to_string())).unwrap();
    assert_eq!(completion.callback, callback);
    assert!(completion.buffer.is_valid());
    assert_eq!(completion.buffer.data, None);
    assert_eq!(completion.buffer.err, Some(vec![b'a', 0]));
    assert_eq!(call.complete(HandlerOutcome::Failed("a\0b".to_string())), None);
    let (mut call, _action) = rust_call_async(&request(AsyncCase::TopicList, b""), callback);
    let completion = call.complete(HandlerOutcome::Panicked("\0".to_string())).unwrap();
    assert_eq!(completion.buffer.err, Some(vec![0]));
    assert_eq!(call.complete(HandlerOutcome::Done(Vec::new())), None);
}

#[test]
fn completion_buffer_can_be_released() {
    let callback = RustCallback { user_data: 1 };
    let (mut call, _action) = rust_call_async(&request(AsyncCase::RemoteUser, b"u"), callback);
    let completion = call.complete(HandlerOutcome::Done(b"user".to_vec())).unwrap();
    assert!(completion.buffer.is_valid());
    let (data, err) = logic::bridge::rust_free(completion.buffer);
    assert_eq!(data, vec![0x2a, 0x04, b'u', b's', b'e', b'r']);
    assert_eq!(err, None);
}
