use logic::envelope::AsyncCase;
use logic::envelope::AsyncRequest;
use logic::envelope::Case;
use logic::envelope::Message;
use logic::envelope::Oneof;
use logic::envelope::Request;
use logic::envelope::Response;
use logic::envelope::SyncCase;
use logic::envelope::SyncRequest;
use logic::wire::DecodeError;

#[test]
fn sync_cases_are_numbered_from_one() {
    assert_eq!(SyncCase::case_count(), 3);
    assert_eq!(SyncCase::Configure.field_number(), 1);
    assert_eq!(SyncCase::LocalUser.field_number(), 2);
    assert_eq!(SyncCase::Auth.field_number(), 3);
    assert_eq!(SyncCase::from_field_number(0), None);
    assert_eq!(SyncCase::from_field_number(4), None);
}

#[test]
fn async_cases_are_numbered_from_one() {
    let cases = [
        AsyncCase::TopicList,
        AsyncCase::TopicDetails,
        AsyncCase::SubforumFilter,
        AsyncCase::ForumList,
        AsyncCase::RemoteUser,
        AsyncCase::PostVote,
        AsyncCase::TopicHistory,
        AsyncCase::HotTopicList,
        AsyncCase::ForumSearch,
        AsyncCase::FavoriteTopicList,
        AsyncCase::TopicFavor,
    ];
    assert_eq!(AsyncCase::case_count(), 11);
    for (i, case) in cases.iter().enumerate() {
        assert_eq!(case.field_number(), i as u32 + 1);
        assert_eq!(AsyncCase::from_field_number(i as u32 + 1), Some(*case));
    }
    assert_eq!(AsyncCase::from_field_number(0), None);
    assert_eq!(AsyncCase::from_field_number(12), None);
}

#[test]
fn every_number_of_a_case_gives_the_case_back() {
    for n in 1..=3u32 {
        assert_eq!(SyncCase::from_field_number(n).unwrap().field_number(), n);
    }
}

#[test]
fn request_round_trip() {
    let request: SyncRequest =
        Request { value: Some(Oneof { case: SyncCase::Auth, payload: b"token".to_vec() }) };
    let bytes = request.write_to_bytes().unwrap();
    assert_eq!(bytes, vec![0x1a, 0x05, b't', b'o', b'k', b'e', b'n']);
    assert_eq!(SyncRequest::parse_from_bytes(&bytes).unwrap(), request);
}

#[test]
fn request_without_a_case_is_empty() {
    let request: AsyncRequest = Request { value: None };
    assert_eq!(request.write_to_bytes().unwrap(), Vec::<u8>::new());
    assert_eq!(AsyncRequest::parse_from_bytes(&[]).unwrap(), request);
}

#[test]
fn async_request_selects_its_case() {
    let bytes = vec![0x4a, 0x02, 0xe5, 0x8e];
    let request = AsyncRequest::parse_from_bytes(&bytes).unwrap();
    assert_eq!(
        request.value,
        Some(Oneof { case: AsyncCase::ForumSearch, payload: vec![0xe5, 0x8e] })
    );
}

#[test]
fn a_case_of_the_other_union_is_skipped() {
    // field 9 is a case of the asynchronous union only
    let bytes = vec![0x4a, 0x01, 0x00];
    assert_eq!(SyncRequest::parse_from_bytes(&bytes).unwrap(), Request { value: None });
}

#[test]
fn response_round_trip() {
    let response: Response<AsyncCase> =
        Oneof { case: AsyncCase::TopicFavor, payload: vec![1, 2, 3] };
    let bytes = response.write_to_bytes().unwrap();
    assert_eq!(bytes, vec![0x5a, 0x03, 1, 2, 3]);
    assert_eq!(Response::<AsyncCase>::parse_from_bytes(&bytes).unwrap(), response);
}

#[test]
fn response_needs_a_case() {
    assert_eq!(Response::<SyncCase>::parse_from_bytes(&[]).unwrap_err(), DecodeError::NoCase);
}

#[test]
fn malformed_request_is_refused() {
    assert_eq!(SyncRequest::parse_from_bytes(&[0x0a, 0x09, 1]).unwrap_err(), DecodeError::Truncated);
    assert_eq!(
        AsyncRequest::parse_from_bytes(&[0x08, 0x01]).unwrap_err(),
        DecodeError::UnexpectedWireType
    );
}

#[test]
fn size_of_an_envelope() {
    let request: SyncRequest =
        Request { value: Some(Oneof { case: SyncCase::Auth, payload: vec![0; 300] }) };
    assert_eq!(request.compute_size(), Ok(303));
    assert_eq!(request.write_to_bytes().unwrap().len(), 303);
    let empty: SyncRequest = Request { value: None };
    assert_eq!(empty.compute_size(), Ok(0));
    let response: Response<AsyncCase> = Oneof { case: AsyncCase::TopicFavor, payload: vec![] };
    assert_eq!(response.compute_size(), Ok(2));
}
