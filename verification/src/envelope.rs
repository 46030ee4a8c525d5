//! Request and response envelopes: tagged unions with one case selected, each
//! case carrying the bytes of a message whose layout belongs to its handler.

use crate::wire::decode_oneof;
use crate::wire::encodable;
use crate::wire::encode_field;
use crate::wire::field_bytes;
use crate::wire::field_size;
use crate::wire::lemma_oneof_in_range;
use crate::wire::lemma_oneof_of_field;
use crate::wire::lemma_varint_bytes_len_fixed;
use crate::wire::oneof;
use crate::wire::DecodeError;
use crate::wire::EncodeError;
use crate::wire::FIELD_NUMBER_MAX;
use crate::wire::WIRE_LENGTH_DELIMITED;
use vstd::prelude::*;

verus! {

/// The cases of a tagged union, numbered from 1 without gaps.
pub trait Case: Sized + Copy {
    /// How many cases there are.
    spec fn count() -> u32;

    /// The field number of a case.
    spec fn number(self) -> u32;

    /// The case with a field number.
    spec fn with_number(n: u32) -> Option<Self>;

    fn case_count() -> (n: u32)
        ensures
            n == Self::count(),
    ;

    fn field_number(self) -> (n: u32)
        ensures
            n == self.number(),
    ;

    fn from_field_number(n: u32) -> (c: Option<Self>)
        ensures
            c == Self::with_number(n),
    ;

    /// A case has a field number within the count, and is the case with it.
    proof fn lemma_case_number(c: Self)
        ensures
            1 <= c.number() <= Self::count() <= FIELD_NUMBER_MAX,
            Self::with_number(c.number()) == Some(c),
    ;

    /// Exactly the numbers from 1 to the count are field numbers of a case.
    proof fn lemma_number_case(n: u32)
        ensures
            Self::with_number(n) is Some <==> 1 <= n <= Self::count(),
            Self::with_number(n) matches Some(c) ==> c.number() == n,
    ;
}

/// The operations of the synchronous entry point.
#[derive(Clone, Copy, Debug, PartialEq, Eq, Structural)]
pub enum SyncCase {
    Configure,
    LocalUser,
    Auth,
}

impl Case for SyncCase {
    open spec fn count() -> u32 {
        3
    }

    open spec fn number(self) -> u32 {
        match self {
            SyncCase::Configure => 1,
            SyncCase::LocalUser => 2,
            SyncCase::Auth => 3,
        }
    }

    open spec fn with_number(n: u32) -> Option<Self> {
        if n == 1 {
            Some(SyncCase::Configure)
        } else if n == 2 {
            Some(SyncCase::LocalUser)
        } else if n == 3 {
            Some(SyncCase::Auth)
        } else {
            None
        }
    }

    fn case_count() -> (n: u32) {
        3
    }

    fn field_number(self) -> (n: u32) {
        match self {
            SyncCase::Configure => 1,
            SyncCase::LocalUser => 2,
            SyncCase::Auth => 3,
        }
    }

    fn from_field_number(n: u32) -> (c: Option<Self>) {
        if n == 1 {
            Some(SyncCase::Configure)
        } else if n == 2 {
            Some(SyncCase::LocalUser)
        } else if n == 3 {
            Some(SyncCase::Auth)
        } else {
            None
        }
    }

    proof fn lemma_case_number(c: Self) {
    }

    proof fn lemma_number_case(n: u32) {
    }
}

/// The operations of the asynchronous entry point.
#[derive(Clone, Copy, Debug, PartialEq, Eq, Structural)]
pub enum AsyncCase {
    TopicList,
    TopicDetails,
    SubforumFilter,
    ForumList,
    RemoteUser,
    PostVote,
    TopicHistory,
    HotTopicList,
    ForumSearch,
    FavoriteTopicList,
    TopicFavor,
}

impl Case for AsyncCase {
    open spec fn count() -> u32 {
        11
    }

    open spec fn number(self) -> u32 {
        match self {
            AsyncCase::TopicList => 1,
            AsyncCase::TopicDetails => 2,
            AsyncCase::SubforumFilter => 3,
            AsyncCase::ForumList => 4,
            AsyncCase::RemoteUser => 5,
            AsyncCase::PostVote => 6,
            AsyncCase::TopicHistory => 7,
            AsyncCase::HotTopicList => 8,
            AsyncCase::ForumSearch => 9,
            AsyncCase::FavoriteTopicList => 10,
            AsyncCase::TopicFavor => 11,
        }
    }

    open spec fn with_number(n: u32) -> Option<Self> {
        if n == 1 {
            Some(AsyncCase::TopicList)
        } else if n == 2 {
            Some(AsyncCase::TopicDetails)
        } else if n == 3 {
            Some(AsyncCase::SubforumFilter)
        } else if n == 4 {
            Some(AsyncCase::ForumList)
        } else if n == 5 {
            Some(AsyncCase::RemoteUser)
        } else if n == 6 {
            Some(AsyncCase::PostVote)
        } else if n == 7 {
            Some(AsyncCase::TopicHistory)
        } else if n == 8 {
            Some(AsyncCase::HotTopicList)
        } else if n == 9 {
            Some(AsyncCase::ForumSearch)
        } else if n == 10 {
            Some(AsyncCase::FavoriteTopicList)
        } else if n == 11 {
            Some(AsyncCase::TopicFavor)
        } else {
            None
        }
    }

    fn case_count() -> (n: u32) {
        11
    }

    fn field_number(self) -> (n: u32) {
        match self {
            AsyncCase::TopicList => 1,
            AsyncCase::TopicDetails => 2,
            AsyncCase::SubforumFilter => 3,
            AsyncCase::ForumList => 4,
            AsyncCase::RemoteUser => 5,
            AsyncCase::PostVote => 6,
            AsyncCase::TopicHistory => 7,
            AsyncCase::HotTopicList => 8,
            AsyncCase::ForumSearch => 9,
            AsyncCase::FavoriteTopicList => 10,
            AsyncCase::TopicFavor => 11,
        }
    }

    fn from_field_number(n: u32) -> (c: Option<Self>) {
        if n == 1 {
            Some(AsyncCase::TopicList)
        } else if n == 2 {
            Some(AsyncCase::TopicDetails)
        } else if n == 3 {
            Some(AsyncCase::SubforumFilter)
        } else if n == 4 {
            Some(AsyncCase::ForumList)
        } else if n == 5 {
            Some(AsyncCase::RemoteUser)
        } else if n == 6 {
            Some(AsyncCase::PostVote)
        } else if n == 7 {
            Some(AsyncCase::TopicHistory)
        } else if n == 8 {
            Some(AsyncCase::HotTopicList)
        } else if n == 9 {
            Some(AsyncCase::ForumSearch)
        } else if n == 10 {
            Some(AsyncCase::FavoriteTopicList)
        } else if n == 11 {
            Some(AsyncCase::TopicFavor)
        } else {
            None
        }
    }

    proof fn lemma_case_number(c: Self) {
    }

    proof fn lemma_number_case(n: u32) {
    }
}

/// A message with a byte encoding.
pub trait Message: Sized + View {
    /// The encoding of a message, where it has one.
    spec fn encoding(v: Self::V) -> Result<Seq<u8>, EncodeError>;

    /// The message that bytes encode, where they encode one.
    spec fn decoding(s: Seq<u8>) -> Result<Self::V, DecodeError>;

    fn write_to_bytes(&self) -> (r: Result<Vec<u8>, EncodeError>)
        ensures
            match Self::encoding(self@) {
                Ok(s) => r is Ok && r->Ok_0@ == s,
                Err(e) => r is Err && r->Err_0 == e,
            },
    ;

    fn parse_from_bytes(bytes: &[u8]) -> (r: Result<Self, DecodeError>)
        ensures
            match Self::decoding(bytes@) {
                Ok(v) => r is Ok && r->Ok_0@ == v,
                Err(e) => r is Err && r->Err_0 == e,
            },
    ;

    /// The length of the encoding.
    fn compute_size(&self) -> (r: Result<u32, EncodeError>)
        ensures
            match Self::encoding(self@) {
                Ok(s) => r == Ok::<u32, EncodeError>(s.len() as u32),
                Err(e) => r == Err::<u32, EncodeError>(e),
            },
    ;

    /// Decoding an encoding gives the message back.
    proof fn lemma_round_trip(v: Self::V)
        ensures
            Self::encoding(v) matches Ok(s) ==> Self::decoding(s) == Ok::<Self::V, DecodeError>(v),
    ;
}

/// One case of a tagged union with the bytes of the message it carries.
#[derive(Clone, Debug, PartialEq, Eq)]
pub struct Oneof<C> {
    pub case: C,
    pub payload: Vec<u8>,
}

impl<C> View for Oneof<C> {
    type V = (C, Seq<u8>);

    open spec fn view(&self) -> (C, Seq<u8>) {
        (self.case, self.payload@)
    }
}

/// A request envelope: a tagged union that may have no case selected.
#[derive(Clone, Debug, PartialEq, Eq)]
pub struct Request<C> {
    pub value: Option<Oneof<C>>,
}

impl<C> View for Request<C> {
    type V = Option<(C, Seq<u8>)>;

    open spec fn view(&self) -> Option<(C, Seq<u8>)> {
        match self.value {
            Some(oneof) => Some(oneof@),
            None => None,
        }
    }
}

/// A response envelope: a tagged union with a case selected.
pub type Response<C> = Oneof<C>;

/// The request envelope of the synchronous entry point.
pub type SyncRequest = Request<SyncCase>;

/// The request envelope of the asynchronous entry point.
pub type AsyncRequest = Request<AsyncCase>;

/// The encoding of one case with its payload.
pub open spec fn oneof_encoding<C: Case>(v: (C, Seq<u8>)) -> Result<Seq<u8>, EncodeError> {
    if encodable(v.0.number(), v.1) {
        Ok(field_bytes(v.0.number(), v.1))
    } else {
        Err(EncodeError::TooLarge)
    }
}

/// The case that bytes select, if any, with its payload.
pub open spec fn request_decoding<C: Case>(s: Seq<u8>) -> Result<
    Option<(C, Seq<u8>)>,
    DecodeError,
> {
    match oneof(s, C::count()) {
        Ok(Some(sel)) => Ok(Some((C::with_number(sel.0).unwrap(), sel.1))),
        Ok(None) => Ok(None),
        Err(e) => Err(e),
    }
}

/// Encodes one case with its payload.
fn encode_case<C: Case>(oneof: &Oneof<C>) -> (r: Result<Vec<u8>, EncodeError>)
    ensures
        match oneof_encoding(oneof@) {
            Ok(s) => r is Ok && r->Ok_0@ == s,
            Err(e) => r is Err && r->Err_0 == e,
        },
{
    proof {
        C::lemma_case_number(oneof.case);
    }
    encode_field(oneof.case.field_number(), oneof.payload.as_slice())
}

/// The length of the encoding of one case with its payload.
fn case_size<C: Case>(oneof: &Oneof<C>) -> (r: Result<u32, EncodeError>)
    ensures
        match oneof_encoding(oneof@) {
            Ok(s) => r == Ok::<u32, EncodeError>(s.len() as u32),
            Err(e) => r == Err::<u32, EncodeError>(e),
        },
{
    proof {
        C::lemma_case_number(oneof.case);
    }
    field_size(oneof.case.field_number(), oneof.payload.len())
}

/// Decodes the case that bytes select, if any.
fn decode_case<C: Case>(bytes: &[u8]) -> (r: Result<Option<Oneof<C>>, DecodeError>)
    ensures
        match request_decoding::<C>(bytes@) {
            Ok(Some(v)) => r is Ok && r->Ok_0 is Some && r->Ok_0->Some_0@ == v,
            Ok(None) => r is Ok && r->Ok_0 is None,
            Err(e) => r is Err && r->Err_0 == e,
        },
{
    match decode_oneof(bytes, C::case_count())? {
        Some(sel) => {
            proof {
                lemma_oneof_in_range(bytes@, 0, C::count(), None);
                C::lemma_number_case(sel.number);
            }
            match C::from_field_number(sel.number) {
                Some(case) => Ok(Some(Oneof { case, payload: sel.payload })),
                None => Ok(None),
            }
        },
        None => Ok(None),
    }
}

/// Decoding the encoding of a case gives the case back.
proof fn lemma_case_round_trip<C: Case>(v: (C, Seq<u8>))
    ensures
        oneof_encoding(v) matches Ok(s) ==> request_decoding::<C>(s) == Ok::<
            Option<(C, Seq<u8>)>,
            DecodeError,
        >(Some(v)),
{
    C::lemma_case_number(v.0);
    if encodable(v.0.number(), v.1) {
        lemma_varint_bytes_len_fixed((v.0.number() * 8 + WIRE_LENGTH_DELIMITED) as nat);
        lemma_varint_bytes_len_fixed(v.1.len());
        lemma_oneof_of_field(v.0.number(), v.1, C::count());
    }
}

impl<C: Case> Message for Request<C> {
    open spec fn encoding(v: Option<(C, Seq<u8>)>) -> Result<Seq<u8>, EncodeError> {
        match v {
            Some(oneof) => oneof_encoding(oneof),
            None => Ok(Seq::empty()),
        }
    }

    open spec fn decoding(s: Seq<u8>) -> Result<Option<(C, Seq<u8>)>, DecodeError> {
        request_decoding(s)
    }

    fn write_to_bytes(&self) -> (r: Result<Vec<u8>, EncodeError>) {
        match &self.value {
            Some(oneof) => encode_case(oneof),
            None => Ok(Vec::new()),
        }
    }

    fn parse_from_bytes(bytes: &[u8]) -> (r: Result<Self, DecodeError>) {
        Ok(Request { value: decode_case(bytes)? })
    }

    fn compute_size(&self) -> (r: Result<u32, EncodeError>) {
        match &self.value {
            Some(oneof) => case_size(oneof),
            None => Ok(0),
        }
    }

    proof fn lemma_round_trip(v: Option<(C, Seq<u8>)>) {
        if let Some(oneof) = v {
            lemma_case_round_trip(oneof);
        }
    }
}

impl<C: Case> Message for Oneof<C> {
    open spec fn encoding(v: (C, Seq<u8>)) -> Result<Seq<u8>, EncodeError> {
        oneof_encoding(v)
    }

    open spec fn decoding(s: Seq<u8>) -> Result<(C, Seq<u8>), DecodeError> {
        match request_decoding::<C>(s) {
            Ok(Some(oneof)) => Ok(oneof),
            Ok(None) => Err(DecodeError::NoCase),
            Err(e) => Err(e),
        }
    }

    fn write_to_bytes(&self) -> (r: Result<Vec<u8>, EncodeError>) {
        encode_case(self)
    }

    fn parse_from_bytes(bytes: &[u8]) -> (r: Result<Self, DecodeError>) {
        match decode_case(bytes)? {
            Some(oneof) => Ok(oneof),
            None => Err(DecodeError::NoCase),
        }
    }

    fn compute_size(&self) -> (r: Result<u32, EncodeError>) {
        case_size(self)
    }

    proof fn lemma_round_trip(v: (C, Seq<u8>)) {
        lemma_case_round_trip(v);
    }
}

} // verus!
