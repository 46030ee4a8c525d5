//! The buffer that carries a result across the boundary: either a payload
//! with its length and capacity, or a null-terminated error message.

use vstd::prelude::*;
use vstd::slice::slice_subrange;
use vstd::slice::slice_to_vec;
use vstd::utf8::encode_utf8;
use vstd::utf8::is_ascii_chars;
use vstd::utf8::is_ascii_chars_encode_utf8;

verus! {

/// No byte of `s` is zero.
pub open spec fn no_nul(s: Seq<u8>) -> bool {
    forall|i: int| 0 <= i < s.len() ==> s[i] != 0
}

/// Every character is a printable ASCII character.
pub open spec fn printable(chars: Seq<char>) -> bool {
    forall|i: int| 0 <= i < chars.len() ==> ' ' <= #[trigger] chars[i] <= '~'
}

/// A message of printable ASCII characters encodes without a zero byte.
pub proof fn lemma_printable_no_nul(chars: Seq<char>)
    requires
        printable(chars),
    ensures
        no_nul(encode_utf8(chars)),
{
    assert(is_ascii_chars(chars));
    is_ascii_chars_encode_utf8(chars);
    assert forall|i: int| 0 <= i < encode_utf8(chars).len() implies encode_utf8(chars)[i] != 0 by {
        assert(' ' <= chars[i] <= '~');
        assert(chars[i] as u8 == encode_utf8(chars)[i]);
    }
}

/// Whether a message holds no zero byte, so that a terminator can end it.
pub fn is_c_string(message: &str) -> (ok: bool)
    ensures
        ok == no_nul(encode_utf8(message@)),
{
    let bytes = message.as_bytes();
    let mut i: usize = 0;
    while i < bytes.len()
        invariant
            i <= bytes@.len(),
            bytes@ == encode_utf8(message@),
            forall|j: int| 0 <= j < i ==> bytes@[j] != 0,
        decreases bytes@.len() - i,
    {
        if bytes[i] == 0 {
            return false;
        }
        i += 1;
    }
    true
}

/// The capacity of a vector, from `Vec::capacity`. Claimed: it is at least
/// the length.
#[verifier::external_body]
fn capacity(v: &Vec<u8>) -> (cap: usize)
    ensures
        cap >= v@.len(),
{
    v.capacity()
}

/// What a buffer carries.
pub enum BufferView {
    /// The bytes of a result.
    Payload(Seq<u8>),
    /// The bytes of an error message, without the terminator.
    Error(Seq<u8>),
}

/// A buffer handed across the boundary together with its ownership.
///
/// `data` stands for the data pointer and `err` for the error pointer; `None`
/// is a null pointer. `len` and `cap` are the length and the capacity of the
/// allocation behind `data`, which the side that releases it hands back as
/// they were reported.
#[derive(Debug, PartialEq, Eq)]
pub struct ByteBuffer {
    pub data: Option<Vec<u8>>,
    pub len: usize,
    pub cap: usize,
    pub err: Option<Vec<u8>>,
}

impl View for ByteBuffer {
    type V = BufferView;

    open spec fn view(&self) -> BufferView {
        match self.err {
            Some(message) => BufferView::Error(message@.drop_last()),
            None => BufferView::Payload(self.data.unwrap()@),
        }
    }
}

impl ByteBuffer {
    /// The buffer carries a payload: data set, error null, and the length and
    /// capacity those of the data.
    pub open spec fn is_payload(&self) -> bool {
        &&& self.data matches Some(bytes) && bytes@.len() == self.len
        &&& self.len <= self.cap
        &&& self.err is None
    }

    /// The buffer carries an error: data null with zero length and capacity, and
    /// a message that its only zero byte ends.
    pub open spec fn is_error(&self) -> bool {
        &&& self.data is None
        &&& self.len == 0
        &&& self.cap == 0
        &&& self.err matches Some(message) && message@.len() >= 1 && message@.last() == 0
            && no_nul(message@.drop_last())
    }

    /// The buffer is one that this library produced.
    pub open spec fn wf(&self) -> bool {
        self.is_payload() || self.is_error()
    }

    /// Whether the buffer is one that this library produced.
    #[verifier::loop_isolation(false)]
    pub fn is_valid(&self) -> (ok: bool)
        ensures
            ok == self.wf(),
    {
        match (&self.data, &self.err) {
            (Some(bytes), None) => bytes.len() == self.len && self.len <= self.cap,
            (None, Some(message)) => {
                if self.len != 0 || self.cap != 0 || message.len() == 0 {
                    return false;
                }
                let last: usize = message.len() - 1;
                if message[last] != 0 {
                    return false;
                }
                let mut i: usize = 0;
                while i < last
                    invariant
                        i <= last,
                        last == message@.len() - 1,
                        forall|j: int| 0 <= j < i ==> message@[j] != 0,
                    decreases last - i,
                {
                    if message[i] == 0 {
                        assert(message@.drop_last()[i as int] == 0);
                        return false;
                    }
                    i += 1;
                }
                assert forall|j: int| 0 <= j < message@.drop_last().len() implies message@.drop_last()[j]
                    != 0 by {
                    assert(message@.drop_last()[j] == message@[j]);
                }
                true
            },
            _ => false,
        }
    }

    /// Takes ownership of a payload whose allocation has the given capacity,
    /// and reports its length and that capacity.
    pub fn from_parts(v: Vec<u8>, cap: usize) -> (buffer: ByteBuffer)
        requires
            cap >= v@.len(),
        ensures
            buffer.is_payload(),
            buffer@ == BufferView::Payload(v@),
            buffer.len == v@.len(),
            buffer.cap == cap,
    {
        let len: usize = v.len();
        ByteBuffer { data: Some(v), len, cap, err: None }
    }

    /// Takes ownership of a payload and reports its length and the capacity
    /// that the vector reports.
    pub fn from_vec(v: Vec<u8>) -> (buffer: ByteBuffer)
        ensures
            buffer.is_payload(),
            buffer@ == BufferView::Payload(v@),
            buffer.len == v@.len(),
    {
        let cap: usize = capacity(&v);
        ByteBuffer::from_parts(v, cap)
    }

    /// Builds an error buffer: the message's bytes and a terminator.
    pub fn from_err(message: &str) -> (buffer: ByteBuffer)
        requires
            no_nul(encode_utf8(message@)),
        ensures
            buffer.is_error(),
            buffer@ == BufferView::Error(encode_utf8(message@)),
    {
        let mut bytes: Vec<u8> = slice_to_vec(message.as_bytes());
        bytes.push(0);
        proof {
            assert(bytes@.drop_last() =~= encode_utf8(message@));
        }
        ByteBuffer { data: None, len: 0, cap: 0, err: Some(bytes) }
    }

    /// Builds an error buffer from any message: its bytes before the first
    /// zero byte, which a terminated text cannot carry, and a terminator.
    pub fn from_message(message: &str) -> (buffer: ByteBuffer)
        ensures
            buffer.is_error(),
            buffer@ == BufferView::Error(until_nul(encode_utf8(message@))),
    {
        let bytes = message.as_bytes();
        let n: usize = nul_position(bytes);
        proof {
            lemma_until_nul(bytes@);
        }
        let mut text: Vec<u8> = slice_to_vec(slice_subrange(bytes, 0, n));
        text.push(0);
        proof {
            assert(text@.drop_last() =~= until_nul(bytes@));
        }
        ByteBuffer { data: None, len: 0, cap: 0, err: Some(text) }
    }

    /// Builds the buffer of any result: the payload of a success, and of a
    /// failure as much of the message as a terminated text can carry.
    pub fn from_answer(result: Result<Vec<u8>, String>) -> (buffer: ByteBuffer)
        ensures
            buffer.wf(),
            buffer@ == carriable(result_view(result)),
    {
        match result {
            Ok(v) => ByteBuffer::from_vec(v),
            Err(message) => ByteBuffer::from_message(message.as_str()),
        }
    }

    /// Builds the buffer of a result: the payload of a success, the message of
    /// a failure.
    pub fn from_result(result: Result<Vec<u8>, String>) -> (buffer: ByteBuffer)
        requires
            result matches Err(message) ==> no_nul(encode_utf8(message@)),
        ensures
            buffer.wf(),
            buffer@ == result_view(result),
    {
        match result {
            Ok(v) => ByteBuffer::from_vec(v),
            Err(message) => ByteBuffer::from_err(message.as_str()),
        }
    }
}

/// A buffer that this library produced carries exactly one of a payload and
/// an error.
pub proof fn lemma_exactly_one(buffer: ByteBuffer)
    requires
        buffer.wf(),
    ensures
        buffer.is_payload() != buffer.is_error(),
        buffer.is_payload() <==> buffer@ is Payload,
        buffer.is_error() <==> buffer@ is Error,
{
}

/// What the buffer of a result carries.
pub open spec fn result_view(result: Result<Vec<u8>, String>) -> BufferView {
    match result {
        Ok(v) => BufferView::Payload(v@),
        Err(message) => BufferView::Error(encode_utf8(message@)),
    }
}

/// Whether a result can be handed over in a buffer: a failure needs a message
/// without a zero byte.
pub open spec fn transferable(result: Result<Vec<u8>, String>) -> bool {
    result matches Err(message) ==> no_nul(encode_utf8(message@))
}

/// Whether a result can be handed over in a buffer.
pub fn is_transferable(result: &Result<Vec<u8>, String>) -> (ok: bool)
    ensures
        ok == transferable(*result),
{
    match result {
        Ok(_) => true,
        Err(message) => is_c_string(message.as_str()),
    }
}

/// The place of the first zero byte of `s` from `from` on, or the length of
/// `s` where there is none.
pub open spec fn first_nul(s: Seq<u8>, from: int) -> int
    decreases s.len() - from,
{
    if from < 0 || from >= s.len() {
        s.len() as int
    } else if s[from] == 0 {
        from
    } else {
        first_nul(s, from + 1)
    }
}

/// The bytes of `s` before its first zero byte; all of them where it has none.
pub open spec fn until_nul(s: Seq<u8>) -> Seq<u8> {
    s.take(first_nul(s, 0))
}

/// What a buffer can carry of what it is asked to: a payload as it is, and of
/// a message the bytes before its first zero byte.
pub open spec fn carriable(view: BufferView) -> BufferView {
    match view {
        BufferView::Payload(bytes) => BufferView::Payload(bytes),
        BufferView::Error(message) => BufferView::Error(until_nul(message)),
    }
}

/// From `from` on, no byte before the first zero byte is zero, and the byte
/// there is, where it lies inside `s`.
pub proof fn lemma_first_nul(s: Seq<u8>, from: int)
    requires
        0 <= from <= s.len(),
    ensures
        from <= first_nul(s, from) <= s.len(),
        forall|j: int| from <= j < first_nul(s, from) ==> s[j] != 0,
        first_nul(s, from) < s.len() ==> s[first_nul(s, from)] == 0,
    decreases s.len() - from,
{
    if from < s.len() && s[from] != 0 {
        lemma_first_nul(s, from + 1);
    }
}

/// What is carried of a message holds no zero byte, and is the whole message
/// where that holds none.
pub proof fn lemma_until_nul(s: Seq<u8>)
    ensures
        no_nul(until_nul(s)),
        first_nul(s, 0) <= s.len(),
        no_nul(s) ==> until_nul(s) == s,
        no_nul(s) <==> first_nul(s, 0) == s.len(),
{
    lemma_first_nul(s, 0);
    if no_nul(s) {
        assert(s.take(s.len() as int) =~= s);
    }
}

/// What can be carried of a result that can be handed over is the result.
pub proof fn lemma_carriable_whole(result: Result<Vec<u8>, String>)
    requires
        transferable(result),
    ensures
        carriable(result_view(result)) == result_view(result),
{
    if let Err(message) = result {
        lemma_until_nul(encode_utf8(message@));
    }
}

/// Finds the first zero byte.
fn nul_position(bytes: &[u8]) -> (n: usize)
    ensures
        n == first_nul(bytes@, 0),
{
    let mut i: usize = 0;
    while i < bytes.len()
        invariant
            i <= bytes@.len(),
            first_nul(bytes@, 0) == first_nul(bytes@, i as int),
        decreases bytes@.len() - i,
    {
        if bytes[i] == 0 {
            return i;
        }
        i += 1;
    }
    i
}

} // verus!
