//! The wire format of a tagged union with a single length-delimited case.
//!
//! A message is a sequence of fields. Each field starts with a tag, a base-128
//! varint holding the field number and a three-bit wire type, and a
//! length-delimited field continues with a varint length and that many bytes.

use protobuf::error::WireError;
use protobuf::wire_format::WireType;
use protobuf::CodedInputStream;
use protobuf::CodedOutputStream;
use protobuf::ProtobufError;
use vstd::prelude::*;

verus! {

/// Why a byte sequence is not a message.
#[derive(Clone, Copy, Debug, PartialEq, Eq, Structural)]
pub enum DecodeError {
    /// The input ends inside a field.
    Truncated,
    /// A varint runs past ten bytes.
    IncorrectVarint,
    /// A tag has field number zero or a wire type above five.
    IncorrectTag,
    /// A field has a wire type that its number does not allow.
    UnexpectedWireType,
    /// The message selects no case where one is needed.
    NoCase,
}

/// Wire type of a varint.
pub const WIRE_VARINT: u32 = 0;

/// Wire type of eight bytes.
pub const WIRE_FIXED64: u32 = 1;

/// Wire type of a length-delimited field.
pub const WIRE_LENGTH_DELIMITED: u32 = 2;

/// Wire type of the tag that starts a group.
pub const WIRE_START_GROUP: u32 = 3;

/// Wire type of the tag that ends a group.
pub const WIRE_END_GROUP: u32 = 4;

/// Wire type of four bytes.
pub const WIRE_FIXED32: u32 = 5;

/// Largest field number.
pub const FIELD_NUMBER_MAX: u32 = 0x1fff_ffff;

/// Number of bytes of the varint that starts at `pos`, which may take up to
/// `limit` bytes: it ends with the first byte below 128.
pub open spec fn varint_len(s: Seq<u8>, pos: int, limit: nat) -> Result<int, DecodeError>
    decreases limit,
{
    if limit == 0 {
        Err(DecodeError::IncorrectVarint)
    } else if pos < 0 || pos >= s.len() {
        Err(DecodeError::Truncated)
    } else if s[pos] < 128 {
        Ok(1)
    } else {
        match varint_len(s, pos + 1, (limit - 1) as nat) {
            Ok(n) => Ok(n + 1),
            Err(e) => Err(e),
        }
    }
}

/// The number that `n` bytes from `pos` hold, seven bits a byte, low bits first.
pub open spec fn varint_value(s: Seq<u8>, pos: int, n: int) -> nat
    decreases n,
{
    if n <= 0 {
        0
    } else {
        (s[pos] % 128) as nat + 128 * varint_value(s, pos + 1, n - 1)
    }
}

/// The varint at `pos`, cut to 64 bits, and its length in bytes.
pub open spec fn varint_at(s: Seq<u8>, pos: int) -> Result<(u64, int), DecodeError> {
    match varint_len(s, pos, 10) {
        Ok(n) => Ok(((varint_value(s, pos, n) % 0x1_0000_0000_0000_0000) as u64, n)),
        Err(e) => Err(e),
    }
}

/// The varint encoding of `v`.
pub open spec fn varint_bytes(v: nat) -> Seq<u8>
    decreases v,
{
    if v < 128 {
        seq![v as u8]
    } else {
        seq![(v % 128 + 128) as u8] + varint_bytes(v / 128)
    }
}

/// The tag at `pos`: field number, wire type and length in bytes. The varint is
/// cut to 32 bits; its low three bits are the wire type, the rest the number.
#[verifier::opaque]
pub open spec fn tag_at(s: Seq<u8>, pos: int) -> Result<(u32, u32, int), DecodeError> {
    match varint_at(s, pos) {
        Ok((v, n)) => {
            let t = v % 0x1_0000_0000;
            if t % 8 > 5 || t / 8 == 0 {
                Err(DecodeError::IncorrectTag)
            } else {
                Ok(((t / 8) as u32, (t % 8) as u32, n))
            }
        },
        Err(e) => Err(e),
    }
}

/// The length-delimited value at `pos`: its bytes, and the length in bytes of
/// the varint and the value together.
#[verifier::opaque]
pub open spec fn bytes_at(s: Seq<u8>, pos: int) -> Result<(Seq<u8>, int), DecodeError> {
    match varint_at(s, pos) {
        Ok((v, n)) => {
            let len = v % 0x1_0000_0000;
            if pos + n + len > s.len() {
                Err(DecodeError::Truncated)
            } else {
                Ok((s.subrange(pos + n, pos + n + len), n + len))
            }
        },
        Err(e) => Err(e),
    }
}

/// The number of bytes that a value of the given wire type takes at `pos`: a
/// varint, eight bytes, a length and its bytes, or four bytes. The two wire
/// types of groups have no value of their own.
#[verifier::opaque]
pub open spec fn value_at(s: Seq<u8>, pos: int, wire_type: u32) -> Result<int, DecodeError> {
    if wire_type == WIRE_VARINT {
        match varint_at(s, pos) {
            Ok((_, n)) => Ok(n),
            Err(e) => Err(e),
        }
    } else if wire_type == WIRE_FIXED64 {
        if pos + 8 <= s.len() {
            Ok(8)
        } else {
            Err(DecodeError::Truncated)
        }
    } else if wire_type == WIRE_LENGTH_DELIMITED {
        match bytes_at(s, pos) {
            Ok((_, n)) => Ok(n),
            Err(e) => Err(e),
        }
    } else if wire_type == WIRE_FIXED32 {
        if pos + 4 <= s.len() {
            Ok(4)
        } else {
            Err(DecodeError::Truncated)
        }
    } else {
        Err(DecodeError::UnexpectedWireType)
    }
}

/// The number of bytes that one field inside a group takes at `pos`, tag and
/// value, and whether its tag ends the group. A group inside a group is
/// refused.
pub open spec fn group_field_at(s: Seq<u8>, pos: int) -> Result<(int, bool), DecodeError> {
    match tag_at(s, pos) {
        Err(e) => Err(e),
        Ok((_, wire_type, used)) => if wire_type == WIRE_END_GROUP {
            Ok((used, true))
        } else {
            match value_at(s, pos + used, wire_type) {
                Err(e) => Err(e),
                Ok(n) => Ok((used + n, false)),
            }
        },
    }
}

/// A length that counts from `k` bytes further back.
pub open spec fn further(r: Result<int, DecodeError>, k: int) -> Result<int, DecodeError> {
    match r {
        Ok(n) => Ok(n + k),
        Err(e) => Err(e),
    }
}

/// The number of bytes that the rest of a group takes at `pos`: its fields, up
/// to and with the first tag that ends a group.
pub open spec fn group_at(s: Seq<u8>, pos: int) -> Result<int, DecodeError>
    decreases
            if pos < s.len() {
                s.len() - pos
            } else {
                0
            },
    via group_at_decreases
{
    match group_field_at(s, pos) {
        Err(e) => Err(e),
        Ok((n, ended)) => if ended {
            Ok(n)
        } else {
            further(group_at(s, pos + n), n)
        },
    }
}

#[via_fn]
proof fn group_at_decreases(s: Seq<u8>, pos: int) {
    lemma_group_field_at_bounds(s, pos);
}

/// The number of bytes that the value of a field which is no case takes at
/// `pos`: a group where the tag starts one, else a plain value.
pub open spec fn unknown_field_at(s: Seq<u8>, pos: int, wire_type: u32) -> Result<
    int,
    DecodeError,
> {
    if wire_type == WIRE_START_GROUP {
        group_at(s, pos)
    } else {
        value_at(s, pos, wire_type)
    }
}

/// The encoding of a length-delimited field.
pub open spec fn field_bytes(number: u32, payload: Seq<u8>) -> Seq<u8> {
    varint_bytes((number * 8 + WIRE_LENGTH_DELIMITED) as nat) + varint_bytes(payload.len())
        + payload
}

/// Reads a tag with `CodedInputStream::read_tag_unpack` from the bytes that
/// start at `pos`. Claimed: the outcome is `tag_at`; a malformed varint and a
/// malformed tag are told apart, every other failure is an input that ends early.
#[verifier::external_body]
fn read_tag(bytes: &[u8], pos: usize) -> (r: Result<(u32, u32, usize), DecodeError>)
    requires
        pos <= bytes@.len(),
    ensures
        match tag_at(bytes@, pos as int) {
            Ok((number, wire_type, used)) => r == Ok::<(u32, u32, usize), DecodeError>(
                (number, wire_type, used as usize),
            ),
            Err(e) => r == Err::<(u32, u32, usize), DecodeError>(e),
        },
{
    let mut is = CodedInputStream::from_bytes(&bytes[pos..]);
    match is.read_tag_unpack() {
        Ok((number, wire_type)) => Ok((number, wire_type as u32, is.pos() as usize)),
        Err(ProtobufError::WireError(WireError::IncorrectTag(_))) => Err(DecodeError::IncorrectTag),
        Err(ProtobufError::WireError(WireError::IncorrectVarint)) => Err(
            DecodeError::IncorrectVarint,
        ),
        Err(_) => Err(DecodeError::Truncated),
    }
}

/// Reads a length-delimited value with `CodedInputStream::read_bytes` from the
/// bytes that start at `pos`. Claimed: the outcome is `bytes_at`; a malformed
/// varint is told apart, every other failure is an input that ends early.
#[verifier::external_body]
fn read_bytes(bytes: &[u8], pos: usize) -> (r: Result<(Vec<u8>, usize), DecodeError>)
    requires
        pos <= bytes@.len(),
    ensures
        match bytes_at(bytes@, pos as int) {
            Ok((value, used)) => r is Ok && r->Ok_0.0@ == value && r->Ok_0.1 == used,
            Err(e) => r == Err::<(Vec<u8>, usize), DecodeError>(e),
        },
{
    let mut is = CodedInputStream::from_bytes(&bytes[pos..]);
    match is.read_bytes() {
        Ok(value) => Ok((value, is.pos() as usize)),
        Err(ProtobufError::WireError(WireError::IncorrectVarint)) => Err(
            DecodeError::IncorrectVarint,
        ),
        Err(_) => Err(DecodeError::Truncated),
    }
}

/// Skips a value with `CodedInputStream::skip_field` from the bytes that
/// start at `pos`. Claimed: the outcome is `value_at`; a malformed varint and
/// a wire type without a value are told apart, every other failure is an
/// input that ends early.
#[verifier::external_body]
fn skip_value(bytes: &[u8], pos: usize, wire_type: u32) -> (r: Result<usize, DecodeError>)
    requires
        pos <= bytes@.len(),
        wire_type <= 5,
    ensures
        match value_at(bytes@, pos as int, wire_type) {
            Ok(used) => r == Ok::<usize, DecodeError>(used as usize),
            Err(e) => r == Err::<usize, DecodeError>(e),
        },
{
    let mut is = CodedInputStream::from_bytes(&bytes[pos..]);
    let wire_type = WireType::new(wire_type).unwrap();
    match is.skip_field(wire_type) {
        Ok(()) => Ok(is.pos() as usize),
        Err(ProtobufError::WireError(WireError::IncorrectVarint)) => Err(
            DecodeError::IncorrectVarint,
        ),
        Err(ProtobufError::WireError(WireError::UnexpectedWireType(_))) => Err(
            DecodeError::UnexpectedWireType,
        ),
        Err(_) => Err(DecodeError::Truncated),
    }
}

/// Appends a length-delimited field with `CodedOutputStream::write_bytes` on a
/// stream over the vector, then flushes it. Claimed: the vector grows by
/// `field_bytes`; writing into a vector does not fail.
#[verifier::external_body]
fn write_bytes_field(out: &mut Vec<u8>, number: u32, payload: &[u8])
    requires
        1 <= number <= FIELD_NUMBER_MAX,
        payload@.len() <= u32::MAX,
    ensures
        final(out)@ == old(out)@ + field_bytes(number, payload@),
{
    let mut os = CodedOutputStream::vec(out);
    os.write_bytes(number, payload).unwrap();
    os.flush().unwrap();
}

/// Length of a varint, computed by `protobuf::rt::compute_raw_varint64_size`.
/// Claimed: it is the length of `varint_bytes`.
#[verifier::external_body]
fn varint_size(value: u64) -> (size: u32)
    ensures
        size == varint_bytes(value as nat).len(),
{
    protobuf::rt::compute_raw_varint64_size(value)
}

/// The field of a tagged union that a message selects: its number and the
/// bytes of the message it carries.
#[derive(Clone, Debug, PartialEq, Eq)]
pub struct Selected {
    pub number: u32,
    pub payload: Vec<u8>,
}

impl View for Selected {
    type V = (u32, Seq<u8>);

    open spec fn view(&self) -> (u32, Seq<u8>) {
        (self.number, self.payload@)
    }
}

/// What the fields from `pos` on select, after `cur`, in a union whose cases
/// are numbered from 1 to `cases`. A later case replaces an earlier one, a
/// case must be length-delimited, and fields with other numbers are skipped.
pub open spec fn oneof_from(s: Seq<u8>, pos: int, cases: u32, cur: Option<(u32, Seq<u8>)>) -> Result<
    Option<(u32, Seq<u8>)>,
    DecodeError,
>
    decreases
            if pos < s.len() {
                s.len() - pos
            } else {
                0
            },
    via oneof_from_decreases
{
    if pos < 0 || pos >= s.len() {
        Ok(cur)
    } else {
        match tag_at(s, pos) {
            Err(e) => Err(e),
            Ok((number, wire_type, used)) => {
                let at = pos + used;
                if 1 <= number <= cases {
                    if wire_type != WIRE_LENGTH_DELIMITED {
                        Err(DecodeError::UnexpectedWireType)
                    } else {
                        match bytes_at(s, at) {
                            Err(e) => Err(e),
                            Ok((payload, n)) => oneof_from(s, at + n, cases, Some((number, payload))),
                        }
                    }
                } else {
                    match unknown_field_at(s, at, wire_type) {
                        Err(e) => Err(e),
                        Ok(n) => oneof_from(s, at + n, cases, cur),
                    }
                }
            },
        }
    }
}

#[via_fn]
proof fn oneof_from_decreases(s: Seq<u8>, pos: int, cases: u32, cur: Option<(u32, Seq<u8>)>) {
    lemma_tag_at_bounds(s, pos);
    if let Ok((number, wire_type, used)) = tag_at(s, pos) {
        lemma_value_at_bounds(s, pos + used, WIRE_LENGTH_DELIMITED);
        lemma_unknown_field_at_bounds(s, pos + used, wire_type);
    }
}

/// The case that a whole message selects.
pub open spec fn oneof(s: Seq<u8>, cases: u32) -> Result<Option<(u32, Seq<u8>)>, DecodeError> {
    oneof_from(s, 0, cases, None)
}

/// A varint that is there takes between one byte and `limit` bytes, all of
/// them inside the input.
pub proof fn lemma_varint_len_bounds(s: Seq<u8>, pos: int, limit: nat)
    ensures
        varint_len(s, pos, limit) matches Ok(n) ==> 1 <= n <= limit && 0 <= pos && pos + n
            <= s.len(),
    decreases limit,
{
    if limit > 0 && 0 <= pos < s.len() && s[pos] >= 128 {
        lemma_varint_len_bounds(s, pos + 1, (limit - 1) as nat);
    }
}

/// A tag that is there takes at least one byte, all inside the input, and
/// has a wire type up to five.
pub proof fn lemma_tag_at_bounds(s: Seq<u8>, pos: int)
    ensures
        tag_at(s, pos) matches Ok((number, wire_type, used)) ==> 1 <= used && 0 <= pos && pos
            + used <= s.len() && wire_type <= 5 && number >= 1,
{
    reveal(tag_at);
    lemma_varint_len_bounds(s, pos, 10);
}

/// A value that is there takes at least one byte, all inside the input.
pub proof fn lemma_value_at_bounds(s: Seq<u8>, pos: int, wire_type: u32)
    requires
        0 <= pos,
    ensures
        value_at(s, pos, wire_type) matches Ok(n) ==> 1 <= n && pos + n <= s.len(),
        bytes_at(s, pos) matches Ok((_, n)) ==> 1 <= n && pos + n <= s.len(),
{
    reveal(value_at);
    reveal(bytes_at);
    lemma_varint_len_bounds(s, pos, 10);
}

/// A field of a group that is there takes at least one byte, all inside the
/// input.
pub proof fn lemma_group_field_at_bounds(s: Seq<u8>, pos: int)
    ensures
        group_field_at(s, pos) matches Ok((n, _)) ==> 1 <= n && 0 <= pos && pos + n <= s.len(),
{
    lemma_tag_at_bounds(s, pos);
    if let Ok((_, wire_type, used)) = tag_at(s, pos) {
        lemma_value_at_bounds(s, pos + used, wire_type);
    }
}

/// The rest of a group that is there takes at least one byte, all inside the
/// input.
pub proof fn lemma_group_at_bounds(s: Seq<u8>, pos: int)
    ensures
        group_at(s, pos) matches Ok(n) ==> 1 <= n && 0 <= pos && pos + n <= s.len(),
    decreases
            if pos < s.len() {
                s.len() - pos
            } else {
                0
            },
{
    lemma_group_field_at_bounds(s, pos);
    if let Ok((n, ended)) = group_field_at(s, pos) {
        if !ended {
            lemma_group_at_bounds(s, pos + n);
        }
    }
}

/// The value of a field which is no case, where it is there, takes at least
/// one byte, all inside the input.
pub proof fn lemma_unknown_field_at_bounds(s: Seq<u8>, pos: int, wire_type: u32)
    requires
        0 <= pos,
    ensures
        unknown_field_at(s, pos, wire_type) matches Ok(n) ==> 1 <= n && pos + n <= s.len(),
{
    lemma_value_at_bounds(s, pos, wire_type);
    lemma_group_at_bounds(s, pos);
}


/// Skips one field inside a group, and says whether its tag ended the group.
fn skip_group_field(bytes: &[u8], pos: usize) -> (r: Result<(usize, bool), DecodeError>)
    requires
        pos <= bytes@.len() <= usize::MAX,
    ensures
        match group_field_at(bytes@, pos as int) {
            Ok((used, ended)) => r == Ok::<(usize, bool), DecodeError>((used as usize, ended)),
            Err(e) => r == Err::<(usize, bool), DecodeError>(e),
        },
{
    proof {
        lemma_tag_at_bounds(bytes@, pos as int);
    }
    let (_number, wire_type, used) = match read_tag(bytes, pos) {
        Ok(tag) => tag,
        Err(e) => {
            return Err(e);
        },
    };
    if wire_type == WIRE_END_GROUP {
        return Ok((used, true));
    }
    proof {
        lemma_value_at_bounds(bytes@, pos + used, wire_type);
    }
    match skip_value(bytes, pos + used, wire_type) {
        Ok(n) => Ok((used + n, false)),
        Err(e) => Err(e),
    }
}

/// Skips the rest of a group: its fields, up to and with the tag that ends it.
fn skip_group(bytes: &[u8], pos: usize) -> (r: Result<usize, DecodeError>)
    requires
        pos <= bytes@.len() <= usize::MAX,
    ensures
        match group_at(bytes@, pos as int) {
            Ok(used) => r == Ok::<usize, DecodeError>(used as usize),
            Err(e) => r == Err::<usize, DecodeError>(e),
        },
{
    let mut at: usize = pos;
    loop
        invariant
            pos <= at <= bytes@.len() <= usize::MAX,
            group_at(bytes@, pos as int) == further(group_at(bytes@, at as int), at - pos),
        decreases bytes@.len() - at,
    {
        proof {
            lemma_group_field_at_bounds(bytes@, at as int);
        }
        let (n, ended) = match skip_group_field(bytes, at) {
            Ok(field) => field,
            Err(e) => {
                return Err(e);
            },
        };
        if ended {
            return Ok(at - pos + n);
        }
        at = at + n;
    }
}

/// Skips the value of a field which is no case.
fn skip_unknown(bytes: &[u8], pos: usize, wire_type: u32) -> (r: Result<usize, DecodeError>)
    requires
        pos <= bytes@.len() <= usize::MAX,
        wire_type <= 5,
    ensures
        match unknown_field_at(bytes@, pos as int, wire_type) {
            Ok(used) => r == Ok::<usize, DecodeError>(used as usize),
            Err(e) => r == Err::<usize, DecodeError>(e),
        },
{
    if wire_type == WIRE_START_GROUP {
        skip_group(bytes, pos)
    } else {
        skip_value(bytes, pos, wire_type)
    }
}

/// The view of an optional selection.
pub open spec fn selected_view(cur: Option<Selected>) -> Option<(u32, Seq<u8>)> {
    match cur {
        Some(sel) => Some(sel@),
        None => None,
    }
}

/// Decodes the case that a message selects in a union of `cases` cases.
pub fn decode_oneof(bytes: &[u8], cases: u32) -> (r: Result<Option<Selected>, DecodeError>)
    ensures
        match oneof(bytes@, cases) {
            Ok(cur) => r is Ok && selected_view(r->Ok_0) == cur,
            Err(e) => r is Err && r->Err_0 == e,
        },
{
    let mut pos: usize = 0;
    let mut cur: Option<Selected> = None;
    while pos < bytes.len()
        invariant
            pos <= bytes@.len(),
            oneof(bytes@, cases) == oneof_from(bytes@, pos as int, cases, selected_view(cur)),
        decreases bytes@.len() - pos,
    {
        proof {
            lemma_tag_at_bounds(bytes@, pos as int);
        }
        let (number, wire_type, used) = match read_tag(bytes, pos) {
            Ok(tag) => tag,
            Err(e) => {
                return Err(e);
            },
        };
        let at: usize = pos + used;
        proof {
            lemma_value_at_bounds(bytes@, at as int, WIRE_LENGTH_DELIMITED);
            lemma_unknown_field_at_bounds(bytes@, at as int, wire_type);
        }
        if 1 <= number && number <= cases {
            if wire_type != WIRE_LENGTH_DELIMITED {
                return Err(DecodeError::UnexpectedWireType);
            }
            match read_bytes(bytes, at) {
                Ok((payload, n)) => {
                    cur = Some(Selected { number, payload });
                    pos = at + n;
                },
                Err(e) => {
                    return Err(e);
                },
            }
        } else {
            match skip_unknown(bytes, at, wire_type) {
                Ok(n) => {
                    pos = at + n;
                },
                Err(e) => {
                    return Err(e);
                },
            }
        }
    }
    Ok(cur)
}

/// Why a message has no encoding.
#[derive(Clone, Copy, Debug, PartialEq, Eq, Structural)]
pub enum EncodeError {
    /// The encoding would be longer than a 32-bit length can say.
    TooLarge,
}

/// Whether the field's encoding has a length that fits in 32 bits.
pub open spec fn encodable(number: u32, payload: Seq<u8>) -> bool {
    field_bytes(number, payload).len() <= u32::MAX
}

/// 128 to the power `k`.
pub open spec fn pow128(k: nat) -> nat
    decreases k,
{
    if k == 0 {
        1
    } else {
        128 * pow128((k - 1) as nat)
    }
}

/// A number below `128^k` has a varint of at most `k` bytes.
pub proof fn lemma_varint_bytes_len(v: nat, k: nat)
    requires
        k >= 1,
        v < pow128(k),
    ensures
        1 <= varint_bytes(v).len() <= k,
    decreases k,
{
    reveal_with_fuel(pow128, 2);
    if v >= 128 {
        assert(k >= 2);
        lemma_varint_bytes_len(v / 128, (k - 1) as nat);
    }
}

/// A 64-bit number has a varint of at most ten bytes, a 32-bit number one of
/// at most five.
pub proof fn lemma_varint_bytes_len_fixed(v: nat)
    ensures
        1 <= varint_bytes(v).len(),
        v <= u64::MAX ==> varint_bytes(v).len() <= 10,
        v <= u32::MAX ==> varint_bytes(v).len() <= 5,
{
    reveal_with_fuel(pow128, 11);
    assert(pow128(5) == 0x8_0000_0000);
    assert(pow128(10) == 0x40_0000_0000_0000_0000);
    if v <= u32::MAX {
        lemma_varint_bytes_len(v, 5);
    }
    if v <= u64::MAX {
        lemma_varint_bytes_len(v, 10);
    }
}

/// Where the bytes from `pos` on start with the varint of `v`, reading a varint
/// at `pos` gives `v` back.
pub proof fn lemma_varint_read_back(s: Seq<u8>, pos: int, v: nat, limit: nat)
    requires
        0 <= pos,
        pos + varint_bytes(v).len() <= s.len(),
        s.subrange(pos, pos + varint_bytes(v).len()) == varint_bytes(v),
        varint_bytes(v).len() <= limit,
    ensures
        varint_len(s, pos, limit) == Ok::<int, DecodeError>(varint_bytes(v).len() as int),
        varint_value(s, pos, varint_bytes(v).len() as int) == v,
    decreases v,
{
    let b = varint_bytes(v);
    let n = b.len() as int;
    assert(s[pos] == s.subrange(pos, pos + n)[0]);
    if v < 128 {
        assert(b =~= seq![v as u8]);
        assert(varint_value(s, pos + 1, 0) == 0);
    } else {
        let rest = varint_bytes(v / 128);
        assert(b =~= seq![(v % 128 + 128) as u8] + rest);
        assert(b[0] == (v % 128 + 128) as u8);
        assert(s.subrange(pos + 1, pos + 1 + rest.len()) =~= rest) by {
            assert forall|i: int| 0 <= i < rest.len() implies s.subrange(
                pos + 1,
                pos + 1 + rest.len(),
            )[i] == rest[i] by {
                assert(s.subrange(pos, pos + n)[i + 1] == b[i + 1]);
            }
        }
        lemma_varint_read_back(s, pos + 1, v / 128, (limit - 1) as nat);
    }
}

/// The length of the encoding of a length-delimited field with a payload of
/// `len` bytes.
pub open spec fn field_len(number: u32, len: nat) -> nat {
    varint_bytes((number * 8 + WIRE_LENGTH_DELIMITED) as nat).len() + varint_bytes(len).len() + len
}

/// The length of the encoding of a length-delimited field, where 32 bits can
/// say it.
pub fn field_size(number: u32, len: usize) -> (r: Result<u32, EncodeError>)
    requires
        1 <= number <= FIELD_NUMBER_MAX,
    ensures
        match r {
            Ok(size) => size == field_len(number, len as nat),
            Err(e) => field_len(number, len as nat) > u32::MAX && e == EncodeError::TooLarge,
        },
{
    let tag: u32 = number * 8 + WIRE_LENGTH_DELIMITED;
    proof {
        lemma_varint_bytes_len_fixed(tag as nat);
        lemma_varint_bytes_len_fixed(len as nat);
    }
    if len > u32::MAX as usize {
        return Err(EncodeError::TooLarge);
    }
    let head: u32 = varint_size(tag as u64) + varint_size(len as u64);
    if len > (u32::MAX - head) as usize {
        return Err(EncodeError::TooLarge);
    }
    Ok(head + len as u32)
}

/// The encoding of a length-delimited field, where its length fits in 32 bits.
pub fn encode_field(number: u32, payload: &[u8]) -> (r: Result<Vec<u8>, EncodeError>)
    requires
        1 <= number <= FIELD_NUMBER_MAX,
    ensures
        match r {
            Ok(out) => encodable(number, payload@) && out@ == field_bytes(number, payload@),
            Err(e) => !encodable(number, payload@) && e == EncodeError::TooLarge,
        },
{
    let size: u32 = field_size(number, payload.len())?;
    let mut out: Vec<u8> = Vec::with_capacity(size as usize);
    write_bytes_field(&mut out, number, payload);
    Ok(out)
}

/// Where the bytes from `pos` on start with the varint of a 64-bit number,
/// the varint at `pos` is that number.
pub proof fn lemma_varint_at_encoded(s: Seq<u8>, pos: int, v: u64)
    requires
        0 <= pos,
        pos + varint_bytes(v as nat).len() <= s.len(),
        s.subrange(pos, pos + varint_bytes(v as nat).len()) == varint_bytes(v as nat),
    ensures
        varint_at(s, pos) == Ok::<(u64, int), DecodeError>(
            (v, varint_bytes(v as nat).len() as int),
        ),
{
    lemma_varint_bytes_len_fixed(v as nat);
    lemma_varint_read_back(s, pos, v as nat, 10);
}

/// Where the bytes from `pos` on start with the tag of a length-delimited
/// field, the tag at `pos` is that field's.
pub proof fn lemma_tag_at_encoded(s: Seq<u8>, pos: int, number: u32)
    requires
        1 <= number <= FIELD_NUMBER_MAX,
        0 <= pos,
        pos + varint_bytes((number * 8 + WIRE_LENGTH_DELIMITED) as nat).len() <= s.len(),
        s.subrange(pos, pos + varint_bytes((number * 8 + WIRE_LENGTH_DELIMITED) as nat).len())
            == varint_bytes((number * 8 + WIRE_LENGTH_DELIMITED) as nat),
    ensures
        tag_at(s, pos) == Ok::<(u32, u32, int), DecodeError>(
            (
                number,
                WIRE_LENGTH_DELIMITED,
                varint_bytes((number * 8 + WIRE_LENGTH_DELIMITED) as nat).len() as int,
            ),
        ),
{
    reveal(tag_at);
    let tag: u64 = (number * 8 + WIRE_LENGTH_DELIMITED) as u64;
    lemma_varint_at_encoded(s, pos, tag);
}

/// Where the bytes from `pos` on are a length and a value and nothing more,
/// the length-delimited value at `pos` is that value.
pub proof fn lemma_bytes_at_encoded(s: Seq<u8>, pos: int, payload: Seq<u8>)
    requires
        payload.len() <= u32::MAX,
        0 <= pos,
        pos + varint_bytes(payload.len()).len() + payload.len() == s.len(),
        s.subrange(pos, s.len() as int) == varint_bytes(payload.len()) + payload,
    ensures
        bytes_at(s, pos) == Ok::<(Seq<u8>, int), DecodeError>((payload, s.len() - pos)),
{
    reveal(bytes_at);
    let size = varint_bytes(payload.len());
    let tail = s.subrange(pos, s.len() as int);
    assert(s.subrange(pos, pos + size.len()) =~= size) by {
        assert forall|i: int| 0 <= i < size.len() implies s.subrange(pos, pos + size.len())[i]
            == size[i] by {
            assert(tail[i] == size[i]);
        }
    }
    lemma_varint_at_encoded(s, pos, payload.len() as u64);
    assert(s.subrange(pos + size.len(), pos + size.len() + payload.len()) =~= payload) by {
        assert forall|i: int| 0 <= i < payload.len() implies s.subrange(
            pos + size.len(),
            pos + size.len() + payload.len(),
        )[i] == payload[i] by {
            assert(tail[size.len() + i] == payload[i]);
        }
    }
}

/// Decoding the encoding of a field whose number is a case gives the field back.
pub proof fn lemma_oneof_of_field(number: u32, payload: Seq<u8>, cases: u32)
    requires
        1 <= number <= cases,
        number <= FIELD_NUMBER_MAX,
        payload.len() <= u32::MAX,
    ensures
        oneof(field_bytes(number, payload), cases) == Ok::<Option<(u32, Seq<u8>)>, DecodeError>(
            Some((number, payload)),
        ),
{
    let head = varint_bytes((number * 8 + WIRE_LENGTH_DELIMITED) as nat);
    let s = field_bytes(number, payload);
    let at = head.len() as int;
    assert(s.subrange(0, at) =~= head);
    lemma_tag_at_encoded(s, 0, number);
    assert(s.subrange(at, s.len() as int) =~= varint_bytes(payload.len()) + payload);
    lemma_bytes_at_encoded(s, at, payload);
    assert(oneof_from(s, s.len() as int, cases, Some((number, payload))) == Ok::<
        Option<(u32, Seq<u8>)>,
        DecodeError,
    >(Some((number, payload))));
}

/// A selected case has a number between 1 and `cases`, whatever the input.
pub proof fn lemma_oneof_in_range(s: Seq<u8>, pos: int, cases: u32, cur: Option<(u32, Seq<u8>)>)
    requires
        cur matches Some(sel) ==> 1 <= sel.0 <= cases,
    ensures
        oneof_from(s, pos, cases, cur) matches Ok(Some(sel)) ==> 1 <= sel.0 <= cases,
    decreases
            if pos < s.len() {
                s.len() - pos
            } else {
                0
            },
{
    if 0 <= pos < s.len() {
        lemma_tag_at_bounds(s, pos);
        if let Ok((number, wire_type, used)) = tag_at(s, pos) {
            let at = pos + used;
            lemma_value_at_bounds(s, at, WIRE_LENGTH_DELIMITED);
            lemma_unknown_field_at_bounds(s, at, wire_type);
            if 1 <= number <= cases {
                if wire_type == WIRE_LENGTH_DELIMITED {
                    if let Ok((payload, n)) = bytes_at(s, at) {
                        lemma_oneof_in_range(s, at + n, cases, Some((number, payload)));
                    }
                }
            } else {
                if let Ok(n) = unknown_field_at(s, at, wire_type) {
                    lemma_oneof_in_range(s, at + n, cases, cur);
                }
            }
        }
    }
}

} // verus!
