//! Transaction frames: a fixed-size header followed by a body of parameters.

use vstd::prelude::*;

use super::codec::{
    copy_range, i64_at, i64_bytes, lemma_i64_roundtrip, push_bytes, push_i64, read_i64,
    i16_at, i16_bytes, i32_at, i32_bytes, i8_at, i8_bytes, lemma_i16_bytes_of,
    lemma_i16_roundtrip, lemma_i32_bytes_of, lemma_i32_roundtrip, lemma_i8_bytes_of,
    lemma_i8_roundtrip, push_i16, push_i32, push_i8, read_i16, read_i32, read_i8,
};
use super::transaction_field::TransactionField;
use super::transaction_type::TransactionType;
use super::{ErrorCode, ProtocolError};

verus! {

/// Number of bytes of a serialized transaction header.
pub const HEADER_SIZE: usize = 20;

#[derive(Debug, Clone, Copy, PartialEq, Eq, Structural)]
pub struct Flags(pub i8);

impl Flags {
    pub fn none() -> (r: Self)
        ensures
            r.0 == 0,
    {
        Self(0)
    }
}

impl Default for Flags {
    fn default() -> (r: Self)
        ensures
            r.0 == 0,
    {
        Self::none()
    }
}

#[derive(Debug, Clone, Copy, PartialEq, Eq, Structural)]
pub struct IsReply(pub i8);

impl IsReply {
    pub fn reply() -> (r: Self)
        ensures
            r.0 == 1,
    {
        Self(1)
    }

    pub fn request() -> (r: Self)
        ensures
            r.0 == 0,
    {
        Self(0)
    }

    pub fn is_reply(&self) -> (r: bool)
        ensures
            r == (self.0 == 1),
    {
        self.0 == 1
    }
}

#[derive(Debug, Clone, Copy, PartialEq, Eq, Structural)]
pub struct Type(pub i16);

#[derive(Debug, Clone, Copy, PartialEq, Eq, Structural)]
pub struct Id(pub i32);

#[derive(Debug, Clone, Copy, PartialEq, Eq, Structural)]
pub struct TotalSize(pub i32);

#[derive(Debug, Clone, Copy, PartialEq, Eq, Structural)]
pub struct DataSize(pub i32);

impl DataSize {
    /// The size, truncated to the 32 bits that the wire carries.
    pub fn from_usize(size: usize) -> (r: Self)
        ensures
            r.0 == size as i32,
    {
        Self(size as i32)
    }
}

#[derive(Debug, Clone, Copy, PartialEq, Eq, Structural)]
pub struct FieldId(pub i16);

impl FieldId {
    pub fn from_field(field: TransactionField) -> (r: Self)
        ensures
            r.0 == field.code(),
    {
        Self(field.to_i16())
    }
}

#[derive(Debug, Clone, Copy, PartialEq, Eq, Structural)]
pub struct TransactionHeader {
    pub flags: Flags,
    pub is_reply: IsReply,
    pub type_: Type,
    pub id: Id,
    pub error_code: ErrorCode,
    pub total_size: TotalSize,
    pub data_size: DataSize,
}

/// The header that a default header gets when it is given a type.
pub open spec fn header_of_type(t: TransactionType) -> TransactionHeader {
    TransactionHeader {
        flags: Flags(0),
        is_reply: IsReply(0),
        type_: Type(t.code()),
        id: Id(0),
        error_code: ErrorCode(0),
        total_size: TotalSize(0),
        data_size: DataSize(0),
    }
}

/// What `transaction_type` gives for a header's type number.
pub open spec fn spec_transaction_type(h: TransactionHeader) -> Result<TransactionType, ProtocolError> {
    match TransactionType::from_code(h.type_.0) {
        Some(t) => Ok(t),
        None => Err(ProtocolError::UnsupportedTransaction(h.type_.0)),
    }
}

/// What `require_transaction_type` gives: the header itself when its type is
/// the expected one.
pub open spec fn spec_require_type(h: TransactionHeader, expected: TransactionType) -> Result<(), ProtocolError> {
    match TransactionType::from_code(h.type_.0) {
        None => Err(ProtocolError::UnsupportedTransaction(h.type_.0)),
        Some(t) => if t == expected {
            Ok(())
        } else {
            Err(
                ProtocolError::UnexpectedTransaction {
                    expected: expected.code(),
                    encountered: t.code(),
                },
            )
        },
    }
}

#[verifier::opaque]
pub open spec fn header_bytes(h: TransactionHeader) -> Seq<u8> {
    i8_bytes(h.flags.0) + i8_bytes(h.is_reply.0) + i16_bytes(h.type_.0) + i32_bytes(h.id.0)
        + i32_bytes(h.error_code.0) + i32_bytes(h.total_size.0) + i32_bytes(h.data_size.0)
}

pub open spec fn parse_header(s: Seq<u8>) -> Option<TransactionHeader> {
    if s.len() < 20 {
        None
    } else {
        Some(
            TransactionHeader {
                flags: Flags(i8_at(s, 0)),
                is_reply: IsReply(i8_at(s, 1)),
                type_: Type(i16_at(s, 2)),
                id: Id(i32_at(s, 4)),
                error_code: ErrorCode(i32_at(s, 8)),
                total_size: TotalSize(i32_at(s, 12)),
                data_size: DataSize(i32_at(s, 16)),
            },
        )
    }
}

impl TransactionHeader {
    pub fn transaction_type(&self) -> (r: Result<TransactionType, ProtocolError>)
        ensures
            r == spec_transaction_type(*self),
    {
        match TransactionType::try_from(self.type_.0) {
            Ok(t) => Ok(t),
            Err(_) => Err(ProtocolError::UnsupportedTransaction(self.type_.0)),
        }
    }

    pub fn require_transaction_type(self, expected: TransactionType) -> (r: Result<Self, ProtocolError>)
        ensures
            r == (match spec_require_type(self, expected) {
                Ok(()) => Ok::<Self, ProtocolError>(self),
                Err(e) => Err(e),
            }),
    {
        let t = self.transaction_type()?;
        if t == expected {
            Ok(self)
        } else {
            Err(
                ProtocolError::UnexpectedTransaction {
                    expected: expected.to_i16(),
                    encountered: t.to_i16(),
                },
            )
        }
    }

    /// The body length that the header announces.
    pub fn body_len(&self) -> (r: usize)
        ensures
            r == self.data_size.0 as usize,
    {
        self.data_size.0 as usize
    }

    /// The body length that the header announces, refused when it is
    /// negative.
    pub fn checked_body_len(&self) -> (r: Option<usize>)
        ensures
            self.data_size.0 >= 0 ==> r == Some(self.data_size.0 as usize),
            self.data_size.0 < 0 ==> r is None,
    {
        if self.data_size.0 < 0 {
            None
        } else {
            Some(self.data_size.0 as usize)
        }
    }

    /// This header made into the reply to `request`.
    pub fn reply_to(self, request: &TransactionHeader) -> (r: Self)
        ensures
            r == (TransactionHeader {
                type_: Type(0),
                id: request.id,
                is_reply: IsReply(1),
                ..self
            }),
    {
        Self {
            type_: Type(TransactionType::Reply.to_i16()),
            id: request.id,
            is_reply: IsReply::reply(),
            ..self
        }
    }

    pub fn update_sizes(&mut self, size: usize)
        ensures
            *final(self) == (TransactionHeader {
                data_size: DataSize(size as i32),
                total_size: TotalSize(size as i32),
                ..*old(self)
            }),
    {
        self.data_size = DataSize(size as i32);
        self.total_size = TotalSize(size as i32);
    }

    pub fn from_type(t: TransactionType) -> (r: Self)
        ensures
            r == header_of_type(t),
    {
        Self { type_: Type(t.to_i16()), ..Self::default() }
    }

    pub fn to_bytes(&self) -> (r: Vec<u8>)
        ensures
            r@ == header_bytes(*self),
    {
        let mut out: Vec<u8> = Vec::new();
        push_i8(&mut out, self.flags.0);
        push_i8(&mut out, self.is_reply.0);
        push_i16(&mut out, self.type_.0);
        push_i32(&mut out, self.id.0);
        push_i32(&mut out, self.error_code.0);
        push_i32(&mut out, self.total_size.0);
        push_i32(&mut out, self.data_size.0);
        reveal(header_bytes);
        assert(out@ =~= header_bytes(*self));
        out
    }

    /// Reads a header from the start of `s`, giving back what follows it.
    pub fn from_bytes(s: &[u8]) -> (r: Result<(&[u8], Self), ProtocolError>)
        ensures
            match parse_header(s@) {
                Some(h) => r matches Ok((rest, h2)) && h2 == h && rest@ == s@.subrange(
                    20,
                    s@.len() as int,
                ),
                None => r matches Err(ProtocolError::ParseHeader),
            },
    {
        if s.len() < HEADER_SIZE {
            return Err(ProtocolError::ParseHeader);
        }
        let h = TransactionHeader {
            flags: Flags(read_i8(s, 0)),
            is_reply: IsReply(read_i8(s, 1)),
            type_: Type(read_i16(s, 2)),
            id: Id(read_i32(s, 4)),
            error_code: ErrorCode(read_i32(s, 8)),
            total_size: TotalSize(read_i32(s, 12)),
            data_size: DataSize(read_i32(s, 16)),
        };
        Ok((&s[HEADER_SIZE..s.len()], h))
    }
}

impl Default for TransactionHeader {
    fn default() -> (r: Self)
        ensures
            r == header_of_type(TransactionType::Error),
    {
        Self {
            type_: Type(TransactionType::Error.to_i16()),
            id: Id(0),
            error_code: ErrorCode::ok(),
            is_reply: IsReply::request(),
            flags: Flags::default(),
            total_size: TotalSize(0),
            data_size: DataSize(0),
        }
    }
}

/// A header written out and read back is the same header.
pub proof fn lemma_header_roundtrip(h: TransactionHeader, rest: Seq<u8>)
    ensures
        header_bytes(h).len() == 20,
        parse_header(header_bytes(h) + rest) == Some(h),
{
    reveal(header_bytes);
    let s = header_bytes(h) + rest;
    lemma_i8_roundtrip(h.flags.0, s.subrange(1, s.len() as int));
    lemma_i8_roundtrip(h.is_reply.0, s.subrange(2, s.len() as int));
    lemma_i16_roundtrip(h.type_.0, s.subrange(4, s.len() as int));
    lemma_i32_roundtrip(h.id.0, s.subrange(8, s.len() as int));
    lemma_i32_roundtrip(h.error_code.0, s.subrange(12, s.len() as int));
    lemma_i32_roundtrip(h.total_size.0, s.subrange(16, s.len() as int));
    lemma_i32_roundtrip(h.data_size.0, s.subrange(20, s.len() as int));
    assert(s.subrange(1, s.len() as int) =~= i8_bytes(h.is_reply.0) + s.subrange(2, s.len() as int));
    assert(s.subrange(2, s.len() as int) =~= i16_bytes(h.type_.0) + s.subrange(4, s.len() as int));
    assert(s.subrange(4, s.len() as int) =~= i32_bytes(h.id.0) + s.subrange(8, s.len() as int));
    assert(s.subrange(8, s.len() as int) =~= i32_bytes(h.error_code.0) + s.subrange(12, s.len() as int));
    assert(s.subrange(12, s.len() as int) =~= i32_bytes(h.total_size.0) + s.subrange(16, s.len() as int));
    assert(s.subrange(16, s.len() as int) =~= i32_bytes(h.data_size.0) + s.subrange(20, s.len() as int));
    assert(s =~= i8_bytes(h.flags.0) + s.subrange(1, s.len() as int));
    assert(i8_at(s, 1) == i8_at(s.subrange(1, s.len() as int), 0));
    assert(i16_at(s, 2) == i16_at(s.subrange(2, s.len() as int), 0));
    assert(i32_at(s, 4) == i32_at(s.subrange(4, s.len() as int), 0));
    assert(i32_at(s, 8) == i32_at(s.subrange(8, s.len() as int), 0));
    assert(i32_at(s, 12) == i32_at(s.subrange(12, s.len() as int), 0));
    assert(i32_at(s, 16) == i32_at(s.subrange(16, s.len() as int), 0));
}

/// Bytes that are read as a header are the bytes that header is written as.
pub proof fn lemma_header_bytes_of(s: Seq<u8>)
    requires
        s.len() >= 20,
    ensures
        header_bytes(parse_header(s).unwrap()) == s.subrange(0, 20),
{
    reveal(header_bytes);
    lemma_i8_bytes_of(s, 0);
    lemma_i8_bytes_of(s, 1);
    lemma_i16_bytes_of(s, 2);
    lemma_i32_bytes_of(s, 4);
    lemma_i32_bytes_of(s, 8);
    lemma_i32_bytes_of(s, 12);
    lemma_i32_bytes_of(s, 16);
    assert(header_bytes(parse_header(s).unwrap()) =~= s.subrange(0, 20));
}


/// A parameter of a transaction body: a field id, the size of its data and
/// the data.
#[derive(Debug, Clone)]
pub struct Parameter {
    pub field_id: FieldId,
    pub field_size: i16,
    pub field_data: Vec<u8>,
}

/// The mathematical value of a parameter.
pub struct ParameterView {
    pub field_id: i16,
    pub field_size: i16,
    pub field_data: Seq<u8>,
}

impl View for Parameter {
    type V = ParameterView;

    open spec fn view(&self) -> ParameterView {
        ParameterView {
            field_id: self.field_id.0,
            field_size: self.field_size,
            field_data: self.field_data@,
        }
    }
}

/// The parameter that `Parameter::new` builds.
pub open spec fn param(field_id: i16, data: Seq<u8>) -> ParameterView {
    ParameterView { field_id, field_size: data.len() as i16, field_data: data }
}

/// A parameter whose announced size is the length of its data.
pub open spec fn param_wf(p: ParameterView) -> bool {
    p.field_size >= 0 && p.field_size as int == p.field_data.len()
}

pub open spec fn parameter_bytes(p: ParameterView) -> Seq<u8> {
    i16_bytes(p.field_id) + i16_bytes(p.field_size) + p.field_data
}

/// Reads one parameter from the start of `s`: the number of bytes it takes,
/// and the parameter.
pub open spec fn parse_parameter(s: Seq<u8>) -> Option<(int, ParameterView)> {
    if s.len() < 4 {
        None
    } else {
        let size = i16_at(s, 2);
        if size < 0 || s.len() < 4 + size {
            None
        } else {
            Some(
                (
                    4 + size,
                    ParameterView {
                        field_id: i16_at(s, 0),
                        field_size: size,
                        field_data: s.subrange(4, 4 + size),
                    },
                ),
            )
        }
    }
}

/// The value of an integer parameter's data, when its length is one of the
/// integer widths.
pub open spec fn int_of_bytes(data: Seq<u8>) -> Option<i64> {
    if data.len() == 1 {
        Some(i8_at(data, 0) as i64)
    } else if data.len() == 2 {
        Some(i16_at(data, 0) as i64)
    } else if data.len() == 4 {
        Some(i32_at(data, 0) as i64)
    } else if data.len() == 8 {
        Some(i64_at(data, 0))
    } else {
        None
    }
}

/// The data an integer parameter is written as: the narrowest of one, two or
/// eight bytes that holds it.
pub open spec fn int_bytes(v: i64) -> Seq<u8> {
    if v < -32768 {
        i64_bytes(v)
    } else if v < -128 {
        i16_bytes(v as i16)
    } else if v <= 127 {
        i8_bytes(v as i8)
    } else if v <= 32767 {
        i16_bytes(v as i16)
    } else {
        i64_bytes(v)
    }
}

/// An integer written as parameter data reads back as the same integer.
pub proof fn lemma_int_roundtrip(v: i64)
    ensures
        int_of_bytes(int_bytes(v)) == Some(v),
{
    let e: Seq<u8> = Seq::empty();
    if v < -32768 || v > 32767 {
        lemma_i64_roundtrip(v, e);
        assert(int_bytes(v) + e =~= int_bytes(v));
    } else if v < -128 || v > 127 {
        lemma_i16_roundtrip(v as i16, e);
        assert(int_bytes(v) + e =~= int_bytes(v));
    } else {
        lemma_i8_roundtrip(v as i8, e);
        assert(int_bytes(v) + e =~= int_bytes(v));
    }
}

/// An integer carried by a parameter.
#[derive(Debug, Clone, Copy, PartialEq, Eq, Structural)]
pub struct IntParameter(pub i64);

impl IntParameter {
    pub fn from_i8(data: &[u8]) -> (r: Option<i64>)
        ensures
            r == (if data@.len() == 1 { Some(i8_at(data@, 0) as i64) } else { None::<i64> }),
    {
        if data.len() == 1 {
            Some(read_i8(data, 0) as i64)
        } else {
            None
        }
    }

    pub fn from_i16(data: &[u8]) -> (r: Option<i64>)
        ensures
            r == (if data@.len() == 2 { Some(i16_at(data@, 0) as i64) } else { None::<i64> }),
    {
        if data.len() == 2 {
            Some(read_i16(data, 0) as i64)
        } else {
            None
        }
    }

    pub fn from_i32(data: &[u8]) -> (r: Option<i64>)
        ensures
            r == (if data@.len() == 4 { Some(i32_at(data@, 0) as i64) } else { None::<i64> }),
    {
        if data.len() == 4 {
            Some(read_i32(data, 0) as i64)
        } else {
            None
        }
    }

    pub fn from_i64(data: &[u8]) -> (r: Option<i64>)
        ensures
            r == (if data@.len() == 8 { Some(i64_at(data@, 0)) } else { None::<i64> }),
    {
        if data.len() == 8 {
            Some(read_i64(data, 0))
        } else {
            None
        }
    }

    /// The integer read from parameter data, when its length is an integer
    /// width.
    pub fn from_data(data: &[u8]) -> (r: Option<IntParameter>)
        ensures
            r == (match int_of_bytes(data@) {
                Some(v) => Some(IntParameter(v)),
                None => None,
            }),
    {
        let value = if data.len() == 1 {
            Self::from_i8(data)
        } else if data.len() == 2 {
            Self::from_i16(data)
        } else if data.len() == 4 {
            Self::from_i32(data)
        } else if data.len() == 8 {
            Self::from_i64(data)
        } else {
            None
        };
        match value {
            Some(v) => Some(IntParameter(v)),
            None => None,
        }
    }

    pub fn i8(&self) -> (r: Option<i8>)
        ensures
            r == (if -128 <= self.0 <= 127 { Some(self.0 as i8) } else { None::<i8> }),
    {
        if -128 <= self.0 && self.0 <= 127 {
            Some(self.0 as i8)
        } else {
            None
        }
    }

    pub fn i16(&self) -> (r: Option<i16>)
        ensures
            r == (if -32768 <= self.0 <= 32767 { Some(self.0 as i16) } else { None::<i16> }),
    {
        if -32768 <= self.0 && self.0 <= 32767 {
            Some(self.0 as i16)
        } else {
            None
        }
    }

    pub fn i32(&self) -> (r: Option<i32>)
        ensures
            r == (if -0x8000_0000 <= self.0 <= 0x7fff_ffff {
                Some(self.0 as i32)
            } else {
                None::<i32>
            }),
    {
        if -0x8000_0000 <= self.0 && self.0 <= 0x7fff_ffff {
            Some(self.0 as i32)
        } else {
            None
        }
    }

    /// The parameter data this integer is written as.
    pub fn to_bytes(self) -> (r: Vec<u8>)
        ensures
            r@ == int_bytes(self.0),
    {
        let v = self.0;
        let mut out: Vec<u8> = Vec::new();
        if v < -32768 {
            push_i64(&mut out, v);
        } else if v < -128 {
            push_i16(&mut out, v as i16);
        } else if v <= 127 {
            push_i8(&mut out, v as i8);
        } else if v <= 32767 {
            push_i16(&mut out, v as i16);
        } else {
            push_i64(&mut out, v);
        }
        assert(out@ =~= int_bytes(v));
        out
    }
}

impl Parameter {
    pub fn new(field_id: FieldId, field_data: Vec<u8>) -> (r: Self)
        ensures
            r@ == param(field_id.0, field_data@),
    {
        Self { field_id, field_size: field_data.len() as i16, field_data }
    }

    /// A parameter for the field `field` with the given data.
    pub fn of_field(field: TransactionField, field_data: Vec<u8>) -> (r: Self)
        ensures
            r@ == param(field.code(), field_data@),
    {
        Self::new(FieldId::from_field(field), field_data)
    }

    pub fn new_i16(field_id: FieldId, value: i16) -> (r: Self)
        ensures
            r@ == param(field_id.0, i16_bytes(value)),
    {
        let mut data: Vec<u8> = Vec::new();
        push_i16(&mut data, value);
        assert(data@ =~= i16_bytes(value));
        Self::new(field_id, data)
    }

    pub fn new_i32(field_id: FieldId, value: i32) -> (r: Self)
        ensures
            r@ == param(field_id.0, i32_bytes(value)),
    {
        let mut data: Vec<u8> = Vec::new();
        push_i32(&mut data, value);
        assert(data@ =~= i32_bytes(value));
        Self::new(field_id, data)
    }

    pub fn new_i64(field_id: FieldId, value: i64) -> (r: Self)
        ensures
            r@ == param(field_id.0, i64_bytes(value)),
    {
        let mut data: Vec<u8> = Vec::new();
        push_i64(&mut data, value);
        assert(data@ =~= i64_bytes(value));
        Self::new(field_id, data)
    }

    pub fn new_int(field_id: FieldId, value: IntParameter) -> (r: Self)
        ensures
            r@ == param(field_id.0, int_bytes(value.0)),
    {
        let field_data = value.to_bytes();
        let field_size = field_data.len() as i16;
        Self { field_id, field_size, field_data }
    }

    /// An error text parameter holding `message` in Mac Roman.
    pub fn new_error(message: &str) -> (r: Self)
        ensures
            r@ == param(TransactionField::ErrorText.code(), super::text::mac_roman_encode(message@).0),
            super::text::is_ascii_text(message@) ==> r@.field_data == super::text::ascii_bytes(message@),
    {
        let (data, _) = super::text::encode_mac_roman(message);
        Self::of_field(TransactionField::ErrorText, data)
    }

    pub fn new_data(data: Vec<u8>) -> (r: Self)
        ensures
            r@ == param(TransactionField::Data.code(), data@),
    {
        Self::of_field(TransactionField::Data, data)
    }

    pub fn field_matches(&self, field: TransactionField) -> (r: bool)
        ensures
            r == (self.field_id.0 == field.code()),
    {
        self.field_id.0 == field.to_i16()
    }

    pub fn take(self) -> (r: Vec<u8>)
        ensures
            r@ == self.field_data@,
    {
        self.field_data
    }

    /// A copy of this parameter.
    pub fn duplicate(&self) -> (r: Self)
        ensures
            r@ == self@,
    {
        let data = copy_range(self.field_data.as_slice(), 0, self.field_data.len());
        assert(data@ =~= self.field_data@);
        Self { field_id: self.field_id, field_size: self.field_size, field_data: data }
    }

    pub fn int_value(&self) -> (r: Option<IntParameter>)
        ensures
            r == (match int_of_bytes(self.field_data@) {
                Some(v) => Some(IntParameter(v)),
                None => None,
            }),
    {
        IntParameter::from_data(self.field_data.as_slice())
    }

    /// Number of bytes the parameter takes on the wire.
    pub fn compute_length(&self) -> (r: usize)
        requires
            self.field_data@.len() + 4 <= usize::MAX,
        ensures
            r == 4 + self.field_data@.len(),
    {
        2 + 2 + self.field_data.len()
    }

    pub fn to_bytes(&self) -> (r: Vec<u8>)
        ensures
            r@ == parameter_bytes(self@),
    {
        let mut out: Vec<u8> = Vec::new();
        push_i16(&mut out, self.field_id.0);
        push_i16(&mut out, self.field_size);
        push_bytes(&mut out, self.field_data.as_slice());
        assert(out@ =~= parameter_bytes(self@));
        out
    }

    /// Reads one parameter at `pos`: the number of bytes it takes, and the
    /// parameter.
    pub fn parse_at(s: &[u8], pos: usize) -> (r: Option<(usize, Parameter)>)
        requires
            pos <= s@.len(),
        ensures
            match parse_parameter(s@.subrange(pos as int, s@.len() as int)) {
                Some((k, p)) => r matches Some((k2, p2)) && k2 == k && p2@ == p,
                None => r is None,
            },
            r matches Some((k, _)) ==> pos + k <= s@.len(),
    {
        let ghost t = s@.subrange(pos as int, s@.len() as int);
        if s.len() - pos < 4 {
            return None;
        }
        let field_id = read_i16(s, pos);
        let size = read_i16(s, pos + 2);
        assert(field_id == i16_at(t, 0));
        assert(size == i16_at(t, 2));
        if size < 0 || s.len() - pos - 4 < size as usize {
            return None;
        }
        let data = copy_range(s, pos + 4, pos + 4 + size as usize);
        assert(data@ =~= t.subrange(4, 4 + size));
        Some((4 + size as usize, Parameter { field_id: FieldId(field_id), field_size: size, field_data: data }))
    }
}

/// A well-formed parameter written out and read back is the same parameter.
pub proof fn lemma_parameter_roundtrip(p: ParameterView, rest: Seq<u8>)
    requires
        param_wf(p),
    ensures
        parse_parameter(parameter_bytes(p) + rest) == Some(
            (parameter_bytes(p).len() as int, p),
        ),
        parameter_bytes(p).len() == 4 + p.field_data.len(),
{
    let s = parameter_bytes(p) + rest;
    lemma_i16_roundtrip(p.field_id, s.subrange(2, s.len() as int));
    lemma_i16_roundtrip(p.field_size, s.subrange(4, s.len() as int));
    assert(s =~= i16_bytes(p.field_id) + s.subrange(2, s.len() as int));
    assert(s.subrange(2, s.len() as int) =~= i16_bytes(p.field_size) + s.subrange(4, s.len() as int));
    assert(i16_at(s, 2) == i16_at(s.subrange(2, s.len() as int), 0));
    assert(s.subrange(4, 4 + p.field_size) =~= p.field_data);
}

/// Bytes read as a parameter are the bytes that parameter is written as, and
/// the parameter read is well-formed.
pub proof fn lemma_parameter_bytes_of(s: Seq<u8>)
    requires
        parse_parameter(s) is Some,
    ensures
        param_wf(parse_parameter(s).unwrap().1),
        parameter_bytes(parse_parameter(s).unwrap().1) == s.subrange(
            0,
            parse_parameter(s).unwrap().0,
        ),
{
    lemma_i16_bytes_of(s, 0);
    lemma_i16_bytes_of(s, 2);
    let (k, p) = parse_parameter(s).unwrap();
    assert(parameter_bytes(p) =~= s.subrange(0, k));
}


/// The views of a sequence of parameters.
pub open spec fn params_view(ps: Seq<Parameter>) -> Seq<ParameterView> {
    ps.map_values(|p: Parameter| p@)
}

pub open spec fn parameters_bytes(ps: Seq<ParameterView>) -> Seq<u8>
    decreases ps.len(),
{
    if ps.len() == 0 {
        Seq::empty()
    } else {
        parameters_bytes(ps.drop_last()) + parameter_bytes(ps.last())
    }
}

/// Reads `n` parameters one after the other from the start of `s`.
pub open spec fn parse_parameters(s: Seq<u8>, n: nat) -> Option<(int, Seq<ParameterView>)>
    decreases n,
{
    if n == 0 {
        Some((0, Seq::empty()))
    } else {
        match parse_parameter(s) {
            None => None,
            Some((k, p)) => match parse_parameters(s.skip(k), (n - 1) as nat) {
                None => None,
                Some((k2, ps)) => Some((k + k2, seq![p] + ps)),
            },
        }
    }
}

/// Sum of the wire lengths of the parameters.
pub open spec fn parameters_len(ps: Seq<ParameterView>) -> int
    decreases ps.len(),
{
    if ps.len() == 0 {
        0
    } else {
        parameters_len(ps.drop_last()) + 4 + ps.last().field_data.len()
    }
}

pub proof fn lemma_parameters_bytes_first(ps: Seq<ParameterView>)
    requires
        ps.len() > 0,
    ensures
        parameters_bytes(ps) == parameter_bytes(ps[0]) + parameters_bytes(ps.drop_first()),
    decreases ps.len(),
{
    if ps.len() == 1 {
        assert(ps.drop_last() =~= Seq::<ParameterView>::empty());
        assert(ps.drop_first() =~= Seq::<ParameterView>::empty());
        assert(parameters_bytes(ps) =~= parameter_bytes(ps[0]) + parameters_bytes(ps.drop_first()));
    } else {
        lemma_parameters_bytes_first(ps.drop_last());
        assert(ps.drop_last().drop_first() =~= ps.drop_first().drop_last());
        assert(ps.drop_first().last() == ps.last());
        assert(ps.drop_last()[0] == ps[0]);
        assert(parameters_bytes(ps) =~= parameter_bytes(ps[0]) + parameters_bytes(ps.drop_first()));
    }
}

pub proof fn lemma_parameters_len(ps: Seq<ParameterView>)
    requires
        forall|i: int| 0 <= i < ps.len() ==> param_wf(#[trigger] ps[i]),
    ensures
        parameters_bytes(ps).len() == parameters_len(ps),
    decreases ps.len(),
{
    if ps.len() > 0 {
        lemma_parameters_len(ps.drop_last());
        lemma_parameter_roundtrip(ps.last(), Seq::empty());
    }
}

/// Well-formed parameters written out one after another read back as the
/// same parameters.
pub proof fn lemma_parameters_roundtrip(ps: Seq<ParameterView>, rest: Seq<u8>)
    requires
        forall|i: int| 0 <= i < ps.len() ==> param_wf(#[trigger] ps[i]),
    ensures
        parse_parameters(parameters_bytes(ps) + rest, ps.len()) == Some(
            (parameters_bytes(ps).len() as int, ps),
        ),
    decreases ps.len(),
{
    if ps.len() == 0 {
        assert(parameters_bytes(ps).len() == 0);
    } else {
        lemma_parameters_bytes_first(ps);
        let tail = ps.drop_first();
        assert forall|i: int| 0 <= i < tail.len() implies param_wf(#[trigger] tail[i]) by {
            assert(tail[i] == ps[i + 1]);
        }
        lemma_parameters_roundtrip(tail, rest);
        let s = parameters_bytes(ps) + rest;
        let first = parameter_bytes(ps[0]);
        assert(s =~= first + (parameters_bytes(tail) + rest));
        assert(param_wf(ps[0]));
        lemma_parameter_roundtrip(ps[0], parameters_bytes(tail) + rest);
        assert(s.skip(first.len() as int) =~= parameters_bytes(tail) + rest);
        assert(seq![ps[0]] + tail =~= ps);
    }
}

/// Bytes read as parameters are the bytes those parameters are written as,
/// and every parameter read is well-formed.
pub proof fn lemma_parameters_bytes_of(s: Seq<u8>, n: nat)
    requires
        parse_parameters(s, n) is Some,
    ensures
        ({
            let (k, ps) = parse_parameters(s, n).unwrap();
            &&& ps.len() == n
            &&& 0 <= k <= s.len()
            &&& parameters_bytes(ps) == s.subrange(0, k)
            &&& forall|i: int| 0 <= i < ps.len() ==> param_wf(#[trigger] ps[i])
        }),
    decreases n,
{
    if n > 0 {
        let (k, p) = parse_parameter(s).unwrap();
        lemma_parameter_bytes_of(s);
        lemma_parameters_bytes_of(s.skip(k), (n - 1) as nat);
        let (k2, rest) = parse_parameters(s.skip(k), (n - 1) as nat).unwrap();
        let ps = seq![p] + rest;
        lemma_parameters_bytes_first(ps);
        assert(ps.drop_first() =~= rest);
        assert(ps[0] == p);
        assert(parameters_bytes(ps) =~= s.subrange(0, k + k2));
        assert forall|i: int| 0 <= i < ps.len() implies param_wf(#[trigger] ps[i]) by {
            if i > 0 {
                assert(ps[i] == rest[i - 1]);
            }
        }
    } else {
        assert(parameters_bytes(Seq::<ParameterView>::empty()) =~= s.subrange(0, 0));
    }
}

/// The body of a transaction: a count followed by that many parameters.
#[derive(Debug, Clone)]
pub struct TransactionBody {
    pub parameter_count: i16,
    pub parameters: Vec<Parameter>,
}

/// The mathematical value of a transaction body.
pub struct TransactionBodyView {
    pub parameter_count: i16,
    pub parameters: Seq<ParameterView>,
}

impl View for TransactionBody {
    type V = TransactionBodyView;

    open spec fn view(&self) -> TransactionBodyView {
        TransactionBodyView {
            parameter_count: self.parameter_count,
            parameters: params_view(self.parameters@),
        }
    }
}

/// A body whose count is the number of its parameters, each well-formed.
pub open spec fn body_wf(b: TransactionBodyView) -> bool {
    &&& b.parameter_count as int == b.parameters.len()
    &&& forall|i: int| 0 <= i < b.parameters.len() ==> param_wf(#[trigger] b.parameters[i])
}

/// The body that holds these parameters, counted.
pub open spec fn body_of(ps: Seq<ParameterView>) -> TransactionBodyView {
    TransactionBodyView { parameter_count: ps.len() as i16, parameters: ps }
}

pub open spec fn body_bytes(b: TransactionBodyView) -> Seq<u8> {
    i16_bytes(b.parameter_count) + parameters_bytes(b.parameters)
}

/// Reads a body from the start of `s`: the number of bytes it takes, and the
/// body.
#[verifier::opaque]
pub open spec fn parse_body(s: Seq<u8>) -> Option<(int, TransactionBodyView)> {
    if s.len() < 2 {
        None
    } else {
        let count = i16_at(s, 0);
        if count < 0 {
            None
        } else {
            match parse_parameters(s.skip(2), count as nat) {
                None => None,
                Some((k, ps)) => Some(
                    (2 + k, TransactionBodyView { parameter_count: count, parameters: ps }),
                ),
            }
        }
    }
}

/// The first parameter with the given field id.
pub open spec fn first_of(ps: Seq<ParameterView>, id: i16) -> Option<ParameterView>
    decreases ps.len(),
{
    if ps.len() == 0 {
        None
    } else if ps[0].field_id == id {
        Some(ps[0])
    } else {
        first_of(ps.drop_first(), id)
    }
}

/// The first parameter of the field `field`.
pub open spec fn field_of(ps: Seq<ParameterView>, field: TransactionField) -> Option<ParameterView> {
    first_of(ps, field.code())
}

/// The parameter found for a field id has that field id.
pub proof fn lemma_first_of(ps: Seq<ParameterView>, id: i16)
    ensures
        first_of(ps, id) matches Some(p) ==> p.field_id == id,
    decreases ps.len(),
{
    if ps.len() > 0 && ps[0].field_id != id {
        lemma_first_of(ps.drop_first(), id);
    }
}

/// What `require_field` gives.
pub open spec fn required_field(ps: Seq<ParameterView>, field: TransactionField) -> Result<ParameterView, ProtocolError> {
    match field_of(ps, field) {
        Some(p) => Ok(p),
        None => Err(ProtocolError::MissingField(field)),
    }
}

/// All parameters with the given field id, in order.
pub open spec fn fields_of(ps: Seq<ParameterView>, field: TransactionField) -> Seq<ParameterView> {
    ps.filter(|p: ParameterView| p.field_id == field.code())
}

impl TransactionBody {
    /// An empty body.
    pub fn empty() -> (r: Self)
        ensures
            r@ == body_of(Seq::empty()),
    {
        let r = Self { parameter_count: 0, parameters: Vec::new() };
        assert(params_view(r.parameters@) =~= Seq::<ParameterView>::empty());
        r
    }

    /// The body holding `parameters`, counted.
    pub fn from_parameters(parameters: Vec<Parameter>) -> (r: Self)
        ensures
            r@ == body_of(params_view(parameters@)),
            r.parameters@ == parameters@,
    {
        Self { parameter_count: parameters.len() as i16, parameters }
    }

    pub fn parameter_count(&self) -> (r: i16)
        ensures
            r == self@.parameter_count,
    {
        self.parameter_count
    }

    pub fn borrow_field(&self, field: TransactionField) -> (r: Option<&Parameter>)
        ensures
            match field_of(self@.parameters, field) {
                Some(p) => r matches Some(q) && q@ == p,
                None => r is None,
            },
            r matches Some(q) ==> q.field_id.0 == field.code(),
    {
        let ghost ps = self@.parameters;
        proof {
            lemma_first_of(ps, field.code());
            assert(ps.skip(0) =~= ps);
        }
        let mut i: usize = 0;
        while i < self.parameters.len()
            invariant
                ps == params_view(self.parameters@),
                0 <= i <= self.parameters@.len(),
                first_of(ps, field.code()) == first_of(ps.skip(i as int), field.code()),
            decreases self.parameters@.len() - i,
        {
            if self.parameters[i].field_matches(field) {
                assert(ps.skip(i as int)[0] == ps[i as int]);
                return Some(&self.parameters[i]);
            }
            assert(ps.skip(i as int).drop_first() =~= ps.skip(i + 1));
            i = i + 1;
        }
        assert(ps.skip(i as int).len() == 0);
        None
    }

    pub fn borrow_fields(&self, field: TransactionField) -> (r: Vec<&Parameter>)
        ensures
            r@.len() == fields_of(self@.parameters, field).len(),
            forall|i: int|
                0 <= i < r@.len() ==> (#[trigger] r@[i])@ == fields_of(self@.parameters, field)[i],
    {
        let ghost ps = self@.parameters;
        let ghost pred = |p: ParameterView| p.field_id == field.code();
        let mut out: Vec<&Parameter> = Vec::new();
        let mut i: usize = 0;
        while i < self.parameters.len()
            invariant
                ps == params_view(self.parameters@),
                pred == (|p: ParameterView| p.field_id == field.code()),
                0 <= i <= self.parameters@.len(),
                out@.len() == ps.take(i as int).filter(pred).len(),
                forall|j: int|
                    0 <= j < out@.len() ==> (#[trigger] out@[j])@ == ps.take(i as int).filter(
                        pred,
                    )[j],
            decreases self.parameters@.len() - i,
        {
            proof {
                reveal_with_fuel(Seq::<_>::filter, 1);
                assert(ps.take(i + 1).drop_last() =~= ps.take(i as int));
            }
            if self.parameters[i].field_matches(field) {
                out.push(&self.parameters[i]);
            }
            i = i + 1;
        }
        assert(ps.take(self.parameters@.len() as int) =~= ps);
        out
    }

    pub fn require_field(&self, field: TransactionField) -> (r: Result<&Parameter, ProtocolError>)
        ensures
            match required_field(self@.parameters, field) {
                Ok(p) => r matches Ok(q) && q@ == p,
                Err(e) => r matches Err(e2) && e2 == e,
            },
            r matches Ok(q) ==> q.field_id.0 == field.code(),
    {
        match self.borrow_field(field) {
            Some(p) => Ok(p),
            None => Err(ProtocolError::MissingField(field)),
        }
    }

    /// Number of bytes the body takes on the wire.
    pub fn compute_length(&self) -> (r: usize)
        requires
            2 + parameters_len(self@.parameters) <= usize::MAX,
        ensures
            r == 2 + parameters_len(self@.parameters),
    {
        let ghost ps = self@.parameters;
        let mut total: usize = 2;
        let mut i: usize = 0;
        while i < self.parameters.len()
            invariant
                ps == params_view(self.parameters@),
                2 + parameters_len(ps) <= usize::MAX,
                0 <= i <= self.parameters@.len(),
                total == 2 + parameters_len(ps.take(i as int)),
            decreases self.parameters@.len() - i,
        {
            proof {
                assert(ps.take(i + 1).drop_last() =~= ps.take(i as int));
                lemma_parameters_len_prefix(ps, i as int + 1);
            }
            total = total + self.parameters[i].compute_length();
            i = i + 1;
        }
        assert(ps.take(self.parameters@.len() as int) =~= ps);
        total
    }

    pub fn to_bytes(&self) -> (r: Vec<u8>)
        ensures
            r@ == body_bytes(self@),
    {
        let ghost ps = self@.parameters;
        let mut out: Vec<u8> = Vec::new();
        push_i16(&mut out, self.parameter_count);
        let mut i: usize = 0;
        while i < self.parameters.len()
            invariant
                ps == params_view(self.parameters@),
                0 <= i <= self.parameters@.len(),
                out@ == i16_bytes(self.parameter_count) + parameters_bytes(ps.take(i as int)),
            decreases self.parameters@.len() - i,
        {
            let bytes = self.parameters[i].to_bytes();
            push_bytes(&mut out, bytes.as_slice());
            proof {
                assert(ps.take(i + 1).drop_last() =~= ps.take(i as int));
            }
            i = i + 1;
            assert(out@ =~= i16_bytes(self.parameter_count) + parameters_bytes(ps.take(i as int)));
        }
        assert(ps.take(self.parameters@.len() as int) =~= ps);
        out
    }

    /// Reads a body at `pos`: the number of bytes it takes, and the body.
    pub fn parse_at(s: &[u8], pos: usize) -> (r: Option<(usize, TransactionBody)>)
        requires
            pos <= s@.len(),
        ensures
            match parse_body(s@.subrange(pos as int, s@.len() as int)) {
                Some((k, b)) => r matches Some((k2, b2)) && k2 == k && b2@ == b,
                None => r is None,
            },
            r matches Some((k, _)) ==> pos + k <= s@.len(),
    {
        let ghost t = s@.subrange(pos as int, s@.len() as int);
        proof {
            reveal(parse_body);
        }
        if s.len() - pos < 2 {
            return None;
        }
        let count = read_i16(s, pos);
        assert(count == i16_at(t, 0));
        if count < 0 {
            return None;
        }
        let ghost n = count as nat;
        let mut parameters: Vec<Parameter> = Vec::new();
        let len = s.len();
        let mut at = pos + 2;
        let mut i: i16 = 0;
        assert(s@.subrange(at as int, s@.len() as int) =~= t.skip(2));
        while i < count
            invariant
                pos + 2 <= at <= s@.len(),
                len == s@.len(),
                0 <= i <= count,
                t.len() >= 2,
                i16_at(t, 0) == count,
                t == s@.subrange(pos as int, s@.len() as int),
                n == count as nat,
                parse_parameters(t.skip(2), n) == (match parse_parameters(
                    s@.subrange(at as int, s@.len() as int),
                    (n - i) as nat,
                ) {
                    Some((k, rest)) => Some(
                        ((at - pos - 2) + k, params_view(parameters@) + rest),
                    ),
                    None => None,
                }),
            decreases count - i,
        {
            let ghost u = s@.subrange(at as int, s@.len() as int);
            match Parameter::parse_at(s, at) {
                None => {
                    assert(parse_parameters(u, (n - i) as nat) is None);
                    reveal(parse_body);
                    return None;
                },
                Some((k, p)) => {
                    proof {
                        assert(s@.subrange((at + k) as int, s@.len() as int) =~= u.skip(k as int));
                        assert(params_view(parameters@.push(p)) =~= params_view(parameters@).push(p@));
                        assert(params_view(parameters@).push(p@) =~= params_view(parameters@) + seq![p@]);
                        let rest_parse = parse_parameters(u.skip(k as int), (n - i - 1) as nat);
                        if let Some((k2, rest)) = rest_parse {
                            assert(params_view(parameters@) + (seq![p@] + rest) =~= (params_view(parameters@) + seq![p@]) + rest);
                        }
                    }
                    parameters.push(p);
                    at = at + k;
                    i = i + 1;
                },
            }
        }
        proof {
            assert(params_view(parameters@) + Seq::<ParameterView>::empty() =~= params_view(parameters@));
        }
        Some((at - pos, TransactionBody { parameter_count: count, parameters }))
    }

    /// Reads a body from the start of `s`, giving back what follows it.
    pub fn from_bytes(s: &[u8]) -> (r: Result<(&[u8], Self), ProtocolError>)
        ensures
            match parse_body(s@) {
                Some((k, b)) => r matches Ok((rest, b2)) && b2@ == b && rest@ == s@.subrange(
                    k,
                    s@.len() as int,
                ),
                None => r matches Err(ProtocolError::ParseBody),
            },
    {
        assert(s@.subrange(0, s@.len() as int) =~= s@);
        match Self::parse_at(s, 0) {
            Some((k, b)) => Ok((&s[k..s.len()], b)),
            None => Err(ProtocolError::ParseBody),
        }
    }
}

proof fn lemma_parameters_len_prefix(ps: Seq<ParameterView>, i: int)
    requires
        0 < i <= ps.len(),
    ensures
        parameters_len(ps.take(i)) == parameters_len(ps.take(i - 1)) + 4 + ps[i - 1].field_data.len(),
        parameters_len(ps.take(i)) <= parameters_len(ps),
    decreases ps.len() - i,
{
    assert(ps.take(i).drop_last() =~= ps.take(i - 1));
    if i < ps.len() {
        lemma_parameters_len_prefix(ps, i + 1);
    } else {
        assert(ps.take(i) =~= ps);
    }
}

/// A well-formed body written out and read back is the same body.
pub proof fn lemma_body_roundtrip(b: TransactionBodyView, rest: Seq<u8>)
    requires
        body_wf(b),
    ensures
        parse_body(body_bytes(b) + rest) == Some((body_bytes(b).len() as int, b)),
{
    reveal(parse_body);
    let s = body_bytes(b) + rest;
    lemma_i16_roundtrip(b.parameter_count, parameters_bytes(b.parameters) + rest);
    assert(s =~= i16_bytes(b.parameter_count) + (parameters_bytes(b.parameters) + rest));
    lemma_parameters_roundtrip(b.parameters, rest);
    assert(s.skip(2) =~= parameters_bytes(b.parameters) + rest);
    assert(b.parameter_count as nat == b.parameters.len());
}

/// Bytes read as a body are the bytes that body is written as, and the body
/// read is well-formed.
pub proof fn lemma_body_bytes_of(s: Seq<u8>)
    requires
        parse_body(s) is Some,
    ensures
        body_wf(parse_body(s).unwrap().1),
        body_bytes(parse_body(s).unwrap().1) == s.subrange(0, parse_body(s).unwrap().0),
        2 <= parse_body(s).unwrap().0 <= s.len(),
{
    reveal(parse_body);
    let count = i16_at(s, 0);
    lemma_i16_bytes_of(s, 0);
    lemma_parameters_bytes_of(s.skip(2), count as nat);
    let (k, b) = parse_body(s).unwrap();
    assert(body_bytes(b) =~= s.subrange(0, k));
}


/// A transaction: a header and a body.
#[derive(Debug, Clone)]
pub struct TransactionFrame {
    pub header: TransactionHeader,
    pub body: TransactionBody,
}

/// The mathematical value of a transaction.
pub struct TransactionFrameView {
    pub header: TransactionHeader,
    pub body: TransactionBodyView,
}

impl View for TransactionFrame {
    type V = TransactionFrameView;

    open spec fn view(&self) -> TransactionFrameView {
        TransactionFrameView { header: self.header, body: self.body@ }
    }
}

/// The frame with its header's sizes set to the length of its body, as it is
/// before it is written out.
pub open spec fn sized(f: TransactionFrameView) -> TransactionFrameView {
    let n = (2 + parameters_len(f.body.parameters)) as usize;
    TransactionFrameView {
        header: TransactionHeader {
            data_size: DataSize(n as i32),
            total_size: TotalSize(n as i32),
            ..f.header
        },
        body: f.body,
    }
}

pub open spec fn frame_bytes(f: TransactionFrameView) -> Seq<u8> {
    header_bytes(f.header) + body_bytes(f.body)
}

/// Reads a frame from the start of `s`: the number of bytes it takes, and
/// the frame.
pub open spec fn parse_frame(s: Seq<u8>) -> Option<(int, TransactionFrameView)> {
    match parse_header(s) {
        None => None,
        Some(h) => match parse_body(s.skip(20)) {
            None => None,
            Some((k, b)) => Some((20 + k, TransactionFrameView { header: h, body: b })),
        },
    }
}

/// What `TransactionFrame::from_bytes` gives for `s`, as the length taken and
/// the frame read.
pub open spec fn frame_result(s: Seq<u8>) -> Result<(int, TransactionFrameView), ProtocolError> {
    match parse_header(s) {
        None => Err(ProtocolError::ParseHeader),
        Some(h) => match parse_body(s.skip(20)) {
            None => Err(ProtocolError::ParseBody),
            Some((k, b)) => Ok((20 + k, TransactionFrameView { header: h, body: b })),
        },
    }
}

/// The frame of type `t` with an empty body.
pub open spec fn empty_frame(t: TransactionType) -> TransactionFrameView {
    TransactionFrameView { header: header_of_type(t), body: body_of(Seq::empty()) }
}

/// The frame of type `t` with these parameters.
pub open spec fn frame_of(t: TransactionType, ps: Seq<ParameterView>) -> TransactionFrameView {
    TransactionFrameView { header: header_of_type(t), body: body_of(ps) }
}

/// A frame made into the reply to a request with the given header.
pub open spec fn reply_frame(f: TransactionFrameView, request: TransactionHeader) -> TransactionFrameView {
    TransactionFrameView {
        header: TransactionHeader {
            type_: Type(0),
            id: request.id,
            is_reply: IsReply(1),
            ..f.header
        },
        body: f.body,
    }
}

impl TransactionFrame {
    pub fn empty(header: TransactionHeader) -> (r: Self)
        ensures
            r@ == (TransactionFrameView { header, body: body_of(Seq::empty()) }),
    {
        Self { header, body: TransactionBody::empty() }
    }

    /// The frame of type `t` with an empty body.
    pub fn empty_of(t: TransactionType) -> (r: Self)
        ensures
            r@ == empty_frame(t),
    {
        Self::empty(TransactionHeader::from_type(t))
    }

    pub fn new(header: TransactionHeader, body: TransactionBody) -> (r: Self)
        ensures
            r@ == (TransactionFrameView { header, body: body@ }),
            r.body.parameters@ == body.parameters@,
    {
        Self { header, body }
    }

    /// The frame of type `t` holding `parameters`.
    pub fn with_parameters(t: TransactionType, parameters: Vec<Parameter>) -> (r: Self)
        ensures
            r@ == frame_of(t, params_view(parameters@)),
            r.body.parameters@ == parameters@,
    {
        Self::new(TransactionHeader::from_type(t), TransactionBody::from_parameters(parameters))
    }

    pub fn transaction_type(&self) -> (r: Result<TransactionType, ProtocolError>)
        ensures
            r == spec_transaction_type(self.header),
    {
        self.header.transaction_type()
    }

    pub fn require_transaction_type(self, expected: TransactionType) -> (r: Result<Self, ProtocolError>)
        ensures
            match spec_require_type(self.header, expected) {
                Ok(()) => r matches Ok(f) && f@ == self@ && f.body.parameters@
                    == self.body.parameters@,
                Err(e) => r matches Err(e2) && e2 == e,
            },
    {
        self.header.require_transaction_type(expected)?;
        Ok(self)
    }

    /// A copy of the frame.
    pub fn duplicate(&self) -> (r: Self)
        ensures
            r@ == self@,
    {
        let mut parameters: Vec<Parameter> = Vec::new();
        let mut i: usize = 0;
        while i < self.body.parameters.len()
            invariant
                0 <= i <= self.body.parameters@.len(),
                params_view(parameters@) == params_view(self.body.parameters@).take(i as int),
            decreases self.body.parameters@.len() - i,
        {
            let p = self.body.parameters[i].duplicate();
            let ghost before = parameters@;
            parameters.push(p);
            proof {
                assert(params_view(parameters@) =~= params_view(before).push(p@));
                assert(params_view(self.body.parameters@).take(i + 1) =~= params_view(self.body.parameters@).take(i as int).push(p@));
            }
            i = i + 1;
        }
        assert(params_view(self.body.parameters@).take(i as int) =~= params_view(self.body.parameters@));
        let body = TransactionBody { parameter_count: self.body.parameter_count, parameters };
        Self { header: self.header, body }
    }

    pub fn reply_to(self, request: &TransactionHeader) -> (r: Self)
        ensures
            r@ == reply_frame(self@, *request),
    {
        let Self { header, body } = self;
        Self { header: header.reply_to(request), body }
    }

    pub fn is_reply(&self) -> (r: bool)
        ensures
            r == (self.header.is_reply.0 == 1),
    {
        self.header.is_reply.is_reply()
    }

    /// The bytes of the frame, its header's sizes set to the body's length.
    pub fn into_bytes(self) -> (r: Vec<u8>)
        requires
            2 + parameters_len(self@.body.parameters) <= usize::MAX,
        ensures
            r@ == frame_bytes(sized(self@)),
    {
        let mut header = self.header;
        let size = self.body.compute_length();
        header.update_sizes(size);
        let mut out = header.to_bytes();
        let body = self.body.to_bytes();
        push_bytes(&mut out, body.as_slice());
        out
    }

    /// Reads a frame from the start of `s`, giving back what follows it.
    pub fn from_bytes(s: &[u8]) -> (r: Result<(&[u8], Self), ProtocolError>)
        ensures
            match frame_result(s@) {
                Ok((k, f)) => r matches Ok((rest, f2)) && f2@ == f && rest@ == s@.subrange(
                    k,
                    s@.len() as int,
                ),
                Err(e) => r matches Err(e2) && e2 == e,
            },
    {
        let (rest, header) = TransactionHeader::from_bytes(s)?;
        assert(rest@ =~= s@.skip(20));
        let n = s.len();
        match TransactionBody::parse_at(s, HEADER_SIZE) {
            Some((k, body)) => {
                assert(HEADER_SIZE + k <= n);
                Ok((&s[HEADER_SIZE + k..n], Self { header, body }))
            },
            None => Err(ProtocolError::ParseBody),
        }
    }
}

/// A frame with a well-formed body, written out and read back, is the same
/// frame with its sizes set to the length of its body.
pub proof fn lemma_frame_roundtrip(f: TransactionFrameView, rest: Seq<u8>)
    requires
        body_wf(f.body),
    ensures
        parse_frame(frame_bytes(sized(f)) + rest) == Some(
            (frame_bytes(sized(f)).len() as int, sized(f)),
        ),
        frame_result(frame_bytes(sized(f)) + rest) == Ok::<(int, TransactionFrameView), ProtocolError>(
            (frame_bytes(sized(f)).len() as int, sized(f)),
        ),
{
    let g = sized(f);
    let s = frame_bytes(g) + rest;
    lemma_header_roundtrip(g.header, body_bytes(g.body) + rest);
    assert(s =~= header_bytes(g.header) + (body_bytes(g.body) + rest));
    lemma_body_roundtrip(g.body, rest);
    assert(s.skip(20) =~= body_bytes(g.body) + rest);
}

/// Bytes read as a frame are the bytes that frame is written as, and the body
/// read is well-formed.
pub proof fn lemma_frame_bytes_of(s: Seq<u8>)
    requires
        parse_frame(s) is Some,
    ensures
        body_wf(parse_frame(s).unwrap().1.body),
        frame_bytes(parse_frame(s).unwrap().1) == s.subrange(0, parse_frame(s).unwrap().0),
{
    let h = parse_header(s).unwrap();
    let t = s.skip(20);
    let (k, b) = parse_body(t).unwrap();
    assert(header_bytes(h) == s.subrange(0, 20)) by {
        lemma_header_bytes_of(s);
    }
    assert(body_bytes(b) == t.subrange(0, k) && body_wf(b) && 0 <= k <= t.len()) by {
        lemma_body_bytes_of(t);
    }
    let f = TransactionFrameView { header: h, body: b };
    assert(parse_frame(s) == Some((20 + k, f)));
    assert(frame_bytes(f) =~= s.subrange(0, 20 + k)) by {
        assert(t.subrange(0, k) =~= s.subrange(20, 20 + k));
    }
}

/// A frame read from bytes whose header announces the length of its body is
/// written out again as exactly the bytes it was read from.
pub proof fn lemma_frame_reserialize(s: Seq<u8>)
    requires
        parse_frame(s) is Some,
        ({
            let f = parse_frame(s).unwrap().1;
            let n = (2 + parameters_len(f.body.parameters)) as usize;
            f.header.data_size.0 == n as i32 && f.header.total_size.0 == n as i32
        }),
    ensures
        frame_bytes(sized(parse_frame(s).unwrap().1)) == s.subrange(0, parse_frame(s).unwrap().0),
{
    lemma_frame_bytes_of(s);
    let f = parse_frame(s).unwrap().1;
    assert(sized(f).header == f.header);
}

} // verus!
