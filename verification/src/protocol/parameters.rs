//! The typed parameters that transactions carry.

use vstd::prelude::*;

use super::codec::{
    copy_range, copy_vec, i16_at, i16_bytes, i32_at, i32_bytes, i64_at, i64_bytes, i8_at, i8_bytes,
    lemma_i16_roundtrip, lemma_i8_roundtrip, push_bytes, push_i16, push_i32, push_i64, push_i8,
    read_i16, read_i32, read_i64, read_i8,
};
use super::date::{date_bytes, parse_date, DateParameter};
use super::text::{ascii_text, decode_mac_roman, is_ascii_bytes, mac_roman_decode};
use super::transaction::{param, FieldId, Parameter, ParameterView};
use super::transaction_field::TransactionField;
use super::ProtocolError;
use vstd::utf8::encode_utf8;

verus! {

/// What `take_if_matches` gives: the data of a parameter of the expected
/// field.
pub open spec fn spec_take_if_matches(p: ParameterView, field: TransactionField) -> Result<Seq<u8>, ProtocolError> {
    if p.field_id == field.code() {
        Ok(p.field_data)
    } else {
        Err(
            ProtocolError::UnexpectedTransaction {
                expected: field.code(),
                encountered: p.field_id,
            },
        )
    }
}

/// The data of `parameter` when it is of the field `field`.
pub fn take_if_matches(parameter: Parameter, field: TransactionField) -> (r: Result<Vec<u8>, ProtocolError>)
    ensures
        match spec_take_if_matches(parameter@, field) {
            Ok(d) => r matches Ok(v) && v@ == d,
            Err(e) => r matches Err(e2) && e2 == e,
        },
{
    if parameter.field_matches(field) {
        Ok(parameter.take())
    } else {
        Err(
            ProtocolError::UnexpectedTransaction {
                expected: field.to_i16(),
                encountered: parameter.field_id.0,
            },
        )
    }
}

/// The value of exactly two bytes of data.
pub open spec fn i16_data(d: Seq<u8>) -> Option<i16> {
    if d.len() == 2 {
        Some(i16_at(d, 0))
    } else {
        None
    }
}

/// The value of exactly four bytes of data.
pub open spec fn i32_data(d: Seq<u8>) -> Option<i32> {
    if d.len() == 4 {
        Some(i32_at(d, 0))
    } else {
        None
    }
}

/// The value of exactly eight bytes of data.
pub open spec fn i64_data(d: Seq<u8>) -> Option<i64> {
    if d.len() == 8 {
        Some(i64_at(d, 0))
    } else {
        None
    }
}

fn read_i16_data(d: &Vec<u8>) -> (r: Option<i16>)
    ensures
        r == i16_data(d@),
{
    if d.len() == 2 {
        Some(read_i16(d.as_slice(), 0))
    } else {
        None
    }
}

fn read_i32_data(d: &Vec<u8>) -> (r: Option<i32>)
    ensures
        r == i32_data(d@),
{
    if d.len() == 4 {
        Some(read_i32(d.as_slice(), 0))
    } else {
        None
    }
}

fn read_i64_data(d: &Vec<u8>) -> (r: Option<i64>)
    ensures
        r == i64_data(d@),
{
    if d.len() == 8 {
        Some(read_i64(d.as_slice(), 0))
    } else {
        None
    }
}

fn i16_vec(v: i16) -> (r: Vec<u8>)
    ensures
        r@ == i16_bytes(v),
{
    let mut out: Vec<u8> = Vec::new();
    push_i16(&mut out, v);
    assert(out@ =~= i16_bytes(v));
    out
}

fn i32_vec(v: i32) -> (r: Vec<u8>)
    ensures
        r@ == i32_bytes(v),
{
    let mut out: Vec<u8> = Vec::new();
    push_i32(&mut out, v);
    assert(out@ =~= i32_bytes(v));
    out
}

fn i64_vec(v: i64) -> (r: Vec<u8>)
    ensures
        r@ == i64_bytes(v),
{
    let mut out: Vec<u8> = Vec::new();
    push_i64(&mut out, v);
    assert(out@ =~= i64_bytes(v));
    out
}

/// Credentials travel with every byte inverted.
pub open spec fn inverted(s: Seq<u8>) -> Seq<u8> {
    s.map_values(|b: u8| (255 - b) as u8)
}

/// Inverting twice gives back the original bytes.
pub proof fn lemma_invert_involution(s: Seq<u8>)
    ensures
        inverted(inverted(s)) == s,
{
    assert(inverted(inverted(s)) =~= s);
}

pub fn invert_credential(data: &[u8]) -> (r: Vec<u8>)
    ensures
        r@ == inverted(data@),
{
    let mut out: Vec<u8> = Vec::new();
    let mut i: usize = 0;
    while i < data.len()
        invariant
            0 <= i <= data@.len(),
            out@ == inverted(data@.subrange(0, i as int)),
        decreases data@.len() - i,
    {
        let b = data[i];
        let nb = !b;
        assert(nb == 255 - b) by (bit_vector)
            requires
                nb == !b,
        ;
        out.push(nb);
        i = i + 1;
        assert(out@ =~= inverted(data@.subrange(0, i as int)));
    }
    assert(data@.subrange(0, data@.len() as int) =~= data@);
    out
}

/// A credential that travels obfuscated.
pub trait Credential {
    fn deobfuscate(&self) -> Vec<u8>;
}

/// A user's display name.
#[derive(Clone, PartialEq, Eq, PartialOrd, Ord, Debug)]
pub struct Nickname(pub Vec<u8>);

impl View for Nickname {
    type V = Seq<u8>;

    open spec fn view(&self) -> Seq<u8> {
        self.0@
    }
}

impl Nickname {
    pub fn new(data: Vec<u8>) -> (r: Self)
        ensures
            r@ == data@,
    {
        Self(data)
    }

    pub fn take(self) -> (r: Vec<u8>)
        ensures
            r@ == self@,
    {
        self.0
    }

    pub fn len(&self) -> (r: usize)
        ensures
            r == self@.len(),
    {
        self.0.len()
    }

    /// A copy of the value.
    pub fn duplicate(&self) -> (r: Self)
        ensures
            r@ == self@,
    {
        Self(copy_vec(&self.0))
    }

    pub fn try_from(parameter: &Parameter) -> (r: Result<Self, ProtocolError>)
        ensures
            match spec_take_if_matches(parameter@, TransactionField::UserName) {
                Ok(d) => r matches Ok(v) && v@ == d,
                Err(e) => r matches Err(e2) && e2 == e,
            },
    {
        let data = take_if_matches(parameter.duplicate(), TransactionField::UserName)?;
        Ok(Self(data))
    }

    pub fn into_parameter(self) -> (r: Parameter)
        ensures
            r@ == param(TransactionField::UserName.code(), self@),
    {
        Parameter::of_field(TransactionField::UserName, self.0)
    }

    /// The name as text.
    pub fn text(&self) -> (r: String)
        ensures
            r@ == mac_roman_decode(self@),
            is_ascii_bytes(self@) ==> r@ == ascii_text(self@),
    {
        decode_mac_roman(self.0.as_slice())
    }

    /// The UTF-8 bytes of a string as a name.
    pub fn from_string(s: String) -> (r: Self)
        ensures
            r@ == encode_utf8(s@),
    {
        let b = s.as_str().as_bytes();
        Self(copy_range(b, 0, b.len()))
    }
}

impl Default for Nickname {
    fn default() -> (r: Self)
        ensures
            r@ == seq![117u8, 110u8, 110u8, 97u8, 109u8, 101u8, 100u8],
    {
        Self(vec![117u8, 110u8, 110u8, 97u8, 109u8, 101u8, 100u8])
    }
}

/// A login name, as it travels: obfuscated.
#[derive(Clone, PartialEq, Eq, PartialOrd, Ord, Debug)]
pub struct UserLogin(pub Vec<u8>);

impl View for UserLogin {
    type V = Seq<u8>;

    open spec fn view(&self) -> Seq<u8> {
        self.0@
    }
}

impl UserLogin {
    pub fn new(data: Vec<u8>) -> (r: Self)
        ensures
            r@ == data@,
    {
        Self(data)
    }

    pub fn take(self) -> (r: Vec<u8>)
        ensures
            r@ == self@,
    {
        self.0
    }

    pub fn len(&self) -> (r: usize)
        ensures
            r == self@.len(),
    {
        self.0.len()
    }

    /// A copy of the value.
    pub fn duplicate(&self) -> (r: Self)
        ensures
            r@ == self@,
    {
        Self(copy_vec(&self.0))
    }

    pub fn try_from(parameter: &Parameter) -> (r: Result<Self, ProtocolError>)
        ensures
            match spec_take_if_matches(parameter@, TransactionField::UserLogin) {
                Ok(d) => r matches Ok(v) && v@ == d,
                Err(e) => r matches Err(e2) && e2 == e,
            },
    {
        let data = take_if_matches(parameter.duplicate(), TransactionField::UserLogin)?;
        Ok(Self(data))
    }

    pub fn into_parameter(self) -> (r: Parameter)
        ensures
            r@ == param(TransactionField::UserLogin.code(), self@),
    {
        Parameter::of_field(TransactionField::UserLogin, self.0)
    }

    pub fn from_cleartext(clear: &[u8]) -> (r: Self)
        ensures
            r@ == inverted(clear@),
    {
        Self(invert_credential(clear))
    }

    pub fn invert(self) -> (r: Self)
        ensures
            r@ == inverted(self@),
    {
        Self(invert_credential(self.0.as_slice()))
    }

    /// The login `guest`, as it travels.
    pub fn guest() -> (r: Self)
        ensures
            r@ == inverted(seq![103u8, 117u8, 101u8, 115u8, 116u8]),
    {
        let clear: [u8; 5] = [103u8, 117u8, 101u8, 115u8, 116u8];
        assert(clear@ =~= seq![103u8, 117u8, 101u8, 115u8, 116u8]);
        Self::from_cleartext(&clear)
    }

    pub fn raw_data(&self) -> (r: &[u8])
        ensures
            r@ == self@,
    {
        self.0.as_slice()
    }

    /// The login as text.
    pub fn text(&self) -> (r: String)
        ensures
            r@ == mac_roman_decode(self@),
            is_ascii_bytes(self@) ==> r@ == ascii_text(self@),
    {
        decode_mac_roman(self.0.as_slice())
    }

    /// The UTF-8 bytes of a string as a login.
    pub fn from_string(s: String) -> (r: Self)
        ensures
            r@ == encode_utf8(s@),
    {
        let b = s.as_str().as_bytes();
        Self(copy_range(b, 0, b.len()))
    }
}

/// A password, as it travels: obfuscated.
#[derive(Clone, PartialEq, Eq, PartialOrd, Ord, Debug)]
pub struct Password(pub Vec<u8>);

impl View for Password {
    type V = Seq<u8>;

    open spec fn view(&self) -> Seq<u8> {
        self.0@
    }
}

impl Password {
    pub fn new(data: Vec<u8>) -> (r: Self)
        ensures
            r@ == data@,
    {
        Self(data)
    }

    pub fn take(self) -> (r: Vec<u8>)
        ensures
            r@ == self@,
    {
        self.0
    }

    pub fn len(&self) -> (r: usize)
        ensures
            r == self@.len(),
    {
        self.0.len()
    }

    /// A copy of the value.
    pub fn duplicate(&self) -> (r: Self)
        ensures
            r@ == self@,
    {
        Self(copy_vec(&self.0))
    }

    pub fn try_from(parameter: &Parameter) -> (r: Result<Self, ProtocolError>)
        ensures
            match spec_take_if_matches(parameter@, TransactionField::UserPassword) {
                Ok(d) => r matches Ok(v) && v@ == d,
                Err(e) => r matches Err(e2) && e2 == e,
            },
    {
        let data = take_if_matches(parameter.duplicate(), TransactionField::UserPassword)?;
        Ok(Self(data))
    }

    pub fn into_parameter(self) -> (r: Parameter)
        ensures
            r@ == param(TransactionField::UserPassword.code(), self@),
    {
        Parameter::of_field(TransactionField::UserPassword, self.0)
    }

    pub fn from_cleartext(clear: &[u8]) -> (r: Self)
        ensures
            r@ == inverted(clear@),
    {
        Self(invert_credential(clear))
    }

    pub fn raw_data(&self) -> (r: &[u8])
        ensures
            r@ == self@,
    {
        self.0.as_slice()
    }

    /// The password in clear.
    pub fn deobfuscated(&self) -> (r: Vec<u8>)
        ensures
            r@ == inverted(self@),
    {
        invert_credential(self.0.as_slice())
    }
}

impl Default for Password {
    fn default() -> (r: Self)
        ensures
            r@ == Seq::<u8>::empty(),
    {
        Self(Vec::new())
    }
}

impl Credential for Password {
    fn deobfuscate(&self) -> Vec<u8> {
        self.deobfuscated()
    }
}

/// The subject of a chat room.
#[derive(Clone, PartialEq, Eq, PartialOrd, Ord, Debug)]
pub struct ChatSubject(pub Vec<u8>);

impl View for ChatSubject {
    type V = Seq<u8>;

    open spec fn view(&self) -> Seq<u8> {
        self.0@
    }
}

impl ChatSubject {
    pub fn new(data: Vec<u8>) -> (r: Self)
        ensures
            r@ == data@,
    {
        Self(data)
    }

    pub fn take(self) -> (r: Vec<u8>)
        ensures
            r@ == self@,
    {
        self.0
    }

    pub fn len(&self) -> (r: usize)
        ensures
            r == self@.len(),
    {
        self.0.len()
    }

    /// A copy of the value.
    pub fn duplicate(&self) -> (r: Self)
        ensures
            r@ == self@,
    {
        Self(copy_vec(&self.0))
    }

    pub fn try_from(parameter: &Parameter) -> (r: Result<Self, ProtocolError>)
        ensures
            match spec_take_if_matches(parameter@, TransactionField::ChatSubject) {
                Ok(d) => r matches Ok(v) && v@ == d,
                Err(e) => r matches Err(e2) && e2 == e,
            },
    {
        let data = take_if_matches(parameter.duplicate(), TransactionField::ChatSubject)?;
        Ok(Self(data))
    }

    pub fn into_parameter(self) -> (r: Parameter)
        ensures
            r@ == param(TransactionField::ChatSubject.code(), self@),
    {
        Parameter::of_field(TransactionField::ChatSubject, self.0)
    }
}

/// A message: news, chat text and the like.
#[derive(Clone, PartialEq, Eq, PartialOrd, Ord, Debug)]
pub struct Message(pub Vec<u8>);

impl View for Message {
    type V = Seq<u8>;

    open spec fn view(&self) -> Seq<u8> {
        self.0@
    }
}

impl Message {
    pub fn new(data: Vec<u8>) -> (r: Self)
        ensures
            r@ == data@,
    {
        Self(data)
    }

    pub fn take(self) -> (r: Vec<u8>)
        ensures
            r@ == self@,
    {
        self.0
    }

    pub fn len(&self) -> (r: usize)
        ensures
            r == self@.len(),
    {
        self.0.len()
    }

    /// A copy of the value.
    pub fn duplicate(&self) -> (r: Self)
        ensures
            r@ == self@,
    {
        Self(copy_vec(&self.0))
    }

    /// The data of any parameter, whatever its field.
    pub fn from_parameter(parameter: &Parameter) -> (r: Self)
        ensures
            r@ == parameter.field_data@,
    {
        Self(copy_vec(&parameter.field_data))
    }

    pub fn into_parameter(self) -> (r: Parameter)
        ensures
            r@ == param(TransactionField::Data.code(), self@),
    {
        Parameter::new_data(self.0)
    }
}

/// The name of a file.
#[derive(Clone, PartialEq, Eq, PartialOrd, Ord, Debug)]
pub struct FileName(pub Vec<u8>);

impl View for FileName {
    type V = Seq<u8>;

    open spec fn view(&self) -> Seq<u8> {
        self.0@
    }
}

impl FileName {
    pub fn new(data: Vec<u8>) -> (r: Self)
        ensures
            r@ == data@,
    {
        Self(data)
    }

    pub fn take(self) -> (r: Vec<u8>)
        ensures
            r@ == self@,
    {
        self.0
    }

    pub fn len(&self) -> (r: usize)
        ensures
            r == self@.len(),
    {
        self.0.len()
    }

    /// A copy of the value.
    pub fn duplicate(&self) -> (r: Self)
        ensures
            r@ == self@,
    {
        Self(copy_vec(&self.0))
    }

    /// The data of any parameter, whatever its field.
    pub fn from_parameter(parameter: &Parameter) -> (r: Self)
        ensures
            r@ == parameter.field_data@,
    {
        Self(copy_vec(&parameter.field_data))
    }

    pub fn into_parameter(self) -> (r: Parameter)
        ensures
            r@ == param(TransactionField::FileName.code(), self@),
    {
        Parameter::of_field(TransactionField::FileName, self.0)
    }

    /// The name as text.
    pub fn text(&self) -> (r: String)
        ensures
            r@ == mac_roman_decode(self@),
            is_ascii_bytes(self@) ==> r@ == ascii_text(self@),
    {
        decode_mac_roman(self.0.as_slice())
    }
}

/// The comment of a file.
#[derive(Clone, PartialEq, Eq, PartialOrd, Ord, Debug)]
pub struct FileComment(pub Vec<u8>);

impl View for FileComment {
    type V = Seq<u8>;

    open spec fn view(&self) -> Seq<u8> {
        self.0@
    }
}

impl FileComment {
    pub fn new(data: Vec<u8>) -> (r: Self)
        ensures
            r@ == data@,
    {
        Self(data)
    }

    pub fn take(self) -> (r: Vec<u8>)
        ensures
            r@ == self@,
    {
        self.0
    }

    pub fn len(&self) -> (r: usize)
        ensures
            r == self@.len(),
    {
        self.0.len()
    }

    /// A copy of the value.
    pub fn duplicate(&self) -> (r: Self)
        ensures
            r@ == self@,
    {
        Self(copy_vec(&self.0))
    }

    pub fn try_from(parameter: &Parameter) -> (r: Result<Self, ProtocolError>)
        ensures
            match spec_take_if_matches(parameter@, TransactionField::FileComment) {
                Ok(d) => r matches Ok(v) && v@ == d,
                Err(e) => r matches Err(e2) && e2 == e,
            },
    {
        let data = take_if_matches(parameter.duplicate(), TransactionField::FileComment)?;
        Ok(Self(data))
    }

    pub fn into_parameter(self) -> (r: Parameter)
        ensures
            r@ == param(TransactionField::FileComment.code(), self@),
    {
        Parameter::of_field(TransactionField::FileComment, self.0)
    }
}

/// A file type, as text.
#[derive(Clone, PartialEq, Eq, PartialOrd, Ord, Debug)]
pub struct FileTypeString(pub Vec<u8>);

impl View for FileTypeString {
    type V = Seq<u8>;

    open spec fn view(&self) -> Seq<u8> {
        self.0@
    }
}

impl FileTypeString {
    pub fn new(data: Vec<u8>) -> (r: Self)
        ensures
            r@ == data@,
    {
        Self(data)
    }

    pub fn take(self) -> (r: Vec<u8>)
        ensures
            r@ == self@,
    {
        self.0
    }

    pub fn len(&self) -> (r: usize)
        ensures
            r == self@.len(),
    {
        self.0.len()
    }

    /// A copy of the value.
    pub fn duplicate(&self) -> (r: Self)
        ensures
            r@ == self@,
    {
        Self(copy_vec(&self.0))
    }

    pub fn try_from(parameter: &Parameter) -> (r: Result<Self, ProtocolError>)
        ensures
            match spec_take_if_matches(parameter@, TransactionField::FileTypeString) {
                Ok(d) => r matches Ok(v) && v@ == d,
                Err(e) => r matches Err(e2) && e2 == e,
            },
    {
        let data = take_if_matches(parameter.duplicate(), TransactionField::FileTypeString)?;
        Ok(Self(data))
    }

    pub fn into_parameter(self) -> (r: Parameter)
        ensures
            r@ == param(TransactionField::FileTypeString.code(), self@),
    {
        Parameter::of_field(TransactionField::FileTypeString, self.0)
    }

    pub fn from_file_type(type_code: &FileType) -> (r: Self)
        ensures
            r@ == type_code.0@,
    {
        let a = type_code.0;
        Self(vec![a[0], a[1], a[2], a[3]])
    }
}

/// A file creator, as text.
#[derive(Clone, PartialEq, Eq, PartialOrd, Ord, Debug)]
pub struct FileCreatorString(pub Vec<u8>);

impl View for FileCreatorString {
    type V = Seq<u8>;

    open spec fn view(&self) -> Seq<u8> {
        self.0@
    }
}

impl FileCreatorString {
    pub fn new(data: Vec<u8>) -> (r: Self)
        ensures
            r@ == data@,
    {
        Self(data)
    }

    pub fn take(self) -> (r: Vec<u8>)
        ensures
            r@ == self@,
    {
        self.0
    }

    pub fn len(&self) -> (r: usize)
        ensures
            r == self@.len(),
    {
        self.0.len()
    }

    /// A copy of the value.
    pub fn duplicate(&self) -> (r: Self)
        ensures
            r@ == self@,
    {
        Self(copy_vec(&self.0))
    }

    pub fn try_from(parameter: &Parameter) -> (r: Result<Self, ProtocolError>)
        ensures
            match spec_take_if_matches(parameter@, TransactionField::FileCreatorString) {
                Ok(d) => r matches Ok(v) && v@ == d,
                Err(e) => r matches Err(e2) && e2 == e,
            },
    {
        let data = take_if_matches(parameter.duplicate(), TransactionField::FileCreatorString)?;
        Ok(Self(data))
    }

    pub fn into_parameter(self) -> (r: Parameter)
        ensures
            r@ == param(TransactionField::FileCreatorString.code(), self@),
    {
        Parameter::of_field(TransactionField::FileCreatorString, self.0)
    }
}

/// The privileges of an account, one bit each.
#[derive(Debug, Clone, Copy, PartialEq, Eq, Structural, PartialOrd, Ord)]
pub struct UserAccess(pub i64);

impl UserAccess {
    pub fn try_from(parameter: &Parameter) -> (r: Result<Self, ProtocolError>)
        ensures
            r == (match i64_data(parameter.field_data@) {
                Some(v) => Ok::<Self, ProtocolError>(UserAccess(v)),
                None => Err(ProtocolError::MalformedData(TransactionField::UserAccess)),
            }),
    {
        match read_i64_data(&parameter.field_data) {
            Some(v) => Ok(UserAccess(v)),
            None => Err(ProtocolError::MalformedData(TransactionField::UserAccess)),
        }
    }

    pub fn into_parameter(self) -> (r: Parameter)
        ensures
            r@ == param(TransactionField::UserAccess.code(), i64_bytes(self.0)),
    {
        Parameter::of_field(TransactionField::UserAccess, i64_vec(self.0))
    }
}

impl Default for UserAccess {
    fn default() -> (r: Self)
        ensures
            r.0 == 0,
    {
        Self(0)
    }
}

/// Options of a chat message.
#[derive(Debug, Clone, Copy, PartialEq, Eq, Structural, PartialOrd, Ord)]
pub struct ChatOptions(pub i32);

impl ChatOptions {
    pub fn try_from(parameter: &Parameter) -> (r: Result<Self, ProtocolError>)
        ensures
            r == (match i32_data(parameter.field_data@) {
                Some(v) => Ok::<Self, ProtocolError>(ChatOptions(v)),
                None => Err(ProtocolError::MalformedData(TransactionField::ChatOptions)),
            }),
    {
        match read_i32_data(&parameter.field_data) {
            Some(v) => Ok(ChatOptions(v)),
            None => Err(ProtocolError::MalformedData(TransactionField::ChatOptions)),
        }
    }

    pub fn into_parameter(self) -> (r: Parameter)
        ensures
            r@ == param(TransactionField::ChatOptions.code(), i32_bytes(self.0)),
    {
        Parameter::of_field(TransactionField::ChatOptions, i32_vec(self.0))
    }

    pub fn none() -> (r: Self)
        ensures
            r.0 == 0,
    {
        Self(0)
    }
}

impl Default for ChatOptions {
    fn default() -> (r: Self)
        ensures
            r.0 == 0,
    {
        Self(0)
    }
}

/// The identifier of a chat room.
#[derive(Debug, Clone, Copy, PartialEq, Eq, Structural, PartialOrd, Ord)]
pub struct ChatId(pub i16);

impl ChatId {
    pub fn try_from(parameter: &Parameter) -> (r: Result<Self, ProtocolError>)
        ensures
            r == (match i16_data(parameter.field_data@) {
                Some(v) => Ok::<Self, ProtocolError>(ChatId(v)),
                None => Err(ProtocolError::MalformedData(TransactionField::ChatId)),
            }),
    {
        match read_i16_data(&parameter.field_data) {
            Some(v) => Ok(ChatId(v)),
            None => Err(ProtocolError::MalformedData(TransactionField::ChatId)),
        }
    }

    pub fn into_parameter(self) -> (r: Parameter)
        ensures
            r@ == param(TransactionField::ChatId.code(), i16_bytes(self.0)),
    {
        Parameter::of_field(TransactionField::ChatId, i16_vec(self.0))
    }
}

impl Default for ChatId {
    fn default() -> (r: Self)
        ensures
            r.0 == 1,
    {
        Self(1)
    }
}

/// The icon a user shows.
#[derive(Debug, Clone, Copy, PartialEq, Eq, Structural, PartialOrd, Ord)]
pub struct IconId(pub i16);

impl IconId {
    pub fn try_from(parameter: &Parameter) -> (r: Result<Self, ProtocolError>)
        ensures
            r == (match i16_data(parameter.field_data@) {
                Some(v) => Ok::<Self, ProtocolError>(IconId(v)),
                None => Err(ProtocolError::MalformedData(TransactionField::UserIconId)),
            }),
    {
        match read_i16_data(&parameter.field_data) {
            Some(v) => Ok(IconId(v)),
            None => Err(ProtocolError::MalformedData(TransactionField::UserIconId)),
        }
    }

    pub fn into_parameter(self) -> (r: Parameter)
        ensures
            r@ == param(TransactionField::UserIconId.code(), i16_bytes(self.0)),
    {
        Parameter::of_field(TransactionField::UserIconId, i16_vec(self.0))
    }
}

/// The identifier of a connected user.
#[derive(Debug, Clone, Copy, PartialEq, Eq, Structural, PartialOrd, Ord, Hash)]
pub struct UserId(pub i16);

impl UserId {
    pub fn try_from(parameter: &Parameter) -> (r: Result<Self, ProtocolError>)
        ensures
            r == (match i16_data(parameter.field_data@) {
                Some(v) => Ok::<Self, ProtocolError>(UserId(v)),
                None => Err(ProtocolError::MalformedData(TransactionField::UserId)),
            }),
    {
        match read_i16_data(&parameter.field_data) {
            Some(v) => Ok(UserId(v)),
            None => Err(ProtocolError::MalformedData(TransactionField::UserId)),
        }
    }

    pub fn into_parameter(self) -> (r: Parameter)
        ensures
            r@ == param(TransactionField::UserId.code(), i16_bytes(self.0)),
    {
        Parameter::of_field(TransactionField::UserId, i16_vec(self.0))
    }
}

impl Default for UserId {
    fn default() -> (r: Self)
        ensures
            r.0 == 0,
    {
        Self(0)
    }
}

/// Flags of a connected user.
#[derive(Debug, Clone, Copy, PartialEq, Eq, Structural, PartialOrd, Ord)]
pub struct UserFlags(pub i16);

impl UserFlags {
    pub fn try_from(parameter: &Parameter) -> (r: Result<Self, ProtocolError>)
        ensures
            r == (match i16_data(parameter.field_data@) {
                Some(v) => Ok::<Self, ProtocolError>(UserFlags(v)),
                None => Err(ProtocolError::MalformedData(TransactionField::UserFlags)),
            }),
    {
        match read_i16_data(&parameter.field_data) {
            Some(v) => Ok(UserFlags(v)),
            None => Err(ProtocolError::MalformedData(TransactionField::UserFlags)),
        }
    }

    pub fn into_parameter(self) -> (r: Parameter)
        ensures
            r@ == param(TransactionField::UserFlags.code(), i16_bytes(self.0)),
    {
        Parameter::of_field(TransactionField::UserFlags, i16_vec(self.0))
    }
}

impl Default for UserFlags {
    fn default() -> (r: Self)
        ensures
            r.0 == 0,
    {
        Self(0)
    }
}

/// The size of a file.
#[derive(Debug, Clone, Copy, PartialEq, Eq, Structural, PartialOrd, Ord)]
pub struct FileSize(pub i32);

impl FileSize {
    pub fn try_from(parameter: &Parameter) -> (r: Result<Self, ProtocolError>)
        ensures
            r == (match i32_data(parameter.field_data@) {
                Some(v) => Ok::<Self, ProtocolError>(FileSize(v)),
                None => Err(ProtocolError::MalformedData(TransactionField::FileSize)),
            }),
    {
        match read_i32_data(&parameter.field_data) {
            Some(v) => Ok(FileSize(v)),
            None => Err(ProtocolError::MalformedData(TransactionField::FileSize)),
        }
    }

    pub fn into_parameter(self) -> (r: Parameter)
        ensures
            r@ == param(TransactionField::FileSize.code(), i32_bytes(self.0)),
    {
        Parameter::of_field(TransactionField::FileSize, i32_vec(self.0))
    }
}

impl Default for FileSize {
    fn default() -> (r: Self)
        ensures
            r.0 == 0,
    {
        Self(0)
    }
}

/// The number of bytes a transfer takes.
#[derive(Debug, Clone, Copy, PartialEq, Eq, Structural, PartialOrd, Ord)]
pub struct TransferSize(pub i32);

impl TransferSize {
    pub fn try_from(parameter: &Parameter) -> (r: Result<Self, ProtocolError>)
        ensures
            r == (match i32_data(parameter.field_data@) {
                Some(v) => Ok::<Self, ProtocolError>(TransferSize(v)),
                None => Err(ProtocolError::MalformedData(TransactionField::TransferSize)),
            }),
    {
        match read_i32_data(&parameter.field_data) {
            Some(v) => Ok(TransferSize(v)),
            None => Err(ProtocolError::MalformedData(TransactionField::TransferSize)),
        }
    }

    pub fn into_parameter(self) -> (r: Parameter)
        ensures
            r@ == param(TransactionField::TransferSize.code(), i32_bytes(self.0)),
    {
        Parameter::of_field(TransactionField::TransferSize, i32_vec(self.0))
    }
}

impl Default for TransferSize {
    fn default() -> (r: Self)
        ensures
            r.0 == 0,
    {
        Self(0)
    }
}

/// The number that ties a file transfer to its request.
#[derive(Debug, Clone, Copy, PartialEq, Eq, Structural, PartialOrd, Ord, Hash)]
pub struct ReferenceNumber(pub i32);

impl ReferenceNumber {
    pub fn try_from(parameter: &Parameter) -> (r: Result<Self, ProtocolError>)
        ensures
            r == (match i32_data(parameter.field_data@) {
                Some(v) => Ok::<Self, ProtocolError>(ReferenceNumber(v)),
                None => Err(ProtocolError::MalformedData(TransactionField::ReferenceNumber)),
            }),
    {
        match read_i32_data(&parameter.field_data) {
            Some(v) => Ok(ReferenceNumber(v)),
            None => Err(ProtocolError::MalformedData(TransactionField::ReferenceNumber)),
        }
    }

    pub fn into_parameter(self) -> (r: Parameter)
        ensures
            r@ == param(TransactionField::ReferenceNumber.code(), i32_bytes(self.0)),
    {
        Parameter::of_field(TransactionField::ReferenceNumber, i32_vec(self.0))
    }

    pub fn into_bytes(self) -> (r: Vec<u8>)
        ensures
            r@ == i32_bytes(self.0),
    {
        i32_vec(self.0)
    }

    /// Reads a reference number from the start of `s`, giving back what
    /// follows it.
    pub fn from_bytes(s: &[u8]) -> (r: Option<(&[u8], Self)>)
        ensures
            if s@.len() >= 4 {
                r matches Some((rest, v)) && v.0 == i32_at(s@, 0) && rest@ == s@.subrange(
                    4,
                    s@.len() as int,
                )
            } else {
                r is None
            },
    {
        if s.len() < 4 {
            return None;
        }
        Some((&s[4..s.len()], ReferenceNumber(read_i32(s, 0))))
    }
}

impl Default for ReferenceNumber {
    fn default() -> (r: Self)
        ensures
            r.0 == 0,
    {
        Self(0)
    }
}

/// The number of transfers ahead in the queue.
#[derive(Debug, Clone, Copy, PartialEq, Eq, Structural, PartialOrd, Ord)]
pub struct WaitingCount(pub i32);

impl WaitingCount {
    pub fn try_from(parameter: &Parameter) -> (r: Result<Self, ProtocolError>)
        ensures
            r == (match i32_data(parameter.field_data@) {
                Some(v) => Ok::<Self, ProtocolError>(WaitingCount(v)),
                None => Err(ProtocolError::MalformedData(TransactionField::WaitingCount)),
            }),
    {
        match read_i32_data(&parameter.field_data) {
            Some(v) => Ok(WaitingCount(v)),
            None => Err(ProtocolError::MalformedData(TransactionField::WaitingCount)),
        }
    }

    pub fn into_parameter(self) -> (r: Parameter)
        ensures
            r@ == param(TransactionField::WaitingCount.code(), i32_bytes(self.0)),
    {
        Parameter::of_field(TransactionField::WaitingCount, i32_vec(self.0))
    }
}

impl Default for WaitingCount {
    fn default() -> (r: Self)
        ensures
            r.0 == 0,
    {
        Self(0)
    }
}

/// Options of a transaction.
#[derive(Debug, Clone, Copy, PartialEq, Eq, Structural)]
pub struct TransactionOptions(pub i32);

impl TransactionOptions {
    pub fn try_from(parameter: &Parameter) -> (r: Result<Self, ProtocolError>)
        ensures
            r == (match i32_data(parameter.field_data@) {
                Some(v) => Ok::<Self, ProtocolError>(TransactionOptions(v)),
                None => Err(ProtocolError::MalformedData(TransactionField::Options)),
            }),
    {
        match read_i32_data(&parameter.field_data) {
            Some(v) => Ok(TransactionOptions(v)),
            None => Err(ProtocolError::MalformedData(TransactionField::Options)),
        }
    }

    pub fn into_parameter(self) -> (r: Parameter)
        ensures
            r@ == param(TransactionField::Options.code(), i32_bytes(self.0)),
    {
        Parameter::of_field(TransactionField::Options, i32_vec(self.0))
    }
}

impl Default for TransactionOptions {
    fn default() -> (r: Self)
        ensures
            r.0 == 0,
    {
        Self(0)
    }
}

/// A four-character file type code.
#[derive(Debug, Clone, Copy, PartialEq, Eq)]
pub struct FileType(pub [u8; 4]);

/// A four-character creator code.
#[derive(Debug, Clone, Copy, PartialEq, Eq)]
pub struct Creator(pub [u8; 4]);

impl FileType {
    pub fn try_from(parameter: &Parameter) -> (r: Result<Self, ProtocolError>)
        ensures
            match spec_take_if_matches(parameter@, TransactionField::FileType) {
                Ok(d) => if d.len() == 4 {
                    r matches Ok(v) && v.0@ == d
                } else {
                    r matches Err(ProtocolError::MalformedData(TransactionField::FileType))
                },
                Err(e) => r matches Err(e2) && e2 == e,
            },
    {
        let data = take_if_matches(parameter.duplicate(), TransactionField::FileType)?;
        if data.len() != 4 {
            return Err(ProtocolError::MalformedData(TransactionField::FileType));
        }
        let a = [data[0], data[1], data[2], data[3]];
        assert(a@ =~= data@);
        Ok(FileType(a))
    }

    pub fn into_parameter(self) -> (r: Parameter)
        ensures
            r@ == param(TransactionField::FileType.code(), self.0@),
    {
        let a = self.0;
        let v = vec![a[0], a[1], a[2], a[3]];
        assert(v@ =~= a@);
        Parameter::of_field(TransactionField::FileType, v)
    }
}

/// A date of creation.
#[derive(Debug, Clone, Copy, PartialEq, Eq, Structural)]
pub struct FileCreatedAt(pub DateParameter);

/// A date of modification.
#[derive(Debug, Clone, Copy, PartialEq, Eq, Structural)]
pub struct FileModifiedAt(pub DateParameter);

impl FileCreatedAt {
    pub fn try_from(parameter: &Parameter) -> (r: Result<Self, ProtocolError>)
        ensures
            match spec_take_if_matches(parameter@, TransactionField::FileCreateDate) {
                Ok(d) => match parse_date(d) {
                    Some(date) => r matches Ok(v) && v.0 == date,
                    None => r matches Err(ProtocolError::MalformedData(TransactionField::FileCreateDate)),
                },
                Err(e) => r matches Err(e2) && e2 == e,
            },
    {
        let data = take_if_matches(parameter.duplicate(), TransactionField::FileCreateDate)?;
        match DateParameter::from_data(data.as_slice()) {
            Some(d) => Ok(FileCreatedAt(d)),
            None => Err(ProtocolError::MalformedData(TransactionField::FileCreateDate)),
        }
    }

    pub fn into_parameter(self) -> (r: Parameter)
        ensures
            r@ == param(TransactionField::FileCreateDate.code(), date_bytes(self.0)),
    {
        Parameter::of_field(TransactionField::FileCreateDate, self.0.to_bytes())
    }
}

impl FileModifiedAt {
    pub fn try_from(parameter: &Parameter) -> (r: Result<Self, ProtocolError>)
        ensures
            match spec_take_if_matches(parameter@, TransactionField::FileModifyDate) {
                Ok(d) => match parse_date(d) {
                    Some(date) => r matches Ok(v) && v.0 == date,
                    None => r matches Err(ProtocolError::MalformedData(TransactionField::FileModifyDate)),
                },
                Err(e) => r matches Err(e2) && e2 == e,
            },
    {
        let data = take_if_matches(parameter.duplicate(), TransactionField::FileModifyDate)?;
        match DateParameter::from_data(data.as_slice()) {
            Some(d) => Ok(FileModifiedAt(d)),
            None => Err(ProtocolError::MalformedData(TransactionField::FileModifyDate)),
        }
    }

    pub fn into_parameter(self) -> (r: Parameter)
        ensures
            r@ == param(TransactionField::FileModifyDate.code(), date_bytes(self.0)),
    {
        Parameter::of_field(TransactionField::FileModifyDate, self.0.to_bytes())
    }
}

impl Default for FileCreatedAt {
    fn default() -> (r: Self)
        ensures
            r.0 == (DateParameter { year: 0, milliseconds: 0, seconds: 0 }),
    {
        Self(DateParameter::default())
    }
}

impl Default for FileModifiedAt {
    fn default() -> (r: Self)
        ensures
            r.0 == (DateParameter { year: 0, milliseconds: 0, seconds: 0 }),
    {
        Self(DateParameter::default())
    }
}

/// A connected user as the user list shows it.
#[derive(Debug, Clone)]
pub struct UserNameWithInfo {
    pub user_id: UserId,
    pub icon_id: IconId,
    pub user_flags: UserFlags,
    pub username_len: i16,
    pub username: Nickname,
}

/// The mathematical value of a user entry.
pub struct UserNameWithInfoView {
    pub user_id: i16,
    pub icon_id: i16,
    pub user_flags: i16,
    pub username_len: i16,
    pub username: Seq<u8>,
}

impl View for UserNameWithInfo {
    type V = UserNameWithInfoView;

    open spec fn view(&self) -> UserNameWithInfoView {
        UserNameWithInfoView {
            user_id: self.user_id.0,
            icon_id: self.icon_id.0,
            user_flags: self.user_flags.0,
            username_len: self.username_len,
            username: self.username@,
        }
    }
}

pub open spec fn user_info_bytes(u: UserNameWithInfoView) -> Seq<u8> {
    i16_bytes(u.user_id) + i16_bytes(u.icon_id) + i16_bytes(u.user_flags) + i16_bytes(
        u.username_len,
    ) + u.username
}

/// The user entry that exactly these bytes stand for.
pub open spec fn parse_user_info(d: Seq<u8>) -> Option<UserNameWithInfoView> {
    if d.len() < 8 {
        None
    } else {
        let l = i16_at(d, 6);
        if l < 0 || d.len() != 8 + l {
            None
        } else {
            Some(
                UserNameWithInfoView {
                    user_id: i16_at(d, 0),
                    icon_id: i16_at(d, 2),
                    user_flags: i16_at(d, 4),
                    username_len: l,
                    username: d.subrange(8, d.len() as int),
                },
            )
        }
    }
}

/// A user entry whose announced name length is the length of its name.
pub open spec fn user_info_wf(u: UserNameWithInfoView) -> bool {
    u.username_len >= 0 && u.username_len as int == u.username.len()
}

impl UserNameWithInfo {
    /// A user not yet given an id, with no flags.
    pub fn anonymous(username: Nickname, icon_id: IconId) -> (r: Self)
        ensures
            r@ == (UserNameWithInfoView {
                user_id: 0,
                icon_id: icon_id.0,
                user_flags: 0,
                username_len: username@.len() as i16,
                username: username@,
            }),
    {
        Self {
            username_len: username.len() as i16,
            username,
            icon_id,
            user_flags: UserFlags(0),
            user_id: UserId(0),
        }
    }

    pub fn duplicate(&self) -> (r: Self)
        ensures
            r@ == self@,
    {
        Self {
            user_id: self.user_id,
            icon_id: self.icon_id,
            user_flags: self.user_flags,
            username_len: self.username_len,
            username: self.username.duplicate(),
        }
    }

    pub fn to_bytes(&self) -> (r: Vec<u8>)
        ensures
            r@ == user_info_bytes(self@),
    {
        let mut out: Vec<u8> = Vec::new();
        push_i16(&mut out, self.user_id.0);
        push_i16(&mut out, self.icon_id.0);
        push_i16(&mut out, self.user_flags.0);
        push_i16(&mut out, self.username_len);
        push_bytes(&mut out, self.username.0.as_slice());
        assert(out@ =~= user_info_bytes(self@));
        out
    }

    /// The user entry that exactly `d` stands for.
    pub fn from_data(d: &[u8]) -> (r: Option<Self>)
        ensures
            match parse_user_info(d@) {
                Some(u) => r matches Some(v) && v@ == u,
                None => r is None,
            },
    {
        if d.len() < 8 {
            return None;
        }
        let l = read_i16(d, 6);
        if l < 0 || d.len() - 8 != l as usize {
            return None;
        }
        Some(
            Self {
                user_id: UserId(read_i16(d, 0)),
                icon_id: IconId(read_i16(d, 2)),
                user_flags: UserFlags(read_i16(d, 4)),
                username_len: l,
                username: Nickname(copy_range(d, 8, d.len())),
            },
        )
    }

    pub fn try_from(parameter: &Parameter) -> (r: Result<Self, ProtocolError>)
        ensures
            match parse_user_info(parameter.field_data@) {
                Some(u) => r matches Ok(v) && v@ == u,
                None => r matches Err(ProtocolError::MalformedData(TransactionField::UserNameWithInfo)),
            },
    {
        match Self::from_data(parameter.field_data.as_slice()) {
            Some(u) => Ok(u),
            None => Err(ProtocolError::MalformedData(TransactionField::UserNameWithInfo)),
        }
    }

    pub fn into_parameter(self) -> (r: Parameter)
        ensures
            r@ == param(TransactionField::UserNameWithInfo.code(), user_info_bytes(self@)),
    {
        Parameter::of_field(TransactionField::UserNameWithInfo, self.to_bytes())
    }
}

/// A well-formed user entry written out and read back is the same entry.
pub proof fn lemma_user_info_roundtrip(u: UserNameWithInfoView)
    requires
        user_info_wf(u),
    ensures
        parse_user_info(user_info_bytes(u)) == Some(u),
{
    let d = user_info_bytes(u);
    lemma_i16_roundtrip(u.user_id, d.subrange(2, d.len() as int));
    lemma_i16_roundtrip(u.icon_id, d.subrange(4, d.len() as int));
    lemma_i16_roundtrip(u.user_flags, d.subrange(6, d.len() as int));
    lemma_i16_roundtrip(u.username_len, d.subrange(8, d.len() as int));
    assert(d =~= i16_bytes(u.user_id) + d.subrange(2, d.len() as int));
    assert(d.subrange(2, d.len() as int) =~= i16_bytes(u.icon_id) + d.subrange(4, d.len() as int));
    assert(d.subrange(4, d.len() as int) =~= i16_bytes(u.user_flags) + d.subrange(6, d.len() as int));
    assert(d.subrange(6, d.len() as int) =~= i16_bytes(u.username_len) + d.subrange(8, d.len() as int));
    assert(i16_at(d, 2) == i16_at(d.subrange(2, d.len() as int), 0));
    assert(i16_at(d, 4) == i16_at(d.subrange(4, d.len() as int), 0));
    assert(i16_at(d, 6) == i16_at(d.subrange(6, d.len() as int), 0));
    assert(d.subrange(8, d.len() as int) =~= u.username);
}

/// A user entry on the wire: the user id in its first two bytes, the icon
/// in the next two, the flags in the two after, then the length of the
/// name and the name; and an entry is read back from the same places.
pub proof fn law_user_entry_layout(u: UserNameWithInfoView, d: Seq<u8>)
    ensures
        user_info_bytes(u).len() == 8 + u.username.len(),
        user_info_bytes(u).subrange(0, 2) == i16_bytes(u.user_id),
        user_info_bytes(u).subrange(2, 4) == i16_bytes(u.icon_id),
        user_info_bytes(u).subrange(4, 6) == i16_bytes(u.user_flags),
        user_info_bytes(u).subrange(6, 8) == i16_bytes(u.username_len),
        user_info_bytes(u).subrange(8, 8 + u.username.len() as int) == u.username,
        parse_user_info(d) matches Some(v) ==> {
            &&& v.user_id == i16_at(d, 0)
            &&& v.icon_id == i16_at(d, 2)
            &&& v.user_flags == i16_at(d, 4)
            &&& v.username_len == i16_at(d, 6)
            &&& v.username == d.subrange(8, d.len() as int)
        },
{
    let b = user_info_bytes(u);
    assert(b.subrange(0, 2) =~= i16_bytes(u.user_id));
    assert(b.subrange(2, 4) =~= i16_bytes(u.icon_id));
    assert(b.subrange(4, 6) =~= i16_bytes(u.user_flags));
    assert(b.subrange(6, 8) =~= i16_bytes(u.username_len));
    assert(b.subrange(8, 8 + u.username.len() as int) =~= u.username);
}

/// Where a file is: the root, or a list of folder names below it.
#[derive(Clone, Debug)]
pub enum FilePath {
    Root,
    Directory(Vec<Vec<u8>>),
}

/// The mathematical value of a file path.
pub enum FilePathView {
    Root,
    Directory(Seq<Seq<u8>>),
}

/// The views of a list of byte vectors.
pub open spec fn components_view(cs: Seq<Vec<u8>>) -> Seq<Seq<u8>> {
    cs.map_values(|c: Vec<u8>| c@)
}

impl View for FilePath {
    type V = FilePathView;

    open spec fn view(&self) -> FilePathView {
        match self {
            FilePath::Root => FilePathView::Root,
            FilePath::Directory(cs) => FilePathView::Directory(components_view(cs@)),
        }
    }
}

pub open spec fn component_bytes(c: Seq<u8>) -> Seq<u8> {
    seq![0u8, 0u8] + i8_bytes(c.len() as i8) + c
}

pub open spec fn components_bytes(cs: Seq<Seq<u8>>) -> Seq<u8>
    decreases cs.len(),
{
    if cs.len() == 0 {
        Seq::empty()
    } else {
        components_bytes(cs.drop_last()) + component_bytes(cs.last())
    }
}

/// The data of a file path parameter with these components.
pub open spec fn path_bytes(cs: Seq<Seq<u8>>) -> Seq<u8> {
    i16_bytes(cs.len() as i16) + components_bytes(cs)
}

/// Reads one path component from the start of `s`: the number of bytes it
/// takes, and the name.
pub open spec fn parse_component(s: Seq<u8>) -> Option<(int, Seq<u8>)> {
    if s.len() < 3 {
        None
    } else {
        let l = i8_at(s, 2);
        if l < 0 || s.len() < 3 + l {
            None
        } else {
            Some((3 + l, s.subrange(3, 3 + l)))
        }
    }
}

pub open spec fn parse_components(s: Seq<u8>, n: nat) -> Option<Seq<Seq<u8>>>
    decreases n,
{
    if n == 0 {
        Some(Seq::empty())
    } else {
        match parse_component(s) {
            None => None,
            Some((k, c)) => match parse_components(s.skip(k), (n - 1) as nat) {
                None => None,
                Some(cs) => Some(seq![c] + cs),
            },
        }
    }
}

/// The components of the file path that `s` stands for. What follows the
/// last component is not read.
pub open spec fn parse_path(s: Seq<u8>) -> Option<Seq<Seq<u8>>> {
    if s.len() < 2 {
        None
    } else {
        let depth = i16_at(s, 0);
        if depth < 0 {
            None
        } else {
            parse_components(s.skip(2), depth as nat)
        }
    }
}

/// Components that a path parameter can carry: fewer than 32768 of them, and
/// each shorter than 128 bytes.
pub open spec fn components_wf(cs: Seq<Seq<u8>>) -> bool {
    cs.len() <= 32767 && forall|i: int| 0 <= i < cs.len() ==> (#[trigger] cs[i]).len() <= 127
}

pub proof fn lemma_components_bytes_first(cs: Seq<Seq<u8>>)
    requires
        cs.len() > 0,
    ensures
        components_bytes(cs) == component_bytes(cs[0]) + components_bytes(cs.drop_first()),
    decreases cs.len(),
{
    if cs.len() == 1 {
        assert(cs.drop_last() =~= Seq::<Seq<u8>>::empty());
        assert(cs.drop_first() =~= Seq::<Seq<u8>>::empty());
        assert(components_bytes(cs) =~= component_bytes(cs[0]) + components_bytes(cs.drop_first()));
    } else {
        lemma_components_bytes_first(cs.drop_last());
        assert(cs.drop_last().drop_first() =~= cs.drop_first().drop_last());
        assert(cs.drop_first().last() == cs.last());
        assert(cs.drop_last()[0] == cs[0]);
        assert(components_bytes(cs) =~= component_bytes(cs[0]) + components_bytes(cs.drop_first()));
    }
}

proof fn lemma_components_roundtrip(cs: Seq<Seq<u8>>, rest: Seq<u8>)
    requires
        forall|i: int| 0 <= i < cs.len() ==> (#[trigger] cs[i]).len() <= 127,
    ensures
        parse_components(components_bytes(cs) + rest, cs.len()) == Some(cs),
    decreases cs.len(),
{
    if cs.len() > 0 {
        lemma_components_bytes_first(cs);
        let tail = cs.drop_first();
        assert forall|i: int| 0 <= i < tail.len() implies (#[trigger] tail[i]).len() <= 127 by {
            assert(tail[i] == cs[i + 1]);
        }
        lemma_components_roundtrip(tail, rest);
        let c = cs[0];
        assert(c.len() <= 127);
        let s = components_bytes(cs) + rest;
        let cb = component_bytes(c);
        assert(s =~= cb + (components_bytes(tail) + rest));
        lemma_i8_roundtrip(c.len() as i8, c + (components_bytes(tail) + rest));
        assert(s.subrange(2, s.len() as int) =~= i8_bytes(c.len() as i8) + (c + (components_bytes(tail) + rest)));
        assert(i8_at(s, 2) == i8_at(s.subrange(2, s.len() as int), 0));
        assert(s.subrange(3, 3 + c.len() as int) =~= c);
        assert(s.skip(3 + c.len() as int) =~= components_bytes(tail) + rest);
        assert(seq![c] + tail =~= cs);
    }
}

/// A path written out and read back has the same components.
pub proof fn lemma_path_roundtrip(cs: Seq<Seq<u8>>)
    requires
        components_wf(cs),
    ensures
        parse_path(path_bytes(cs)) == Some(cs),
{
    let e: Seq<u8> = Seq::empty();
    let s = path_bytes(cs);
    lemma_i16_roundtrip(cs.len() as i16, components_bytes(cs));
    lemma_components_roundtrip(cs, e);
    assert(components_bytes(cs) + e =~= components_bytes(cs));
    assert(s.skip(2) =~= components_bytes(cs));
}

impl Default for FilePath {
    fn default() -> (r: Self)
        ensures
            r is Root,
    {
        FilePath::Root
    }
}

impl FilePath {
    /// The folder names, unless this is the root.
    pub fn path(&self) -> (r: Option<&Vec<Vec<u8>>>)
        ensures
            match self {
                FilePath::Root => r is None,
                FilePath::Directory(cs) => r == Some(cs),
            },
    {
        match self {
            FilePath::Root => None,
            FilePath::Directory(cs) => Some(cs),
        }
    }

    fn parse_component_at(s: &[u8], pos: usize) -> (r: Option<(usize, Vec<u8>)>)
        requires
            pos <= s@.len(),
        ensures
            match parse_component(s@.subrange(pos as int, s@.len() as int)) {
                Some((k, c)) => r matches Some((k2, c2)) && k2 == k && c2@ == c,
                None => r is None,
            },
            r matches Some((k, _)) ==> pos + k <= s@.len(),
    {
        let ghost t = s@.subrange(pos as int, s@.len() as int);
        if s.len() - pos < 3 {
            return None;
        }
        let l = read_i8(s, pos + 2);
        assert(l == i8_at(t, 2));
        if l < 0 || s.len() - pos - 3 < l as usize {
            return None;
        }
        let c = copy_range(s, pos + 3, pos + 3 + l as usize);
        assert(c@ =~= t.subrange(3, 3 + l));
        Some((3 + l as usize, c))
    }

    /// The path that `bytes` stands for, as a directory.
    pub fn try_from_bytes(bytes: &[u8]) -> (r: Result<Self, ProtocolError>)
        ensures
            match parse_path(bytes@) {
                Some(cs) => r matches Ok(p) && p@ == FilePathView::Directory(cs),
                None => r matches Err(ProtocolError::MalformedData(TransactionField::FilePath)),
            },
    {
        if bytes.len() < 2 {
            return Err(ProtocolError::MalformedData(TransactionField::FilePath));
        }
        let depth = read_i16(bytes, 0);
        if depth < 0 {
            return Err(ProtocolError::MalformedData(TransactionField::FilePath));
        }
        let ghost n = depth as nat;
        let len = bytes.len();
        let mut components: Vec<Vec<u8>> = Vec::new();
        let mut at: usize = 2;
        let mut i: i16 = 0;
        assert(bytes@.subrange(2, bytes@.len() as int) =~= bytes@.skip(2));
        while i < depth
            invariant
                2 <= at <= bytes@.len(),
                len == bytes@.len(),
                0 <= i <= depth,
                n == depth as nat,
                bytes@.len() >= 2,
                depth == i16_at(bytes@, 0),
                parse_components(bytes@.skip(2), n) == (match parse_components(
                    bytes@.subrange(at as int, bytes@.len() as int),
                    (n - i) as nat,
                ) {
                    Some(rest) => Some(components_view(components@) + rest),
                    None => None,
                }),
            decreases depth - i,
        {
            let ghost u = bytes@.subrange(at as int, bytes@.len() as int);
            match Self::parse_component_at(bytes, at) {
                None => {
                    assert(parse_components(u, (n - i) as nat) is None);
                    return Err(ProtocolError::MalformedData(TransactionField::FilePath));
                },
                Some((k, c)) => {
                    proof {
                        assert(bytes@.subrange((at + k) as int, bytes@.len() as int) =~= u.skip(k as int));
                        assert(components_view(components@.push(c)) =~= components_view(components@) + seq![c@]);
                        let rest_parse = parse_components(u.skip(k as int), (n - i - 1) as nat);
                        if let Some(rest) = rest_parse {
                            assert(components_view(components@) + (seq![c@] + rest) =~= (components_view(components@) + seq![c@]) + rest);
                        }
                    }
                    components.push(c);
                    at = at + k;
                    i = i + 1;
                },
            }
        }
        assert(components_view(components@) + Seq::<Seq<u8>>::empty() =~= components_view(components@));
        Ok(FilePath::Directory(components))
    }

    pub fn try_from(parameter: &Parameter) -> (r: Result<Self, ProtocolError>)
        ensures
            match spec_take_if_matches(parameter@, TransactionField::FilePath) {
                Ok(d) => match parse_path(d) {
                    Some(cs) => r matches Ok(p) && p@ == FilePathView::Directory(cs),
                    None => r matches Err(ProtocolError::MalformedData(TransactionField::FilePath)),
                },
                Err(e) => r matches Err(e2) && e2 == e,
            },
    {
        let data = take_if_matches(parameter.duplicate(), TransactionField::FilePath)?;
        Self::try_from_bytes(data.as_slice())
    }

    /// The path a parameter names; the root when there is no parameter.
    pub fn try_from_opt(parameter: Option<&Parameter>) -> (r: Result<Self, ProtocolError>)
        ensures
            match parameter {
                None => r matches Ok(p) && p@ == FilePathView::Root,
                Some(q) => match spec_take_if_matches(q@, TransactionField::FilePath) {
                    Ok(d) => match parse_path(d) {
                        Some(cs) => r matches Ok(p) && p@ == FilePathView::Directory(cs),
                        None => r matches Err(ProtocolError::MalformedData(TransactionField::FilePath)),
                    },
                    Err(e) => r matches Err(e2) && e2 == e,
                },
            },
    {
        match parameter {
            Some(p) => Self::try_from(p),
            None => Ok(FilePath::Root),
        }
    }

    pub fn encode_path_component(component: Vec<u8>) -> (r: Vec<u8>)
        ensures
            r@ == component_bytes(component@),
    {
        let mut out: Vec<u8> = vec![0u8, 0u8];
        push_i8(&mut out, component.len() as i8);
        push_bytes(&mut out, component.as_slice());
        assert(out@ =~= component_bytes(component@));
        out
    }

    pub fn encode_parameter(components: Vec<Vec<u8>>) -> (r: Parameter)
        ensures
            r@ == param(TransactionField::FilePath.code(), path_bytes(components_view(components@))),
    {
        let ghost cs = components_view(components@);
        let mut data: Vec<u8> = Vec::new();
        push_i16(&mut data, components.len() as i16);
        let mut i: usize = 0;
        while i < components.len()
            invariant
                cs == components_view(components@),
                0 <= i <= components@.len(),
                data@ == i16_bytes(components@.len() as i16) + components_bytes(cs.take(i as int)),
            decreases components@.len() - i,
        {
            let c = copy_vec(&components[i]);
            let e = Self::encode_path_component(c);
            push_bytes(&mut data, e.as_slice());
            proof {
                assert(cs.take(i + 1).drop_last() =~= cs.take(i as int));
            }
            i = i + 1;
            assert(data@ =~= i16_bytes(components@.len() as i16) + components_bytes(cs.take(i as int)));
        }
        assert(cs.take(components@.len() as int) =~= cs);
        Parameter::of_field(TransactionField::FilePath, data)
    }

    /// The parameter that names this path; the root has none.
    pub fn into_parameter(self) -> (r: Option<Parameter>)
        ensures
            match self@ {
                FilePathView::Root => r is None,
                FilePathView::Directory(cs) => r matches Some(p) && p@ == param(
                    TransactionField::FilePath.code(),
                    path_bytes(cs),
                ),
            },
    {
        match self {
            FilePath::Root => None,
            FilePath::Directory(cs) => Some(Self::encode_parameter(cs)),
        }
    }
}

} // verus!
