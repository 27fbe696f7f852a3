//! The Hotline wire protocol: handshakes, transaction frames, their
//! parameters, and the typed transactions that are read from and written to
//! them.

pub mod codec;
pub mod handshake;
pub mod transaction_type;
pub mod transaction_field;
pub mod transaction;
pub mod text;
pub mod date;
pub mod parameters;
pub mod messages;
pub mod fork;

use vstd::prelude::*;

pub use handshake::{ClientHandshakeRequest, ServerHandshakeReply, SubProtocolId, TransferHandshake};
pub use transaction_type::TransactionType;
pub use transaction_field::TransactionField;
pub use transaction::{DataSize, FieldId, Flags, Id, IsReply, TotalSize, TransactionHeader, Type};

verus! {

#[verifier::external_type_specification]
#[verifier::external_body]
pub struct ExIoError(std::io::Error);

/// Why a transaction or one of its parameters could not be read.
#[derive(Debug)]
pub enum ProtocolError {
    IO(std::io::Error),
    ParseHeader,
    ParseBody,
    MissingField(TransactionField),
    MalformedData(TransactionField),
    UnexpectedTransaction { expected: i16, encountered: i16 },
    UnsupportedTransaction(i16),
    SystemError,
}

/// The error code of a transaction header; zero means success.
#[derive(Debug, PartialEq, Eq, Structural, PartialOrd, Ord, Clone, Copy)]
pub struct ErrorCode(pub i32);

impl ErrorCode {
    pub fn ok() -> (r: Self)
        ensures
            r.0 == 0,
    {
        Self(0)
    }
}

impl Default for ErrorCode {
    fn default() -> (r: Self)
        ensures
            r.0 == 0,
    {
        Self::ok()
    }
}

} // verus!
