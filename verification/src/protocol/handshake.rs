//! The handshakes that open a session and a file transfer.

use vstd::prelude::*;

use super::codec::{i16_at, i16_bytes, i32_at, i32_bytes, push_i16, push_i32, read_i16, read_i32};
use super::parameters::ReferenceNumber;
use super::transaction::DataSize;
use super::ErrorCode;

verus! {

/// The tag that opens a session handshake.
pub open spec fn trtp() -> Seq<u8> {
    seq![0x54u8, 0x52u8, 0x54u8, 0x50u8]
}

/// The tag that opens a transfer handshake.
pub open spec fn htxf() -> Seq<u8> {
    seq![0x48u8, 0x54u8, 0x58u8, 0x46u8]
}

/// Whether `bytes` starts with `tag`.
fn starts_with(bytes: &[u8], tag: &[u8]) -> (r: bool)
    ensures
        r == (tag@.len() <= bytes@.len() && bytes@.take(tag@.len() as int) == tag@),
{
    if bytes.len() < tag.len() {
        return false;
    }
    let mut i: usize = 0;
    while i < tag.len()
        invariant
            tag@.len() <= bytes@.len(),
            0 <= i <= tag@.len(),
            bytes@.take(i as int) == tag@.take(i as int),
        decreases tag@.len() - i,
    {
        if bytes[i] != tag[i] {
            assert(bytes@.take(tag@.len() as int)[i as int] != tag@[i as int]);
            return false;
        }
        assert(bytes@.take(i + 1) =~= bytes@.take(i as int).push(bytes@[i as int]));
        assert(tag@.take(i + 1) =~= tag@.take(i as int).push(tag@[i as int]));
        i = i + 1;
    }
    assert(tag@.take(tag@.len() as int) =~= tag@);
    true
}

/// The protocol a client asks for.
#[derive(Debug, Clone, Copy, PartialEq, Eq, Structural, PartialOrd, Ord)]
pub struct ProtocolId(pub i32);

/// The sub-protocol a client asks for.
#[derive(Debug, Clone, Copy, PartialEq, Eq, Structural, PartialOrd, Ord)]
pub struct SubProtocolId(pub i32);

/// A protocol version.
#[derive(Debug, Clone, Copy, PartialEq, Eq, Structural, PartialOrd, Ord)]
pub struct Version(pub i16);

/// A protocol sub-version.
#[derive(Debug, Clone, Copy, PartialEq, Eq, Structural, PartialOrd, Ord)]
pub struct SubVersion(pub i16);

/// What a client sends first.
#[derive(Debug, Clone, Copy, PartialEq, Eq, Structural)]
pub struct ClientHandshakeRequest {
    pub sub_protocol_id: SubProtocolId,
    pub version: Version,
    pub sub_version: SubVersion,
}

/// A client handshake on the wire.
pub open spec fn client_handshake_bytes(h: ClientHandshakeRequest) -> Seq<u8> {
    trtp() + i32_bytes(h.sub_protocol_id.0) + i16_bytes(h.version.0) + i16_bytes(h.sub_version.0)
}

/// What a client handshake read from `s` gives: the length taken and the
/// handshake.
pub open spec fn parse_client_handshake(s: Seq<u8>) -> Option<(int, ClientHandshakeRequest)> {
    if s.len() >= 12 && s.take(4) == trtp() {
        Some(
            (
                12,
                ClientHandshakeRequest {
                    sub_protocol_id: SubProtocolId(i32_at(s, 4)),
                    version: Version(i16_at(s, 8)),
                    sub_version: SubVersion(i16_at(s, 10)),
                },
            ),
        )
    } else {
        None
    }
}

impl ClientHandshakeRequest {
    pub fn into_bytes(self) -> (r: Vec<u8>)
        ensures
            r@ == client_handshake_bytes(self),
    {
        let mut out: Vec<u8> = vec![0x54u8, 0x52u8, 0x54u8, 0x50u8];
        push_i32(&mut out, self.sub_protocol_id.0);
        push_i16(&mut out, self.version.0);
        push_i16(&mut out, self.sub_version.0);
        out
    }

    /// Reads a handshake at the start of `bytes`, returning the rest.
    pub fn from_bytes(bytes: &[u8]) -> (r: Option<(&[u8], Self)>)
        ensures
            match parse_client_handshake(bytes@) {
                Some((k, h)) => r matches Some((rest, h2)) && h2 == h && rest@ == bytes@.subrange(
                    k,
                    bytes@.len() as int,
                ),
                None => r is None,
            },
    {
        if bytes.len() < 12 || !starts_with(bytes, &[0x54u8, 0x52u8, 0x54u8, 0x50u8]) {
            return None;
        }
        let h = ClientHandshakeRequest {
            sub_protocol_id: SubProtocolId(read_i32(bytes, 4)),
            version: Version(read_i16(bytes, 8)),
            sub_version: SubVersion(read_i16(bytes, 10)),
        };
        Some((&bytes[12..bytes.len()], h))
    }

    /// Reads a handshake that is all of `bytes`.
    pub fn try_from(bytes: &[u8]) -> (r: Option<Self>)
        ensures
            match parse_client_handshake(bytes@) {
                Some((k, h)) => if k == bytes@.len() {
                    r == Some(h)
                } else {
                    r is None
                },
                None => r is None,
            },
    {
        match Self::from_bytes(bytes) {
            Some((rest, h)) => if rest.len() == 0 {
                Some(h)
            } else {
                None
            },
            None => None,
        }
    }
}

/// A client handshake written out reads back the same.
pub proof fn lemma_client_handshake_roundtrip(h: ClientHandshakeRequest, rest: Seq<u8>)
    ensures
        parse_client_handshake(client_handshake_bytes(h) + rest) == Some((12int, h)),
{
    let s = client_handshake_bytes(h) + rest;
    super::codec::lemma_i32_roundtrip(h.sub_protocol_id.0, i16_bytes(h.version.0) + i16_bytes(h.sub_version.0) + rest);
    super::codec::lemma_i16_roundtrip(h.version.0, i16_bytes(h.sub_version.0) + rest);
    super::codec::lemma_i16_roundtrip(h.sub_version.0, rest);
    assert(s.take(4) =~= trtp());
    assert(s.skip(4) =~= i32_bytes(h.sub_protocol_id.0) + (i16_bytes(h.version.0) + i16_bytes(h.sub_version.0) + rest));
    assert(s.skip(8) =~= i16_bytes(h.version.0) + (i16_bytes(h.sub_version.0) + rest));
    assert(s.skip(10) =~= i16_bytes(h.sub_version.0) + rest);
    assert(i32_at(s, 4) == i32_at(s.skip(4), 0));
    assert(i16_at(s, 8) == i16_at(s.skip(8), 0));
    assert(i16_at(s, 10) == i16_at(s.skip(10), 0));
}

/// What a server answers a client handshake with.
#[derive(Debug, Clone, Copy, PartialEq, Eq, Structural)]
pub struct ServerHandshakeReply {
    pub error_code: ErrorCode,
}

/// A server handshake on the wire.
pub open spec fn server_handshake_bytes(h: ServerHandshakeReply) -> Seq<u8> {
    trtp() + i32_bytes(h.error_code.0)
}

/// What a server handshake read from `s` gives.
pub open spec fn parse_server_handshake(s: Seq<u8>) -> Option<(int, ServerHandshakeReply)> {
    if s.len() >= 8 && s.take(4) == trtp() {
        Some((8, ServerHandshakeReply { error_code: ErrorCode(i32_at(s, 4)) }))
    } else {
        None
    }
}

impl ServerHandshakeReply {
    /// The answer that lets the client in.
    pub fn ok() -> (r: Self)
        ensures
            r.error_code.0 == 0,
    {
        Self { error_code: ErrorCode::ok() }
    }

    pub fn into_bytes(self) -> (r: Vec<u8>)
        ensures
            r@ == server_handshake_bytes(self),
    {
        let mut out: Vec<u8> = vec![0x54u8, 0x52u8, 0x54u8, 0x50u8];
        push_i32(&mut out, self.error_code.0);
        out
    }

    /// Reads a handshake at the start of `bytes`, returning the rest.
    pub fn from_bytes(bytes: &[u8]) -> (r: Option<(&[u8], Self)>)
        ensures
            match parse_server_handshake(bytes@) {
                Some((k, h)) => r matches Some((rest, h2)) && h2 == h && rest@ == bytes@.subrange(
                    k,
                    bytes@.len() as int,
                ),
                None => r is None,
            },
    {
        if bytes.len() < 8 || !starts_with(bytes, &[0x54u8, 0x52u8, 0x54u8, 0x50u8]) {
            return None;
        }
        let h = ServerHandshakeReply { error_code: ErrorCode(read_i32(bytes, 4)) };
        Some((&bytes[8..bytes.len()], h))
    }

    /// Reads a handshake that is all of `bytes`.
    pub fn try_from(bytes: &[u8]) -> (r: Option<Self>)
        ensures
            match parse_server_handshake(bytes@) {
                Some((k, h)) => if k == bytes@.len() {
                    r == Some(h)
                } else {
                    r is None
                },
                None => r is None,
            },
    {
        match Self::from_bytes(bytes) {
            Some((rest, h)) => if rest.len() == 0 {
                Some(h)
            } else {
                None
            },
            None => None,
        }
    }
}

/// A server handshake written out reads back the same.
pub proof fn lemma_server_handshake_roundtrip(h: ServerHandshakeReply, rest: Seq<u8>)
    ensures
        parse_server_handshake(server_handshake_bytes(h) + rest) == Some((8int, h)),
{
    let s = server_handshake_bytes(h) + rest;
    super::codec::lemma_i32_roundtrip(h.error_code.0, rest);
    assert(s.take(4) =~= trtp());
    assert(s.skip(4) =~= i32_bytes(h.error_code.0) + rest);
    assert(i32_at(s, 4) == i32_at(s.skip(4), 0));
}

/// What a client sends first on a file transfer connection.
#[derive(Debug, Clone, Copy)]
pub struct TransferHandshake {
    pub reference: ReferenceNumber,
    pub size: Option<DataSize>,
    pub padding: [u8; 4],
}

/// A transfer handshake on the wire; a size is written only when there is
/// one.
pub open spec fn transfer_handshake_bytes(h: TransferHandshake) -> Seq<u8> {
    htxf() + i32_bytes(h.reference.0) + match h.size {
        Some(d) => i32_bytes(d.0),
        None => Seq::empty(),
    } + h.padding@
}

/// What a transfer handshake read from `s` gives: the size is always read.
pub open spec fn parse_transfer_handshake(s: Seq<u8>) -> Option<(int, TransferHandshake)> {
    if s.len() >= 16 && s.take(4) == htxf() {
        Some(
            (
                16,
                TransferHandshake {
                    reference: ReferenceNumber(i32_at(s, 4)),
                    size: Some(DataSize(i32_at(s, 8))),
                    padding: [s[12], s[13], s[14], s[15]],
                },
            ),
        )
    } else {
        None
    }
}

impl TransferHandshake {
    /// Whether the client means to send a file.
    pub fn is_upload(&self) -> (r: bool)
        ensures
            r == self.size is Some,
    {
        self.size.is_some()
    }

    pub fn into_bytes(self) -> (r: Vec<u8>)
        ensures
            r@ == transfer_handshake_bytes(self),
    {
        let mut out: Vec<u8> = vec![0x48u8, 0x54u8, 0x58u8, 0x46u8];
        push_i32(&mut out, self.reference.0);
        if let Some(d) = self.size {
            push_i32(&mut out, d.0);
        }
        let p = self.padding;
        out.push(p[0]);
        out.push(p[1]);
        out.push(p[2]);
        out.push(p[3]);
        assert(out@ =~= transfer_handshake_bytes(self));
        out
    }

    /// Reads a handshake at the start of `bytes`, returning the rest.
    pub fn from_bytes(bytes: &[u8]) -> (r: Option<(&[u8], Self)>)
        ensures
            match parse_transfer_handshake(bytes@) {
                Some((k, h)) => r matches Some((rest, h2)) && h2 == h && rest@ == bytes@.subrange(
                    k,
                    bytes@.len() as int,
                ),
                None => r is None,
            },
    {
        if bytes.len() < 16 || !starts_with(bytes, &[0x48u8, 0x54u8, 0x58u8, 0x46u8]) {
            return None;
        }
        let h = TransferHandshake {
            reference: ReferenceNumber(read_i32(bytes, 4)),
            size: Some(DataSize(read_i32(bytes, 8))),
            padding: [bytes[12], bytes[13], bytes[14], bytes[15]],
        };
        Some((&bytes[16..bytes.len()], h))
    }
}

/// A transfer handshake with a size written out reads back the same.
pub proof fn lemma_transfer_handshake_roundtrip(h: TransferHandshake, rest: Seq<u8>)
    requires
        h.size is Some,
    ensures
        parse_transfer_handshake(transfer_handshake_bytes(h) + rest) matches Some((k, h2)) && k == 16
            && h2.reference == h.reference && h2.size == h.size && h2.padding@ == h.padding@,
{
    let d = h.size->0;
    let s = transfer_handshake_bytes(h) + rest;
    super::codec::lemma_i32_roundtrip(h.reference.0, i32_bytes(d.0) + h.padding@ + rest);
    super::codec::lemma_i32_roundtrip(d.0, h.padding@ + rest);
    assert(s.take(4) =~= htxf());
    assert(s.skip(4) =~= i32_bytes(h.reference.0) + (i32_bytes(d.0) + h.padding@ + rest));
    assert(s.skip(8) =~= i32_bytes(d.0) + (h.padding@ + rest));
    assert(i32_at(s, 4) == i32_at(s.skip(4), 0));
    assert(i32_at(s, 8) == i32_at(s.skip(8), 0));
    let p = h.padding;
    assert(s[12] == p[0] && s[13] == p[1] && s[14] == p[2] && s[15] == p[3]);
    assert([s[12], s[13], s[14], s[15]]@ =~= p@);
}

} // verus!
