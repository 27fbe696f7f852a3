use neolith::protocol::date::DateParameter;
use neolith::protocol::fork::{
    CompressionType, DataSource, FileFlags, FlattenedFileObject, ForkHeader, ForkType, InfoFork,
    PlatformFlags, PlatformType,
};
use neolith::protocol::handshake::{ProtocolId, SubVersion, Version};
use neolith::protocol::messages::{
    FlattenedFileHeader, ForkCount, LoginRequest, NameScript, SetClientUserInfo,
};
use neolith::protocol::parameters::{
    Creator, FileCreatedAt, FileModifiedAt, FileType, IconId, Nickname, Password, ReferenceNumber,
    UserLogin,
};
use neolith::protocol::{
    ClientHandshakeRequest, DataSize, ErrorCode, FieldId, ProtocolError, ServerHandshakeReply,
    SubProtocolId, TransactionField, TransactionHeader, TransactionType, TransferHandshake,
};
use neolith::protocol::transaction::{Parameter, TransactionFrame};

const CLIENT_HANDSHAKE: &[u8] = &[
    0x54, 0x52, 0x54, 0x50, 0x48, 0x4f, 0x54, 0x4c, 0x00, 0x01, 0x00, 0x02,
];

const SERVER_HANDSHAKE: &[u8] = &[0x54, 0x52, 0x54, 0x50, 0x00, 0x00, 0x00, 0x00];

const AUTHENTICATED_LOGIN: &[u8] = &[
    0x00, 0x00, 0x00, 0x6b, 0x00, 0x00, 0x00, 0x01, 0x00, 0x00, 0x00, 0x00, 0x00, 0x00, 0x00, 0x28,
    0x00, 0x00, 0x00, 0x28, 0x00, 0x04, 0x00, 0x69, 0x00, 0x07, 0x95, 0x86, 0x9a, 0x93, 0x93, 0x90,
    0x85, 0x00, 0x6a, 0x00, 0x06, 0xce, 0xcd, 0xcc, 0xcb, 0xca, 0xc9, 0x00, 0x66, 0x00, 0x07, 0x6a,
    0x79, 0x65, 0x6c, 0x6c, 0x6f, 0x7a, 0x00, 0x68, 0x00, 0x02, 0x00, 0x91,
];

#[test]
fn parse_client_handshake() {
    ClientHandshakeRequest::try_from(CLIENT_HANDSHAKE).expect("could not parse client handshake");
}

#[test]
fn parse_server_handshake() {
    let handshake =
        ServerHandshakeReply::try_from(SERVER_HANDSHAKE).expect("could not parse server handshake");
    assert_eq!(handshake.error_code, ErrorCode(0));
}

#[test]
fn parse_authenticated_login() {
    let (tail, frame) =
        TransactionFrame::from_bytes(AUTHENTICATED_LOGIN).expect("could not parse valid login packet");
    assert!(tail.is_empty());
    let login = LoginRequest::try_from(frame).expect("could not view transaction as login request");
    assert_eq!(
        login,
        LoginRequest {
            login: Some(UserLogin::from_cleartext(b"jyelloz")),
            nickname: Some(Nickname::new(b"jyelloz".to_vec())),
            password: Some(Password::from_cleartext(b"123456")),
            icon_id: Some(IconId(145)),
        },
    );
}

#[test]
fn client_handshake_fields_and_roundtrip() {
    let h = ClientHandshakeRequest::try_from(CLIENT_HANDSHAKE).unwrap();
    assert_eq!(h.sub_protocol_id, SubProtocolId(0x484f_544c));
    assert_eq!(h.version, Version(1));
    assert_eq!(h.sub_version, SubVersion(2));
    assert_eq!(h.into_bytes(), CLIENT_HANDSHAKE.to_vec());
    let _ = ProtocolId(0);
}

#[test]
fn client_handshake_needs_exactly_its_bytes() {
    assert!(ClientHandshakeRequest::try_from(&CLIENT_HANDSHAKE[..11]).is_none());
    let mut longer = CLIENT_HANDSHAKE.to_vec();
    longer.push(0);
    assert!(ClientHandshakeRequest::try_from(longer.as_slice()).is_none());
    let mut wrong = CLIENT_HANDSHAKE.to_vec();
    wrong[0] = b'X';
    assert!(ClientHandshakeRequest::try_from(wrong.as_slice()).is_none());
    let (rest, _) = ClientHandshakeRequest::from_bytes(longer.as_slice()).unwrap();
    assert_eq!(rest, &[0u8][..]);
}

#[test]
fn server_handshake_ok_roundtrip() {
    let ok = ServerHandshakeReply::ok();
    assert_eq!(ok.into_bytes(), SERVER_HANDSHAKE.to_vec());
    let refused = ServerHandshakeReply { error_code: ErrorCode(-2) };
    let bytes = refused.into_bytes();
    assert_eq!(bytes, vec![0x54, 0x52, 0x54, 0x50, 0xff, 0xff, 0xff, 0xfe]);
    assert_eq!(ServerHandshakeReply::try_from(bytes.as_slice()).unwrap().error_code, ErrorCode(-2));
}

#[test]
fn transfer_handshake_roundtrip_and_direction() {
    let h = TransferHandshake {
        reference: ReferenceNumber(0x0102_0304),
        size: Some(DataSize(5)),
        padding: [0, 0, 0, 0],
    };
    let bytes = h.into_bytes();
    assert_eq!(
        bytes,
        vec![0x48, 0x54, 0x58, 0x46, 1, 2, 3, 4, 0, 0, 0, 5, 0, 0, 0, 0]
    );
    let (rest, back) = TransferHandshake::from_bytes(bytes.as_slice()).unwrap();
    assert!(rest.is_empty());
    assert_eq!(back.reference, ReferenceNumber(0x0102_0304));
    assert!(back.is_upload());
    let download = TransferHandshake { reference: ReferenceNumber(1), size: None, padding: [0; 4] };
    assert!(!download.is_upload());
    assert_eq!(download.into_bytes().len(), 12);
}

#[test]
fn transaction_frame_roundtrip() {
    let (_, frame) = TransactionFrame::from_bytes(AUTHENTICATED_LOGIN).unwrap();
    let again = frame.into_bytes();
    assert_eq!(again, AUTHENTICATED_LOGIN.to_vec());
}

#[test]
fn transaction_frame_sizes_are_computed() {
    let p = Parameter::new_i16(FieldId::from_field(TransactionField::UserIconId), 7);
    let frame = TransactionFrame::with_parameters(TransactionType::SetClientUserInfo, vec![p]);
    let bytes = frame.into_bytes();
    // header of 20 bytes, then the count, then one parameter of 6 bytes
    assert_eq!(bytes.len(), 20 + 2 + 6);
    assert_eq!(&bytes[12..20], &[0, 0, 0, 8, 0, 0, 0, 8]);
    let (rest, back) = TransactionFrame::from_bytes(bytes.as_slice()).unwrap();
    assert!(rest.is_empty());
    assert_eq!(back.body.parameter_count, 1);
    assert_eq!(back.body.parameters[0].field_data, vec![0, 7]);
}

#[test]
fn truncated_frame_is_refused() {
    assert!(TransactionFrame::from_bytes(&AUTHENTICATED_LOGIN[..10]).is_err());
    assert!(TransactionFrame::from_bytes(&AUTHENTICATED_LOGIN[..30]).is_err());
}

#[test]
fn header_reply_keeps_request_id() {
    let (_, frame) = TransactionFrame::from_bytes(AUTHENTICATED_LOGIN).unwrap();
    let request = frame.header;
    let reply = TransactionHeader::from_type(TransactionType::Login).reply_to(&request);
    assert_eq!(reply.id, request.id);
    assert_eq!(reply.type_.0, 0);
    assert_eq!(reply.is_reply.0, 1);
}

#[test]
fn set_client_user_info_needs_both_fields() {
    let name = Parameter::of_field(TransactionField::UserName, b"bob".to_vec());
    let frame = TransactionFrame::with_parameters(TransactionType::SetClientUserInfo, vec![name.clone()]);
    match SetClientUserInfo::try_from(frame) {
        Err(ProtocolError::MissingField(TransactionField::UserIconId)) => {}
        other => panic!("unexpected {other:?}"),
    }
    let icon = Parameter::new_i16(FieldId::from_field(TransactionField::UserIconId), 3);
    let frame = TransactionFrame::with_parameters(TransactionType::SetClientUserInfo, vec![name, icon]);
    let info = SetClientUserInfo::try_from(frame).unwrap();
    assert_eq!(info.username.0, b"bob".to_vec());
    assert_eq!(info.icon_id, IconId(3));
}

#[test]
fn error_text_is_mac_roman() {
    let p = Parameter::new_error("café");
    assert_eq!(p.field_data, vec![0x63, 0x61, 0x66, 0x8e]);
    assert_eq!(p.field_id.0, TransactionField::ErrorText.to_i16());
}

#[test]
fn date_bytes_roundtrip() {
    let d = DateParameter { year: 2019, milliseconds: 0, seconds: 100 };
    let bytes = d.to_bytes();
    assert_eq!(bytes, vec![0x07, 0xe3, 0, 0, 0, 0, 0, 100]);
    assert_eq!(DateParameter::from_data(bytes.as_slice()), Some(d));
    assert_eq!(DateParameter::from_data(&bytes[..7]), None);
}

#[test]
fn dates_from_unix_seconds() {
    assert_eq!(
        DateParameter::from_unix_seconds(0),
        DateParameter { year: 1970, milliseconds: 0, seconds: 0 }
    );
    assert_eq!(
        DateParameter::from_unix_seconds(1_546_300_800),
        DateParameter { year: 2019, milliseconds: 0, seconds: 0 }
    );
    assert_eq!(
        DateParameter::from_unix_seconds(1_546_300_900),
        DateParameter { year: 2019, milliseconds: 0, seconds: 100 }
    );
    // 2020-03-01 00:00:00 UTC: 31 + 29 days into a leap year
    assert_eq!(
        DateParameter::from_unix_seconds(1_583_020_800),
        DateParameter { year: 2020, milliseconds: 0, seconds: 60 * 86_400 }
    );
}

#[test]
fn dates_beyond_the_calendar_fail() {
    match DateParameter::try_from_unix_seconds(i64::MAX as u64) {
        Err(ProtocolError::SystemError) => {}
        other => panic!("unexpected {other:?}"),
    }
    assert_eq!(DateParameter::from_unix_seconds(i64::MAX as u64), DateParameter::default());
}

#[test]
fn date_in_year_arithmetic() {
    let d = DateParameter::in_year(1_000, 1970, 400);
    assert_eq!(d, DateParameter { year: 1970, milliseconds: 0, seconds: 600 });
}

#[test]
fn flattened_header_roundtrip() {
    let h = FlattenedFileHeader(ForkCount(3));
    let bytes = h.into_bytes();
    assert_eq!(&bytes[..6], &[0x46, 0x49, 0x4c, 0x50, 0, 1]);
    assert_eq!(bytes.len(), 24);
    let (rest, back) = FlattenedFileHeader::from_bytes(bytes.as_slice()).unwrap();
    assert!(rest.is_empty());
    assert_eq!(back, h);
}

#[test]
fn fork_header_roundtrip() {
    let h = ForkHeader {
        fork_type: ForkType::Resource,
        compression_type: CompressionType::Uncompressed,
        padding: [0; 4],
        data_size: DataSize(300),
    };
    let bytes = h.to_bytes();
    assert_eq!(bytes, vec![0x4d, 0x41, 0x43, 0x52, 0, 0, 0, 0, 0, 0, 0, 0, 0, 0, 1, 44]);
    let (rest, back) = ForkHeader::from_bytes(bytes.as_slice()).unwrap();
    assert!(rest.is_empty());
    assert!(matches!(back.fork_type, ForkType::Resource));
    assert_eq!(back.data_size.0, 300);
    let odd = [b'X', b'Y', b'Z', b'W', 7, 0, 0, 0, 1, 2, 3, 4, 0, 0, 0, 1];
    let (_, o) = ForkHeader::from_bytes(&odd).unwrap();
    assert!(matches!(o.fork_type, ForkType::Other(t) if t == *b"XYZW"));
    assert!(matches!(o.compression_type, CompressionType::Other(7)));
    assert_eq!(o.padding, [1, 2, 3, 4]);
    assert!(ForkHeader::from_bytes(&odd[..15]).is_none());
}

fn sample_info() -> InfoFork {
    InfoFork {
        platform: PlatformType::AppleMac,
        type_code: FileType(*b"TEXT"),
        creator_code: Creator(*b"ttxt"),
        flags: FileFlags(0),
        platform_flags: PlatformFlags(0),
        padding: [0; 4],
        created_at: FileCreatedAt(DateParameter { year: 2001, milliseconds: 0, seconds: 5 }),
        modified_at: FileModifiedAt(DateParameter { year: 2002, milliseconds: 0, seconds: 6 }),
        name_script: NameScript(0),
        name_len: 3,
        file_name: b"a.b".to_vec(),
        comment_len: 2,
        comment: b"hi".to_vec(),
    }
}

#[test]
fn info_fork_roundtrip_and_size() {
    let info = sample_info();
    let bytes = info.to_bytes();
    assert_eq!(bytes.len(), 46 + 3 + 2);
    assert_eq!(&bytes[..4], b"AMAC");
    assert_eq!(info.size(), 74 + 3 + 2);
    let mut more = bytes.clone();
    more.extend_from_slice(b"rest");
    let (rest, back) = InfoFork::from_bytes(more.as_slice()).unwrap();
    assert_eq!(rest, b"rest");
    assert_eq!(back.file_name, b"a.b".to_vec());
    assert_eq!(back.comment, b"hi".to_vec());
    assert_eq!(back.created_at, info.created_at);
    assert_eq!(back.to_bytes(), bytes);
    assert!(InfoFork::from_bytes(&bytes[..bytes.len() - 1]).is_none());
}

#[test]
fn flattened_file_forks() {
    let data = DataSource { len: 10, source: "data" };
    let rsrc = DataSource { len: 4, source: "rsrc" };
    let mut file = FlattenedFileObject::with_forks(sample_info(), data, rsrc);
    assert_eq!(file.header(), FlattenedFileHeader(ForkCount(3)));
    assert_eq!(file.fork_len(ForkType::Data), Some(10));
    let (h, s) = file.take_fork(ForkType::Resource).unwrap();
    assert!(matches!(h.fork_type, ForkType::Resource));
    assert_eq!(h.data_size.0, 4);
    assert_eq!(s.source, "rsrc");
    assert!(file.take_fork(ForkType::Resource).is_none());
    assert_eq!(file.header(), FlattenedFileHeader(ForkCount(2)));
    let (info_header, info) = file.info();
    assert!(matches!(info_header.fork_type, ForkType::Info));
    assert_eq!(info_header.data_size.0, 79);
    assert_eq!(info.file_name, b"a.b".to_vec());
    let only = FlattenedFileObject::with_data(sample_info(), DataSource { len: 1, source: () });
    assert_eq!(only.header(), FlattenedFileHeader(ForkCount(2)));
    assert_eq!(only.fork_len(ForkType::Resource), None);
}

#[test]
fn login_request_body_reads_back() {
    let (_, frame) = TransactionFrame::from_bytes(AUTHENTICATED_LOGIN).unwrap();
    let header = frame.header.clone();
    let request = || LoginRequest {
        login: Some(UserLogin::from_cleartext(b"guest")),
        nickname: None,
        password: Some(Password::from_cleartext(b"pw")),
        icon_id: Some(IconId(-3)),
    };
    let rebuilt = TransactionFrame::new(header, request().into_body());
    assert_eq!(LoginRequest::try_from(rebuilt).unwrap(), request());
}

#[test]
fn negative_body_size_is_refused() {
    let (_, frame) = TransactionFrame::from_bytes(AUTHENTICATED_LOGIN).unwrap();
    let mut header = frame.header;
    assert_eq!(header.checked_body_len(), Some(header.data_size.0 as usize));
    header.data_size = DataSize(-1);
    assert_eq!(header.checked_body_len(), None);
    header.data_size = DataSize(0);
    assert_eq!(header.checked_body_len(), Some(0));
}
