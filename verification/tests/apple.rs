use neolith::apple::{
    appledouble_companion,
    AppleSingleDoubleMagic, AppleSingleHeader, Creator, EntryDescriptor, EntryId, FinderFlags,
    FinderInfo, Folder, FourCC, FileType, MagicError, Point,
};

#[test]
fn test_write_appledouble() {
    let start = AppleSingleHeader::calculate_size(2);
    let rsrc = [0u8; 128];
    let finf_descriptor = EntryDescriptor {
        id: EntryId::FinderInfo.to_u32(),
        offset: start,
        length: FinderInfo::calculate_size() as u32,
    };
    let rsrc_descriptor = EntryDescriptor {
        id: EntryId::ResourceFork.to_u32(),
        offset: finf_descriptor.next_offset(),
        length: rsrc.len() as u32,
    };
    let entries = vec![finf_descriptor, rsrc_descriptor];
    let hdr = AppleSingleHeader::new_double(entries);
    println!("{hdr:?}");

    let _finf = FinderInfo {
        file_type: FileType(FourCC(*b"APPL")),
        creator: Creator(FourCC(*b"ttxt")),
        flags: FinderFlags::default(),
        location: Point::default(),
        folder: Folder::default(),
    };
}

#[test]
fn test_applesingle_magic() {
    let magic = [0x00, 0x05, 0x16, 0x00];
    let parsed = AppleSingleDoubleMagic::try_from(magic.as_slice());
    println!("parsed magic as {parsed:?}");
    assert_eq!(parsed, Ok(AppleSingleDoubleMagic::Single));
}

#[test]
fn test_appledouble_magic() {
    let magic = [0x00, 0x05, 0x16, 0x07];
    let parsed = AppleSingleDoubleMagic::try_from(magic.as_slice());
    println!("parsed magic as {parsed:?}");
    assert_eq!(parsed, Ok(AppleSingleDoubleMagic::Double));
}

#[test]
fn test_appledouble_magic_invalid() {
    let magic = [0u8; 4];
    let parsed = AppleSingleDoubleMagic::try_from(magic.as_slice());
    assert!(parsed.is_err())
}

#[test]
fn magic_errors() {
    assert_eq!(AppleSingleDoubleMagic::try_from(&[0u8, 5, 0x16][..]), Err(MagicError::Incomplete));
    assert_eq!(AppleSingleDoubleMagic::try_from(&[0u8, 0, 0, 1][..]), Err(MagicError::Unknown(1)));
    assert_eq!(AppleSingleDoubleMagic::try_from(&[0u8, 5, 0x16, 0, 0][..]), Err(MagicError::TooMuchData));
}

#[test]
fn double_header_lays_entries_out() {
    let finf = EntryDescriptor { id: EntryId::FinderInfo.to_u32(), offset: 0, length: 32 };
    let rsrc = EntryDescriptor { id: EntryId::ResourceFork.to_u32(), offset: 0, length: 128 };
    let hdr = AppleSingleHeader::new_double(vec![finf, rsrc]);
    assert_eq!(hdr.n_descriptors, 2);
    assert_eq!(hdr.descriptors[0].offset, 50);
    assert_eq!(hdr.descriptors[1].offset, 82);
    assert_eq!(hdr.finder_info().unwrap().length, 32);
    assert_eq!(hdr.resource_fork().unwrap().offset, 82);
    assert!(hdr.data_fork().is_none());
}

#[test]
fn header_bytes_roundtrip() {
    let data = EntryDescriptor { id: EntryId::DataFork.to_u32(), offset: 0, length: 7 };
    let hdr = AppleSingleHeader::new_single(vec![data]);
    let bytes = hdr.to_bytes();
    assert_eq!(bytes.len(), 26 + 12);
    assert_eq!(&bytes[..8], &[0, 5, 0x16, 0, 0, 2, 0, 0]);
    assert_eq!(&bytes[24..26], &[0, 1]);
    let mut file = bytes.clone();
    file.extend_from_slice(b"payload");
    let (rest, back) = AppleSingleHeader::from_bytes(file.as_slice()).unwrap();
    assert_eq!(rest, b"payload");
    assert_eq!(back.data_fork().unwrap(), EntryDescriptor { id: 1, offset: 38, length: 7 });
    assert!(AppleSingleHeader::from_bytes(&bytes[..30]).is_none());
}

#[test]
fn entry_ids_are_numbered() {
    assert_eq!(EntryId::DataFork.to_u32(), 1);
    assert_eq!(EntryId::FileDatesInfo.to_u32(), 8);
    assert_eq!(EntryId::try_from(9), Ok(EntryId::FinderInfo));
    assert_eq!(EntryId::try_from(7), Err(7));
    let d = EntryDescriptor { id: 2, offset: 10, length: 5 };
    assert_eq!(d.next_offset(), 15);
    assert_eq!(d.entry_id(), Some(EntryId::ResourceFork));
    assert!(d.rsrc().is_some());
    assert!(d.finf().is_none());
}

#[test]
fn companion_holds_only_what_arrived() {
    let bytes = appledouble_companion(b"TEXT", b"ttxt", b"", None).unwrap();
    let (_, header) = AppleSingleHeader::from_bytes(&bytes).unwrap();
    assert_eq!(header.magic, AppleSingleDoubleMagic::Double);
    assert_eq!(header.descriptors.len(), 1);
    assert!(header.resource_fork().is_none());
    let finf = header.finder_info().unwrap();
    assert_eq!(finf.offset, 38);
    assert_eq!(&bytes[38..46], b"TEXTttxt");
    assert_eq!(bytes.len(), 38 + 32);

    let bytes = appledouble_companion(b"TEXT", b"ttxt", b"note", Some(b"rsrc!")).unwrap();
    let (_, header) = AppleSingleHeader::from_bytes(&bytes).unwrap();
    assert_eq!(header.descriptors.len(), 3);
    let rsrc = header.resource_fork().unwrap();
    assert_eq!(rsrc.offset, 26 + 36 + 32 + 4);
    assert_eq!(&bytes[rsrc.offset as usize..], b"rsrc!");
}
