//! AppleSingle and AppleDouble headers: the table of entries that says where
//! each part of a file (data, resource fork, Finder information) lies.

use vstd::prelude::*;

use crate::protocol::codec::{push_bytes, push_u16, push_u32, read_u16, read_u32, u16_at, u16_bytes, u32_at, u32_bytes};

verus! {

/// Entry kinds of an AppleSingle or AppleDouble header.
#[derive(Debug, Copy, Clone, PartialEq, Eq, Structural, PartialOrd, Ord, Hash)]
pub enum EntryId {
    DataFork,
    ResourceFork,
    RealName,
    Comment,
    IconBW,
    IconColor,
    FileDatesInfo,
    FinderInfo,
    MacintoshFileInfo,
    ProDOSFileInfo,
    MSDOSFileInfo,
    ShortName,
    AFPFileInfo,
    DirectoryID,
}

impl EntryId {
    /// The number that stands for this value on the wire.
    pub open spec fn code(self) -> u32 {
        match self {
            EntryId::DataFork => 1,
            EntryId::ResourceFork => 2,
            EntryId::RealName => 3,
            EntryId::Comment => 4,
            EntryId::IconBW => 5,
            EntryId::IconColor => 6,
            EntryId::FileDatesInfo => 8,
            EntryId::FinderInfo => 9,
            EntryId::MacintoshFileInfo => 10,
            EntryId::ProDOSFileInfo => 11,
            EntryId::MSDOSFileInfo => 12,
            EntryId::ShortName => 13,
            EntryId::AFPFileInfo => 14,
            EntryId::DirectoryID => 15,
        }
    }

    /// The value that a number on the wire stands for, if any.
    pub open spec fn from_code(v: u32) -> Option<EntryId> {
        if v == 1 {
            Some(EntryId::DataFork)
        } else if v == 2 {
            Some(EntryId::ResourceFork)
        } else if v == 3 {
            Some(EntryId::RealName)
        } else if v == 4 {
            Some(EntryId::Comment)
        } else if v == 5 {
            Some(EntryId::IconBW)
        } else if v == 6 {
            Some(EntryId::IconColor)
        } else if v == 8 {
            Some(EntryId::FileDatesInfo)
        } else if v == 9 {
            Some(EntryId::FinderInfo)
        } else if v == 10 {
            Some(EntryId::MacintoshFileInfo)
        } else if v == 11 {
            Some(EntryId::ProDOSFileInfo)
        } else if v == 12 {
            Some(EntryId::MSDOSFileInfo)
        } else if v == 13 {
            Some(EntryId::ShortName)
        } else if v == 14 {
            Some(EntryId::AFPFileInfo)
        } else if v == 15 {
            Some(EntryId::DirectoryID)
        } else {
            None
        }
    }

    pub fn to_u32(self) -> (r: u32)
        ensures
            r == self.code(),
    {
        match self {
            EntryId::DataFork => 1,
            EntryId::ResourceFork => 2,
            EntryId::RealName => 3,
            EntryId::Comment => 4,
            EntryId::IconBW => 5,
            EntryId::IconColor => 6,
            EntryId::FileDatesInfo => 8,
            EntryId::FinderInfo => 9,
            EntryId::MacintoshFileInfo => 10,
            EntryId::ProDOSFileInfo => 11,
            EntryId::MSDOSFileInfo => 12,
            EntryId::ShortName => 13,
            EntryId::AFPFileInfo => 14,
            EntryId::DirectoryID => 15,
        }
    }

    /// The value for the number `v`, or `v` itself when no value has it.
    pub fn try_from(v: u32) -> (r: Result<EntryId, u32>)
        ensures
            r == (match EntryId::from_code(v) {
                Some(t) => Ok::<EntryId, u32>(t),
                None => Err(v),
            }),
    {
        if v == 1 {
            Ok(EntryId::DataFork)
        } else if v == 2 {
            Ok(EntryId::ResourceFork)
        } else if v == 3 {
            Ok(EntryId::RealName)
        } else if v == 4 {
            Ok(EntryId::Comment)
        } else if v == 5 {
            Ok(EntryId::IconBW)
        } else if v == 6 {
            Ok(EntryId::IconColor)
        } else if v == 8 {
            Ok(EntryId::FileDatesInfo)
        } else if v == 9 {
            Ok(EntryId::FinderInfo)
        } else if v == 10 {
            Ok(EntryId::MacintoshFileInfo)
        } else if v == 11 {
            Ok(EntryId::ProDOSFileInfo)
        } else if v == 12 {
            Ok(EntryId::MSDOSFileInfo)
        } else if v == 13 {
            Ok(EntryId::ShortName)
        } else if v == 14 {
            Ok(EntryId::AFPFileInfo)
        } else if v == 15 {
            Ok(EntryId::DirectoryID)
        } else {
            Err(v)
        }
    }

    /// Every value is found again from its number.
    pub proof fn lemma_code_roundtrip(self)
        ensures
            EntryId::from_code(self.code()) == Some(self),
    {
    }

    /// A number is only ever found to stand for a value that has that number.
    pub proof fn lemma_from_code_sound(v: u32)
        ensures
            EntryId::from_code(v) matches Some(t) ==> t.code() == v,
    {
    }
}


/// Where an entry lies in an AppleSingle or AppleDouble file.
#[derive(Debug, Copy, Clone, PartialEq, Eq, Structural)]
pub struct EntryDescriptor {
    pub id: u32,
    pub offset: u32,
    pub length: u32,
}

/// An entry descriptor on the wire.
pub open spec fn descriptor_bytes(d: EntryDescriptor) -> Seq<u8> {
    u32_bytes(d.id) + u32_bytes(d.offset) + u32_bytes(d.length)
}

/// The entry descriptor at `i` in `s`.
pub open spec fn descriptor_at(s: Seq<u8>, i: int) -> EntryDescriptor {
    EntryDescriptor { id: u32_at(s, i), offset: u32_at(s, i + 4), length: u32_at(s, i + 8) }
}

impl EntryDescriptor {
    /// Where the next entry starts.
    pub fn next_offset(&self) -> (r: u32)
        requires
            self.offset + self.length <= u32::MAX,
        ensures
            r == self.offset + self.length,
    {
        self.offset + self.length
    }

    /// The kind of the entry, if its id is a known one.
    pub fn entry_id(&self) -> (r: Option<EntryId>)
        ensures
            r == EntryId::from_code(self.id),
    {
        match EntryId::try_from(self.id) {
            Ok(id) => Some(id),
            Err(_) => None,
        }
    }

    /// The descriptor, if it is of the Finder information.
    pub fn finf(self) -> (r: Option<Self>)
        ensures
            r == (if EntryId::from_code(self.id) == Some(EntryId::FinderInfo) {
                Some(self)
            } else {
                None
            }),
    {
        match self.entry_id() {
            Some(EntryId::FinderInfo) => Some(self),
            _ => None,
        }
    }

    /// The descriptor, if it is of the resource fork.
    pub fn rsrc(self) -> (r: Option<Self>)
        ensures
            r == (if EntryId::from_code(self.id) == Some(EntryId::ResourceFork) {
                Some(self)
            } else {
                None
            }),
    {
        match self.entry_id() {
            Some(EntryId::ResourceFork) => Some(self),
            _ => None,
        }
    }

    /// The size of a descriptor on the wire.
    pub fn calculate_size() -> (r: usize)
        ensures
            r == 12,
    {
        12
    }

    pub fn to_bytes(&self, out: &mut Vec<u8>)
        ensures
            final(out)@ == old(out)@ + descriptor_bytes(*self),
    {
        push_u32(out, self.id);
        push_u32(out, self.offset);
        push_u32(out, self.length);
        assert(out@ =~= old(out)@ + descriptor_bytes(*self));
    }

    /// The descriptor at `at` in `bytes`.
    pub fn read_at(bytes: &[u8], at: usize) -> (r: Self)
        requires
            at + 12 <= bytes@.len(),
        ensures
            r == descriptor_at(bytes@, at as int),
    {
        let n = bytes.len();
        assert(at + 12 <= n);
        EntryDescriptor { id: read_u32(bytes, at), offset: read_u32(bytes, at + 4), length: read_u32(bytes, at + 8) }
    }
}

/// Which of the two formats a file is in.
#[derive(Debug, Clone, Copy, PartialEq, Eq, Structural)]
pub enum AppleSingleDoubleMagic {
    Single,
    Double,
}

/// The magic number of a format.
pub open spec fn magic_code(m: AppleSingleDoubleMagic) -> u32 {
    match m {
        AppleSingleDoubleMagic::Single => 0x0005_1600,
        AppleSingleDoubleMagic::Double => 0x0005_1607,
    }
}

/// Why a magic number could not be read.
#[derive(Debug, Clone, Copy, PartialEq, Eq, Structural)]
pub enum MagicError {
    /// Fewer than four bytes.
    Incomplete,
    /// A number that is neither format's.
    Unknown(u32),
    /// Bytes left over after the number.
    TooMuchData,
}

/// What reading a magic number from exactly the bytes `s` gives.
pub open spec fn parse_magic(s: Seq<u8>) -> Result<AppleSingleDoubleMagic, MagicError> {
    if s.len() < 4 {
        Err(MagicError::Incomplete)
    } else if u32_at(s, 0) == 0x0005_1600 {
        if s.len() == 4 {
            Ok(AppleSingleDoubleMagic::Single)
        } else {
            Err(MagicError::TooMuchData)
        }
    } else if u32_at(s, 0) == 0x0005_1607 {
        if s.len() == 4 {
            Ok(AppleSingleDoubleMagic::Double)
        } else {
            Err(MagicError::TooMuchData)
        }
    } else {
        Err(MagicError::Unknown(u32_at(s, 0)))
    }
}

impl AppleSingleDoubleMagic {
    pub fn code(self) -> (r: u32)
        ensures
            r == magic_code(self),
    {
        match self {
            AppleSingleDoubleMagic::Single => 0x0005_1600,
            AppleSingleDoubleMagic::Double => 0x0005_1607,
        }
    }

    /// The format whose magic number is at the start of `bytes`, when there
    /// is one.
    pub fn read_at(bytes: &[u8], at: usize) -> (r: Result<Self, MagicError>)
        requires
            at + 4 <= bytes@.len(),
        ensures
            r == (if u32_at(bytes@, at as int) == 0x0005_1600 {
                Ok::<Self, MagicError>(AppleSingleDoubleMagic::Single)
            } else if u32_at(bytes@, at as int) == 0x0005_1607 {
                Ok(AppleSingleDoubleMagic::Double)
            } else {
                Err(MagicError::Unknown(u32_at(bytes@, at as int)))
            }),
    {
        let v = read_u32(bytes, at);
        if v == 0x0005_1600 {
            Ok(AppleSingleDoubleMagic::Single)
        } else if v == 0x0005_1607 {
            Ok(AppleSingleDoubleMagic::Double)
        } else {
            Err(MagicError::Unknown(v))
        }
    }

    /// Reads a magic number that is all of `bytes`.
    pub fn try_from(bytes: &[u8]) -> (r: Result<Self, MagicError>)
        ensures
            r == parse_magic(bytes@),
    {
        if bytes.len() < 4 {
            return Err(MagicError::Incomplete);
        }
        let m = Self::read_at(bytes, 0)?;
        if bytes.len() != 4 {
            return Err(MagicError::TooMuchData);
        }
        Ok(m)
    }
}

impl Default for AppleSingleDoubleMagic {
    fn default() -> (r: Self)
        ensures
            r == AppleSingleDoubleMagic::Single,
    {
        AppleSingleDoubleMagic::Single
    }
}

/// The format version of a file.
#[derive(Debug, Clone, Copy, PartialEq, Eq, Structural)]
pub struct AppleSingleVersion(pub u32);

impl Default for AppleSingleVersion {
    fn default() -> (r: Self)
        ensures
            r.0 == 0x2_0000,
    {
        Self(0x2_0000)
    }
}

/// The start of a header: the format, the version and how many entries
/// follow.
#[derive(Debug, Clone, Copy, PartialEq, Eq, Structural)]
pub struct AppleSingleHeaderStub {
    pub magic: AppleSingleDoubleMagic,
    pub version: AppleSingleVersion,
    pub n_descriptors: u16,
}

impl AppleSingleHeaderStub {
    /// The size of the start of a header on the wire.
    pub fn calculate_size() -> (r: usize)
        ensures
            r == 26,
    {
        26
    }
}

/// A header: the format, the version and the table of entries.
#[derive(Debug, Clone)]
pub struct AppleSingleHeader {
    pub magic: AppleSingleDoubleMagic,
    pub version: AppleSingleVersion,
    pub n_descriptors: u16,
    pub descriptors: Vec<EntryDescriptor>,
}

/// The size of a header with `n` entries.
pub open spec fn header_size(n: int) -> int {
    26 + n * 12
}

/// The entries laid one after the other from `start`, each keeping its id
/// and length.
pub open spec fn laid_out(ds: Seq<EntryDescriptor>, start: int) -> Seq<EntryDescriptor>
    decreases ds.len(),
{
    if ds.len() == 0 {
        Seq::empty()
    } else {
        seq![EntryDescriptor { offset: start as u32, ..ds[0] }] + laid_out(ds.drop_first(), start + ds[0].length)
    }
}

/// The sum of the lengths of the entries.
pub open spec fn total_length(ds: Seq<EntryDescriptor>) -> int
    decreases ds.len(),
{
    if ds.len() == 0 {
        0
    } else {
        ds[0].length + total_length(ds.drop_first())
    }
}

/// The first entry of the kind `id`, if there is one.
pub open spec fn first_entry(ds: Seq<EntryDescriptor>, id: EntryId) -> Option<EntryDescriptor>
    decreases ds.len(),
{
    if ds.len() == 0 {
        None
    } else if EntryId::from_code(ds[0].id) == Some(id) {
        Some(ds[0])
    } else {
        first_entry(ds.drop_first(), id)
    }
}

proof fn lemma_total_length_push(ds: Seq<EntryDescriptor>, d: EntryDescriptor)
    ensures
        total_length(ds.push(d)) == total_length(ds) + d.length,
    decreases ds.len(),
{
    if ds.len() == 0 {
        assert(ds.push(d).drop_first() =~= Seq::<EntryDescriptor>::empty());
        assert(total_length(Seq::<EntryDescriptor>::empty()) == 0);
        assert(total_length(ds.push(d)) == d.length + total_length(ds.push(d).drop_first()));
    } else {
        assert(ds.push(d).drop_first() =~= ds.drop_first().push(d));
        lemma_total_length_push(ds.drop_first(), d);
    }
}

proof fn lemma_laid_out_push(ds: Seq<EntryDescriptor>, d: EntryDescriptor, start: int)
    ensures
        laid_out(ds.push(d), start) == laid_out(ds, start).push(
            EntryDescriptor { offset: (start + total_length(ds)) as u32, ..d },
        ),
    decreases ds.len(),
{
    if ds.len() == 0 {
        assert(ds.push(d).drop_first() =~= Seq::<EntryDescriptor>::empty());
        assert(laid_out(Seq::<EntryDescriptor>::empty(), start + d.length) =~= Seq::<EntryDescriptor>::empty());
        assert(laid_out(ds.push(d), start) =~= seq![EntryDescriptor { offset: start as u32, ..d }]);
    } else {
        assert(ds.push(d).drop_first() =~= ds.drop_first().push(d));
        lemma_laid_out_push(ds.drop_first(), d, start + ds[0].length);
        assert(laid_out(ds.push(d), start) =~= laid_out(ds, start).push(
            EntryDescriptor { offset: (start + total_length(ds)) as u32, ..d },
        ));
    }
}

proof fn lemma_first_entry_push(ds: Seq<EntryDescriptor>, d: EntryDescriptor, id: EntryId)
    ensures
        first_entry(ds.push(d), id) == (match first_entry(ds, id) {
            Some(e) => Some(e),
            None => if EntryId::from_code(d.id) == Some(id) {
                Some(d)
            } else {
                None
            },
        }),
    decreases ds.len(),
{
    if ds.len() == 0 {
        assert(ds.push(d).drop_first() =~= Seq::<EntryDescriptor>::empty());
    } else {
        assert(ds.push(d).drop_first() =~= ds.drop_first().push(d));
        lemma_first_entry_push(ds.drop_first(), d, id);
    }
}

impl AppleSingleHeader {
    /// The size of a header with `n_entries` entries.
    pub fn calculate_size(n_entries: u32) -> (r: u32)
        requires
            header_size(n_entries as int) <= u32::MAX,
        ensures
            r == header_size(n_entries as int),
    {
        26 + (n_entries * 12)
    }

    fn new_with(magic: AppleSingleDoubleMagic, descriptors: Vec<EntryDescriptor>) -> (r: Self)
        requires
            descriptors@.len() <= u16::MAX,
            header_size(descriptors@.len() as int) + total_length(descriptors@) <= u32::MAX,
        ensures
            r.magic == magic,
            r.version.0 == 0x2_0000,
            r.n_descriptors == descriptors@.len(),
            r.descriptors@ == laid_out(descriptors@, header_size(descriptors@.len() as int)),
    {
        let n = descriptors.len() as u16;
        Self { magic, version: AppleSingleVersion::default(), n_descriptors: n, descriptors }.compute_internal_offsets()
    }

    /// An AppleSingle header with these entries, laid one after the other
    /// after the header.
    pub fn new_single(descriptors: Vec<EntryDescriptor>) -> (r: Self)
        requires
            descriptors@.len() <= u16::MAX,
            header_size(descriptors@.len() as int) + total_length(descriptors@) <= u32::MAX,
        ensures
            r.magic == AppleSingleDoubleMagic::Single,
            r.version.0 == 0x2_0000,
            r.n_descriptors == descriptors@.len(),
            r.descriptors@ == laid_out(descriptors@, header_size(descriptors@.len() as int)),
    {
        Self::new_with(AppleSingleDoubleMagic::Single, descriptors)
    }

    /// An AppleDouble header with these entries, laid one after the other
    /// after the header.
    pub fn new_double(descriptors: Vec<EntryDescriptor>) -> (r: Self)
        requires
            descriptors@.len() <= u16::MAX,
            header_size(descriptors@.len() as int) + total_length(descriptors@) <= u32::MAX,
        ensures
            r.magic == AppleSingleDoubleMagic::Double,
            r.version.0 == 0x2_0000,
            r.n_descriptors == descriptors@.len(),
            r.descriptors@ == laid_out(descriptors@, header_size(descriptors@.len() as int)),
    {
        Self::new_with(AppleSingleDoubleMagic::Double, descriptors)
    }

    /// Lays the entries one after the other from the end of the header.
    pub fn compute_internal_offsets(self) -> (r: Self)
        requires
            header_size(self.n_descriptors as int) + total_length(self.descriptors@) <= u32::MAX,
        ensures
            r.magic == self.magic,
            r.version == self.version,
            r.n_descriptors == self.n_descriptors,
            r.descriptors@ == laid_out(self.descriptors@, header_size(self.n_descriptors as int)),
    {
        let ghost start = header_size(self.n_descriptors as int);
        let ghost ds = self.descriptors@;
        let mut offset: u32 = Self::calculate_size(self.n_descriptors as u32);
        let mut out: Vec<EntryDescriptor> = Vec::new();
        let mut i: usize = 0;
        while i < self.descriptors.len()
            invariant
                ds == self.descriptors@,
                start + total_length(ds) <= u32::MAX,
                0 <= i <= ds.len(),
                offset == start + total_length(ds.take(i as int)),
                out@ == laid_out(ds.take(i as int), start),
            decreases ds.len() - i,
        {
            let d = self.descriptors[i];
            proof {
                assert(ds.take(i + 1) =~= ds.take(i as int).push(d));
                lemma_total_length_push(ds.take(i as int), d);
                lemma_laid_out_push(ds.take(i as int), d, start);
                lemma_total_length_prefix(ds, i + 1);
            }
            out.push(EntryDescriptor { id: d.id, offset, length: d.length });
            offset = offset + d.length;
            i = i + 1;
        }
        assert(ds.take(ds.len() as int) =~= ds);
        Self { magic: self.magic, version: self.version, n_descriptors: self.n_descriptors, descriptors: out }
    }

    fn find(&self, id: EntryId) -> (r: Option<EntryDescriptor>)
        ensures
            r == first_entry(self.descriptors@, id),
    {
        let mut i: usize = 0;
        while i < self.descriptors.len()
            invariant
                0 <= i <= self.descriptors@.len(),
                first_entry(self.descriptors@.take(i as int), id) is None,
            decreases self.descriptors@.len() - i,
        {
            let d = self.descriptors[i];
            proof {
                assert(self.descriptors@.take(i + 1) =~= self.descriptors@.take(i as int).push(d));
                lemma_first_entry_push(self.descriptors@.take(i as int), d, id);
            }
            if d.entry_id() == Some(id) {
                proof {
                    lemma_first_entry_prefix(self.descriptors@, i + 1, id);
                }
                return Some(d);
            }
            i = i + 1;
        }
        assert(self.descriptors@.take(i as int) =~= self.descriptors@);
        None
    }

    /// The first entry of the data fork.
    pub fn data_fork(&self) -> (r: Option<EntryDescriptor>)
        ensures
            r == first_entry(self.descriptors@, EntryId::DataFork),
    {
        self.find(EntryId::DataFork)
    }

    /// The first entry of the resource fork.
    pub fn resource_fork(&self) -> (r: Option<EntryDescriptor>)
        ensures
            r == first_entry(self.descriptors@, EntryId::ResourceFork),
    {
        self.find(EntryId::ResourceFork)
    }

    /// The first entry of the Finder information.
    pub fn finder_info(&self) -> (r: Option<EntryDescriptor>)
        ensures
            r == first_entry(self.descriptors@, EntryId::FinderInfo),
    {
        self.find(EntryId::FinderInfo)
    }
}

/// The entries of a table on the wire, one after the other.
pub open spec fn descriptors_bytes(ds: Seq<EntryDescriptor>) -> Seq<u8>
    decreases ds.len(),
{
    if ds.len() == 0 {
        Seq::empty()
    } else {
        descriptors_bytes(ds.drop_last()) + descriptor_bytes(ds.last())
    }
}

/// A header on the wire: the format's number, the version, sixteen zero
/// bytes, the number of entries, and the entries.
pub open spec fn header_bytes(h: AppleSingleHeader) -> Seq<u8> {
    u32_bytes(magic_code(h.magic)) + u32_bytes(h.version.0) + Seq::new(16, |i: int| 0u8) + u16_bytes(
        h.n_descriptors,
    ) + descriptors_bytes(h.descriptors@)
}

/// Whether a header can be read from the start of `s`: a format's number,
/// and as many entries as the count says.
pub open spec fn header_readable(s: Seq<u8>) -> bool {
    &&& s.len() >= 26
    &&& (u32_at(s, 0) == 0x0005_1600 || u32_at(s, 0) == 0x0005_1607)
    &&& s.len() >= header_size(u16_at(s, 24) as int)
}

/// Whether `h` is the header at the start of `s`; the sixteen bytes after
/// the version are passed over.
pub open spec fn reads_header(s: Seq<u8>, h: AppleSingleHeader) -> bool {
    &&& header_readable(s)
    &&& magic_code(h.magic) == u32_at(s, 0)
    &&& h.version.0 == u32_at(s, 4)
    &&& h.n_descriptors == u16_at(s, 24)
    &&& h.descriptors@.len() == h.n_descriptors
    &&& forall|i: int| 0 <= i < h.descriptors@.len() ==> #[trigger] h.descriptors@[i] == descriptor_at(s, 26 + 12 * i)
}

impl AppleSingleHeader {
    pub fn to_bytes(&self) -> (r: Vec<u8>)
        ensures
            r@ == header_bytes(*self),
    {
        let mut out: Vec<u8> = Vec::new();
        push_u32(&mut out, self.magic.code());
        push_u32(&mut out, self.version.0);
        let mut k: usize = 0;
        while k < 16
            invariant
                0 <= k <= 16,
                out@ == u32_bytes(magic_code(self.magic)) + u32_bytes(self.version.0) + Seq::new(
                    k as nat,
                    |i: int| 0u8,
                ),
            decreases 16 - k,
        {
            out.push(0u8);
            k = k + 1;
            assert(out@ =~= u32_bytes(magic_code(self.magic)) + u32_bytes(self.version.0) + Seq::new(
                k as nat,
                |i: int| 0u8,
            ));
        }
        push_u16(&mut out, self.n_descriptors);
        let ghost prefix = out@;
        let mut i: usize = 0;
        while i < self.descriptors.len()
            invariant
                0 <= i <= self.descriptors@.len(),
                out@ == prefix + descriptors_bytes(self.descriptors@.take(i as int)),
            decreases self.descriptors@.len() - i,
        {
            let d = self.descriptors[i];
            d.to_bytes(&mut out);
            proof {
                let t = self.descriptors@.take(i + 1);
                assert(t.drop_last() =~= self.descriptors@.take(i as int));
                assert(t.last() == d);
            }
            i = i + 1;
            assert(out@ =~= prefix + descriptors_bytes(self.descriptors@.take(i as int)));
        }
        assert(self.descriptors@.take(i as int) =~= self.descriptors@);
        out
    }

    /// Reads a header at the start of `bytes`, returning the rest.
    pub fn from_bytes(bytes: &[u8]) -> (r: Option<(&[u8], Self)>)
        ensures
            header_readable(bytes@) ==> (r matches Some((rest, h)) && reads_header(bytes@, h) && rest@
                == bytes@.subrange(header_size(h.n_descriptors as int), bytes@.len() as int)),
            !header_readable(bytes@) ==> r is None,
    {
        let len = bytes.len();
        if len < 26 {
            return None;
        }
        let magic = match AppleSingleDoubleMagic::read_at(bytes, 0) {
            Ok(m) => m,
            Err(_) => {
                return None;
            },
        };
        let version = AppleSingleVersion(read_u32(bytes, 4));
        let n = read_u16(bytes, 24);
        let count = n as usize;
        if (len - 26) / 12 < count {
            return None;
        }
        let mut descriptors: Vec<EntryDescriptor> = Vec::new();
        let mut i: usize = 0;
        while i < count
            invariant
                0 <= i <= count,
                26 + 12 * count <= len,
                len == bytes@.len(),
                descriptors@.len() == i,
                forall|j: int| 0 <= j < i ==> #[trigger] descriptors@[j] == descriptor_at(bytes@, 26 + 12 * j),
            decreases count - i,
        {
            descriptors.push(EntryDescriptor::read_at(bytes, 26 + 12 * i));
            i = i + 1;
        }
        let end = 26 + 12 * count;
        Some((&bytes[end..len], AppleSingleHeader { magic, version, n_descriptors: n, descriptors }))
    }
}

/// The entries of a table written out read back one by one, wherever the
/// table stands, whatever follows it.
proof fn lemma_descriptors_roundtrip(ds: Seq<EntryDescriptor>, pre: Seq<u8>, rest: Seq<u8>)
    ensures
        descriptors_bytes(ds).len() == 12 * ds.len(),
        forall|i: int| 0 <= i < ds.len() ==> #[trigger] descriptor_at(pre + descriptors_bytes(ds) + rest, pre.len() + 12 * i) == ds[i],
    decreases ds.len(),
{
    if ds.len() > 0 {
        let d = ds.last();
        let front = ds.drop_last();
        let s = pre + descriptors_bytes(ds) + rest;
        lemma_descriptors_roundtrip(front, pre, descriptor_bytes(d) + rest);
        assert(s =~= pre + descriptors_bytes(front) + (descriptor_bytes(d) + rest));
        let at: int = (pre.len() + 12 * front.len()) as int;
        crate::protocol::codec::lemma_u32_roundtrip(d.id, u32_bytes(d.offset) + u32_bytes(d.length) + rest);
        crate::protocol::codec::lemma_u32_roundtrip(d.offset, u32_bytes(d.length) + rest);
        crate::protocol::codec::lemma_u32_roundtrip(d.length, rest);
        assert(s.subrange(at, s.len() as int) =~= u32_bytes(d.id) + (u32_bytes(d.offset) + u32_bytes(d.length) + rest));
        assert(s.subrange(at + 4, s.len() as int) =~= u32_bytes(d.offset) + (u32_bytes(d.length) + rest));
        assert(s.subrange(at + 8, s.len() as int) =~= u32_bytes(d.length) + rest);
        assert(u32_at(s, at) == u32_at(s.subrange(at, s.len() as int), 0));
        assert(u32_at(s, at + 4) == u32_at(s.subrange(at + 4, s.len() as int), 0));
        assert(u32_at(s, at + 8) == u32_at(s.subrange(at + 8, s.len() as int), 0));
        assert(descriptor_at(s, at) == d);
        assert forall|i: int| 0 <= i < ds.len() implies #[trigger] descriptor_at(s, pre.len() + 12 * i) == ds[i] by {
            if i < front.len() {
                assert(ds[i] == front[i]);
            }
        }
    }
}

/// A header whose count is its number of entries, written out, reads back
/// as itself.
pub proof fn law_header_roundtrip(h: AppleSingleHeader, rest: Seq<u8>)
    requires
        h.n_descriptors == h.descriptors@.len(),
    ensures
        header_readable(header_bytes(h) + rest),
        reads_header(header_bytes(h) + rest, h),
        header_bytes(h).len() == header_size(h.n_descriptors as int),
{
    let pre = u32_bytes(magic_code(h.magic)) + u32_bytes(h.version.0) + Seq::new(16, |i: int| 0u8) + u16_bytes(
        h.n_descriptors,
    );
    let s = header_bytes(h) + rest;
    lemma_descriptors_roundtrip(h.descriptors@, pre, rest);
    assert(s =~= pre + descriptors_bytes(h.descriptors@) + rest);
    let tail0 = u32_bytes(h.version.0) + Seq::new(16, |i: int| 0u8) + u16_bytes(h.n_descriptors) + descriptors_bytes(h.descriptors@) + rest;
    let tail4 = Seq::new(16, |i: int| 0u8) + u16_bytes(h.n_descriptors) + descriptors_bytes(h.descriptors@) + rest;
    let tail24 = descriptors_bytes(h.descriptors@) + rest;
    crate::protocol::codec::lemma_u32_roundtrip(magic_code(h.magic), tail0);
    crate::protocol::codec::lemma_u32_roundtrip(h.version.0, tail4);
    crate::protocol::codec::lemma_u16_roundtrip(h.n_descriptors, tail24);
    assert(s =~= u32_bytes(magic_code(h.magic)) + tail0);
    assert(s.subrange(4, s.len() as int) =~= u32_bytes(h.version.0) + tail4);
    assert(s.subrange(24, s.len() as int) =~= u16_bytes(h.n_descriptors) + tail24);
    assert(u32_at(s, 4) == u32_at(s.subrange(4, s.len() as int), 0));
    assert(u16_at(s, 24) == u16_at(s.subrange(24, s.len() as int), 0));
    assert forall|i: int| 0 <= i < h.descriptors@.len() implies #[trigger] h.descriptors@[i] == descriptor_at(s, 26 + 12 * i) by {
        assert(descriptor_at(pre + descriptors_bytes(h.descriptors@) + rest, pre.len() + 12 * i) == h.descriptors@[i]);
    }
}

proof fn lemma_total_length_prefix(ds: Seq<EntryDescriptor>, k: int)
    requires
        0 <= k <= ds.len(),
    ensures
        total_length(ds.take(k)) <= total_length(ds),
    decreases ds.len() - k,
{
    if k < ds.len() {
        lemma_total_length_prefix(ds, k + 1);
        assert(ds.take(k + 1) =~= ds.take(k).push(ds[k]));
        lemma_total_length_push(ds.take(k), ds[k]);
    } else {
        assert(ds.take(k) =~= ds);
    }
}

proof fn lemma_first_entry_prefix(ds: Seq<EntryDescriptor>, k: int, id: EntryId)
    requires
        0 <= k <= ds.len(),
        first_entry(ds.take(k), id) is Some,
    ensures
        first_entry(ds, id) == first_entry(ds.take(k), id),
    decreases ds.len() - k,
{
    if k < ds.len() {
        assert(ds.take(k + 1) =~= ds.take(k).push(ds[k]));
        lemma_first_entry_push(ds.take(k), ds[k], id);
        lemma_first_entry_prefix(ds, k + 1, id);
    } else {
        assert(ds.take(k) =~= ds);
    }
}

/// Entries laid out from a start follow one another: the first starts there
/// and each starts where the one before ends.
pub proof fn law_laid_out_contiguous(ds: Seq<EntryDescriptor>, start: int, i: int)
    requires
        0 <= i < ds.len(),
        0 <= start,
        start + total_length(ds) <= u32::MAX,
    ensures
        laid_out(ds, start).len() == ds.len(),
        laid_out(ds, start)[i].id == ds[i].id,
        laid_out(ds, start)[i].length == ds[i].length,
        i == 0 ==> laid_out(ds, start)[i].offset == start,
        i > 0 ==> laid_out(ds, start)[i].offset == laid_out(ds, start)[i - 1].offset + ds[i - 1].length,
    decreases ds.len(),
{
    lemma_laid_out_len(ds, start);
    lemma_total_length_nonneg(ds.drop_first());
    if i > 0 {
        let rest = ds.drop_first();
        assert(total_length(ds) == ds[0].length + total_length(rest));
        law_laid_out_contiguous(rest, start + ds[0].length, i - 1);
        assert(laid_out(ds, start)[i] == laid_out(rest, start + ds[0].length)[i - 1]);
        if i == 1 {
            assert(laid_out(ds, start)[0].offset == start as u32);
        } else {
            assert(laid_out(ds, start)[i - 1] == laid_out(rest, start + ds[0].length)[i - 2]);
        }
    }
}

proof fn lemma_total_length_nonneg(ds: Seq<EntryDescriptor>)
    ensures
        total_length(ds) >= 0,
    decreases ds.len(),
{
    if ds.len() > 0 {
        lemma_total_length_nonneg(ds.drop_first());
    }
}

proof fn lemma_laid_out_len(ds: Seq<EntryDescriptor>, start: int)
    ensures
        laid_out(ds, start).len() == ds.len(),
    decreases ds.len(),
{
    if ds.len() > 0 {
        lemma_laid_out_len(ds.drop_first(), start + ds[0].length);
    }
}

/// A four-character code.
#[derive(Debug, Clone, Copy)]
pub struct FourCC(pub [u8; 4]);

/// A Finder file type.
#[derive(Debug, Clone, Copy)]
pub struct FileType(pub FourCC);

/// A Finder creator code.
#[derive(Debug, Clone, Copy)]
pub struct Creator(pub FourCC);

/// The Finder's flags of a file.
#[derive(Debug, Clone, Copy, PartialEq, Eq, Structural)]
pub struct FinderFlags {
    pub is_alias: bool,
    pub is_invisible: bool,
    pub has_bundle: bool,
    pub name_locked: bool,
    pub is_stationery: bool,
    pub has_custom_icon: bool,
    pub has_been_inited: bool,
    pub has_no_inits: bool,
    pub is_shared: bool,
    pub requires_switch_launch: bool,
    pub color: u8,
    pub is_on_desktop: bool,
}

impl Default for FinderFlags {
    fn default() -> (r: Self)
        ensures
            !r.is_alias && !r.is_invisible && !r.has_bundle && !r.name_locked && !r.is_stationery
                && !r.has_custom_icon && !r.has_been_inited && !r.has_no_inits && !r.is_shared
                && !r.requires_switch_launch && r.color == 0 && !r.is_on_desktop,
    {
        FinderFlags {
            is_alias: false,
            is_invisible: false,
            has_bundle: false,
            name_locked: false,
            is_stationery: false,
            has_custom_icon: false,
            has_been_inited: false,
            has_no_inits: false,
            is_shared: false,
            requires_switch_launch: false,
            color: 0,
            is_on_desktop: false,
        }
    }
}

/// A position in a Finder window.
#[derive(Debug, Clone, Copy, PartialEq, Eq, Structural)]
pub struct Point {
    pub vertical: i16,
    pub horizontal: i16,
}

impl Default for Point {
    fn default() -> (r: Self)
        ensures
            r.vertical == 0 && r.horizontal == 0,
    {
        Point { vertical: 0, horizontal: 0 }
    }
}

/// The Finder's folder of a file.
#[derive(Debug, Clone, Copy, PartialEq, Eq, Structural)]
pub struct Folder(pub u16);

impl Default for Folder {
    fn default() -> (r: Self)
        ensures
            r.0 == 0,
    {
        Folder(0)
    }
}

/// The Finder information of a file.
#[derive(Debug, Clone, Copy)]
pub struct FinderInfo {
    pub file_type: FileType,
    pub creator: Creator,
    pub flags: FinderFlags,
    pub location: Point,
    pub folder: Folder,
}

impl FinderInfo {
    /// The size of the Finder information on the wire, padding included.
    pub fn calculate_size() -> (r: usize)
        ensures
            r == 32,
    {
        4 + 4 + 2 + 4 + 2 + 16
    }
}

/// The entries of the AppleDouble companion of an uploaded file, before they
/// are laid out: the Finder information, the comment when it is not empty,
/// and the resource fork when one arrived.
pub open spec fn companion_entries(comment_len: nat, rsrc_len: Option<nat>) -> Seq<EntryDescriptor> {
    seq![EntryDescriptor { id: 9, offset: 0, length: 32 }] + (if comment_len > 0 {
        seq![EntryDescriptor { id: 4, offset: 0, length: comment_len as u32 }]
    } else {
        Seq::empty()
    }) + match rsrc_len {
        Some(n) => seq![EntryDescriptor { id: 2, offset: 0, length: n as u32 }],
        None => Seq::empty(),
    }
}

/// The bytes of an AppleDouble header whose entries `ds` are laid one after
/// the other after it.
pub open spec fn double_header_bytes(ds: Seq<EntryDescriptor>) -> Seq<u8> {
    u32_bytes(0x0005_1607) + u32_bytes(0x2_0000) + Seq::new(16, |i: int| 0u8) + u16_bytes(ds.len() as u16)
        + descriptors_bytes(laid_out(ds, header_size(ds.len() as int)))
}

/// The Finder information of an uploaded file on the wire: its type and
/// creator, then zero flags, location, folder and extended information.
pub open spec fn finder_info_bytes(type_code: Seq<u8>, creator: Seq<u8>) -> Seq<u8> {
    type_code + creator + Seq::new(24, |i: int| 0u8)
}

/// The companion of an uploaded file: the header, then the Finder
/// information, the comment and the resource fork in the order of the
/// entries.
pub open spec fn companion_bytes(type_code: Seq<u8>, creator: Seq<u8>, comment: Seq<u8>, rsrc: Option<Seq<u8>>) -> Seq<u8> {
    let ds = companion_entries(
        comment.len(),
        match rsrc {
            Some(r) => Some(r.len()),
            None => None,
        },
    );
    double_header_bytes(ds) + finder_info_bytes(type_code, creator) + comment + match rsrc {
        Some(r) => r,
        None => Seq::empty(),
    }
}

/// Whether the companion's offsets fit in 32 bits.
pub open spec fn companion_fits(comment_len: nat, rsrc_len: Option<nat>) -> bool {
    header_size(companion_entries(comment_len, rsrc_len).len() as int) + 32 + comment_len + match rsrc_len {
        Some(n) => n as int,
        None => 0,
    } <= u32::MAX
}

/// The AppleDouble companion written beside an uploaded file; `None` when
/// its offsets would not fit in 32 bits.
pub fn appledouble_companion(type_code: &[u8; 4], creator: &[u8; 4], comment: &[u8], rsrc: Option<&[u8]>) -> (r:
    Option<Vec<u8>>)
    ensures
        companion_fits(
            comment@.len(),
            match rsrc {
                Some(b) => Some(b@.len()),
                None => None,
            },
        ) ==> (r matches Some(v) && v@ == companion_bytes(
            type_code@,
            creator@,
            comment@,
            match rsrc {
                Some(b) => Some(b@),
                None => None,
            },
        )),
        !companion_fits(
            comment@.len(),
            match rsrc {
                Some(b) => Some(b@.len()),
                None => None,
            },
        ) ==> r is None,
{
    let ghost rl = match rsrc {
        Some(b) => Some(b@.len()),
        None => None,
    };
    let ghost ds = companion_entries(comment@.len(), rl);
    let n_entries: u64 = 1 + if comment.len() > 0 { 1 } else { 0 } + if rsrc.is_some() { 1 } else { 0 };
    let rsrc_len: u64 = match rsrc {
        Some(b) => b.len() as u64,
        None => 0,
    };
    let comment_len: u64 = comment.len() as u64;
    if comment_len > 0xffff_ffff || rsrc_len > 0xffff_ffff
        || 26 + 12 * n_entries + 32 + comment_len + rsrc_len > 0xffff_ffff {
        return None;
    }
    let mut entries: Vec<EntryDescriptor> = Vec::new();
    entries.push(EntryDescriptor { id: EntryId::FinderInfo.to_u32(), offset: 0, length: 32 });
    if comment.len() > 0 {
        entries.push(EntryDescriptor { id: EntryId::Comment.to_u32(), offset: 0, length: comment_len as u32 });
    }
    if let Some(b) = rsrc {
        entries.push(EntryDescriptor { id: EntryId::ResourceFork.to_u32(), offset: 0, length: rsrc_len as u32 });
    }
    assert(entries@ =~= ds);
    assert(total_length(ds) == 32 + comment_len + rsrc_len) by {
        reveal_with_fuel(total_length, 4);
    }
    let header = AppleSingleHeader::new_double(entries);
    let mut out = header.to_bytes();
    push_bytes(&mut out, type_code);
    push_bytes(&mut out, creator);
    let mut k: usize = 0;
    let ghost start = out@;
    while k < 24
        invariant
            0 <= k <= 24,
            out@ == start + Seq::new(k as nat, |i: int| 0u8),
        decreases 24 - k,
    {
        out.push(0u8);
        k = k + 1;
        assert(out@ =~= start + Seq::new(k as nat, |i: int| 0u8));
    }
    push_bytes(&mut out, comment);
    if let Some(b) = rsrc {
        push_bytes(&mut out, b);
    }
    proof {
        let rv = match rsrc {
            Some(b) => Some(b@),
            None => None,
        };
        assert(out@ =~= companion_bytes(type_code@, creator@, comment@, rv));
    }
    Some(out)
}

/// The number of entries of the companion of an uploaded file.
pub open spec fn companion_entry_count(comment_len: nat, rsrc_len: Option<nat>) -> int {
    1 + (if comment_len > 0 {
        1int
    } else {
        0int
    }) + (if rsrc_len is Some {
        1int
    } else {
        0int
    })
}

/// The bytes of a header with the entries `ds` laid out after it, then
/// `rest`: the format number, the entry count and each entry are read back.
proof fn lemma_double_header_reads_back(ds: Seq<EntryDescriptor>, rest: Seq<u8>)
    requires
        ds.len() <= u16::MAX,
    ensures
        ({
            let b = double_header_bytes(ds) + rest;
            let lo = laid_out(ds, header_size(ds.len() as int));
            &&& double_header_bytes(ds).len() == header_size(ds.len() as int)
            &&& lo.len() == ds.len()
            &&& u32_at(b, 0) == 0x0005_1607
            &&& u16_at(b, 24) == ds.len()
            &&& forall|i: int| 0 <= i < ds.len() ==> #[trigger] descriptor_at(b, 26 + 12 * i) == lo[i]
        }),
{
    let n = ds.len();
    let lo = laid_out(ds, header_size(n as int));
    lemma_laid_out_len(ds, header_size(n as int));
    let pre = u32_bytes(0x0005_1607) + u32_bytes(0x2_0000) + Seq::new(16, |i: int| 0u8) + u16_bytes(n as u16);
    let b = double_header_bytes(ds) + rest;
    lemma_descriptors_roundtrip(lo, pre, rest);
    assert(b =~= pre + descriptors_bytes(lo) + rest);
    assert(pre.len() == 26);
    crate::protocol::codec::lemma_u32_roundtrip(0x0005_1607, b.subrange(4, b.len() as int));
    assert(b =~= u32_bytes(0x0005_1607) + b.subrange(4, b.len() as int));
    crate::protocol::codec::lemma_u16_roundtrip(n as u16, descriptors_bytes(lo) + rest);
    assert(b.subrange(24, b.len() as int) =~= u16_bytes(n as u16) + (descriptors_bytes(lo) + rest));
    assert(u16_at(b, 24) == u16_at(b.subrange(24, b.len() as int), 0));
    assert forall|i: int| 0 <= i < n implies #[trigger] descriptor_at(b, 26 + 12 * i) == lo[i] by {
        assert(descriptor_at(pre + descriptors_bytes(lo) + rest, pre.len() + 12 * i) == lo[i]);
    }
}

/// Where the entries of an upload's companion lie, and how long they are.
proof fn lemma_companion_offsets(comment_len: nat, rl: Option<nat>)
    requires
        companion_fits(comment_len, rl),
    ensures
        ({
            let ds = companion_entries(comment_len, rl);
            let hs = header_size(ds.len() as int);
            let lo = laid_out(ds, hs);
            let n = ds.len() as int;
            &&& n == companion_entry_count(comment_len, rl)
            &&& lo.len() == n
            &&& lo[0].id == 9 && lo[0].length == 32 && lo[0].offset == hs
            &&& comment_len > 0 ==> lo[1].id == 4 && lo[1].length == comment_len && lo[1].offset == hs + 32
            &&& rl matches Some(r) ==> lo[n - 1].id == 2 && lo[n - 1].length == r && lo[n - 1].offset == hs + 32
                + comment_len
        }),
{
    let ds = companion_entries(comment_len, rl);
    let n = ds.len() as int;
    let hs = header_size(n);
    lemma_laid_out_len(ds, hs);
    let rlen: int = match rl {
        Some(r) => r as int,
        None => 0,
    };
    assert(total_length(ds) == 32 + comment_len + rlen) by {
        reveal_with_fuel(total_length, 4);
    }
    law_laid_out_contiguous(ds, hs, 0);
    if comment_len > 0 {
        law_laid_out_contiguous(ds, hs, 1);
    }
    if rl is Some {
        law_laid_out_contiguous(ds, hs, n - 1);
        if n == 3 {
            law_laid_out_contiguous(ds, hs, 1);
        }
    }
}

/// The companion of an uploaded file reads back entry by entry: it is an
/// AppleDouble file with one entry for the Finder information, one for the
/// comment when the comment is not empty, and one for the resource fork
/// when one arrived. The Finder information comes first, 32 bytes long,
/// with the type and creator at its offset; the comment comes next, under
/// the comment id, as long as the comment, with the comment's bytes at its
/// offset; the resource fork comes last, under the resource fork id, with
/// its bytes at its offset.
pub proof fn law_companion_reads_back(type_code: Seq<u8>, creator: Seq<u8>, comment: Seq<u8>, rsrc: Option<Seq<u8>>)
    requires
        type_code.len() == 4,
        creator.len() == 4,
        companion_fits(
            comment.len(),
            match rsrc {
                Some(r) => Some(r.len()),
                None => None,
            },
        ),
    ensures
        ({
            let b = companion_bytes(type_code, creator, comment, rsrc);
            let rl = match rsrc {
                Some(r) => Some(r.len()),
                None => None,
            };
            let n = companion_entry_count(comment.len(), rl);
            let fi = descriptor_at(b, 26);
            let cd = descriptor_at(b, 38);
            let rd = descriptor_at(b, 26 + 12 * (n - 1));
            &&& u32_at(b, 0) == magic_code(AppleSingleDoubleMagic::Double)
            &&& u16_at(b, 24) == n
            &&& fi.id == EntryId::FinderInfo.code()
            &&& fi.length == 32
            &&& b.subrange(fi.offset as int, fi.offset + 8) == type_code + creator
            &&& comment.len() > 0 ==> {
                &&& cd.id == EntryId::Comment.code()
                &&& cd.length == comment.len()
                &&& b.subrange(cd.offset as int, cd.offset + cd.length) == comment
            }
            &&& rsrc matches Some(r) ==> {
                &&& rd.id == EntryId::ResourceFork.code()
                &&& rd.length == r.len()
                &&& b.subrange(rd.offset as int, rd.offset + rd.length) == r
            }
        }),
{
    let rl = match rsrc {
        Some(r) => Some(r.len()),
        None => None,
    };
    let rb = match rsrc {
        Some(r) => r,
        None => Seq::<u8>::empty(),
    };
    let ds = companion_entries(comment.len(), rl);
    let n = ds.len() as int;
    let hs = header_size(n);
    let fib = finder_info_bytes(type_code, creator);
    let rest = fib + comment + rb;
    let b = companion_bytes(type_code, creator, comment, rsrc);
    lemma_companion_offsets(comment.len(), rl);
    lemma_double_header_reads_back(ds, rest);
    let h = double_header_bytes(ds);
    assert(b =~= h + rest);
    assert(descriptor_at(b, 26 + 12 * 0int) == laid_out(ds, hs)[0]);
    assert(b.subrange(hs, hs + 8) =~= type_code + creator);
    if comment.len() > 0 {
        assert(descriptor_at(b, 26 + 12 * 1int) == laid_out(ds, hs)[1]);
        assert(b.subrange(hs + 32, hs + 32 + comment.len()) =~= comment);
    }
    if rsrc is Some {
        assert(descriptor_at(b, 26 + 12 * (n - 1)) == laid_out(ds, hs)[n - 1]);
        assert(b.subrange(hs + 32 + comment.len(), hs + 32 + comment.len() + rb.len()) =~= rb);
    }
}

} // verus!
