//! The forks of a flattened file, as a file transfer carries them: the
//! header in front of each fork, the information fork, and a file made of
//! its forks.

use vstd::prelude::*;

use super::codec::{i16_at, i16_bytes, i32_at, i32_bytes, push_bytes, push_i16, push_i32, read_i16, read_i32};
use super::date::{date_bytes, DateParameter};
use super::handshake::Version;
use super::messages::{flattened_header_bytes, FlattenedFileHeader, ForkCount, NameScript};
use super::transaction::DataSize;
use crate::server::keyed::{distinct_keys, keyed_map, lemma_keyed_at, lemma_keyed_len, lemma_keyed_remove};
use super::parameters::{Creator, FileCreatedAt, FileModifiedAt, FileType};

verus! {

/// The tag of the information fork, `INFO`.
pub open spec fn info_tag() -> Seq<u8> {
    seq![0x49u8, 0x4eu8, 0x46u8, 0x4fu8]
}

/// The tag of the data fork, `DATA`.
pub open spec fn data_tag() -> Seq<u8> {
    seq![0x44u8, 0x41u8, 0x54u8, 0x41u8]
}

/// The tag of the resource fork, `MACR`.
pub open spec fn rsrc_tag() -> Seq<u8> {
    seq![0x4du8, 0x41u8, 0x43u8, 0x52u8]
}

/// The tag of a file from a Macintosh, `AMAC`.
pub open spec fn amac_tag() -> Seq<u8> {
    seq![0x41u8, 0x4du8, 0x41u8, 0x43u8]
}

/// The tag of a file from Windows, `MWIN`.
pub open spec fn mwin_tag() -> Seq<u8> {
    seq![0x4du8, 0x57u8, 0x49u8, 0x4eu8]
}

/// Whether the four bytes at `i` are the tag `t`.
fn tag_at(b: &[u8], i: usize, t0: u8, t1: u8, t2: u8, t3: u8) -> (r: bool)
    requires
        i + 4 <= b@.len(),
    ensures
        r == (b@.subrange(i as int, i as int + 4) == seq![t0, t1, t2, t3]),
{
    let r = b[i] == t0 && b[i + 1] == t1 && b[i + 2] == t2 && b[i + 3] == t3;
    proof {
        let s = b@.subrange(i as int, i as int + 4);
        if r {
            assert(s =~= seq![t0, t1, t2, t3]);
        } else if s == seq![t0, t1, t2, t3] {
            assert(s[0] == t0 && s[1] == t1 && s[2] == t2 && s[3] == t3);
        }
    }
    r
}

/// The four bytes at `i`.
fn four_at(b: &[u8], i: usize) -> (r: [u8; 4])
    requires
        i + 4 <= b@.len(),
    ensures
        r@ == b@.subrange(i as int, i as int + 4),
{
    let r = [b[i], b[i + 1], b[i + 2], b[i + 3]];
    assert(r@ =~= b@.subrange(i as int, i as int + 4));
    r
}

/// What a fork holds.
#[derive(Debug, Clone, Copy)]
pub enum ForkType {
    Info,
    Data,
    Resource,
    /// Any other tag.
    Other([u8; 4]),
}

/// The tag of a fork type.
pub open spec fn fork_type_bytes(t: ForkType) -> Seq<u8> {
    match t {
        ForkType::Info => info_tag(),
        ForkType::Data => data_tag(),
        ForkType::Resource => rsrc_tag(),
        ForkType::Other(x) => x@,
    }
}

/// Whether a fork type is written the one way it is read back: another tag
/// is none of the three known ones.
pub open spec fn fork_type_wf(t: ForkType) -> bool {
    t matches ForkType::Other(x) ==> x@ != info_tag() && x@ != data_tag() && x@ != rsrc_tag()
}

/// Whether `t` is the fork type that the tag `s` names.
pub open spec fn names_fork_type(s: Seq<u8>, t: ForkType) -> bool {
    fork_type_bytes(t) == s && fork_type_wf(t)
}

impl ForkType {
    pub fn to_bytes(&self) -> (r: [u8; 4])
        ensures
            r@ == fork_type_bytes(*self),
    {
        let r = match self {
            ForkType::Info => [0x49u8, 0x4eu8, 0x46u8, 0x4fu8],
            ForkType::Data => [0x44u8, 0x41u8, 0x54u8, 0x41u8],
            ForkType::Resource => [0x4du8, 0x41u8, 0x43u8, 0x52u8],
            ForkType::Other(x) => *x,
        };
        assert(r@ =~= fork_type_bytes(*self));
        r
    }

    /// The fork type whose tag is the four bytes at `i`.
    pub fn read_at(b: &[u8], i: usize) -> (r: Self)
        requires
            i + 4 <= b@.len(),
        ensures
            names_fork_type(b@.subrange(i as int, i as int + 4), r),
    {
        if tag_at(b, i, 0x49, 0x4e, 0x46, 0x4f) {
            ForkType::Info
        } else if tag_at(b, i, 0x44, 0x41, 0x54, 0x41) {
            ForkType::Data
        } else if tag_at(b, i, 0x4d, 0x41, 0x43, 0x52) {
            ForkType::Resource
        } else {
            ForkType::Other(four_at(b, i))
        }
    }
}

impl ForkType {
    /// Whether two fork types are the same.
    pub fn same(&self, other: &ForkType) -> (r: bool)
        ensures
            r == (*self == *other),
    {
        match (self, other) {
            (ForkType::Info, ForkType::Info) => true,
            (ForkType::Data, ForkType::Data) => true,
            (ForkType::Resource, ForkType::Resource) => true,
            (ForkType::Other(x), ForkType::Other(y)) => {
                let r = x[0] == y[0] && x[1] == y[1] && x[2] == y[2] && x[3] == y[3];
                proof {
                    if r {
                        assert(*x =~= *y);
                    }
                }
                r
            },
            _ => false,
        }
    }
}

/// Two fork types with the same tag are the same.
pub proof fn lemma_fork_type_unique(s: Seq<u8>, a: ForkType, b: ForkType)
    requires
        names_fork_type(s, a),
        names_fork_type(s, b),
    ensures
        a == b,
{
    if let ForkType::Other(x) = a {
        if let ForkType::Other(y) = b {
            assert(x =~= y);
        }
    }
}

/// Where a file comes from.
#[derive(Debug, Clone, Copy)]
pub enum PlatformType {
    AppleMac,
    MicrosoftWin,
    /// Any other tag.
    Other([u8; 4]),
}

/// The tag of a platform.
pub open spec fn platform_bytes(p: PlatformType) -> Seq<u8> {
    match p {
        PlatformType::AppleMac => amac_tag(),
        PlatformType::MicrosoftWin => mwin_tag(),
        PlatformType::Other(x) => x@,
    }
}

/// Whether a platform is written the one way it is read back.
pub open spec fn platform_wf(p: PlatformType) -> bool {
    p matches PlatformType::Other(x) ==> x@ != amac_tag() && x@ != mwin_tag()
}

/// Whether `p` is the platform that the tag `s` names.
pub open spec fn names_platform(s: Seq<u8>, p: PlatformType) -> bool {
    platform_bytes(p) == s && platform_wf(p)
}

impl PlatformType {
    pub fn to_bytes(&self) -> (r: [u8; 4])
        ensures
            r@ == platform_bytes(*self),
    {
        let r = match self {
            PlatformType::AppleMac => [0x41u8, 0x4du8, 0x41u8, 0x43u8],
            PlatformType::MicrosoftWin => [0x4du8, 0x57u8, 0x49u8, 0x4eu8],
            PlatformType::Other(x) => *x,
        };
        assert(r@ =~= platform_bytes(*self));
        r
    }

    /// The platform whose tag is the four bytes at `i`.
    pub fn read_at(b: &[u8], i: usize) -> (r: Self)
        requires
            i + 4 <= b@.len(),
        ensures
            names_platform(b@.subrange(i as int, i as int + 4), r),
    {
        if tag_at(b, i, 0x41, 0x4d, 0x41, 0x43) {
            PlatformType::AppleMac
        } else if tag_at(b, i, 0x4d, 0x57, 0x49, 0x4e) {
            PlatformType::MicrosoftWin
        } else {
            PlatformType::Other(four_at(b, i))
        }
    }
}

/// Two platforms with the same tag are the same.
pub proof fn lemma_platform_unique(s: Seq<u8>, a: PlatformType, b: PlatformType)
    requires
        names_platform(s, a),
        names_platform(s, b),
    ensures
        a == b,
{
    if let PlatformType::Other(x) = a {
        if let PlatformType::Other(y) = b {
            assert(x =~= y);
        }
    }
}

/// How a fork is compressed: not at all, or by a method with a nonzero
/// number. The number is written least significant byte first.
#[derive(Debug, Clone, Copy, PartialEq, Eq, Structural)]
pub enum CompressionType {
    Uncompressed,
    Other(u32),
}

/// The four bytes of a number, least significant first.
pub open spec fn u32_le_bytes(u: u32) -> Seq<u8> {
    seq![(u % 256) as u8, ((u / 256) % 256) as u8, ((u / 65536) % 256) as u8, (u / 16777216) as u8]
}

/// The number of the four bytes at `i`, least significant first.
pub open spec fn u32_le_at(s: Seq<u8>, i: int) -> u32 {
    (s[i] + s[i + 1] * 256 + s[i + 2] * 65536 + s[i + 3] * 16777216) as u32
}

/// The number of a compression method; zero is none.
pub open spec fn compression_number(c: CompressionType) -> u32 {
    match c {
        CompressionType::Uncompressed => 0,
        CompressionType::Other(n) => n,
    }
}

/// Whether a compression type is written the one way it is read back.
pub open spec fn compression_wf(c: CompressionType) -> bool {
    c matches CompressionType::Other(n) ==> n != 0
}

/// The compression type that a number names.
pub open spec fn compression_of(n: u32) -> CompressionType {
    if n == 0 {
        CompressionType::Uncompressed
    } else {
        CompressionType::Other(n)
    }
}

/// Reading back the bytes of a number gives the number.
pub proof fn lemma_u32_le_roundtrip(u: u32, rest: Seq<u8>)
    ensures
        u32_le_bytes(u).len() == 4,
        u32_le_at(u32_le_bytes(u) + rest, 0) == u,
{
    let s = u32_le_bytes(u) + rest;
    assert(s[0] == (u % 256) as u8);
    assert(s[1] == ((u / 256) % 256) as u8);
    assert(s[2] == ((u / 65536) % 256) as u8);
    assert(s[3] == (u / 16777216) as u8);
}

impl CompressionType {
    pub fn to_bytes(&self) -> (r: [u8; 4])
        ensures
            r@ == u32_le_bytes(compression_number(*self)),
    {
        let n: u32 = match self {
            CompressionType::Uncompressed => 0,
            CompressionType::Other(n) => *n,
        };
        let r = [(n % 256) as u8, ((n / 256) % 256) as u8, ((n / 65536) % 256) as u8, (n / 16777216) as u8];
        assert(r@ =~= u32_le_bytes(n));
        r
    }

    /// The compression type whose number is the four bytes at `i`.
    pub fn read_at(b: &[u8], i: usize) -> (r: Self)
        requires
            i + 4 <= b@.len(),
        ensures
            r == compression_of(u32_le_at(b@, i as int)),
    {
        let n: u32 = b[i] as u32 + b[i + 1] as u32 * 256 + b[i + 2] as u32 * 65536 + b[i + 3] as u32 * 16777216;
        if n == 0 {
            CompressionType::Uncompressed
        } else {
            CompressionType::Other(n)
        }
    }
}

/// The header in front of a fork: what it holds, how it is compressed, four
/// reserved bytes, and its size.
#[derive(Debug, Clone, Copy)]
pub struct ForkHeader {
    pub fork_type: ForkType,
    pub compression_type: CompressionType,
    pub padding: [u8; 4],
    pub data_size: super::transaction::DataSize,
}

/// A fork header on the wire: sixteen bytes.
pub open spec fn fork_header_bytes(h: ForkHeader) -> Seq<u8> {
    fork_type_bytes(h.fork_type) + u32_le_bytes(compression_number(h.compression_type)) + h.padding@
        + i32_bytes(h.data_size.0)
}

/// Whether `h` is the fork header at the start of `s`.
pub open spec fn reads_fork_header(s: Seq<u8>, h: ForkHeader) -> bool {
    &&& s.len() >= 16
    &&& names_fork_type(s.subrange(0, 4), h.fork_type)
    &&& h.compression_type == compression_of(u32_le_at(s, 4))
    &&& h.padding@ == s.subrange(8, 12)
    &&& h.data_size.0 == i32_at(s, 12)
}

/// Whether a fork header is written the one way it is read back.
pub open spec fn fork_header_wf(h: ForkHeader) -> bool {
    fork_type_wf(h.fork_type) && compression_wf(h.compression_type)
}

impl ForkHeader {
    pub fn to_bytes(&self) -> (r: Vec<u8>)
        ensures
            r@ == fork_header_bytes(*self),
    {
        let mut out: Vec<u8> = Vec::new();
        let t = self.fork_type.to_bytes();
        push_bytes(&mut out, &t);
        let c = self.compression_type.to_bytes();
        push_bytes(&mut out, &c);
        push_bytes(&mut out, &self.padding);
        push_i32(&mut out, self.data_size.0);
        assert(out@ =~= fork_header_bytes(*self));
        out
    }

    /// Reads a fork header at the start of `bytes`, returning the rest.
    pub fn from_bytes(bytes: &[u8]) -> (r: Option<(&[u8], Self)>)
        ensures
            bytes@.len() >= 16 ==> (r matches Some((rest, h)) && reads_fork_header(bytes@, h) && rest@
                == bytes@.subrange(16, bytes@.len() as int)),
            bytes@.len() < 16 ==> r is None,
    {
        if bytes.len() < 16 {
            return None;
        }
        let h = ForkHeader {
            fork_type: ForkType::read_at(bytes, 0),
            compression_type: CompressionType::read_at(bytes, 4),
            padding: four_at(bytes, 8),
            data_size: super::transaction::DataSize(read_i32(bytes, 12)),
        };
        Some((&bytes[16..bytes.len()], h))
    }
}

/// A fork header written out reads back as itself, and as nothing else.
pub proof fn law_fork_header_roundtrip(h: ForkHeader, rest: Seq<u8>, other: ForkHeader)
    requires
        fork_header_wf(h),
    ensures
        reads_fork_header(fork_header_bytes(h) + rest, h),
        reads_fork_header(fork_header_bytes(h) + rest, other) ==> other == h,
{
    let s = fork_header_bytes(h) + rest;
    let n = compression_number(h.compression_type);
    lemma_u32_le_roundtrip(n, s.subrange(8, s.len() as int));
    super::codec::lemma_i32_roundtrip(h.data_size.0, rest);
    assert(s.subrange(0, 4) =~= fork_type_bytes(h.fork_type));
    assert(s.subrange(4, s.len() as int) =~= u32_le_bytes(n) + s.subrange(8, s.len() as int));
    assert(u32_le_at(s, 4) == u32_le_at(s.subrange(4, s.len() as int), 0));
    assert(s.subrange(8, 12) =~= h.padding@);
    assert(s.subrange(12, s.len() as int) =~= i32_bytes(h.data_size.0) + rest);
    assert(i32_at(s, 12) == i32_at(s.subrange(12, s.len() as int), 0));
    if reads_fork_header(s, other) {
        lemma_fork_type_unique(s.subrange(0, 4), h.fork_type, other.fork_type);
        assert(other.padding =~= h.padding);
    }
}

/// The Finder flags of a file in an information fork.
#[derive(Debug, Clone, Copy, PartialEq, Eq, Structural)]
pub struct FileFlags(pub i32);

/// The flags of a file that its platform keeps.
#[derive(Debug, Clone, Copy, PartialEq, Eq, Structural)]
pub struct PlatformFlags(pub i32);

/// The information fork of a flattened file: where the file comes from, its
/// type and creator, its flags, its dates, and its name and comment, each
/// with the length written in front of it.
#[derive(Debug)]
pub struct InfoFork {
    pub platform: PlatformType,
    pub type_code: FileType,
    pub creator_code: Creator,
    pub flags: FileFlags,
    pub platform_flags: PlatformFlags,
    pub padding: [u8; 4],
    pub created_at: FileCreatedAt,
    pub modified_at: FileModifiedAt,
    pub name_script: NameScript,
    pub name_len: i16,
    pub file_name: Vec<u8>,
    pub comment_len: i16,
    pub comment: Vec<u8>,
}

/// An information fork on the wire: the fixed part, then the name and the
/// comment, each after its length.
pub open spec fn info_fork_bytes(f: InfoFork) -> Seq<u8> {
    platform_bytes(f.platform) + f.type_code.0@ + f.creator_code.0@ + i32_bytes(f.flags.0) + i32_bytes(
        f.platform_flags.0,
    ) + f.padding@ + date_bytes(f.created_at.0) + date_bytes(f.modified_at.0) + i16_bytes(f.name_script.0)
        + i16_bytes(f.name_len) + f.file_name@ + i16_bytes(f.comment_len) + f.comment@
}

/// The date of the eight bytes at `i`.
pub open spec fn date_at(s: Seq<u8>, i: int) -> DateParameter {
    DateParameter { year: i16_at(s, i), milliseconds: i16_at(s, i + 2), seconds: i32_at(s, i + 4) }
}

/// Whether an information fork can be read from the start of `s`: the
/// fixed part and both lengths are there, neither length is negative, and
/// the name and comment are as long as their lengths say.
pub open spec fn info_fork_readable(s: Seq<u8>) -> bool {
    &&& s.len() >= 44
    &&& i16_at(s, 42) >= 0
    &&& s.len() >= 46 + i16_at(s, 42)
    &&& i16_at(s, 44 + i16_at(s, 42)) >= 0
    &&& s.len() >= 46 + i16_at(s, 42) + i16_at(s, 44 + i16_at(s, 42))
}

/// How many bytes the information fork `f` takes on the wire, when its
/// lengths are those of its name and comment.
pub open spec fn info_fork_len(f: InfoFork) -> int {
    46 + f.name_len + f.comment_len
}

/// Whether `f` is the information fork at the start of `s`.
pub open spec fn reads_info_fork(s: Seq<u8>, f: InfoFork) -> bool {
    let n = f.name_len as int;
    let m = f.comment_len as int;
    &&& info_fork_readable(s)
    &&& names_platform(s.subrange(0, 4), f.platform)
    &&& f.type_code.0@ == s.subrange(4, 8)
    &&& f.creator_code.0@ == s.subrange(8, 12)
    &&& f.flags.0 == i32_at(s, 12)
    &&& f.platform_flags.0 == i32_at(s, 16)
    &&& f.padding@ == s.subrange(20, 24)
    &&& f.created_at.0 == date_at(s, 24)
    &&& f.modified_at.0 == date_at(s, 32)
    &&& f.name_script.0 == i16_at(s, 40)
    &&& f.name_len == i16_at(s, 42)
    &&& f.file_name@ == s.subrange(44, 44 + n)
    &&& f.comment_len == i16_at(s, 44 + n)
    &&& f.comment@ == s.subrange(46 + n, 46 + n + m)
}

/// Whether an information fork is written the one way it is read back: its
/// lengths are those of its name and comment, and its platform is written
/// as it is read.
pub open spec fn info_fork_wf(f: InfoFork) -> bool {
    &&& platform_wf(f.platform)
    &&& f.name_len as int == f.file_name@.len()
    &&& f.comment_len as int == f.comment@.len()
}

impl InfoFork {
    /// The size the information fork is announced with: its name and comment
    /// and a fixed 74 bytes.
    pub fn size(&self) -> (r: usize)
        requires
            74 + self.file_name@.len() + self.comment@.len() <= usize::MAX,
        ensures
            r == 74 + self.file_name@.len() + self.comment@.len(),
    {
        74 + self.file_name.len() + self.comment.len()
    }

    /// A copy of the information fork.
    pub fn duplicate(&self) -> (r: Self)
        ensures
            r.platform == self.platform,
            r.type_code == self.type_code,
            r.creator_code == self.creator_code,
            r.flags == self.flags,
            r.platform_flags == self.platform_flags,
            r.padding == self.padding,
            r.created_at == self.created_at,
            r.modified_at == self.modified_at,
            r.name_script == self.name_script,
            r.name_len == self.name_len,
            r.file_name@ == self.file_name@,
            r.comment_len == self.comment_len,
            r.comment@ == self.comment@,
    {
        InfoFork {
            platform: self.platform,
            type_code: self.type_code,
            creator_code: self.creator_code,
            flags: self.flags,
            platform_flags: self.platform_flags,
            padding: self.padding,
            created_at: self.created_at,
            modified_at: self.modified_at,
            name_script: self.name_script,
            name_len: self.name_len,
            file_name: super::codec::copy_vec(&self.file_name),
            comment_len: self.comment_len,
            comment: super::codec::copy_vec(&self.comment),
        }
    }

    pub fn to_bytes(&self) -> (r: Vec<u8>)
        ensures
            r@ == info_fork_bytes(*self),
    {
        let mut out: Vec<u8> = Vec::new();
        let p = self.platform.to_bytes();
        push_bytes(&mut out, &p);
        push_bytes(&mut out, &self.type_code.0);
        push_bytes(&mut out, &self.creator_code.0);
        push_i32(&mut out, self.flags.0);
        push_i32(&mut out, self.platform_flags.0);
        push_bytes(&mut out, &self.padding);
        let c = self.created_at.0.to_bytes();
        push_bytes(&mut out, c.as_slice());
        let m = self.modified_at.0.to_bytes();
        push_bytes(&mut out, m.as_slice());
        push_i16(&mut out, self.name_script.0);
        push_i16(&mut out, self.name_len);
        push_bytes(&mut out, self.file_name.as_slice());
        push_i16(&mut out, self.comment_len);
        push_bytes(&mut out, self.comment.as_slice());
        assert(out@ =~= info_fork_bytes(*self));
        out
    }

    /// Reads an information fork at the start of `bytes`, returning the rest.
    pub fn from_bytes(bytes: &[u8]) -> (r: Option<(&[u8], Self)>)
        ensures
            info_fork_readable(bytes@) ==> (r matches Some((rest, f)) && reads_info_fork(bytes@, f)
                && rest@ == bytes@.subrange(info_fork_len(f), bytes@.len() as int)),
            !info_fork_readable(bytes@) ==> r is None,
    {
        let len = bytes.len();
        if len < 44 {
            return None;
        }
        let name_len = read_i16(bytes, 42);
        if name_len < 0 || len < 46 || len - 46 < name_len as usize {
            return None;
        }
        let n = name_len as usize;
        let comment_len = read_i16(bytes, 44 + n);
        if comment_len < 0 || len - 46 - n < comment_len as usize {
            return None;
        }
        let m = comment_len as usize;
        let f = InfoFork {
            platform: PlatformType::read_at(bytes, 0),
            type_code: FileType(four_at(bytes, 4)),
            creator_code: Creator(four_at(bytes, 8)),
            flags: FileFlags(read_i32(bytes, 12)),
            platform_flags: PlatformFlags(read_i32(bytes, 16)),
            padding: four_at(bytes, 20),
            created_at: FileCreatedAt(
                DateParameter { year: read_i16(bytes, 24), milliseconds: read_i16(bytes, 26), seconds: read_i32(bytes, 28) },
            ),
            modified_at: FileModifiedAt(
                DateParameter { year: read_i16(bytes, 32), milliseconds: read_i16(bytes, 34), seconds: read_i32(bytes, 36) },
            ),
            name_script: NameScript(read_i16(bytes, 40)),
            name_len,
            file_name: super::codec::copy_range(bytes, 44, 44 + n),
            comment_len,
            comment: super::codec::copy_range(bytes, 46 + n, 46 + n + m),
        };
        Some((&bytes[46 + n + m..len], f))
    }
}

/// An information fork written out reads back as itself, with nothing left
/// over but what followed it.
#[verifier::rlimit(50)]
pub proof fn law_info_fork_roundtrip(f: InfoFork, rest: Seq<u8>)
    requires
        info_fork_wf(f),
    ensures
        info_fork_readable(info_fork_bytes(f) + rest),
        reads_info_fork(info_fork_bytes(f) + rest, f),
        info_fork_len(f) == info_fork_bytes(f).len(),
{
    let s = info_fork_bytes(f) + rest;
    let n = f.name_len as int;
    let m = f.comment_len as int;
    let q0 = platform_bytes(f.platform);
    let q1 = q0 + f.type_code.0@;
    let q2 = q1 + f.creator_code.0@;
    let q3 = q2 + i32_bytes(f.flags.0);
    let q4 = q3 + i32_bytes(f.platform_flags.0);
    let q5 = q4 + f.padding@;
    let q6 = q5 + date_bytes(f.created_at.0);
    let q7 = q6 + date_bytes(f.modified_at.0);
    let q8 = q7 + i16_bytes(f.name_script.0);
    let q9 = q8 + i16_bytes(f.name_len);
    let q10 = q9 + f.file_name@;
    let q11 = q10 + i16_bytes(f.comment_len);
    let q12 = q11 + f.comment@;
    assert(q12 == info_fork_bytes(f));
    super::codec::lemma_i16_roundtrip(f.name_len, Seq::empty());
    super::codec::lemma_i16_roundtrip(f.comment_len, Seq::empty());
    super::codec::lemma_i16_roundtrip(f.name_script.0, Seq::empty());
    super::codec::lemma_i32_roundtrip(f.flags.0, Seq::empty());
    super::codec::lemma_i32_roundtrip(f.platform_flags.0, Seq::empty());
    assert(s.subrange(0, q12.len() as int) =~= q12);
    lemma_split(s, q11, f.comment@);
    lemma_split(s, q10, i16_bytes(f.comment_len));
    lemma_split(s, q9, f.file_name@);
    lemma_split(s, q8, i16_bytes(f.name_len));
    lemma_split(s, q7, i16_bytes(f.name_script.0));
    lemma_split(s, q6, date_bytes(f.modified_at.0));
    lemma_split(s, q5, date_bytes(f.created_at.0));
    lemma_split(s, q4, f.padding@);
    lemma_split(s, q3, i32_bytes(f.platform_flags.0));
    lemma_split(s, q2, i32_bytes(f.flags.0));
    lemma_split(s, q1, f.creator_code.0@);
    lemma_split(s, q0, f.type_code.0@);
    lemma_i32_at(s, 12, f.flags.0);
    lemma_i32_at(s, 16, f.platform_flags.0);
    lemma_date_at(s, 24, f.created_at.0);
    lemma_date_at(s, 32, f.modified_at.0);
    lemma_i16_at(s, 40, f.name_script.0);
    lemma_i16_at(s, 42, f.name_len);
    lemma_i16_at(s, 44 + n, f.comment_len);
}

/// Where `s` starts with `a + b`, it starts with `a`, and `b` follows.
proof fn lemma_split(s: Seq<u8>, a: Seq<u8>, b: Seq<u8>)
    requires
        s.len() >= a.len() + b.len(),
        s.subrange(0, (a.len() + b.len()) as int) == a + b,
    ensures
        s.subrange(0, a.len() as int) == a,
        s.subrange(a.len() as int, (a.len() + b.len()) as int) == b,
{
    assert(s.subrange(0, a.len() as int) =~= (a + b).subrange(0, a.len() as int));
    assert(s.subrange(a.len() as int, (a.len() + b.len()) as int) =~= (a + b).subrange(a.len() as int, (a.len() + b.len()) as int));
    assert((a + b).subrange(0, a.len() as int) =~= a);
    assert((a + b).subrange(a.len() as int, (a.len() + b.len()) as int) =~= b);
}

/// The bytes of `x` stand at `i` in `s`.
proof fn lemma_i16_at(s: Seq<u8>, i: int, x: i16)
    requires
        0 <= i,
        i + 2 <= s.len(),
        s.subrange(i, i + 2) == i16_bytes(x),
    ensures
        i16_at(s, i) == x,
{
    super::codec::lemma_i16_roundtrip(x, s.subrange(i + 2, s.len() as int));
    assert(s.subrange(i, s.len() as int) =~= i16_bytes(x) + s.subrange(i + 2, s.len() as int));
    assert(i16_at(s, i) == i16_at(s.subrange(i, s.len() as int), 0));
}

/// The bytes of `x` stand at `i` in `s`.
proof fn lemma_i32_at(s: Seq<u8>, i: int, x: i32)
    requires
        0 <= i,
        i + 4 <= s.len(),
        s.subrange(i, i + 4) == i32_bytes(x),
    ensures
        i32_at(s, i) == x,
{
    super::codec::lemma_i32_roundtrip(x, s.subrange(i + 4, s.len() as int));
    assert(s.subrange(i, s.len() as int) =~= i32_bytes(x) + s.subrange(i + 4, s.len() as int));
    assert(i32_at(s, i) == i32_at(s.subrange(i, s.len() as int), 0));
}

/// The bytes of `d` stand at `i` in `s`.
proof fn lemma_date_at(s: Seq<u8>, i: int, d: DateParameter)
    requires
        0 <= i,
        i + 8 <= s.len(),
        s.subrange(i, i + 8) == date_bytes(d),
    ensures
        date_at(s, i) == d,
{
    assert(s.subrange(i, i + 2) =~= s.subrange(i, i + 8).subrange(0, 2));
    assert(s.subrange(i + 2, i + 4) =~= s.subrange(i, i + 8).subrange(2, 4));
    assert(s.subrange(i + 4, i + 8) =~= s.subrange(i, i + 8).subrange(4, 8));
    assert(date_bytes(d).subrange(0, 2) =~= i16_bytes(d.year));
    assert(date_bytes(d).subrange(2, 4) =~= i16_bytes(d.milliseconds));
    assert(date_bytes(d).subrange(4, 8) =~= i32_bytes(d.seconds));
    lemma_i16_at(s, i, d.year);
    lemma_i16_at(s, i + 2, d.milliseconds);
    lemma_i32_at(s, i + 4, d.seconds);
}

/// The contents of a fork: how many bytes it has, and where they are read
/// from.
#[derive(Debug)]
pub struct DataSource<S> {
    pub len: u64,
    pub source: S,
}

/// A file as a transfer sends it: a version, the information fork, and the
/// other forks, at most one of each type.
#[derive(Debug)]
pub struct FlattenedFileObject<S> {
    pub version: Version,
    pub info: InfoFork,
    pub contents: Vec<(ForkType, DataSource<S>)>,
}

/// The type of a fork entry.
pub open spec fn fork_key<S>() -> spec_fn((ForkType, DataSource<S>)) -> ForkType {
    |p: (ForkType, DataSource<S>)| p.0
}

/// The length of a fork entry.
pub open spec fn fork_size<S>() -> spec_fn((ForkType, DataSource<S>)) -> u64 {
    |p: (ForkType, DataSource<S>)| p.1.len
}

/// The header in front of a fork of type `t` with `len` bytes: uncompressed,
/// no reserved bits, and the length cut to 32 bits.
pub open spec fn fork_header_for(t: ForkType, len: int) -> ForkHeader {
    ForkHeader {
        fork_type: t,
        compression_type: CompressionType::Uncompressed,
        padding: [0u8, 0u8, 0u8, 0u8],
        data_size: DataSize(len as i32),
    }
}

impl<S> FlattenedFileObject<S> {
    /// The forks besides the information fork, by type, with their lengths.
    pub closed spec fn forks(&self) -> Map<ForkType, u64> {
        keyed_map(self.contents@, fork_key(), fork_size())
    }

    /// No fork type occurs twice.
    pub closed spec fn wf(&self) -> bool {
        distinct_keys(self.contents@, fork_key())
    }

    /// A file of version 1 with a data fork only.
    pub fn with_data(info: InfoFork, data: DataSource<S>) -> (r: Self)
        ensures
            r.wf(),
            r.version.0 == 1,
            r.info == info,
            r.forks() == map![ForkType::Data => data.len],
    {
        let ghost len = data.len;
        let r = FlattenedFileObject { version: Version(1), info, contents: vec![(ForkType::Data, data)] };
        proof {
            lemma_keyed_at(r.contents@, fork_key(), fork_size(), 0);
            assert(r.forks() =~= map![ForkType::Data => len]);
        }
        r
    }

    /// A file of version 1 with a data fork and a resource fork.
    pub fn with_forks(info: InfoFork, data: DataSource<S>, rsrc: DataSource<S>) -> (r: Self)
        ensures
            r.wf(),
            r.version.0 == 1,
            r.info == info,
            r.forks() == map![ForkType::Data => data.len, ForkType::Resource => rsrc.len],
    {
        let ghost (dl, rl) = (data.len, rsrc.len);
        let r = FlattenedFileObject {
            version: Version(1),
            info,
            contents: vec![(ForkType::Data, data), (ForkType::Resource, rsrc)],
        };
        proof {
            lemma_keyed_at(r.contents@, fork_key(), fork_size(), 0);
            lemma_keyed_at(r.contents@, fork_key(), fork_size(), 1);
            assert(r.forks() =~= map![ForkType::Data => dl, ForkType::Resource => rl]);
        }
        r
    }

    /// The file header: as many forks as the file has, and the information
    /// fork, cut to 16 bits.
    pub fn header(&self) -> (r: FlattenedFileHeader)
        requires
            self.wf(),
        ensures
            self.forks().dom().finite(),
            r.0.0 == (self.forks().dom().len() + 1) as i16,
    {
        proof {
            lemma_keyed_len(self.contents@, fork_key(), fork_size());
        }
        let count: i128 = self.contents.len() as i128 + 1;
        FlattenedFileHeader(ForkCount(count as i16))
    }

    /// The information fork and the header in front of it, which gives the
    /// size the fork is announced with.
    pub fn info(&self) -> (r: (ForkHeader, InfoFork))
        requires
            74 + self.info.file_name@.len() + self.info.comment@.len() <= usize::MAX,
        ensures
            r.0 == fork_header_for(ForkType::Info, (74 + self.info.file_name@.len() + self.info.comment@.len()) as int),
            r.1.platform == self.info.platform,
            r.1.type_code == self.info.type_code,
            r.1.creator_code == self.info.creator_code,
            r.1.flags == self.info.flags,
            r.1.platform_flags == self.info.platform_flags,
            r.1.padding == self.info.padding,
            r.1.created_at == self.info.created_at,
            r.1.modified_at == self.info.modified_at,
            r.1.name_script == self.info.name_script,
            r.1.name_len == self.info.name_len,
            r.1.file_name@ == self.info.file_name@,
            r.1.comment_len == self.info.comment_len,
            r.1.comment@ == self.info.comment@,
    {
        let size = self.info.size();
        let header = ForkHeader {
            fork_type: ForkType::Info,
            compression_type: CompressionType::Uncompressed,
            padding: [0u8, 0u8, 0u8, 0u8],
            data_size: DataSize(size as i32),
        };
        assert(header.padding =~= [0u8, 0u8, 0u8, 0u8]);
        (header, self.info.duplicate())
    }

    /// Where the fork of type `t` is among the contents, if the file has one.
    fn position(&self, t: &ForkType) -> (r: Option<usize>)
        requires
            self.wf(),
        ensures
            match r {
                Some(i) => i < self.contents@.len() && self.contents@[i as int].0 == *t,
                None => !self.forks().dom().contains(*t),
            },
    {
        let mut i: usize = 0;
        while i < self.contents.len()
            invariant
                0 <= i <= self.contents@.len(),
                forall|j: int| 0 <= j < i ==> (#[trigger] self.contents@[j]).0 != *t,
            decreases self.contents@.len() - i,
        {
            if self.contents[i].0.same(t) {
                return Some(i);
            }
            i = i + 1;
        }
        proof {
            if self.forks().dom().contains(*t) {
                let j = choose|j: int| 0 <= j < self.contents@.len() && (#[trigger] fork_key::<S>()(self.contents@[j])) == *t;
                assert(self.contents@[j].0 == *t);
            }
        }
        None
    }

    /// The length of the fork of type `t`, if the file has one.
    pub fn fork_len(&self, t: ForkType) -> (r: Option<u64>)
        requires
            self.wf(),
        ensures
            match r {
                Some(n) => self.forks().dom().contains(t) && self.forks()[t] == n,
                None => !self.forks().dom().contains(t),
            },
    {
        match self.position(&t) {
            Some(i) => {
                proof {
                    lemma_keyed_at(self.contents@, fork_key(), fork_size(), i as int);
                }
                Some(self.contents[i].1.len)
            },
            None => None,
        }
    }

    /// Takes the fork of type `t` out of the file, with the header to send
    /// in front of it; nothing when the file has no such fork.
    pub fn take_fork(&mut self, t: ForkType) -> (r: Option<(ForkHeader, DataSource<S>)>)
        requires
            old(self).wf(),
        ensures
            final(self).wf(),
            final(self).version == old(self).version,
            final(self).info == old(self).info,
            if old(self).forks().dom().contains(t) {
                r matches Some((h, d)) && d.len == old(self).forks()[t] && h == fork_header_for(
                    t,
                    (d.len as usize) as i32 as int,
                ) && final(self).forks() == old(self).forks().remove(t)
            } else {
                r is None && final(self).forks() == old(self).forks()
            },
    {
        match self.position(&t) {
            Some(i) => {
                proof {
                    lemma_keyed_at(self.contents@, fork_key(), fork_size(), i as int);
                    lemma_keyed_remove(self.contents@, fork_key(), fork_size(), i as int);
                }
                let (_, d) = self.contents.remove(i);
                let header = ForkHeader {
                    fork_type: t,
                    compression_type: CompressionType::Uncompressed,
                    padding: [0u8, 0u8, 0u8, 0u8],
                    data_size: DataSize(d.len as usize as i32),
                };
                assert(header.padding =~= [0u8, 0u8, 0u8, 0u8]);
                Some((header, d))
            },
            None => None,
        }
    }
}

} // verus!
