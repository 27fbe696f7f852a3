//! The files a server shares: paths under its root, the names of AppleDouble
//! companions, and how listings and file information are answered.

use vstd::prelude::*;

use crate::protocol::date::{date_of_epoch_seconds, DateParameter};
use crate::protocol::fork::{DataSource, FileFlags, FlattenedFileObject, InfoFork, PlatformFlags, PlatformType};
use crate::protocol::messages::{FileNameWithInfo, GetFileInfoReply, NameScript};
use crate::protocol::parameters::{
    Creator as WireCreator, FileComment, FileCreatedAt, FileCreatorString, FileModifiedAt, FileName,
    FileSize, FileType as WireFileType,
};
use crate::protocol::text::{ascii_bytes, encode_mac_roman, is_ascii_text, mac_roman_encode};
use vstd::utf8::valid_utf8;

verus! {

/// One part of a path, as the standard library splits paths.
#[derive(Debug, Clone, PartialEq, Eq)]
pub enum PathPart {
    RootDir,
    CurDir,
    ParentDir,
    Normal(Vec<u8>),
}

/// A part of a path as a value.
pub enum PathPartView {
    RootDir,
    CurDir,
    ParentDir,
    Normal(Seq<u8>),
}

impl View for PathPart {
    type V = PathPartView;

    open spec fn view(&self) -> PathPartView {
        match self {
            PathPart::RootDir => PathPartView::RootDir,
            PathPart::CurDir => PathPartView::CurDir,
            PathPart::ParentDir => PathPartView::ParentDir,
            PathPart::Normal(n) => PathPartView::Normal(n@),
        }
    }
}

/// The parts of a path as values.
pub open spec fn parts_view(p: Seq<PathPart>) -> Seq<PathPartView> {
    p.map_values(|x: PathPart| x@)
}

/// Whether a path climbs to a parent folder anywhere.
pub open spec fn climbs(p: Seq<PathPartView>) -> bool {
    exists|i: int| 0 <= i < p.len() && p[i] is ParentDir
}

/// Why a path was refused.
#[derive(Debug, Clone, Copy, PartialEq, Eq, Structural)]
pub enum PathError {
    InvalidInput,
}

fn copy_part(p: &PathPart) -> (r: PathPart)
    ensures
        r@ == p@,
{
    match p {
        PathPart::RootDir => PathPart::RootDir,
        PathPart::CurDir => PathPart::CurDir,
        PathPart::ParentDir => PathPart::ParentDir,
        PathPart::Normal(n) => PathPart::Normal(crate::protocol::codec::copy_vec(n)),
    }
}

/// The files under a root folder.
#[derive(Debug)]
pub struct OsFiles {
    root: Vec<PathPart>,
}

impl OsFiles {
    /// The files under `root`, which the caller has made canonical and found
    /// to be a folder.
    pub fn from_root(root: Vec<PathPart>) -> (r: Self)
        ensures
            parts_view(r.root_view()) == parts_view(root@),
    {
        OsFiles { root }
    }

    pub closed spec fn root_view(&self) -> Seq<PathPart> {
        self.root@
    }

    /// The root folder.
    pub fn root(&self) -> (r: Vec<PathPart>)
        ensures
            parts_view(r@) == parts_view(self.root_view()),
    {
        let mut out: Vec<PathPart> = Vec::new();
        let mut i: usize = 0;
        while i < self.root.len()
            invariant
                0 <= i <= self.root@.len(),
                parts_view(out@) == parts_view(self.root@).take(i as int),
            decreases self.root@.len() - i,
        {
            let p = copy_part(&self.root[i]);
            let ghost before = out@;
            out.push(p);
            proof {
                assert(parts_view(out@) =~= parts_view(before).push(p@));
                assert(parts_view(self.root@).take(i + 1) =~= parts_view(self.root@).take(i as int).push(p@));
            }
            i = i + 1;
        }
        assert(parts_view(self.root@).take(i as int) =~= parts_view(self.root@));
        out
    }

    /// Refuses a path that climbs to a parent folder.
    pub fn validate_path(path: &Vec<PathPart>) -> (r: Result<(), PathError>)
        ensures
            r is Err <==> climbs(parts_view(path@)),
    {
        let mut i: usize = 0;
        while i < path.len()
            invariant
                0 <= i <= path@.len(),
                forall|j: int| 0 <= j < i ==> !((#[trigger] parts_view(path@)[j]) is ParentDir),
            decreases path@.len() - i,
        {
            match &path[i] {
                PathPart::ParentDir => {
                    assert(parts_view(path@)[i as int] is ParentDir);
                    return Err(PathError::InvalidInput);
                },
                _ => {},
            }
            i = i + 1;
        }
        Ok(())
    }

    /// The root followed by the named parts of the path; refused when the
    /// path climbs to a parent folder. A root part or a current-folder part
    /// of the path adds nothing, so the result always lies under the root.
    pub fn subpath(&self, path: &Vec<PathPart>) -> (r: Result<Vec<PathPart>, PathError>)
        ensures
            match r {
                Err(_) => climbs(parts_view(path@)),
                Ok(p) => {
                    &&& !climbs(parts_view(path@))
                    &&& parts_view(p@) == parts_view(self.root_view()) + named_parts(parts_view(path@))
                    &&& parts_view(p@).take(parts_view(self.root_view()).len() as int) == parts_view(
                        self.root_view(),
                    )
                },
            },
    {
        Self::validate_path(path)?;
        let ghost root = parts_view(self.root@);
        let ghost rest = parts_view(path@);
        let mut out = self.root();
        let mut j: usize = 0;
        while j < path.len()
            invariant
                root == parts_view(self.root@),
                rest == parts_view(path@),
                0 <= j <= rest.len(),
                parts_view(out@) == root + named_parts(rest.take(j as int)),
            decreases rest.len() - j,
        {
            let ghost before = out@;
            assert(rest.take(j + 1).drop_last() =~= rest.take(j as int));
            assert(rest.take(j + 1).last() == rest[j as int]);
            match &path[j] {
                PathPart::Normal(n) => {
                    out.push(PathPart::Normal(crate::protocol::codec::copy_vec(n)));
                    assert(parts_view(out@) =~= parts_view(before).push(rest[j as int]));
                },
                _ => {},
            }
            j = j + 1;
        }
        assert(rest.take(rest.len() as int) =~= rest);
        proof {
            law_subpath_under_root(root, rest);
        }
        Ok(out)
    }

    /// The path of the AppleDouble file beside a file: the same folder, and
    /// the name with `._` in front.
    pub fn appledouble_path(path: &Vec<PathPart>) -> (r: Vec<PathPart>)
        requires
            path@.len() > 1 || (path@.len() == 1 && path@[0] is Normal),
            path@.last() matches PathPart::Normal(n) && valid_utf8(n@),
        ensures
            parts_view(r@) == parts_view(path@).drop_last().push(
                PathPartView::Normal(seq![46u8, 95u8] + match path@.last() {
                    PathPart::Normal(n) => n@,
                    _ => Seq::empty(),
                }),
            ),
    {
        let last = path.len() - 1;
        let mut out: Vec<PathPart> = Vec::new();
        let mut i: usize = 0;
        while i < last
            invariant
                last == path@.len() - 1,
                0 <= i <= last,
                parts_view(out@) == parts_view(path@).take(i as int),
            decreases last - i,
        {
            let p = copy_part(&path[i]);
            let ghost before = out@;
            out.push(p);
            proof {
                assert(parts_view(out@) =~= parts_view(before).push(p@));
                assert(parts_view(path@).take(i + 1) =~= parts_view(path@).take(i as int).push(p@));
            }
            i = i + 1;
        }
        let mut name: Vec<u8> = vec![46u8, 95u8];
        match &path[last] {
            PathPart::Normal(n) => {
                crate::protocol::codec::push_bytes(&mut name, n.as_slice());
            },
            _ => {},
        }
        let ghost before = out@;
        out.push(PathPart::Normal(name));
        assert(parts_view(path@).drop_last() =~= parts_view(path@).take(last as int));
        assert(parts_view(out@) =~= parts_view(before).push(out@.last()@));
        out
    }
}

/// The named parts of a path, in order: root and current-folder parts
/// dropped.
pub open spec fn named_parts(p: Seq<PathPartView>) -> Seq<PathPartView>
    decreases p.len(),
{
    if p.len() == 0 {
        Seq::empty()
    } else if p.last() is Normal {
        named_parts(p.drop_last()).push(p.last())
    } else {
        named_parts(p.drop_last())
    }
}

/// Whatever path a client gives, the root followed by its named parts lies
/// under the root: it starts with the root, and every part after the root
/// is a name.
pub proof fn law_subpath_under_root(root: Seq<PathPartView>, path: Seq<PathPartView>)
    ensures
        (root + named_parts(path)).take(root.len() as int) == root,
        forall|i: int|
            root.len() <= i < (root + named_parts(path)).len() ==> (#[trigger] (root + named_parts(
                path,
            ))[i]) is Normal,
    decreases path.len(),
{
    assert((root + named_parts(path)).take(root.len() as int) =~= root);
    if path.len() > 0 {
        law_subpath_under_root(root, path.drop_last());
        let q = named_parts(path.drop_last());
        if path.last() is Normal {
            assert(root + named_parts(path) =~= (root + q).push(path.last()));
        } else {
            assert(root + named_parts(path) =~= root + q);
        }
    }
}

/// A four-character file type of the file system side.
#[derive(Debug, Clone, Copy)]
pub struct FileType(pub [u8; 4]);

impl FileType {
    pub fn alias() -> (r: Self)
        ensures
            r.0@ == seq![97u8, 108u8, 105u8, 115u8],
    {
        let r = FileType([97u8, 108u8, 105u8, 115u8]);
        assert(r.0@ =~= seq![97u8, 108u8, 105u8, 115u8]);
        r
    }

    pub fn directory() -> (r: Self)
        ensures
            r.0@ == seq![102u8, 108u8, 100u8, 114u8],
    {
        let r = FileType([102u8, 108u8, 100u8, 114u8]);
        assert(r.0@ =~= seq![102u8, 108u8, 100u8, 114u8]);
        r
    }

    pub fn bytes(&self) -> (r: &[u8; 4])
        ensures
            r == &self.0,
    {
        &self.0
    }
}

impl Default for FileType {
    fn default() -> (r: Self)
        ensures
            r.0@ == seq![84u8, 69u8, 88u8, 84u8],
    {
        let r = FileType([84u8, 69u8, 88u8, 84u8]);
        assert(r.0@ =~= seq![84u8, 69u8, 88u8, 84u8]);
        r
    }
}

/// A four-character creator code of the file system side.
#[derive(Debug, Clone, Copy)]
pub struct Creator(pub [u8; 4]);

impl Creator {
    pub fn of_alias() -> (r: Self)
        ensures
            r.0@ == seq![0u8, 0u8, 0u8, 0u8],
    {
        Self::default()
    }

    pub fn of_directory() -> (r: Self)
        ensures
            r.0@ == seq![0u8, 0u8, 0u8, 0u8],
    {
        Self::default()
    }

    pub fn bytes(&self) -> (r: &[u8; 4])
        ensures
            r == &self.0,
    {
        &self.0
    }
}

impl Default for Creator {
    fn default() -> (r: Self)
        ensures
            r.0@ == seq![0u8, 0u8, 0u8, 0u8],
    {
        let r = Creator([0u8, 0u8, 0u8, 0u8]);
        assert(r.0@ =~= seq![0u8, 0u8, 0u8, 0u8]);
        r
    }
}

/// A folder entry: its name, the sizes of its forks, its type and creator.
#[derive(Debug)]
pub struct DirEntry {
    /// The entry's name, when it has one that is valid text.
    pub name: Option<String>,
    pub data_len: u64,
    pub rsrc_len: u64,
    pub type_code: FileType,
    pub creator_code: Creator,
}

/// Why a folder entry could not be listed.
#[derive(Debug, Clone, Copy, PartialEq, Eq, Structural)]
pub enum EntryError {
    FileTooLarge,
    InvalidData,
}

impl DirEntry {
    pub fn total_size(&self) -> (r: u64)
        requires
            self.data_len + self.rsrc_len <= u64::MAX,
        ensures
            r == self.data_len + self.rsrc_len,
    {
        self.data_len + self.rsrc_len
    }

    /// The entry as a listing shows it: refused when it is larger than a
    /// listing can say, or when its name has no Mac Roman spelling.
    pub fn into_listing(self) -> (r: Result<FileNameWithInfo, EntryError>)
        requires
            self.data_len + self.rsrc_len <= u64::MAX,
        ensures
            if self.data_len + self.rsrc_len > 0x7fff_ffff {
                r == Err::<FileNameWithInfo, EntryError>(EntryError::FileTooLarge)
            } else {
                match self.name {
                    None => r == Err::<FileNameWithInfo, EntryError>(EntryError::InvalidData),
                    Some(n) => if mac_roman_encode(n@).1 {
                        r == Err::<FileNameWithInfo, EntryError>(EntryError::InvalidData)
                    } else {
                        r matches Ok(f) && f.file_name@ == mac_roman_encode(n@).0 && f.file_size.0
                            == self.data_len + self.rsrc_len && f.file_type.0@ == self.type_code.0@
                            && f.creator.0@ == self.creator_code.0@ && f.name_script.0 == 0
                    },
                }
            },
            self.data_len + self.rsrc_len <= 0x7fff_ffff && (self.name matches Some(n) && is_ascii_text(n@)) ==> (
            r matches Ok(f) && f.file_name@ == ascii_bytes(match self.name {
                Some(n) => n@,
                None => Seq::empty(),
            })),
    {
        let size = self.total_size();
        if size > 0x7fff_ffff {
            return Err(EntryError::FileTooLarge);
        }
        let file_name = match &self.name {
            None => {
                return Err(EntryError::InvalidData);
            },
            Some(n) => {
                let (bytes, failed) = encode_mac_roman(n.as_str());
                if failed {
                    return Err(EntryError::InvalidData);
                }
                bytes
            },
        };
        Ok(
            FileNameWithInfo {
                file_type: WireFileType(self.type_code.0),
                creator: WireCreator(self.creator_code.0),
                file_size: FileSize(size as i32),
                name_script: NameScript(0),
                file_name,
            },
        )
    }
}

/// What is known of a file: its name, fork sizes, type, creator, comment and
/// dates.
#[derive(Debug)]
pub struct FileInfo {
    /// The UTF-8 bytes of the file's name, when it has one that is valid text.
    pub name: Option<Vec<u8>>,
    pub data_len: u64,
    pub rsrc_len: u64,
    pub file_type: FileType,
    pub creator: Creator,
    pub comment: Vec<u8>,
    pub created_at: DateParameter,
    pub modified_at: DateParameter,
}

impl FileInfo {
    pub fn total_size(&self) -> (r: u64)
        requires
            self.data_len + self.rsrc_len <= u64::MAX,
        ensures
            r == self.data_len + self.rsrc_len,
    {
        self.data_len + self.rsrc_len
    }

    /// The information as a reply: the name (empty when there is none), the
    /// size cut to 32 bits, and the rest as it is.
    pub fn into_reply(self) -> (r: GetFileInfoReply)
        requires
            self.data_len + self.rsrc_len <= u64::MAX,
        ensures
            r.filename@ == match self.name {
                Some(n) => n@,
                None => Seq::<u8>::empty(),
            },
            r.size.0 == ((self.data_len + self.rsrc_len) as u32) as i32,
            r.type_code.0@ == self.file_type.0@,
            r.creator@ == self.creator.0@,
            r.comment@ == self.comment@,
            r.created_at.0 == self.created_at,
            r.modified_at.0 == self.modified_at,
    {
        let size = self.total_size();
        let filename = match self.name {
            Some(n) => FileName(n),
            None => FileName(Vec::new()),
        };
        let c = self.creator.0;
        let creator = vec![c[0], c[1], c[2], c[3]];
        assert(creator@ =~= self.creator.0@);
        GetFileInfoReply {
            filename,
            size: FileSize(size as u32 as i32),
            type_code: WireFileType(self.file_type.0),
            creator: FileCreatorString(creator),
            comment: FileComment(self.comment),
            created_at: FileCreatedAt(self.created_at),
            modified_at: FileModifiedAt(self.modified_at),
        }
    }
}

/// The sizes, type, creator and comment of a file beyond what the file system
/// keeps.
#[derive(Debug)]
pub struct ExtendedMetadata {
    pub data_len: u64,
    pub rsrc_len: u64,
    pub file_type: FileType,
    pub creator: Creator,
    pub comment: Vec<u8>,
}

impl ExtendedMetadata {
    /// What a folder is shown as.
    pub fn directory() -> (r: Self)
        ensures
            r.data_len == 0,
            r.rsrc_len == 0,
            r.file_type.0@ == seq![102u8, 108u8, 100u8, 114u8],
            r.creator.0@ == seq![0u8, 0u8, 0u8, 0u8],
            r.comment@ == Seq::<u8>::empty(),
    {
        ExtendedMetadata {
            data_len: 0,
            rsrc_len: 0,
            file_type: FileType::directory(),
            creator: Creator::of_directory(),
            comment: Vec::new(),
        }
    }

    /// What an AppleDouble file says of a file: its Finder type and creator,
    /// or `BINA` and `dosa` when it has no Finder information.
    pub fn from_appledouble(
        data_len: u64,
        rsrc_len: u64,
        finder_info: Option<([u8; 4], [u8; 4])>,
        comment: Option<Vec<u8>>,
    ) -> (r: Self)
        ensures
            r.data_len == data_len,
            r.rsrc_len == rsrc_len,
            match finder_info {
                Some((t, c)) => r.file_type.0 == t && r.creator.0 == c,
                None => r.file_type.0@ == seq![66u8, 73u8, 78u8, 65u8] && r.creator.0@ == seq![
                    100u8,
                    111u8,
                    115u8,
                    97u8,
                ],
            },
            r.comment@ == match comment {
                Some(c) => c@,
                None => Seq::<u8>::empty(),
            },
    {
        let (ftyp, crea) = match finder_info {
            Some((t, c)) => (t, c),
            None => {
                let t = [66u8, 73u8, 78u8, 65u8];
                let c = [100u8, 111u8, 115u8, 97u8];
                assert(t@ =~= seq![66u8, 73u8, 78u8, 65u8]);
                assert(c@ =~= seq![100u8, 111u8, 115u8, 97u8]);
                (t, c)
            },
        };
        let comment = match comment {
            Some(c) => c,
            None => Vec::new(),
        };
        ExtendedMetadata { data_len, rsrc_len, file_type: FileType(ftyp), creator: Creator(crea), comment }
    }
}

impl ExtendedMetadata {
    /// What is shown of an entry: a folder as `directory` says, anything
    /// else as its AppleDouble companion says.
    pub fn of_entry(
        is_dir: bool,
        data_len: u64,
        rsrc_len: u64,
        finder_info: Option<([u8; 4], [u8; 4])>,
        comment: Option<Vec<u8>>,
    ) -> (r: Self)
        ensures
            is_dir ==> r.data_len == 0 && r.rsrc_len == 0 && r.file_type.0@ == seq![102u8, 108u8, 100u8, 114u8]
                && r.creator.0@ == seq![0u8, 0u8, 0u8, 0u8] && r.comment@ == Seq::<u8>::empty(),
            !is_dir ==> r.data_len == data_len && r.rsrc_len == rsrc_len && match finder_info {
                Some((t, c)) => r.file_type.0 == t && r.creator.0 == c,
                None => r.file_type.0@ == seq![66u8, 73u8, 78u8, 65u8] && r.creator.0@ == seq![
                    100u8,
                    111u8,
                    115u8,
                    97u8,
                ],
            } && r.comment@ == match comment {
                Some(c) => c@,
                None => Seq::<u8>::empty(),
            },
    {
        if is_dir {
            ExtendedMetadata::directory()
        } else {
            ExtendedMetadata::from_appledouble(data_len, rsrc_len, finder_info, comment)
        }
    }
}

impl DirEntry {
    /// A folder entry with the name it has, if any, and what is shown of it.
    pub fn with_metadata(name: Option<String>, meta: ExtendedMetadata) -> (r: Self)
        ensures
            r.name == name,
            r.data_len == meta.data_len,
            r.rsrc_len == meta.rsrc_len,
            r.type_code == meta.file_type,
            r.creator_code == meta.creator,
    {
        DirEntry {
            name,
            data_len: meta.data_len,
            rsrc_len: meta.rsrc_len,
            type_code: meta.file_type,
            creator_code: meta.creator,
        }
    }
}

/// The date of a file time given in seconds after the epoch: the zero date
/// when there is none, or when the calendar cannot place it.
pub open spec fn date_or_zero(secs: Option<u64>) -> DateParameter {
    match secs {
        Some(s) => match date_of_epoch_seconds(s as i64) {
            Some(d) => d,
            None => DateParameter { year: 0, milliseconds: 0, seconds: 0 },
        },
        None => DateParameter { year: 0, milliseconds: 0, seconds: 0 },
    }
}

/// Whether a file time, if there is one, fits the seconds a date is made
/// from.
pub open spec fn time_fits(secs: Option<u64>) -> bool {
    secs matches Some(s) ==> s <= i64::MAX
}

/// The date of a file time given in seconds after the epoch, if any.
fn date_of_time(secs: Option<u64>) -> (r: DateParameter)
    requires
        time_fits(secs),
    ensures
        r == date_or_zero(secs),
{
    match secs {
        Some(s) => DateParameter::from_unix_seconds(s),
        None => DateParameter::default(),
    }
}

impl FileInfo {
    /// What is known of a file, from its name, what is shown of it, and its
    /// times in seconds after the epoch: without a time of change the epoch
    /// counts, and without a time of creation the time of change counts.
    pub fn from_metadata(
        name: Option<Vec<u8>>,
        meta: ExtendedMetadata,
        created_secs: Option<u64>,
        modified_secs: Option<u64>,
    ) -> (r: Self)
        requires
            time_fits(created_secs),
            time_fits(modified_secs),
        ensures
            r.name == name,
            r.data_len == meta.data_len,
            r.rsrc_len == meta.rsrc_len,
            r.file_type == meta.file_type,
            r.creator == meta.creator,
            r.comment@ == meta.comment@,
            r.modified_at == date_or_zero(Some(
                match modified_secs {
                    Some(m) => m,
                    None => 0u64,
                },
            )),
            r.created_at == date_or_zero(Some(
                match created_secs {
                    Some(c) => c,
                    None => match modified_secs {
                        Some(m) => m,
                        None => 0u64,
                    },
                },
            )),
    {
        let modified: u64 = match modified_secs {
            Some(m) => m,
            None => 0,
        };
        let created: u64 = match created_secs {
            Some(c) => c,
            None => modified,
        };
        FileInfo {
            name,
            data_len: meta.data_len,
            rsrc_len: meta.rsrc_len,
            file_type: meta.file_type,
            creator: meta.creator,
            comment: meta.comment,
            created_at: date_of_time(Some(created)),
            modified_at: date_of_time(Some(modified)),
        }
    }
}

/// The information fork of a file: from where, its type and creator, its
/// dates, name and comment, with lengths that are theirs cut to 16 bits and
/// nothing else set.
pub open spec fn info_fork_of(
    f: InfoFork,
    platform: PlatformType,
    file_type: [u8; 4],
    creator: [u8; 4],
    name: Seq<u8>,
    comment: Seq<u8>,
    created: DateParameter,
    modified: DateParameter,
) -> bool {
    &&& f.platform == platform
    &&& f.type_code.0 == file_type
    &&& f.creator_code.0 == creator
    &&& f.flags.0 == 0
    &&& f.platform_flags.0 == 0
    &&& f.padding@ == seq![0u8, 0u8, 0u8, 0u8]
    &&& f.created_at.0 == created
    &&& f.modified_at.0 == modified
    &&& f.name_script.0 == 0
    &&& f.name_len == name.len() as i16
    &&& f.file_name@ == name
    &&& f.comment_len == comment.len() as i16
    &&& f.comment@ == comment
}

/// An information fork with nothing set but what is given.
fn new_info_fork(
    platform: PlatformType,
    file_type: [u8; 4],
    creator: [u8; 4],
    name: Vec<u8>,
    comment: Vec<u8>,
    created: DateParameter,
    modified: DateParameter,
) -> (r: InfoFork)
    ensures
        info_fork_of(r, platform, file_type, creator, name@, comment@, created, modified),
{
    let name_len = name.len() as i16;
    let comment_len = comment.len() as i16;
    let padding = [0u8, 0u8, 0u8, 0u8];
    assert(padding@ =~= seq![0u8, 0u8, 0u8, 0u8]);
    InfoFork {
        platform,
        type_code: WireFileType(file_type),
        creator_code: WireCreator(creator),
        flags: FileFlags(0),
        platform_flags: PlatformFlags(0),
        padding,
        created_at: FileCreatedAt(created),
        modified_at: FileModifiedAt(modified),
        name_script: NameScript(0),
        name_len,
        file_name: name,
        comment_len,
        comment,
    }
}

/// The information fork of a file without Finder information: a Windows
/// file of type `BINA` and creator `dosa`, with its name, no comment, and its
/// times in seconds after the epoch (the zero date where one is missing).
pub fn plain_info_fork(name: Vec<u8>, created_secs: Option<u64>, modified_secs: Option<u64>) -> (r: InfoFork)
    requires
        time_fits(created_secs),
        time_fits(modified_secs),
    ensures
        info_fork_of(
            r,
            PlatformType::MicrosoftWin,
            [66u8, 73u8, 78u8, 65u8],
            [100u8, 111u8, 115u8, 97u8],
            name@,
            Seq::<u8>::empty(),
            date_or_zero(created_secs),
            date_or_zero(modified_secs),
        ),
{
    let created = date_of_time(created_secs);
    let modified = date_of_time(modified_secs);
    new_info_fork(
        PlatformType::MicrosoftWin,
        [66u8, 73u8, 78u8, 65u8],
        [100u8, 111u8, 115u8, 97u8],
        name,
        Vec::new(),
        created,
        modified,
    )
}

/// The information fork of a file with Finder information from its
/// AppleDouble companion: a Macintosh file with the Finder's type and
/// creator, its name, the companion's comment (none when it has none), and
/// its times in seconds after the epoch.
pub fn appledouble_info_fork(
    name: Vec<u8>,
    finder_info: ([u8; 4], [u8; 4]),
    comment: Option<Vec<u8>>,
    created_secs: Option<u64>,
    modified_secs: Option<u64>,
) -> (r: InfoFork)
    requires
        time_fits(created_secs),
        time_fits(modified_secs),
    ensures
        info_fork_of(
            r,
            PlatformType::AppleMac,
            finder_info.0,
            finder_info.1,
            name@,
            match comment {
                Some(c) => c@,
                None => Seq::<u8>::empty(),
            },
            date_or_zero(created_secs),
            date_or_zero(modified_secs),
        ),
{
    let created = date_of_time(created_secs);
    let modified = date_of_time(modified_secs);
    let comment = match comment {
        Some(c) => c,
        None => Vec::new(),
    };
    new_info_fork(PlatformType::AppleMac, finder_info.0, finder_info.1, name, comment, created, modified)
}

/// A file read for a download: its information fork, its data fork, and its
/// resource fork when it has one.
pub fn flattened_file<S>(info: InfoFork, data: DataSource<S>, rsrc: Option<DataSource<S>>) -> (r: FlattenedFileObject<S>)
    ensures
        r.wf(),
        r.version.0 == 1,
        r.info == info,
        match rsrc {
            Some(x) => r.forks() == map![
                crate::protocol::fork::ForkType::Data => data.len,
                crate::protocol::fork::ForkType::Resource => x.len,
            ],
            None => r.forks() == map![crate::protocol::fork::ForkType::Data => data.len],
        },
{
    match rsrc {
        Some(x) => FlattenedFileObject::with_forks(info, data, x),
        None => FlattenedFileObject::with_data(info, data),
    }
}

} // verus!
