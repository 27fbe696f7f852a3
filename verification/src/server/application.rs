//! Accounts and what they may do: the privileges of an account, kept as the
//! bits of an access value, its name, login and hashed password.

use vstd::prelude::*;

use crate::protocol::messages::GetUserReply;
use crate::protocol::parameters::{Nickname, Password as WirePassword, UserAccess, UserLogin, inverted};
use vstd::utf8::encode_utf8;

use super::password::Password;

verus! {

/// Why a request was refused.
#[derive(Debug, Clone, Copy, PartialEq, Eq, Structural)]
pub enum Error {
    AuthenticationFailure,
    AuthorizationFailure,
}

/// Something that can be told who it is.
pub trait Identity {
}

/// What may be done, one kind of operation at a time.
pub trait Permissions<O> {
    fn can(&self, op: O) -> bool;
}

/// A login and a password, as typed.
#[derive(Debug)]
pub struct Credentials {
    pub username: String,
    pub password: String,
}

/// The bit `b` of an access value, counted from the top.
pub open spec fn wire_bit(b: u64) -> u64 {
    1u64 << ((63 - b) as u64)
}

/// Whether the bit `b`, counted from the top, is set.
pub open spec fn has_flag(bits: u64, b: u64) -> bool {
    bits & wire_bit(b) != 0
}

proof fn lemma_no_flags()
    ensures
        forall|b: u64| b < 64 ==> !#[trigger] has_flag(0, b),
{
    assert forall|b: u64| b < 64 implies !#[trigger] has_flag(0, b) by {
        lemma_zero_and(b);
    }
}

proof fn lemma_zero_and(b: u64)
    by (bit_vector)
    requires
        b < 64,
    ensures
        0u64 & (1u64 << ((63 - b) as u64)) == 0,
{
}

proof fn lemma_mask_zero(m: u64)
    by (bit_vector)
    ensures
        0u64 & m == 0u64,
{
}

proof fn lemma_mask_idempotent(x: u64, m: u64)
    by (bit_vector)
    ensures
        (x & m) & m == x & m,
{
}

proof fn lemma_masked_flag(x: u64, m: u64, b: u64)
    by (bit_vector)
    requires
        b < 64,
        m & (1u64 << ((63 - b) as u64)) != 0,
    ensures
        ((x & m) & (1u64 << ((63 - b) as u64)) != 0) == (x & (1u64 << ((63 - b) as u64)) != 0),
{
}

proof fn lemma_union_in_mask(x: u64, w: u64, m: u64)
    by (bit_vector)
    requires
        x & m == x,
        w & m == w,
    ensures
        (x | w) & m == (x | w),
{
}

proof fn lemma_or_flag(x: u64, b: u64, c: u64)
    by (bit_vector)
    requires
        b < 64,
        c < 64,
    ensures
        ((x | (1u64 << ((63 - b) as u64))) & (1u64 << ((63 - c) as u64)) != 0) == ((x & (1u64 << ((63
            - c) as u64)) != 0) || b == c),
{
}

proof fn lemma_flag_in_mask(m: u64, b: u64)
    by (bit_vector)
    requires
        b < 64,
        m & (1u64 << ((63 - b) as u64)) != 0,
    ensures
        (1u64 << ((63 - b) as u64)) & m == (1u64 << ((63 - b) as u64)),
{
}

/// What may be done to files and folders.
#[derive(Debug, Clone, Copy, PartialEq, Eq, Structural)]
pub enum FileOperation {
    Download,
    UploadToDropbox,
    UploadToFolder,
    DeleteFile,
    RenameFile,
    MoveFile,
    SetFileComment,
    CreateFolder,
    DeleteFolder,
    RenameFolder,
    MoveFolder,
    SetFolderComment,
    ViewDropBox,
    CreateAlias,
}

impl FileOperation {
    /// The operation's bit in an access value, counted from the top.
    pub open spec fn spec_bit(self) -> u64 {
        match self {
            FileOperation::Download => 2,
            FileOperation::UploadToDropbox => 1,
            FileOperation::UploadToFolder => 25,
            FileOperation::DeleteFile => 0,
            FileOperation::RenameFile => 3,
            FileOperation::MoveFile => 4,
            FileOperation::SetFileComment => 28,
            FileOperation::CreateFolder => 5,
            FileOperation::DeleteFolder => 6,
            FileOperation::RenameFolder => 7,
            FileOperation::MoveFolder => 8,
            FileOperation::SetFolderComment => 29,
            FileOperation::ViewDropBox => 30,
            FileOperation::CreateAlias => 31,
        }
    }

    pub fn bit(self) -> (r: u64)
        ensures
            r == self.spec_bit(),
    {
        match self {
            FileOperation::Download => 2,
            FileOperation::UploadToDropbox => 1,
            FileOperation::UploadToFolder => 25,
            FileOperation::DeleteFile => 0,
            FileOperation::RenameFile => 3,
            FileOperation::MoveFile => 4,
            FileOperation::SetFileComment => 28,
            FileOperation::CreateFolder => 5,
            FileOperation::DeleteFolder => 6,
            FileOperation::RenameFolder => 7,
            FileOperation::MoveFolder => 8,
            FileOperation::SetFolderComment => 29,
            FileOperation::ViewDropBox => 30,
            FileOperation::CreateAlias => 31,
        }
    }

    /// Every operation, in the order they are declared.
    pub fn all() -> (r: Vec<Self>)
        ensures
            r@ == seq![FileOperation::Download, FileOperation::UploadToDropbox, FileOperation::UploadToFolder, FileOperation::DeleteFile, FileOperation::RenameFile, FileOperation::MoveFile, FileOperation::SetFileComment, FileOperation::CreateFolder, FileOperation::DeleteFolder, FileOperation::RenameFolder, FileOperation::MoveFolder, FileOperation::SetFolderComment, FileOperation::ViewDropBox, FileOperation::CreateAlias],
    {
        let r = vec![FileOperation::Download, FileOperation::UploadToDropbox, FileOperation::UploadToFolder, FileOperation::DeleteFile, FileOperation::RenameFile, FileOperation::MoveFile, FileOperation::SetFileComment, FileOperation::CreateFolder, FileOperation::DeleteFolder, FileOperation::RenameFolder, FileOperation::MoveFolder, FileOperation::SetFolderComment, FileOperation::ViewDropBox, FileOperation::CreateAlias];
        assert(r@ =~= seq![FileOperation::Download, FileOperation::UploadToDropbox, FileOperation::UploadToFolder, FileOperation::DeleteFile, FileOperation::RenameFile, FileOperation::MoveFile, FileOperation::SetFileComment, FileOperation::CreateFolder, FileOperation::DeleteFolder, FileOperation::RenameFolder, FileOperation::MoveFolder, FileOperation::SetFolderComment, FileOperation::ViewDropBox, FileOperation::CreateAlias]);
        r
    }
}

impl FileOperation {
    /// The operation with this bit, if there is one.
    pub fn of_bit(b: u64) -> (r: Option<Self>)
        ensures
            match r {
                Some(op) => op.spec_bit() == b,
                None => forall|op: Self| #[trigger] op.spec_bit() != b,
            },
    {
        match b {
            0 => Some(FileOperation::DeleteFile),
            1 => Some(FileOperation::UploadToDropbox),
            2 => Some(FileOperation::Download),
            3 => Some(FileOperation::RenameFile),
            4 => Some(FileOperation::MoveFile),
            5 => Some(FileOperation::CreateFolder),
            6 => Some(FileOperation::DeleteFolder),
            7 => Some(FileOperation::RenameFolder),
            8 => Some(FileOperation::MoveFolder),
            25 => Some(FileOperation::UploadToFolder),
            28 => Some(FileOperation::SetFileComment),
            29 => Some(FileOperation::SetFolderComment),
            30 => Some(FileOperation::ViewDropBox),
            31 => Some(FileOperation::CreateAlias),
            _ => None,
        }
    }
}

/// The access bits of the file operations.
pub const FILE_MASK: u64 = 0xff80004f00000000;

proof fn lemma_file_mask_bits()
    by (bit_vector)
    ensures
        FILE_MASK & (1u64 << 61u64) != 0,
        FILE_MASK & (1u64 << 62u64) != 0,
        FILE_MASK & (1u64 << 38u64) != 0,
        FILE_MASK & (1u64 << 63u64) != 0,
        FILE_MASK & (1u64 << 60u64) != 0,
        FILE_MASK & (1u64 << 59u64) != 0,
        FILE_MASK & (1u64 << 35u64) != 0,
        FILE_MASK & (1u64 << 58u64) != 0,
        FILE_MASK & (1u64 << 57u64) != 0,
        FILE_MASK & (1u64 << 56u64) != 0,
        FILE_MASK & (1u64 << 55u64) != 0,
        FILE_MASK & (1u64 << 34u64) != 0,
        FILE_MASK & (1u64 << 33u64) != 0,
        FILE_MASK & (1u64 << 32u64) != 0,
{
}

proof fn lemma_file_op(op: FileOperation)
    ensures
        op.spec_bit() < 64,
        has_flag(FILE_MASK, op.spec_bit()),
        wire_bit(op.spec_bit()) & FILE_MASK == wire_bit(op.spec_bit()),
        forall|other: FileOperation| other.spec_bit() == op.spec_bit() ==> other == op,
{
    lemma_file_mask_bits();
    lemma_flag_in_mask(FILE_MASK, op.spec_bit());
}

/// A set of file operations, kept as its access bits.
#[derive(Debug, Clone, Copy, PartialEq, Eq, Structural)]
pub struct FilePermissions {
    bits: u64,
}

impl View for FilePermissions {
    type V = Set<FileOperation>;

    closed spec fn view(&self) -> Set<FileOperation> {
        Set::new(|op: FileOperation| has_flag(self.bits, op.spec_bit()))
    }
}

impl FilePermissions {
    /// Only bits of file operations are set.
    pub closed spec fn wf(&self) -> bool {
        self.bits & FILE_MASK == self.bits
    }

    /// The access bits.
    pub closed spec fn wire(&self) -> u64 {
        self.bits
    }

    /// An operation is in the set exactly when its bit is set.
    pub proof fn lemma_view(&self, op: FileOperation)
        ensures
            self@.contains(op) == has_flag(self.wire(), op.spec_bit()),
    {
    }

    /// No operation.
    pub fn empty() -> (r: Self)
        ensures
            r.wf(),
            r@ == Set::<FileOperation>::empty(),
            r.wire() == 0,
    {
        let r = Self { bits: 0 };
        proof {
            lemma_no_flags();
            assert(r@ =~= Set::<FileOperation>::empty());
            lemma_mask_zero(FILE_MASK);
        }
        r
    }

    /// The file operations whose bits are set in an access value.
    pub fn from_bits(bits: i64) -> (r: Self)
        ensures
            r.wf(),
            r@ == Set::new(|op: FileOperation| has_flag(bits as u64, op.spec_bit())),
            r.wire() == (bits as u64) & FILE_MASK,
    {
        let r = Self { bits: (bits as u64) & FILE_MASK };
        proof {
            lemma_mask_idempotent(bits as u64, FILE_MASK);
            assert forall|op: FileOperation| #[trigger] r@.contains(op) == has_flag(bits as u64, op.spec_bit()) by {
                lemma_file_op(op);
                lemma_masked_flag(bits as u64, FILE_MASK, op.spec_bit());
            }
            assert(r@ =~= Set::new(|op: FileOperation| has_flag(bits as u64, op.spec_bit())));
        }
        r
    }

    /// The access value with the bits of these operations set.
    pub fn to_bits(self) -> (r: i64)
        ensures
            r as u64 == self.wire(),
            forall|op: FileOperation| has_flag(r as u64, #[trigger] op.spec_bit()) == self@.contains(op),
    {
        proof {
            lemma_cast_roundtrip(self.bits);
        }
        self.bits as i64
    }

    /// Whether the operation is in the set.
    pub fn can(&self, op: FileOperation) -> (r: bool)
        ensures
            r == self@.contains(op),
    {
        let b = op.bit();
        proof {
            lemma_file_op(op);
        }
        let w: u64 = 1u64 << (63 - b);
        self.bits & w != 0
    }

    /// The set of the listed operations.
    pub fn from_ops(ops: &Vec<FileOperation>) -> (r: Self)
        ensures
            r.wf(),
            forall|op| #[trigger] r@.contains(op) == ops@.contains(op),
    {
        let mut r = Self::empty();
        let mut i: usize = 0;
        while i < ops.len()
            invariant
                0 <= i <= ops@.len(),
                r.wf(),
                forall|o| #[trigger] r@.contains(o) == ops@.take(i as int).contains(o),
            decreases ops@.len() - i,
        {
            let op = ops[i];
            let b = op.bit();
            proof {
                lemma_file_op(op);
            }
            let w: u64 = 1u64 << (63 - b);
            let ghost before = r;
            r = Self { bits: r.bits | w };
            proof {
                lemma_union_in_mask(before.bits, w, FILE_MASK);
                assert forall|o: FileOperation| #[trigger] r@.contains(o) == (before@.contains(o) || o == op) by {
                    lemma_file_op(o);
                    lemma_or_flag(before.bits, b, o.spec_bit());
                }
                assert(ops@.take(i + 1) =~= ops@.take(i as int).push(op));
                assert forall|o| #[trigger] r@.contains(o) == ops@.take(i + 1).contains(o) by {
                    vstd::seq_lib::lemma_seq_contains_after_push(ops@.take(i as int), op, o);
                }
            }
            i = i + 1;
        }
        assert(ops@.take(ops@.len() as int) =~= ops@);
        r
    }

    /// The operations of the set, by ascending bit.
    pub fn ops(&self) -> (r: Vec<FileOperation>)
        ensures
            forall|op: FileOperation| #[trigger] r@.contains(op) == self@.contains(op),
            forall|i: int, j: int| 0 <= i < j < r@.len() ==> (#[trigger] r@[i]).spec_bit() < (#[trigger] r@[j]).spec_bit(),
    {
        let mut r: Vec<FileOperation> = Vec::new();
        let mut b: u64 = 0;
        while b < 64
            invariant
                b <= 64,
                forall|o: FileOperation| #[trigger] r@.contains(o) == (self@.contains(o) && o.spec_bit() < b),
                forall|a: int| 0 <= a < r@.len() ==> (#[trigger] r@[a]).spec_bit() < b,
                forall|x: int, y: int| 0 <= x < y < r@.len() ==> (#[trigger] r@[x]).spec_bit() < (#[trigger] r@[y]).spec_bit(),
            decreases 64 - b,
        {
            let ghost prev = r@;
            match FileOperation::of_bit(b) {
                Some(op) => {
                    if self.can(op) {
                        r.push(op);
                        proof {
                            assert forall|o: FileOperation| #[trigger] r@.contains(o) == (self@.contains(o) && o.spec_bit() < b + 1) by {
                                vstd::seq_lib::lemma_seq_contains_after_push(prev, op, o);
                                if o.spec_bit() == b {
                                    lemma_file_op(op);
                                }
                            }
                        }
                    } else {
                        proof {
                            assert forall|o: FileOperation| #[trigger] r@.contains(o) == (self@.contains(o) && o.spec_bit() < b + 1) by {
                                if o.spec_bit() == b {
                                    lemma_file_op(op);
                                }
                            }
                        }
                    }
                },
                None => {},
            }
            b = b + 1;
        }
        proof {
            assert forall|op: FileOperation| #[trigger] r@.contains(op) == self@.contains(op) by {
                lemma_file_op(op);
            }
        }
        r
    }
}

impl Default for FilePermissions {
    fn default() -> (r: Self)
        ensures
            r.wf(),
            r@ == set![FileOperation::Download, FileOperation::UploadToDropbox],
    {
        let v = vec![FileOperation::Download, FileOperation::UploadToDropbox];
        let r = Self::from_ops(&v);
        assert(r@ =~= set![FileOperation::Download, FileOperation::UploadToDropbox]) by {
            assert(v@[0] == FileOperation::Download);
            assert(v@[1] == FileOperation::UploadToDropbox);
        }
        r
    }
}

impl Permissions<FileOperation> for FilePermissions {
    fn can(&self, op: FileOperation) -> (r: bool) {
        FilePermissions::can(self, op)
    }
}

/// What may be done to accounts and users.
#[derive(Debug, Clone, Copy, PartialEq, Eq, Structural)]
pub enum UserOperation {
    CanCreateUsers,
    CanDeleteUsers,
    CanReadUsers,
    CanModifyUsers,
    CanGetUserInfo,
    CanDisconnectUsers,
    CannotBeDisconnected,
}

impl UserOperation {
    /// The operation's bit in an access value, counted from the top.
    pub open spec fn spec_bit(self) -> u64 {
        match self {
            UserOperation::CanCreateUsers => 14,
            UserOperation::CanDeleteUsers => 15,
            UserOperation::CanReadUsers => 16,
            UserOperation::CanModifyUsers => 17,
            UserOperation::CanGetUserInfo => 24,
            UserOperation::CanDisconnectUsers => 22,
            UserOperation::CannotBeDisconnected => 23,
        }
    }

    pub fn bit(self) -> (r: u64)
        ensures
            r == self.spec_bit(),
    {
        match self {
            UserOperation::CanCreateUsers => 14,
            UserOperation::CanDeleteUsers => 15,
            UserOperation::CanReadUsers => 16,
            UserOperation::CanModifyUsers => 17,
            UserOperation::CanGetUserInfo => 24,
            UserOperation::CanDisconnectUsers => 22,
            UserOperation::CannotBeDisconnected => 23,
        }
    }

    /// Every operation, in the order they are declared.
    pub fn all() -> (r: Vec<Self>)
        ensures
            r@ == seq![UserOperation::CanCreateUsers, UserOperation::CanDeleteUsers, UserOperation::CanReadUsers, UserOperation::CanModifyUsers, UserOperation::CanGetUserInfo, UserOperation::CanDisconnectUsers, UserOperation::CannotBeDisconnected],
    {
        let r = vec![UserOperation::CanCreateUsers, UserOperation::CanDeleteUsers, UserOperation::CanReadUsers, UserOperation::CanModifyUsers, UserOperation::CanGetUserInfo, UserOperation::CanDisconnectUsers, UserOperation::CannotBeDisconnected];
        assert(r@ =~= seq![UserOperation::CanCreateUsers, UserOperation::CanDeleteUsers, UserOperation::CanReadUsers, UserOperation::CanModifyUsers, UserOperation::CanGetUserInfo, UserOperation::CanDisconnectUsers, UserOperation::CannotBeDisconnected]);
        r
    }
}

impl UserOperation {
    /// The operation with this bit, if there is one.
    pub fn of_bit(b: u64) -> (r: Option<Self>)
        ensures
            match r {
                Some(op) => op.spec_bit() == b,
                None => forall|op: Self| #[trigger] op.spec_bit() != b,
            },
    {
        match b {
            14 => Some(UserOperation::CanCreateUsers),
            15 => Some(UserOperation::CanDeleteUsers),
            16 => Some(UserOperation::CanReadUsers),
            17 => Some(UserOperation::CanModifyUsers),
            22 => Some(UserOperation::CanDisconnectUsers),
            23 => Some(UserOperation::CannotBeDisconnected),
            24 => Some(UserOperation::CanGetUserInfo),
            _ => None,
        }
    }
}

/// The access bits of the user operations.
pub const USER_MASK: u64 = 0x3c38000000000;

proof fn lemma_user_mask_bits()
    by (bit_vector)
    ensures
        USER_MASK & (1u64 << 49u64) != 0,
        USER_MASK & (1u64 << 48u64) != 0,
        USER_MASK & (1u64 << 47u64) != 0,
        USER_MASK & (1u64 << 46u64) != 0,
        USER_MASK & (1u64 << 39u64) != 0,
        USER_MASK & (1u64 << 41u64) != 0,
        USER_MASK & (1u64 << 40u64) != 0,
{
}

proof fn lemma_user_op(op: UserOperation)
    ensures
        op.spec_bit() < 64,
        has_flag(USER_MASK, op.spec_bit()),
        wire_bit(op.spec_bit()) & USER_MASK == wire_bit(op.spec_bit()),
        forall|other: UserOperation| other.spec_bit() == op.spec_bit() ==> other == op,
{
    lemma_user_mask_bits();
    lemma_flag_in_mask(USER_MASK, op.spec_bit());
}

/// A set of user operations, kept as its access bits.
#[derive(Debug, Clone, Copy, PartialEq, Eq, Structural)]
pub struct UserPermissions {
    bits: u64,
}

impl View for UserPermissions {
    type V = Set<UserOperation>;

    closed spec fn view(&self) -> Set<UserOperation> {
        Set::new(|op: UserOperation| has_flag(self.bits, op.spec_bit()))
    }
}

impl UserPermissions {
    /// Only bits of user operations are set.
    pub closed spec fn wf(&self) -> bool {
        self.bits & USER_MASK == self.bits
    }

    /// The access bits.
    pub closed spec fn wire(&self) -> u64 {
        self.bits
    }

    /// An operation is in the set exactly when its bit is set.
    pub proof fn lemma_view(&self, op: UserOperation)
        ensures
            self@.contains(op) == has_flag(self.wire(), op.spec_bit()),
    {
    }

    /// No operation.
    pub fn empty() -> (r: Self)
        ensures
            r.wf(),
            r@ == Set::<UserOperation>::empty(),
            r.wire() == 0,
    {
        let r = Self { bits: 0 };
        proof {
            lemma_no_flags();
            assert(r@ =~= Set::<UserOperation>::empty());
            lemma_mask_zero(USER_MASK);
        }
        r
    }

    /// The user operations whose bits are set in an access value.
    pub fn from_bits(bits: i64) -> (r: Self)
        ensures
            r.wf(),
            r@ == Set::new(|op: UserOperation| has_flag(bits as u64, op.spec_bit())),
            r.wire() == (bits as u64) & USER_MASK,
    {
        let r = Self { bits: (bits as u64) & USER_MASK };
        proof {
            lemma_mask_idempotent(bits as u64, USER_MASK);
            assert forall|op: UserOperation| #[trigger] r@.contains(op) == has_flag(bits as u64, op.spec_bit()) by {
                lemma_user_op(op);
                lemma_masked_flag(bits as u64, USER_MASK, op.spec_bit());
            }
            assert(r@ =~= Set::new(|op: UserOperation| has_flag(bits as u64, op.spec_bit())));
        }
        r
    }

    /// The access value with the bits of these operations set.
    pub fn to_bits(self) -> (r: i64)
        ensures
            r as u64 == self.wire(),
            forall|op: UserOperation| has_flag(r as u64, #[trigger] op.spec_bit()) == self@.contains(op),
    {
        proof {
            lemma_cast_roundtrip(self.bits);
        }
        self.bits as i64
    }

    /// Whether the operation is in the set.
    pub fn can(&self, op: UserOperation) -> (r: bool)
        ensures
            r == self@.contains(op),
    {
        let b = op.bit();
        proof {
            lemma_user_op(op);
        }
        let w: u64 = 1u64 << (63 - b);
        self.bits & w != 0
    }

    /// The set of the listed operations.
    pub fn from_ops(ops: &Vec<UserOperation>) -> (r: Self)
        ensures
            r.wf(),
            forall|op| #[trigger] r@.contains(op) == ops@.contains(op),
    {
        let mut r = Self::empty();
        let mut i: usize = 0;
        while i < ops.len()
            invariant
                0 <= i <= ops@.len(),
                r.wf(),
                forall|o| #[trigger] r@.contains(o) == ops@.take(i as int).contains(o),
            decreases ops@.len() - i,
        {
            let op = ops[i];
            let b = op.bit();
            proof {
                lemma_user_op(op);
            }
            let w: u64 = 1u64 << (63 - b);
            let ghost before = r;
            r = Self { bits: r.bits | w };
            proof {
                lemma_union_in_mask(before.bits, w, USER_MASK);
                assert forall|o: UserOperation| #[trigger] r@.contains(o) == (before@.contains(o) || o == op) by {
                    lemma_user_op(o);
                    lemma_or_flag(before.bits, b, o.spec_bit());
                }
                assert(ops@.take(i + 1) =~= ops@.take(i as int).push(op));
                assert forall|o| #[trigger] r@.contains(o) == ops@.take(i + 1).contains(o) by {
                    vstd::seq_lib::lemma_seq_contains_after_push(ops@.take(i as int), op, o);
                }
            }
            i = i + 1;
        }
        assert(ops@.take(ops@.len() as int) =~= ops@);
        r
    }

    /// The operations of the set, by ascending bit.
    pub fn ops(&self) -> (r: Vec<UserOperation>)
        ensures
            forall|op: UserOperation| #[trigger] r@.contains(op) == self@.contains(op),
            forall|i: int, j: int| 0 <= i < j < r@.len() ==> (#[trigger] r@[i]).spec_bit() < (#[trigger] r@[j]).spec_bit(),
    {
        let mut r: Vec<UserOperation> = Vec::new();
        let mut b: u64 = 0;
        while b < 64
            invariant
                b <= 64,
                forall|o: UserOperation| #[trigger] r@.contains(o) == (self@.contains(o) && o.spec_bit() < b),
                forall|a: int| 0 <= a < r@.len() ==> (#[trigger] r@[a]).spec_bit() < b,
                forall|x: int, y: int| 0 <= x < y < r@.len() ==> (#[trigger] r@[x]).spec_bit() < (#[trigger] r@[y]).spec_bit(),
            decreases 64 - b,
        {
            let ghost prev = r@;
            match UserOperation::of_bit(b) {
                Some(op) => {
                    if self.can(op) {
                        r.push(op);
                        proof {
                            assert forall|o: UserOperation| #[trigger] r@.contains(o) == (self@.contains(o) && o.spec_bit() < b + 1) by {
                                vstd::seq_lib::lemma_seq_contains_after_push(prev, op, o);
                                if o.spec_bit() == b {
                                    lemma_user_op(op);
                                }
                            }
                        }
                    } else {
                        proof {
                            assert forall|o: UserOperation| #[trigger] r@.contains(o) == (self@.contains(o) && o.spec_bit() < b + 1) by {
                                if o.spec_bit() == b {
                                    lemma_user_op(op);
                                }
                            }
                        }
                    }
                },
                None => {},
            }
            b = b + 1;
        }
        proof {
            assert forall|op: UserOperation| #[trigger] r@.contains(op) == self@.contains(op) by {
                lemma_user_op(op);
            }
        }
        r
    }
}

impl Default for UserPermissions {
    fn default() -> (r: Self)
        ensures
            r.wf(),
            r@ == set![UserOperation::CanGetUserInfo],
    {
        let v = vec![UserOperation::CanGetUserInfo];
        let r = Self::from_ops(&v);
        assert(r@ =~= set![UserOperation::CanGetUserInfo]) by {
            assert(v@[0] == UserOperation::CanGetUserInfo);
        }
        r
    }
}

impl Permissions<UserOperation> for UserPermissions {
    fn can(&self, op: UserOperation) -> (r: bool) {
        UserPermissions::can(self, op)
    }
}

/// What may be done with the news.
#[derive(Debug, Clone, Copy, PartialEq, Eq, Structural)]
pub enum NewsOperation {
    ReadNews,
    PostNews,
}

impl NewsOperation {
    /// The operation's bit in an access value, counted from the top.
    pub open spec fn spec_bit(self) -> u64 {
        match self {
            NewsOperation::ReadNews => 20,
            NewsOperation::PostNews => 21,
        }
    }

    pub fn bit(self) -> (r: u64)
        ensures
            r == self.spec_bit(),
    {
        match self {
            NewsOperation::ReadNews => 20,
            NewsOperation::PostNews => 21,
        }
    }

    /// Every operation, in the order they are declared.
    pub fn all() -> (r: Vec<Self>)
        ensures
            r@ == seq![NewsOperation::ReadNews, NewsOperation::PostNews],
    {
        let r = vec![NewsOperation::ReadNews, NewsOperation::PostNews];
        assert(r@ =~= seq![NewsOperation::ReadNews, NewsOperation::PostNews]);
        r
    }
}

impl NewsOperation {
    /// The operation with this bit, if there is one.
    pub fn of_bit(b: u64) -> (r: Option<Self>)
        ensures
            match r {
                Some(op) => op.spec_bit() == b,
                None => forall|op: Self| #[trigger] op.spec_bit() != b,
            },
    {
        match b {
            20 => Some(NewsOperation::ReadNews),
            21 => Some(NewsOperation::PostNews),
            _ => None,
        }
    }
}

/// The access bits of the news operations.
pub const NEWS_MASK: u64 = 0xc0000000000;

proof fn lemma_news_mask_bits()
    by (bit_vector)
    ensures
        NEWS_MASK & (1u64 << 43u64) != 0,
        NEWS_MASK & (1u64 << 42u64) != 0,
{
}

proof fn lemma_news_op(op: NewsOperation)
    ensures
        op.spec_bit() < 64,
        has_flag(NEWS_MASK, op.spec_bit()),
        wire_bit(op.spec_bit()) & NEWS_MASK == wire_bit(op.spec_bit()),
        forall|other: NewsOperation| other.spec_bit() == op.spec_bit() ==> other == op,
{
    lemma_news_mask_bits();
    lemma_flag_in_mask(NEWS_MASK, op.spec_bit());
}

/// A set of news operations, kept as its access bits.
#[derive(Debug, Clone, Copy, PartialEq, Eq, Structural)]
pub struct NewsPermissions {
    bits: u64,
}

impl View for NewsPermissions {
    type V = Set<NewsOperation>;

    closed spec fn view(&self) -> Set<NewsOperation> {
        Set::new(|op: NewsOperation| has_flag(self.bits, op.spec_bit()))
    }
}

impl NewsPermissions {
    /// Only bits of news operations are set.
    pub closed spec fn wf(&self) -> bool {
        self.bits & NEWS_MASK == self.bits
    }

    /// The access bits.
    pub closed spec fn wire(&self) -> u64 {
        self.bits
    }

    /// An operation is in the set exactly when its bit is set.
    pub proof fn lemma_view(&self, op: NewsOperation)
        ensures
            self@.contains(op) == has_flag(self.wire(), op.spec_bit()),
    {
    }

    /// No operation.
    pub fn empty() -> (r: Self)
        ensures
            r.wf(),
            r@ == Set::<NewsOperation>::empty(),
            r.wire() == 0,
    {
        let r = Self { bits: 0 };
        proof {
            lemma_no_flags();
            assert(r@ =~= Set::<NewsOperation>::empty());
            lemma_mask_zero(NEWS_MASK);
        }
        r
    }

    /// The news operations whose bits are set in an access value.
    pub fn from_bits(bits: i64) -> (r: Self)
        ensures
            r.wf(),
            r@ == Set::new(|op: NewsOperation| has_flag(bits as u64, op.spec_bit())),
            r.wire() == (bits as u64) & NEWS_MASK,
    {
        let r = Self { bits: (bits as u64) & NEWS_MASK };
        proof {
            lemma_mask_idempotent(bits as u64, NEWS_MASK);
            assert forall|op: NewsOperation| #[trigger] r@.contains(op) == has_flag(bits as u64, op.spec_bit()) by {
                lemma_news_op(op);
                lemma_masked_flag(bits as u64, NEWS_MASK, op.spec_bit());
            }
            assert(r@ =~= Set::new(|op: NewsOperation| has_flag(bits as u64, op.spec_bit())));
        }
        r
    }

    /// The access value with the bits of these operations set.
    pub fn to_bits(self) -> (r: i64)
        ensures
            r as u64 == self.wire(),
            forall|op: NewsOperation| has_flag(r as u64, #[trigger] op.spec_bit()) == self@.contains(op),
    {
        proof {
            lemma_cast_roundtrip(self.bits);
        }
        self.bits as i64
    }

    /// Whether the operation is in the set.
    pub fn can(&self, op: NewsOperation) -> (r: bool)
        ensures
            r == self@.contains(op),
    {
        let b = op.bit();
        proof {
            lemma_news_op(op);
        }
        let w: u64 = 1u64 << (63 - b);
        self.bits & w != 0
    }

    /// The set of the listed operations.
    pub fn from_ops(ops: &Vec<NewsOperation>) -> (r: Self)
        ensures
            r.wf(),
            forall|op| #[trigger] r@.contains(op) == ops@.contains(op),
    {
        let mut r = Self::empty();
        let mut i: usize = 0;
        while i < ops.len()
            invariant
                0 <= i <= ops@.len(),
                r.wf(),
                forall|o| #[trigger] r@.contains(o) == ops@.take(i as int).contains(o),
            decreases ops@.len() - i,
        {
            let op = ops[i];
            let b = op.bit();
            proof {
                lemma_news_op(op);
            }
            let w: u64 = 1u64 << (63 - b);
            let ghost before = r;
            r = Self { bits: r.bits | w };
            proof {
                lemma_union_in_mask(before.bits, w, NEWS_MASK);
                assert forall|o: NewsOperation| #[trigger] r@.contains(o) == (before@.contains(o) || o == op) by {
                    lemma_news_op(o);
                    lemma_or_flag(before.bits, b, o.spec_bit());
                }
                assert(ops@.take(i + 1) =~= ops@.take(i as int).push(op));
                assert forall|o| #[trigger] r@.contains(o) == ops@.take(i + 1).contains(o) by {
                    vstd::seq_lib::lemma_seq_contains_after_push(ops@.take(i as int), op, o);
                }
            }
            i = i + 1;
        }
        assert(ops@.take(ops@.len() as int) =~= ops@);
        r
    }

    /// The operations of the set, by ascending bit.
    pub fn ops(&self) -> (r: Vec<NewsOperation>)
        ensures
            forall|op: NewsOperation| #[trigger] r@.contains(op) == self@.contains(op),
            forall|i: int, j: int| 0 <= i < j < r@.len() ==> (#[trigger] r@[i]).spec_bit() < (#[trigger] r@[j]).spec_bit(),
    {
        let mut r: Vec<NewsOperation> = Vec::new();
        let mut b: u64 = 0;
        while b < 64
            invariant
                b <= 64,
                forall|o: NewsOperation| #[trigger] r@.contains(o) == (self@.contains(o) && o.spec_bit() < b),
                forall|a: int| 0 <= a < r@.len() ==> (#[trigger] r@[a]).spec_bit() < b,
                forall|x: int, y: int| 0 <= x < y < r@.len() ==> (#[trigger] r@[x]).spec_bit() < (#[trigger] r@[y]).spec_bit(),
            decreases 64 - b,
        {
            let ghost prev = r@;
            match NewsOperation::of_bit(b) {
                Some(op) => {
                    if self.can(op) {
                        r.push(op);
                        proof {
                            assert forall|o: NewsOperation| #[trigger] r@.contains(o) == (self@.contains(o) && o.spec_bit() < b + 1) by {
                                vstd::seq_lib::lemma_seq_contains_after_push(prev, op, o);
                                if o.spec_bit() == b {
                                    lemma_news_op(op);
                                }
                            }
                        }
                    } else {
                        proof {
                            assert forall|o: NewsOperation| #[trigger] r@.contains(o) == (self@.contains(o) && o.spec_bit() < b + 1) by {
                                if o.spec_bit() == b {
                                    lemma_news_op(op);
                                }
                            }
                        }
                    }
                },
                None => {},
            }
            b = b + 1;
        }
        proof {
            assert forall|op: NewsOperation| #[trigger] r@.contains(op) == self@.contains(op) by {
                lemma_news_op(op);
            }
        }
        r
    }
}

impl Default for NewsPermissions {
    fn default() -> (r: Self)
        ensures
            r.wf(),
            r@ == set![NewsOperation::ReadNews],
    {
        let v = vec![NewsOperation::ReadNews];
        let r = Self::from_ops(&v);
        assert(r@ =~= set![NewsOperation::ReadNews]) by {
            assert(v@[0] == NewsOperation::ReadNews);
        }
        r
    }
}

impl Permissions<NewsOperation> for NewsPermissions {
    fn can(&self, op: NewsOperation) -> (r: bool) {
        NewsPermissions::can(self, op)
    }
}

/// What may be done in chat.
#[derive(Debug, Clone, Copy, PartialEq, Eq, Structural)]
pub enum ChatOperation {
    ReadChat,
    SendChat,
}

impl ChatOperation {
    /// The operation's bit in an access value, counted from the top.
    pub open spec fn spec_bit(self) -> u64 {
        match self {
            ChatOperation::ReadChat => 9,
            ChatOperation::SendChat => 10,
        }
    }

    pub fn bit(self) -> (r: u64)
        ensures
            r == self.spec_bit(),
    {
        match self {
            ChatOperation::ReadChat => 9,
            ChatOperation::SendChat => 10,
        }
    }

    /// Every operation, in the order they are declared.
    pub fn all() -> (r: Vec<Self>)
        ensures
            r@ == seq![ChatOperation::ReadChat, ChatOperation::SendChat],
    {
        let r = vec![ChatOperation::ReadChat, ChatOperation::SendChat];
        assert(r@ =~= seq![ChatOperation::ReadChat, ChatOperation::SendChat]);
        r
    }
}

impl ChatOperation {
    /// The operation with this bit, if there is one.
    pub fn of_bit(b: u64) -> (r: Option<Self>)
        ensures
            match r {
                Some(op) => op.spec_bit() == b,
                None => forall|op: Self| #[trigger] op.spec_bit() != b,
            },
    {
        match b {
            9 => Some(ChatOperation::ReadChat),
            10 => Some(ChatOperation::SendChat),
            _ => None,
        }
    }
}

/// The access bits of the chat operations.
pub const CHAT_MASK: u64 = 0x60000000000000;

proof fn lemma_chat_mask_bits()
    by (bit_vector)
    ensures
        CHAT_MASK & (1u64 << 54u64) != 0,
        CHAT_MASK & (1u64 << 53u64) != 0,
{
}

proof fn lemma_chat_op(op: ChatOperation)
    ensures
        op.spec_bit() < 64,
        has_flag(CHAT_MASK, op.spec_bit()),
        wire_bit(op.spec_bit()) & CHAT_MASK == wire_bit(op.spec_bit()),
        forall|other: ChatOperation| other.spec_bit() == op.spec_bit() ==> other == op,
{
    lemma_chat_mask_bits();
    lemma_flag_in_mask(CHAT_MASK, op.spec_bit());
}

/// A set of chat operations, kept as its access bits.
#[derive(Debug, Clone, Copy, PartialEq, Eq, Structural)]
pub struct ChatPermissions {
    bits: u64,
}

impl View for ChatPermissions {
    type V = Set<ChatOperation>;

    closed spec fn view(&self) -> Set<ChatOperation> {
        Set::new(|op: ChatOperation| has_flag(self.bits, op.spec_bit()))
    }
}

impl ChatPermissions {
    /// Only bits of chat operations are set.
    pub closed spec fn wf(&self) -> bool {
        self.bits & CHAT_MASK == self.bits
    }

    /// The access bits.
    pub closed spec fn wire(&self) -> u64 {
        self.bits
    }

    /// An operation is in the set exactly when its bit is set.
    pub proof fn lemma_view(&self, op: ChatOperation)
        ensures
            self@.contains(op) == has_flag(self.wire(), op.spec_bit()),
    {
    }

    /// No operation.
    pub fn empty() -> (r: Self)
        ensures
            r.wf(),
            r@ == Set::<ChatOperation>::empty(),
            r.wire() == 0,
    {
        let r = Self { bits: 0 };
        proof {
            lemma_no_flags();
            assert(r@ =~= Set::<ChatOperation>::empty());
            lemma_mask_zero(CHAT_MASK);
        }
        r
    }

    /// The chat operations whose bits are set in an access value.
    pub fn from_bits(bits: i64) -> (r: Self)
        ensures
            r.wf(),
            r@ == Set::new(|op: ChatOperation| has_flag(bits as u64, op.spec_bit())),
            r.wire() == (bits as u64) & CHAT_MASK,
    {
        let r = Self { bits: (bits as u64) & CHAT_MASK };
        proof {
            lemma_mask_idempotent(bits as u64, CHAT_MASK);
            assert forall|op: ChatOperation| #[trigger] r@.contains(op) == has_flag(bits as u64, op.spec_bit()) by {
                lemma_chat_op(op);
                lemma_masked_flag(bits as u64, CHAT_MASK, op.spec_bit());
            }
            assert(r@ =~= Set::new(|op: ChatOperation| has_flag(bits as u64, op.spec_bit())));
        }
        r
    }

    /// The access value with the bits of these operations set.
    pub fn to_bits(self) -> (r: i64)
        ensures
            r as u64 == self.wire(),
            forall|op: ChatOperation| has_flag(r as u64, #[trigger] op.spec_bit()) == self@.contains(op),
    {
        proof {
            lemma_cast_roundtrip(self.bits);
        }
        self.bits as i64
    }

    /// Whether the operation is in the set.
    pub fn can(&self, op: ChatOperation) -> (r: bool)
        ensures
            r == self@.contains(op),
    {
        let b = op.bit();
        proof {
            lemma_chat_op(op);
        }
        let w: u64 = 1u64 << (63 - b);
        self.bits & w != 0
    }

    /// The set of the listed operations.
    pub fn from_ops(ops: &Vec<ChatOperation>) -> (r: Self)
        ensures
            r.wf(),
            forall|op| #[trigger] r@.contains(op) == ops@.contains(op),
    {
        let mut r = Self::empty();
        let mut i: usize = 0;
        while i < ops.len()
            invariant
                0 <= i <= ops@.len(),
                r.wf(),
                forall|o| #[trigger] r@.contains(o) == ops@.take(i as int).contains(o),
            decreases ops@.len() - i,
        {
            let op = ops[i];
            let b = op.bit();
            proof {
                lemma_chat_op(op);
            }
            let w: u64 = 1u64 << (63 - b);
            let ghost before = r;
            r = Self { bits: r.bits | w };
            proof {
                lemma_union_in_mask(before.bits, w, CHAT_MASK);
                assert forall|o: ChatOperation| #[trigger] r@.contains(o) == (before@.contains(o) || o == op) by {
                    lemma_chat_op(o);
                    lemma_or_flag(before.bits, b, o.spec_bit());
                }
                assert(ops@.take(i + 1) =~= ops@.take(i as int).push(op));
                assert forall|o| #[trigger] r@.contains(o) == ops@.take(i + 1).contains(o) by {
                    vstd::seq_lib::lemma_seq_contains_after_push(ops@.take(i as int), op, o);
                }
            }
            i = i + 1;
        }
        assert(ops@.take(ops@.len() as int) =~= ops@);
        r
    }

    /// The operations of the set, by ascending bit.
    pub fn ops(&self) -> (r: Vec<ChatOperation>)
        ensures
            forall|op: ChatOperation| #[trigger] r@.contains(op) == self@.contains(op),
            forall|i: int, j: int| 0 <= i < j < r@.len() ==> (#[trigger] r@[i]).spec_bit() < (#[trigger] r@[j]).spec_bit(),
    {
        let mut r: Vec<ChatOperation> = Vec::new();
        let mut b: u64 = 0;
        while b < 64
            invariant
                b <= 64,
                forall|o: ChatOperation| #[trigger] r@.contains(o) == (self@.contains(o) && o.spec_bit() < b),
                forall|a: int| 0 <= a < r@.len() ==> (#[trigger] r@[a]).spec_bit() < b,
                forall|x: int, y: int| 0 <= x < y < r@.len() ==> (#[trigger] r@[x]).spec_bit() < (#[trigger] r@[y]).spec_bit(),
            decreases 64 - b,
        {
            let ghost prev = r@;
            match ChatOperation::of_bit(b) {
                Some(op) => {
                    if self.can(op) {
                        r.push(op);
                        proof {
                            assert forall|o: ChatOperation| #[trigger] r@.contains(o) == (self@.contains(o) && o.spec_bit() < b + 1) by {
                                vstd::seq_lib::lemma_seq_contains_after_push(prev, op, o);
                                if o.spec_bit() == b {
                                    lemma_chat_op(op);
                                }
                            }
                        }
                    } else {
                        proof {
                            assert forall|o: ChatOperation| #[trigger] r@.contains(o) == (self@.contains(o) && o.spec_bit() < b + 1) by {
                                if o.spec_bit() == b {
                                    lemma_chat_op(op);
                                }
                            }
                        }
                    }
                },
                None => {},
            }
            b = b + 1;
        }
        proof {
            assert forall|op: ChatOperation| #[trigger] r@.contains(op) == self@.contains(op) by {
                lemma_chat_op(op);
            }
        }
        r
    }
}

impl Default for ChatPermissions {
    fn default() -> (r: Self)
        ensures
            r.wf(),
            r@ == set![ChatOperation::ReadChat, ChatOperation::SendChat],
    {
        let v = vec![ChatOperation::ReadChat, ChatOperation::SendChat];
        let r = Self::from_ops(&v);
        assert(r@ =~= set![ChatOperation::ReadChat, ChatOperation::SendChat]) by {
            assert(v@[0] == ChatOperation::ReadChat);
            assert(v@[1] == ChatOperation::SendChat);
        }
        r
    }
}

impl Permissions<ChatOperation> for ChatPermissions {
    fn can(&self, op: ChatOperation) -> (r: bool) {
        ChatPermissions::can(self, op)
    }
}

/// Other privileges.
#[derive(Debug, Clone, Copy, PartialEq, Eq, Structural)]
pub enum MiscOperation {
    CanUseAnyName,
    DontShowAgreement,
}

impl MiscOperation {
    /// The operation's bit in an access value, counted from the top.
    pub open spec fn spec_bit(self) -> u64 {
        match self {
            MiscOperation::CanUseAnyName => 26,
            MiscOperation::DontShowAgreement => 27,
        }
    }

    pub fn bit(self) -> (r: u64)
        ensures
            r == self.spec_bit(),
    {
        match self {
            MiscOperation::CanUseAnyName => 26,
            MiscOperation::DontShowAgreement => 27,
        }
    }

    /// Every operation, in the order they are declared.
    pub fn all() -> (r: Vec<Self>)
        ensures
            r@ == seq![MiscOperation::CanUseAnyName, MiscOperation::DontShowAgreement],
    {
        let r = vec![MiscOperation::CanUseAnyName, MiscOperation::DontShowAgreement];
        assert(r@ =~= seq![MiscOperation::CanUseAnyName, MiscOperation::DontShowAgreement]);
        r
    }
}

impl MiscOperation {
    /// The operation with this bit, if there is one.
    pub fn of_bit(b: u64) -> (r: Option<Self>)
        ensures
            match r {
                Some(op) => op.spec_bit() == b,
                None => forall|op: Self| #[trigger] op.spec_bit() != b,
            },
    {
        match b {
            26 => Some(MiscOperation::CanUseAnyName),
            27 => Some(MiscOperation::DontShowAgreement),
            _ => None,
        }
    }
}

/// The access bits of the misc operations.
pub const MISC_MASK: u64 = 0x3000000000;

proof fn lemma_misc_mask_bits()
    by (bit_vector)
    ensures
        MISC_MASK & (1u64 << 37u64) != 0,
        MISC_MASK & (1u64 << 36u64) != 0,
{
}

proof fn lemma_misc_op(op: MiscOperation)
    ensures
        op.spec_bit() < 64,
        has_flag(MISC_MASK, op.spec_bit()),
        wire_bit(op.spec_bit()) & MISC_MASK == wire_bit(op.spec_bit()),
        forall|other: MiscOperation| other.spec_bit() == op.spec_bit() ==> other == op,
{
    lemma_misc_mask_bits();
    lemma_flag_in_mask(MISC_MASK, op.spec_bit());
}

/// A set of misc operations, kept as its access bits.
#[derive(Debug, Clone, Copy, PartialEq, Eq, Structural)]
pub struct MiscPermissions {
    bits: u64,
}

impl View for MiscPermissions {
    type V = Set<MiscOperation>;

    closed spec fn view(&self) -> Set<MiscOperation> {
        Set::new(|op: MiscOperation| has_flag(self.bits, op.spec_bit()))
    }
}

impl MiscPermissions {
    /// Only bits of misc operations are set.
    pub closed spec fn wf(&self) -> bool {
        self.bits & MISC_MASK == self.bits
    }

    /// The access bits.
    pub closed spec fn wire(&self) -> u64 {
        self.bits
    }

    /// An operation is in the set exactly when its bit is set.
    pub proof fn lemma_view(&self, op: MiscOperation)
        ensures
            self@.contains(op) == has_flag(self.wire(), op.spec_bit()),
    {
    }

    /// No operation.
    pub fn empty() -> (r: Self)
        ensures
            r.wf(),
            r@ == Set::<MiscOperation>::empty(),
            r.wire() == 0,
    {
        let r = Self { bits: 0 };
        proof {
            lemma_no_flags();
            assert(r@ =~= Set::<MiscOperation>::empty());
            lemma_mask_zero(MISC_MASK);
        }
        r
    }

    /// The misc operations whose bits are set in an access value.
    pub fn from_bits(bits: i64) -> (r: Self)
        ensures
            r.wf(),
            r@ == Set::new(|op: MiscOperation| has_flag(bits as u64, op.spec_bit())),
            r.wire() == (bits as u64) & MISC_MASK,
    {
        let r = Self { bits: (bits as u64) & MISC_MASK };
        proof {
            lemma_mask_idempotent(bits as u64, MISC_MASK);
            assert forall|op: MiscOperation| #[trigger] r@.contains(op) == has_flag(bits as u64, op.spec_bit()) by {
                lemma_misc_op(op);
                lemma_masked_flag(bits as u64, MISC_MASK, op.spec_bit());
            }
            assert(r@ =~= Set::new(|op: MiscOperation| has_flag(bits as u64, op.spec_bit())));
        }
        r
    }

    /// The access value with the bits of these operations set.
    pub fn to_bits(self) -> (r: i64)
        ensures
            r as u64 == self.wire(),
            forall|op: MiscOperation| has_flag(r as u64, #[trigger] op.spec_bit()) == self@.contains(op),
    {
        proof {
            lemma_cast_roundtrip(self.bits);
        }
        self.bits as i64
    }

    /// Whether the operation is in the set.
    pub fn can(&self, op: MiscOperation) -> (r: bool)
        ensures
            r == self@.contains(op),
    {
        let b = op.bit();
        proof {
            lemma_misc_op(op);
        }
        let w: u64 = 1u64 << (63 - b);
        self.bits & w != 0
    }

    /// The set of the listed operations.
    pub fn from_ops(ops: &Vec<MiscOperation>) -> (r: Self)
        ensures
            r.wf(),
            forall|op| #[trigger] r@.contains(op) == ops@.contains(op),
    {
        let mut r = Self::empty();
        let mut i: usize = 0;
        while i < ops.len()
            invariant
                0 <= i <= ops@.len(),
                r.wf(),
                forall|o| #[trigger] r@.contains(o) == ops@.take(i as int).contains(o),
            decreases ops@.len() - i,
        {
            let op = ops[i];
            let b = op.bit();
            proof {
                lemma_misc_op(op);
            }
            let w: u64 = 1u64 << (63 - b);
            let ghost before = r;
            r = Self { bits: r.bits | w };
            proof {
                lemma_union_in_mask(before.bits, w, MISC_MASK);
                assert forall|o: MiscOperation| #[trigger] r@.contains(o) == (before@.contains(o) || o == op) by {
                    lemma_misc_op(o);
                    lemma_or_flag(before.bits, b, o.spec_bit());
                }
                assert(ops@.take(i + 1) =~= ops@.take(i as int).push(op));
                assert forall|o| #[trigger] r@.contains(o) == ops@.take(i + 1).contains(o) by {
                    vstd::seq_lib::lemma_seq_contains_after_push(ops@.take(i as int), op, o);
                }
            }
            i = i + 1;
        }
        assert(ops@.take(ops@.len() as int) =~= ops@);
        r
    }

    /// The operations of the set, by ascending bit.
    pub fn ops(&self) -> (r: Vec<MiscOperation>)
        ensures
            forall|op: MiscOperation| #[trigger] r@.contains(op) == self@.contains(op),
            forall|i: int, j: int| 0 <= i < j < r@.len() ==> (#[trigger] r@[i]).spec_bit() < (#[trigger] r@[j]).spec_bit(),
    {
        let mut r: Vec<MiscOperation> = Vec::new();
        let mut b: u64 = 0;
        while b < 64
            invariant
                b <= 64,
                forall|o: MiscOperation| #[trigger] r@.contains(o) == (self@.contains(o) && o.spec_bit() < b),
                forall|a: int| 0 <= a < r@.len() ==> (#[trigger] r@[a]).spec_bit() < b,
                forall|x: int, y: int| 0 <= x < y < r@.len() ==> (#[trigger] r@[x]).spec_bit() < (#[trigger] r@[y]).spec_bit(),
            decreases 64 - b,
        {
            let ghost prev = r@;
            match MiscOperation::of_bit(b) {
                Some(op) => {
                    if self.can(op) {
                        r.push(op);
                        proof {
                            assert forall|o: MiscOperation| #[trigger] r@.contains(o) == (self@.contains(o) && o.spec_bit() < b + 1) by {
                                vstd::seq_lib::lemma_seq_contains_after_push(prev, op, o);
                                if o.spec_bit() == b {
                                    lemma_misc_op(op);
                                }
                            }
                        }
                    } else {
                        proof {
                            assert forall|o: MiscOperation| #[trigger] r@.contains(o) == (self@.contains(o) && o.spec_bit() < b + 1) by {
                                if o.spec_bit() == b {
                                    lemma_misc_op(op);
                                }
                            }
                        }
                    }
                },
                None => {},
            }
            b = b + 1;
        }
        proof {
            assert forall|op: MiscOperation| #[trigger] r@.contains(op) == self@.contains(op) by {
                lemma_misc_op(op);
            }
        }
        r
    }
}

impl Default for MiscPermissions {
    fn default() -> (r: Self)
        ensures
            r.wf(),
            r@ == set![MiscOperation::CanUseAnyName],
    {
        let v = vec![MiscOperation::CanUseAnyName];
        let r = Self::from_ops(&v);
        assert(r@ =~= set![MiscOperation::CanUseAnyName]) by {
            assert(v@[0] == MiscOperation::CanUseAnyName);
        }
        r
    }
}

impl Permissions<MiscOperation> for MiscPermissions {
    fn can(&self, op: MiscOperation) -> (r: bool) {
        MiscPermissions::can(self, op)
    }
}

/// The privileges of an account, kind by kind.
#[derive(Debug, Clone, Copy, PartialEq, Eq, Structural)]
pub struct UserAccountPermissions {
    pub file: FilePermissions,
    pub user: UserPermissions,
    pub news: NewsPermissions,
    pub chat: ChatPermissions,
    pub misc: MiscPermissions,
}

/// The privileges as values.
pub struct UserAccountPermissionsView {
    pub file: Set<FileOperation>,
    pub user: Set<UserOperation>,
    pub news: Set<NewsOperation>,
    pub chat: Set<ChatOperation>,
    pub misc: Set<MiscOperation>,
}

impl View for UserAccountPermissions {
    type V = UserAccountPermissionsView;

    open spec fn view(&self) -> UserAccountPermissionsView {
        UserAccountPermissionsView {
            file: self.file@,
            user: self.user@,
            news: self.news@,
            chat: self.chat@,
            misc: self.misc@,
        }
    }
}

/// Every access bit that stands for some privilege.
pub const ACCESS_MASK: u64 = 0xffe3cfff00000000;

proof fn lemma_masks_disjoint(f: u64, u: u64, n: u64, c: u64, m: u64)
    by (bit_vector)
    requires
        f & 0xff80004f00000000u64 == f,
        u & 0x3c38000000000u64 == u,
        n & 0xc0000000000u64 == n,
        c & 0x60000000000000u64 == c,
        m & 0x3000000000u64 == m,
    ensures
        (f | u | n | c | m) & 0xff80004f00000000u64 == f,
        (f | u | n | c | m) & 0x3c38000000000u64 == u,
        (f | u | n | c | m) & 0xc0000000000u64 == n,
        (f | u | n | c | m) & 0x60000000000000u64 == c,
        (f | u | n | c | m) & 0x3000000000u64 == m,
{
}

proof fn lemma_all_masks(x: u64)
    by (bit_vector)
    ensures
        (x & 0xff80004f00000000u64) | (x & 0x3c38000000000u64) | (x & 0xc0000000000u64) | (x
            & 0x60000000000000u64) | (x & 0x3000000000u64) == x & 0xffe3cfff00000000u64,
{
}

proof fn lemma_cast_roundtrip(x: u64)
    by (bit_vector)
    ensures
        ((x as i64) as u64) == x,
{
}

impl UserAccountPermissions {
    /// Every kind of privilege has only its own bits.
    pub open spec fn wf(&self) -> bool {
        &&& self.file.wf()
        &&& self.user.wf()
        &&& self.news.wf()
        &&& self.chat.wf()
        &&& self.misc.wf()
    }

    /// The privileges an access value grants.
    pub fn from_bits(i: i64) -> (r: Self)
        ensures
            r.wf(),
            r.file@ == Set::new(|op: FileOperation| has_flag(i as u64, op.spec_bit())),
            r.user@ == Set::new(|op: UserOperation| has_flag(i as u64, op.spec_bit())),
            r.news@ == Set::new(|op: NewsOperation| has_flag(i as u64, op.spec_bit())),
            r.chat@ == Set::new(|op: ChatOperation| has_flag(i as u64, op.spec_bit())),
            r.misc@ == Set::new(|op: MiscOperation| has_flag(i as u64, op.spec_bit())),
            r.wire() == (i as u64) & ACCESS_MASK,
    {
        let r = Self {
            file: FilePermissions::from_bits(i),
            user: UserPermissions::from_bits(i),
            news: NewsPermissions::from_bits(i),
            chat: ChatPermissions::from_bits(i),
            misc: MiscPermissions::from_bits(i),
        };
        proof {
            lemma_all_masks(i as u64);
        }
        r
    }

    /// The access value of all the privileges.
    pub open spec fn wire(&self) -> u64 {
        self.file.wire() | self.user.wire() | self.news.wire() | self.chat.wire() | self.misc.wire()
    }

    /// The access value granting these privileges.
    pub fn to_bits(self) -> (r: i64)
        ensures
            r as u64 == self.wire(),
    {
        let file = self.file.to_bits();
        let user = self.user.to_bits();
        let news = self.news.to_bits();
        let chat = self.chat.to_bits();
        let misc = self.misc.to_bits();
        let r = file | user | news | chat | misc;
        assert(r as u64 == (file as u64) | (user as u64) | (news as u64) | (chat as u64) | (misc as u64)) by (bit_vector)
            requires
                r == file | user | news | chat | misc,
        ;
        r
    }

    /// The privileges as an access parameter.
    pub fn to_access(self) -> (r: UserAccess)
        ensures
            r.0 as u64 == self.wire(),
    {
        UserAccess(self.to_bits())
    }
}

impl Default for UserAccountPermissions {
    fn default() -> (r: Self)
        ensures
            r.wf(),
            r.file@ == set![FileOperation::Download, FileOperation::UploadToDropbox],
            r.user@ == set![UserOperation::CanGetUserInfo],
            r.news@ == set![NewsOperation::ReadNews],
            r.chat@ == set![ChatOperation::ReadChat, ChatOperation::SendChat],
            r.misc@ == set![MiscOperation::CanUseAnyName],
    {
        Self {
            file: FilePermissions::default(),
            user: UserPermissions::default(),
            news: NewsPermissions::default(),
            chat: ChatPermissions::default(),
            misc: MiscPermissions::default(),
        }
    }
}

/// Privileges written as an access value and read back are the same
/// privileges.
pub proof fn law_access_roundtrip(p: UserAccountPermissions)
    requires
        p.wf(),
    ensures
        p.wire() & FILE_MASK == p.file.wire(),
        p.wire() & USER_MASK == p.user.wire(),
        p.wire() & NEWS_MASK == p.news.wire(),
        p.wire() & CHAT_MASK == p.chat.wire(),
        p.wire() & MISC_MASK == p.misc.wire(),
        Set::new(|op: FileOperation| has_flag(p.wire(), op.spec_bit())) == p.file@,
        Set::new(|op: UserOperation| has_flag(p.wire(), op.spec_bit())) == p.user@,
        Set::new(|op: NewsOperation| has_flag(p.wire(), op.spec_bit())) == p.news@,
        Set::new(|op: ChatOperation| has_flag(p.wire(), op.spec_bit())) == p.chat@,
        Set::new(|op: MiscOperation| has_flag(p.wire(), op.spec_bit())) == p.misc@,
{
    lemma_masks_disjoint(p.file.wire(), p.user.wire(), p.news.wire(), p.chat.wire(), p.misc.wire());
    let w = p.wire();
    assert forall|op: FileOperation| #[trigger] has_flag(w, op.spec_bit()) == p.file@.contains(op) by {
        lemma_file_op(op);
        lemma_masked_flag(w, FILE_MASK, op.spec_bit());
        p.file.lemma_view(op);
    }
    assert forall|op: UserOperation| #[trigger] has_flag(w, op.spec_bit()) == p.user@.contains(op) by {
        lemma_user_op(op);
        lemma_masked_flag(w, USER_MASK, op.spec_bit());
        p.user.lemma_view(op);
    }
    assert forall|op: NewsOperation| #[trigger] has_flag(w, op.spec_bit()) == p.news@.contains(op) by {
        lemma_news_op(op);
        lemma_masked_flag(w, NEWS_MASK, op.spec_bit());
        p.news.lemma_view(op);
    }
    assert forall|op: ChatOperation| #[trigger] has_flag(w, op.spec_bit()) == p.chat@.contains(op) by {
        lemma_chat_op(op);
        lemma_masked_flag(w, CHAT_MASK, op.spec_bit());
        p.chat.lemma_view(op);
    }
    assert forall|op: MiscOperation| #[trigger] has_flag(w, op.spec_bit()) == p.misc@.contains(op) by {
        lemma_misc_op(op);
        lemma_masked_flag(w, MISC_MASK, op.spec_bit());
        p.misc.lemma_view(op);
    }
    assert(Set::new(|op: FileOperation| has_flag(w, op.spec_bit())) =~= p.file@);
    assert(Set::new(|op: UserOperation| has_flag(w, op.spec_bit())) =~= p.user@);
    assert(Set::new(|op: NewsOperation| has_flag(w, op.spec_bit())) =~= p.news@);
    assert(Set::new(|op: ChatOperation| has_flag(w, op.spec_bit())) =~= p.chat@);
    assert(Set::new(|op: MiscOperation| has_flag(w, op.spec_bit())) =~= p.misc@);
}

/// The name, login and password of an account.
#[derive(Debug, Clone, PartialEq, Eq)]
pub struct UserAccountIdentity {
    pub name: String,
    pub login: String,
    pub password: Password,
}

/// An account: who it is and what it may do.
#[derive(Debug, Clone, PartialEq, Eq)]
pub struct UserAccount {
    pub identity: UserAccountIdentity,
    pub permissions: UserAccountPermissions,
}

impl UserAccount {
    /// The account as an administrator is shown it: the name, the login
    /// obfuscated, an empty password and the access value.
    pub fn into_reply(self) -> (r: GetUserReply)
        ensures
            r.username@ == encode_utf8(self.identity.name@),
            r.user_login@ == inverted(encode_utf8(self.identity.login@)),
            r.user_password@ == Seq::<u8>::empty(),
            r.user_access.0 as u64 == self.permissions.wire(),
    {
        let username = Nickname::from_string(self.identity.name);
        let user_login = UserLogin::from_string(self.identity.login).invert();
        let user_password = WirePassword::from_cleartext(&[]);
        let user_access = self.permissions.to_access();
        GetUserReply { username, user_login, user_password, user_access }
    }
}

/// An account as its file holds it.
#[derive(Debug, Clone, PartialEq, Eq)]
pub struct UserDataFile(pub UserAccount);

/// A user who is connected.
pub struct OnlineUser;

/// What is shown of a connected user.
#[derive(Debug, Clone, PartialEq, Eq)]
pub struct UserInfo {
    pub username: String,
    pub nickname: String,
    pub icon_id: i32,
    pub address: String,
}

/// The connected users.
#[derive(Debug, Clone, PartialEq, Eq)]
pub struct UserList {
    pub users: Vec<UserInfo>,
}

/// The files an application serves.
pub trait Files {
}

/// Whether a login goes through, given what checking the credentials
/// answered: refused with `AuthenticationFailure` when they were not
/// accepted, and with the check's own error when it failed.
pub fn login_result(authenticated: Result<bool, Error>) -> (r: Result<(), Error>)
    ensures
        match authenticated {
            Ok(true) => r is Ok,
            Ok(false) => r == Err::<(), Error>(Error::AuthenticationFailure),
            Err(e) => r == Err::<(), Error>(e),
        },
{
    match authenticated {
        Ok(true) => Ok(()),
        Ok(false) => Err(Error::AuthenticationFailure),
        Err(e) => Err(e),
    }
}

/// The news an application keeps.
pub trait News {
}

/// The messages an application passes on.
pub trait Messages {
}

} // verus!
