//! File transfers: the downloads and uploads that wait for their
//! connection, by reference number; what a download request is answered;
//! what a download sends, in order; and how far an upload has got through
//! its forks. Connections and file contents are the caller's part.

use vstd::prelude::*;

use crate::protocol::fork::{
    fork_header_bytes, fork_header_for, info_fork_bytes, DataSource, FlattenedFileObject, ForkHeader,
    ForkType,
};
use crate::protocol::messages::{flattened_header_bytes, DownloadFileReply};
use crate::protocol::parameters::{FileSize, ReferenceNumber, TransferSize};
use crate::protocol::ProtocolError;
use std::collections::HashMap;

verus! {

/// Why a transfer failed.
#[derive(Debug)]
pub enum TransferError {
    IO(std::io::Error),
    Protocol(ProtocolError),
    /// A size does not fit the field it goes in.
    FileSize,
    /// No transfer waits under the reference number given.
    InvalidRequest,
}

/// The transfers waiting for their connection, as values.
pub struct RequestsView<T> {
    pub downloads: Map<u32, T>,
    pub uploads: Map<u32, T>,
    /// The number the next transfer gets.
    pub next: u32,
}

/// The downloads and uploads that wait for their connection, each under the
/// reference number it was given; numbers are handed out in turn.
#[derive(Debug)]
pub struct Requests<T> {
    downloads: HashMap<u32, T>,
    uploads: HashMap<u32, T>,
    next_id: u32,
}

/// Whether every number in use was handed out before `next`.
pub open spec fn numbers_below<T>(m: Map<u32, T>, next: u32) -> bool {
    forall|k: u32| #[trigger] m.dom().contains(k) ==> k < next
}

/// The transfers after a download is added under the next number.
pub open spec fn with_download<T>(v: RequestsView<T>, conn: T) -> RequestsView<T> {
    RequestsView { downloads: v.downloads.insert(v.next, conn), next: (v.next + 1) as u32, ..v }
}

/// The transfers after an upload is added under the next number.
pub open spec fn with_upload<T>(v: RequestsView<T>, conn: T) -> RequestsView<T> {
    RequestsView { uploads: v.uploads.insert(v.next, conn), next: (v.next + 1) as u32, ..v }
}

impl<T> View for Requests<T> {
    type V = RequestsView<T>;

    closed spec fn view(&self) -> RequestsView<T> {
        RequestsView { downloads: self.downloads@, uploads: self.uploads@, next: self.next_id }
    }
}

impl<T> Requests<T> {
    /// Every number in use was handed out.
    pub closed spec fn wf(&self) -> bool {
        &&& numbers_below(self@.downloads, self.next_id)
        &&& numbers_below(self@.uploads, self.next_id)
    }

    /// Every number in use was handed out before the next one.
    pub proof fn lemma_numbers_below(&self)
        requires
            self.wf(),
        ensures
            numbers_below(self@.downloads, self@.next),
            numbers_below(self@.uploads, self@.next),
    {
    }

    /// Nothing waits; the first number is zero.
    pub fn new() -> (r: Self)
        ensures
            r.wf(),
            r@.downloads == Map::<u32, T>::empty(),
            r@.uploads == Map::<u32, T>::empty(),
            r@.next == 0,
    {
        Requests { downloads: HashMap::new(), uploads: HashMap::new(), next_id: 0 }
    }

    /// The number the next transfer gets.
    pub fn next_number(&self) -> (r: u32)
        ensures
            r == self@.next,
    {
        self.next_id
    }

    /// Hands out the next number.
    fn next_id(&mut self) -> (r: u32)
        requires
            old(self).next_id < u32::MAX,
        ensures
            r == old(self).next_id,
            final(self).next_id == old(self).next_id + 1,
            final(self).downloads == old(self).downloads,
            final(self).uploads == old(self).uploads,
    {
        let id = self.next_id;
        self.next_id = self.next_id + 1;
        id
    }

    /// Adds a download that waits for its connection, under the next number.
    pub fn add_download(&mut self, conn: T) -> (r: ReferenceNumber)
        requires
            old(self).wf(),
            old(self)@.next < u32::MAX,
        ensures
            final(self).wf(),
            r.0 == old(self)@.next as i32,
            final(self)@ == with_download(old(self)@, conn),
    {
        broadcast use vstd::std_specs::hash::group_hash_axioms;
        let id = self.next_id();
        self.downloads.insert(id, conn);
        ReferenceNumber(id as i32)
    }

    /// Adds an upload that waits for its connection, under the next number.
    pub fn add_upload(&mut self, conn: T) -> (r: ReferenceNumber)
        requires
            old(self).wf(),
            old(self)@.next < u32::MAX,
        ensures
            final(self).wf(),
            r.0 == old(self)@.next as i32,
            final(self)@ == with_upload(old(self)@, conn),
    {
        broadcast use vstd::std_specs::hash::group_hash_axioms;
        let id = self.next_id();
        self.uploads.insert(id, conn);
        ReferenceNumber(id as i32)
    }

    /// Takes the download waiting under the reference number, if there is
    /// one; it waits no longer.
    pub fn get_download(&mut self, id: ReferenceNumber) -> (r: Option<T>)
        requires
            old(self).wf(),
        ensures
            final(self).wf(),
            final(self)@.uploads == old(self)@.uploads,
            final(self)@.next == old(self)@.next,
            final(self)@.downloads == old(self)@.downloads.remove(id.0 as u32),
            match r {
                Some(c) => old(self)@.downloads.dom().contains(id.0 as u32) && c == old(self)@.downloads[id.0 as u32],
                None => !old(self)@.downloads.dom().contains(id.0 as u32),
            },
    {
        broadcast use vstd::std_specs::hash::group_hash_axioms;
        let key = id.0 as u32;
        self.downloads.remove(&key)
    }

    /// Takes the upload waiting under the reference number, if there is
    /// one; it waits no longer.
    pub fn get_upload(&mut self, id: ReferenceNumber) -> (r: Option<T>)
        requires
            old(self).wf(),
        ensures
            final(self).wf(),
            final(self)@.downloads == old(self)@.downloads,
            final(self)@.next == old(self)@.next,
            final(self)@.uploads == old(self)@.uploads.remove(id.0 as u32),
            match r {
                Some(c) => old(self)@.uploads.dom().contains(id.0 as u32) && c == old(self)@.uploads[id.0 as u32],
                None => !old(self)@.uploads.dom().contains(id.0 as u32),
            },
    {
        broadcast use vstd::std_specs::hash::group_hash_axioms;
        let key = id.0 as u32;
        self.uploads.remove(&key)
    }
}

/// A download added under a number is what is taken under that number, and
/// taking it leaves the downloads as they were before it was added: the
/// number was not in use, and is not reused.
pub proof fn law_download_taken_once<T>(v: RequestsView<T>, conn: T)
    requires
        numbers_below(v.downloads, v.next),
        v.next < u32::MAX,
    ensures
        !v.downloads.dom().contains(v.next),
        with_download(v, conn).downloads.dom().contains(v.next),
        with_download(v, conn).downloads[v.next] == conn,
        with_download(v, conn).downloads.remove(v.next) == v.downloads,
        numbers_below(with_download(v, conn).downloads, with_download(v, conn).next),
{
    assert(with_download(v, conn).downloads.remove(v.next) =~= v.downloads);
}

/// An upload added under a number is what is taken under that number, and
/// taking it leaves the uploads as they were before it was added.
pub proof fn law_upload_taken_once<T>(v: RequestsView<T>, conn: T)
    requires
        numbers_below(v.uploads, v.next),
        v.next < u32::MAX,
    ensures
        !v.uploads.dom().contains(v.next),
        with_upload(v, conn).uploads.dom().contains(v.next),
        with_upload(v, conn).uploads[v.next] == conn,
        with_upload(v, conn).uploads.remove(v.next) == v.uploads,
        numbers_below(with_upload(v, conn).uploads, with_upload(v, conn).next),
{
    assert(with_upload(v, conn).uploads.remove(v.next) =~= v.uploads);
}

/// The length of a fork of the file, or zero when it has none.
pub open spec fn fork_len_or_zero(forks: Map<ForkType, u64>, t: ForkType) -> int {
    if forks.dom().contains(t) {
        forks[t] as int
    } else {
        0
    }
}

/// The size of a file's data and resource forks together.
pub open spec fn file_size_of(forks: Map<ForkType, u64>) -> int {
    fork_len_or_zero(forks, ForkType::Data) + fork_len_or_zero(forks, ForkType::Resource)
}

/// The answer to a download of `file` from `offset`, once it waits under
/// `reference`: the size of the transfer (the information fork as announced
/// and both forks, less the offset) and of the file; fails when either does
/// not fit a 32-bit field.
pub fn download_reply<S>(file: &FlattenedFileObject<S>, reference: ReferenceNumber, offset: u64) -> (r: Result<
    DownloadFileReply,
    TransferError,
>)
    requires
        file.wf(),
        74 + file.info.file_name@.len() + file.info.comment@.len() <= usize::MAX,
        74 + file.info.file_name@.len() + file.info.comment@.len() + file_size_of(file.forks()) <= u64::MAX,
        offset <= 74 + file.info.file_name@.len() + file.info.comment@.len() + file_size_of(file.forks()),
    ensures
        ({
            let file_size = file_size_of(file.forks());
            let transfer_size = 74 + file.info.file_name@.len() + file.info.comment@.len() + file_size - offset;
            if transfer_size > i32::MAX || file_size > i32::MAX {
                r matches Err(TransferError::FileSize)
            } else {
                r matches Ok(d) && d.transfer_size.0 == transfer_size && d.file_size.0 == file_size && d.reference
                    == reference && d.waiting_count is None
            }
        }),
{
    let data = match file.fork_len(ForkType::Data) {
        Some(n) => n,
        None => 0,
    };
    let rsrc = match file.fork_len(ForkType::Resource) {
        Some(n) => n,
        None => 0,
    };
    let file_size = data + rsrc;
    let info_size = file.info.size();
    let transfer_size = info_size as u64 + file_size - offset;
    if transfer_size > 0x7fff_ffff {
        return Err(TransferError::FileSize);
    }
    if file_size > 0x7fff_ffff {
        return Err(TransferError::FileSize);
    }
    Ok(
        DownloadFileReply {
            transfer_size: TransferSize(transfer_size as i32),
            file_size: FileSize(file_size as i32),
            reference,
            waiting_count: None,
        },
    )
}

/// The bytes a download starts with: the file header, the header of the
/// information fork, and the information fork.
pub fn download_start<S>(file: &FlattenedFileObject<S>) -> (r: Vec<u8>)
    requires
        file.wf(),
        74 + file.info.file_name@.len() + file.info.comment@.len() <= usize::MAX,
    ensures
        file.forks().dom().finite(),
        r@ == flattened_header_bytes((file.forks().dom().len() + 1) as i16) + fork_header_bytes(
            fork_header_for(
                ForkType::Info,
                (74 + file.info.file_name@.len() + file.info.comment@.len()) as int,
            ),
        ) + info_fork_bytes(file.info),
{
    let header = file.header();
    let (info_header, info) = file.info();
    let mut out = header.into_bytes();
    let h = info_header.to_bytes();
    crate::protocol::codec::push_bytes(&mut out, h.as_slice());
    let i = info.to_bytes();
    crate::protocol::codec::push_bytes(&mut out, i.as_slice());
    assert(info_fork_bytes(info) =~= info_fork_bytes(file.info));
    out
}

/// The header a fork of type `t` and length `len` is sent with.
pub open spec fn sent_header(t: ForkType, len: u64) -> ForkHeader {
    fork_header_for(t, (len as usize) as i32 as int)
}

/// Takes the forks a download sends after the information fork, in the
/// order it sends them: the resource fork, then the data fork, each with its
/// header and each when the file has it.
pub fn take_download_forks<S>(file: &mut FlattenedFileObject<S>) -> (r: Vec<(ForkHeader, DataSource<S>)>)
    requires
        old(file).wf(),
    ensures
        final(file).wf(),
        final(file).info == old(file).info,
        final(file).forks() == old(file).forks().remove(ForkType::Resource).remove(ForkType::Data),
        ({
            let f = old(file).forks();
            let has_rsrc = f.dom().contains(ForkType::Resource);
            let has_data = f.dom().contains(ForkType::Data);
            &&& r@.len() == (if has_rsrc { 1int } else { 0 }) + (if has_data { 1int } else { 0 })
            &&& has_rsrc ==> r@[0].0 == sent_header(ForkType::Resource, f[ForkType::Resource]) && r@[0].1.len
                == f[ForkType::Resource]
            &&& has_data ==> r@[r@.len() - 1].0 == sent_header(ForkType::Data, f[ForkType::Data])
                && r@[r@.len() - 1].1.len == f[ForkType::Data]
        }),
{
    let mut out: Vec<(ForkHeader, DataSource<S>)> = Vec::new();
    match file.take_fork(ForkType::Resource) {
        Some(p) => out.push(p),
        None => {},
    }
    match file.take_fork(ForkType::Data) {
        Some(p) => out.push(p),
        None => {},
    }
    out
}

/// How far the reading of an upload's forks has got: how many forks,
/// counting the information fork, were read.
#[derive(Debug)]
pub struct ForkCursor {
    pub position: u16,
}

impl ForkCursor {
    /// Nothing read yet.
    pub fn new() -> (r: Self)
        ensures
            r.position == 0,
    {
        ForkCursor { position: 0 }
    }

    /// The information fork was read.
    pub fn info_read(&mut self)
        ensures
            final(self).position == 1,
    {
        self.position = 1;
    }

    /// Takes the header of the first fork of an upload, which must be the
    /// information fork: refused with `ParseHeader` otherwise.
    pub fn first_fork(&mut self, header: &ForkHeader) -> (r: Result<(), ProtocolError>)
        requires
            old(self).position == 0,
        ensures
            header.fork_type is Info ==> r is Ok && final(self).position == 1,
            !(header.fork_type is Info) ==> (r matches Err(ProtocolError::ParseHeader) && final(self).position
                == 0),
    {
        match header.fork_type {
            ForkType::Info => {
                self.info_read();
                Ok(())
            },
            _ => Err(ProtocolError::ParseHeader),
        }
    }

    /// Whether another fork is due, of a file with `fork_count` forks; when
    /// one is, it counts as read.
    pub fn next_due(&mut self, fork_count: u16) -> (r: bool)
        ensures
            r == (old(self).position < fork_count),
            final(self).position == if r { (old(self).position + 1) as u16 } else { old(self).position },
    {
        if self.position >= fork_count {
            return false;
        }
        self.position = self.position + 1;
        true
    }
}

/// What an upload does with a fork after the information fork.
#[derive(Debug, Clone, Copy, PartialEq, Eq, Structural)]
pub enum ForkUse {
    /// The fork's bytes become the file's data.
    DataFile,
    /// The fork's bytes become the file's resource fork.
    ResourceFork,
    /// The fork is read and left aside.
    Skip,
}

/// What an upload does with a fork, by its type.
pub fn fork_use(header: &ForkHeader) -> (r: ForkUse)
    ensures
        header.fork_type is Data ==> r == ForkUse::DataFile,
        header.fork_type is Resource ==> r == ForkUse::ResourceFork,
        !(header.fork_type is Data) && !(header.fork_type is Resource) ==> r == ForkUse::Skip,
{
    match header.fork_type {
        ForkType::Data => ForkUse::DataFile,
        ForkType::Resource => ForkUse::ResourceFork,
        _ => ForkUse::Skip,
    }
}

} // verus!
