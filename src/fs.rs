use crate::readiness::{poll_closed, poll_ready, Readiness, WakerRegistry};
use vstd::prelude::*;

verus! {

/// The kind of a filesystem entry, as a set of flags.
#[derive(Clone, Copy, Debug, Default, PartialEq, Eq)]
pub struct FileType {
    pub dir: bool,
    pub file: bool,
    pub symlink: bool,
    pub char_device: bool,
    pub block_device: bool,
    pub socket: bool,
    pub fifo: bool,
}

impl FileType {
    pub fn is_dir(&self) -> (r: bool)
        ensures
            r == self.dir,
    {
        self.dir
    }

    pub fn is_file(&self) -> (r: bool)
        ensures
            r == self.file,
    {
        self.file
    }

    pub fn is_symlink(&self) -> (r: bool)
        ensures
            r == self.symlink,
    {
        self.symlink
    }

    pub fn is_char_device(&self) -> (r: bool)
        ensures
            r == self.char_device,
    {
        self.char_device
    }

    pub fn is_block_device(&self) -> (r: bool)
        ensures
            r == self.block_device,
    {
        self.block_device
    }

    pub fn is_socket(&self) -> (r: bool)
        ensures
            r == self.socket,
    {
        self.socket
    }

    pub fn is_fifo(&self) -> (r: bool)
        ensures
            r == self.fifo,
    {
        self.fifo
    }
}

/// Metadata of a filesystem entry; times are nanoseconds since the UNIX epoch.
#[derive(Clone, Copy, Debug, Default, PartialEq, Eq)]
pub struct Metadata {
    pub ft: FileType,
    pub accessed: u64,
    pub created: u64,
    pub modified: u64,
    pub len: u64,
}

impl Metadata {
    pub fn is_file(&self) -> (r: bool)
        ensures
            r == self.ft.file,
    {
        self.ft.is_file()
    }

    pub fn is_dir(&self) -> (r: bool)
        ensures
            r == self.ft.dir,
    {
        self.ft.is_dir()
    }

    pub fn accessed(&self) -> (r: u64)
        ensures
            r == self.accessed,
    {
        self.accessed
    }

    pub fn created(&self) -> (r: u64)
        ensures
            r == self.created,
    {
        self.created
    }

    pub fn modified(&self) -> (r: u64)
        ensures
            r == self.modified,
    {
        self.modified
    }

    pub fn file_type(&self) -> (r: FileType)
        ensures
            r == self.ft,
    {
        self.ft
    }

    pub fn len(&self) -> (r: u64)
        ensures
            r == self.len,
    {
        self.len
    }
}

/// A host file descriptor.
#[derive(Clone, Copy, Debug, PartialEq, Eq)]
pub struct FileDescriptor(pub usize);

impl FileDescriptor {
    pub fn from_u32(a: u32) -> (r: Self)
        ensures
            r.0 == a,
    {
        FileDescriptor(a as usize)
    }

    /// The descriptor as a `u32`, truncated where it does not fit.
    pub fn to_u32(self) -> (r: u32)
        ensures
            r == self.0 as u32,
    {
        self.0 as u32
    }
}

/// How stdio handlers of a process operate.
#[derive(Clone, Copy, Debug, PartialEq, Eq)]
pub enum StdioMode {
    /// Stdio is piped to a file descriptor.
    Piped,
    /// Stdio inherits the handlers of the parent.
    Inherit,
    /// Stdio is dropped.
    Null,
    /// Stdio goes to the log handler.
    Log,
}

/// The kinds of host I/O error that a filesystem error corresponds to.
#[derive(Clone, Copy, Debug, PartialEq, Eq)]
pub enum IoErrorKind {
    AddrInUse,
    AddrNotAvailable,
    AlreadyExists,
    BrokenPipe,
    ConnectionAborted,
    ConnectionRefused,
    ConnectionReset,
    Interrupted,
    InvalidData,
    InvalidInput,
    NotConnected,
    NotFound,
    PermissionDenied,
    TimedOut,
    UnexpectedEof,
    WouldBlock,
    WriteZero,
    Other,
    /// Any kind not listed above.
    Uncategorized,
}

/// Errors of filesystem operations.
#[derive(Clone, Copy, Debug, PartialEq, Eq)]
pub enum FsError {
    /// The fd given as a base was not a directory.
    BaseNotDirectory,
    /// Expected a file but found something else.
    NotAFile,
    /// The fd given was not usable.
    InvalidFd,
    /// The file exists.
    AlreadyExists,
    /// Failed to lock a resource.
    Lock,
    /// I/O failed; trying again may work.
    IOError,
    /// The address was in use.
    AddressInUse,
    /// The address could not be found.
    AddressNotAvailable,
    /// A pipe was closed.
    BrokenPipe,
    /// The connection was aborted.
    ConnectionAborted,
    /// The connection request was refused.
    ConnectionRefused,
    /// The connection was reset.
    ConnectionReset,
    /// The operation was interrupted before it could finish.
    Interrupted,
    /// Invalid internal data.
    InvalidData,
    /// The provided data is invalid.
    InvalidInput,
    /// There was no open connection.
    NotConnected,
    /// The file or directory could not be found.
    EntryNotFound,
    /// The device could not be accessed.
    NoDevice,
    /// The caller was not allowed to perform the operation.
    PermissionDenied,
    /// The operation did not complete in time.
    TimedOut,
    /// EOF came where it was not expected.
    UnexpectedEof,
    /// The operation would block; the caller may try again.
    WouldBlock,
    /// A write returned 0.
    WriteZero,
    /// The directory is not empty.
    DirectoryNotEmpty,
    /// Some other, unhandled error.
    UnknownError,
}

/// The filesystem error that a host I/O error kind stands for.
pub open spec fn error_of_kind(k: IoErrorKind) -> FsError {
    match k {
        IoErrorKind::AddrInUse => FsError::AddressInUse,
        IoErrorKind::AddrNotAvailable => FsError::AddressNotAvailable,
        IoErrorKind::AlreadyExists => FsError::AlreadyExists,
        IoErrorKind::BrokenPipe => FsError::BrokenPipe,
        IoErrorKind::ConnectionAborted => FsError::ConnectionAborted,
        IoErrorKind::ConnectionRefused => FsError::ConnectionRefused,
        IoErrorKind::ConnectionReset => FsError::ConnectionReset,
        IoErrorKind::Interrupted => FsError::Interrupted,
        IoErrorKind::InvalidData => FsError::InvalidData,
        IoErrorKind::InvalidInput => FsError::InvalidInput,
        IoErrorKind::NotConnected => FsError::NotConnected,
        IoErrorKind::NotFound => FsError::EntryNotFound,
        IoErrorKind::PermissionDenied => FsError::PermissionDenied,
        IoErrorKind::TimedOut => FsError::TimedOut,
        IoErrorKind::UnexpectedEof => FsError::UnexpectedEof,
        IoErrorKind::WouldBlock => FsError::WouldBlock,
        IoErrorKind::WriteZero => FsError::WriteZero,
        IoErrorKind::Other => FsError::IOError,
        IoErrorKind::Uncategorized => FsError::UnknownError,
    }
}

/// The host I/O error kind that a filesystem error is reported as; errors
/// with no kind of their own are `Other`.
pub open spec fn kind_of_error(e: FsError) -> IoErrorKind {
    match e {
        FsError::AddressInUse => IoErrorKind::AddrInUse,
        FsError::AddressNotAvailable => IoErrorKind::AddrNotAvailable,
        FsError::AlreadyExists => IoErrorKind::AlreadyExists,
        FsError::BrokenPipe => IoErrorKind::BrokenPipe,
        FsError::ConnectionAborted => IoErrorKind::ConnectionAborted,
        FsError::ConnectionRefused => IoErrorKind::ConnectionRefused,
        FsError::ConnectionReset => IoErrorKind::ConnectionReset,
        FsError::Interrupted => IoErrorKind::Interrupted,
        FsError::InvalidData => IoErrorKind::InvalidData,
        FsError::InvalidInput => IoErrorKind::InvalidInput,
        FsError::NotConnected => IoErrorKind::NotConnected,
        FsError::EntryNotFound => IoErrorKind::NotFound,
        FsError::PermissionDenied => IoErrorKind::PermissionDenied,
        FsError::TimedOut => IoErrorKind::TimedOut,
        FsError::UnexpectedEof => IoErrorKind::UnexpectedEof,
        FsError::WouldBlock => IoErrorKind::WouldBlock,
        FsError::WriteZero => IoErrorKind::WriteZero,
        _ => IoErrorKind::Other,
    }
}

impl FsError {
    pub fn from_io_kind(k: IoErrorKind) -> (r: FsError)
        ensures
            r == error_of_kind(k),
    {
        match k {
            IoErrorKind::AddrInUse => FsError::AddressInUse,
            IoErrorKind::AddrNotAvailable => FsError::AddressNotAvailable,
            IoErrorKind::AlreadyExists => FsError::AlreadyExists,
            IoErrorKind::BrokenPipe => FsError::BrokenPipe,
            IoErrorKind::ConnectionAborted => FsError::ConnectionAborted,
            IoErrorKind::ConnectionRefused => FsError::ConnectionRefused,
            IoErrorKind::ConnectionReset => FsError::ConnectionReset,
            IoErrorKind::Interrupted => FsError::Interrupted,
            IoErrorKind::InvalidData => FsError::InvalidData,
            IoErrorKind::InvalidInput => FsError::InvalidInput,
            IoErrorKind::NotConnected => FsError::NotConnected,
            IoErrorKind::NotFound => FsError::EntryNotFound,
            IoErrorKind::PermissionDenied => FsError::PermissionDenied,
            IoErrorKind::TimedOut => FsError::TimedOut,
            IoErrorKind::UnexpectedEof => FsError::UnexpectedEof,
            IoErrorKind::WouldBlock => FsError::WouldBlock,
            IoErrorKind::WriteZero => FsError::WriteZero,
            IoErrorKind::Other => FsError::IOError,
            IoErrorKind::Uncategorized => FsError::UnknownError,
        }
    }

    pub fn to_io_kind(self) -> (r: IoErrorKind)
        ensures
            r == kind_of_error(self),
    {
        match self {
            FsError::AddressInUse => IoErrorKind::AddrInUse,
            FsError::AddressNotAvailable => IoErrorKind::AddrNotAvailable,
            FsError::AlreadyExists => IoErrorKind::AlreadyExists,
            FsError::BrokenPipe => IoErrorKind::BrokenPipe,
            FsError::ConnectionAborted => IoErrorKind::ConnectionAborted,
            FsError::ConnectionRefused => IoErrorKind::ConnectionRefused,
            FsError::ConnectionReset => IoErrorKind::ConnectionReset,
            FsError::Interrupted => IoErrorKind::Interrupted,
            FsError::InvalidData => IoErrorKind::InvalidData,
            FsError::InvalidInput => IoErrorKind::InvalidInput,
            FsError::NotConnected => IoErrorKind::NotConnected,
            FsError::EntryNotFound => IoErrorKind::NotFound,
            FsError::PermissionDenied => IoErrorKind::PermissionDenied,
            FsError::TimedOut => IoErrorKind::TimedOut,
            FsError::UnexpectedEof => IoErrorKind::UnexpectedEof,
            FsError::WouldBlock => IoErrorKind::WouldBlock,
            FsError::WriteZero => IoErrorKind::WriteZero,
            FsError::IOError => IoErrorKind::Other,
            FsError::BaseNotDirectory => IoErrorKind::Other,
            FsError::NotAFile => IoErrorKind::Other,
            FsError::InvalidFd => IoErrorKind::Other,
            FsError::Lock => IoErrorKind::Other,
            FsError::NoDevice => IoErrorKind::Other,
            FsError::DirectoryNotEmpty => IoErrorKind::Other,
            FsError::UnknownError => IoErrorKind::Other,
        }
    }
}

/// A host error kind carried to a filesystem error and back is kept, save
/// for the kinds that have no error of their own.
pub proof fn lemma_kind_round_trip(k: IoErrorKind)
    requires
        k != IoErrorKind::Uncategorized,
    ensures
        kind_of_error(error_of_kind(k)) == k,
{
}

/// The rights with which a file is opened.
#[derive(Clone, Copy, Debug, PartialEq, Eq)]
pub struct OpenOptionsConfig {
    pub read: bool,
    pub write: bool,
    pub create_new: bool,
    pub create: bool,
    pub append: bool,
    pub truncate: bool,
}

impl OpenOptionsConfig {
    /// The rights held both here and by the parent directory.
    pub fn minimum_rights(&self, parent_rights: &Self) -> (r: Self)
        ensures
            r.read == (parent_rights.read && self.read),
            r.write == (parent_rights.write && self.write),
            r.create_new == (parent_rights.create_new && self.create_new),
            r.create == (parent_rights.create && self.create),
            r.append == (parent_rights.append && self.append),
            r.truncate == (parent_rights.truncate && self.truncate),
    {
        OpenOptionsConfig {
            read: parent_rights.read && self.read,
            write: parent_rights.write && self.write,
            create_new: parent_rights.create_new && self.create_new,
            create: parent_rights.create && self.create,
            append: parent_rights.append && self.append,
            truncate: parent_rights.truncate && self.truncate,
        }
    }

    pub fn read(&self) -> (r: bool)
        ensures
            r == self.read,
    {
        self.read
    }

    pub fn write(&self) -> (r: bool)
        ensures
            r == self.write,
    {
        self.write
    }

    pub fn create_new(&self) -> (r: bool)
        ensures
            r == self.create_new,
    {
        self.create_new
    }

    pub fn create(&self) -> (r: bool)
        ensures
            r == self.create,
    {
        self.create
    }

    pub fn append(&self) -> (r: bool)
        ensures
            r == self.append,
    {
        self.append
    }

    pub fn truncate(&self) -> (r: bool)
        ensures
            r == self.truncate,
    {
        self.truncate
    }
}

/// What opens files of a filesystem, given a path and the rights asked for.
pub trait FileOpener {
    type File;

    fn open(&mut self, path: &str, conf: &OpenOptionsConfig) -> Result<Self::File, FsError>;
}

/// The configuration with no right at all.
pub open spec fn no_rights() -> OpenOptionsConfig {
    OpenOptionsConfig {
        read: false,
        write: false,
        create_new: false,
        create: false,
        append: false,
        truncate: false,
    }
}

/// A builder of the rights to open a file with, tied to the opener that opens it.
pub struct OpenOptions<O: FileOpener> {
    pub opener: O,
    pub conf: OpenOptionsConfig,
}

impl<O: FileOpener> OpenOptions<O> {
    /// Options with every right off.
    pub fn new(opener: O) -> (r: Self)
        ensures
            r.opener == opener,
            r.conf == no_rights(),
    {
        OpenOptions {
            opener,
            conf: OpenOptionsConfig {
                read: false,
                write: false,
                create_new: false,
                create: false,
                append: false,
                truncate: false,
            },
        }
    }

    pub fn get_config(&self) -> (r: OpenOptionsConfig)
        ensures
            r == self.conf,
    {
        self.conf
    }

    pub fn options(&mut self, options: OpenOptionsConfig) -> (r: &mut Self)
        ensures
            r.conf == options,
            r.opener == old(self).opener,
            *final(self) == *final(r),
    {
        self.conf = options;
        self
    }

    pub fn read(&mut self, read: bool) -> (r: &mut Self)
        ensures
            r.conf == (OpenOptionsConfig { read, ..old(self).conf }),
            r.opener == old(self).opener,
            *final(self) == *final(r),
    {
        self.conf.read = read;
        self
    }

    pub fn write(&mut self, write: bool) -> (r: &mut Self)
        ensures
            r.conf == (OpenOptionsConfig { write, ..old(self).conf }),
            r.opener == old(self).opener,
            *final(self) == *final(r),
    {
        self.conf.write = write;
        self
    }

    pub fn append(&mut self, append: bool) -> (r: &mut Self)
        ensures
            r.conf == (OpenOptionsConfig { append, ..old(self).conf }),
            r.opener == old(self).opener,
            *final(self) == *final(r),
    {
        self.conf.append = append;
        self
    }

    pub fn truncate(&mut self, truncate: bool) -> (r: &mut Self)
        ensures
            r.conf == (OpenOptionsConfig { truncate, ..old(self).conf }),
            r.opener == old(self).opener,
            *final(self) == *final(r),
    {
        self.conf.truncate = truncate;
        self
    }

    pub fn create(&mut self, create: bool) -> (r: &mut Self)
        ensures
            r.conf == (OpenOptionsConfig { create, ..old(self).conf }),
            r.opener == old(self).opener,
            *final(self) == *final(r),
    {
        self.conf.create = create;
        self
    }

    pub fn create_new(&mut self, create_new: bool) -> (r: &mut Self)
        ensures
            r.conf == (OpenOptionsConfig { create_new, ..old(self).conf }),
            r.opener == old(self).opener,
            *final(self) == *final(r),
    {
        self.conf.create_new = create_new;
        self
    }

    /// Opens `path` through the opener with the configured rights.
    pub fn open(&mut self, path: &str) -> (r: Result<O::File, FsError>)
        ensures
            final(self).conf == old(self).conf,
    {
        self.opener.open(path, &self.conf)
    }
}

/// An entry of a directory listing.
#[derive(Debug)]
pub struct DirEntry {
    pub path: String,
    pub metadata: Result<Metadata, FsError>,
}

impl DirEntry {
    pub fn path(&self) -> (r: String)
        ensures
            r@ == self.path@,
    {
        self.path.clone()
    }

    pub fn metadata(&self) -> (r: Result<Metadata, FsError>)
        ensures
            r == self.metadata,
    {
        self.metadata
    }

    pub fn file_type(&self) -> (r: Result<FileType, FsError>)
        ensures
            r == match self.metadata {
                Ok(m) => Ok::<FileType, FsError>(m.ft),
                Err(e) => Err(e),
            },
    {
        match self.metadata {
            Ok(m) => Ok(m.file_type()),
            Err(e) => Err(e),
        }
    }

    /// A copy of this entry.
    pub fn duplicate(&self) -> (r: Self)
        ensures
            r.path@ == self.path@,
            r.metadata == self.metadata,
    {
        DirEntry { path: self.path.clone(), metadata: self.metadata }
    }
}

impl Clone for DirEntry {
    fn clone(&self) -> Self {
        self.duplicate()
    }
}

/// A directory listing, handed out one entry at a time.
pub struct ReadDir {
    pub data: Vec<DirEntry>,
    pub index: usize,
}

impl ReadDir {
    pub fn new(data: Vec<DirEntry>) -> (r: Self)
        ensures
            r.data@ == data@,
            r.index == 0,
    {
        ReadDir { data, index: 0 }
    }

    /// The next entry, or `None` once every entry was handed out.
    pub fn next(&mut self) -> (r: Option<Result<DirEntry, FsError>>)
        ensures
            final(self).data@ == old(self).data@,
            old(self).index < old(self).data@.len() ==> final(self).index == old(self).index + 1
                && r is Some && r->Some_0 is Ok
                && r->Some_0->Ok_0.path@ == old(self).data@[old(self).index as int].path@
                && r->Some_0->Ok_0.metadata == old(self).data@[old(self).index as int].metadata,
            old(self).index >= old(self).data@.len() ==> r is None && final(self).index
                == old(self).index,
    {
        if self.index < self.data.len() {
            let v = self.data[self.index].duplicate();
            self.index = self.index + 1;
            Some(Ok(v))
        } else {
            None
        }
    }
}

/// A count of available bytes, an unknown count standing for 0.
pub open spec fn count_of(n: Option<usize>) -> int {
    match n {
        Some(k) => k as int,
        None => 0,
    }
}

/// Bytes available to read and to write together, an unknown count counting
/// as 0; the sum saturates at `usize::MAX`.
pub fn total_available(read: Option<usize>, write: Option<usize>) -> (r: usize)
    ensures
        r as int == if count_of(read) + count_of(write) > usize::MAX {
            usize::MAX as int
        } else {
            count_of(read) + count_of(write)
        },
{
    let a = match read {
        Some(k) => k,
        None => 0,
    };
    let b = match write {
        Some(k) => k,
        None => 0,
    };
    a.saturating_add(b)
}

/// An open file of a virtual filesystem, with its readiness for transfers.
pub trait VirtualFile {
    /// The last access time, in nanoseconds since the UNIX epoch.
    fn last_accessed(&self) -> u64;

    /// The last modification time, in nanoseconds since the UNIX epoch.
    fn last_modified(&self) -> u64;

    /// The creation time, in nanoseconds since the UNIX epoch.
    fn created_time(&self) -> u64;

    /// The size of the file in bytes.
    fn size(&self) -> u64;

    /// Changes the size of the file; bytes added are zero.
    fn set_len(&mut self, new_size: u64) -> Result<(), FsError>;

    /// Requests deletion of the file.
    fn unlink(&mut self) -> Result<(), FsError>;

    /// Stores contents and metadata durably; by default there is nothing to do.
    fn sync_to_disk(&self) -> Result<(), FsError> {
        Ok(())
    }

    /// Bytes available to read and to write together, as `total_available`
    /// counts them; an error of either query is passed on. Must not block.
    fn bytes_available(&self) -> Result<usize, FsError> {
        let r = match self.bytes_available_read() {
            Ok(n) => n,
            Err(e) => {
                return Err(e);
            },
        };
        let w = match self.bytes_available_write() {
            Ok(n) => n,
            Err(e) => {
                return Err(e);
            },
        };
        Ok(total_available(r, w))
    }

    /// Bytes available to read, `None` where unknown. Must not block.
    fn bytes_available_read(&self) -> Result<Option<usize>, FsError> {
        Ok(None)
    }

    /// Bytes available to write, `None` where unknown. Must not block.
    fn bytes_available_write(&self) -> Result<Option<usize>, FsError> {
        Ok(None)
    }

    /// Polls for data to read; with none available yet, registers `waker`.
    fn poll_read_ready(&self, waker: u64, wakers: &mut WakerRegistry) -> (r: Readiness)
        ensures
            r == Readiness::Pending ==> final(wakers).wakers@ == old(wakers).wakers@.push(waker),
            r != Readiness::Pending ==> final(wakers).wakers@ == old(wakers).wakers@,
            r != Readiness::Ready(0),
    {
        poll_ready(self.bytes_available_read(), waker, wakers)
    }

    /// Polls for room to write; with none available yet, registers `waker`.
    fn poll_write_ready(&self, waker: u64, wakers: &mut WakerRegistry) -> (r: Readiness)
        ensures
            r == Readiness::Pending ==> final(wakers).wakers@ == old(wakers).wakers@.push(waker),
            r != Readiness::Pending ==> final(wakers).wakers@ == old(wakers).wakers@,
            r != Readiness::Ready(0),
    {
        poll_ready(self.bytes_available_write(), waker, wakers)
    }

    /// Polls for the file to close: `false`, with `waker` registered, while it
    /// is open.
    fn poll_close_ready(&self, waker: u64, wakers: &mut WakerRegistry) -> (r: bool)
        ensures
            !r ==> final(wakers).wakers@ == old(wakers).wakers@.push(waker),
            r ==> final(wakers).wakers@ == old(wakers).wakers@,
    {
        poll_closed(self.is_open(), waker, wakers)
    }

    /// Whether the file is open; by default always. Must not block.
    fn is_open(&self) -> bool {
        true
    }

    /// A descriptor to use for this file instead of a newly made one.
    fn get_special_fd(&self) -> Option<u32> {
        None
    }

    /// The underlying host descriptor, where there is one.
    fn get_fd(&self) -> Option<FileDescriptor> {
        None
    }
}

/// A virtual file that can be duplicated.
pub trait ClonableVirtualFile: VirtualFile + Clone {}

/// A virtual filesystem.
pub trait FileSystem {
    type Opener: FileOpener;

    fn read_dir(&self, path: &str) -> Result<ReadDir, FsError>;

    fn create_dir(&self, path: &str) -> Result<(), FsError>;

    fn remove_dir(&self, path: &str) -> Result<(), FsError>;

    fn rename(&self, from: &str, to: &str) -> Result<(), FsError>;

    fn metadata(&self, path: &str) -> Result<Metadata, FsError>;

    /// Metadata without following symlinks; as symlinks are not followed
    /// anywhere yet, by default the same as `metadata`.
    fn symlink_metadata(&self, path: &str) -> Result<Metadata, FsError> {
        self.metadata(path)
    }

    fn remove_file(&self, path: &str) -> Result<(), FsError>;

    fn new_open_options(&self) -> OpenOptions<Self::Opener>;
}

} // verus!
