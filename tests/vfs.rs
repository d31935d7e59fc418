use std::cell::Cell;
use wasix_core::fs::{
    total_available, DirEntry, FileDescriptor, FileOpener, FileType, FsError, IoErrorKind, Metadata, OpenOptions,
    OpenOptionsConfig, ReadDir, VirtualFile,
};
use wasix_core::readiness::{poll_ready, transfer_step, Readiness, TransferStep, WakerRegistry};

#[derive(Debug)]
struct Pipe {
    readable: Cell<Option<usize>>,
    writable: Option<usize>,
    open: bool,
}

impl VirtualFile for Pipe {
    fn last_accessed(&self) -> u64 {
        0
    }
    fn last_modified(&self) -> u64 {
        0
    }
    fn created_time(&self) -> u64 {
        0
    }
    fn size(&self) -> u64 {
        0
    }
    fn set_len(&mut self, _new_size: u64) -> Result<(), FsError> {
        Ok(())
    }
    fn unlink(&mut self) -> Result<(), FsError> {
        Ok(())
    }
    fn bytes_available_read(&self) -> Result<Option<usize>, FsError> {
        Ok(self.readable.get())
    }
    fn bytes_available_write(&self) -> Result<Option<usize>, FsError> {
        Ok(self.writable)
    }
    fn is_open(&self) -> bool {
        self.open
    }
}

#[derive(Debug)]
struct Plain;

impl VirtualFile for Plain {
    fn last_accessed(&self) -> u64 {
        1
    }
    fn last_modified(&self) -> u64 {
        2
    }
    fn created_time(&self) -> u64 {
        3
    }
    fn size(&self) -> u64 {
        4
    }
    fn set_len(&mut self, _new_size: u64) -> Result<(), FsError> {
        Err(FsError::PermissionDenied)
    }
    fn unlink(&mut self) -> Result<(), FsError> {
        Ok(())
    }
}

#[test]
fn read_ready_after_waker_fires() {
    let file = Pipe { readable: Cell::new(Some(0)), writable: Some(3), open: true };
    let mut wakers = WakerRegistry::new();
    assert_eq!(file.poll_read_ready(7, &mut wakers), Readiness::Pending);
    assert_eq!(wakers.wakers, vec![7]);
    file.readable.set(Some(5));
    assert_eq!(wakers.take_all(), vec![7]);
    assert!(wakers.take_all().is_empty());
    assert_eq!(file.poll_read_ready(7, &mut wakers), Readiness::Ready(5));
    assert!(wakers.wakers.is_empty());
    assert_eq!(file.poll_write_ready(8, &mut wakers), Readiness::Ready(3));
    assert_eq!(file.bytes_available(), Ok(8));
}

#[test]
fn unknown_readiness_would_block() {
    let file = Plain;
    let mut wakers = WakerRegistry::new();
    assert_eq!(file.poll_read_ready(1, &mut wakers), Readiness::Failed(FsError::WouldBlock));
    assert_eq!(file.poll_write_ready(1, &mut wakers), Readiness::Failed(FsError::WouldBlock));
    assert!(wakers.wakers.is_empty());
    assert_eq!(file.bytes_available(), Ok(0));
    assert!(file.is_open());
    assert_eq!(file.get_special_fd(), None);
    assert_eq!(file.get_fd(), None);
    assert_eq!(file.sync_to_disk(), Ok(()));
    assert!(!file.poll_close_ready(1, &mut wakers));
    assert_eq!(wakers.wakers, vec![1]);
}

#[test]
fn close_ready_waits_while_open() {
    let file = Pipe { readable: Cell::new(None), writable: None, open: true };
    let mut wakers = WakerRegistry::new();
    assert!(!file.poll_close_ready(4, &mut wakers));
    assert_eq!(wakers.wakers, vec![4]);
}

#[test]
fn poll_ready_passes_errors_through() {
    let mut wakers = WakerRegistry::new();
    assert_eq!(poll_ready(Err(FsError::BrokenPipe), 1, &mut wakers), Readiness::Failed(FsError::BrokenPipe));
    assert_eq!(poll_ready(Ok(Some(usize::MAX)), 1, &mut wakers), Readiness::Ready(usize::MAX));
    assert!(wakers.wakers.is_empty());
}

#[test]
fn transfer_steps() {
    assert_eq!(transfer_step(Readiness::Pending, true), TransferStep::Wait);
    assert_eq!(transfer_step(Readiness::Ready(3), true), TransferStep::Transfer);
    assert_eq!(transfer_step(Readiness::Failed(FsError::WouldBlock), true), TransferStep::Transfer);
    assert_eq!(transfer_step(Readiness::Failed(FsError::TimedOut), true), TransferStep::Fail(FsError::TimedOut));
    assert_eq!(transfer_step(Readiness::Ready(3), false), TransferStep::Fail(FsError::BrokenPipe));
}

#[test]
fn bytes_available_saturates() {
    let file = Pipe { readable: Cell::new(Some(usize::MAX)), writable: Some(2), open: true };
    assert_eq!(file.bytes_available(), Ok(usize::MAX));
}

fn all_rights() -> OpenOptionsConfig {
    OpenOptionsConfig { read: true, write: true, create_new: true, create: true, append: true, truncate: true }
}

#[test]
fn minimum_rights_is_intersection() {
    let asked = OpenOptionsConfig { read: true, write: true, create_new: false, create: true, append: false, truncate: true };
    let parent = OpenOptionsConfig { read: true, write: false, create_new: true, create: true, append: true, truncate: false };
    let m = asked.minimum_rights(&parent);
    assert_eq!(m, OpenOptionsConfig { read: true, write: false, create_new: false, create: true, append: false, truncate: false });
    assert!(m.read() && !m.write() && !m.create_new() && m.create() && !m.append() && !m.truncate());
    assert_eq!(all_rights().minimum_rights(&all_rights()), all_rights());
}

struct Recorder {
    seen: Vec<(String, OpenOptionsConfig)>,
}

impl FileOpener for Recorder {
    type File = usize;
    fn open(&mut self, path: &str, conf: &OpenOptionsConfig) -> Result<usize, FsError> {
        self.seen.push((path.to_string(), *conf));
        if path.is_empty() {
            Err(FsError::EntryNotFound)
        } else {
            Ok(self.seen.len())
        }
    }
}

#[test]
fn open_options_builder() {
    let mut o = OpenOptions::new(Recorder { seen: Vec::new() });
    assert_eq!(o.get_config(), OpenOptionsConfig { read: false, write: false, create_new: false, create: false, append: false, truncate: false });
    o.read(true).write(true).append(true).truncate(true).create(true).create_new(true);
    assert_eq!(o.get_config(), all_rights());
    o.write(false);
    assert_eq!(o.open("/a"), Ok(1));
    assert_eq!(o.opener.seen[0].1.write, false);
    assert_eq!(o.opener.seen[0].0, "/a");
    o.options(OpenOptionsConfig { read: false, ..all_rights() });
    assert_eq!(o.get_config().read, false);
    assert_eq!(o.open(""), Err(FsError::EntryNotFound));
}

#[test]
fn errors_convert_to_and_from_kinds() {
    assert_eq!(FsError::from_io_kind(IoErrorKind::NotFound), FsError::EntryNotFound);
    assert_eq!(FsError::from_io_kind(IoErrorKind::Other), FsError::IOError);
    assert_eq!(FsError::from_io_kind(IoErrorKind::Uncategorized), FsError::UnknownError);
    assert_eq!(FsError::from_io_kind(IoErrorKind::WouldBlock), FsError::WouldBlock);
    assert_eq!(FsError::EntryNotFound.to_io_kind(), IoErrorKind::NotFound);
    assert_eq!(FsError::Lock.to_io_kind(), IoErrorKind::Other);
    assert_eq!(FsError::DirectoryNotEmpty.to_io_kind(), IoErrorKind::Other);
    assert_eq!(FsError::AddressInUse.to_io_kind(), IoErrorKind::AddrInUse);
}

#[test]
fn read_dir_hands_out_entries_in_order() {
    let ft = FileType { dir: true, ..FileType::default() };
    let meta = Metadata { ft, accessed: 1, created: 2, modified: 3, len: 4 };
    let entries = vec![
        DirEntry { path: "/x".to_string(), metadata: Ok(meta) },
        DirEntry { path: "/y".to_string(), metadata: Err(FsError::NoDevice) },
    ];
    let mut rd = ReadDir::new(entries);
    let a = rd.next().unwrap().unwrap();
    assert_eq!(a.path(), "/x");
    assert_eq!(a.file_type(), Ok(ft));
    assert!(a.metadata().unwrap().is_dir());
    assert!(!a.metadata().unwrap().is_file());
    let b = rd.next().unwrap().unwrap();
    assert_eq!(b.path, "/y");
    assert_eq!(b.file_type(), Err(FsError::NoDevice));
    assert!(rd.next().is_none());
    assert!(rd.next().is_none());
    assert_eq!(a.clone().path, "/x");
}

#[test]
fn metadata_and_file_type_accessors() {
    let ft = FileType { file: true, symlink: true, fifo: true, ..FileType::default() };
    let m = Metadata { ft, accessed: 10, created: 20, modified: 30, len: 40 };
    assert_eq!((m.accessed(), m.created(), m.modified(), m.len()), (10, 20, 30, 40));
    assert_eq!(m.file_type(), ft);
    assert!(ft.is_file() && ft.is_symlink() && ft.is_fifo());
    assert!(!ft.is_dir() && !ft.is_char_device() && !ft.is_block_device() && !ft.is_socket());
}

#[test]
fn file_descriptor_round_trip() {
    let fd = FileDescriptor::from_u32(17);
    assert_eq!(fd.0, 17);
    assert_eq!(fd.to_u32(), 17);
}

#[test]
fn total_available_counts_unknown_as_zero_and_saturates() {
    assert_eq!(total_available(Some(3), Some(4)), 7);
    assert_eq!(total_available(None, Some(4)), 4);
    assert_eq!(total_available(Some(3), None), 3);
    assert_eq!(total_available(None, None), 0);
    assert_eq!(total_available(Some(usize::MAX), Some(1)), usize::MAX);
}

#[derive(Debug)]
struct Broken;

impl VirtualFile for Broken {
    fn last_accessed(&self) -> u64 {
        0
    }
    fn last_modified(&self) -> u64 {
        0
    }
    fn created_time(&self) -> u64 {
        0
    }
    fn size(&self) -> u64 {
        0
    }
    fn set_len(&mut self, _new_size: u64) -> Result<(), FsError> {
        Ok(())
    }
    fn unlink(&mut self) -> Result<(), FsError> {
        Ok(())
    }
    fn bytes_available_read(&self) -> Result<Option<usize>, FsError> {
        Ok(Some(2))
    }
    fn bytes_available_write(&self) -> Result<Option<usize>, FsError> {
        Err(FsError::NotConnected)
    }
}

#[test]
fn bytes_available_passes_query_errors_on() {
    assert_eq!(Broken.bytes_available(), Err(FsError::NotConnected));
}
