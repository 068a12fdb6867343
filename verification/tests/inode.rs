use passthrough::abi::{OpenFlags, EBADF};
use passthrough::altkey::{FileHandle, InodeAltKey};
use passthrough::error::FsError;
use passthrough::inode::{FileAccess, FileOrHandle, InodeData, InodeFile, InodeMap};
use passthrough::multikey::MultikeyBTreeMap;

fn handle(n: u128) -> FileHandle {
    FileHandle {
        mnt_id: 30,
        handle_bytes: 16,
        handle_type: 1,
        f_handle: (n, 0, 0, 0, 0, 0, 0, 0),
    }
}

fn ids(ino: u64) -> InodeAltKey {
    InodeAltKey::Ids { ino, dev: 7 }
}

fn by_file(inode: u64, file: u32, ino: u64) -> InodeData<u32> {
    InodeData::new(inode, FileOrHandle::File(file), 1, ids(ino))
}

fn by_handle(inode: u64, n: u128, ino: u64) -> InodeData<u32> {
    InodeData::new(inode, FileOrHandle::Handle(handle(n)), 1, ids(ino))
}

#[test]
fn map_by_number_and_key() {
    let mut m: MultikeyBTreeMap<&str> = MultikeyBTreeMap::new();
    assert_eq!(m.insert(5, "five"), None);
    m.insert_alt(ids(50), 5);
    m.insert_alt(InodeAltKey::Handle(handle(1)), 5);
    assert_eq!(m.get(&5), Some(&"five"));
    assert_eq!(m.get_alt(&ids(50)), Some(&"five"));
    assert_eq!(m.get_alt(&InodeAltKey::Handle(handle(1))), Some(&"five"));
    assert_eq!(m.get(&6), None);
    assert_eq!(m.get_alt(&ids(51)), None);
    assert_eq!(m.get_alt(&InodeAltKey::Ids { ino: 50, dev: 8 }), None);
    assert_eq!(m.get_alt(&InodeAltKey::Handle(handle(2))), None);
}

#[test]
fn map_forgets_keys_of_a_replaced_entry() {
    let mut m: MultikeyBTreeMap<u32> = MultikeyBTreeMap::new();
    m.insert(5, 1);
    m.insert_alt(ids(50), 5);
    assert_eq!(m.insert(5, 2), Some(1));
    assert_eq!(m.get(&5), Some(&2));
    assert_eq!(m.get_alt(&ids(50)), None);
}

#[test]
fn map_key_moves_to_another_entry() {
    let mut m: MultikeyBTreeMap<u32> = MultikeyBTreeMap::new();
    m.insert(5, 1);
    m.insert_alt(ids(50), 5);
    m.insert(6, 2);
    m.insert_alt(ids(50), 6);
    assert_eq!(m.get_alt(&ids(50)), Some(&2));
    assert_eq!(m.remove(&5), Some(1));
    assert_eq!(m.get_alt(&ids(50)), Some(&2));
    assert_eq!(m.remove(&6), Some(2));
    assert_eq!(m.get_alt(&ids(50)), None);
    assert_eq!(m.remove(&6), None);
}

#[test]
fn map_update_keeps_keys() {
    let mut m: MultikeyBTreeMap<u32> = MultikeyBTreeMap::new();
    m.insert(5, 1);
    m.insert_alt(ids(50), 5);
    m.update(&5, |v| v + 10);
    assert_eq!(m.get_alt(&ids(50)), Some(&11));
    m.clear();
    assert_eq!(m.get(&5), None);
    assert_eq!(m.get_alt(&ids(50)), None);
}

#[test]
fn unknown_inode() {
    let m: InodeMap<u32> = InodeMap::new();
    assert_eq!(m.get(1).err(), Some(FsError::Os(EBADF)));
}

#[test]
fn found_by_number_and_by_ids() {
    let mut m = InodeMap::new();
    m.insert(2, ids(20), None, by_file(2, 100, 20));
    let d = m.get(2).unwrap();
    assert_eq!((d.inode, d.refcount, d.altkey), (2, 1, ids(20)));
    assert_eq!(d.file_or_handle, FileOrHandle::File(100));
    assert_eq!(m.get_alt(&ids(20), None).map(|d| d.inode), Some(2));
    assert!(m.get_alt(&ids(21), None).is_none());
    m.clear();
    assert!(m.get(2).is_err());
    assert!(m.get_alt(&ids(20), None).is_none());
}

#[test]
fn found_by_handle_first() {
    let mut m = InodeMap::new();
    let k = InodeAltKey::Handle(handle(1));
    m.insert(2, ids(20), Some(k), by_handle(2, 1, 20));
    m.insert(3, ids(21), None, by_file(3, 101, 21));
    assert_eq!(m.get_alt(&ids(20), Some(&k)).map(|d| d.inode), Some(2));
    assert_eq!(m.get_alt(&ids(21), Some(&k)).map(|d| d.inode), Some(2));
    assert_eq!(m.get_alt(&ids(20), None).map(|d| d.inode), Some(2));
}

#[test]
fn ids_of_a_file_with_another_handle_do_not_count() {
    let mut m = InodeMap::new();
    m.insert(2, ids(20), Some(InodeAltKey::Handle(handle(1))), by_handle(2, 1, 20));
    m.insert(3, ids(21), None, by_file(3, 101, 21));
    let other = InodeAltKey::Handle(handle(9));
    assert!(m.get_alt(&ids(20), Some(&other)).is_none());
    assert_eq!(m.get_alt(&ids(21), Some(&other)).map(|d| d.inode), Some(3));
}

#[test]
fn file_of_an_inode() {
    let host = OpenFlags::host();
    let open = by_file(2, 100, 20);
    match open.get_file(&host) {
        FileAccess::Ready(f) => assert_eq!(*f.into_ref(), 100),
        FileAccess::Reopen { .. } => panic!("the file is held open"),
    }
    let closed = by_handle(3, 4, 21);
    match closed.get_file(&host) {
        FileAccess::Ready(_) => panic!("there is only a handle"),
        FileAccess::Reopen { handle: h, flags } => {
            assert_eq!(h, handle(4));
            assert_eq!(flags, libc::O_PATH);
        }
    }
}

#[test]
fn file_opened_by_handle() {
    let f: InodeFile<'_, u32> = InodeFile::reopened(Ok(8)).unwrap();
    assert_eq!(*f.into_ref(), 8);
    let e: Result<InodeFile<'_, u32>, FsError> = InodeFile::reopened(Err(FsError::Os(116)));
    assert_eq!(e.err(), Some(FsError::Os(116)));
}

#[test]
fn handle_of_file_or_handle() {
    let f: FileOrHandle<u32> = FileOrHandle::File(1);
    assert_eq!(f.handle(), None);
    assert_eq!(f.handle_altkey(), None);
    let h: FileOrHandle<u32> = FileOrHandle::Handle(handle(3));
    assert_eq!(h.handle(), Some(&handle(3)));
    assert_eq!(h.handle_altkey(), Some(InodeAltKey::Handle(handle(3))));
}
