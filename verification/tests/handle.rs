use passthrough::abi::EBADF;
use passthrough::error::FsError;
use passthrough::handle::{HandleData, HandleMap};

#[test]
fn open_use_and_close() {
    let mut m = HandleMap::new();
    m.insert(1, HandleData::new(40, "file"));
    assert_eq!(m.get(1, 40).unwrap().file, "file");
    assert_eq!(m.get(1, 40).unwrap().inode, 40);
    assert_eq!(m.release(1, 40), Ok(()));
    assert_eq!(m.get(1, 40).err(), Some(FsError::Os(EBADF)));
}

#[test]
fn handle_of_another_inode() {
    let mut m = HandleMap::new();
    m.insert(1, HandleData::new(40, "file"));
    assert_eq!(m.get(1, 41).err(), Some(FsError::Os(EBADF)));
    assert_eq!(m.release(1, 41), Err(FsError::Os(EBADF)));
    assert!(m.get(1, 40).is_ok());
}

#[test]
fn handle_closed_twice() {
    let mut m = HandleMap::new();
    m.insert(1, HandleData::new(40, "a"));
    m.insert(2, HandleData::new(40, "b"));
    assert_eq!(m.release(1, 40), Ok(()));
    assert_eq!(m.release(1, 40), Err(FsError::Os(EBADF)));
    assert_eq!(m.get(2, 40).unwrap().file, "b");
}

#[test]
fn handles_cleared() {
    let mut m = HandleMap::new();
    m.insert(1, HandleData::new(40, "a"));
    m.clear();
    assert_eq!(m.release(1, 40), Err(FsError::Os(EBADF)));
}
