use passthrough::abi::{OpenFlags, EBADF, ROOT_ID, VFS_MAX_INO};
use passthrough::altkey::{FileHandle, InodeAltKey, Stat};
use passthrough::config::Config;
use passthrough::error::FsError;
use passthrough::fs::{Entry, Lookup, LookupEvent, PassthroughFs};
use passthrough::handle::HandleData;
use passthrough::inode::FileOrHandle;
use passthrough::locate::{Locate, LocateEvent, Located};
use passthrough::syscall::{OpenArgs, SysReply};
use std::time::Duration;

type Fs = PassthroughFs<u32>;

fn stat(ino: u64) -> Stat {
    Stat {
        st_dev: 7,
        st_ino: ino,
        st_nlink: 1,
        st_mode: 0o100644,
        st_uid: 1000,
        st_gid: 1000,
        st_rdev: 0,
        st_size: ino as i64,
        st_blksize: 4096,
        st_blocks: 8,
        st_atime: 1,
        st_atime_nsec: 2,
        st_mtime: 3,
        st_mtime_nsec: 4,
        st_ctime: 5,
        st_ctime_nsec: 6,
    }
}

fn handle(n: u128) -> FileHandle {
    FileHandle {
        mnt_id: 30,
        handle_bytes: 16,
        handle_type: 1,
        f_handle: (n, 0, 0, 0, 0, 0, 0, n),
    }
}

fn file(f: u32, ino: u64) -> Located<u32> {
    Located { file_or_handle: FileOrHandle::File(f), st: stat(ino) }
}

fn by_handle(n: u128, ino: u64) -> Located<u32> {
    Located { file_or_handle: FileOrHandle::Handle(handle(n)), st: stat(ino) }
}

fn empty() -> Fs {
    PassthroughFs::new(Config::default(), OpenFlags::host(), SysReply { ret: 3, errno: 0 }).unwrap()
}

fn mounted() -> Fs {
    let mut fs = empty();
    fs.import(Ok(file(10, 1))).unwrap();
    fs
}

fn done(l: Lookup<u32>) -> Entry {
    match l {
        Lookup::Done { entry } => entry,
        other => panic!("{:?}", other),
    }
}

fn refcount(fs: &Fs, inode: u64) -> Option<u64> {
    fs.inode_map.get(inode).ok().map(|d| d.refcount)
}

fn forget(fs: &mut Fs, inode: u64, count: u64) {
    PassthroughFs::forget_one(fs.inode_map.get_map_mut(), inode, count);
}

#[test]
fn new_file_system() {
    let cfg = Config { xattr: true, ..Config::default() };
    let reply = SysReply { ret: 3, errno: 0 };
    let fs: Fs = PassthroughFs::new(cfg.clone(), OpenFlags::host(), reply).unwrap();
    assert_eq!(fs.next_inode, 2);
    assert_eq!(fs.next_handle, 1);
    assert_eq!(fs.keep_fds(), vec![3]);
    assert!(!fs.writeback && !fs.no_open && !fs.no_opendir && !fs.killpriv_v2);
    assert_eq!(fs.cfg, cfg);
    assert_eq!(fs.host, OpenFlags::host());
    assert!(fs.inode_map.get(ROOT_ID).is_err());
}

#[test]
fn new_without_proc() {
    let reply = SysReply { ret: -1, errno: libc::ENOENT };
    let r: Result<Fs, FsError> =
        PassthroughFs::new(Config::default(), OpenFlags::host(), reply);
    assert_eq!(r.err(), Some(FsError::Os(libc::ENOENT)));
}

#[test]
fn import_makes_the_root_known() {
    let fs = mounted();
    assert_eq!(refcount(&fs, ROOT_ID), Some(2));
    assert_eq!(fs.inode_map.get(ROOT_ID).unwrap().inode, ROOT_ID);
    let (dir, at) = fs.lookup_begin(ROOT_ID);
    assert_eq!(dir, Some(&10));
    assert_eq!(at, Lookup::Locate { at: Locate::start(&OpenFlags::host(), false) });
}

#[test]
fn import_that_fails_changes_nothing() {
    let mut fs = empty();
    assert_eq!(fs.import(Err(FsError::Os(libc::EACCES))), Err(FsError::Os(libc::EACCES)));
    assert!(fs.inode_map.get(ROOT_ID).is_err());
}

#[test]
fn root_is_found_again() {
    let mut fs = mounted();
    let e = done(fs.do_lookup(file(11, 1)));
    assert_eq!(e.inode, ROOT_ID);
    assert_eq!(refcount(&fs, ROOT_ID), Some(3));
    assert_eq!(fs.inode_map.get(ROOT_ID).unwrap().file_or_handle, FileOrHandle::File(10));
}

#[test]
fn parent_by_handle_and_unknown_parent() {
    let mut fs = empty();
    fs.import(Ok(by_handle(1, 1))).unwrap();
    let (dir, at) = fs.lookup_begin(ROOT_ID);
    assert_eq!(dir, None);
    assert_eq!(at, Lookup::ReopenParent { handle: handle(1), flags: libc::O_PATH });
    let at = fs.lookup_next(at, LookupEvent::ParentReopened(Ok(())));
    assert_eq!(at, Lookup::Locate { at: Locate::start(&OpenFlags::host(), false) });
    let (_, at) = fs.lookup_begin(ROOT_ID);
    let at = fs.lookup_next(at, LookupEvent::ParentReopened(Err(FsError::Os(libc::ESTALE))));
    assert_eq!(at, Lookup::Failed { error: FsError::Os(libc::ESTALE) });
    let (dir, at) = fs.lookup_begin(77);
    assert_eq!(dir, None);
    assert_eq!(at, Lookup::Failed { error: FsError::Os(EBADF) });
}

#[test]
fn whole_lookup() {
    let mut fs = mounted();
    for (file_no, count) in [(20, 1), (21, 2)] {
        let (_, at) = fs.lookup_begin(ROOT_ID);
        let at = fs.lookup_next(at, LookupEvent::Locate(LocateEvent::Opened(Ok(file_no))));
        assert_eq!(at, Lookup::Locate { at: Locate::StatFile { file: file_no } });
        let at = fs.lookup_next(at, LookupEvent::Locate(LocateEvent::Stat(Ok(stat(100)))));
        assert_eq!(at, Lookup::Search { located: file(file_no, 100) });
        let mut at = fs.lookup_step(at);
        if file_no == 20 {
            assert_eq!(at, Lookup::Register { located: file(20, 100) });
            at = fs.lookup_step(at);
        }
        assert_eq!(done(at).inode, 2);
        assert_eq!(refcount(&fs, 2), Some(count));
    }
}

#[test]
fn lookup_of_a_missing_file() {
    let mut fs = mounted();
    let (_, at) = fs.lookup_begin(ROOT_ID);
    let missing = LocateEvent::Opened(Err(FsError::Os(libc::ENOENT)));
    let at = fs.lookup_next(at, LookupEvent::Locate(missing));
    assert_eq!(at, Lookup::Failed { error: FsError::Os(libc::ENOENT) });
    assert_eq!(fs.lookup_step(at), Lookup::Failed { error: FsError::Os(libc::ENOENT) });
    assert_eq!(fs.next_inode, 2);
}

#[test]
fn lookup_ignores_what_was_not_asked() {
    let mut fs = mounted();
    let (_, at) = fs.lookup_begin(ROOT_ID);
    let at = fs.lookup_next(at, LookupEvent::ParentReopened(Err(FsError::Os(5))));
    assert_eq!(at, Lookup::Locate { at: Locate::start(&OpenFlags::host(), false) });
    assert_eq!(fs.lookup_step(at), Lookup::Locate { at: Locate::start(&OpenFlags::host(), false) });
}

#[test]
fn entry_of_a_new_file() {
    let mut fs = mounted();
    fs.cfg.attr_timeout = Duration::from_secs(9);
    let e = done(fs.do_lookup(file(20, 100)));
    assert_eq!(
        e,
        Entry {
            inode: 2,
            generation: 0,
            attr: stat(100),
            attr_timeout: Duration::from_secs(9),
            entry_timeout: Duration::from_secs(5),
        }
    );
    assert_eq!(fs.next_inode, 3);
    let d = fs.inode_map.get(2).unwrap();
    assert_eq!((d.inode, d.refcount), (2, 1));
    assert_eq!(d.file_or_handle, FileOrHandle::File(20));
}

#[test]
fn same_file_same_number() {
    let mut fs = mounted();
    assert_eq!(done(fs.do_lookup(file(20, 100))).inode, 2);
    assert_eq!(done(fs.do_lookup(file(21, 101))).inode, 3);
    assert_eq!(done(fs.do_lookup(file(22, 100))).inode, 2);
    assert_eq!(refcount(&fs, 2), Some(2));
    assert_eq!(refcount(&fs, 3), Some(1));
    assert_eq!(fs.next_inode, 4);
}

#[test]
fn numbers_of_an_unlinked_file_used_again() {
    let mut fs = mounted();
    assert_eq!(done(fs.do_lookup(by_handle(1, 100))).inode, 2);
    assert_eq!(done(fs.do_lookup(by_handle(2, 100))).inode, 3);
    assert_eq!(done(fs.do_lookup(by_handle(1, 100))).inode, 2);
    assert_eq!(done(fs.do_lookup(by_handle(2, 100))).inode, 3);
    assert_eq!(refcount(&fs, 2), Some(2));
    assert_eq!(refcount(&fs, 3), Some(2));
}

#[test]
fn handle_finds_a_file_that_is_held_open() {
    let mut fs = mounted();
    assert_eq!(done(fs.do_lookup(file(20, 100))).inode, 2);
    assert_eq!(done(fs.do_lookup(by_handle(5, 100))).inode, 2);
    assert_eq!(fs.inode_map.get(2).unwrap().file_or_handle, FileOrHandle::File(20));
}

#[test]
fn forget_undoes_lookup() {
    let mut fs = mounted();
    fs.do_lookup(file(20, 100));
    fs.do_lookup(file(21, 100));
    forget(&mut fs, 2, 1);
    assert_eq!(refcount(&fs, 2), Some(1));
    forget(&mut fs, 2, 1);
    assert_eq!(refcount(&fs, 2), None);
    assert_eq!(done(fs.do_lookup(file(22, 100))).inode, 3);
}

#[test]
fn forget_adds_up() {
    let mut a = mounted();
    let mut b = mounted();
    for _ in 0..5 {
        a.do_lookup(file(20, 100));
        b.do_lookup(file(20, 100));
    }
    forget(&mut a, 2, 1);
    forget(&mut a, 2, 3);
    forget(&mut b, 2, 4);
    assert_eq!(refcount(&a, 2), Some(1));
    assert_eq!(refcount(&b, 2), Some(1));
}

#[test]
fn forget_more_than_there_is() {
    let mut fs = mounted();
    fs.do_lookup(file(20, 100));
    forget(&mut fs, 2, u64::MAX);
    assert_eq!(refcount(&fs, 2), None);
    forget(&mut fs, 2, 1);
    forget(&mut fs, 99, 1);
    assert_eq!(refcount(&fs, ROOT_ID), Some(2));
}

#[test]
fn forget_nothing() {
    let mut fs = mounted();
    fs.do_lookup(file(20, 100));
    forget(&mut fs, 2, 0);
    assert_eq!(refcount(&fs, 2), Some(1));
}

#[test]
fn root_is_not_forgotten() {
    let mut fs = mounted();
    forget(&mut fs, ROOT_ID, u64::MAX);
    assert_eq!(refcount(&fs, ROOT_ID), Some(2));
}

#[test]
fn forgotten_by_handle() {
    let mut fs = mounted();
    fs.do_lookup(by_handle(1, 100));
    forget(&mut fs, 2, 1);
    assert_eq!(done(fs.do_lookup(by_handle(1, 100))).inode, 3);
}

#[test]
fn no_number_left() {
    let mut fs = mounted();
    fs.next_inode = VFS_MAX_INO;
    assert_eq!(done(fs.do_lookup(file(20, 100))).inode, VFS_MAX_INO);
    assert_eq!(fs.do_lookup(file(21, 101)), Lookup::Failed { error: FsError::MaxInode });
    assert_eq!(fs.next_inode, VFS_MAX_INO + 2);
    assert_eq!(done(fs.do_lookup(file(22, 100))).inode, VFS_MAX_INO);
}

#[test]
fn next_number_wraps() {
    let mut fs = mounted();
    fs.next_inode = u64::MAX;
    assert_eq!(fs.do_lookup(file(21, 101)), Lookup::Failed { error: FsError::MaxInode });
    assert_eq!(fs.next_inode, 0);
}

#[test]
fn steps_of_a_lookup() {
    let mut fs = mounted();
    assert_eq!(fs.search(file(20, 100)), Lookup::Register { located: file(20, 100) });
    assert_eq!(done(fs.register(file(20, 100))).inode, 2);
    assert_eq!(done(fs.search(file(21, 100))).inode, 2);
    assert_eq!(refcount(&fs, 2), Some(2));
}

#[test]
fn file_added_by_another_request() {
    let mut fs = mounted();
    let a = fs.search(file(20, 100));
    let b = fs.search(file(21, 100));
    assert_eq!(a, Lookup::Register { located: file(20, 100) });
    assert_eq!(b, Lookup::Register { located: file(21, 100) });
    assert_eq!(done(fs.register(file(20, 100))).inode, 2);
    assert_eq!(done(fs.register(file(21, 100))).inode, 2);
    assert_eq!(refcount(&fs, 2), Some(2));
    assert_eq!(fs.inode_map.get(2).unwrap().file_or_handle, FileOrHandle::File(20));
    assert_eq!(fs.next_inode, 3);
}

#[test]
fn file_forgotten_by_another_request() {
    let mut fs = mounted();
    fs.do_lookup(file(20, 100));
    forget(&mut fs, 2, 1);
    assert_eq!(fs.search(file(21, 100)), Lookup::Register { located: file(21, 100) });
    assert_eq!(refcount(&fs, 2), None);
    assert_eq!(done(fs.register(file(21, 100))).inode, 3);
}

#[test]
fn lookup_and_forget_in_either_order() {
    let mut a = mounted();
    let mut b = mounted();
    for _ in 0..3 {
        a.do_lookup(file(20, 100));
        b.do_lookup(file(20, 100));
    }
    a.search(file(21, 100));
    forget(&mut a, 2, 2);
    forget(&mut b, 2, 2);
    b.search(file(21, 100));
    assert_eq!(refcount(&a, 2), Some(2));
    assert_eq!(refcount(&b, 2), Some(2));
}

#[test]
fn root_imported_again() {
    let mut fs = mounted();
    assert_eq!(done(fs.search(file(11, 1))).inode, ROOT_ID);
    assert_eq!(refcount(&fs, ROOT_ID), Some(3));
    fs.import(Ok(file(12, 1))).unwrap();
    assert_eq!(refcount(&fs, ROOT_ID), Some(2));
    assert_eq!(fs.inode_map.get(ROOT_ID).unwrap().file_or_handle, FileOrHandle::File(12));
}

#[test]
fn root_keeps_its_lookups() {
    let mut fs = mounted();
    fs.do_lookup(file(11, 1));
    fs.search(file(11, 1));
    fs.register(file(11, 1));
    forget(&mut fs, ROOT_ID, 100);
    fs.do_lookup(file(20, 100));
    forget(&mut fs, 2, 1);
    assert_eq!(refcount(&fs, ROOT_ID), Some(5));
}

#[test]
fn import_opens_the_root_dir() {
    let host = OpenFlags::host();
    let cfg = Config { root_dir: String::from("/srv/x"), ..Config::default() };
    let mut fs: Fs = PassthroughFs::new(cfg, host, SysReply { ret: 3, errno: 0 }).unwrap();
    assert!(fs.can_import());
    assert_eq!(fs.import_path(), "/srv/x");
    let (dir, at) = fs.import_start();
    let flags = libc::O_PATH | libc::O_NOFOLLOW | libc::O_CLOEXEC;
    assert_eq!(dir, libc::AT_FDCWD);
    assert_eq!(at, Locate::Open { args: OpenArgs { flags, mode: None } });
    let st = Stat { st_dev: 5, ..stat(2) };
    let at = at.next(&host, LocateEvent::Opened(Ok(10)));
    let located = match at.next(&host, LocateEvent::Stat(Ok(st))) {
        Locate::Done { located } => located,
        other => panic!("{:?}", other),
    };
    assert_eq!(fs.import(Ok(located)), Ok(()));
    let d = fs.inode_map.get(1).unwrap();
    assert_eq!((d.inode, d.refcount), (1, 2));
    assert_eq!(d.altkey, InodeAltKey::Ids { ino: 2, dev: 5 });
    assert_eq!(fs.next_inode, 2);
}

#[test]
fn count_stops_at_the_largest() {
    let mut fs = mounted();
    fs.do_lookup(file(20, 100));
    fs.inode_map.get_map_mut().update(&2, |mut d| {
        d.refcount = u64::MAX;
        d
    });
    assert_eq!(done(fs.do_lookup(file(21, 100))).inode, 2);
    assert_eq!(refcount(&fs, 2), Some(u64::MAX));
    assert_eq!(done(fs.register(file(21, 100))).inode, 2);
    assert_eq!(refcount(&fs, 2), Some(0));
    assert_eq!(fs.do_lookup(file(21, 100)), Lookup::Search { located: file(21, 100) });
}

#[test]
fn release_of_open_files() {
    let mut fs = mounted();
    fs.handle_map.insert(1, HandleData::new(2, 50));
    assert_eq!(fs.do_release(3, 1), Err(FsError::Os(EBADF)));
    assert_eq!(fs.do_release(2, 1), Ok(()));
    assert_eq!(fs.do_release(2, 1), Err(FsError::Os(EBADF)));
}

#[test]
fn mount_looks_up_the_root() {
    assert_eq!(Fs::mount_target(), (ROOT_ID, String::from(".")));
    let mut fs = mounted();
    let e = done(fs.do_lookup(file(11, 1)));
    assert_eq!(Fs::mount(Ok(e)), Ok((e, VFS_MAX_INO)));
    assert_eq!(Fs::mount(Err(FsError::Os(5))), Err(FsError::Os(5)));
}

#[test]
fn locate_without_handles() {
    let host = OpenFlags::host();
    let place = libc::O_PATH | libc::O_NOFOLLOW | libc::O_CLOEXEC;
    let at: Locate<u32> = Locate::start(&host, false);
    assert_eq!(at, Locate::Open { args: OpenArgs { flags: place, mode: None } });
    let at = at.next(&host, LocateEvent::Opened(Ok(20)));
    assert_eq!(at, Locate::StatFile { file: 20 });
    let at = at.next(&host, LocateEvent::Stat(Ok(stat(100))));
    assert_eq!(at, Locate::Done { located: file(20, 100) });
}

#[test]
fn locate_by_handle() {
    let mut fs = mounted();
    fs.cfg.inode_file_handles = true;
    let host = OpenFlags::host();
    let (dir, at) = fs.import_start();
    assert_eq!(dir, libc::AT_FDCWD);
    assert_eq!(at, Locate::MakeHandle);
    let at = at.next(&host, LocateEvent::Handle(Ok(handle(3))));
    assert_eq!(at, Locate::StatPath { handle: handle(3) });
    let at = at.next(&host, LocateEvent::Stat(Ok(stat(100))));
    assert_eq!(at, Locate::Done { located: by_handle(3, 100) });
}

#[test]
fn locate_falls_back_to_opening() {
    let host = OpenFlags::host();
    let at: Locate<u32> = Locate::start(&host, true);
    let at = at.next(&host, LocateEvent::Handle(Err(FsError::Os(libc::EOPNOTSUPP))));
    assert_eq!(at, Locate::Open { args: OpenArgs { flags: host.place(), mode: None } });
    let at = at.next(&host, LocateEvent::Opened(Err(FsError::Os(libc::ENOENT))));
    assert_eq!(at, Locate::Failed { error: FsError::Os(libc::ENOENT) });
}

#[test]
fn locate_stat_fails() {
    let host = OpenFlags::host();
    let error = FsError::Os(libc::EIO);
    let at: Locate<u32> = Locate::StatFile { file: 20 };
    assert_eq!(at.next(&host, LocateEvent::Stat(Err(error))), Locate::Failed { error });
    let at: Locate<u32> = Locate::StatPath { handle: handle(1) };
    assert_eq!(at.next(&host, LocateEvent::Stat(Err(error))), Locate::Failed { error });
}

#[test]
fn locate_ignores_what_was_not_asked() {
    let host = OpenFlags::host();
    let at: Locate<u32> = Locate::MakeHandle;
    assert_eq!(at.next(&host, LocateEvent::Opened(Ok(1))), Locate::MakeHandle);
    let at: Locate<u32> = Locate::Failed { error: FsError::Os(1) };
    let same = at.next(&host, LocateEvent::Stat(Ok(stat(1))));
    assert_eq!(same, Locate::Failed { error: FsError::Os(1) });
}

#[test]
fn reopening_through_proc() {
    let fs = mounted();
    let flags = libc::O_RDONLY | libc::O_NOFOLLOW;
    let r = fs.import_reopen_request(8, flags);
    assert_eq!((r.dirfd, r.path.as_str()), (3, "self/fd/8"));
    assert_eq!(r.args, OpenArgs { flags, mode: None });
    let r = fs.open_proc_file(8, flags);
    assert_eq!((r.dirfd, r.path.as_str()), (3, "self/fd/8"));
    assert_eq!(r.args, OpenArgs { flags: libc::O_RDONLY | libc::O_CLOEXEC, mode: None });
}

#[test]
fn root_path_for_the_kernel() {
    let mut fs = empty();
    for (path, ok) in [("/", true), ("", true), ("/d\u{e9}", true), ("/a\0b", false), ("\0", false)] {
        fs.cfg.root_dir = String::from(path);
        assert_eq!(fs.can_import(), ok);
    }
}

#[test]
fn new_file_looked_up_twice_with_one_handle() {
    for (a, b) in [(file(20, 100), by_handle(1, 100)), (by_handle(1, 100), file(20, 100))] {
        let mut fs = mounted();
        let (a, b) = match (fs.search(a), fs.search(b)) {
            (Lookup::Register { located: a }, Lookup::Register { located: b }) => (a, b),
            other => panic!("{:?}", other),
        };
        assert_eq!(done(fs.register(a)).inode, 2);
        assert_eq!(done(fs.register(b)).inode, 2);
        assert_eq!(refcount(&fs, 2), Some(2));
    }
}

#[test]
fn forgotten_number_is_not_used_again() {
    let mut fs = mounted();
    for expected in [2, 3, 4] {
        assert_eq!(done(fs.do_lookup(file(20, 100))).inode, expected);
        forget(&mut fs, expected, 1);
    }
}
