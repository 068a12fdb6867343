use passthrough::abi::{OpenFlags, AT_FDCWD, EBADF, ENOENT, ROOT_ID, VFS_MAX_INO};
use passthrough::altkey::Stat;
use passthrough::error::{ebadf, FsError};
use passthrough::fs::PassthroughFs;
use passthrough::syscall::{
    create_file_excl_args, create_file_excl_result, open_file_args, open_file_result,
    open_proc_file_request, proc_fd_path, stat_args, stat_result, OpenArgs, SysReply,
};
use passthrough::text::{append_decimal, str_eq};

fn stat(ino: u64) -> Stat {
    Stat {
        st_dev: 7,
        st_ino: ino,
        st_nlink: 1,
        st_mode: 0o100644,
        st_uid: 0,
        st_gid: 0,
        st_rdev: 0,
        st_size: 12,
        st_blksize: 4096,
        st_blocks: 8,
        st_atime: 1,
        st_atime_nsec: 2,
        st_mtime: 3,
        st_mtime_nsec: 4,
        st_ctime: 5,
        st_ctime_nsec: 6,
    }
}

#[test]
fn numbers_of_the_host() {
    let host = OpenFlags::host();
    assert_eq!(host.path, libc::O_PATH);
    assert_eq!(host.nofollow, libc::O_NOFOLLOW);
    assert_eq!(host.cloexec, libc::O_CLOEXEC);
    assert_eq!(host.creat, libc::O_CREAT);
    assert_eq!(host.excl, libc::O_EXCL);
    assert_eq!(host.place(), libc::O_PATH | libc::O_NOFOLLOW | libc::O_CLOEXEC);
    assert_eq!(EBADF, libc::EBADF);
    assert_eq!(ENOENT, libc::ENOENT);
    assert_eq!(AT_FDCWD, libc::AT_FDCWD);
    assert_eq!(ROOT_ID, 1);
    assert_eq!(VFS_MAX_INO, (1u64 << 56) - 1);
}

#[test]
fn flags_of_the_host_are_disjoint() {
    let host = OpenFlags::host();
    let all = [host.path, host.nofollow, host.cloexec, host.creat, host.excl];
    for i in 0..all.len() {
        assert!(all[i] > 0);
        for j in 0..i {
            assert_eq!(all[i] & all[j], 0);
        }
    }
}

#[test]
fn mode_goes_along_with_creat_only() {
    let host = OpenFlags::host();
    assert_eq!(
        open_file_args(&host, libc::O_RDWR, 0o644),
        OpenArgs { flags: libc::O_RDWR, mode: None }
    );
    assert_eq!(
        open_file_args(&host, libc::O_RDWR | libc::O_CREAT, 0o644),
        OpenArgs { flags: libc::O_RDWR | libc::O_CREAT, mode: Some(0o644) }
    );
}

#[test]
fn open_replies() {
    assert_eq!(open_file_result(SysReply { ret: 5, errno: 2 }), Ok(5));
    assert_eq!(open_file_result(SysReply { ret: 0, errno: 0 }), Ok(0));
    assert_eq!(
        open_file_result(SysReply { ret: -1, errno: libc::EACCES }),
        Err(FsError::Os(libc::EACCES))
    );
}

#[test]
fn create_file_excl_flags() {
    let host = OpenFlags::host();
    let flags = libc::O_RDWR | libc::O_CREAT | libc::O_EXCL;
    let args = create_file_excl_args(&host, flags, 0o600);
    assert_eq!(args.flags, flags & libc::O_CREAT & libc::O_EXCL);
    assert_eq!(args, OpenArgs { flags: 0, mode: Some(0o600) });
}

#[test]
fn create_file_excl_replies() {
    assert_eq!(create_file_excl_result(SysReply { ret: 3, errno: 0 }), Ok(Some(3)));
    for errno in 1..134 {
        let reply = SysReply { ret: -1, errno };
        let missing =
            std::io::Error::from_raw_os_error(errno).kind() == std::io::ErrorKind::NotFound;
        if missing {
            assert_eq!(create_file_excl_result(reply), Ok(None));
        } else {
            assert_eq!(create_file_excl_result(reply), Err(FsError::Os(errno)));
        }
    }
}

#[test]
fn proc_paths() {
    assert_eq!(proc_fd_path(0), "self/fd/0");
    assert_eq!(proc_fd_path(10), "self/fd/10");
    assert_eq!(proc_fd_path(2147483647), "self/fd/2147483647");
    assert_eq!(proc_fd_path(-1), "self/fd/-1");
    assert_eq!(proc_fd_path(i32::MIN), "self/fd/-2147483648");
    for fd in [0, 9, 10, 99, 100, 12345, i32::MAX, -7, i32::MIN] {
        assert_eq!(proc_fd_path(fd), format!("self/fd/{}", fd));
        assert!(!proc_fd_path(fd).contains('\0'));
    }
}

#[test]
fn proc_open_flags() {
    let host = OpenFlags::host();
    let r = open_proc_file_request(&host, 4, 11, libc::O_RDONLY | libc::O_NOFOLLOW);
    assert_eq!(r.dirfd, 4);
    assert_eq!(r.path, "self/fd/11");
    assert_eq!(r.args, OpenArgs { flags: libc::O_CLOEXEC, mode: None });
    let r = open_proc_file_request(&host, 4, 11, libc::O_RDWR | libc::O_CREAT);
    assert_eq!(
        r.args,
        OpenArgs { flags: libc::O_RDWR | libc::O_CREAT | libc::O_CLOEXEC, mode: Some(0) }
    );
    let again = open_proc_file_request(&host, 4, 11, r.args.flags);
    assert_eq!(again, r);
}

#[test]
fn proc_is_opened_as_a_place() {
    let host = OpenFlags::host();
    let r = PassthroughFs::<u32>::proc_request(&host);
    assert_eq!(r.dirfd, libc::AT_FDCWD);
    assert_eq!(r.path, "/proc");
    assert_eq!(
        r.args,
        OpenArgs { flags: libc::O_PATH | libc::O_NOFOLLOW | libc::O_CLOEXEC, mode: None }
    );
}

#[test]
fn stat_arguments() {
    let flags = libc::AT_EMPTY_PATH | libc::AT_SYMLINK_NOFOLLOW;
    let a = stat_args(Some(b"name"));
    assert_eq!((a.path, a.flags), (&b"name"[..], flags));
    let b = stat_args(None);
    assert_eq!((b.path, b.flags), (&b""[..], flags));
}

#[test]
fn stat_replies() {
    assert_eq!(stat_result(SysReply { ret: 0, errno: 0 }, stat(3)), Ok(stat(3)));
    assert_eq!(
        stat_result(SysReply { ret: -1, errno: libc::ENOENT }, stat(3)),
        Err(FsError::Os(libc::ENOENT))
    );
}

#[test]
fn error_words() {
    assert_eq!(ebadf(), FsError::Os(libc::EBADF));
    assert_eq!(ebadf().message(), None);
    assert_eq!(
        FsError::MaxInode.message(),
        Some(format!("max inode number reached: {}", VFS_MAX_INO))
    );
}

#[test]
fn decimal_numbers() {
    for n in [0, 1, 9, 10, 11, 100, 909, u64::MAX] {
        let mut s = String::from("n=");
        append_decimal(&mut s, n);
        assert_eq!(s, format!("n={}", n));
    }
}

#[test]
fn texts_compare() {
    assert!(str_eq("", ""));
    assert!(str_eq("h\u{e9}", "h\u{e9}"));
    assert!(!str_eq("h\u{e9}", "he"));
    assert!(!str_eq("ab", "abc"));
}
