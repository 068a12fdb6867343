//! With which arguments the kernel is called, and what its reply means.
use crate::abi::{
    libc_at_empty_path, libc_at_symlink_nofollow, libc_enoent, OpenFlags, RawFd, AT_EMPTY_PATH,
    AT_SYMLINK_NOFOLLOW, ENOENT,
};
use crate::altkey::Stat;
use crate::error::FsError;
use crate::text::{append_decimal, decimal, law_decimal_digits, law_decimal_tells_apart};
use vstd::prelude::*;
use vstd::string::*;

verus! {

/// What a system call returned, and the error number that it left.
#[derive(Debug, Clone, Copy, PartialEq, Eq, Structural)]
pub struct SysReply {
    pub ret: i32,
    pub errno: i32,
}

/// The arguments of `openat` after the directory and the path. Without a mode the call is made
/// with three arguments.
#[derive(Debug, Clone, Copy, PartialEq, Eq)]
pub struct OpenArgs {
    pub flags: i32,
    pub mode: Option<u32>,
}

/// A call of `openat` on a path that this crate chooses.
#[derive(Debug, PartialEq, Eq)]
pub struct OpenRequest {
    /// The directory that the path starts from.
    pub dirfd: RawFd,
    pub path: String,
    pub args: OpenArgs,
}

/// The path and the flags of `fstatat`.
#[derive(Debug, PartialEq, Eq)]
pub struct StatArgs<'a> {
    /// The bytes of the path, without the one that ends it.
    pub path: &'a [u8],
    pub flags: i32,
}

/// How a file is opened: the mode goes along only where the file may be created.
pub open spec fn open_file_spec(host: OpenFlags, flags: i32, mode: u32) -> OpenArgs {
    OpenArgs { flags, mode: if flags & host.creat == host.creat { Some(mode) } else { None } }
}

/// How a file is opened: the mode goes along only where the file may be created.
pub fn open_file_args(host: &OpenFlags, flags: i32, mode: u32) -> (r: OpenArgs)
    ensures
        r == open_file_spec(*host, flags, mode),
        r.flags == flags,
        flags & host.creat == host.creat ==> r.mode == Some(mode),
        flags & host.creat != host.creat ==> r.mode is None,
{
    if flags & host.creat == host.creat {
        OpenArgs { flags, mode: Some(mode) }
    } else {
        OpenArgs { flags, mode: None }
    }
}

/// A file is opened with just the flags asked for. Where it may be created, every bit of the mode
/// goes along; where not, the mode does not matter.
pub proof fn law_open_file(host: OpenFlags, flags: i32, mode: u32, other: u32)
    ensures
        open_file_spec(host, flags, mode).flags == flags,
        open_file_spec(host, flags, mode).mode matches Some(m) ==> m == mode,
        open_file_spec(host, flags, mode).mode is Some <==> flags & host.creat == host.creat,
        open_file_spec(host, flags, mode) == open_file_spec(host, flags, other) <==> mode == other
            || flags & host.creat != host.creat,
{
}

/// A negative reply is a failure with the error number that was left.
pub open spec fn open_file_outcome(reply: SysReply) -> Result<RawFd, FsError> {
    if reply.ret < 0 {
        Err(FsError::Os(reply.errno))
    } else {
        Ok(reply.ret)
    }
}

/// The opening of a file succeeds exactly if the reply is a descriptor, and then with that one;
/// else it fails with the error number that was left.
pub proof fn law_open_reply(reply: SysReply, fd: RawFd, error: FsError)
    ensures
        open_file_outcome(reply) == Ok::<RawFd, FsError>(fd) <==> fd >= 0 && reply.ret == fd,
        open_file_outcome(reply) == Err::<RawFd, FsError>(error) <==> reply.ret < 0 && error
            == FsError::Os(reply.errno),
{
}

/// What the reply to opening a file means.
pub fn open_file_result(reply: SysReply) -> (r: Result<RawFd, FsError>)
    ensures
        r == open_file_outcome(reply),
        reply.ret >= 0 ==> r == Ok::<RawFd, FsError>(reply.ret),
        reply.ret < 0 ==> r == Err::<RawFd, FsError>(FsError::Os(reply.errno)),
{
    if reply.ret < 0 {
        return Err(FsError::Os(reply.errno));
    }
    Ok(reply.ret)
}

/// How `create_file_excl` opens a file: of the given flags, with those bits that `O_CREAT` and
/// `O_EXCL` have in common, and always with the mode.
pub fn create_file_excl_args(host: &OpenFlags, flags: i32, mode: u32) -> (r: OpenArgs)
    ensures
        r == (OpenArgs { flags: flags & host.creat & host.excl, mode: Some(mode) }),
{
    OpenArgs { flags: flags & host.creat & host.excl, mode: Some(mode) }
}

/// What the reply to `create_file_excl` means: a missing file is no failure.
pub fn create_file_excl_result(reply: SysReply) -> (r: Result<Option<RawFd>, FsError>)
    ensures
        r == (if reply.ret >= 0 {
            Ok(Some(reply.ret))
        } else if reply.errno == ENOENT {
            Ok(None)
        } else {
            Err(FsError::Os(reply.errno))
        }),
{
    if reply.ret < 0 {
        if reply.errno == libc_enoent() {
            return Ok(None);
        }
        return Err(FsError::Os(reply.errno));
    }
    Ok(Some(reply.ret))
}

/// The path below `/proc` of the link to the open file `fd`.
pub open spec fn proc_fd_path_spec(fd: RawFd) -> Seq<char> {
    "self/fd/"@ + (if fd < 0 {
        "-"@ + decimal((-fd) as nat)
    } else {
        decimal(fd as nat)
    })
}

/// The path below `/proc` of the link to the open file `fd`.
pub fn proc_fd_path(fd: RawFd) -> (r: String)
    ensures
        r@ == proc_fd_path_spec(fd),
{
    let mut s = "self/fd/".to_string();
    if fd < 0 {
        s.append("-");
        append_decimal(&mut s, (-(fd as i64)) as u64);
    } else {
        append_decimal(&mut s, fd as u64);
    }
    assert(s@ =~= proc_fd_path_spec(fd));
    s
}

/// The link to an open file lies in `self/fd` and is named by the number of the file.
pub proof fn law_proc_fd_path(fd: RawFd)
    ensures
        proc_fd_path_spec(fd).len() > 8,
        proc_fd_path_spec(fd).take(8) == "self/fd/"@,
        fd >= 0 ==> proc_fd_path_spec(fd).skip(8) == decimal(fd as nat),
        fd < 0 ==> proc_fd_path_spec(fd)[8] == '-' && proc_fd_path_spec(fd).skip(9) == decimal(
            (-fd) as nat,
        ),
{
    reveal_strlit("self/fd/");
    reveal_strlit("-");
    assert(proc_fd_path_spec(fd).take(8) =~= "self/fd/"@);
    if fd >= 0 {
        law_decimal_digits(fd as nat);
        assert(proc_fd_path_spec(fd).skip(8) =~= decimal(fd as nat));
    } else {
        assert(proc_fd_path_spec(fd).skip(9) =~= decimal((-fd) as nat));
    }
}

/// Different open files have different links.
pub proof fn law_proc_fd_paths_differ(a: RawFd, b: RawFd)
    requires
        proc_fd_path_spec(a) == proc_fd_path_spec(b),
    ensures
        a == b,
{
    law_proc_fd_path(a);
    law_proc_fd_path(b);
    let p = proc_fd_path_spec(a);
    if a >= 0 {
        law_decimal_digits(a as nat);
        assert(p[8] == p.skip(8)[0]);
    }
    if b >= 0 {
        law_decimal_digits(b as nat);
        assert(p[8] == p.skip(8)[0]);
    }
    if a >= 0 {
        law_decimal_tells_apart(a as nat, b as nat);
    } else {
        law_decimal_tells_apart((-a) as nat, (-b) as nat);
    }
}

/// The flags for opening a file through its link below `/proc`: with `O_CLOEXEC`, and without
/// `O_NOFOLLOW`, since the link has to be followed.
pub open spec fn open_proc_flags(host: OpenFlags, flags: i32) -> i32 {
    (flags | host.cloexec) & !host.nofollow
}

/// How a file is opened through its link below `proc`, for the flags `flags`.
pub fn open_proc_file_request(host: &OpenFlags, proc_fd: RawFd, fd: RawFd, flags: i32) -> (r:
    OpenRequest)
    ensures
        r.dirfd == proc_fd,
        r.path@ == proc_fd_path_spec(fd),
        r.args == open_file_spec(*host, open_proc_flags(*host, flags), 0),
        r.args.flags == (flags | host.cloexec) & !host.nofollow,
        r.args.mode matches Some(mode) ==> mode == 0,
        r.args.mode is Some <==> r.args.flags & host.creat == host.creat,
{
    OpenRequest {
        dirfd: proc_fd,
        path: proc_fd_path(fd),
        args: open_file_args(host, (flags | host.cloexec) & !host.nofollow, 0),
    }
}

/// How `fstatat` is called for `path`, or for the descriptor itself where there is no path.
pub fn stat_args<'a>(path: Option<&'a [u8]>) -> (r: StatArgs<'a>)
    ensures
        match path {
            Some(p) => r.path@ == p@,
            None => r.path@ == Seq::<u8>::empty(),
        },
        r.flags == AT_EMPTY_PATH | AT_SYMLINK_NOFOLLOW,
{
    let path: &'a [u8] = match path {
        Some(p) => p,
        None => "".as_bytes(),
    };
    proof {
        reveal_strlit("");
        assert(""@ =~= Seq::<char>::empty());
    }
    StatArgs { path, flags: libc_at_empty_path() | libc_at_symlink_nofollow() }
}

/// What the reply of `fstatat` means; `st` is what it filled in.
pub fn stat_result(reply: SysReply, st: Stat) -> (r: Result<Stat, FsError>)
    ensures
        r == (if reply.ret >= 0 {
            Ok(st)
        } else {
            Err(FsError::Os(reply.errno))
        }),
{
    if reply.ret >= 0 {
        Ok(st)
    } else {
        Err(FsError::Os(reply.errno))
    }
}

/// `create_file_excl` hands on every bit of the mode, and no flag: `O_CREAT` and `O_EXCL` have none
/// in common.
pub proof fn law_create_file_excl(host: OpenFlags, flags: i32, mode: u32, r: OpenArgs)
    requires
        host.wf(),
        call_ensures(create_file_excl_args, (&host, flags, mode), r),
    ensures
        r.flags == 0,
        r.mode matches Some(m) && m == mode,
{
    let k = host.creat;
    let e = host.excl;
    assert(flags & k & e == 0) by (bit_vector)
        requires
            k & e == 0,
    ;
}

/// `create_file_excl` comes to a file exactly if the reply is a descriptor, and then to that one;
/// to no file exactly if it is missing; and to any other error that was left.
pub proof fn law_create_file_excl_reply(
    reply: SysReply,
    r: Result<Option<RawFd>, FsError>,
    fd: RawFd,
    errno: i32,
)
    requires
        call_ensures(create_file_excl_result, (reply,), r),
    ensures
        r == Ok::<Option<RawFd>, FsError>(Some(fd)) <==> fd >= 0 && reply.ret == fd,
        r == Ok::<Option<RawFd>, FsError>(None) <==> reply.ret < 0 && reply.errno == 2,
        r == Err::<Option<RawFd>, FsError>(FsError::Os(errno)) <==> reply.ret < 0 && reply.errno
            == errno && errno != 2,
        r != Err::<Option<RawFd>, FsError>(FsError::MaxInode),
{
}

/// `fstatat` is called with the path that was given, or with none, and in either case with the
/// flags for an empty path and against following a link, and no other.
pub proof fn law_stat_args<'a>(path: Option<&'a [u8]>, r: StatArgs<'a>)
    requires
        call_ensures(stat_args, (path,), r),
    ensures
        path is None ==> r.path@.len() == 0,
        path matches Some(p) ==> r.path@ == p@,
        r.flags & 0x1000 == 0x1000,
        r.flags & 0x100 == 0x100,
        r.flags & !0x1100 == 0,
{
    assert((0x1000i32 | 0x100i32) & 0x1000 == 0x1000 && (0x1000i32 | 0x100i32) & 0x100 == 0x100 && (
    0x1000i32 | 0x100i32) & !0x1100 == 0) by (bit_vector);
}

/// `fstatat` succeeds exactly if its reply is not negative, and then with what it filled in; else
/// it fails with the error number that was left.
pub proof fn law_stat_reply(reply: SysReply, st: Stat, r: Result<Stat, FsError>)
    requires
        call_ensures(stat_result, (reply, st), r),
    ensures
        r is Ok <==> reply.ret >= 0,
        r matches Ok(filled) ==> filled == st,
        r matches Err(e) ==> e == FsError::Os(reply.errno),
{
}

} // verus!
