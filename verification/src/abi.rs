//! Numbers that are shared with the kernel and with the FUSE client.
use vstd::prelude::*;

verus! {

/// An inode number, as the FUSE client sees it.
pub type Inode = u64;

/// The number of an open file or directory, as the FUSE client sees it.
pub type Handle = u64;

/// A raw file descriptor.
pub type RawFd = i32;

/// The inode number of the root directory.
pub const ROOT_ID: u64 = 1;

/// The largest inode number that may be handed out.
pub const VFS_MAX_INO: u64 = 0xff_ffff_ffff_ffff;

/// The error number of a bad file descriptor.
pub const EBADF: i32 = 9;

/// The error number of a missing file.
pub const ENOENT: i32 = 2;

/// The directory descriptor that stands for the current working directory.
pub const AT_FDCWD: i32 = -100;

/// Flag of `fstatat`: an empty path means the descriptor itself.
pub const AT_EMPTY_PATH: i32 = 0x1000;

/// Flag of `fstatat`: do not follow a symbolic link.
pub const AT_SYMLINK_NOFOLLOW: i32 = 0x100;

/// The inode numbers that may be handed out are those whose highest byte is free.
pub proof fn law_max_ino(inode: Inode)
    ensures
        inode <= VFS_MAX_INO <==> inode >> 56 == 0,
{
    assert(inode <= 0xff_ffff_ffff_ffff <==> inode >> 56 == 0) by (bit_vector);
}

/// Reads `libc::EBADF`, which is 9 on every Linux target.
#[verifier::external_body]
pub(crate) fn libc_ebadf() -> (r: i32)
    ensures
        r == EBADF,
{
    libc::EBADF
}

/// Reads `libc::ENOENT`, which is 2 on every Linux target.
#[verifier::external_body]
pub(crate) fn libc_enoent() -> (r: i32)
    ensures
        r == ENOENT,
{
    libc::ENOENT
}

/// Reads `libc::AT_FDCWD`, which is -100 on every Linux target.
#[verifier::external_body]
pub(crate) fn libc_at_fdcwd() -> (r: i32)
    ensures
        r == AT_FDCWD,
{
    libc::AT_FDCWD
}

/// Reads `libc::AT_EMPTY_PATH`, which is 0x1000 on every Linux target.
#[verifier::external_body]
pub(crate) fn libc_at_empty_path() -> (r: i32)
    ensures
        r == AT_EMPTY_PATH,
{
    libc::AT_EMPTY_PATH
}

/// Reads `libc::AT_SYMLINK_NOFOLLOW`, which is 0x100 on every Linux target.
#[verifier::external_body]
pub(crate) fn libc_at_symlink_nofollow() -> (r: i32)
    ensures
        r == AT_SYMLINK_NOFOLLOW,
{
    libc::AT_SYMLINK_NOFOLLOW
}

/// The flags of `openat` that the file system uses. Their values differ between architectures.
#[derive(Debug, Clone, Copy, PartialEq, Eq, Structural)]
pub struct OpenFlags {
    /// `O_PATH`: only a place in the tree, no access to the contents.
    pub path: i32,
    /// `O_NOFOLLOW`: fail on a symbolic link.
    pub nofollow: i32,
    /// `O_CLOEXEC`: close the descriptor on `exec`.
    pub cloexec: i32,
    /// `O_CREAT`: create the file if it is missing.
    pub creat: i32,
    /// `O_EXCL`: with `O_CREAT`, fail if the file exists.
    pub excl: i32,
}

impl OpenFlags {
    /// Every flag has a bit, and no two flags share one.
    pub open spec fn wf(self) -> bool {
        &&& self.path > 0 && self.nofollow > 0 && self.cloexec > 0
        &&& self.creat > 0 && self.excl > 0
        &&& self.path & self.nofollow == 0 && self.path & self.cloexec == 0
        &&& self.path & self.creat == 0 && self.path & self.excl == 0
        &&& self.nofollow & self.cloexec == 0 && self.nofollow & self.creat == 0
        &&& self.nofollow & self.excl == 0 && self.cloexec & self.creat == 0
        &&& self.cloexec & self.excl == 0 && self.creat & self.excl == 0
    }

    /// The values that Linux gives the flags, which depend on the architecture.
    pub open spec fn linux(self) -> bool {
        ||| self.has(0x20_0000, 0x2_0000, 0x8_0000, 0x40, 0x80)
        // ARM, PowerPC and m68k
        ||| self.has(0x20_0000, 0x8000, 0x8_0000, 0x40, 0x80)
        // MIPS
        ||| self.has(0x20_0000, 0x2_0000, 0x8_0000, 0x100, 0x400)
        // SPARC
        ||| self.has(0x100_0000, 0x2_0000, 0x40_0000, 0x200, 0x800)
    }

    /// Whether the flags have these values.
    pub open spec fn has(self, path: i32, nofollow: i32, cloexec: i32, creat: i32, excl: i32) -> bool {
        self == (OpenFlags { path, nofollow, cloexec, creat, excl })
    }

    /// The flags under which a place in the tree is opened: for traversing it, not for reading
    /// what is there.
    pub open spec fn place_spec(self) -> i32 {
        self.path | self.nofollow | self.cloexec
    }

    /// Whatever the architecture, no two flags share a bit.
    pub proof fn lemma_linux_wf(self)
        requires
            self.linux(),
        ensures
            self.wf(),
    {
        let p = self.path;
        let n = self.nofollow;
        let c = self.cloexec;
        let k = self.creat;
        let e = self.excl;
        assert(p & n == 0 && p & c == 0 && p & k == 0 && p & e == 0 && n & c == 0 && n & k == 0
            && n & e == 0 && c & k == 0 && c & e == 0 && k & e == 0) by (bit_vector)
            requires
                p == 0x20_0000 || p == 0x100_0000,
                n == 0x2_0000 || n == 0x8000,
                c == 0x8_0000 || c == 0x40_0000,
                k == 0x40 || k == 0x100 || k == 0x200,
                e == 0x80 || e == 0x400 || e == 0x800,
        ;
    }

    /// A place in the tree is opened only as a place, without following a link and closed on
    /// `exec`, and with no flag besides.
    pub proof fn law_place(self)
        ensures
            self.place_spec() & self.path == self.path,
            self.place_spec() & self.nofollow == self.nofollow,
            self.place_spec() & self.cloexec == self.cloexec,
            self.place_spec() & !self.path & !self.nofollow & !self.cloexec == 0,
    {
        let p = self.path;
        let n = self.nofollow;
        let c = self.cloexec;
        assert((p | n | c) & p == p) by (bit_vector);
        assert((p | n | c) & n == n) by (bit_vector);
        assert((p | n | c) & c == c) by (bit_vector);
        assert((p | n | c) & !p & !n & !c == 0) by (bit_vector);
    }

    /// The flags of the host.
    pub fn host() -> (r: OpenFlags)
        ensures
            r.linux(),
            r.wf(),
    {
        let r = libc_open_flags();
        proof {
            r.lemma_linux_wf();
        }
        r
    }

    /// The flags under which a place in the tree is opened.
    pub fn place(&self) -> (r: i32)
        ensures
            r == self.place_spec(),
            r == self.path | self.nofollow | self.cloexec,
    {
        self.path | self.nofollow | self.cloexec
    }
}

/// Reads `libc::O_PATH`, `libc::O_NOFOLLOW`, `libc::O_CLOEXEC`, `libc::O_CREAT` and
/// `libc::O_EXCL`. On every Linux target for which `libc` has all five they have the values of one
/// of the four families of architectures; which of them it is depends on the target, and is left
/// unsaid.
#[verifier::external_body]
fn libc_open_flags() -> (r: OpenFlags)
    ensures
        r.linux(),
{
    OpenFlags {
        path: libc::O_PATH,
        nofollow: libc::O_NOFOLLOW,
        cloexec: libc::O_CLOEXEC,
        creat: libc::O_CREAT,
        excl: libc::O_EXCL,
    }
}

} // verus!
