//! The state of the file system and what the requests do to it.
use crate::abi::{
    libc_at_fdcwd, Handle, Inode, OpenFlags, RawFd, AT_FDCWD, EBADF, ROOT_ID, VFS_MAX_INO,
};
use crate::altkey::{FileHandle, InodeAltKey, Stat};
use crate::config::Config;
use crate::error::FsError;
use crate::handle::{release_outcome, released, HandleData, HandleMap};
use crate::inode::{FileAccess, FileOrHandle, InodeData, InodeFile, InodeMap, InodeTable};
use crate::laws::{law_open_proc_flags, law_place_is_not_created};
use crate::locate::{Locate, LocateEvent, Located};
use crate::multikey::{MultikeyBTreeMap, MultikeyView};
use crate::syscall::{
    open_file_args, open_file_outcome, open_file_result, open_file_spec, open_proc_file_request,
    open_proc_flags, proc_fd_path, proc_fd_path_spec, OpenRequest, SysReply,
};
use crate::text::{check_path, is_path};
use std::time::Duration;
use vstd::prelude::*;

verus! {

/// What the client is told of a file that it looked up.
#[derive(Debug, Clone, Copy, PartialEq, Eq)]
pub struct Entry {
    /// The number that stands for the file.
    pub inode: Inode,
    /// Told apart from other uses of the number; always 0, as numbers are not used again.
    pub generation: u64,
    /// What the file is.
    pub attr: Stat,
    /// How long `attr` may be trusted.
    pub attr_timeout: Duration,
    /// How long the name may be trusted to mean this file.
    pub entry_timeout: Duration,
}

/// Where a lookup stands, and so what is to be done next.
///
/// Other requests may run between two steps. A step relies on nothing that they can change.
#[derive(Debug, PartialEq, Eq)]
pub enum Lookup<F> {
    /// Open the directory to look in, by this handle and with these flags.
    ReopenParent { handle: FileHandle, flags: i32 },
    /// Get hold of the file, as `at` says.
    Locate { at: Locate<F> },
    /// Look for an inode that the keys of the file stand for, and count one more lookup of it.
    Search { located: Located<F> },
    /// Look again, and add an inode if there still is none.
    Register { located: Located<F> },
    /// The file has been looked up.
    Done { entry: Entry },
    /// It has not.
    Failed { error: FsError },
}

/// What became of the last thing that a lookup had to have done outside.
#[derive(Debug, PartialEq, Eq)]
pub enum LookupEvent<F> {
    /// The reply to opening the directory.
    ParentReopened(Result<(), FsError>),
    /// A reply while the file is located.
    Locate(LocateEvent<F>),
}

impl<F> Lookup<F> {
    /// Where a lookup stands once locating the file stands at `at`.
    pub open spec fn locating(at: Locate<F>) -> Self {
        match at {
            Locate::Done { located } => Lookup::Search { located },
            Locate::Failed { error } => Lookup::Failed { error },
            _ => Lookup::Locate { at },
        }
    }

    fn from_locate(at: Locate<F>) -> (r: Self)
        ensures
            r == Self::locating(at),
    {
        match at {
            Locate::Done { located } => Lookup::Search { located },
            Locate::Failed { error } => Lookup::Failed { error },
            at => Lookup::Locate { at },
        }
    }
}

/// A count that stops at the largest number.
pub open spec fn saturating_succ(n: u64) -> u64 {
    if n == u64::MAX {
        n
    } else {
        (n + 1) as u64
    }
}

/// A count that starts again at 0 after the largest number.
pub open spec fn wrapping_succ(n: u64) -> u64 {
    if n == u64::MAX {
        0
    } else {
        (n + 1) as u64
    }
}

impl<F> Located<F> {
    /// The key made of the numbers of the file.
    pub open spec fn ids(self) -> InodeAltKey {
        InodeAltKey::ids_of(self.st)
    }

    /// The key made of the handle of the file, where it is reached by one.
    pub open spec fn handle_key(self) -> Option<InodeAltKey> {
        self.file_or_handle.handle_key()
    }
}

impl<F> MultikeyView<InodeData<F>> {
    /// The inode that the keys of a located file stand for.
    pub open spec fn find_located(self, located: Located<F>) -> Option<Inode> {
        self.find(located.ids(), located.handle_key())
    }

    /// Every inode is kept under its own number.
    pub open spec fn labelled(self) -> bool {
        forall|inode: Inode| #[trigger]
            self.main.contains_key(inode) ==> self.main[inode].inode == inode
    }

    /// With a located file under a new number.
    pub open spec fn with_located(self, inode: Inode, located: Located<F>, refcount: u64) -> Self {
        self.with_inode(
            inode,
            located.ids(),
            located.handle_key(),
            InodeData {
                inode,
                file_or_handle: located.file_or_handle,
                refcount,
                altkey: located.ids(),
            },
        )
    }

    /// What is left once the client has forgotten `count` lookups of `inode`: an inode whose
    /// count gets to 0 is dropped, and the root is never forgotten.
    pub open spec fn forgotten(self, inode: Inode, count: u64) -> Self {
        if inode == ROOT_ID || !self.main.contains_key(inode) {
            self
        } else if self.main[inode].refcount <= count {
            self.drop(inode)
        } else {
            self.with_count(inode, (self.main[inode].refcount - count) as u64)
        }
    }
}

/// The state of the file system.
#[verifier::reject_recursive_types(F)]
pub struct FsState<F> {
    pub inodes: InodeTable<F>,
    pub next_inode: u64,
    pub handles: Map<Handle, HandleData<F>>,
    pub next_handle: u64,
    pub proc_fd: RawFd,
    pub host: OpenFlags,
    pub writeback: bool,
    pub no_open: bool,
    pub no_opendir: bool,
    pub killpriv_v2: bool,
    pub cfg: Config,
}

impl<F> FsState<F> {
    /// The state of a new file system: nothing is known and nothing is open.
    pub open spec fn initial(cfg: Config, host: OpenFlags, proc_fd: RawFd) -> Self {
        FsState {
            inodes: InodeTable::empty(),
            next_inode: (ROOT_ID + 1) as u64,
            handles: Map::empty(),
            next_handle: 1,
            proc_fd,
            host,
            writeback: false,
            no_open: false,
            no_opendir: false,
            killpriv_v2: false,
            cfg,
        }
    }

    /// What the client is told of a file under `inode`.
    pub open spec fn entry(self, inode: Inode, st: Stat) -> Entry {
        Entry {
            inode,
            generation: 0,
            attr: st,
            attr_timeout: self.cfg.attr_timeout,
            entry_timeout: self.cfg.entry_timeout,
        }
    }

    /// With other inodes.
    pub open spec fn with_inodes(self, inodes: InodeTable<F>) -> Self {
        FsState { inodes, ..self }
    }

    /// Starting to locate the file of a lookup.
    pub open spec fn lookup_located(self) -> Lookup<F> {
        Lookup::Locate { at: Locate::first(self.host, self.cfg.inode_file_handles) }
    }

    /// The start of a lookup in the directory `parent`: where that is not held open, it has to be
    /// opened first.
    pub open spec fn lookup_first(self, parent: Inode) -> Lookup<F> {
        if !self.inodes.main.contains_key(parent) {
            Lookup::Failed { error: FsError::Os(EBADF) }
        } else {
            match self.inodes.main[parent].file_or_handle {
                FileOrHandle::File(_) => self.lookup_located(),
                FileOrHandle::Handle(handle) => Lookup::ReopenParent {
                    handle,
                    flags: self.host.path,
                },
            }
        }
    }

    /// Where a lookup stands after `event`. An event that is not the reply to what was to be done
    /// changes nothing.
    pub open spec fn lookup_after(self, at: Lookup<F>, event: LookupEvent<F>) -> Lookup<F> {
        match (at, event) {
            (Lookup::ReopenParent { .. }, LookupEvent::ParentReopened(Ok(_))) => {
                self.lookup_located()
            },
            (Lookup::ReopenParent { .. }, LookupEvent::ParentReopened(Err(error))) => {
                Lookup::Failed { error }
            },
            (Lookup::Locate { at }, LookupEvent::Locate(event)) => {
                Lookup::locating(at.after(self.host, event))
            },
            _ => at,
        }
    }

    /// Where a lookup stands after a step on the inodes.
    pub open spec fn lookup_stepped(self, at: Lookup<F>) -> Lookup<F> {
        match at {
            Lookup::Search { located } => self.searched(located),
            Lookup::Register { located } => self.registered(located),
            _ => at,
        }
    }

    /// The state after a step of a lookup on the inodes.
    pub open spec fn after_lookup_step(self, at: Lookup<F>) -> Self {
        match at {
            Lookup::Search { located } => self.after_search(located),
            Lookup::Register { located } => self.after_register(located),
            _ => self,
        }
    }

    /// The state after looking for an inode of a file: one that is found has one more lookup.
    pub open spec fn after_search(self, located: Located<F>) -> Self {
        match self.inodes.find_located(located) {
            Some(inode) => if self.inodes.main[inode].refcount == 0 {
                self
            } else {
                self.with_inodes(
                    self.inodes.with_count(
                        inode,
                        saturating_succ(self.inodes.main[inode].refcount),
                    ),
                )
            },
            None => self,
        }
    }

    /// What comes of looking for an inode of a file: one whose count is 0 is about to be
    /// dropped, so the search starts again.
    pub open spec fn searched(self, located: Located<F>) -> Lookup<F> {
        match self.inodes.find_located(located) {
            None => Lookup::Register { located },
            Some(inode) => if self.inodes.main[inode].refcount == 0 {
                Lookup::Search { located }
            } else {
                Lookup::Done { entry: self.entry(inode, located.st) }
            },
        }
    }

    /// The state with a new number handed out to a file, or at least used up.
    pub open spec fn after_adding(self, located: Located<F>) -> Self {
        FsState {
            next_inode: wrapping_succ(self.next_inode),
            inodes: if self.next_inode > VFS_MAX_INO {
                self.inodes
            } else {
                self.inodes.with_located(self.next_inode, located, 1)
            },
            ..self
        }
    }

    /// What comes of handing out a new number to a file.
    pub open spec fn added(self, located: Located<F>) -> Lookup<F> {
        if self.next_inode > VFS_MAX_INO {
            Lookup::Failed { error: FsError::MaxInode }
        } else {
            Lookup::Done { entry: self.entry(self.next_inode, located.st) }
        }
    }

    /// The state after adding a file that was not there when it was searched. It may have been
    /// added by another request since, and then gets one more lookup.
    pub open spec fn after_register(self, located: Located<F>) -> Self {
        match self.inodes.find_located(located) {
            Some(inode) => self.with_inodes(
                self.inodes.with_count(inode, wrapping_succ(self.inodes.main[inode].refcount)),
            ),
            None => self.after_adding(located),
        }
    }

    /// What comes of adding a file that was not there when it was searched.
    pub open spec fn registered(self, located: Located<F>) -> Lookup<F> {
        match self.inodes.find_located(located) {
            Some(inode) => Lookup::Done { entry: self.entry(inode, located.st) },
            None => self.added(located),
        }
    }

    /// The state after the lookup of a located file with no other request in between.
    pub open spec fn after_lookup(self, located: Located<F>) -> Self {
        if self.inodes.find_located(located) is Some {
            self.after_search(located)
        } else {
            self.after_adding(located)
        }
    }

    /// What comes of the lookup of a located file with no other request in between.
    pub open spec fn looked_up(self, located: Located<F>) -> Lookup<F> {
        if self.inodes.find_located(located) is Some {
            self.searched(located)
        } else {
            self.added(located)
        }
    }

    /// The state once the root directory is known. It starts with two lookups.
    pub open spec fn after_import(self, located: Located<F>) -> Self {
        self.with_inodes(self.inodes.with_located(ROOT_ID, located, 2))
    }
}

/// A file system that simply "passes through" all requests it receives to the underlying file
/// system: what it has to remember for that.
///
/// To keep the implementation simple it serves the contents of its root directory. Users
/// that wish to serve only a specific directory should set up the environment so that that
/// directory ends up as the root of the file system process. One way to accomplish this is via a
/// combination of mount namespaces and the pivot_root system call.
///
/// `F` is an open file. Dropping it closes it.
#[verifier::reject_recursive_types(F)]
pub struct PassthroughFs<F> {
    /// The inodes that the client knows of. Their files are always opened with the `O_PATH`
    /// option, so they cannot be used for reading or writing any data.
    pub inode_map: InodeMap<F>,
    /// The next inode number to hand out.
    pub next_inode: u64,
    /// Open files and directories. Unlike those of `inode_map`, these _can_ be used for reading
    /// and writing data.
    pub handle_map: HandleMap<F>,
    /// The next handle to hand out.
    pub next_handle: u64,
    /// Descriptor of the `/proc` directory. This is used to convert a file of `inode_map` into one
    /// that can go into `handle_map`, by opening its `self/fd/{}` symlink. It is kept open in case
    /// the file system tree that is served has no access to `/proc`.
    pub proc_fd: RawFd,
    /// The flags of `openat` on this host.
    pub host: OpenFlags,
    /// Whether writeback caching is enabled for this directory.
    pub writeback: bool,
    /// Whether no_open is enabled.
    pub no_open: bool,
    /// Whether no_opendir is enabled.
    pub no_opendir: bool,
    /// Whether kill_priv_v2 is enabled.
    pub killpriv_v2: bool,
    pub cfg: Config,
}

impl<F> View for PassthroughFs<F> {
    type V = FsState<F>;

    open spec fn view(&self) -> FsState<F> {
        FsState {
            inodes: self.inode_map@,
            next_inode: self.next_inode,
            handles: self.handle_map@,
            next_handle: self.next_handle,
            proc_fd: self.proc_fd,
            host: self.host,
            writeback: self.writeback,
            no_open: self.no_open,
            no_opendir: self.no_opendir,
            killpriv_v2: self.killpriv_v2,
            cfg: self.cfg,
        }
    }
}

impl<F> PassthroughFs<F> {
    /// Every key stands for an inode that is there, every inode is kept under its own number, and
    /// the flags of the host can be told apart.
    pub open spec fn wf(&self) -> bool {
        self.inode_map.wf() && self.inode_map@.labelled() && self.host.wf()
    }

    /// How the `/proc` directory is opened, before a file system is made.
    pub fn proc_request(host: &OpenFlags) -> (r: OpenRequest)
        ensures
            r.dirfd == AT_FDCWD,
            r.path@ == "/proc"@,
            r.args == open_file_spec(*host, host.place_spec(), 0),
            r.args.flags == host.path | host.nofollow | host.cloexec,
            r.args.mode matches Some(mode) ==> mode == 0,
            host.wf() ==> r.args.mode is None,
    {
        proof {
            if host.wf() {
                law_place_is_not_created(*host, 0);
            }
        }
        OpenRequest {
            dirfd: libc_at_fdcwd(),
            path: "/proc".to_string(),
            args: open_file_args(host, host.place(), 0),
        }
    }

    /// Create a Passthrough file system instance. `host` are the flags with which `/proc` was
    /// opened, and `proc_reply` is the reply.
    pub fn new(cfg: Config, host: OpenFlags, proc_reply: SysReply) -> (r: Result<
        PassthroughFs<F>,
        FsError,
    >)
        requires
            host.wf(),
        ensures
            match (r, open_file_outcome(proc_reply)) {
                (Ok(fs), Ok(fd)) => fs.wf() && fs@ == FsState::<F>::initial(cfg, host, fd),
                (Err(e), Err(f)) => e == f,
                _ => false,
            },
            match r {
                Ok(fs) => {
                    &&& proc_reply.ret >= 0
                    &&& fs.proc_fd == proc_reply.ret
                    &&& fs.host == host
                    &&& fs.cfg == cfg
                    &&& fs.next_inode == 2
                    &&& fs.next_handle == 1
                    &&& fs.inode_map@.main == Map::<Inode, InodeData<F>>::empty()
                    &&& fs.inode_map@.alt == Map::<InodeAltKey, Inode>::empty()
                    &&& fs.handle_map@ == Map::<Handle, HandleData<F>>::empty()
                    &&& !fs.writeback && !fs.no_open && !fs.no_opendir && !fs.killpriv_v2
                },
                Err(e) => proc_reply.ret < 0 && e == FsError::Os(proc_reply.errno),
            },
    {
        let proc_fd = match open_file_result(proc_reply) {
            Ok(fd) => fd,
            Err(e) => return Err(e),
        };
        Ok(
            PassthroughFs {
                inode_map: InodeMap::new(),
                next_inode: ROOT_ID + 1,
                handle_map: HandleMap::new(),
                next_handle: 1,
                proc_fd,
                host,
                writeback: false,
                no_open: false,
                no_opendir: false,
                killpriv_v2: false,
                cfg,
            },
        )
    }

    /// Whether the root directory can be imported: its path has to be one for the kernel.
    pub fn can_import(&self) -> (r: bool)
        ensures
            r == is_path(self.cfg.root_dir@),
            r <==> !self.cfg.root_dir@.contains('\0'),
    {
        check_path(self.cfg.root_dir.as_str())
    }

    /// The path of the root directory: what is opened, or asked for a handle, to import it.
    pub fn import_path(&self) -> (r: &str)
        requires
            is_path(self.cfg.root_dir@),
        ensures
            r@ == self.cfg.root_dir@,
    {
        self.cfg.root_dir.as_str()
    }

    /// Starts to locate the root directory, whose path is `import_path`, seen from the directory
    /// that is returned.
    pub fn import_start(&self) -> (r: (RawFd, Locate<F>))
        requires
            is_path(self.cfg.root_dir@),
        ensures
            r == (AT_FDCWD, Locate::<F>::first(self.host, self.cfg.inode_file_handles)),
            r.0 == AT_FDCWD,
            match r.1 {
                Locate::MakeHandle => self.cfg.inode_file_handles,
                Locate::Open { args } => !self.cfg.inode_file_handles && args.flags
                    == self.host.path | self.host.nofollow | self.host.cloexec,
                _ => false,
            },
    {
        (libc_at_fdcwd(), Locate::start(&self.host, self.cfg.inode_file_handles))
    }

    /// How a file is opened through its link below `/proc` while the root directory is located:
    /// with just these flags.
    pub fn import_reopen_request(&self, fd: RawFd, flags: i32) -> (r: OpenRequest)
        ensures
            r.dirfd == self.proc_fd,
            r.path@ == proc_fd_path_spec(fd),
            r.args == open_file_spec(self.host, flags, 0),
            r.args.flags == flags,
            r.args.mode matches Some(mode) ==> mode == 0,
            r.args.mode is Some <==> flags & self.host.creat == self.host.creat,
    {
        OpenRequest {
            dirfd: self.proc_fd,
            path: proc_fd_path(fd),
            args: open_file_args(&self.host, flags, 0),
        }
    }

    /// Initialize the Passthrough file system with the root directory, once it is located.
    pub fn import(&mut self, located: Result<Located<F>, FsError>) -> (r: Result<(), FsError>)
        requires
            old(self).wf(),
            is_path(old(self).cfg.root_dir@),
        ensures
            final(self).wf(),
            match located {
                Ok(l) => r == Ok::<(), FsError>(()) && final(self)@ == old(self)@.after_import(l),
                Err(e) => r == Err::<(), FsError>(e) && final(self)@ == old(self)@,
            },
    {
        let located = match located {
            Ok(l) => l,
            Err(e) => return Err(e),
        };
        let ids_altkey = InodeAltKey::ids_from_stat(&located.st);
        let handle_altkey = located.file_or_handle.handle_altkey();
        // Not sure why the root inode gets a refcount of 2 but that's what libfuse does.
        self.inode_map.insert(
            ROOT_ID,
            ids_altkey,
            handle_altkey,
            InodeData::new(ROOT_ID, located.file_or_handle, 2, ids_altkey),
        );
        Ok(())
    }

    /// Get the list of file descriptors which should be reserved across live upgrade.
    pub fn keep_fds(&self) -> (r: Vec<RawFd>)
        ensures
            r@ == seq![self.proc_fd],
    {
        let mut r: Vec<RawFd> = Vec::new();
        r.push(self.proc_fd);
        r
    }

    /// How a file of `inode_map` is opened through its link below `/proc`.
    pub fn open_proc_file(&self, fd: RawFd, flags: i32) -> (r: OpenRequest)
        ensures
            r.dirfd == self.proc_fd,
            r.path@ == proc_fd_path_spec(fd),
            r.args == open_file_spec(self.host, open_proc_flags(self.host, flags), 0),
            r.args.flags == (flags | self.host.cloexec) & !self.host.nofollow,
            r.args.mode matches Some(mode) ==> mode == 0,
            r.args.mode is Some <==> r.args.flags & self.host.creat == self.host.creat,
            self.wf() ==> r.args.flags & self.host.cloexec == self.host.cloexec,
            self.wf() ==> r.args.flags & self.host.nofollow == 0,
    {
        proof {
            if self.wf() {
                law_open_proc_flags(self.host, flags);
            }
        }
        open_proc_file_request(&self.host, self.proc_fd, fd, flags)
    }

    /// Starts a lookup in the directory `parent`. Its file is returned with it where it is held
    /// open.
    pub fn lookup_begin(&self, parent: Inode) -> (r: (Option<&F>, Lookup<F>))
        ensures
            r.1 == self@.lookup_first(parent),
            match r.0 {
                Some(f) => self@.inodes.main.contains_key(parent)
                    && self@.inodes.main[parent].file_or_handle == FileOrHandle::File(*f),
                None => !self@.inodes.main.contains_key(parent)
                    || self@.inodes.main[parent].file_or_handle is Handle,
            },
            self.inode_map@.main.contains_key(parent) ==> match self.inode_map@.main[parent].file_or_handle {
                FileOrHandle::File(f) => r.0 is Some && *r.0->0 == f && r.1 is Locate,
                FileOrHandle::Handle(h) => r.0 is None && r.1 == (Lookup::<F>::ReopenParent {
                    handle: h,
                    flags: self.host.path,
                }),
            },
            !self.inode_map@.main.contains_key(parent) ==> r.0 is None && r.1 == (Lookup::<
                F,
            >::Failed { error: FsError::Os(EBADF) }),
    {
        let p = match self.inode_map.get(parent) {
            Ok(p) => p,
            Err(error) => return (None, Lookup::Failed { error }),
        };
        match p.get_file(&self.host) {
            FileAccess::Ready(InodeFile::Ref(f)) => (Some(f), self.lookup_locate()),
            FileAccess::Reopen { handle, flags } => (None, Lookup::ReopenParent { handle, flags }),
            FileAccess::Ready(InodeFile::Owned(_)) => (None, self.lookup_locate()),
        }
    }

    fn lookup_locate(&self) -> (r: Lookup<F>)
        ensures
            r == self@.lookup_located(),
    {
        Lookup::Locate { at: Locate::start(&self.host, self.cfg.inode_file_handles) }
    }

    /// Takes the reply to what a lookup had to have done outside.
    pub fn lookup_next(&self, at: Lookup<F>, event: LookupEvent<F>) -> (r: Lookup<F>)
        ensures
            r == self@.lookup_after(at, event),
    {
        match (at, event) {
            (Lookup::ReopenParent { .. }, LookupEvent::ParentReopened(Ok(_))) => {
                self.lookup_locate()
            },
            (Lookup::ReopenParent { .. }, LookupEvent::ParentReopened(Err(error))) => {
                Lookup::Failed { error }
            },
            (Lookup::Locate { at }, LookupEvent::Locate(event)) => {
                Lookup::from_locate(at.next(&self.host, event))
            },
            (at, _) => at,
        }
    }

    /// Takes a step of a lookup on the inodes.
    pub fn lookup_step(&mut self, at: Lookup<F>) -> (r: Lookup<F>)
        requires
            old(self).wf(),
        ensures
            final(self).wf(),
            final(self)@ == old(self)@.after_lookup_step(at),
            r == old(self)@.lookup_stepped(at),
    {
        match at {
            Lookup::Search { located } => self.search(located),
            Lookup::Register { located } => self.register(located),
            other => other,
        }
    }

    fn entry(&self, inode: Inode, st: Stat) -> (r: Entry)
        ensures
            r == self@.entry(inode, st),
    {
        Entry {
            inode,
            generation: 0,
            attr: st,
            attr_timeout: self.cfg.attr_timeout,
            entry_timeout: self.cfg.entry_timeout,
        }
    }

    /// Looks for an inode that the keys of a located file stand for, and counts one more lookup of
    /// it. The count is that of the inode that was found: nothing else goes on between the finding
    /// and the counting.
    pub fn search(&mut self, located: Located<F>) -> (r: Lookup<F>)
        requires
            old(self).wf(),
        ensures
            final(self).wf(),
            final(self)@ == old(self)@.after_search(located),
            r == old(self)@.searched(located),
    {
        proof {
            self.inode_map.lemma_wf_view();
        }
        let ids_altkey = InodeAltKey::ids_from_stat(&located.st);
        let handle_altkey = located.file_or_handle.handle_altkey();
        let found = match self.inode_map.get_alt(&ids_altkey, handle_altkey.as_ref()) {
            Some(data) => Some((data.inode, data.refcount)),
            None => None,
        };
        match found {
            None => Lookup::Register { located },
            Some((inode, curr)) => {
                // The inode is about to be dropped, retry...
                if curr == 0 {
                    return Lookup::Search { located };
                }
                // Saturating add to avoid integer overflow, it's not realistic to saturate u64.
                self.set_refcount(inode, curr.saturating_add(1));
                Lookup::Done { entry: self.entry(inode, located.st) }
            },
        }
    }

    /// Adds a file that was not there when it was searched. As another request may have added it
    /// since, it is looked for again, with nothing else going on between that and the adding.
    pub fn register(&mut self, located: Located<F>) -> (r: Lookup<F>)
        requires
            old(self).wf(),
        ensures
            final(self).wf(),
            final(self)@ == old(self)@.after_register(located),
            r == old(self)@.registered(located),
    {
        let ids_altkey = InodeAltKey::ids_from_stat(&located.st);
        let handle_altkey = located.file_or_handle.handle_altkey();
        let existing = match self.inode_map.get_alt(&ids_altkey, handle_altkey.as_ref()) {
            Some(data) => Some((data.inode, data.refcount)),
            None => None,
        };
        match existing {
            Some((inode, refcount)) => {
                proof {
                    self.inode_map.lemma_wf_view();
                }
                self.set_refcount(inode, refcount.wrapping_add(1));
                Lookup::Done { entry: self.entry(inode, located.st) }
            },
            None => {
                let inode = self.next_inode;
                self.next_inode = inode.wrapping_add(1);
                if inode > VFS_MAX_INO {
                    return Lookup::Failed { error: FsError::MaxInode };
                }
                let st = located.st;
                self.inode_map.insert(
                    inode,
                    ids_altkey,
                    handle_altkey,
                    InodeData::new(inode, located.file_or_handle, 1, ids_altkey),
                );
                Lookup::Done { entry: self.entry(inode, st) }
            },
        }
    }

    /// The lookup of a located file, with no other request in between.
    pub fn do_lookup(&mut self, located: Located<F>) -> (r: Lookup<F>)
        requires
            old(self).wf(),
        ensures
            final(self).wf(),
            final(self)@ == old(self)@.after_lookup(located),
            r == old(self)@.looked_up(located),
    {
        match self.search(located) {
            Lookup::Register { located } => self.register(located),
            other => other,
        }
    }

    fn set_refcount(&mut self, inode: Inode, refcount: u64)
        requires
            old(self).wf(),
            old(self)@.inodes.main.contains_key(inode),
        ensures
            final(self).wf(),
            final(self)@ == old(self)@.with_inodes(
                old(self)@.inodes.with_count(inode, refcount),
            ),
    {
        Self::recount(self.inode_map.get_map_mut(), inode, refcount);
    }

    fn recount(inodes: &mut MultikeyBTreeMap<InodeData<F>>, inode: Inode, refcount: u64)
        requires
            old(inodes).wf(),
            old(inodes)@.main.contains_key(inode),
        ensures
            final(inodes).wf(),
            final(inodes)@ == old(inodes)@.with_count(inode, refcount),
    {
        let change = |data: InodeData<F>| -> (r: InodeData<F>)
            ensures
                r == data.recounted(refcount),
            { InodeData::new(data.inode, data.file_or_handle, refcount, data.altkey) };
        inodes.update(&inode, change);
    }

    /// Forgets `count` lookups of `inode`, and the inode with the last of them.
    pub fn forget_one(inodes: &mut MultikeyBTreeMap<InodeData<F>>, inode: Inode, count: u64)
        requires
            old(inodes).wf(),
        ensures
            final(inodes).wf(),
            final(inodes)@ == old(inodes)@.forgotten(inode, count),
            final(inodes)@.main.contains_key(inode) <==> old(inodes)@.main.contains_key(inode) && (
            inode == ROOT_ID || old(inodes)@.main[inode].refcount > count),
            forall|other: Inode|
                other != inode ==> (#[trigger] final(inodes)@.main.contains_key(other)
                    <==> old(inodes)@.main.contains_key(other)),
            forall|other: Inode|
                other != inode && #[trigger] final(inodes)@.main.contains_key(other)
                    ==> final(inodes)@.main[other] == old(inodes)@.main[other],
            forall|k: InodeAltKey| #[trigger]
                old(inodes)@.alt.contains_key(k) && old(inodes)@.alt[k] != inode
                    ==> final(inodes)@.alt.contains_key(k) && final(inodes)@.alt[k]
                    == old(inodes)@.alt[k],
    {
        // ROOT_ID should not be forgotten, or we're not able to access to files any more.
        if inode == ROOT_ID {
            return;
        }
        let curr = match inodes.get(&inode) {
            Some(data) => data.refcount,
            None => return,
        };
        // Saturating sub because it doesn't make sense for a refcount to go below zero and
        // we don't want misbehaving clients to cause integer overflow.
        let new = curr.saturating_sub(count);
        if new == 0 {
            // We just removed the last refcount for this inode.
            inodes.remove(&inode);
        } else {
            Self::recount(inodes, inode, new);
        }
    }

    /// Closes an open file of `inode`.
    pub fn do_release(&mut self, inode: Inode, handle: Handle) -> (r: Result<(), FsError>)
        requires
            old(self).wf(),
        ensures
            final(self).wf(),
            final(self)@ == (FsState {
                handles: released(old(self)@.handles, handle, inode),
                ..old(self)@
            }),
            r == release_outcome(old(self)@.handles, handle, inode),
            r is Ok <==> old(self)@.handles.contains_key(handle)
                && old(self)@.handles[handle].inode == inode,
    {
        self.handle_map.release(handle, inode)
    }

    /// What is looked up when the file system is mounted: the directory and the name in it.
    pub fn mount_target() -> (r: (Inode, String))
        ensures
            r.0 == ROOT_ID,
            r.1@ == "."@,
    {
        (ROOT_ID, ".".to_string())
    }

    /// The reply to mounting the file system, for what the lookup of its root came to.
    pub fn mount(root: Result<Entry, FsError>) -> (r: Result<(Entry, u64), FsError>)
        ensures
            r == (match root {
                Ok(entry) => Ok((entry, VFS_MAX_INO)),
                Err(e) => Err(e),
            }),
    {
        match root {
            Ok(entry) => Ok((entry, VFS_MAX_INO)),
            Err(e) => Err(e),
        }
    }
}

} // verus!
