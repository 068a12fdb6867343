//! What holds of the file system as a whole.
use crate::abi::{Handle, Inode, OpenFlags, RawFd, EBADF, ROOT_ID, VFS_MAX_INO};
use crate::altkey::{FileHandle, InodeAltKey};
use crate::config::{lemma_names_differ, CachePolicy, Config};
use crate::error::FsError;
use crate::fs::{saturating_succ, FsState, Lookup, LookupEvent};
use crate::handle::{is_open, release_outcome, released, HandleData};
use crate::inode::{FileOrHandle, InodeData, InodeTable};
use crate::locate::{Locate, Located, Replies};
use crate::multikey::MultikeyView;
use crate::syscall::{open_file_spec, open_proc_flags, proc_fd_path_spec};
use crate::text::{decimal, digit, is_path};
use vstd::prelude::*;

verus! {

impl<F> MultikeyView<InodeData<F>> {
    /// No inode is kept without a lookup that the client has yet to forget.
    pub open spec fn counted(self) -> bool {
        forall|inode: Inode| #[trigger]
            self.main.contains_key(inode) ==> self.main[inode].refcount > 0
    }

    /// Handles and inodes go together: the key of a handle stands for the inode that is reached
    /// by it, and an inode that is reached by a handle is found by it.
    pub open spec fn by_handle(self) -> bool {
        &&& forall|h: FileHandle| #[trigger]
            self.alt.contains_key(InodeAltKey::Handle(h)) ==> self.main[self.alt[InodeAltKey::Handle(
                h,
            )]].file_or_handle == FileOrHandle::<F>::Handle(h)
        &&& forall|inode: Inode| #[trigger]
            self.main.contains_key(inode) && self.main[inode].file_or_handle is Handle ==> {
                let k = InodeAltKey::Handle(self.main[inode].file_or_handle->Handle_0);
                self.alt.contains_key(k) && self.alt[k] == inode
            }
    }
}

impl<F> FsState<F> {
    /// Every number in use has been handed out, and none of them is too large.
    pub open spec fn numbered(self) -> bool {
        forall|inode: Inode| #[trigger]
            self.inodes.main.contains_key(inode) ==> inode < self.next_inode && inode
                <= VFS_MAX_INO
    }

    /// The state after `n` lookups of a file.
    pub open spec fn after_lookups(self, located: Located<F>, n: nat) -> Self
        decreases n,
    {
        if n == 0 {
            self
        } else {
            self.after_lookups(located, (n - 1) as nat).after_lookup(located)
        }
    }
}

/// Every reply from outside that a lookup could ask for.
#[verifier::reject_recursive_types(F)]
pub struct LookupReplies<F> {
    /// To opening the directory.
    pub parent: Result<(), FsError>,
    /// While the file is located.
    pub locate: Replies<F>,
}

impl<F> LookupReplies<F> {
    /// The reply that is due where a lookup stands at `at`.
    pub open spec fn reply(self, at: Lookup<F>) -> Option<LookupEvent<F>> {
        match at {
            Lookup::ReopenParent { .. } => Some(LookupEvent::ParentReopened(self.parent)),
            Lookup::Locate { at } => match self.locate.reply(at) {
                Some(event) => Some(LookupEvent::Locate(event)),
                None => None,
            },
            _ => None,
        }
    }
}

impl<F> FsState<F> {
    /// The state, and where a lookup stands, `n` steps on from `at`, with no other request in
    /// between.
    pub open spec fn lookup_run(self, at: Lookup<F>, replies: LookupReplies<F>, n: nat) -> (
        Self,
        Lookup<F>,
    )
        decreases n,
    {
        if n == 0 {
            (self, at)
        } else {
            match replies.reply(at) {
                Some(event) => self.lookup_run(
                    self.lookup_after(at, event),
                    replies,
                    (n - 1) as nat,
                ),
                None => self.after_lookup_step(at).lookup_run(
                    self.lookup_stepped(at),
                    replies,
                    (n - 1) as nat,
                ),
            }
        }
    }

    /// The file that a lookup in `parent` gets hold of, or why it does not.
    pub open spec fn lookup_locates(self, parent: Inode, replies: LookupReplies<F>) -> Result<
        Located<F>,
        FsError,
    > {
        if !self.inodes.main.contains_key(parent) {
            Err(FsError::Os(EBADF))
        } else if self.inodes.main[parent].file_or_handle is Handle && replies.parent is Err {
            Err(replies.parent->Err_0)
        } else {
            replies.locate.outcome(self.cfg.inode_file_handles)
        }
    }
}

/// A lookup that no other request interferes with ends after at most six steps. If the directory
/// is unknown or cannot be opened, or the file cannot be got hold of, it fails with just that
/// error and changes nothing. Otherwise it comes to what the keys of the file ask for: the number
/// of the inode that they stand for, or a new one as long as there is one left.
pub proof fn law_lookup<F>(s: FsState<F>, parent: Inode, replies: LookupReplies<F>)
    requires
        s.inodes.wf(),
        s.inodes.counted(),
    ensures
        s.lookup_run(s.lookup_first(parent), replies, 6) == (match s.lookup_locates(
            parent,
            replies,
        ) {
            Ok(located) => (s.after_lookup(located), s.looked_up(located)),
            Err(error) => (s, Lookup::Failed { error }),
        }),
{
    match s.lookup_first(parent) {
        Lookup::ReopenParent { .. } => {
            match replies.parent {
                Ok(_) => lemma_run_located(s, replies, 5),
                Err(error) => lemma_run_ended(s, Lookup::Failed { error }, replies, 5),
            }
        },
        Lookup::Failed { error } => lemma_run_ended(s, Lookup::Failed { error }, replies, 6),
        _ => lemma_run_located(s, replies, 6),
    }
}

/// A lookup that has ended stays so.
proof fn lemma_run_ended<F>(s: FsState<F>, at: Lookup<F>, replies: LookupReplies<F>, n: nat)
    requires
        at is Done || at is Failed,
    ensures
        s.lookup_run(at, replies, n) == (s, at),
    decreases n,
{
    if n > 0 {
        lemma_run_ended(s, at, replies, (n - 1) as nat);
    }
}

/// Once the file is located, two steps are enough.
proof fn lemma_run_search<F>(s: FsState<F>, located: Located<F>, replies: LookupReplies<F>, n: nat)
    requires
        s.inodes.wf(),
        s.inodes.counted(),
        n >= 2,
    ensures
        s.lookup_run(Lookup::Search { located }, replies, n) == (
            s.after_lookup(located),
            s.looked_up(located),
        ),
{
    let t = s.after_search(located);
    let at = s.searched(located);
    assert(s.lookup_run(Lookup::Search { located }, replies, n) == t.lookup_run(
        at,
        replies,
        (n - 1) as nat,
    ));
    if at is Register {
        assert(t.after_lookup_step(at) == s.after_lookup(located));
        assert(t.lookup_stepped(at) == s.looked_up(located));
        lemma_run_ended(s.after_lookup(located), s.looked_up(located), replies, (n - 2) as nat);
    } else {
        lemma_run_ended(t, at, replies, (n - 1) as nat);
    }
}

/// One step of locating the file.
proof fn lemma_run_locate_step<F>(s: FsState<F>, at: Locate<F>, replies: LookupReplies<F>, n: nat)
    requires
        replies.locate.reply(at) is Some,
        n > 0,
    ensures
        s.lookup_run(Lookup::Locate { at }, replies, n) == s.lookup_run(
            Lookup::locating(at.after(s.host, replies.locate.reply(at)->0)),
            replies,
            (n - 1) as nat,
        ),
{
}

/// From where the file is to be located, five steps are enough.
proof fn lemma_run_located<F>(s: FsState<F>, replies: LookupReplies<F>, n: nat)
    requires
        s.inodes.wf(),
        s.inodes.counted(),
        n >= 5,
    ensures
        s.lookup_run(s.lookup_located(), replies, n) == (match replies.locate.outcome(
            s.cfg.inode_file_handles,
        ) {
            Ok(located) => (s.after_lookup(located), s.looked_up(located)),
            Err(error) => (s, Lookup::Failed { error }),
        }),
{
    let first = Locate::first(s.host, s.cfg.inode_file_handles);
    lemma_run_locate_step(s, first, replies, n);
    let second = first.after(s.host, replies.locate.reply(first)->0);
    if second is Failed {
        lemma_run_ended(s, Lookup::locating(second), replies, (n - 1) as nat);
    } else {
        lemma_run_locate_step(s, second, replies, (n - 1) as nat);
        let third = second.after(s.host, replies.locate.reply(second)->0);
        lemma_run_from_third(s, third, replies, (n - 2) as nat);
    }
}

/// From where at most one reply is missing until the file is located.
proof fn lemma_run_from_third<F>(s: FsState<F>, at: Locate<F>, replies: LookupReplies<F>, n: nat)
    requires
        s.inodes.wf(),
        s.inodes.counted(),
        at is Done || at is Failed || at is StatFile,
        n >= 3,
    ensures
        s.lookup_run(Lookup::locating(at), replies, n) == (match at {
            Locate::Done { located } => (s.after_lookup(located), s.looked_up(located)),
            Locate::StatFile { file } => match replies.locate.stat_file {
                Ok(st) => {
                    let located = Located { file_or_handle: FileOrHandle::File(file), st };
                    (s.after_lookup(located), s.looked_up(located))
                },
                Err(error) => (s, Lookup::Failed { error }),
            },
            _ => (s, Lookup::locating(at)),
        }),
{
    match at {
        Locate::Done { located } => lemma_run_search(s, located, replies, n),
        Locate::StatFile { .. } => {
            lemma_run_locate_step(s, at, replies, n);
            match at.after(s.host, replies.locate.reply(at)->0) {
                Locate::Done { located } => lemma_run_search(s, located, replies, (n - 1) as nat),
                end => lemma_run_ended(s, Lookup::locating(end), replies, (n - 1) as nat),
            }
        },
        _ => lemma_run_ended(s, Lookup::locating(at), replies, n),
    }
}

/// Two located files that the same keys belong to.
pub open spec fn same_file<F>(a: Located<F>, b: Located<F>) -> bool {
    a.ids() == b.ids() && a.handle_key() == b.handle_key()
}

/// A file that is looked up again is given the number that it had, and the lookup is counted.
pub proof fn law_lookup_again<F>(s: FsState<F>, a: Located<F>, b: Located<F>)
    requires
        s.inodes.wf(),
        s.inodes.counted(),
        same_file(a, b),
        s.looked_up(a) is Done,
    ensures
        ({
            let t = s.after_lookup(a);
            let inode = s.looked_up(a)->entry.inode;
            &&& t.looked_up(b) == Lookup::<F>::Done { entry: s.entry(inode, b.st) }
            &&& t.inodes.main.contains_key(inode)
            &&& t.after_lookup(b).inodes == t.inodes.with_count(
                inode,
                saturating_succ(t.inodes.main[inode].refcount),
            )
        }),
{
}

/// Two located files that can be the same: the numbers are equal, and so are the handles where
/// both have one.
pub open spec fn compatible<F>(a: Located<F>, b: Located<F>) -> bool {
    &&& a.ids() == b.ids()
    &&& a.handle_key() is Some && b.handle_key() is Some ==> a.handle_key() == b.handle_key()
}

/// Of two requests that look up the same new file at once, the one that comes second is given
/// the number that the first was given, and the inode of the first stays. It does not matter
/// whether only one of them got a handle for the file.
pub proof fn law_race_for_new_file<F>(s: FsState<F>, first: Located<F>, second: Located<F>)
    requires
        s.inodes.wf(),
        compatible(first, second),
        s.searched(first) == (Lookup::Register { located: first }),
        s.searched(second) == (Lookup::Register { located: second }),
        s.registered(first) is Done,
    ensures
        ({
            let t = s.after_register(first);
            let inode = s.registered(first)->entry.inode;
            &&& t.registered(second) == Lookup::<F>::Done { entry: s.entry(inode, second.st) }
            &&& t.after_register(second).inodes == t.inodes.with_count(inode, 2)
        }),
{
}

/// The lookup of one file leaves every other inode as it is.
pub proof fn law_lookup_leaves_others<F>(s: FsState<F>, located: Located<F>, other: Inode)
    requires
        s.inodes.wf(),
        s.numbered(),
        s.inodes.main.contains_key(other),
        s.inodes.find_located(located) != Some(other),
    ensures
        s.after_lookup(located).inodes.main.contains_key(other),
        s.after_lookup(located).inodes.main[other] == s.inodes.main[other],
{
}

/// The lookup of one file does not change which inode the keys of another stand for.
pub proof fn law_lookup_leaves_other_keys<F>(s: FsState<F>, located: Located<F>, other: Located<F>)
    requires
        s.inodes.wf(),
        s.numbered(),
        other.ids() != located.ids(),
        other.handle_key() is Some ==> other.handle_key() != located.handle_key(),
    ensures
        s.after_lookup(located).inodes.find_located(other) == s.inodes.find_located(other),
{
}

/// Forgetting the lookup of a file that was known before undoes the lookup.
pub proof fn law_forget_undoes_lookup<F>(s: FsState<F>, located: Located<F>, inode: Inode)
    requires
        s.inodes.wf(),
        s.inodes.find_located(located) == Some(inode),
        inode != ROOT_ID,
        0 < s.inodes.main[inode].refcount < u64::MAX,
    ensures
        s.after_lookup(located).inodes.forgotten(inode, 1) == s.inodes,
{
    let t = s.after_lookup(located).inodes.forgotten(inode, 1);
    assert(t.main =~= s.inodes.main);
}

/// Forgetting the lookup of a file that was new leaves the inodes as they were, and no key of
/// the file behind.
pub proof fn law_forget_undoes_new_lookup<F>(s: FsState<F>, located: Located<F>)
    requires
        s.inodes.wf(),
        s.numbered(),
        s.inodes.find_located(located) is None,
        ROOT_ID < s.next_inode <= VFS_MAX_INO,
    ensures
        ({
            let t = s.after_lookup(located).inodes.forgotten(s.next_inode, 1);
            &&& t.main == s.inodes.main
            &&& t.alt == match located.handle_key() {
                Some(h) => s.inodes.alt.remove(located.ids()).remove(h),
                None => s.inodes.alt.remove(located.ids()),
            }
        }),
{
    let t = s.after_lookup(located).inodes.forgotten(s.next_inode, 1);
    assert(t.main =~= s.inodes.main);
    assert(t.alt =~= match located.handle_key() {
        Some(h) => s.inodes.alt.remove(located.ids()).remove(h),
        None => s.inodes.alt.remove(located.ids()),
    });
}

/// Forgetting in two parts is forgetting at once.
pub proof fn law_forget_adds_up<F>(t: InodeTable<F>, inode: Inode, a: u64, b: u64)
    requires
        a + b <= u64::MAX,
    ensures
        t.forgotten(inode, a).forgotten(inode, b) == t.forgotten(inode, (a + b) as u64),
{
    let x = t.forgotten(inode, a).forgotten(inode, b);
    let y = t.forgotten(inode, (a + b) as u64);
    assert(x.main =~= y.main);
    assert(x.alt =~= y.alt);
}

/// As many lookups as are forgotten again leave a known file as it was.
pub proof fn law_forget_undoes_lookups<F>(s: FsState<F>, located: Located<F>, inode: Inode, n: u64)
    requires
        s.inodes.wf(),
        s.inodes.find_located(located) == Some(inode),
        inode != ROOT_ID,
        0 < s.inodes.main[inode].refcount,
        s.inodes.main[inode].refcount + n <= u64::MAX,
    ensures
        s.after_lookups(located, n as nat).inodes == s.inodes.with_count(
            inode,
            (s.inodes.main[inode].refcount + n) as u64,
        ),
        s.after_lookups(located, n as nat).inodes.forgotten(inode, n) == s.inodes,
    decreases n,
{
    if n > 0 {
        law_forget_undoes_lookups(s, located, inode, (n - 1) as u64);
    }
    let t = s.after_lookups(located, n as nat);
    assert(t.inodes.main =~= s.inodes.with_count(
        inode,
        (s.inodes.main[inode].refcount + n) as u64,
    ).main);
    assert(t.inodes.forgotten(inode, n).main =~= s.inodes.main);
}

/// Once its last lookup is forgotten, an inode is gone: its number stands for nothing, and no
/// key stands for it. The other inodes are as they were.
pub proof fn law_forgotten_is_gone<F>(t: InodeTable<F>, inode: Inode, count: u64)
    requires
        t.main.contains_key(inode),
        inode != ROOT_ID,
        t.main[inode].refcount <= count,
    ensures
        !t.forgotten(inode, count).main.contains_key(inode),
        forall|k: InodeAltKey| #[trigger]
            t.forgotten(inode, count).alt.contains_key(k) ==> t.forgotten(inode, count).alt[k]
                != inode,
        forall|other: Inode|
            other != inode && #[trigger] t.main.contains_key(other) ==> t.forgotten(
                inode,
                count,
            ).main.contains_key(other) && t.forgotten(inode, count).main[other] == t.main[other],
{
}

/// The root directory is never forgotten, and no request loses it or takes away one of the two
/// lookups that it starts with. One is left out: a lookup that finds the root added by another
/// request in between, when its count is the largest there is.
pub proof fn law_root_stays<F>(s: FsState<F>, located: Located<F>, inode: Inode, n: u64)
    requires
        s.inodes.wf(),
        s.inodes.main.contains_key(ROOT_ID),
    ensures
        s.inodes.forgotten(ROOT_ID, n) == s.inodes,
        s.inodes.forgotten(inode, n).main.contains_key(ROOT_ID),
        s.inodes.forgotten(inode, n).main[ROOT_ID] == s.inodes.main[ROOT_ID],
        s.after_lookup(located).inodes.main.contains_key(ROOT_ID),
        s.after_register(located).inodes.main.contains_key(ROOT_ID),
        s.after_search(located).inodes.main.contains_key(ROOT_ID),
        s.numbered() && s.inodes.main[ROOT_ID].refcount >= 2 ==> {
            &&& s.after_lookup(located).inodes.main[ROOT_ID].refcount >= 2
            &&& s.after_search(located).inodes.main[ROOT_ID].refcount >= 2
            &&& s.inodes.main[ROOT_ID].refcount < u64::MAX ==> s.after_register(
                located,
            ).inodes.main[ROOT_ID].refcount >= 2
        },
{
}

/// Importing makes the root directory known, with two lookups, and it is found by its keys.
pub proof fn law_import<F>(s: FsState<F>, located: Located<F>)
    ensures
        ({
            let t = s.after_import(located);
            &&& t.inodes.main.contains_key(ROOT_ID)
            &&& t.inodes.main[ROOT_ID].refcount == 2
            &&& t.inodes.main[ROOT_ID].file_or_handle == located.file_or_handle
            &&& t.inodes.find_located(located) == Some(ROOT_ID)
            &&& t.looked_up(located) == Lookup::<F>::Done { entry: s.entry(ROOT_ID, located.st) }
        }),
{
}

/// No request leaves an inode behind that no lookup holds. One is left out: a lookup that finds
/// the file added by another request in between, when that file has the largest count there is.
pub proof fn law_counted<F>(s: FsState<F>, located: Located<F>, inode: Inode, n: u64)
    requires
        s.inodes.wf(),
        s.inodes.counted(),
    ensures
        InodeTable::<F>::empty().counted(),
        s.after_import(located).inodes.counted(),
        s.after_lookup(located).inodes.counted(),
        s.after_search(located).inodes.counted(),
        s.inodes.forgotten(inode, n).counted(),
        (s.inodes.find_located(located) matches Some(i) ==> s.inodes.main[i].refcount < u64::MAX)
            ==> s.after_register(located).inodes.counted(),
{
}

/// As long as every inode is held by a lookup, a lookup never has to start again by itself.
pub proof fn law_lookup_ends<F>(s: FsState<F>, located: Located<F>)
    requires
        s.inodes.wf(),
        s.inodes.counted(),
    ensures
        s.looked_up(located) is Done || s.looked_up(located) is Failed,
        s.looked_up(located) is Failed <==> s.inodes.find_located(located) is None && s.next_inode
            > VFS_MAX_INO,
{
}

/// A lookup never brings a forgotten inode back: once its last lookup is forgotten, a search
/// does not come to its number any more.
pub proof fn law_forgotten_is_not_found<F>(
    s: FsState<F>,
    located: Located<F>,
    inode: Inode,
    count: u64,
)
    requires
        s.inodes.main.contains_key(inode),
        inode != ROOT_ID,
        s.inodes.main[inode].refcount <= count,
    ensures
        ({
            let t = s.with_inodes(s.inodes.forgotten(inode, count));
            &&& t.inodes.find_located(located) != Some(inode)
            &&& t.searched(located) matches Lookup::Done { entry } ==> entry.inode != inode
            &&& !t.after_search(located).inodes.main.contains_key(inode)
        }),
{
    law_forgotten_is_gone(s.inodes, inode, count);
    let t = s.with_inodes(s.inodes.forgotten(inode, count));
    assert(t.inodes.find_located(located) != Some(inode));
}

/// A lookup and the forgetting of others than the last come to the same in either order.
pub proof fn law_lookup_and_forget_commute<F>(
    s: FsState<F>,
    located: Located<F>,
    inode: Inode,
    count: u64,
)
    requires
        s.inodes.wf(),
        s.inodes.find_located(located) == Some(inode),
        inode != ROOT_ID,
        count < s.inodes.main[inode].refcount < u64::MAX,
    ensures
        s.after_search(located).inodes.forgotten(inode, count) == s.with_inodes(
            s.inodes.forgotten(inode, count),
        ).after_search(located).inodes,
{
    let x = s.after_search(located).inodes.forgotten(inode, count);
    let t = s.with_inodes(s.inodes.forgotten(inode, count));
    assert(t.inodes.find_located(located) == Some(inode));
    let y = t.after_search(located).inodes;
    assert(x.main =~= y.main);
}

/// A number that is handed out is not in use, is at most the limit, and is not handed out again.
pub proof fn law_numbers_are_fresh<F>(s: FsState<F>, located: Located<F>)
    requires
        s.inodes.wf(),
        s.numbered(),
        s.inodes.find_located(located) is None,
        s.next_inode <= VFS_MAX_INO,
    ensures
        s.looked_up(located) == (Lookup::<F>::Done { entry: s.entry(s.next_inode, located.st) }),
        !s.inodes.main.contains_key(s.next_inode),
        s.after_lookup(located).next_inode > s.next_inode,
{
}

/// The numbers in use stay below the next one, whatever is requested, until that one is the
/// largest there is.
pub proof fn law_numbered<F>(s: FsState<F>, located: Located<F>, inode: Inode, n: u64)
    requires
        s.inodes.wf(),
        s.numbered(),
        ROOT_ID < s.next_inode < u64::MAX,
    ensures
        s.after_import(located).numbered(),
        s.after_lookup(located).numbered(),
        s.after_lookup(located).next_inode >= s.next_inode,
        s.after_register(located).numbered(),
        s.after_register(located).next_inode >= s.next_inode,
        s.after_search(located).numbered(),
        s.with_inodes(s.inodes.forgotten(inode, n)).numbered(),
{
}

/// A request, or a step of one, once what has to be had from outside is there.
#[verifier::reject_recursive_types(F)]
pub enum Request<F> {
    /// Importing the root directory.
    Import { root: Result<Located<F>, FsError> },
    /// A lookup with no other request in between.
    Lookup { located: Located<F> },
    /// The search of a lookup.
    Search { located: Located<F> },
    /// The adding of a file by a lookup.
    Register { located: Located<F> },
    /// Forgetting lookups.
    Forget { inode: Inode, count: u64 },
    /// Closing a file.
    Release { inode: Inode, handle: Handle },
}

/// Whether one of the requests imported the root directory.
pub open spec fn imported<F>(requests: Seq<Request<F>>) -> bool {
    exists|i: int|
        0 <= i < requests.len() && (#[trigger] requests[i] matches Request::Import { root }
            && root is Ok)
}

impl<F> FsState<F> {
    /// The state after a request.
    pub open spec fn after_request(self, request: Request<F>) -> Self {
        match request {
            Request::Import { root } => match root {
                Ok(l) => self.after_import(l),
                Err(_) => self,
            },
            Request::Lookup { located } => self.after_lookup(located),
            Request::Search { located } => self.after_search(located),
            Request::Register { located } => self.after_register(located),
            Request::Forget { inode, count } => self.with_inodes(
                self.inodes.forgotten(inode, count),
            ),
            Request::Release { inode, handle } => FsState {
                handles: released(self.handles, handle, inode),
                ..self
            },
        }
    }

    /// The state after a sequence of requests.
    pub open spec fn after_requests(self, requests: Seq<Request<F>>) -> Self
        decreases requests.len(),
    {
        if requests.len() == 0 {
            self
        } else {
            self.after_requests(requests.drop_last()).after_request(requests.last())
        }
    }

    /// How far `n` requests can have taken the numbers and the counts.
    pub open spec fn within(self, n: nat) -> bool {
        &&& ROOT_ID < self.next_inode <= n + 2
        &&& forall|inode: Inode| #[trigger]
            self.inodes.main.contains_key(inode) ==> self.inodes.main[inode].refcount <= n + 2
    }
}

/// Whatever requests a new file system has taken, and however the steps of its lookups fell
/// between each other: every key stands for an inode that is there; every inode is kept under its
/// own number, is held by a lookup, and has a number that was handed out and is not too large; and
/// once the root directory is imported, it is there with at least its two lookups. The options are
/// as they were given. The number of requests is limited so that no counter starts again.
pub proof fn law_every_state<F>(
    cfg: Config,
    host: OpenFlags,
    proc_fd: RawFd,
    requests: Seq<Request<F>>,
)
    requires
        requests.len() + 2 < u64::MAX,
    ensures
        ({
            let s = FsState::<F>::initial(cfg, host, proc_fd).after_requests(requests);
            &&& s.inodes.wf()
            &&& s.inodes.labelled()
            &&& s.inodes.counted()
            &&& s.numbered()
            &&& s.within(requests.len())
            &&& s.host == host && s.cfg == cfg && s.proc_fd == proc_fd
            &&& imported(requests) ==> s.inodes.main.contains_key(ROOT_ID)
                && s.inodes.main[ROOT_ID].refcount >= 2
        }),
    decreases requests.len(),
{
    if requests.len() > 0 {
        let before = requests.drop_last();
        law_every_state::<F>(cfg, host, proc_fd, before);
        let s = FsState::<F>::initial(cfg, host, proc_fd).after_requests(before);
        let last = requests.last();
        lemma_request_keeps(s, last, before.len());
        if imported(requests) && !(last matches Request::Import { root } && root is Ok) {
            let i = choose|i: int|
                0 <= i < requests.len() && (#[trigger] requests[i] matches Request::Import {
                    root,
                } && root is Ok);
            assert(before[i] == requests[i]);
            assert(imported(before));
        }
    }
}

/// What holds of every state is kept by one more request.
proof fn lemma_request_keeps<F>(s: FsState<F>, request: Request<F>, n: nat)
    requires
        s.inodes.wf(),
        s.inodes.labelled(),
        s.inodes.counted(),
        s.numbered(),
        s.within(n),
        n + 2 < u64::MAX,
    ensures
        ({
            let t = s.after_request(request);
            &&& t.inodes.wf()
            &&& t.inodes.labelled()
            &&& t.inodes.counted()
            &&& t.numbered()
            &&& t.within(n + 1)
            &&& t.next_inode >= s.next_inode
            &&& t.host == s.host && t.cfg == s.cfg && t.proc_fd == s.proc_fd
            &&& (request matches Request::Import { root } && root is Ok)
                || (s.inodes.main.contains_key(ROOT_ID) && s.inodes.main[ROOT_ID].refcount >= 2)
                ==> t.inodes.main.contains_key(ROOT_ID) && t.inodes.main[ROOT_ID].refcount >= 2
        }),
{
}

/// The number that a request hands out to a file that has none.
pub open spec fn handed_out<F>(s: FsState<F>, request: Request<F>) -> Option<Inode> {
    let new = match request {
        Request::Lookup { located } => s.inodes.find_located(located) is None,
        Request::Register { located } => s.inodes.find_located(located) is None,
        _ => false,
    };
    if new && s.next_inode <= VFS_MAX_INO {
        Some(s.next_inode)
    } else {
        None
    }
}

/// A lookup that succeeds answers with the number that it hands out, or with the number that the
/// file has, and so does the adding of a file. Nothing else succeeds.
pub proof fn law_handed_out<F>(s: FsState<F>, located: Located<F>)
    requires
        s.inodes.wf(),
        s.inodes.counted(),
    ensures
        ({
            let found = s.inodes.find_located(located);
            let new = handed_out(s, Request::Lookup { located });
            let inode = if found is Some { found } else { new };
            let answer = match inode {
                Some(inode) => Lookup::<F>::Done { entry: s.entry(inode, located.st) },
                None => Lookup::<F>::Failed { error: FsError::MaxInode },
            };
            &&& new == handed_out(s, Request::Register { located })
            &&& found is Some ==> new is None
            &&& s.looked_up(located) == answer
            &&& s.registered(located) == answer
        }),
{
}

/// The next number to hand out never goes back, as long as it cannot start again.
pub proof fn law_next_inode_grows<F>(
    cfg: Config,
    host: OpenFlags,
    proc_fd: RawFd,
    before: Seq<Request<F>>,
    after: Seq<Request<F>>,
)
    requires
        before.len() + after.len() + 2 < u64::MAX,
    ensures
        ({
            let s = FsState::<F>::initial(cfg, host, proc_fd);
            s.after_requests(before).next_inode <= s.after_requests(before + after).next_inode
        }),
    decreases after.len(),
{
    if after.len() == 0 {
        assert(before + after =~= before);
    } else {
        let most = before + after.drop_last();
        assert((before + after).drop_last() =~= most);
        assert((before + after).last() == after.last());
        law_next_inode_grows(cfg, host, proc_fd, before, after.drop_last());
        law_every_state(cfg, host, proc_fd, most);
        let s = FsState::<F>::initial(cfg, host, proc_fd).after_requests(most);
        lemma_request_keeps(s, after.last(), most.len());
    }
}

/// No number is handed out twice, whatever is requested in between: neither while it stands for
/// a file nor once that file is forgotten. Nor is the number of the root handed out.
pub proof fn law_numbers_are_not_used_again<F>(
    cfg: Config,
    host: OpenFlags,
    proc_fd: RawFd,
    before: Seq<Request<F>>,
    first: Request<F>,
    between: Seq<Request<F>>,
    second: Request<F>,
)
    requires
        before.len() + 1 + between.len() + 2 < u64::MAX,
        ({
            let s = FsState::<F>::initial(cfg, host, proc_fd);
            &&& handed_out(s.after_requests(before), first) is Some
            &&& handed_out(s.after_requests(before.push(first) + between), second) is Some
        }),
    ensures
        ({
            let s = FsState::<F>::initial(cfg, host, proc_fd);
            let a = handed_out(s.after_requests(before), first)->0;
            let b = handed_out(s.after_requests(before.push(first) + between), second)->0;
            ROOT_ID < a < b
        }),
{
    let s = FsState::<F>::initial(cfg, host, proc_fd);
    law_every_state(cfg, host, proc_fd, before);
    assert(before.push(first).drop_last() =~= before);
    assert(before.push(first).last() == first);
    assert(s.after_requests(before.push(first)) == s.after_requests(before).after_request(first));
    law_next_inode_grows(cfg, host, proc_fd, before.push(first), between);
}

/// A new file that has been given the numbers of one that is still remembered is told apart by
/// its handle, and gets an inode of its own.
pub proof fn law_reused_numbers<F>(s: FsState<F>, old_inode: Inode, located: Located<F>, h: FileHandle)
    requires
        s.inodes.wf(),
        s.numbered(),
        located.file_or_handle == FileOrHandle::<F>::Handle(h),
        s.inodes.main[old_inode].file_or_handle is Handle,
        s.inodes.alt.contains_key(located.ids()),
        s.inodes.alt[located.ids()] == old_inode,
        !s.inodes.alt.contains_key(InodeAltKey::Handle(h)),
        s.next_inode <= VFS_MAX_INO,
    ensures
        s.looked_up(located) == (Lookup::<F>::Done { entry: s.entry(s.next_inode, located.st) }),
        s.next_inode != old_inode,
        s.after_lookup(located).inodes.main[old_inode] == s.inodes.main[old_inode],
        s.after_lookup(located).inodes.main[s.next_inode].file_or_handle
            == located.file_or_handle,
{
}

/// A lookup by handle never ends at an inode with another handle.
pub proof fn law_found_by_handle<F>(t: InodeTable<F>, located: Located<F>, h: FileHandle)
    requires
        t.wf(),
        t.by_handle(),
        located.file_or_handle == FileOrHandle::<F>::Handle(h),
        t.find_located(located) is Some,
    ensures
        ({
            let found = t.main[t.find_located(located)->0].file_or_handle;
            found is File || found == FileOrHandle::<F>::Handle(h)
        }),
{
}

/// Lookups and forgetting keep handles and inodes together. So does importing the root
/// directory, unless its handle already belongs to another inode.
pub proof fn law_by_handle<F>(s: FsState<F>, located: Located<F>, inode: Inode, n: u64)
    requires
        s.inodes.wf(),
        s.inodes.by_handle(),
        s.numbered(),
    ensures
        InodeTable::<F>::empty().by_handle(),
        s.after_lookup(located).inodes.by_handle(),
        s.after_register(located).inodes.by_handle(),
        s.after_search(located).inodes.by_handle(),
        s.inodes.forgotten(inode, n).by_handle(),
        (located.handle_key() matches Some(k) ==> !s.inodes.alt.contains_key(k)
            || s.inodes.alt[k] == ROOT_ID) ==> s.after_import(located).inodes.by_handle(),
{
    let added = s.inodes.with_located(s.next_inode, located, 1);
    lemma_with_located_by_handle(s.inodes, s.next_inode, located, 1);
    if s.inodes.find_located(located) is None && s.next_inode <= VFS_MAX_INO {
        assert(added.by_handle());
    }
    if located.handle_key() matches Some(k) ==> !s.inodes.alt.contains_key(k) || s.inodes.alt[k]
        == ROOT_ID {
        lemma_with_located_by_handle(s.inodes, ROOT_ID, located, 2);
    }
}

impl<F> FsState<F> {
    /// Whether each import of a root directory comes when its handle, if it has one, does not
    /// belong to another inode.
    pub open spec fn roots_apart(self, requests: Seq<Request<F>>) -> bool
        decreases requests.len(),
    {
        requests.len() > 0 ==> {
            let s = self.after_requests(requests.drop_last());
            &&& self.roots_apart(requests.drop_last())
            &&& match requests.last() {
                Request::Import { root: Ok(located) } => match located.handle_key() {
                    Some(k) => !s.inodes.alt.contains_key(k) || s.inodes.alt[k] == ROOT_ID,
                    None => true,
                },
                _ => true,
            }
        }
    }
}

/// Whatever requests a new file system has taken, handles and inodes go together, so that a
/// lookup by handle never comes to another file. Left out are imports of a root directory whose
/// handle already belongs to another inode.
pub proof fn law_by_handle_in_every_state<F>(
    cfg: Config,
    host: OpenFlags,
    proc_fd: RawFd,
    requests: Seq<Request<F>>,
)
    requires
        requests.len() + 2 < u64::MAX,
        FsState::<F>::initial(cfg, host, proc_fd).roots_apart(requests),
    ensures
        FsState::<F>::initial(cfg, host, proc_fd).after_requests(requests).inodes.by_handle(),
    decreases requests.len(),
{
    if requests.len() > 0 {
        let before = requests.drop_last();
        law_by_handle_in_every_state(cfg, host, proc_fd, before);
        law_every_state(cfg, host, proc_fd, before);
        let s = FsState::<F>::initial(cfg, host, proc_fd).after_requests(before);
        match requests.last() {
            Request::Import { root: Ok(located) } => law_by_handle(s, located, 0, 0),
            Request::Lookup { located } => law_by_handle(s, located, 0, 0),
            Request::Search { located } => law_by_handle(s, located, 0, 0),
            Request::Register { located } => law_by_handle(s, located, 0, 0),
            Request::Forget { inode, count } => lemma_forgotten_by_handle(s.inodes, inode, count),
            _ => {},
        }
    }
}

/// Forgetting keeps handles and inodes together.
proof fn lemma_forgotten_by_handle<F>(t: InodeTable<F>, inode: Inode, count: u64)
    requires
        t.wf(),
        t.by_handle(),
    ensures
        t.forgotten(inode, count).by_handle(),
{
}

proof fn lemma_with_located_by_handle<F>(
    t: InodeTable<F>,
    inode: Inode,
    located: Located<F>,
    refcount: u64,
)
    requires
        t.wf(),
        t.by_handle(),
    ensures
        (located.handle_key() matches Some(k) ==> !t.alt.contains_key(k) || t.alt[k] == inode)
            ==> t.with_located(inode, located, refcount).by_handle(),
{
    let u = t.with_located(inode, located, refcount);
    if located.handle_key() matches Some(k) ==> !t.alt.contains_key(k) || t.alt[k] == inode {
        assert forall|i: Inode| #[trigger]
            u.main.contains_key(i) && u.main[i].file_or_handle is Handle implies {
            let k = InodeAltKey::Handle(u.main[i].file_or_handle->Handle_0);
            u.alt.contains_key(k) && u.alt[k] == i
        } by {
            if i != inode {
                assert(t.main.contains_key(i));
            }
        }
        assert forall|h: FileHandle| #[trigger]
            u.alt.contains_key(InodeAltKey::Handle(h)) implies u.main[u.alt[InodeAltKey::Handle(
            h,
        )]].file_or_handle == FileOrHandle::<F>::Handle(h) by {
            if located.handle_key() != Some(InodeAltKey::Handle(h)) {
                assert(t.alt.contains_key(InodeAltKey::Handle(h)));
            }
        }
    }
}

/// A file that was opened can be used until it is closed, by the inode that it belongs to and
/// no other, and cannot be closed twice.
pub proof fn law_handles<F>(
    handles: Map<Handle, HandleData<F>>,
    handle: Handle,
    data: HandleData<F>,
    inode: Inode,
)
    ensures
        ({
            let opened = handles.insert(handle, data);
            &&& is_open(opened, handle, inode) <==> inode == data.inode
            &&& release_outcome(opened, handle, data.inode) == Ok::<(), FsError>(())
            &&& inode != data.inode ==> released(opened, handle, inode) == opened
            &&& {
                let closed = released(opened, handle, data.inode);
                &&& closed == handles.remove(handle)
                &&& !is_open(closed, handle, inode)
                &&& release_outcome(closed, handle, inode) == Err::<(), FsError>(
                    FsError::Os(EBADF),
                )
            }
        }),
{
    assert(handles.insert(handle, data).remove(handle) =~= handles.remove(handle));
}

/// A file opened through its link below `/proc` is closed on `exec`, and the link is followed;
/// every other flag is as it was asked for.
pub proof fn law_open_proc_flags(host: OpenFlags, flags: i32)
    requires
        host.wf(),
    ensures
        open_proc_flags(host, flags) & host.cloexec == host.cloexec,
        open_proc_flags(host, flags) & host.nofollow == 0,
        open_proc_flags(host, flags) & !(host.cloexec | host.nofollow) == flags & !(host.cloexec
            | host.nofollow),
        open_proc_flags(host, open_proc_flags(host, flags)) == open_proc_flags(host, flags),
{
    let c = host.cloexec;
    let n = host.nofollow;
    assert(((flags | c) & !n) & c == c) by (bit_vector)
        requires
            n & c == 0,
    ;
    assert(((flags | c) & !n) & n == 0) by (bit_vector);
    assert(((flags | c) & !n) & !(c | n) == flags & !(c | n)) by (bit_vector);
    assert((((flags | c) & !n) | c) & !n == (flags | c) & !n) by (bit_vector);
}

/// A place in the tree is opened without a mode: it is never created.
pub proof fn law_place_is_not_created(host: OpenFlags, mode: u32)
    requires
        host.wf(),
    ensures
        open_file_spec(host, host.place_spec(), mode).mode is None,
{
    let p = host.path;
    let n = host.nofollow;
    let c = host.cloexec;
    let k = host.creat;
    assert((p | n | c) & k == 0) by (bit_vector)
        requires
            p & k == 0,
            n & k == 0,
            c & k == 0,
    ;
}

/// The path of a link below `/proc` has no character that would end it early.
pub proof fn law_proc_fd_path_has_no_nul(fd: i32)
    ensures
        is_path(proc_fd_path_spec(fd)),
{
    reveal_strlit("self/fd/");
    reveal_strlit("-");
    lemma_decimal_has_no_nul(if fd < 0 {
        (-fd) as nat
    } else {
        fd as nat
    });
}

proof fn lemma_decimal_has_no_nul(n: nat)
    ensures
        is_path(decimal(n)),
    decreases n,
{
    if n >= 10 {
        let front = decimal(n / 10);
        lemma_decimal_has_no_nul(n / 10);
        assert(decimal(n) == front.push(digit(n % 10)));
        assert forall|i: int| 0 <= i < decimal(n).len() implies #[trigger] decimal(n)[i]
            != '\0' by {
            if i < front.len() {
                assert(decimal(n)[i] == front[i]);
            }
        }
    }
}

/// No name stands for two caching policies.
pub proof fn law_policy_names_differ(s: Seq<char>, p: CachePolicy, q: CachePolicy)
    requires
        p.is_named(s),
        q.is_named(s),
    ensures
        p == q,
        CachePolicy::named(s) == Some(p),
{
    lemma_names_differ(s);
}

} // verus!
