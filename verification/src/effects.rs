//! What each request does, entry by entry and key by key, and what it answers.
use crate::abi::{Inode, OpenFlags, RawFd, EBADF, ROOT_ID};
use crate::altkey::{FileHandle, InodeAltKey, Stat};
use crate::config::{duration_from_secs, CachePolicy, Config};
use crate::error::FsError;
use crate::fs::{Entry, FsState, Lookup, LookupEvent, PassthroughFs};
use crate::inode::{FileAccess, FileOrHandle, InodeData, InodeTable};
use crate::laws::{
    handed_out, law_every_state, law_next_inode_grows, law_open_proc_flags, Request,
};
use crate::locate::{law_locate_starts, Locate, Located};
use crate::multikey::MultikeyView;
use crate::syscall::{law_proc_fd_path, open_file_args, OpenArgs, OpenRequest};
use crate::text::decimal;
use vstd::prelude::*;

verus! {

/// A new file system knows no inode and has nothing open. Numbers start behind that of the root,
/// and what was given is kept.
pub proof fn law_new<F>(cfg: Config, host: OpenFlags, proc_fd: RawFd)
    ensures
        ({
            let s = FsState::<F>::initial(cfg, host, proc_fd);
            &&& forall|inode: Inode| !#[trigger] s.inodes.main.contains_key(inode)
            &&& forall|k: InodeAltKey| !#[trigger] s.inodes.alt.contains_key(k)
            &&& forall|handle: u64| !#[trigger] s.handles.contains_key(handle)
            &&& s.next_inode == 2
            &&& s.next_handle == 1
            &&& s.cfg == cfg
            &&& s.host == host
            &&& s.proc_fd == proc_fd
            &&& !s.writeback && !s.no_open && !s.no_opendir && !s.killpriv_v2
        }),
{
}

/// Which inode a located file is taken for. Its handle decides where that is known. Otherwise it
/// is the inode with the same inode number on the same device, unless the file has a handle and
/// that inode has one too, which is then another.
pub proof fn law_found<F>(t: InodeTable<F>, located: Located<F>)
    ensures
        ({
            let ids = InodeAltKey::Ids { ino: located.st.st_ino, dev: located.st.st_dev };
            let found = t.find_located(located);
            &&& match located.file_or_handle {
                FileOrHandle::File(_) => {
                    &&& found is Some <==> t.alt.contains_key(ids)
                    &&& found is Some ==> found->0 == t.alt[ids]
                },
                FileOrHandle::Handle(h) => {
                    let k = InodeAltKey::Handle(h);
                    let numbered = t.alt.contains_key(ids)
                        && t.main[t.alt[ids]].file_or_handle is File;
                    &&& t.alt.contains_key(k) ==> found is Some && found->0 == t.alt[k]
                    &&& !t.alt.contains_key(k) && numbered ==> found is Some && found->0
                        == t.alt[ids]
                    &&& found is Some ==> t.alt.contains_key(k) || numbered
                },
            }
        }),
{
}

/// Whether `entry` tells of a file with the attributes `st` under `inode`, to be trusted for as
/// long as the options say.
pub open spec fn tells(entry: Entry, inode: Inode, st: Stat, cfg: Config) -> bool {
    &&& entry.inode == inode
    &&& entry.generation == 0
    &&& entry.attr == st
    &&& entry.attr_timeout == cfg.attr_timeout
    &&& entry.entry_timeout == cfg.entry_timeout
}

/// What a lookup answers: the number of the inode that the file is taken for, or else the next
/// number as long as its highest byte is free, together with what the file is and how long that
/// may be trusted. The adding of a file answers the same.
pub proof fn law_answer<F>(s: FsState<F>, located: Located<F>)
    requires
        s.inodes.wf(),
    ensures
        ({
            let found = s.inodes.find_located(located);
            &&& match s.looked_up(located) {
                Lookup::Done { entry } => {
                    &&& tells(entry, entry.inode, located.st, s.cfg)
                    &&& found is Some ==> entry.inode == found->0
                    &&& found is None ==> entry.inode == s.next_inode && s.next_inode
                        <= 0xff_ffff_ffff_ffff
                },
                Lookup::Failed { error } => found is None && s.next_inode > 0xff_ffff_ffff_ffff
                    && error == FsError::MaxInode,
                Lookup::Search { located: l } => l == located && found is Some
                    && s.inodes.main[found->0].refcount == 0,
                _ => false,
            }
            &&& match s.registered(located) {
                Lookup::Done { entry } => {
                    &&& tells(entry, entry.inode, located.st, s.cfg)
                    &&& found is Some ==> entry.inode == found->0
                    &&& found is None ==> entry.inode == s.next_inode && s.next_inode
                        <= 0xff_ffff_ffff_ffff
                },
                Lookup::Failed { error } => found is None && s.next_inode > 0xff_ffff_ffff_ffff
                    && error == FsError::MaxInode,
                _ => false,
            }
            &&& match s.searched(located) {
                Lookup::Done { entry } => {
                    &&& tells(entry, entry.inode, located.st, s.cfg)
                    &&& found is Some && entry.inode == found->0
                    &&& s.inodes.main[entry.inode].refcount > 0
                },
                Lookup::Register { located: l } => l == located && found is None,
                Lookup::Search { located: l } => l == located && found is Some
                    && s.inodes.main[found->0].refcount == 0,
                _ => false,
            }
        }),
{
}

/// Whether `t` has the same inodes as `s` but for what is known of `inode`, and the same keys.
pub open spec fn same_but<F>(s: InodeTable<F>, t: InodeTable<F>, inode: Inode) -> bool {
    &&& t.alt == s.alt
    &&& forall|other: Inode| #[trigger]
        t.main.contains_key(other) <==> s.main.contains_key(other)
    &&& forall|other: Inode|
        other != inode && #[trigger] s.main.contains_key(other) ==> t.main[other] == s.main[other]
}

/// Whether `b` is what is known of the same inode as `a`, but for its count.
pub open spec fn same_inode<F>(a: InodeData<F>, b: InodeData<F>) -> bool {
    a.inode == b.inode && a.file_or_handle == b.file_or_handle && a.altkey == b.altkey
}

/// Looking up a file that is known counts one more lookup of its inode, and changes nothing else:
/// no other inode, no key, and not the next number. A search stops counting at the largest count;
/// the adding of a file that turns out to be known starts again at 0.
pub proof fn law_known_is_counted<F>(s: FsState<F>, located: Located<F>, inode: Inode)
    requires
        s.inodes.wf(),
        s.inodes.find_located(located) == Some(inode),
    ensures
        ({
            let before = s.inodes.main[inode];
            let looked_up = s.after_lookup(located);
            let searched = s.after_search(located);
            let registered = s.after_register(located);
            &&& before.refcount == 0 ==> searched.inodes == s.inodes && looked_up.inodes == s.inodes
            &&& 0 < before.refcount < u64::MAX ==> searched.inodes.main[inode].refcount
                == before.refcount + 1
            &&& before.refcount == u64::MAX ==> searched.inodes.main[inode].refcount == u64::MAX
            &&& before.refcount < u64::MAX ==> registered.inodes.main[inode].refcount
                == before.refcount + 1
            &&& before.refcount == u64::MAX ==> registered.inodes.main[inode].refcount == 0
            &&& looked_up.inodes == searched.inodes
            &&& same_inode(before, searched.inodes.main[inode])
            &&& same_inode(before, registered.inodes.main[inode])
            &&& same_but(s.inodes, searched.inodes, inode)
            &&& same_but(s.inodes, registered.inodes, inode)
            &&& searched.next_inode == s.next_inode
            &&& looked_up.next_inode == s.next_inode
            &&& registered.next_inode == s.next_inode
        }),
{
}

/// Whether `t` is `s` with a located file under `inode`: reached as it was located, found by its
/// numbers and by its handle if it has one, and with `refcount` lookups. No other inode is
/// changed, and no other key but those that `inode` had before.
pub open spec fn has_added<F>(
    s: InodeTable<F>,
    t: InodeTable<F>,
    inode: Inode,
    located: Located<F>,
    refcount: u64,
) -> bool {
    let ids = InodeAltKey::Ids { ino: located.st.st_ino, dev: located.st.st_dev };
    let mine = |k: InodeAltKey|
        k == ids || (located.file_or_handle matches FileOrHandle::Handle(h) && k
            == InodeAltKey::Handle(h));
    &&& t.main.contains_key(inode)
    &&& t.main[inode].inode == inode
    &&& t.main[inode].file_or_handle == located.file_or_handle
    &&& t.main[inode].refcount == refcount
    &&& t.main[inode].altkey == ids
    &&& forall|other: Inode|
        other != inode ==> (#[trigger] t.main.contains_key(other) <==> s.main.contains_key(other))
    &&& forall|other: Inode|
        other != inode && #[trigger] s.main.contains_key(other) ==> t.main[other] == s.main[other]
    &&& forall|k: InodeAltKey|
        mine(k) ==> #[trigger] t.alt.contains_key(k) && t.alt[k] == inode
    &&& forall|k: InodeAltKey|
        !mine(k) ==> (#[trigger] t.alt.contains_key(k) <==> s.alt.contains_key(k) && s.alt[k]
            != inode)
    &&& forall|k: InodeAltKey|
        !mine(k) && #[trigger] t.alt.contains_key(k) ==> t.alt[k] == s.alt[k]
}

/// Looking up a file that is not known adds it under the next number, with one lookup, and
/// changes nothing else. The number is used up even where it is too large to be handed out. A
/// search for such a file changes nothing.
pub proof fn law_unknown_is_added<F>(s: FsState<F>, located: Located<F>)
    requires
        s.inodes.wf(),
        s.inodes.find_located(located) is None,
    ensures
        s.after_search(located) == s,
        s.next_inode <= 0xff_ffff_ffff_ffff ==> has_added(
            s.inodes,
            s.after_lookup(located).inodes,
            s.next_inode,
            located,
            1,
        ),
        s.next_inode > 0xff_ffff_ffff_ffff ==> s.after_lookup(located).inodes == s.inodes,
        s.next_inode < u64::MAX ==> s.after_lookup(located).next_inode == s.next_inode + 1,
        s.next_inode == u64::MAX ==> s.after_lookup(located).next_inode == 0,
        s.after_register(located) == s.after_lookup(located),
{
}

/// Importing puts the root directory under the number 1, with two lookups, and changes nothing
/// else.
pub proof fn law_root_is_added<F>(s: FsState<F>, located: Located<F>)
    ensures
        has_added(s.inodes, s.after_import(located).inodes, 1, located, 2),
        s.after_import(located).next_inode == s.next_inode,
{
}

/// Whether `t` differs from `s` in nothing but its inodes and the next number: not in the open
/// files, the options, or what was given when the file system was made.
pub open spec fn same_besides_inodes<F>(s: FsState<F>, t: FsState<F>) -> bool {
    &&& t.handles == s.handles
    &&& t.next_handle == s.next_handle
    &&& t.proc_fd == s.proc_fd
    &&& t.host == s.host
    &&& t.cfg == s.cfg
    &&& t.writeback == s.writeback
    &&& t.no_open == s.no_open
    &&& t.no_opendir == s.no_opendir
    &&& t.killpriv_v2 == s.killpriv_v2
}

/// No lookup and no import touches anything but the inodes and the next number.
pub proof fn law_only_inodes_change<F>(s: FsState<F>, located: Located<F>, at: Lookup<F>)
    ensures
        same_besides_inodes(s, s.after_lookup(located)),
        same_besides_inodes(s, s.after_search(located)),
        same_besides_inodes(s, s.after_register(located)),
        same_besides_inodes(s, s.after_import(located)),
        same_besides_inodes(s, s.after_lookup_step(at)),
{
}

/// Forgetting takes away as many lookups of an inode as are forgotten. The inode is gone with the
/// last of them, and its keys with it. The root is not forgotten.
pub proof fn law_forget_counts<F>(t: InodeTable<F>, inode: Inode, count: u64)
    ensures
        ({
            let left = t.forgotten(inode, count);
            &&& left.main.contains_key(inode) <==> t.main.contains_key(inode) && (inode == 1
                || t.main[inode].refcount > count)
            &&& left.main.contains_key(inode) && inode != 1 ==> left.main[inode].refcount + count
                == t.main[inode].refcount
            &&& left.main.contains_key(inode) && inode == 1 ==> left.main[inode] == t.main[inode]
            &&& left.main.contains_key(inode) ==> same_inode(t.main[inode], left.main[inode])
        }),
{
}

/// Forgetting one inode leaves every other as it is, and every key of another.
pub proof fn law_forget_leaves_others<F>(
    t: InodeTable<F>,
    inode: Inode,
    count: u64,
    other: Inode,
    k: InodeAltKey,
)
    ensures
        ({
            let left = t.forgotten(inode, count);
            &&& other != inode ==> (left.main.contains_key(other) <==> t.main.contains_key(other))
            &&& other != inode && t.main.contains_key(other) ==> left.main[other] == t.main[other]
            &&& t.alt.contains_key(k) && t.alt[k] != inode ==> left.alt.contains_key(k)
            &&& left.alt.contains_key(k) ==> t.alt.contains_key(k) && left.alt[k] == t.alt[k]
            &&& t.alt.contains_key(k) && t.main.contains_key(inode) && left.main.contains_key(inode)
                ==> left.alt.contains_key(k)
            &&& t.alt.contains_key(k) && t.alt[k] == inode && t.main.contains_key(inode)
                && !left.main.contains_key(inode) ==> !left.alt.contains_key(k)
        }),
{
}

/// A file that is taken for an inode is still taken for it once another is forgotten, by way of
/// the same key.
pub proof fn law_forget_leaves_others_found<F>(
    t: InodeTable<F>,
    inode: Inode,
    count: u64,
    located: Located<F>,
    other: Inode,
)
    requires
        t.wf(),
        t.find_located(located) == Some(other),
        other != inode,
    ensures
        t.forgotten(inode, count).find_located(located) == Some(other),
{
    let ids = InodeAltKey::Ids { ino: located.st.st_ino, dev: located.st.st_dev };
    let left = t.forgotten(inode, count);
    law_forget_leaves_others(t, inode, count, other, ids);
    law_found(t, located);
    law_found(left, located);
    if let FileOrHandle::Handle(h) = located.file_or_handle {
        law_forget_leaves_others(t, inode, count, other, InodeAltKey::Handle(h));
    }
}

/// A lookup looks in the directory that it was asked to: where that is reached by a handle, it
/// starts with opening just that handle, and where it is held open, with getting hold of the
/// file. Where the directory is not known, the lookup fails.
pub proof fn law_lookup_starts_in_parent<F>(s: FsState<F>, parent: Inode)
    requires
        s.host.wf(),
    ensures
        match s.lookup_first(parent) {
            Lookup::ReopenParent { handle, flags } => s.inodes.main.contains_key(parent)
                && s.inodes.main[parent].file_or_handle == FileOrHandle::<F>::Handle(handle)
                && flags == s.host.path,
            Lookup::Locate { at } => {
                &&& s.inodes.main.contains_key(parent)
                &&& s.inodes.main[parent].file_or_handle is File
                &&& match at {
                    Locate::MakeHandle => s.cfg.inode_file_handles,
                    Locate::Open { args } => !s.cfg.inode_file_handles && args.flags == s.host.path
                        | s.host.nofollow | s.host.cloexec && args.mode is None,
                    _ => false,
                }
            },
            Lookup::Failed { error } => !s.inodes.main.contains_key(parent) && error
                == FsError::Os(EBADF),
            _ => false,
        },
{
    law_locate_starts::<F>(s.host, s.cfg.inode_file_handles);
}

/// Lookups in two directories that are reached by different handles open different handles.
pub proof fn law_parents_are_told_apart<F>(s: FsState<F>, a: Inode, b: Inode)
    requires
        s.inodes.main.contains_key(a),
        s.inodes.main.contains_key(b),
        s.inodes.main[a].file_or_handle is Handle,
        s.inodes.main[b].file_or_handle is Handle,
    ensures
        s.lookup_first(a) is ReopenParent,
        s.lookup_first(a) == s.lookup_first(b) <==> s.inodes.main[a].file_or_handle
            == s.inodes.main[b].file_or_handle,
{
}

/// How a lookup starts depends on nothing that is known of other inodes.
pub proof fn law_lookup_starts_alike<F>(s: FsState<F>, t: FsState<F>, parent: Inode)
    requires
        s.host == t.host,
        s.cfg == t.cfg,
        s.inodes.main.contains_key(parent) <==> t.inodes.main.contains_key(parent),
        s.inodes.main[parent].file_or_handle == t.inodes.main[parent].file_or_handle,
    ensures
        s.lookup_first(parent) == t.lookup_first(parent),
{
}

/// What a reply brings a lookup to. Once its directory is open, the file is got hold of, and a
/// directory that cannot be opened is why it fails. A file that is located is searched as it was
/// located. A reply to something else changes nothing.
pub proof fn law_lookup_step<F>(s: FsState<F>, at: Lookup<F>, event: LookupEvent<F>)
    requires
        s.host.wf(),
    ensures
        ({
            let next = s.lookup_after(at, event);
            match (at, event) {
                (Lookup::ReopenParent { .. }, LookupEvent::ParentReopened(reply)) => match next {
                    Lookup::Locate { at: Locate::MakeHandle } => reply is Ok
                        && s.cfg.inode_file_handles,
                    Lookup::Locate { at: Locate::Open { args } } => reply is Ok
                        && !s.cfg.inode_file_handles && args.flags == s.host.path | s.host.nofollow
                        | s.host.cloexec && args.mode is None,
                    Lookup::Failed { error } => reply == Err::<(), FsError>(error),
                    _ => false,
                },
                (Lookup::Locate { at }, LookupEvent::Locate(event)) => {
                    let end = at.after(s.host, event);
                    match next {
                        Lookup::Search { located } => end == (Locate::Done { located }),
                        Lookup::Failed { error } => end == (Locate::<F>::Failed { error }),
                        Lookup::Locate { at: l } => end == l && !(l is Done) && !(l is Failed),
                        _ => false,
                    }
                },
                _ => next == at,
            }
        }),
{
    law_locate_starts::<F>(s.host, s.cfg.inode_file_handles);
}

/// The steps of a lookup on the inodes are the search and the adding, of the file that was
/// located. Where a lookup is anywhere else, neither it nor the state moves.
pub proof fn law_lookup_step_on_inodes<F>(s: FsState<F>, at: Lookup<F>)
    ensures
        match at {
            Lookup::Search { located } => s.lookup_stepped(at) == s.searched(located)
                && s.after_lookup_step(at) == s.after_search(located),
            Lookup::Register { located } => s.lookup_stepped(at) == s.registered(located)
                && s.after_lookup_step(at) == s.after_register(located),
            _ => s.lookup_stepped(at) == at && s.after_lookup_step(at) == s,
        },
{
}

impl<F> MultikeyView<InodeData<F>> {
    /// Every inode that is found by numbers is the file with these numbers.
    pub open spec fn keyed(self) -> bool {
        forall|ino: u64, dev: u64| #[trigger]
            self.alt.contains_key(InodeAltKey::Ids { ino, dev }) ==> self.main[self.alt[InodeAltKey::Ids {
                ino,
                dev,
            }]].altkey == (InodeAltKey::Ids { ino, dev })
    }
}

/// Whatever requests a new file system has taken, every inode that is found by numbers is the
/// file with these numbers.
pub proof fn law_keyed_in_every_state<F>(
    cfg: Config,
    host: OpenFlags,
    proc_fd: RawFd,
    requests: Seq<Request<F>>,
)
    requires
        requests.len() + 2 < u64::MAX,
    ensures
        FsState::<F>::initial(cfg, host, proc_fd).after_requests(requests).inodes.keyed(),
    decreases requests.len(),
{
    if requests.len() > 0 {
        let before = requests.drop_last();
        law_keyed_in_every_state(cfg, host, proc_fd, before);
        law_every_state(cfg, host, proc_fd, before);
        let s = FsState::<F>::initial(cfg, host, proc_fd).after_requests(before);
        lemma_request_keeps_keyed(s, requests.last());
    }
}

proof fn lemma_request_keeps_keyed<F>(s: FsState<F>, request: Request<F>)
    requires
        s.inodes.wf(),
        s.inodes.keyed(),
    ensures
        s.after_request(request).inodes.keyed(),
{
}

/// Files that are reached without handles are taken for the same inode only if they have the same
/// inode number and the same device.
pub proof fn law_one_inode_one_file<F>(t: InodeTable<F>, a: Located<F>, b: Located<F>)
    requires
        t.keyed(),
        a.file_or_handle is File,
        b.file_or_handle is File,
        t.find_located(a) is Some,
        t.find_located(b) == t.find_located(a),
    ensures
        a.st.st_ino == b.st.st_ino,
        a.st.st_dev == b.st.st_dev,
{
    law_found(t, a);
    law_found(t, b);
}

/// Files with different handles are taken for the same inode only if that has no handle, and they
/// have the same inode number and the same device.
pub proof fn law_one_inode_one_handle<F>(
    t: InodeTable<F>,
    a: Located<F>,
    b: Located<F>,
    g: FileHandle,
    h: FileHandle,
)
    requires
        t.keyed(),
        t.by_handle(),
        a.file_or_handle == FileOrHandle::<F>::Handle(g),
        b.file_or_handle == FileOrHandle::<F>::Handle(h),
        t.find_located(a) is Some,
        t.find_located(b) == t.find_located(a),
        g != h,
    ensures
        t.main[t.find_located(a)->0].file_or_handle is File,
        a.st.st_ino == b.st.st_ino,
        a.st.st_dev == b.st.st_dev,
{
    law_found(t, a);
    law_found(t, b);
}

/// A number keeps standing for the file that it stands for, as long as it is not forgotten: no
/// request changes how the file is reached or by which numbers it is found. Only the root becomes
/// another when it is imported again. And a number that stands for nothing stays so.
proof fn lemma_request_keeps_file<F>(s: FsState<F>, request: Request<F>, inode: Inode)
    requires
        s.inodes.wf(),
        inode < s.next_inode,
        inode != ROOT_ID || !(request is Import),
        s.after_request(request).inodes.main.contains_key(inode),
    ensures
        s.inodes.main.contains_key(inode),
        same_inode(s.inodes.main[inode], s.after_request(request).inodes.main[inode]),
{
}

/// The same over a sequence of requests.
proof fn lemma_requests_keep_file<F>(
    cfg: Config,
    host: OpenFlags,
    proc_fd: RawFd,
    before: Seq<Request<F>>,
    between: Seq<Request<F>>,
    inode: Inode,
)
    requires
        before.len() + between.len() + 2 < u64::MAX,
        inode < FsState::<F>::initial(cfg, host, proc_fd).after_requests(before).next_inode,
        inode != ROOT_ID || forall|i: int|
            0 <= i < between.len() ==> !(#[trigger] between[i] is Import),
        FsState::<F>::initial(cfg, host, proc_fd).after_requests(
            before + between,
        ).inodes.main.contains_key(inode),
    ensures
        ({
            let s = FsState::<F>::initial(cfg, host, proc_fd).after_requests(before);
            let t = FsState::<F>::initial(cfg, host, proc_fd).after_requests(before + between);
            &&& s.inodes.main.contains_key(inode)
            &&& same_inode(s.inodes.main[inode], t.inodes.main[inode])
        }),
    decreases between.len(),
{
    if between.len() == 0 {
        assert(before + between =~= before);
    } else {
        let most = before + between.drop_last();
        assert((before + between).drop_last() =~= most);
        assert((before + between).last() == between.last());
        let s = FsState::<F>::initial(cfg, host, proc_fd).after_requests(most);
        law_every_state(cfg, host, proc_fd, most);
        law_next_inode_grows(cfg, host, proc_fd, before, between.drop_last());
        assert(between.last() == between[between.len() - 1]);
        lemma_request_keeps_file(s, between.last(), inode);
        assert forall|i: int| 0 <= i < between.drop_last().len() && inode
            == ROOT_ID implies !(#[trigger] between.drop_last()[i] is Import) by {
            assert(between.drop_last()[i] == between[i]);
        }
        lemma_requests_keep_file(cfg, host, proc_fd, before, between.drop_last(), inode);
    }
}

/// A number that was handed out stands for the file that it was handed out for, whatever is
/// requested, until it is forgotten: it is reached as that file was located, and a lookup in it
/// opens the handle of that file.
pub proof fn law_number_means_its_file<F>(
    cfg: Config,
    host: OpenFlags,
    proc_fd: RawFd,
    before: Seq<Request<F>>,
    located: Located<F>,
    between: Seq<Request<F>>,
)
    requires
        before.len() + 1 + between.len() + 2 < u64::MAX,
        ({
            let s = FsState::<F>::initial(cfg, host, proc_fd);
            let first = Request::Lookup { located };
            &&& handed_out(s.after_requests(before), first) is Some
            &&& s.after_requests(before.push(first) + between).inodes.main.contains_key(
                handed_out(s.after_requests(before), first)->0,
            )
        }),
    ensures
        ({
            let s = FsState::<F>::initial(cfg, host, proc_fd);
            let first = Request::Lookup { located };
            let inode = handed_out(s.after_requests(before), first)->0;
            let t = s.after_requests(before.push(first) + between);
            &&& t.inodes.main[inode].file_or_handle == located.file_or_handle
            &&& t.inodes.main[inode].altkey == (InodeAltKey::Ids {
                ino: located.st.st_ino,
                dev: located.st.st_dev,
            })
            &&& located.file_or_handle matches FileOrHandle::Handle(h) ==> t.lookup_first(inode)
                == (Lookup::<F>::ReopenParent { handle: h, flags: host.path })
        }),
{
    let s = FsState::<F>::initial(cfg, host, proc_fd);
    let first = Request::Lookup { located };
    let inode = handed_out(s.after_requests(before), first)->0;
    law_every_state(cfg, host, proc_fd, before);
    lemma_pushed(s, before, first);
    law_unknown_is_added(s.after_requests(before), located);
    lemma_requests_keep_file(cfg, host, proc_fd, before.push(first), between, inode);
    law_every_state(cfg, host, proc_fd, before.push(first) + between);
}

proof fn lemma_pushed<F>(s: FsState<F>, before: Seq<Request<F>>, first: Request<F>)
    ensures
        s.after_requests(before.push(first)) == s.after_requests(before).after_request(first),
{
    assert(before.push(first).drop_last() =~= before);
    assert(before.push(first).last() == first);
}

/// Files that are reached without handles are given the same number only if they have the same
/// inode number and the same device, whatever is requested in between. Only for the number of the
/// root is it left out that another root is imported in between.
pub proof fn law_files_are_told_apart<F>(
    cfg: Config,
    host: OpenFlags,
    proc_fd: RawFd,
    before: Seq<Request<F>>,
    a: Located<F>,
    between: Seq<Request<F>>,
    b: Located<F>,
)
    requires
        before.len() + 1 + between.len() + 2 < u64::MAX,
        a.file_or_handle is File,
        b.file_or_handle is File,
        ({
            let s = FsState::<F>::initial(cfg, host, proc_fd);
            let x = s.after_requests(before).looked_up(a);
            let y = s.after_requests(before.push(Request::Lookup { located: a }) + between).looked_up(
                b,
            );
            &&& x is Done
            &&& y is Done
            &&& x->entry.inode == y->entry.inode
            &&& x->entry.inode == ROOT_ID ==> forall|i: int|
                0 <= i < between.len() ==> !(#[trigger] between[i] is Import)
        }),
    ensures
        a.st.st_ino == b.st.st_ino,
        a.st.st_dev == b.st.st_dev,
{
    let s = FsState::<F>::initial(cfg, host, proc_fd);
    let first = Request::Lookup { located: a };
    let all = before.push(first) + between;
    let t = s.after_requests(all);
    let inode = s.after_requests(before).looked_up(a)->entry.inode;
    law_every_state(cfg, host, proc_fd, before);
    law_every_state(cfg, host, proc_fd, before.push(first));
    law_every_state(cfg, host, proc_fd, all);
    law_keyed_in_every_state(cfg, host, proc_fd, before);
    law_keyed_in_every_state(cfg, host, proc_fd, all);
    lemma_pushed(s, before, first);
    law_answer(s.after_requests(before), a);
    law_answer(t, b);
    law_found(s.after_requests(before).inodes, a);
    law_found(t.inodes, b);
    law_next_inode_grows(cfg, host, proc_fd, before.push(first), between);
    let ids = InodeAltKey::Ids { ino: a.st.st_ino, dev: a.st.st_dev };
    let u = s.after_requests(before.push(first));
    match s.after_requests(before).inodes.find_located(a) {
        Some(i) => law_known_is_counted(s.after_requests(before), a, i),
        None => law_unknown_is_added(s.after_requests(before), a),
    }
    assert(u.inodes.main.contains_key(inode));
    assert(u.inodes.main[inode].altkey == ids);
    assert(inode < u.next_inode);
    assert(t.inodes.find_located(b) is Some);
    lemma_requests_keep_file(cfg, host, proc_fd, before.push(first), between, inode);
}

/// The numbers of a file that is held open keep standing for its inode, until that is forgotten.
proof fn lemma_request_keeps_ids<F>(s: FsState<F>, request: Request<F>, ids: InodeAltKey, inode: Inode)
    requires
        s.inodes.wf(),
        inode < s.next_inode,
        !(request is Import),
        ids is Ids,
        s.inodes.alt.contains_key(ids),
        s.inodes.alt[ids] == inode,
        s.inodes.main[inode].file_or_handle is File,
        s.after_request(request).inodes.main.contains_key(inode),
    ensures
        s.after_request(request).inodes.alt.contains_key(ids),
        s.after_request(request).inodes.alt[ids] == inode,
{
}

/// The same over a sequence of requests.
proof fn lemma_requests_keep_ids<F>(
    cfg: Config,
    host: OpenFlags,
    proc_fd: RawFd,
    before: Seq<Request<F>>,
    between: Seq<Request<F>>,
    ids: InodeAltKey,
    inode: Inode,
)
    requires
        before.len() + between.len() + 2 < u64::MAX,
        forall|i: int| 0 <= i < between.len() ==> !(#[trigger] between[i] is Import),
        ids is Ids,
        ({
            let s = FsState::<F>::initial(cfg, host, proc_fd).after_requests(before);
            let t = FsState::<F>::initial(cfg, host, proc_fd).after_requests(before + between);
            &&& s.inodes.alt.contains_key(ids)
            &&& s.inodes.alt[ids] == inode
            &&& s.inodes.main[inode].file_or_handle is File
            &&& t.inodes.main.contains_key(inode)
        }),
    ensures
        ({
            let t = FsState::<F>::initial(cfg, host, proc_fd).after_requests(before + between);
            &&& t.inodes.alt.contains_key(ids)
            &&& t.inodes.alt[ids] == inode
            &&& t.inodes.main[inode].file_or_handle is File
        }),
    decreases between.len(),
{
    law_every_state(cfg, host, proc_fd, before);
    if between.len() == 0 {
        assert(before + between =~= before);
    } else {
        let front = between.drop_last();
        let most = before + front;
        assert((before + between).drop_last() =~= most);
        assert((before + between).last() == between.last());
        let s = FsState::<F>::initial(cfg, host, proc_fd).after_requests(most);
        assert forall|i: int| 0 <= i < front.len() implies !(#[trigger] front[i] is Import) by {
            assert(front[i] == between[i]);
        }
        assert(between.last() == between[between.len() - 1]);
        law_every_state(cfg, host, proc_fd, most);
        law_next_inode_grows(cfg, host, proc_fd, before, front);
        lemma_request_keeps_file(s, between.last(), inode);
        lemma_requests_keep_ids(cfg, host, proc_fd, before, front, ids, inode);
        lemma_request_keeps_ids(s, between.last(), ids, inode);
    }
}

/// A file that is held open is given the same number again when it is looked up again, whatever
/// was requested in between, as long as its inode is there: other files may have been looked up
/// and forgotten, but no root imported.
pub proof fn law_file_keeps_its_number<F>(
    cfg: Config,
    host: OpenFlags,
    proc_fd: RawFd,
    before: Seq<Request<F>>,
    a: Located<F>,
    between: Seq<Request<F>>,
    b: Located<F>,
)
    requires
        before.len() + 1 + between.len() + 2 < u64::MAX,
        forall|i: int| 0 <= i < between.len() ==> !(#[trigger] between[i] is Import),
        a.file_or_handle is File,
        b.file_or_handle is File,
        a.st.st_ino == b.st.st_ino,
        a.st.st_dev == b.st.st_dev,
        ({
            let s = FsState::<F>::initial(cfg, host, proc_fd);
            let first = Request::Lookup { located: a };
            let x = s.after_requests(before).looked_up(a);
            let u = s.after_requests(before.push(first));
            let t = s.after_requests(before.push(first) + between);
            &&& x is Done
            &&& u.inodes.main[x->entry.inode].file_or_handle is File
            &&& t.inodes.main.contains_key(x->entry.inode)
        }),
    ensures
        ({
            let s = FsState::<F>::initial(cfg, host, proc_fd);
            let x = s.after_requests(before).looked_up(a);
            let y = s.after_requests(before.push(Request::Lookup { located: a }) + between).looked_up(
                b,
            );
            y is Done && y->entry.inode == x->entry.inode
        }),
{
    let s = FsState::<F>::initial(cfg, host, proc_fd);
    let first = Request::Lookup { located: a };
    let all = before.push(first) + between;
    let ids = InodeAltKey::Ids { ino: a.st.st_ino, dev: a.st.st_dev };
    let inode = s.after_requests(before).looked_up(a)->entry.inode;
    law_every_state(cfg, host, proc_fd, before);
    law_every_state(cfg, host, proc_fd, all);
    lemma_pushed(s, before, first);
    law_answer(s.after_requests(before), a);
    law_found(s.after_requests(before).inodes, a);
    match s.after_requests(before).inodes.find_located(a) {
        Some(i) => law_known_is_counted(s.after_requests(before), a, i),
        None => law_unknown_is_added(s.after_requests(before), a),
    }
    lemma_requests_keep_ids(cfg, host, proc_fd, before.push(first), between, ids, inode);
    law_found(s.after_requests(all).inodes, b);
    law_answer(s.after_requests(all), b);
}

/// What is looked up to mount the file system is its root, seen from itself.
pub proof fn law_mount_target<F>(r: (Inode, String))
    requires
        call_ensures(PassthroughFs::<F>::mount_target, (), r),
    ensures
        r.0 == 1,
        r.1@.len() == 1,
        r.1@[0] == '.',
{
    reveal_strlit(".");
}

/// Mounting succeeds exactly if the lookup of the root did. It is answered with what that told,
/// and with the largest number whose highest byte is free.
pub proof fn law_mount<F>(root: Result<Entry, FsError>, r: Result<(Entry, u64), FsError>)
    requires
        call_ensures(PassthroughFs::<F>::mount, (root,), r),
    ensures
        r is Ok <==> root is Ok,
        r matches Ok((entry, max)) ==> root == Ok::<Entry, FsError>(entry) && max
            == 0xff_ffff_ffff_ffff,
        r matches Err(e) ==> root == Err::<Entry, FsError>(e),
{
}

/// The only descriptor to keep across an upgrade is that of `/proc`.
pub proof fn law_keep_fds<F>(fs: &PassthroughFs<F>, r: Vec<RawFd>)
    requires
        call_ensures(PassthroughFs::<F>::keep_fds, (fs,), r),
    ensures
        r@.len() == 1,
        r@[0] == fs.proc_fd,
{
}

/// The root directory is imported from the path in the options, seen from the current directory.
pub proof fn law_import_path<F>(fs: &PassthroughFs<F>, path: &str, start: (RawFd, Locate<F>))
    requires
        call_ensures(PassthroughFs::<F>::import_path, (fs,), path),
        call_ensures(PassthroughFs::<F>::import_start, (fs,), start),
    ensures
        path@ == fs.cfg.root_dir@,
        start.0 == -100,
{
}

/// A root directory can be imported exactly if its path has no NUL.
pub proof fn law_can_import<F>(fs: &PassthroughFs<F>, r: bool)
    requires
        call_ensures(PassthroughFs::<F>::can_import, (fs,), r),
    ensures
        r <==> forall|i: int| 0 <= i < fs.cfg.root_dir@.len() ==> fs.cfg.root_dir@[i] != '\0',
{
    let s = fs.cfg.root_dir@;
    if exists|i: int| 0 <= i < s.len() && s[i] == '\0' {
        assert(s.contains('\0'));
    }
}

/// The file of an inode is the one that is held open with it, or else is to be opened by its own
/// handle, as a place in the tree.
pub proof fn law_get_file<'a, F>(data: &'a InodeData<F>, host: OpenFlags, r: FileAccess<'a, F>)
    requires
        call_ensures(InodeData::<F>::get_file, (data, &host), r),
    ensures
        match r {
            FileAccess::Ready(file) => data.file_or_handle is File && file.file()
                == data.file_or_handle->File_0,
            FileAccess::Reopen { handle, flags } => data.file_or_handle == FileOrHandle::<
                F,
            >::Handle(handle) && flags == host.path,
        },
{
}

/// Two files get the same key from their numbers exactly if they have the same inode number and
/// the same device.
pub proof fn law_keys_of_files(a: Stat, b: Stat, x: InodeAltKey, y: InodeAltKey)
    requires
        call_ensures(InodeAltKey::ids_from_stat, (&a,), x),
        call_ensures(InodeAltKey::ids_from_stat, (&b,), y),
    ensures
        x == y <==> a.st_ino == b.st_ino && a.st_dev == b.st_dev,
        x is Ids,
{
}

/// A lookup in a directory that is held open is handed that directory, and one in a directory
/// that is not begins with the handle of just that directory. So two lookups begin with the same
/// handle only if their directories have it in common.
pub proof fn law_lookups_begin<'a, F>(
    fs: &'a PassthroughFs<F>,
    a: Inode,
    b: Inode,
    x: (Option<&'a F>, Lookup<F>),
    y: (Option<&'a F>, Lookup<F>),
)
    requires
        call_ensures(PassthroughFs::<F>::lookup_begin, (fs, a), x),
        call_ensures(PassthroughFs::<F>::lookup_begin, (fs, b), y),
    ensures
        x.0 matches Some(f) ==> fs.inode_map@.main.contains_key(a)
            && fs.inode_map@.main[a].file_or_handle == FileOrHandle::File(*f),
        x.1 matches Lookup::ReopenParent { handle, flags } ==> {
            &&& fs.inode_map@.main.contains_key(a)
            &&& fs.inode_map@.main[a].file_or_handle == FileOrHandle::<F>::Handle(handle)
            &&& flags == fs.host.path
        },
        x.1 is ReopenParent && y.1 is ReopenParent ==> (x.1 == y.1
            <==> fs.inode_map@.main[a].file_or_handle == fs.inode_map@.main[b].file_or_handle),
        x.1 is Failed <==> !fs.inode_map@.main.contains_key(a),
        x.0 is Some || x.1 is ReopenParent || x.1 is Failed,
{
}

/// How a file is opened: with just the flags asked for, and with the whole mode or none. Two modes
/// make a difference exactly where the file may be created.
pub proof fn law_opened_as_asked(
    host: OpenFlags,
    flags: i32,
    mode: u32,
    other: u32,
    x: OpenArgs,
    y: OpenArgs,
)
    requires
        call_ensures(open_file_args, (&host, flags, mode), x),
        call_ensures(open_file_args, (&host, flags, other), y),
    ensures
        x.flags == flags,
        x.mode is Some <==> flags & host.creat == host.creat,
        x.mode matches Some(m) ==> m == mode,
        x == y <==> mode == other || flags & host.creat != host.creat,
{
}

/// A file is opened through its link below `/proc`, with the flags asked for but for those that
/// the link and `exec` need.
pub proof fn law_opened_through_proc<F>(
    fs: &PassthroughFs<F>,
    fd: RawFd,
    flags: i32,
    r: OpenRequest,
    root: OpenRequest,
)
    requires
        fs.host.wf(),
        call_ensures(PassthroughFs::<F>::open_proc_file, (fs, fd, flags), r),
        call_ensures(PassthroughFs::<F>::import_reopen_request, (fs, fd, flags), root),
    ensures
        r.dirfd == fs.proc_fd,
        root.dirfd == fs.proc_fd,
        r.path@ == root.path@,
        r.path@.take(8) == "self/fd/"@,
        fd >= 0 ==> r.path@.skip(8) == decimal(fd as nat),
        r.args.flags & fs.host.cloexec == fs.host.cloexec,
        r.args.flags & fs.host.nofollow == 0,
        r.args.flags & !(fs.host.cloexec | fs.host.nofollow) == flags & !(fs.host.cloexec
            | fs.host.nofollow),
        root.args.flags == flags,
        r.args.mode matches Some(mode) ==> mode == 0,
        root.args.mode matches Some(mode) ==> mode == 0,
{
    law_open_proc_flags(fs.host, flags);
    law_proc_fd_path(fd);
}

/// The options that hold where nothing else is said.
pub proof fn law_default_options(r: Config, policy: CachePolicy)
    requires
        call_ensures(<Config as Default>::default, (), r),
        call_ensures(<CachePolicy as Default>::default, (), policy),
    ensures
        policy is Auto,
        r.cache_policy == policy,
        r.entry_timeout == duration_from_secs(5),
        r.attr_timeout == r.entry_timeout,
        r.root_dir@.len() == 1,
        r.root_dir@[0] == '/',
        r.do_import,
        !r.writeback && !r.xattr && !r.no_open && !r.no_opendir && !r.killpriv_v2,
        !r.inode_file_handles,
{
    reveal_strlit("/");
}

} // verus!
