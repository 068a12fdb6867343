//! The inodes that the client knows of.
use crate::abi::{Inode, OpenFlags, EBADF};
use crate::altkey::{FileHandle, InodeAltKey};
use crate::error::{ebadf, FsError};
use crate::multikey::{MultikeyBTreeMap, MultikeyView};
use vstd::prelude::*;

verus! {

/// How an inode is reached: by a file that is held open, or by a handle from which it can be
/// opened when it is needed.
#[derive(Debug, PartialEq, Eq)]
pub enum FileOrHandle<F> {
    File(F),
    Handle(FileHandle),
}

impl<F> FileOrHandle<F> {
    /// The handle, if it is one.
    pub open spec fn handle_spec(self) -> Option<FileHandle> {
        match self {
            FileOrHandle::File(_) => None,
            FileOrHandle::Handle(h) => Some(h),
        }
    }

    /// The handle as a key, if it is one.
    pub open spec fn handle_key(self) -> Option<InodeAltKey> {
        match self {
            FileOrHandle::File(_) => None,
            FileOrHandle::Handle(h) => Some(InodeAltKey::Handle(h)),
        }
    }

    /// The handle, if it is one.
    pub fn handle(&self) -> (r: Option<&FileHandle>)
        ensures
            match r {
                Some(h) => self.handle_spec() == Some(*h),
                None => self.handle_spec() is None,
            },
            match self {
                FileOrHandle::File(_) => r is None,
                FileOrHandle::Handle(h) => r is Some && *r->0 == h,
            },
    {
        match self {
            FileOrHandle::File(_) => None,
            FileOrHandle::Handle(h) => Some(h),
        }
    }

    /// The handle as a key, if it is one.
    pub fn handle_altkey(&self) -> (r: Option<InodeAltKey>)
        ensures
            r == self.handle_key(),
            match self {
                FileOrHandle::File(_) => r is None,
                FileOrHandle::Handle(h) => r == Some(InodeAltKey::Handle(*h)),
            },
    {
        match self.handle() {
            Some(h) => Some(InodeAltKey::Handle(*h)),
            None => None,
        }
    }
}

/// The open file of an inode, for the time of one request.
#[derive(Debug)]
pub enum InodeFile<'a, F> {
    /// Opened for this request.
    Owned(F),
    /// Held open with the inode.
    Ref(&'a F),
}

impl<'a, F> InodeFile<'a, F> {
    /// The file.
    pub open spec fn file(self) -> F {
        match self {
            InodeFile::Owned(f) => f,
            InodeFile::Ref(f) => *f,
        }
    }

    /// The file.
    pub fn into_ref(&self) -> (r: &F)
        ensures
            *r == self.file(),
            match self {
                InodeFile::Owned(f) => r == f,
                InodeFile::Ref(f) => r == *f,
            },
    {
        match self {
            InodeFile::Owned(f) => f,
            InodeFile::Ref(f) => *f,
        }
    }

    /// The file of an inode that had to be opened by its handle, with `reply` for the opening.
    pub fn reopened(reply: Result<F, FsError>) -> (r: Result<InodeFile<'a, F>, FsError>)
        ensures
            r == (match reply {
                Ok(f) => Ok(InodeFile::Owned(f)),
                Err(e) => Err(e),
            }),
    {
        match reply {
            Ok(f) => Ok(InodeFile::Owned(f)),
            Err(e) => Err(e),
        }
    }
}

/// How the file of an inode is to be had.
#[derive(Debug)]
pub enum FileAccess<'a, F> {
    /// It is there.
    Ready(InodeFile<'a, F>),
    /// It has to be opened by this handle, with these flags.
    Reopen { handle: FileHandle, flags: i32 },
}

/// What is known of an inode.
#[derive(Debug)]
pub struct InodeData<F> {
    /// Its number.
    pub inode: Inode,
    /// How it is reached.
    pub file_or_handle: FileOrHandle<F>,
    /// How many lookups of it the client has not yet forgotten.
    pub refcount: u64,
    /// The key made of the numbers that the file system underneath gives it.
    pub altkey: InodeAltKey,
}

impl<F> InodeData<F> {
    pub fn new(inode: Inode, f: FileOrHandle<F>, refcount: u64, altkey: InodeAltKey) -> (r: Self)
        ensures
            r == (InodeData { inode, file_or_handle: f, refcount, altkey }),
    {
        InodeData { inode, file_or_handle: f, refcount, altkey }
    }

    /// The file of the inode: the one that is held open, or else one to open by the handle, as
    /// a place in the tree.
    pub fn get_file<'a>(&'a self, host: &OpenFlags) -> (r: FileAccess<'a, F>)
        ensures
            match (self.file_or_handle, r) {
                (FileOrHandle::File(f), FileAccess::Ready(InodeFile::Ref(g))) => *g == f,
                (FileOrHandle::Handle(h), FileAccess::Reopen { handle, flags }) => handle == h
                    && flags == host.path,
                _ => false,
            },
    {
        match &self.file_or_handle {
            FileOrHandle::File(f) => FileAccess::Ready(InodeFile::Ref(f)),
            FileOrHandle::Handle(h) => FileAccess::Reopen { handle: *h, flags: host.path },
        }
    }

    /// The same inode with another count.
    pub open spec fn recounted(self, refcount: u64) -> Self {
        InodeData { refcount, ..self }
    }
}

/// The inodes and the keys by which they are found.
pub type InodeTable<F> = MultikeyView<InodeData<F>>;

impl<F> MultikeyView<InodeData<F>> {
    /// The inode that the keys of a file stand for.
    ///
    /// The handle decides where it is known. Otherwise the numbers of the file do, but an inode
    /// that has a handle is then another file: its handle would have been found, had it been
    /// this one. That happens when a new file has been given the number of one that was unlinked
    /// and is still remembered.
    pub open spec fn find(self, ids: InodeAltKey, handle: Option<InodeAltKey>) -> Option<Inode> {
        if handle is Some && self.alt.contains_key(handle->0) {
            Some(self.alt[handle->0])
        } else if self.alt.contains_key(ids) && (handle is None
            || self.main[self.alt[ids]].file_or_handle is File) {
            Some(self.alt[ids])
        } else {
            None
        }
    }

    /// With a new inode and its keys.
    pub open spec fn with_inode(
        self,
        inode: Inode,
        ids: InodeAltKey,
        handle: Option<InodeAltKey>,
        data: InodeData<F>,
    ) -> Self {
        let t = self.put(inode, data).put_alt(ids, inode);
        match handle {
            Some(h) => t.put_alt(h, inode),
            None => t,
        }
    }

    /// With the count of `inode` changed.
    pub open spec fn with_count(self, inode: Inode, refcount: u64) -> Self {
        self.set(inode, self.main[inode].recounted(refcount))
    }
}

/// Which inode the keys of a file stand for. A known handle decides. Without a handle the numbers
/// decide. With a handle that is not known the numbers decide too, but only for an inode that has
/// no handle itself.
pub proof fn law_find<F>(t: InodeTable<F>, ids: InodeAltKey, handle: Option<InodeAltKey>)
    ensures
        handle matches Some(h) ==> (t.alt.contains_key(h) ==> t.find(ids, handle) == Some(
            t.alt[h],
        )),
        handle is None && t.alt.contains_key(ids) ==> t.find(ids, handle) == Some(t.alt[ids]),
        t.alt.contains_key(ids) && (handle matches Some(h) ==> !t.alt.contains_key(h)) ==> match
        t.main[t.alt[ids]].file_or_handle {
            FileOrHandle::File(_) => t.find(ids, handle) == Some(t.alt[ids]),
            FileOrHandle::Handle(_) => handle is Some ==> t.find(ids, handle) is None,
        },
        !t.alt.contains_key(ids) && (handle matches Some(h) ==> !t.alt.contains_key(h))
            ==> t.find(ids, handle) is None,
{
}

/// The inodes that the client knows of.
#[verifier::reject_recursive_types(F)]
pub struct InodeMap<F> {
    inodes: MultikeyBTreeMap<InodeData<F>>,
}

impl<F> View for InodeMap<F> {
    type V = InodeTable<F>;

    closed spec fn view(&self) -> InodeTable<F> {
        self.inodes@
    }
}

impl<F> InodeMap<F> {
    /// Every key stands for an inode that is there.
    pub closed spec fn wf(&self) -> bool {
        self.inodes.wf()
    }

    /// No inode.
    pub fn new() -> (r: Self)
        ensures
            r.wf(),
            r@ == InodeTable::<F>::empty(),
            r@.main == Map::<Inode, InodeData<F>>::empty(),
            r@.alt == Map::<InodeAltKey, Inode>::empty(),
    {
        InodeMap { inodes: MultikeyBTreeMap::new() }
    }

    /// What `wf` means for the contents.
    pub proof fn lemma_wf_view(&self)
        requires
            self.wf(),
        ensures
            self@.wf(),
    {
        self.inodes.lemma_wf_view();
    }

    /// Drops every inode.
    pub fn clear(&mut self)
        ensures
            final(self).wf(),
            final(self)@ == InodeTable::<F>::empty(),
            final(self)@.main == Map::<Inode, InodeData<F>>::empty(),
            final(self)@.alt == Map::<InodeAltKey, Inode>::empty(),
    {
        self.inodes.clear();
    }

    /// What is known of `inode`.
    pub fn get(&self, inode: Inode) -> (r: Result<&InodeData<F>, FsError>)
        ensures
            match r {
                Ok(data) => self@.main.contains_key(inode) && *data == self@.main[inode],
                Err(e) => !self@.main.contains_key(inode) && e == FsError::Os(EBADF),
            },
    {
        match self.inodes.get(&inode) {
            Some(data) => Ok(data),
            None => Err(ebadf()),
        }
    }

    /// What is known of the inode that the keys of a file stand for.
    pub fn get_alt(
        &self,
        ids_altkey: &InodeAltKey,
        handle_altkey: Option<&InodeAltKey>,
    ) -> (r: Option<&InodeData<F>>)
        requires
            self.wf(),
        ensures
            ({
                let handle = match handle_altkey {
                    Some(h) => Some(*h),
                    None => None,
                };
                match r {
                    Some(data) => self@.find(*ids_altkey, handle) is Some && *data
                        == self@.main[self@.find(*ids_altkey, handle)->0],
                    None => self@.find(*ids_altkey, handle) is None,
                }
            }),
    {
        if let Some(altkey) = handle_altkey {
            if let Some(data) = self.inodes.get_alt(altkey) {
                return Some(data);
            }
        }
        match self.inodes.get_alt(ids_altkey) {
            Some(data) => {
                if handle_altkey.is_none() || data.file_or_handle.handle().is_none() {
                    Some(data)
                } else {
                    None
                }
            },
            None => None,
        }
    }

    /// The map itself, to be changed.
    pub fn get_map_mut(&mut self) -> (r: &mut MultikeyBTreeMap<InodeData<F>>)
        requires
            old(self).wf(),
        ensures
            r.wf(),
            r@ == old(self)@,
            final(self)@ == final(r)@,
            final(r).wf() ==> final(self).wf(),
    {
        &mut self.inodes
    }

    /// Adds an inode, with the keys by which it is to be found again.
    pub fn insert(
        &mut self,
        inode: Inode,
        ids_altkey: InodeAltKey,
        handle_altkey: Option<InodeAltKey>,
        data: InodeData<F>,
    )
        requires
            old(self).wf(),
        ensures
            final(self).wf(),
            final(self)@ == old(self)@.with_inode(inode, ids_altkey, handle_altkey, data),
            final(self)@.main == old(self)@.main.insert(inode, data),
            final(self)@.alt.contains_key(ids_altkey),
            final(self)@.alt[ids_altkey] == inode,
            handle_altkey matches Some(h) ==> final(self)@.alt.contains_key(h)
                && final(self)@.alt[h] == inode,
            forall|k: InodeAltKey|
                k != ids_altkey && handle_altkey != Some(k) ==> (#[trigger]
                final(self)@.alt.contains_key(k) <==> old(self)@.alt.contains_key(k)
                    && old(self)@.alt[k] != inode),
            forall|k: InodeAltKey|
                k != ids_altkey && handle_altkey != Some(k) && #[trigger]
                final(self)@.alt.contains_key(k) ==> final(self)@.alt[k] == old(self)@.alt[k],
    {
        self.inodes.insert(inode, data);
        self.inodes.insert_alt(ids_altkey, inode);
        if let Some(altkey) = handle_altkey {
            self.inodes.insert_alt(altkey, inode);
        }
    }
}

} // verus!
