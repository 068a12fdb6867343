//! The files and directories that the client has open.
use crate::abi::{Handle, Inode, EBADF};
use crate::error::{ebadf, FsError};
use std::collections::BTreeMap;
use vstd::prelude::*;

verus! {

/// An open file or directory.
#[derive(Debug)]
pub struct HandleData<F> {
    /// The inode that was opened.
    pub inode: Inode,
    /// The open file.
    pub file: F,
}

impl<F> HandleData<F> {
    pub fn new(inode: Inode, file: F) -> (r: Self)
        ensures
            r == (HandleData { inode, file }),
    {
        HandleData { inode, file }
    }
}

/// Whether `handle` is open and belongs to `inode`.
pub open spec fn is_open<F>(handles: Map<Handle, HandleData<F>>, handle: Handle, inode: Inode) -> bool {
    handles.contains_key(handle) && handles[handle].inode == inode
}

/// What is left of the open files once `handle` is closed for `inode`.
pub open spec fn released<F>(
    handles: Map<Handle, HandleData<F>>,
    handle: Handle,
    inode: Inode,
) -> Map<Handle, HandleData<F>> {
    if is_open(handles, handle, inode) {
        handles.remove(handle)
    } else {
        handles
    }
}

/// Closing a file fails unless it is open and belongs to the inode.
pub open spec fn release_outcome<F>(
    handles: Map<Handle, HandleData<F>>,
    handle: Handle,
    inode: Inode,
) -> Result<(), FsError> {
    if is_open(handles, handle, inode) {
        Ok(())
    } else {
        Err(FsError::Os(EBADF))
    }
}

/// A file is closed exactly if it is open and belongs to the inode; then it is gone, and else
/// nothing is. No other file is closed or becomes another one.
pub proof fn law_release<F>(
    handles: Map<Handle, HandleData<F>>,
    handle: Handle,
    inode: Inode,
    other: Handle,
)
    ensures
        ({
            let left = released(handles, handle, inode);
            let outcome = release_outcome(handles, handle, inode);
            &&& outcome is Ok <==> handles.contains_key(handle) && handles[handle].inode == inode
            &&& outcome matches Err(e) ==> e == FsError::Os(EBADF) && left == handles
            &&& outcome is Ok ==> !left.contains_key(handle)
            &&& other != handle ==> (left.contains_key(other) <==> handles.contains_key(other))
            &&& left.contains_key(other) ==> left[other] == handles[other]
        }),
{
}

/// The files and directories that the client has open, by their numbers.
#[verifier::reject_recursive_types(F)]
pub struct HandleMap<F> {
    handles: BTreeMap<Handle, HandleData<F>>,
}

impl<F> View for HandleMap<F> {
    type V = Map<Handle, HandleData<F>>;

    closed spec fn view(&self) -> Map<Handle, HandleData<F>> {
        self.handles@
    }
}

impl<F> HandleMap<F> {
    /// Nothing is open.
    pub fn new() -> (r: Self)
        ensures
            r@ == Map::<Handle, HandleData<F>>::empty(),
    {
        HandleMap { handles: BTreeMap::new() }
    }

    /// Closes everything.
    pub fn clear(&mut self)
        ensures
            final(self)@ == Map::<Handle, HandleData<F>>::empty(),
    {
        self.handles.clear();
    }

    /// Records an open file under `handle`.
    pub fn insert(&mut self, handle: Handle, data: HandleData<F>)
        ensures
            final(self)@ == old(self)@.insert(handle, data),
    {
        self.handles.insert(handle, data);
    }

    /// Closes `handle`, if it belongs to `inode`. The file itself is closed when it is dropped.
    pub fn release(&mut self, handle: Handle, inode: Inode) -> (r: Result<(), FsError>)
        ensures
            final(self)@ == released(old(self)@, handle, inode),
            r == release_outcome(old(self)@, handle, inode),
            r is Ok <==> old(self)@.contains_key(handle) && old(self)@[handle].inode == inode,
            r matches Err(e) ==> e == FsError::Os(EBADF),
            r is Ok ==> final(self)@ == old(self)@.remove(handle),
            r is Err ==> final(self)@ == old(self)@,
    {
        let owned = match self.handles.get(&handle) {
            Some(data) => data.inode == inode,
            None => false,
        };
        if owned {
            self.handles.remove(&handle);
            return Ok(());
        }
        Err(ebadf())
    }

    /// The open file `handle`, if it belongs to `inode`.
    pub fn get(&self, handle: Handle, inode: Inode) -> (r: Result<&HandleData<F>, FsError>)
        ensures
            match r {
                Ok(data) => is_open(self@, handle, inode) && *data == self@[handle],
                Err(e) => !is_open(self@, handle, inode) && e == FsError::Os(EBADF),
            },
            match r {
                Ok(data) => self@.contains_key(handle) && *data == self@[handle] && data.inode
                    == inode,
                Err(e) => e == FsError::Os(EBADF) && (self@.contains_key(handle)
                    ==> self@[handle].inode != inode),
            },
    {
        match self.handles.get(&handle) {
            Some(data) => {
                if data.inode == inode {
                    Ok(data)
                } else {
                    Err(ebadf())
                }
            },
            None => Err(ebadf()),
        }
    }
}

} // verus!
