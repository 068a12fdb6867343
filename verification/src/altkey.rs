//! The keys by which a file is recognised when it is looked up again.
use vstd::prelude::*;

verus! {

/// The opaque bytes of a file handle: 128 of them, as eight words.
pub type HandleWords = (u128, u128, u128, u128, u128, u128, u128, u128);

/// A kernel file handle, which names a file on a mount without holding it open.
#[derive(Debug, Clone, Copy, PartialEq, Eq)]
pub struct FileHandle {
    /// The mount that the file lies on.
    pub mnt_id: u64,
    /// How many of the opaque bytes are in use.
    pub handle_bytes: u32,
    /// The type of the handle, as the file system underneath gives it.
    pub handle_type: i32,
    /// The opaque bytes.
    pub f_handle: HandleWords,
}

/// What the file system reports of a file.
#[derive(Debug, Clone, Copy, PartialEq, Eq, Structural)]
pub struct Stat {
    pub st_dev: u64,
    pub st_ino: u64,
    pub st_nlink: u64,
    pub st_mode: u32,
    pub st_uid: u32,
    pub st_gid: u32,
    pub st_rdev: u64,
    pub st_size: i64,
    pub st_blksize: i64,
    pub st_blocks: i64,
    pub st_atime: i64,
    pub st_atime_nsec: i64,
    pub st_mtime: i64,
    pub st_mtime_nsec: i64,
    pub st_ctime: i64,
    pub st_ctime_nsec: i64,
}

/// A key by which an inode is found other than its number.
#[derive(Debug, Clone, Copy, PartialEq, Eq)]
pub enum InodeAltKey {
    /// The numbers that the file system underneath gives the file. They can be given to another
    /// file once the first is unlinked.
    Ids { ino: u64, dev: u64 },
    /// The handle of the file.
    Handle(FileHandle),
}

/// A key as a tuple of integers, whose order the standard library defines.
pub(crate) type AltTuple = (u8, u64, u64, u32, i32, HandleWords);

impl InodeAltKey {
    /// The key made of the numbers in `st`.
    pub open spec fn ids_of(st: Stat) -> InodeAltKey {
        InodeAltKey::Ids { ino: st.st_ino, dev: st.st_dev }
    }

    /// The key made of the numbers in `st`.
    pub fn ids_from_stat(st: &Stat) -> (r: InodeAltKey)
        ensures
            r == InodeAltKey::ids_of(*st),
            r == (InodeAltKey::Ids { ino: st.st_ino, dev: st.st_dev }),
    {
        InodeAltKey::Ids { ino: st.st_ino, dev: st.st_dev }
    }

    /// Files have the same numbers exactly if both the inode number and the device are the same,
    /// and the key holds the one and the other whole.
    pub proof fn law_ids_tell_apart(a: Stat, b: Stat)
        ensures
            InodeAltKey::ids_of(a) == InodeAltKey::ids_of(b) <==> a.st_ino == b.st_ino && a.st_dev
                == b.st_dev,
            InodeAltKey::ids_of(a) matches InodeAltKey::Ids { ino, dev } && ino == a.st_ino && dev
                == a.st_dev,
    {
    }

    pub(crate) open spec fn tuple_spec(self) -> AltTuple {
        match self {
            InodeAltKey::Ids { ino, dev } => (
                0u8,
                ino,
                dev,
                0u32,
                0i32,
                (0u128, 0u128, 0u128, 0u128, 0u128, 0u128, 0u128, 0u128),
            ),
            InodeAltKey::Handle(h) => (
                1u8,
                h.mnt_id,
                0u64,
                h.handle_bytes,
                h.handle_type,
                h.f_handle,
            ),
        }
    }

    pub(crate) fn tuple(&self) -> (r: AltTuple)
        ensures
            r == self.tuple_spec(),
    {
        match *self {
            InodeAltKey::Ids { ino, dev } => (
                0u8,
                ino,
                dev,
                0u32,
                0i32,
                (0u128, 0u128, 0u128, 0u128, 0u128, 0u128, 0u128, 0u128),
            ),
            InodeAltKey::Handle(h) => (
                1u8,
                h.mnt_id,
                0u64,
                h.handle_bytes,
                h.handle_type,
                h.f_handle,
            ),
        }
    }

    /// Different keys are different tuples.
    pub(crate) proof fn lemma_tuple_injective(a: InodeAltKey, b: InodeAltKey)
        ensures
            a.tuple_spec() == b.tuple_spec() <==> a == b,
    {
    }
}

} // verus!
