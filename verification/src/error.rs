//! What can go wrong with a request.
use crate::abi::{libc_ebadf, EBADF, VFS_MAX_INO};
use crate::text::{append_decimal, decimal};
use vstd::prelude::*;
use vstd::string::*;

verus! {

/// Why a request failed.
#[derive(Debug, Clone, Copy, PartialEq, Eq, Structural)]
pub enum FsError {
    /// An error number, of the kernel or in its manner.
    Os(i32),
    /// There is no inode number left to hand out.
    MaxInode,
}

impl FsError {
    /// The words for [`FsError::MaxInode`].
    pub open spec fn max_inode_text() -> Seq<char> {
        "max inode number reached: "@ + decimal(VFS_MAX_INO as nat)
    }

    /// The words for an error that has no error number.
    pub fn message(&self) -> (r: Option<String>)
        ensures
            match *self {
                FsError::Os(_) => r is None,
                FsError::MaxInode => r is Some && r->0@ == FsError::max_inode_text(),
            },
            r matches Some(text) ==> text@ == "max inode number reached: 72057594037927935"@,
    {
        match self {
            FsError::Os(_) => None,
            FsError::MaxInode => {
                let mut s = "max inode number reached: ".to_string();
                append_decimal(&mut s, VFS_MAX_INO);
                proof {
                    lemma_max_inode_text();
                }
                Some(s)
            },
        }
    }
}

/// The words for [`FsError::MaxInode`], written out.
proof fn lemma_max_inode_text()
    ensures
        FsError::max_inode_text() == "max inode number reached: 72057594037927935"@,
{
    reveal_strlit("max inode number reached: ");
    reveal_strlit("max inode number reached: 72057594037927935");
    reveal_with_fuel(decimal, 17);
    assert(FsError::max_inode_text() =~= "max inode number reached: 72057594037927935"@);
}

/// The error for a number that stands for nothing.
pub fn ebadf() -> (r: FsError)
    ensures
        r == FsError::Os(EBADF),
{
    FsError::Os(libc_ebadf())
}

} // verus!
