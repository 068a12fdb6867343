//! The bookkeeping of a FUSE passthrough file system, verified.
//!
//! A passthrough file system mirrors an existing hierarchy: every request is handed to the
//! file system underneath. What it has to decide itself is which inode number stands for which
//! file, how long that number stays alive, which open handle belongs to which inode, and with
//! which arguments the kernel is called. This crate holds those decisions; the system calls are
//! left to the caller.
pub mod abi;
pub mod altkey;
pub mod config;
pub mod effects;
pub mod error;
pub mod fs;
pub mod handle;
pub mod inode;
pub mod laws;
pub mod locate;
pub mod multikey;
pub mod syscall;
pub mod text;

