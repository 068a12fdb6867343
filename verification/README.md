# passthrough

The bookkeeping of a FUSE passthrough file system, verified with Verus.

A passthrough file system mirrors an existing hierarchy by handing every request to the file
system underneath. The library decides what is left to decide: which inode number stands for
which file and for how long, which open handle belongs to which inode, and with which arguments
the kernel is called.

- `src/abi.rs`: numbers shared with the kernel and the client
- `src/altkey.rs`, `src/multikey.rs`, `src/inode.rs`: the inodes and the keys that find them
- `src/handle.rs`: open files
- `src/syscall.rs`, `src/text.rs`, `src/error.rs`: arguments and replies of system calls
- `src/locate.rs`: getting hold of a file, by a handle or by opening it
- `src/fs.rs`: the state of the file system, lookups and forgetting
- `src/config.rs`: options
- `src/laws.rs`: what holds of the file system as a whole
- `app/`: the system calls

A lookup is a sequence of steps. Each step is atomic; other requests may run between two steps.
