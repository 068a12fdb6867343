//! Getting hold of a file by its path: by a handle where that is wanted and can be had, else by
//! opening it. In either case the file is then asked what it is.
use crate::abi::OpenFlags;
use crate::altkey::{FileHandle, Stat};
use crate::error::FsError;
use crate::inode::FileOrHandle;
use crate::syscall::{open_file_args, open_file_spec, OpenArgs};
use vstd::prelude::*;

verus! {

/// A file that was got hold of, and what it is.
#[derive(Debug, PartialEq, Eq)]
pub struct Located<F> {
    pub file_or_handle: FileOrHandle<F>,
    pub st: Stat,
}

/// Where getting hold of a file stands, and so what is to be done next.
#[derive(Debug, PartialEq, Eq)]
pub enum Locate<F> {
    /// Ask for a handle for the path.
    MakeHandle,
    /// Open the path.
    Open { args: OpenArgs },
    /// Ask what the file is that was just opened.
    StatFile { file: F },
    /// Ask what the file at the path is, for which there is this handle.
    StatPath { handle: FileHandle },
    /// It is there.
    Done { located: Located<F> },
    /// It cannot be had.
    Failed { error: FsError },
}

/// What became of the last thing that was to be done.
#[derive(Debug, PartialEq, Eq)]
pub enum LocateEvent<F> {
    /// The reply to asking for a handle.
    Handle(Result<FileHandle, FsError>),
    /// The reply to opening the path.
    Opened(Result<F, FsError>),
    /// The reply to asking what the file is.
    Stat(Result<Stat, FsError>),
}

/// Every reply that could be asked for while a file is located.
#[verifier::reject_recursive_types(F)]
pub struct Replies<F> {
    /// To asking for a handle.
    pub handle: Result<FileHandle, FsError>,
    /// To opening the path.
    pub opened: Result<F, FsError>,
    /// To asking what the opened file is.
    pub stat_file: Result<Stat, FsError>,
    /// To asking what the file at the path is.
    pub stat_path: Result<Stat, FsError>,
}

impl<F> Replies<F> {
    /// What has to come out for these replies. That no handle can be had is no failure: having
    /// one is optional.
    pub open spec fn outcome(self, use_handles: bool) -> Result<Located<F>, FsError> {
        if use_handles && self.handle is Ok {
            match self.stat_path {
                Ok(st) => Ok(
                    Located { file_or_handle: FileOrHandle::Handle(self.handle->Ok_0), st },
                ),
                Err(e) => Err(e),
            }
        } else {
            match (self.opened, self.stat_file) {
                (Err(e), _) => Err(e),
                (Ok(f), Err(e)) => Err(e),
                (Ok(f), Ok(st)) => Ok(Located { file_or_handle: FileOrHandle::File(f), st }),
            }
        }
    }

    /// The reply that is due where locating stands at `at`.
    pub open spec fn reply(self, at: Locate<F>) -> Option<LocateEvent<F>> {
        match at {
            Locate::MakeHandle => Some(LocateEvent::Handle(self.handle)),
            Locate::Open { .. } => Some(LocateEvent::Opened(self.opened)),
            Locate::StatFile { .. } => Some(LocateEvent::Stat(self.stat_file)),
            Locate::StatPath { .. } => Some(LocateEvent::Stat(self.stat_path)),
            _ => None,
        }
    }
}

impl<F> Locate<F> {
    /// Opening the path, as a place in the tree.
    pub open spec fn open_path(host: OpenFlags) -> Self {
        Locate::Open { args: open_file_spec(host, host.place_spec(), 0) }
    }

    /// The start: a handle is asked for where handles are used.
    pub open spec fn first(host: OpenFlags, use_handles: bool) -> Self {
        if use_handles {
            Locate::MakeHandle
        } else {
            Self::open_path(host)
        }
    }

    /// Where locating stands after `event`. An event that is not the reply to what was to be
    /// done changes nothing.
    pub open spec fn after(self, host: OpenFlags, event: LocateEvent<F>) -> Self {
        match (self, event) {
            (Locate::MakeHandle, LocateEvent::Handle(Ok(handle))) => Locate::StatPath { handle },
            (Locate::MakeHandle, LocateEvent::Handle(Err(_))) => Self::open_path(host),
            (Locate::Open { .. }, LocateEvent::Opened(Ok(file))) => Locate::StatFile { file },
            (Locate::Open { .. }, LocateEvent::Opened(Err(error))) => Locate::Failed { error },
            (Locate::StatFile { file }, LocateEvent::Stat(Ok(st))) => Locate::Done {
                located: Located { file_or_handle: FileOrHandle::File(file), st },
            },
            (Locate::StatPath { handle }, LocateEvent::Stat(Ok(st))) => Locate::Done {
                located: Located { file_or_handle: FileOrHandle::Handle(handle), st },
            },
            (Locate::StatFile { .. }, LocateEvent::Stat(Err(error))) => Locate::Failed { error },
            (Locate::StatPath { .. }, LocateEvent::Stat(Err(error))) => Locate::Failed { error },
            _ => self,
        }
    }

    /// Where locating stands after `n` replies.
    pub open spec fn run(self, host: OpenFlags, replies: Replies<F>, n: nat) -> Self
        decreases n,
    {
        if n == 0 {
            self
        } else {
            match replies.reply(self) {
                Some(event) => self.after(host, event).run(host, replies, (n - 1) as nat),
                None => self,
            }
        }
    }

    /// Starts to locate a file.
    pub fn start(host: &OpenFlags, use_handles: bool) -> (r: Self)
        ensures
            r == Self::first(*host, use_handles),
    {
        if use_handles {
            Locate::MakeHandle
        } else {
            Locate::Open { args: open_file_args(host, host.place(), 0) }
        }
    }

    /// Takes the reply to what was to be done.
    pub fn next(self, host: &OpenFlags, event: LocateEvent<F>) -> (r: Self)
        ensures
            r == self.after(*host, event),
    {
        match (self, event) {
            (Locate::MakeHandle, LocateEvent::Handle(Ok(handle))) => Locate::StatPath { handle },
            (Locate::MakeHandle, LocateEvent::Handle(Err(_))) => Locate::Open {
                args: open_file_args(host, host.place(), 0),
            },
            (Locate::Open { .. }, LocateEvent::Opened(Ok(file))) => Locate::StatFile { file },
            (Locate::Open { .. }, LocateEvent::Opened(Err(error))) => Locate::Failed { error },
            (Locate::StatFile { file }, LocateEvent::Stat(Ok(st))) => Locate::Done {
                located: Located { file_or_handle: FileOrHandle::File(file), st },
            },
            (Locate::StatPath { handle }, LocateEvent::Stat(Ok(st))) => Locate::Done {
                located: Located { file_or_handle: FileOrHandle::Handle(handle), st },
            },
            (Locate::StatFile { .. }, LocateEvent::Stat(Err(error))) => Locate::Failed { error },
            (Locate::StatPath { .. }, LocateEvent::Stat(Err(error))) => Locate::Failed { error },
            (at, _) => at,
        }
    }
}

/// Three replies are enough to locate a file, and what comes out is what the replies ask for.
pub proof fn law_locate<F>(host: OpenFlags, use_handles: bool, replies: Replies<F>)
    ensures
        Locate::first(host, use_handles).run(host, replies, 3) == (match replies.outcome(
            use_handles,
        ) {
            Ok(located) => Locate::Done { located },
            Err(error) => Locate::Failed { error },
        }),
{
    reveal_with_fuel(Locate::run, 4);
}

/// What a file is located as, and why it is not, reply by reply. With file handles in use, a handle
/// that can be had is what the file is reached by, and the file at the path is asked what it is.
/// Otherwise, also where no handle can be had, the file is opened and that one is asked. The first
/// of these that fails is why the file cannot be had.
pub proof fn law_located<F>(
    host: OpenFlags,
    use_handles: bool,
    replies: Replies<F>,
    h: FileHandle,
    f: F,
    st: Stat,
    e: FsError,
)
    ensures
        ({
            let end = Locate::first(host, use_handles).run(host, replies, 3);
            let by_handle = use_handles && replies.handle is Ok;
            &&& by_handle && replies.handle == Ok::<FileHandle, FsError>(h) && replies.stat_path
                == Ok::<Stat, FsError>(st) ==> end == (Locate::<F>::Done {
                located: Located { file_or_handle: FileOrHandle::Handle(h), st },
            })
            &&& by_handle && replies.stat_path == Err::<Stat, FsError>(e) ==> end == (Locate::<
                F,
            >::Failed { error: e })
            &&& !by_handle && replies.opened == Ok::<F, FsError>(f) && replies.stat_file == Ok::<
                Stat,
                FsError,
            >(st) ==> end == (Locate::<F>::Done {
                located: Located { file_or_handle: FileOrHandle::File(f), st },
            })
            &&& !by_handle && replies.opened == Err::<F, FsError>(e) ==> end == (Locate::<
                F,
            >::Failed { error: e })
            &&& !by_handle && replies.opened is Ok && replies.stat_file == Err::<Stat, FsError>(e)
                ==> end == (Locate::<F>::Failed { error: e })
        }),
{
    reveal_with_fuel(Locate::run, 4);
}

/// The start of locating a file: a handle is asked for exactly if handles are used. Otherwise the
/// path is opened as a place in the tree.
pub proof fn law_locate_starts<F>(host: OpenFlags, use_handles: bool)
    requires
        host.wf(),
    ensures
        match Locate::<F>::first(host, use_handles) {
            Locate::MakeHandle => use_handles,
            Locate::Open { args } => !use_handles && args.flags == host.path | host.nofollow
                | host.cloexec && args.mode is None,
            _ => false,
        },
{
    lemma_open_path::<F>(host);
}

/// What locating a file comes to by a reply, and from where. A file is located with the file or
/// handle that is there and with what the reply says it is. Locating fails only with an error that
/// the reply gives, and never for want of a handle. A file is opened for want of a handle, and
/// always as a place in the tree. The reply that is due brings it on, and any other changes
/// nothing.
pub proof fn law_locate_step<F>(at: Locate<F>, host: OpenFlags, event: LocateEvent<F>)
    requires
        host.wf(),
    ensures
        ({
            let due = match event {
                LocateEvent::Handle(_) => at is MakeHandle,
                LocateEvent::Opened(_) => at is Open,
                LocateEvent::Stat(_) => at is StatFile || at is StatPath,
            };
            let next = at.after(host, event);
            &&& !due ==> next == at
            &&& due ==> match next {
                Locate::Done { located } => event == LocateEvent::<F>::Stat(Ok(located.st)) && (at
                    == (Locate::StatFile { file: located.file_or_handle->File_0 })
                    && located.file_or_handle is File || at == (Locate::<F>::StatPath {
                    handle: located.file_or_handle->Handle_0,
                }) && located.file_or_handle is Handle),
                Locate::Failed { error } => event == LocateEvent::<F>::Opened(Err(error)) || event
                    == LocateEvent::<F>::Stat(Err(error)),
                Locate::StatFile { file } => event == LocateEvent::Opened(Ok(file)),
                Locate::StatPath { handle } => event == LocateEvent::<F>::Handle(Ok(handle)),
                Locate::Open { args } => event is Handle && event->Handle_0 is Err && args.flags
                    == host.path | host.nofollow | host.cloexec && args.mode is None,
                Locate::MakeHandle => false,
            }
        }),
{
    lemma_open_path::<F>(host);
}

proof fn lemma_open_path<F>(host: OpenFlags)
    requires
        host.wf(),
    ensures
        Locate::<F>::open_path(host) matches Locate::Open { args } && args.flags == host.path
            | host.nofollow | host.cloexec && args.mode is None,
{
    let p = host.path;
    let n = host.nofollow;
    let c = host.cloexec;
    let k = host.creat;
    assert((p | n | c) & k == 0) by (bit_vector)
        requires
            p & k == 0,
            n & k == 0,
            c & k == 0,
    ;
}

/// Without file handles, no inode is ever reached by one.
pub proof fn law_no_handle_without_handles<F>(host: OpenFlags, replies: Replies<F>, n: nat)
    ensures
        Locate::first(host, false).run(host, replies, n) matches Locate::Done { located }
            ==> located.file_or_handle is File && located.file_or_handle.handle_key() is None,
{
    lemma_run_keeps_file(Locate::first(host, false), host, replies, n);
}

/// Once locating goes by an opened file, it stays so.
proof fn lemma_run_keeps_file<F>(at: Locate<F>, host: OpenFlags, replies: Replies<F>, n: nat)
    requires
        !(at is MakeHandle),
        !(at is StatPath),
        at matches Locate::Done { located } ==> located.file_or_handle is File,
    ensures
        at.run(host, replies, n) matches Locate::Done { located }
            ==> located.file_or_handle is File,
    decreases n,
{
    if n > 0 {
        if let Some(event) = replies.reply(at) {
            lemma_run_keeps_file(at.after(host, event), host, replies, (n - 1) as nat);
        }
    }
}

} // verus!
