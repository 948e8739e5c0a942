//! The engine's view of the host: files by name, and the clocks.

use crate::entropy::{as_signed, little_endian, random_number};
use crate::file::{DekoponFile, FileView, LockLevel};
use crate::storage::{
    answered, call_error, call_result, map_err, Durability, FileStat, LimboError, OpenOptions,
    StorageError,
};
use crate::text::{ends_with, has_suffix, suffix_is_what_follows};
use crate::trace::{bump, bump_open, HostCall, Trace};
use vstd::prelude::*;
use vstd::string::StringExecFns;

verus! {

/// The engine's view of the host.
#[derive(Debug)]
pub struct DekoponIo {
    base_ns: u64,
}

/// What a [`DekoponIo`] is.
pub struct IoView {
    /// The reading of the monotonic clock from which time is counted.
    pub base_ns: int,
}

impl View for DekoponIo {
    type V = IoView;

    closed spec fn view(&self) -> IoView {
        IoView { base_ns: self.base_ns as int }
    }
}

/// How the engine wants a file opened.
#[derive(Clone, Copy, Debug, PartialEq, Eq, Structural)]
pub struct OpenFlags {
    pub create: bool,
    pub read_only: bool,
    pub no_lock: bool,
}

/// What to ask of the host to open a file.
#[derive(Clone, Copy, Debug, PartialEq, Eq, Structural)]
pub struct OpenRequest {
    pub options: OpenOptions,
    /// Whether the file takes no locks once it is open.
    pub no_lock: bool,
}

/// A reading of the wall clock.
#[derive(Clone, Copy, Debug, PartialEq, Eq, Structural)]
pub struct WallClockInstant {
    pub secs: i64,
    pub micros: u32,
}

/// What tells files apart.
#[derive(Clone, Copy, Debug, PartialEq, Eq, Structural)]
pub struct FileId {
    pub dev: u64,
    pub ino: u64,
}

/// What a clock shows: zero where the host refuses to tell.
pub open spec fn shown(now: Result<u64, StorageError>) -> int {
    match now {
        Ok(reading) => reading as int,
        Err(_) => 0,
    }
}

/// The time from `base` to `now`, and zero where `now` is the earlier.
pub open spec fn elapsed(base: int, now: int) -> int {
    if now >= base {
        now - base
    } else {
        0
    }
}

/// The wall clock at `ms` milliseconds: whole seconds, and the rest in microseconds.
pub open spec fn wall_clock(ms: int) -> (int, int) {
    (ms / 1000, (ms % 1000) * 1000)
}

/// Whether `path` names a shared-memory sidecar of the write-ahead log.
pub open spec fn is_shared_memory(path: Seq<char>) -> bool {
    has_suffix(path, "-shm"@) || has_suffix(path, "-tshm"@)
}

/// What to ask of the host to open a file with these flags.
pub open spec fn open_request(flags: OpenFlags) -> OpenRequest {
    OpenRequest {
        options: OpenOptions {
            read: true,
            write: !flags.read_only,
            create: flags.create && !flags.read_only,
            create_new: false,
            delete_on_close: false,
        },
        no_lock: flags.no_lock || flags.read_only,
    }
}

/// The message that refuses to open a shared-memory sidecar.
pub open spec fn shared_memory_message(path: Seq<char>) -> Seq<char> {
    "shared-memory WAL is not available on this target: "@ + path
}

/// The inode number that `turso_core::io::FileId::from_path_hash` gives a path.
pub uninterp spec fn path_hash(path: Seq<char>) -> u64;

/// The identity of a file: what the host tells, and `hashed` where it tells nothing.
pub open spec fn identity(
    reply: Result<Option<FileStat>, StorageError>,
    hashed: FileId,
) -> FileId {
    match reply {
        Ok(Some(stat)) => FileId { dev: 0, ino: stat.identity },
        _ => hashed,
    }
}

/// Counts a reading of the monotonic clock and takes it.
pub fn monotonic_time_ns(now: Result<u64, StorageError>, trace: &mut Trace) -> (reading: u64)
    requires
        old(trace)@.counted(HostCall::Monotonic).fits(),
    ensures
        final(trace)@ == old(trace)@.counted(HostCall::Monotonic),
        reading == shown(now),
{
    bump(trace, HostCall::Monotonic);
    match now {
        Ok(reading) => reading,
        Err(_) => 0,
    }
}

/// Counts a reading of the wall clock and takes it.
pub fn wall_time_ms(now: Result<u64, StorageError>, trace: &mut Trace) -> (reading: u64)
    requires
        old(trace)@.counted(HostCall::Wall).fits(),
    ensures
        final(trace)@ == old(trace)@.counted(HostCall::Wall),
        reading == shown(now),
{
    bump(trace, HostCall::Wall);
    match now {
        Ok(reading) => reading,
        Err(_) => 0,
    }
}

/// Calls `turso_core::io::FileId::from_path_hash`: a device number of zero,
/// and an inode number that depends on the path alone.
#[verifier::external_body]
fn from_path_hash(path: &str) -> (id: (u64, u64))
    ensures
        id.0 == 0,
        id.1 == path_hash(path@),
{
    let id = turso_core::io::FileId::from_path_hash(path);
    (id.dev, id.ino)
}

/// The identity of a file: what the host tells, and `hashed` where it tells nothing.
pub fn identify(reply: Result<Option<FileStat>, StorageError>, hashed: FileId) -> (id: FileId)
    ensures
        id == identity(reply, hashed),
{
    match reply {
        Ok(Some(stat)) => FileId { dev: 0, ino: stat.identity },
        _ => hashed,
    }
}

impl DekoponIo {
    /// Starts to count time at `now`.
    pub fn new(now: Result<u64, StorageError>, trace: &mut Trace) -> (io: DekoponIo)
        requires
            old(trace)@.counted(HostCall::Monotonic).fits(),
        ensures
            final(trace)@ == old(trace)@.counted(HostCall::Monotonic),
            io@.base_ns == shown(now),
    {
        DekoponIo { base_ns: monotonic_time_ns(now, trace) }
    }

    /// The nanoseconds since the start, where the monotonic clock shows `now`.
    pub fn current_time_monotonic(&self, now: Result<u64, StorageError>, trace: &mut Trace) -> (ns:
        u128)
        requires
            old(trace)@.counted(HostCall::Monotonic).fits(),
        ensures
            final(trace)@ == old(trace)@.counted(HostCall::Monotonic),
            ns == elapsed(self@.base_ns, shown(now)),
    {
        let now = monotonic_time_ns(now, trace);
        now.saturating_sub(self.base_ns) as u128
    }

    /// The time, where the wall clock shows `now`.
    pub fn current_time_wall_clock(&self, now: Result<u64, StorageError>, trace: &mut Trace) -> (
    instant: WallClockInstant)
        requires
            old(trace)@.counted(HostCall::Wall).fits(),
        ensures
            final(trace)@ == old(trace)@.counted(HostCall::Wall),
            (instant.secs as int, instant.micros as int) == wall_clock(shown(now)),
    {
        let ms = wall_time_ms(now, trace);
        WallClockInstant { secs: (ms / 1000) as i64, micros: ((ms % 1000) * 1000) as u32 }
    }

    /// What to ask of the host to open `path`, with the call counted. A
    /// shared-memory sidecar is refused before the host is asked: nothing
    /// here would maintain it.
    pub fn open_file(&self, path: &str, flags: OpenFlags, trace: &mut Trace) -> (request: Result<
        OpenRequest,
        LimboError,
    >)
        requires
            !is_shared_memory(path@) ==> old(trace)@.opened(path@).fits(),
        ensures
            match request {
                Ok(request) => {
                    &&& !is_shared_memory(path@)
                    &&& request == open_request(flags)
                    &&& final(trace)@ == old(trace)@.opened(path@)
                },
                Err(error) => {
                    &&& is_shared_memory(path@)
                    &&& error matches LimboError::InvalidArgument(message) && message@
                        == shared_memory_message(path@)
                    &&& final(trace)@ == old(trace)@
                },
            },
    {
        if ends_with(path, "-shm") || ends_with(path, "-tshm") {
            let mut message = "shared-memory WAL is not available on this target: ".to_owned();
            message.append(path);
            return Err(LimboError::InvalidArgument(message));
        }
        bump_open(trace, path);
        let read_only = flags.read_only;
        let options = OpenOptions {
            read: true,
            write: !read_only,
            create: !read_only && flags.create,
            create_new: false,
            delete_on_close: false,
        };
        Ok(OpenRequest { options, no_lock: flags.no_lock || read_only })
    }

    /// The file that `request` opened, or why it did not.
    pub fn opened(&self, request: OpenRequest, reply: Result<(), StorageError>) -> (file: Result<
        DekoponFile,
        LimboError,
    >)
        ensures
            match file {
                Ok(file) => reply is Ok && file@ == (FileView {
                    level: LockLevel::Unlocked,
                    no_lock: request.no_lock,
                }),
                Err(error) => reply is Err && error == call_error(reply->Err_0),
            },
    {
        match reply {
            Ok(_) => Ok(DekoponFile::new(request.no_lock)),
            Err(error) => Err(map_err(error)),
        }
    }

    /// How durable a removal has to be.
    pub fn remove_mode(&self) -> (mode: Durability)
        ensures
            mode == Durability::DataAndMetadata,
    {
        Durability::DataAndMetadata
    }

    /// Counts a removal and takes the host's answer to it.
    pub fn remove_file(&self, reply: Result<(), StorageError>, trace: &mut Trace) -> (result:
        Result<(), LimboError>)
        requires
            old(trace)@.counted(HostCall::Remove).fits(),
        ensures
            final(trace)@ == old(trace)@.counted(HostCall::Remove),
            result == call_result(reply),
    {
        bump(trace, HostCall::Remove);
        answered(reply)
    }

    /// Shared memory is never offered to the engine.
    pub fn supports_shared_wal_coordination(&self) -> (supported: bool)
        ensures
            !supported,
    {
        false
    }

    /// Every call completes before it returns, so there is never I/O to wait for.
    pub fn step(&self) -> (result: Result<(), LimboError>)
        ensures
            result == Ok::<(), LimboError>(()),
    {
        Ok(())
    }

    /// The random number that these bytes of entropy stand for.
    pub fn generate_random_number(&self, bytes: [u8; 8]) -> (number: i64)
        ensures
            number == as_signed(little_endian(bytes@)),
    {
        random_number(bytes)
    }

    /// Counts a request for the status of `path` and takes the host's answer:
    /// the identity of the file, from its path where the host tells none.
    pub fn file_id(
        &self,
        path: &str,
        reply: Result<Option<FileStat>, StorageError>,
        trace: &mut Trace,
    ) -> (id: FileId)
        requires
            old(trace)@.counted(HostCall::Stat).fits(),
        ensures
            final(trace)@ == old(trace)@.counted(HostCall::Stat),
            id == identity(reply, FileId { dev: 0, ino: path_hash(path@) }),
    {
        bump(trace, HostCall::Stat);
        let (dev, ino) = from_path_hash(path);
        identify(reply, FileId { dev, ino })
    }
}

/// Time counted from the start does not run backwards while the host's clock
/// does not, and a clock that the host does not tell shows the start.
pub proof fn time_does_not_run_backwards(base: int, earlier: int, later: int)
    requires
        earlier <= later,
    ensures
        0 <= elapsed(base, earlier) <= elapsed(base, later),
        elapsed(base, base) == 0,
        0 <= base ==> elapsed(base, 0) == 0,
{
}

/// A reading of the wall clock loses nothing of the host's: seconds and
/// microseconds make up its milliseconds.
pub proof fn wall_clock_is_exact(ms: int)
    requires
        0 <= ms,
    ensures
        wall_clock(ms).0 * 1_000_000 + wall_clock(ms).1 == ms * 1000,
        0 <= wall_clock(ms).1 < 1_000_000,
{
}

/// A file that is opened only to be read is neither written, created nor
/// locked, and any other is opened for reading and writing.
pub proof fn read_only_stays_read_only(flags: OpenFlags)
    ensures
        open_request(flags).options.read,
        open_request(flags).options.write == !flags.read_only,
        flags.read_only ==> !open_request(flags).options.create && open_request(flags).no_lock,
        !flags.read_only ==> open_request(flags).options.create == flags.create
            && open_request(flags).no_lock == flags.no_lock,
        !open_request(flags).options.create_new && !open_request(flags).options.delete_on_close,
{
}

/// A clock shows what the host tells, and zero where the host refuses. The
/// time since the start, added to the start, is the time; before the start it
/// is zero.
pub proof fn clocks_show_what_the_host_tells(reading: u64, error: StorageError, base: int)
    ensures
        shown(Ok(reading)) == reading,
        shown(Err(error)) == 0,
        reading >= base ==> base + elapsed(base, reading as int) == reading,
        reading <= base ==> elapsed(base, reading as int) == 0,
{
}

/// A path is that of a shared-memory sidecar exactly where it ends in `-shm`
/// or `-tshm`, and the refusal to open it names it.
pub proof fn only_sidecars_are_refused(path: Seq<char>)
    ensures
        is_shared_memory(path) <==> (exists|name: Seq<char>| path == #[trigger] (name + "-shm"@))
            || (exists|name: Seq<char>| path == #[trigger] (name + "-tshm"@)),
        shared_memory_message(path) == "shared-memory WAL is not available on this target: "@
            + path,
{
    suffix_is_what_follows(path, "-shm"@);
    suffix_is_what_follows(path, "-tshm"@);
}

/// A file is known by the number that the host tells for it, on device zero,
/// and by what its path gives where the host has no such file or refuses.
pub proof fn host_tells_files_apart(stat: FileStat, error: StorageError, hashed: FileId)
    ensures
        identity(Ok(Some(stat)), hashed) == (FileId { dev: 0, ino: stat.identity }),
        identity(Ok(None), hashed) == hashed,
        identity(Err(error), hashed) == hashed,
{
}

} // verus!
