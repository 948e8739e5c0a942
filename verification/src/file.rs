//! One durable file: its lock, and its reads and writes.

use crate::storage::{
    answered, call_error, call_result, completion_error, kind_of, map_err, CompletionError,
    Durability, LimboError, StorageError,
};
use crate::trace::{bump, HostCall, Trace, TraceView};
use vstd::prelude::*;

verus! {

/// A rung of the host's lock ladder, from the bottom up.
#[derive(Clone, Copy, Debug, PartialEq, Eq, Structural)]
pub enum LockLevel {
    Unlocked,
    Shared,
    Reserved,
    Pending,
    Exclusive,
}

/// The height of a rung.
pub open spec fn rank(level: LockLevel) -> int {
    match level {
        LockLevel::Unlocked => 0,
        LockLevel::Shared => 1,
        LockLevel::Reserved => 2,
        LockLevel::Pending => 3,
        LockLevel::Exclusive => 4,
    }
}

/// The rung at a height.
pub open spec fn rung(height: int) -> LockLevel {
    if height <= 0 {
        LockLevel::Unlocked
    } else if height == 1 {
        LockLevel::Shared
    } else if height == 2 {
        LockLevel::Reserved
    } else if height == 3 {
        LockLevel::Pending
    } else {
        LockLevel::Exclusive
    }
}

/// The next call to the host on the way to a rung.
#[derive(Clone, Copy, Debug, PartialEq, Eq, Structural)]
pub enum LockStep {
    /// None: the file stands on that rung.
    Done,
    /// Lock at this rung.
    Lock(LockLevel),
    /// Unlock down to this rung.
    Unlock(LockLevel),
}

/// The next call on the way from `level` to `target`: one rung up, or all the
/// way down. The host rejects a promotion that skips a rung.
pub open spec fn step_towards(level: LockLevel, target: LockLevel) -> LockStep {
    if rank(target) < rank(level) {
        LockStep::Unlock(target)
    } else if rank(target) > rank(level) {
        LockStep::Lock(rung(rank(level) + 1))
    } else {
        LockStep::Done
    }
}

/// Whether `step` may follow on `level`: one rung up, or down.
pub open spec fn may_follow(level: LockLevel, step: LockStep) -> bool {
    match step {
        LockStep::Done => true,
        LockStep::Lock(to) => rank(to) == rank(level) + 1,
        LockStep::Unlock(to) => rank(to) < rank(level),
    }
}

/// The rung after the host answered `step` with `reply`.
pub open spec fn level_after(
    level: LockLevel,
    step: LockStep,
    reply: Result<(), StorageError>,
) -> LockLevel {
    match (step, reply) {
        (LockStep::Lock(to), Ok(_)) => to,
        (LockStep::Unlock(to), Ok(_)) => to,
        _ => level,
    }
}

/// What `step` adds to a trace.
pub open spec fn lock_counted(trace: TraceView, step: LockStep) -> TraceView {
    match step {
        LockStep::Done => trace,
        LockStep::Lock(_) => trace.counted(HostCall::Lock),
        LockStep::Unlock(_) => trace.counted(HostCall::Unlock),
    }
}

/// One open file, as far as its lock goes.
#[derive(Debug)]
pub struct DekoponFile {
    level: LockLevel,
    no_lock: bool,
}

/// What a [`DekoponFile`] is.
pub struct FileView {
    pub level: LockLevel,
    pub no_lock: bool,
}

impl View for DekoponFile {
    type V = FileView;

    closed spec fn view(&self) -> FileView {
        FileView { level: self.level, no_lock: self.no_lock }
    }
}

/// How the engine wants a file synced.
#[derive(Clone, Copy, Debug, PartialEq, Eq, Structural)]
pub enum FileSyncType {
    Fsync,
    FullFsync,
}

/// How much has to be made durable for a sync of this kind.
pub open spec fn durability_of(sync_type: FileSyncType) -> Durability {
    match sync_type {
        FileSyncType::Fsync => Durability::DataAndMetadata,
        FileSyncType::FullFsync => Durability::Full,
    }
}

/// The height of a rung.
fn height(level: LockLevel) -> (height: u8)
    ensures
        height == rank(level),
{
    match level {
        LockLevel::Unlocked => 0,
        LockLevel::Shared => 1,
        LockLevel::Reserved => 2,
        LockLevel::Pending => 3,
        LockLevel::Exclusive => 4,
    }
}

/// The rung above `level`, and the top above the top.
fn above(level: LockLevel) -> (next: LockLevel)
    ensures
        next == rung(rank(level) + 1),
{
    match level {
        LockLevel::Unlocked => LockLevel::Shared,
        LockLevel::Shared => LockLevel::Reserved,
        LockLevel::Reserved => LockLevel::Pending,
        LockLevel::Pending => LockLevel::Exclusive,
        LockLevel::Exclusive => LockLevel::Exclusive,
    }
}

/// The smaller of two sizes.
fn at_most(size: usize, limit: usize) -> (least: usize)
    ensures
        least == if size <= limit { size } else { limit },
{
    if size <= limit {
        size
    } else {
        limit
    }
}

/// How much of what the host gave fits a buffer of `want` bytes.
pub open spec fn read_len(bytes: Seq<u8>, want: int) -> int {
    if bytes.len() <= want {
        bytes.len() as int
    } else {
        want
    }
}

/// A buffer of `want` bytes after the host gave `bytes` for it: these bytes,
/// and zeros where there are none.
pub open spec fn zero_filled(bytes: Seq<u8>, want: int) -> Seq<u8> {
    Seq::new(
        want as nat,
        |i: int|
            if i < bytes.len() {
                bytes[i]
            } else {
                0
            },
    )
}

/// The trace after the host answered a read for a buffer of `want` bytes. A
/// read that wants nothing is no call.
pub open spec fn read_counted(
    trace: TraceView,
    reply: Result<Vec<u8>, StorageError>,
    want: int,
) -> TraceView {
    if want == 0 {
        trace
    } else {
        match reply {
            Ok(bytes) => trace.reading().read(read_len(bytes@, want), want),
            Err(_) => trace.reading(),
        }
    }
}

/// What a read for a buffer of `want` bytes comes to where the host answered
/// `reply`: the number of bytes that it gave, and zero where nothing is wanted.
pub open spec fn read_result(reply: Result<Vec<u8>, StorageError>, want: int) -> Result<
    i32,
    CompletionError,
> {
    if want == 0 {
        Ok(0)
    } else {
        match reply {
            Ok(bytes) => Ok(read_len(bytes@, want) as i32),
            Err(error) => Err(CompletionError::IOError(kind_of(error), "durable-files read-at")),
        }
    }
}

impl DekoponFile {
    /// A file that was just opened, which holds no lock.
    pub fn new(no_lock: bool) -> (file: DekoponFile)
        ensures
            file@ == (FileView { level: LockLevel::Unlocked, no_lock }),
    {
        DekoponFile { level: LockLevel::Unlocked, no_lock }
    }

    /// The rung that the file stands on.
    pub fn level(&self) -> (level: LockLevel)
        ensures
            level == self@.level,
    {
        self.level
    }

    /// The next call to the host on the way to `target`.
    pub fn promote_to(&self, target: LockLevel) -> (step: LockStep)
        ensures
            step == step_towards(self@.level, target),
            may_follow(self@.level, step),
    {
        let current = height(self.level);
        let wanted = height(target);
        if wanted < current {
            LockStep::Unlock(target)
        } else if wanted > current {
            LockStep::Lock(above(self.level))
        } else {
            LockStep::Done
        }
    }

    /// Counts the call `step` and takes the host's answer to it.
    pub fn promoted(
        &mut self,
        step: LockStep,
        reply: Result<(), StorageError>,
        trace: &mut Trace,
    ) -> (result: Result<(), LimboError>)
        requires
            may_follow(old(self)@.level, step),
            lock_counted(old(trace)@, step).fits(),
        ensures
            final(trace)@ == lock_counted(old(trace)@, step),
            final(self)@ == (FileView {
                level: level_after(old(self)@.level, step, reply),
                ..old(self)@
            }),
            result == (match (step, reply) {
                (LockStep::Done, _) => Ok::<(), LimboError>(()),
                (_, Ok(_)) => Ok(()),
                (_, Err(error)) => Err(call_error(error)),
            }),
    {
        let to = match step {
            LockStep::Done => return Ok(()),
            LockStep::Lock(to) => {
                bump(trace, HostCall::Lock);
                to
            },
            LockStep::Unlock(to) => {
                bump(trace, HostCall::Unlock);
                to
            },
        };
        match reply {
            Ok(_) => {
                self.level = to;
                Ok(())
            },
            Err(error) => Err(map_err(error)),
        }
    }

    /// The rung that a lock of the file leads to, if the file takes locks.
    pub fn lock_file(&self, exclusive: bool) -> (target: Option<LockLevel>)
        ensures
            target == if self@.no_lock {
                None
            } else if exclusive {
                Some(LockLevel::Exclusive)
            } else {
                Some(LockLevel::Shared)
            },
    {
        if self.no_lock {
            return None;
        }
        if exclusive {
            Some(LockLevel::Exclusive)
        } else {
            Some(LockLevel::Shared)
        }
    }

    /// The rung that an unlock of the file leads to, if there is a lock to give up.
    pub fn unlock_file(&self) -> (target: Option<LockLevel>)
        ensures
            target == if self@.no_lock || self@.level is Unlocked {
                None
            } else {
                Some(LockLevel::Unlocked)
            },
    {
        if self.no_lock || self.level == LockLevel::Unlocked {
            return None;
        }
        Some(LockLevel::Unlocked)
    }

    /// How many bytes to ask the host for to fill a buffer of `want` bytes, and
    /// nothing where there is nothing to fill.
    pub fn read_size(&self, want: usize) -> (size: Option<u32>)
        ensures
            size == if want == 0 {
                None
            } else {
                Some(want as u32)
            },
    {
        if want == 0 {
            None
        } else {
            Some(want as u32)
        }
    }

    /// Counts a read and fills the buffer with what the host gave, and with zeros
    /// where it gave less. The result is the number of bytes that the host gave.
    /// An empty buffer is read at once: the host is not asked, so there is no
    /// call to count, and `reply` is passed over.
    pub fn pread(
        &self,
        reply: Result<Vec<u8>, StorageError>,
        buffer: &mut [u8],
        trace: &mut Trace,
    ) -> (result: Result<i32, CompletionError>)
        requires
            read_counted(old(trace)@, reply, old(buffer)@.len() as int).fits(),
        ensures
            final(trace)@ == read_counted(old(trace)@, reply, old(buffer)@.len() as int),
            result == read_result(reply, old(buffer)@.len() as int),
            final(buffer)@ == (match reply {
                Ok(bytes) => zero_filled(bytes@, old(buffer)@.len() as int),
                Err(_) => old(buffer)@,
            }),
    {
        let want = buffer.len();
        if want == 0 {
            assert(reply matches Ok(bytes) ==> buffer@ == zero_filled(bytes@, 0));
            return Ok(0);
        }
        trace.read_at = trace.read_at + 1;
        match reply {
            Ok(bytes) => {
                let read = at_most(bytes.len(), want);
                trace.read_bytes = trace.read_bytes + read as u64;
                if read < want {
                    trace.short_reads = trace.short_reads + 1;
                    trace.zero_filled_bytes = trace.zero_filled_bytes + (want - read) as u64;
                }
                for at in 0..want
                    invariant
                        want == buffer@.len(),
                        read == read_len(bytes@, want as int),
                        forall|i: int|
                            0 <= i < at ==> buffer@[i] == zero_filled(bytes@, want as int)[i],
                {
                    if at < read {
                        buffer[at] = bytes[at];
                    } else {
                        buffer[at] = 0;
                    }
                }
                assert(buffer@ == zero_filled(bytes@, want as int));
                Ok(read as i32)
            },
            Err(error) => Err(completion_error(error, "durable-files read-at")),
        }
    }

    /// Counts a write of `len` bytes and takes the host's answer to it. The
    /// result is the number of bytes written, which is all of them.
    pub fn pwrite(
        &self,
        len: usize,
        reply: Result<(), StorageError>,
        trace: &mut Trace,
    ) -> (result: Result<i32, CompletionError>)
        requires
            old(trace)@.writing(len as int).fits(),
        ensures
            final(trace)@ == old(trace)@.writing(len as int),
            result == (match reply {
                Ok(_) => Ok(len as i32),
                Err(error) => Err(
                    CompletionError::IOError(kind_of(error), "durable-files write-at"),
                ),
            }),
    {
        trace.write_at = trace.write_at + 1;
        trace.write_bytes = trace.write_bytes + len as u64;
        match reply {
            Ok(_) => Ok(len as i32),
            Err(error) => Err(completion_error(error, "durable-files write-at")),
        }
    }

    /// How much has to be made durable for a sync of this kind.
    pub fn sync_mode(&self, sync_type: FileSyncType) -> (mode: Durability)
        ensures
            mode == durability_of(sync_type),
    {
        match sync_type {
            FileSyncType::Fsync => Durability::DataAndMetadata,
            FileSyncType::FullFsync => Durability::Full,
        }
    }

    /// Counts a sync and takes the host's answer to it.
    pub fn sync(&self, reply: Result<(), StorageError>, trace: &mut Trace) -> (result: Result<
        i32,
        CompletionError,
    >)
        requires
            old(trace)@.counted(HostCall::Sync).fits(),
        ensures
            final(trace)@ == old(trace)@.counted(HostCall::Sync),
            result == (match reply {
                Ok(_) => Ok(0i32),
                Err(error) => Err(CompletionError::IOError(kind_of(error), "durable-files sync")),
            }),
    {
        bump(trace, HostCall::Sync);
        match reply {
            Ok(_) => Ok(0),
            Err(error) => Err(completion_error(error, "durable-files sync")),
        }
    }

    /// Counts a truncation and takes the host's answer to it.
    pub fn truncate(&self, reply: Result<(), StorageError>, trace: &mut Trace) -> (result: Result<
        i32,
        CompletionError,
    >)
        requires
            old(trace)@.counted(HostCall::Truncate).fits(),
        ensures
            final(trace)@ == old(trace)@.counted(HostCall::Truncate),
            result == (match reply {
                Ok(_) => Ok(0i32),
                Err(error) => Err(
                    CompletionError::IOError(kind_of(error), "durable-files truncate"),
                ),
            }),
    {
        bump(trace, HostCall::Truncate);
        match reply {
            Ok(_) => Ok(0),
            Err(error) => Err(completion_error(error, "durable-files truncate")),
        }
    }

    /// Counts a request for the file's size and takes the host's answer to it.
    pub fn size(&self, reply: Result<u64, StorageError>, trace: &mut Trace) -> (result: Result<
        u64,
        LimboError,
    >)
        requires
            old(trace)@.counted(HostCall::Size).fits(),
        ensures
            final(trace)@ == old(trace)@.counted(HostCall::Size),
            result == call_result(reply),
    {
        bump(trace, HostCall::Size);
        answered(reply)
    }
}

/// What a walk along the ladder came to.
pub struct Walk {
    /// The rung at the end.
    pub level: LockLevel,
    /// The calls to the host on the way.
    pub calls: Seq<LockStep>,
    /// The refusal that ended it early.
    pub failed: Option<StorageError>,
}

/// The walk from `level` to `target` where the host gives these answers: it
/// ends on the target, at the first refusal, or when the answers run out.
pub open spec fn walk(
    level: LockLevel,
    target: LockLevel,
    replies: Seq<Result<(), StorageError>>,
) -> Walk
    decreases replies.len(),
{
    let step = step_towards(level, target);
    if replies.len() == 0 || step is Done {
        Walk { level, calls: Seq::empty(), failed: None }
    } else {
        match replies[0] {
            Ok(_) => {
                let rest = walk(
                    level_after(level, step, replies[0]),
                    target,
                    replies.drop_first(),
                );
                Walk { calls: seq![step] + rest.calls, ..rest }
            },
            Err(error) => Walk { level, calls: seq![step], failed: Some(error) },
        }
    }
}

/// A promotion takes every rung on the way, one call each and in order, and
/// skips none. It ends on the target unless a call is refused; then the file
/// stands on the last rung that it was given.
pub proof fn promotion_takes_every_rung(
    level: LockLevel,
    target: LockLevel,
    replies: Seq<Result<(), StorageError>>,
)
    requires
        rank(level) <= rank(target),
    ensures
        ({
            let end = walk(level, target, replies);
            &&& end.calls.len() <= rank(target) - rank(level)
            &&& forall|i: int|
                0 <= i < end.calls.len() ==> #[trigger] end.calls[i] == LockStep::Lock(
                    rung(rank(level) + 1 + i),
                )
            &&& end.failed is None ==> rank(end.level) == rank(level) + end.calls.len()
            &&& end.failed is None && replies.len() >= rank(target) - rank(level) ==> end.level
                == target
            &&& end.failed is Some ==> rank(end.level) == rank(level) + end.calls.len() - 1
        }),
    decreases replies.len(),
{
    let step = step_towards(level, target);
    if replies.len() > 0 && !(step is Done) && replies[0] is Ok {
        promotion_takes_every_rung(
            level_after(level, step, replies[0]),
            target,
            replies.drop_first(),
        );
    }
}

/// A read accounts for every byte of its buffer: each was read or filled with
/// zero, and the read is a short one where a byte was filled. It is one call
/// to the host, and none where the buffer is empty.
pub proof fn reads_account_for_every_byte(trace: TraceView, bytes: Vec<u8>, want: int)
    requires
        0 <= want,
    ensures
        ({
            let after = read_counted(trace, Ok(bytes), want);
            let filled = after.zero_filled_bytes - trace.zero_filled_bytes;
            &&& after.read_at == trace.read_at + if want > 0 {
                1int
            } else {
                0
            }
            &&& (after.read_bytes - trace.read_bytes) + filled == want
            &&& after.short_reads == trace.short_reads + if filled > 0 {
                1int
            } else {
                0
            }
            &&& forall|i: int|
                want - filled <= i < want ==> #[trigger] zero_filled(bytes@, want)[i] == 0
            &&& zero_filled(bytes@, want).take(want - filled) == bytes@.take(want - filled)
        }),
{
}

/// A demotion is one call, straight down to the target.
pub proof fn demotion_is_one_call(
    level: LockLevel,
    target: LockLevel,
    replies: Seq<Result<(), StorageError>>,
)
    requires
        rank(target) < rank(level),
        replies.len() > 0,
    ensures
        walk(level, target, replies) == (match replies[0] {
            Ok(_) => Walk { level: target, calls: seq![LockStep::Unlock(target)], failed: None },
            Err(error) => Walk {
                level,
                calls: seq![LockStep::Unlock(target)],
                failed: Some(error),
            },
        }),
{
    reveal_with_fuel(walk, 2);
    assert(seq![LockStep::Unlock(target)] + Seq::<LockStep>::empty() =~= seq![
        LockStep::Unlock(target),
    ]);
}

/// An unlock undoes a lock: however far up a file got, one call that the host
/// grants leads back to the ground, and a file that got nowhere needs none.
pub proof fn unlock_undoes_lock(
    target: LockLevel,
    replies: Seq<Result<(), StorageError>>,
    granted: Seq<Result<(), StorageError>>,
)
    requires
        granted.len() > 0,
        granted[0] is Ok,
    ensures
        ({
            let locked = walk(LockLevel::Unlocked, target, replies).level;
            let back = walk(locked, LockLevel::Unlocked, granted);
            &&& rank(locked) <= rank(target)
            &&& back.level is Unlocked
            &&& back.failed is None
            &&& back.calls.len() == if locked is Unlocked {
                0int
            } else {
                1
            }
        }),
{
    promotion_takes_every_rung(LockLevel::Unlocked, target, replies);
    let locked = walk(LockLevel::Unlocked, target, replies).level;
    if !(locked is Unlocked) {
        demotion_is_one_call(locked, LockLevel::Unlocked, granted);
    }
}

/// What the host gave stands at the beginning of the buffer, every byte of it
/// that the buffer holds, and only zeros behind it. The result and the trace
/// tell how many bytes these are; nothing else of the trace changes. A refused
/// read is counted as a call and as nothing more.
pub proof fn read_gives_all_that_there_is(
    trace: TraceView,
    bytes: Vec<u8>,
    error: StorageError,
    want: int,
)
    requires
        0 < want,
    ensures
        zero_filled(bytes@, want).len() == want,
        forall|i: int|
            0 <= i < want && i < bytes@.len() ==> #[trigger] zero_filled(bytes@, want)[i] == bytes@[i],
        forall|i: int| bytes@.len() <= i < want ==> #[trigger] zero_filled(bytes@, want)[i] == 0,
        bytes@.len() >= want ==> {
            &&& read_result(Ok(bytes), want) == Ok::<i32, CompletionError>(want as i32)
            &&& read_counted(trace, Ok(bytes), want) == (TraceView {
                read_at: trace.read_at + 1,
                read_bytes: trace.read_bytes + want,
                ..trace
            })
        },
        bytes@.len() < want ==> {
            &&& read_result(Ok(bytes), want) == Ok::<i32, CompletionError>(bytes@.len() as i32)
            &&& read_counted(trace, Ok(bytes), want) == (TraceView {
                read_at: trace.read_at + 1,
                read_bytes: trace.read_bytes + bytes@.len(),
                short_reads: trace.short_reads + 1,
                zero_filled_bytes: trace.zero_filled_bytes + (want - bytes@.len()),
                ..trace
            })
        },
        read_result(Err(error), want) == Err::<i32, CompletionError>(
            CompletionError::IOError(kind_of(error), "durable-files read-at"),
        ),
        read_counted(trace, Err(error), want) == (TraceView {
            read_at: trace.read_at + 1,
            ..trace
        }),
{
}

/// A read that wants nothing gives nothing, whatever the host said, and is not
/// counted.
pub proof fn empty_read_changes_nothing(trace: TraceView, reply: Result<Vec<u8>, StorageError>)
    ensures
        read_result(reply, 0) == Ok::<i32, CompletionError>(0i32),
        read_counted(trace, reply, 0) == trace,
{
}

/// A lock or unlock that the host grants leads to its rung, one that it
/// refuses leads nowhere, and either is counted as one call of its own kind.
pub proof fn lock_calls_lead_where_they_say(
    trace: TraceView,
    level: LockLevel,
    to: LockLevel,
    error: StorageError,
)
    ensures
        level_after(level, LockStep::Lock(to), Ok(())) == to,
        level_after(level, LockStep::Unlock(to), Ok(())) == to,
        level_after(level, LockStep::Lock(to), Err(error)) == level,
        level_after(level, LockStep::Unlock(to), Err(error)) == level,
        lock_counted(trace, LockStep::Lock(to)) == (TraceView { lock: trace.lock + 1, ..trace }),
        lock_counted(trace, LockStep::Unlock(to)) == (TraceView {
            unlock: trace.unlock + 1,
            ..trace
        }),
        lock_counted(trace, LockStep::Done) == trace,
{
}

/// The rungs stand one above the other, from no lock to the exclusive one.
pub proof fn rungs_are_in_order(level: LockLevel)
    ensures
        rank(LockLevel::Unlocked) == 0,
        rank(LockLevel::Shared) == 1,
        rank(LockLevel::Reserved) == 2,
        rank(LockLevel::Pending) == 3,
        rank(LockLevel::Exclusive) == 4,
        rung(rank(level)) == level,
{
}

} // verus!
