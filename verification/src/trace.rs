//! Counts of the host calls that one invocation made.

use crate::statements::list_view;
use vstd::prelude::*;

verus! {

/// Per-invocation host-call counters, reported in the response so that an
/// operator can see the exact I/O that the engine produced.
#[derive(Debug)]
pub struct Trace {
    pub opens: Vec<String>,
    pub open_calls: u64,
    pub read_at: u64,
    pub read_bytes: u64,
    pub write_at: u64,
    pub write_bytes: u64,
    pub sync: u64,
    pub truncate: u64,
    pub size: u64,
    pub lock: u64,
    pub unlock: u64,
    pub remove: u64,
    pub stat: u64,
    pub random: u64,
    pub monotonic: u64,
    pub wall: u64,
    pub short_reads: u64,
    pub zero_filled_bytes: u64,
}

/// What a [`Trace`] counts.
#[verifier::ext_equal]
pub struct TraceView {
    pub opens: Seq<Seq<char>>,
    pub open_calls: int,
    pub read_at: int,
    pub read_bytes: int,
    pub write_at: int,
    pub write_bytes: int,
    pub sync: int,
    pub truncate: int,
    pub size: int,
    pub lock: int,
    pub unlock: int,
    pub remove: int,
    pub stat: int,
    pub random: int,
    pub monotonic: int,
    pub wall: int,
    pub short_reads: int,
    pub zero_filled_bytes: int,
}

/// One call of the host's storage interface that is counted and nothing more.
#[derive(Clone, Copy, Debug, PartialEq, Eq, Structural)]
pub enum HostCall {
    Sync,
    Truncate,
    Size,
    Lock,
    Unlock,
    Remove,
    Stat,
    Random,
    Monotonic,
    Wall,
}

impl View for Trace {
    type V = TraceView;

    open spec fn view(&self) -> TraceView {
        TraceView {
            opens: list_view(self.opens@),
            open_calls: self.open_calls as int,
            read_at: self.read_at as int,
            read_bytes: self.read_bytes as int,
            write_at: self.write_at as int,
            write_bytes: self.write_bytes as int,
            sync: self.sync as int,
            truncate: self.truncate as int,
            size: self.size as int,
            lock: self.lock as int,
            unlock: self.unlock as int,
            remove: self.remove as int,
            stat: self.stat as int,
            random: self.random as int,
            monotonic: self.monotonic as int,
            wall: self.wall as int,
            short_reads: self.short_reads as int,
            zero_filled_bytes: self.zero_filled_bytes as int,
        }
    }
}

impl TraceView {
    /// The trace of an invocation that has called nothing.
    pub open spec fn empty() -> TraceView {
        TraceView {
            opens: Seq::empty(),
            open_calls: 0,
            read_at: 0,
            read_bytes: 0,
            write_at: 0,
            write_bytes: 0,
            sync: 0,
            truncate: 0,
            size: 0,
            lock: 0,
            unlock: 0,
            remove: 0,
            stat: 0,
            random: 0,
            monotonic: 0,
            wall: 0,
            short_reads: 0,
            zero_filled_bytes: 0,
        }
    }

    /// Whether the paths that were opened are as many as the calls that opened them.
    pub open spec fn opens_agree(self) -> bool {
        self.open_calls == self.opens.len()
    }

    /// Whether every count fits a counter.
    pub open spec fn fits(self) -> bool {
        &&& self.open_calls <= u64::MAX
        &&& self.read_at <= u64::MAX
        &&& self.read_bytes <= u64::MAX
        &&& self.write_at <= u64::MAX
        &&& self.write_bytes <= u64::MAX
        &&& self.sync <= u64::MAX
        &&& self.truncate <= u64::MAX
        &&& self.size <= u64::MAX
        &&& self.lock <= u64::MAX
        &&& self.unlock <= u64::MAX
        &&& self.remove <= u64::MAX
        &&& self.stat <= u64::MAX
        &&& self.random <= u64::MAX
        &&& self.monotonic <= u64::MAX
        &&& self.wall <= u64::MAX
        &&& self.short_reads <= u64::MAX
        &&& self.zero_filled_bytes <= u64::MAX
    }

    /// The trace with one more `call`.
    pub open spec fn counted(self, call: HostCall) -> TraceView {
        match call {
            HostCall::Sync => TraceView { sync: self.sync + 1, ..self },
            HostCall::Truncate => TraceView { truncate: self.truncate + 1, ..self },
            HostCall::Size => TraceView { size: self.size + 1, ..self },
            HostCall::Lock => TraceView { lock: self.lock + 1, ..self },
            HostCall::Unlock => TraceView { unlock: self.unlock + 1, ..self },
            HostCall::Remove => TraceView { remove: self.remove + 1, ..self },
            HostCall::Stat => TraceView { stat: self.stat + 1, ..self },
            HostCall::Random => TraceView { random: self.random + 1, ..self },
            HostCall::Monotonic => TraceView { monotonic: self.monotonic + 1, ..self },
            HostCall::Wall => TraceView { wall: self.wall + 1, ..self },
        }
    }

    /// The trace with an `open` of `path` more.
    pub open spec fn opened(self, path: Seq<char>) -> TraceView {
        TraceView { opens: self.opens.push(path), open_calls: self.open_calls + 1, ..self }
    }

    /// The trace with one more `read-at`, whose outcome is not known yet.
    pub open spec fn reading(self) -> TraceView {
        TraceView { read_at: self.read_at + 1, ..self }
    }

    /// The trace after a read that was asked for `want` bytes gave `read` bytes.
    pub open spec fn read(self, read: int, want: int) -> TraceView {
        if read < want {
            TraceView {
                read_bytes: self.read_bytes + read,
                short_reads: self.short_reads + 1,
                zero_filled_bytes: self.zero_filled_bytes + (want - read),
                ..self
            }
        } else {
            TraceView { read_bytes: self.read_bytes + read, ..self }
        }
    }

    /// The trace with one more `write-at` of `len` bytes.
    pub open spec fn writing(self, len: int) -> TraceView {
        TraceView { write_at: self.write_at + 1, write_bytes: self.write_bytes + len, ..self }
    }
}

/// The list of the paths that were opened is as long as the count of opens:
/// so it is at the start, and every step that counts keeps it so.
pub proof fn opens_are_counted(
    trace: TraceView,
    call: HostCall,
    path: Seq<char>,
    read: int,
    want: int,
    len: int,
)
    ensures
        TraceView::empty().opens_agree(),
        trace.opens_agree() ==> {
            &&& trace.counted(call).opens_agree()
            &&& trace.opened(path).opens_agree()
            &&& trace.reading().opens_agree()
            &&& trace.read(read, want).opens_agree()
            &&& trace.writing(len).opens_agree()
        },
{
}

/// The same list of strings, copied.
fn copy_list(list: &Vec<String>) -> (copy: Vec<String>)
    ensures
        list_view(copy@) == list_view(list@),
{
    let mut copy: Vec<String> = Vec::new();
    for at in 0..list.len()
        invariant
            copy@ == list@.take(at as int),
    {
        copy.push(list[at].clone());
        assert(list@.take(at + 1) == list@.take(at as int).push(list@[at as int]));
    }
    assert(list@.take(list.len() as int) == list@);
    copy
}

impl Default for Trace {
    fn default() -> (trace: Trace)
        ensures
            trace@ == TraceView::empty(),
    {
        let opens: Vec<String> = Vec::new();
        assert(list_view(opens@) == Seq::<Seq<char>>::empty());
        Trace {
            opens,
            open_calls: 0,
            read_at: 0,
            read_bytes: 0,
            write_at: 0,
            write_bytes: 0,
            sync: 0,
            truncate: 0,
            size: 0,
            lock: 0,
            unlock: 0,
            remove: 0,
            stat: 0,
            random: 0,
            monotonic: 0,
            wall: 0,
            short_reads: 0,
            zero_filled_bytes: 0,
        }
    }
}

impl Clone for Trace {
    fn clone(&self) -> (copy: Trace)
        ensures
            copy@ == self@,
    {
        Trace {
            opens: copy_list(&self.opens),
            open_calls: self.open_calls,
            read_at: self.read_at,
            read_bytes: self.read_bytes,
            write_at: self.write_at,
            write_bytes: self.write_bytes,
            sync: self.sync,
            truncate: self.truncate,
            size: self.size,
            lock: self.lock,
            unlock: self.unlock,
            remove: self.remove,
            stat: self.stat,
            random: self.random,
            monotonic: self.monotonic,
            wall: self.wall,
            short_reads: self.short_reads,
            zero_filled_bytes: self.zero_filled_bytes,
        }
    }
}

/// Forgets what `trace` counted, as at the start of an invocation.
pub fn trace_reset(trace: &mut Trace)
    ensures
        final(trace)@ == TraceView::empty(),
{
    *trace = Trace::default();
}

/// What `trace` has counted so far.
pub fn trace_snapshot(trace: &Trace) -> (copy: Trace)
    ensures
        copy@ == trace@,
{
    trace.clone()
}

/// Counts one `call`.
pub fn bump(trace: &mut Trace, call: HostCall)
    requires
        old(trace)@.counted(call).fits(),
    ensures
        final(trace)@ == old(trace)@.counted(call),
{
    match call {
        HostCall::Sync => trace.sync = trace.sync + 1,
        HostCall::Truncate => trace.truncate = trace.truncate + 1,
        HostCall::Size => trace.size = trace.size + 1,
        HostCall::Lock => trace.lock = trace.lock + 1,
        HostCall::Unlock => trace.unlock = trace.unlock + 1,
        HostCall::Remove => trace.remove = trace.remove + 1,
        HostCall::Stat => trace.stat = trace.stat + 1,
        HostCall::Random => trace.random = trace.random + 1,
        HostCall::Monotonic => trace.monotonic = trace.monotonic + 1,
        HostCall::Wall => trace.wall = trace.wall + 1,
    }
}

/// Counts one `open` of `path`.
pub fn bump_open(trace: &mut Trace, path: &str)
    requires
        old(trace)@.opened(path@).fits(),
    ensures
        final(trace)@ == old(trace)@.opened(path@),
{
    trace.open_calls = trace.open_calls + 1;
    trace.opens.push(path.to_owned());
    assert(list_view(trace.opens@) == list_view(old(trace).opens@).push(path@));
}

/// A trace counts what its counters show, each under its own name.
pub proof fn trace_is_its_counters(trace: Trace)
    ensures
        trace@.opens.len() == trace.opens@.len(),
        forall|i: int| 0 <= i < trace.opens@.len() ==> #[trigger] trace@.opens[i] == trace.opens@[i]@,
        trace@.open_calls == trace.open_calls,
        trace@.read_at == trace.read_at,
        trace@.read_bytes == trace.read_bytes,
        trace@.write_at == trace.write_at,
        trace@.write_bytes == trace.write_bytes,
        trace@.sync == trace.sync,
        trace@.truncate == trace.truncate,
        trace@.size == trace.size,
        trace@.lock == trace.lock,
        trace@.unlock == trace.unlock,
        trace@.remove == trace.remove,
        trace@.stat == trace.stat,
        trace@.random == trace.random,
        trace@.monotonic == trace.monotonic,
        trace@.wall == trace.wall,
        trace@.short_reads == trace.short_reads,
        trace@.zero_filled_bytes == trace.zero_filled_bytes,
{
}

/// Every counter has room up to the largest number that it can hold.
pub proof fn every_counter_has_its_full_range(trace: Trace)
    ensures
        trace@.fits(),
{
}

} // verus!
