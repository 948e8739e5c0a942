//! What the report of an answer says of the host calls that were made.

use crate::json::Json;
use crate::response::{
    call_names, counts_stand_under_their_names, host_calls, report_holds_what_was_counted,
    storage_report,
};
use crate::trace::{HostCall, TraceView};
use vstd::prelude::*;

verus! {

/// One call of the host, with what came of it as far as that is counted.
pub enum Call {
    /// An `open` of this path.
    Open(Seq<char>),
    /// A `read-at` for this many bytes, with how many of them the host gave, or
    /// nothing where it refused.
    Read(int, Option<int>),
    /// A `write-at` of this many bytes.
    Write(int),
    /// Any other call.
    Other(HostCall),
}

/// The trace after one more call.
pub open spec fn after_call(trace: TraceView, call: Call) -> TraceView {
    match call {
        Call::Open(path) => trace.opened(path),
        Call::Read(want, Some(given)) => trace.reading().read(given, want),
        Call::Read(_, None) => trace.reading(),
        Call::Write(len) => trace.writing(len),
        Call::Other(other) => trace.counted(other),
    }
}

/// The trace of an invocation that made these calls.
pub open spec fn traced(calls: Seq<Call>) -> TraceView
    decreases calls.len(),
{
    if calls.len() == 0 {
        TraceView::empty()
    } else {
        after_call(traced(calls.drop_last()), calls.last())
    }
}

/// The name of the host's function that a call calls.
pub open spec fn name_of(call: Call) -> Seq<char> {
    match call {
        Call::Open(_) => "open"@,
        Call::Read(_, _) => "readAt"@,
        Call::Write(_) => "writeAt"@,
        Call::Other(HostCall::Sync) => "sync"@,
        Call::Other(HostCall::Truncate) => "truncate"@,
        Call::Other(HostCall::Size) => "size"@,
        Call::Other(HostCall::Lock) => "lock"@,
        Call::Other(HostCall::Unlock) => "unlock"@,
        Call::Other(HostCall::Remove) => "remove"@,
        Call::Other(HostCall::Stat) => "stat"@,
        Call::Other(HostCall::Random) => "randomBytes"@,
        Call::Other(HostCall::Monotonic) => "monotonicTimeNs"@,
        Call::Other(HostCall::Wall) => "wallTimeMs"@,
    }
}

/// The sum of a measure over these calls.
pub open spec fn total(calls: Seq<Call>, measure: spec_fn(Call) -> int) -> int
    decreases calls.len(),
{
    if calls.len() == 0 {
        0
    } else {
        total(calls.drop_last(), measure) + measure(calls.last())
    }
}

/// How many of these calls call the function `name`.
pub open spec fn calls_of(calls: Seq<Call>, name: Seq<char>) -> int {
    total(
        calls,
        |call: Call|
            if name_of(call) == name {
                1
            } else {
                0
            },
    )
}

/// The paths that these calls opened, in order.
pub open spec fn paths_of(calls: Seq<Call>) -> Seq<Seq<char>>
    decreases calls.len(),
{
    if calls.len() == 0 {
        Seq::empty()
    } else {
        match calls.last() {
            Call::Open(path) => paths_of(calls.drop_last()).push(path),
            _ => paths_of(calls.drop_last()),
        }
    }
}

/// How many bytes a call read.
pub open spec fn bytes_read(call: Call) -> int {
    match call {
        Call::Read(_, Some(given)) => given,
        _ => 0,
    }
}

/// How many bytes a call was asked to write.
pub open spec fn bytes_written(call: Call) -> int {
    match call {
        Call::Write(len) => len,
        _ => 0,
    }
}

/// How many bytes a read was short of.
pub open spec fn bytes_missing(call: Call) -> int {
    match call {
        Call::Read(want, Some(given)) => if given < want {
            want - given
        } else {
            0
        },
        _ => 0,
    }
}

/// Whether a call was a read that gave less than was wanted, as a number.
pub open spec fn fell_short(call: Call) -> int {
    if bytes_missing(call) > 0 {
        1
    } else {
        0
    }
}

/// One more call of the host raises the count under its name by one and leaves
/// every other count of the report as it was.
pub proof fn one_call_raises_one_count(trace: TraceView, call: Call)
    ensures
        ({
            let before = host_calls(trace)->Object_0;
            let after = host_calls(after_call(trace, call))->Object_0;
            forall|name: Seq<char>|
                #![trigger after[name]]
                call_names().contains(name) ==> after[name] == Json::Int(
                    before[name]->Int_0 + if name == name_of(call) {
                        1int
                    } else {
                        0
                    },
                )
        }),
{
    counts_stand_under_their_names(trace);
    counts_stand_under_their_names(after_call(trace, call));
    crate::response::call_names_differ();
}

/// Each count of a report is the number of calls, since the start of the
/// invocation, of the function that it names.
pub proof fn report_counts_every_call(calls: Seq<Call>, name: Seq<char>)
    requires
        call_names().contains(name),
    ensures
        host_calls(traced(calls))->Object_0[name] == Json::Int(calls_of(calls, name)),
    decreases calls.len(),
{
    if calls.len() == 0 {
        counts_stand_under_their_names(traced(calls));
    } else {
        report_counts_every_call(calls.drop_last(), name);
        one_call_raises_one_count(traced(calls.drop_last()), calls.last());
        let after = host_calls(traced(calls))->Object_0;
        assert(after[name] == host_calls(
            after_call(traced(calls.drop_last()), calls.last()),
        )->Object_0[name]);
    }
}

proof fn sums_are_traced(calls: Seq<Call>)
    ensures
        traced(calls).opens == paths_of(calls),
        traced(calls).read_bytes == total(calls, |call: Call| bytes_read(call)),
        traced(calls).write_bytes == total(calls, |call: Call| bytes_written(call)),
        traced(calls).short_reads == total(calls, |call: Call| fell_short(call)),
        traced(calls).zero_filled_bytes == total(calls, |call: Call| bytes_missing(call)),
    decreases calls.len(),
{
    if calls.len() > 0 {
        sums_are_traced(calls.drop_last());
    }
}

/// The rest of a report sums up the same calls: the paths that were opened in
/// their order, the bytes that were read and written, the reads that fell
/// short, and the bytes that these were short of and that zeros stand for.
pub proof fn report_sums_up_every_call(calls: Seq<Call>)
    ensures
        ({
            let report = storage_report(traced(calls))->Object_0;
            &&& report["opened"@] matches Json::Array(paths) && paths.len()
                == paths_of(calls).len() && forall|i: int|
                0 <= i < paths.len() ==> #[trigger] paths[i] == Json::Str(paths_of(calls)[i])
            &&& report["hostCalls"@] == host_calls(traced(calls))
            &&& report["readBytes"@] == Json::Int(total(calls, |call: Call| bytes_read(call)))
            &&& report["writeBytes"@] == Json::Int(total(calls, |call: Call| bytes_written(call)))
            &&& report["shortReads"@] == Json::Int(total(calls, |call: Call| fell_short(call)))
            &&& report["zeroFilledBytes"@] == Json::Int(
                total(calls, |call: Call| bytes_missing(call)),
            )
        }),
{
    sums_are_traced(calls);
    report_holds_what_was_counted(traced(calls));
}

} // verus!
