//! The JSON that answers an invocation.

use crate::json::{
    array_value, items_of, json_of, new_map, object_value, put, text_value, texts_value,
    unsigned_value, Json,
};
use crate::statements::list_view;
use crate::trace::{Trace, TraceView};
use serde_json::Value;
use vstd::prelude::*;

verus! {

/// The result of one statement: its text and the rows that it gave.
pub open spec fn statement_result(sql: Seq<char>, rows: Seq<Json>) -> Json {
    Json::Object(map!["sql"@ => Json::Str(sql), "rows"@ => Json::Array(rows)])
}

/// The number of calls that each function of the host's interface got.
pub open spec fn host_calls(trace: TraceView) -> Json {
    Json::Object(
        map![
            "open"@ => Json::Int(trace.open_calls),
            "readAt"@ => Json::Int(trace.read_at),
            "writeAt"@ => Json::Int(trace.write_at),
            "sync"@ => Json::Int(trace.sync),
            "truncate"@ => Json::Int(trace.truncate),
            "size"@ => Json::Int(trace.size),
            "lock"@ => Json::Int(trace.lock),
            "unlock"@ => Json::Int(trace.unlock),
            "remove"@ => Json::Int(trace.remove),
            "stat"@ => Json::Int(trace.stat),
            "randomBytes"@ => Json::Int(trace.random),
            "monotonicTimeNs"@ => Json::Int(trace.monotonic),
            "wallTimeMs"@ => Json::Int(trace.wall),
        ],
    )
}

/// What the engine asked of the host's storage.
pub open spec fn storage_report(trace: TraceView) -> Json {
    Json::Object(
        map![
            "opened"@ => Json::Array(trace.opens.map_values(|path: Seq<char>| Json::Str(path))),
            "hostCalls"@ => host_calls(trace),
            "readBytes"@ => Json::Int(trace.read_bytes),
            "writeBytes"@ => Json::Int(trace.write_bytes),
            "shortReads"@ => Json::Int(trace.short_reads),
            "zeroFilledBytes"@ => Json::Int(trace.zero_filled_bytes),
        ],
    )
}

/// The answer to an invocation that ran every statement.
pub open spec fn response(results: Seq<Json>, trace: TraceView) -> Json {
    Json::Object(
        map!["results"@ => Json::Array(results), "storage"@ => storage_report(trace)],
    )
}

/// The result of one statement.
pub fn statement_value(sql: &str, rows: Vec<Value>) -> (value: Value)
    ensures
        json_of(value) == statement_result(sql@, items_of(rows@)),
        json_of(value) matches Json::Object(entries) && entries["sql"@] == Json::Str(sql@)
            && entries["rows"@] == Json::Array(items_of(rows@)),
{
    proof {
        result_keeps_every_row(sql@, items_of(rows@));
    }
    let mut map = new_map();
    put(&mut map, "sql", text_value(sql));
    put(&mut map, "rows", array_value(rows));
    object_value(map)
}

/// The number of calls that each function of the host's interface got.
pub fn host_calls_value(trace: &Trace) -> (value: Value)
    ensures
        json_of(value) == host_calls(trace@),
        json_of(value) matches Json::Object(calls) && {
            &&& calls["open"@] == Json::Int(trace.open_calls as int)
            &&& calls["readAt"@] == Json::Int(trace.read_at as int)
            &&& calls["writeAt"@] == Json::Int(trace.write_at as int)
            &&& calls["sync"@] == Json::Int(trace.sync as int)
            &&& calls["truncate"@] == Json::Int(trace.truncate as int)
            &&& calls["size"@] == Json::Int(trace.size as int)
            &&& calls["lock"@] == Json::Int(trace.lock as int)
            &&& calls["unlock"@] == Json::Int(trace.unlock as int)
            &&& calls["remove"@] == Json::Int(trace.remove as int)
            &&& calls["stat"@] == Json::Int(trace.stat as int)
            &&& calls["randomBytes"@] == Json::Int(trace.random as int)
            &&& calls["monotonicTimeNs"@] == Json::Int(trace.monotonic as int)
            &&& calls["wallTimeMs"@] == Json::Int(trace.wall as int)
        },
{
    proof {
        counts_stand_under_their_names(trace@);
    }
    let mut map = new_map();
    put(&mut map, "open", unsigned_value(trace.open_calls));
    put(&mut map, "readAt", unsigned_value(trace.read_at));
    put(&mut map, "writeAt", unsigned_value(trace.write_at));
    put(&mut map, "sync", unsigned_value(trace.sync));
    put(&mut map, "truncate", unsigned_value(trace.truncate));
    put(&mut map, "size", unsigned_value(trace.size));
    put(&mut map, "lock", unsigned_value(trace.lock));
    put(&mut map, "unlock", unsigned_value(trace.unlock));
    put(&mut map, "remove", unsigned_value(trace.remove));
    put(&mut map, "stat", unsigned_value(trace.stat));
    put(&mut map, "randomBytes", unsigned_value(trace.random));
    put(&mut map, "monotonicTimeNs", unsigned_value(trace.monotonic));
    put(&mut map, "wallTimeMs", unsigned_value(trace.wall));
    object_value(map)
}

/// What the engine asked of the host's storage.
pub fn storage_value(trace: &Trace) -> (value: Value)
    ensures
        json_of(value) == storage_report(trace@),
{
    let mut map = new_map();
    proof {
        assert(trace.opens@.map_values(|text: String| Json::Str(text@)) == list_view(
            trace.opens@,
        ).map_values(|path: Seq<char>| Json::Str(path)));
    }
    put(&mut map, "opened", texts_value(trace.opens.as_slice()));
    put(&mut map, "hostCalls", host_calls_value(trace));
    put(&mut map, "readBytes", unsigned_value(trace.read_bytes));
    put(&mut map, "writeBytes", unsigned_value(trace.write_bytes));
    put(&mut map, "shortReads", unsigned_value(trace.short_reads));
    put(&mut map, "zeroFilledBytes", unsigned_value(trace.zero_filled_bytes));
    object_value(map)
}

/// The answer to an invocation that ran every statement.
pub fn response_value(results: Vec<Value>, trace: &Trace) -> (value: Value)
    ensures
        json_of(value) == response(items_of(results@), trace@),
{
    let mut map = new_map();
    put(&mut map, "results", array_value(results));
    put(&mut map, "storage", storage_value(trace));
    object_value(map)
}

/// The result of a statement holds its text under `sql` and, under `rows`,
/// every row that it is given, in order, and holds nothing else.
pub proof fn result_keeps_every_row(sql: Seq<char>, rows: Seq<Json>)
    ensures
        statement_result(sql, rows) matches Json::Object(entries) && {
            &&& entries.dom() == set!["sql"@, "rows"@]
            &&& entries["sql"@] == Json::Str(sql)
            &&& entries["rows"@] matches Json::Array(items) && items.len() == rows.len()
                && forall|i: int| 0 <= i < rows.len() ==> #[trigger] items[i] == rows[i]
        },
{
    let entries = statement_result(sql, rows)->Object_0;
    assert("sql"@ != "rows"@) by {
        reveal_strlit("sql");
        reveal_strlit("rows");
        assert("sql"@.len() == 3 && "rows"@.len() == 4);
    }
    assert(entries.dom() =~= set!["sql"@, "rows"@]);
    assert(entries["sql"@] == Json::Str(sql));
    assert(entries["rows"@] == Json::Array(rows));
}

/// The names under which the host's calls are counted are distinct.
pub(crate) proof fn call_names_differ()
    ensures
        "open"@.len() == 4 && "open"@[0] == 'o',
        "readAt"@.len() == 6 && "readAt"@[0] == 'r' && "readAt"@[2] == 'a',
        "writeAt"@.len() == 7,
        "sync"@.len() == 4 && "sync"@[0] == 's' && "sync"@[1] == 'y',
        "truncate"@.len() == 8,
        "size"@.len() == 4 && "size"@[0] == 's' && "size"@[1] == 'i',
        "lock"@.len() == 4 && "lock"@[0] == 'l',
        "unlock"@.len() == 6 && "unlock"@[0] == 'u',
        "remove"@.len() == 6 && "remove"@[0] == 'r' && "remove"@[2] == 'm',
        "stat"@.len() == 4 && "stat"@[0] == 's' && "stat"@[1] == 't',
        "randomBytes"@.len() == 11,
        "monotonicTimeNs"@.len() == 15,
        "wallTimeMs"@.len() == 10,
{
    reveal_strlit("open");
    reveal_strlit("readAt");
    reveal_strlit("writeAt");
    reveal_strlit("sync");
    reveal_strlit("truncate");
    reveal_strlit("size");
    reveal_strlit("lock");
    reveal_strlit("unlock");
    reveal_strlit("remove");
    reveal_strlit("stat");
    reveal_strlit("randomBytes");
    reveal_strlit("monotonicTimeNs");
    reveal_strlit("wallTimeMs");
}

/// The names of the host's calls, as a report has them.
pub open spec fn call_names() -> Set<Seq<char>> {
    set![
        "open"@,
        "readAt"@,
        "writeAt"@,
        "sync"@,
        "truncate"@,
        "size"@,
        "lock"@,
        "unlock"@,
        "remove"@,
        "stat"@,
        "randomBytes"@,
        "monotonicTimeNs"@,
        "wallTimeMs"@,
    ]
}

/// Each count of a report is that of the call that it names.
pub proof fn counts_stand_under_their_names(trace: TraceView)
    ensures
        host_calls(trace) matches Json::Object(calls) && {
            &&& calls.dom() == call_names()
            &&& calls["open"@] == Json::Int(trace.open_calls)
            &&& calls["readAt"@] == Json::Int(trace.read_at)
            &&& calls["writeAt"@] == Json::Int(trace.write_at)
            &&& calls["sync"@] == Json::Int(trace.sync)
            &&& calls["truncate"@] == Json::Int(trace.truncate)
            &&& calls["size"@] == Json::Int(trace.size)
            &&& calls["lock"@] == Json::Int(trace.lock)
            &&& calls["unlock"@] == Json::Int(trace.unlock)
            &&& calls["remove"@] == Json::Int(trace.remove)
            &&& calls["stat"@] == Json::Int(trace.stat)
            &&& calls["randomBytes"@] == Json::Int(trace.random)
            &&& calls["monotonicTimeNs"@] == Json::Int(trace.monotonic)
            &&& calls["wallTimeMs"@] == Json::Int(trace.wall)
        },
{
    call_names_differ();
    let calls = host_calls(trace)->Object_0;
    assert(calls.dom() =~= call_names());
}

/// The storage report holds the paths that were opened, each and in order, the
/// counts of the calls, and the counts of the bytes, under their names.
pub proof fn report_holds_what_was_counted(trace: TraceView)
    ensures
        storage_report(trace) matches Json::Object(report) && {
            &&& report.dom() == set![
                "opened"@,
                "hostCalls"@,
                "readBytes"@,
                "writeBytes"@,
                "shortReads"@,
                "zeroFilledBytes"@,
            ]
            &&& report["opened"@] matches Json::Array(paths) && paths.len() == trace.opens.len()
                && forall|i: int|
                0 <= i < paths.len() ==> #[trigger] paths[i] == Json::Str(trace.opens[i])
            &&& report["hostCalls"@] == host_calls(trace)
            &&& report["readBytes"@] == Json::Int(trace.read_bytes)
            &&& report["writeBytes"@] == Json::Int(trace.write_bytes)
            &&& report["shortReads"@] == Json::Int(trace.short_reads)
            &&& report["zeroFilledBytes"@] == Json::Int(trace.zero_filled_bytes)
        },
{
    reveal_strlit("opened");
    reveal_strlit("hostCalls");
    reveal_strlit("readBytes");
    reveal_strlit("writeBytes");
    reveal_strlit("shortReads");
    reveal_strlit("zeroFilledBytes");
    assert("opened"@.len() == 6 && "hostCalls"@.len() == 9 && "hostCalls"@[0] == 'h');
    assert("readBytes"@.len() == 9 && "readBytes"@[0] == 'r');
    assert("writeBytes"@.len() == 10 && "writeBytes"@[0] == 'w');
    assert("shortReads"@.len() == 10 && "shortReads"@[0] == 's');
    assert("zeroFilledBytes"@.len() == 15);
    let report = storage_report(trace)->Object_0;
    assert(report.dom() =~= set![
        "opened"@,
        "hostCalls"@,
        "readBytes"@,
        "writeBytes"@,
        "shortReads"@,
        "zeroFilledBytes"@,
    ]);
    assert(report["opened"@] == Json::Array(
        trace.opens.map_values(|path: Seq<char>| Json::Str(path)),
    ));
}

/// The answer holds every result that it is given, in order, and the storage
/// report, and nothing else.
pub proof fn response_keeps_every_result(results: Seq<Json>, trace: TraceView)
    ensures
        response(results, trace) matches Json::Object(entries) && {
            &&& entries.dom() == set!["results"@, "storage"@]
            &&& entries["results"@] matches Json::Array(items) && items.len() == results.len()
                && forall|i: int| 0 <= i < results.len() ==> #[trigger] items[i] == results[i]
            &&& entries["storage"@] == storage_report(trace)
        },
{
    reveal_strlit("results");
    reveal_strlit("storage");
    assert("results"@[0] == 'r' && "storage"@[0] == 's');
    let entries = response(results, trace)->Object_0;
    assert(entries.dom() =~= set!["results"@, "storage"@]);
    assert(entries["results"@] == Json::Array(results));
}

/// The report names as many opened paths as it counts opens, where the trace
/// does.
pub proof fn report_names_every_open(trace: TraceView)
    requires
        trace.opens_agree(),
    ensures
        ({
            let report = storage_report(trace)->Object_0;
            report["hostCalls"@]->Object_0["open"@] == Json::Int(
                report["opened"@]->Array_0.len() as int,
            )
        }),
{
    counts_stand_under_their_names(trace);
    report_holds_what_was_counted(trace);
}

} // verus!
