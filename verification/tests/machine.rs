//! The course of an invocation against an engine that is written down.

use serde_json::Value;
use turso_sql_provider::cell::SqlValue;
use turso_sql_provider::exec::{
    exec, schedule, Exec, StepEvent, Stepping, CACHE_PAGES, DATABASE, PAGE_SIZE,
};
use turso_sql_provider::text::decimal_text;
use turso_sql_provider::trace::Trace;

fn input(statements: &[&str]) -> Value {
    let mut map = serde_json::Map::new();
    map.insert(
        "statements".to_owned(),
        Value::Array(statements.iter().map(|sql| Value::from(*sql)).collect()),
    );
    Value::Object(map)
}

fn failed(next: Exec) -> (String, String) {
    match next {
        Exec::Finished(Err(error)) => (error.code().to_owned(), error.message().to_owned()),
        other => panic!("not a failure: {other:?}"),
    }
}

/// Opens, connects and runs the first `done` entries of the schedule without rows.
fn after(statements: &[&str], done: usize) -> Exec {
    let trace = Trace::default();
    let mut next = exec(input(statements), &mut Trace::default());
    let mut ran = 0;
    loop {
        next = match next {
            Exec::Open(state) => {
                assert_eq!(state.database(), "main.db");
                state.opened(Ok(()))
            }
            Exec::Connect(state) => state.connected(Ok(())),
            Exec::Prepare(state) => {
                if ran == done {
                    return Exec::Prepare(state);
                }
                ran += 1;
                state.prepared(Ok(()))
            }
            Exec::Step(state) => state.stepped(StepEvent::Done, &trace),
            other => return other,
        }
    }
}

fn stepping(statements: &[&str], done: usize) -> Stepping {
    match after(statements, done) {
        Exec::Prepare(state) => match state.prepared(Ok(())) {
            Exec::Step(state) => state,
            other => panic!("not stepping: {other:?}"),
        },
        other => panic!("not preparing: {other:?}"),
    }
}

#[test]
fn the_schedule_frames_the_statements() {
    assert_eq!(
        schedule(vec!["SELECT 1".to_owned(), "SELECT 2".to_owned()]),
        vec![
            "PRAGMA page_size = 65536",
            "PRAGMA cache_size = 256",
            "SELECT 1",
            "SELECT 2",
            "PRAGMA wal_checkpoint(TRUNCATE)",
        ]
    );
    for number in [0, 9, 10, 65_536, u32::MAX] {
        assert_eq!(decimal_text(number), number.to_string());
    }
}

#[test]
fn the_schedule_is_run_in_order_and_answered() {
    let mut trace = Trace::default();
    let mut prepared = Vec::new();
    let mut next = exec(input(&["INSERT", "SELECT"]), &mut trace);
    trace.lock = 1;
    trace.zero_filled_bytes = 77;
    trace.opens.push("main.db".to_owned());
    let mut rows = 2;
    loop {
        next = match next {
            Exec::Open(state) => state.opened(Ok(())),
            Exec::Connect(state) => state.connected(Ok(())),
            Exec::Prepare(state) => {
                prepared.push(state.sql().to_owned());
                state.prepared(Ok(()))
            }
            Exec::Step(state) => {
                let event = if prepared.len() == 4 && rows > 0 {
                    rows -= 1;
                    StepEvent::Row(Some(vec![SqlValue::Integer(rows), SqlValue::Null]))
                } else if prepared.len() == 3 && rows == 2 {
                    rows = 1;
                    StepEvent::Io
                } else {
                    rows = if prepared.len() == 3 { 2 } else { rows };
                    StepEvent::Done
                };
                state.stepped(event, &trace)
            }
            Exec::PumpIo(state) => state.pumped(Ok(())),
            Exec::Finished(result) => {
                let output = result.expect("nothing failed");
                assert_eq!(
                    prepared,
                    vec![
                        "PRAGMA page_size = 65536",
                        "PRAGMA cache_size = 256",
                        "INSERT",
                        "SELECT",
                        "PRAGMA wal_checkpoint(TRUNCATE)",
                    ]
                );
                let text = output.to_string();
                assert_eq!(
                    text,
                    [
                        r#"{"results":[{"rows":[],"sql":"INSERT"},"#,
                        r#"{"rows":[[1,null],[0,null]],"sql":"SELECT"}],"#,
                        r#""storage":{"hostCalls":{"lock":1,"monotonicTimeNs":0,"open":0,"#,
                        r#""randomBytes":0,"readAt":0,"remove":0,"size":0,"stat":0,"sync":0,"#,
                        r#""truncate":0,"unlock":0,"wallTimeMs":0,"writeAt":0},"#,
                        r#""opened":["main.db"],"readBytes":0,"shortReads":0,"#,
                        r#""writeBytes":0,"zeroFilledBytes":77}}"#,
                    ]
                    .concat()
                );
                return;
            }
        }
    }
}

#[test]
fn each_failure_of_the_engine_has_its_code() {
    let message = || Err("broken".to_owned());
    let broken = |code: &str| (code.to_owned(), "broken".to_owned());
    let trace = Trace::default();

    match exec(input(&["S"]), &mut Trace::default()) {
        Exec::Open(state) => assert_eq!(failed(state.opened(message())), broken("open")),
        other => panic!("not opening: {other:?}"),
    }
    match exec(input(&["S"]), &mut Trace::default()) {
        Exec::Open(state) => match state.opened(Ok(())) {
            Exec::Connect(state) => {
                assert_eq!(failed(state.connected(message())), broken("connect"))
            }
            other => panic!("not connecting: {other:?}"),
        },
        other => panic!("not opening: {other:?}"),
    }
    match after(&["S"], 2) {
        Exec::Prepare(state) => {
            assert_eq!(state.sql(), "S");
            assert_eq!(failed(state.prepared(message())), broken("prepare"))
        }
        other => panic!("not preparing: {other:?}"),
    }
    let state = stepping(&["S"], 2);
    let next = state.stepped(StepEvent::Failed("broken".to_owned()), &trace);
    assert_eq!(failed(next), broken("step"));
    let next = stepping(&["S"], 2).stepped(StepEvent::Row(None), &trace);
    assert_eq!(failed(next), ("step".to_owned(), "row signalled but absent".to_owned()));
    let next = stepping(&["S"], 2).stepped(StepEvent::Interrupt, &trace);
    assert_eq!(failed(next), ("interrupted".to_owned(), "S".to_owned()));
    let next = stepping(&["S"], 2).stepped(StepEvent::Busy, &trace);
    assert_eq!(failed(next), ("busy".to_owned(), "S".to_owned()));
    match stepping(&["S"], 2).stepped(StepEvent::Io, &trace) {
        Exec::PumpIo(state) => assert_eq!(failed(state.pumped(message())), broken("io")),
        other => panic!("not pumping: {other:?}"),
    }
}

#[test]
fn the_pragmas_fail_as_statements_do() {
    let trace = Trace::default();
    let next = stepping(&["S"], 0).stepped(StepEvent::Busy, &trace);
    assert_eq!(failed(next), ("busy".to_owned(), "PRAGMA page_size = 65536".to_owned()));
}

#[test]
fn a_failed_checkpoint_has_a_code_of_its_own() {
    let trace = Trace::default();
    match after(&["S"], 3) {
        Exec::Prepare(state) => {
            assert_eq!(state.sql(), "PRAGMA wal_checkpoint(TRUNCATE)");
            assert_eq!(
                failed(state.prepared(Err("broken".to_owned()))),
                ("checkpoint".to_owned(), "broken".to_owned())
            )
        }
        other => panic!("not preparing: {other:?}"),
    }
    let next = stepping(&["S"], 3).stepped(StepEvent::Busy, &trace);
    assert_eq!(
        failed(next),
        ("checkpoint".to_owned(), "PRAGMA wal_checkpoint(TRUNCATE)".to_owned())
    );
}

#[test]
fn the_cache_holds_the_largest_database_and_a_read_holds_a_page() {
    assert_eq!(DATABASE, "main.db");
    assert_eq!(u64::from(PAGE_SIZE) * u64::from(CACHE_PAGES), 16 * 1024 * 1024);
    assert!(PAGE_SIZE <= 256 * 1024);
}

#[test]
fn anything_else_is_stepped_again() {
    let trace = Trace::default();
    let mut state = stepping(&["S"], 2);
    for _ in 0..3 {
        state = match state.stepped(StepEvent::Other, &trace) {
            Exec::Step(state) => state,
            other => panic!("not stepping: {other:?}"),
        };
    }
}
