//! The course of one `turso.exec` invocation.
//!
//! The engine is driven from outside: each state says what has to be done
//! next, and is left by handing it what came of that. The states run a fixed
//! schedule of statements, one after the other: two pragmas that correct the
//! engine's defaults, the statements of the input, and the checkpoint that
//! empties the write-ahead log.

use crate::cell::{cells_view, row_json, row_to_json, SqlValue, SqlView};
use crate::error::{failure, ErrorView, ProviderError};
use crate::json::{items_of, json_of, Json};
use crate::response::{response, response_value, statement_result, statement_value};
use crate::statements::{list_view, statements_in, statements_of};
use crate::text::{decimal, decimal_text};
use crate::trace::{trace_reset, trace_snapshot, Trace, TraceView};
use serde_json::Value;
use vstd::prelude::*;
use vstd::string::StringExecFns;

verus! {

/// The single database file in the invocation's namespace. The engine opens
/// exactly this and its `-wal` sidecar.
pub const DATABASE: &'static str = "main.db";

/// 64 KiB pages keep a page read inside the host's 256 KiB limit per read
/// while keeping host calls per query few. Only takes effect before the first
/// table is created.
pub const PAGE_SIZE: u32 = 65_536;

/// 256 pages are 16 MiB, the largest file that the host allows, so the cache
/// can hold the largest legal database. The engine's own default would trap
/// on allocation rather than evict.
pub const CACHE_PAGES: u32 = 256;

/// Empties the write-ahead log. The engine never does so on its own, and a
/// log above the host's limit per read makes the namespace unreadable.
pub const CHECKPOINT: &'static str = "PRAGMA wal_checkpoint(TRUNCATE)";

/// The statement that sets the page size.
pub open spec fn page_size_sql() -> Seq<char> {
    "PRAGMA page_size = "@ + decimal(PAGE_SIZE as nat)
}

/// The statement that sets the size of the page cache.
pub open spec fn cache_size_sql() -> Seq<char> {
    "PRAGMA cache_size = "@ + decimal(CACHE_PAGES as nat)
}

/// Everything that an invocation with these statements runs, in order.
pub open spec fn schedule_of(statements: Seq<Seq<char>>) -> Seq<Seq<char>> {
    seq![page_size_sql(), cache_size_sql()] + statements + seq![CHECKPOINT@]
}

/// A statement text followed by a number.
fn setting(prefix: &str, number: u32) -> (sql: String)
    ensures
        sql@ == prefix@ + decimal(number as nat),
{
    let mut sql = prefix.to_owned();
    sql.append(decimal_text(number).as_str());
    sql
}

/// Everything that an invocation with these statements runs, in order.
pub fn schedule(statements: Vec<String>) -> (all: Vec<String>)
    ensures
        list_view(all@) == schedule_of(list_view(statements@)),
{
    let mut all: Vec<String> = Vec::new();
    all.push(setting("PRAGMA page_size = ", PAGE_SIZE));
    all.push(setting("PRAGMA cache_size = ", CACHE_PAGES));
    let ghost given = statements@;
    let mut rest = statements;
    let ghost before = all@;
    all.append(&mut rest);
    all.push(CHECKPOINT.to_owned());
    assert(list_view(before) == seq![page_size_sql(), cache_size_sql()]);
    assert(list_view(all@) == list_view(before) + list_view(given) + seq![CHECKPOINT@]);
    all
}

/// How far an invocation has come.
#[verifier::ext_equal]
pub struct BatchView {
    /// Everything that it runs.
    pub schedule: Seq<Seq<char>>,
    /// Which of these is next or under way.
    pub at: int,
    /// The results of the statements of the input that are done.
    pub results: Seq<Json>,
    /// The rows that the statement under way has given.
    pub rows: Seq<Json>,
}

impl BatchView {
    /// The start of an invocation with these statements.
    pub open spec fn start(statements: Seq<Seq<char>>) -> BatchView {
        BatchView {
            schedule: schedule_of(statements),
            at: 0,
            results: Seq::empty(),
            rows: Seq::empty(),
        }
    }

    /// What holds of every batch: it stands on an entry of its schedule, and
    /// has one result for each statement of the input before that entry.
    pub open spec fn well_formed(self) -> bool {
        &&& 3 <= self.schedule.len()
        &&& 0 <= self.at < self.schedule.len()
        &&& self.results.len() == if self.at <= 2 { 0 } else { self.at - 2 }
    }

    /// The statement that is next or under way.
    pub open spec fn sql(self) -> Seq<char> {
        self.schedule[self.at]
    }

    /// Whether the checkpoint is next or under way.
    pub open spec fn at_checkpoint(self) -> bool {
        self.at == self.schedule.len() - 1
    }

    /// Whether a statement of the input is next or under way.
    pub open spec fn at_statement(self) -> bool {
        2 <= self.at < self.schedule.len() - 1
    }

    /// The batch with one more row of the statement under way.
    pub open spec fn with_row(self, row: Json) -> BatchView {
        BatchView { rows: self.rows.push(row), ..self }
    }

    /// The batch on the next entry of its schedule, with the result of the
    /// entry that is done where that was a statement of the input.
    pub open spec fn advanced(self) -> BatchView {
        BatchView {
            at: self.at + 1,
            results: if self.at_statement() {
                self.results.push(statement_result(self.sql(), self.rows))
            } else {
                self.results
            },
            rows: Seq::empty(),
            ..self
        }
    }

    /// The failure of the statement under way. The checkpoint has a code of
    /// its own.
    pub open spec fn failed(self, code: Seq<char>, message: Seq<char>) -> ExecView {
        ExecView::Finished(
            Err(
                ErrorView {
                    code: if self.at_checkpoint() {
                        "checkpoint"@
                    } else {
                        code
                    },
                    message,
                },
            ),
        )
    }
}

/// What has to be done next in an invocation.
pub enum ExecView {
    /// Open the database.
    Open(BatchView),
    /// Connect to it.
    Connect(BatchView),
    /// Prepare the statement.
    Prepare(BatchView),
    /// Step the statement.
    Step(BatchView),
    /// Let the engine finish its outstanding I/O.
    PumpIo(BatchView),
    /// Nothing: this is the answer.
    Finished(Result<Json, ErrorView>),
}

/// What stepping a statement gave.
#[derive(Debug)]
pub enum StepEvent {
    /// A row, if the engine had one.
    Row(Option<Vec<SqlValue>>),
    /// The engine waits for I/O.
    Io,
    /// The statement is done.
    Done,
    /// The statement was interrupted.
    Interrupt,
    /// The database is busy.
    Busy,
    /// Anything else that does not end the statement.
    Other,
    /// The engine failed, with this message.
    Failed(String),
}

/// What a [`StepEvent`] says.
pub enum StepView {
    Row(Option<Seq<SqlView>>),
    Io,
    Done,
    Interrupt,
    Busy,
    Other,
    Failed(Seq<char>),
}

impl View for StepEvent {
    type V = StepView;

    open spec fn view(&self) -> StepView {
        match self {
            StepEvent::Row(Some(cells)) => StepView::Row(Some(cells_view(cells@))),
            StepEvent::Row(None) => StepView::Row(None),
            StepEvent::Io => StepView::Io,
            StepEvent::Done => StepView::Done,
            StepEvent::Interrupt => StepView::Interrupt,
            StepEvent::Busy => StepView::Busy,
            StepEvent::Other => StepView::Other,
            StepEvent::Failed(message) => StepView::Failed(message@),
        }
    }
}

/// What came of a call: nothing to tell, or the message of its failure.
pub open spec fn outcome(reply: Result<(), String>) -> Result<(), Seq<char>> {
    match reply {
        Ok(_) => Ok(()),
        Err(message) => Err(message@),
    }
}

/// What follows the attempt to open the database.
pub open spec fn after_open(batch: BatchView, reply: Result<(), Seq<char>>) -> ExecView {
    match reply {
        Ok(_) => ExecView::Connect(batch),
        Err(message) => ExecView::Finished(Err(ErrorView { code: "open"@, message })),
    }
}

/// What follows the attempt to connect.
pub open spec fn after_connect(batch: BatchView, reply: Result<(), Seq<char>>) -> ExecView {
    match reply {
        Ok(_) => ExecView::Prepare(batch),
        Err(message) => ExecView::Finished(Err(ErrorView { code: "connect"@, message })),
    }
}

/// What follows the attempt to prepare the statement.
pub open spec fn after_prepare(batch: BatchView, reply: Result<(), Seq<char>>) -> ExecView {
    match reply {
        Ok(_) => ExecView::Step(batch),
        Err(message) => batch.failed("prepare"@, message),
    }
}

/// What follows a step, where `trace` has counted the host calls so far.
pub open spec fn after_step(batch: BatchView, event: StepView, trace: TraceView) -> ExecView {
    match event {
        StepView::Row(Some(cells)) => ExecView::Step(batch.with_row(row_json(cells))),
        StepView::Row(None) => batch.failed("step"@, "row signalled but absent"@),
        StepView::Io => ExecView::PumpIo(batch),
        StepView::Done => if batch.at_checkpoint() {
            ExecView::Finished(Ok(response(batch.results, trace)))
        } else {
            ExecView::Prepare(batch.advanced())
        },
        StepView::Interrupt => batch.failed("interrupted"@, batch.sql()),
        StepView::Busy => batch.failed("busy"@, batch.sql()),
        StepView::Other => ExecView::Step(batch),
        StepView::Failed(message) => batch.failed("step"@, message),
    }
}

/// What follows the attempt to let the engine finish its I/O.
pub open spec fn after_pump(batch: BatchView, reply: Result<(), Seq<char>>) -> ExecView {
    match reply {
        Ok(_) => ExecView::Step(batch),
        Err(message) => batch.failed("io"@, message),
    }
}

/// The start of an invocation with this input.
pub open spec fn begun(input: Json) -> ExecView {
    match statements_in(input) {
        Ok(statements) => ExecView::Open(BatchView::start(statements)),
        Err(error) => ExecView::Finished(Err(error)),
    }
}

/// How far an invocation has come.
#[derive(Debug)]
pub struct Batch {
    schedule: Vec<String>,
    at: usize,
    results: Vec<Value>,
    rows: Vec<Value>,
}

impl View for Batch {
    type V = BatchView;

    closed spec fn view(&self) -> BatchView {
        BatchView {
            schedule: list_view(self.schedule@),
            at: self.at as int,
            results: items_of(self.results@),
            rows: items_of(self.rows@),
        }
    }
}

impl Batch {
    #[verifier::type_invariant]
    spec fn holds(self) -> bool {
        self@.well_formed()
    }

    /// The start of an invocation with these statements, of which there is one at least.
    fn start(statements: Vec<String>) -> (batch: Batch)
        requires
            statements.len() > 0,
        ensures
            batch@ == BatchView::start(list_view(statements@)),
    {
        let schedule = schedule(statements);
        let none: Vec<Value> = Vec::new();
        assert(items_of(none@) == Seq::<Json>::empty());
        assert(list_view(schedule@).len() == schedule@.len());
        Batch { schedule, at: 0, results: Vec::new(), rows: none }
    }

    /// The failure of the statement under way.
    fn failed(self, code: &str, message: &str) -> (next: Exec)
        ensures
            next@ == self@.failed(code@, message@),
    {
        proof {
            use_type_invariant(&self);
        }
        if self.at == self.schedule.len() - 1 {
            Exec::Finished(Err(failure("checkpoint", message)))
        } else {
            Exec::Finished(Err(failure(code, message)))
        }
    }

    /// The failure of the statement under way whose message is the statement.
    fn failed_with_sql(self, code: &str) -> (next: Exec)
        ensures
            next@ == self@.failed(code@, self@.sql()),
    {
        proof {
            use_type_invariant(&self);
        }
        let message = self.schedule[self.at].clone();
        self.failed(code, message.as_str())
    }
}

/// The database has to be opened.
#[derive(Debug)]
pub struct Opening(Batch);

/// The database has to be connected to.
#[derive(Debug)]
pub struct Connecting(Batch);

/// A statement has to be prepared.
#[derive(Debug)]
pub struct Preparing(Batch);

/// The prepared statement has to be stepped.
#[derive(Debug)]
pub struct Stepping(Batch);

/// The engine's I/O has to be pumped.
#[derive(Debug)]
pub struct Pumping(Batch);

/// What has to be done next in an invocation.
#[derive(Debug)]
pub enum Exec {
    Open(Opening),
    Connect(Connecting),
    Prepare(Preparing),
    Step(Stepping),
    PumpIo(Pumping),
    Finished(Result<Value, ProviderError>),
}

impl View for Opening {
    type V = BatchView;

    closed spec fn view(&self) -> BatchView {
        self.0@
    }
}

impl View for Connecting {
    type V = BatchView;

    closed spec fn view(&self) -> BatchView {
        self.0@
    }
}

impl View for Preparing {
    type V = BatchView;

    closed spec fn view(&self) -> BatchView {
        self.0@
    }
}

impl View for Stepping {
    type V = BatchView;

    closed spec fn view(&self) -> BatchView {
        self.0@
    }
}

impl View for Pumping {
    type V = BatchView;

    closed spec fn view(&self) -> BatchView {
        self.0@
    }
}

/// What an answer says.
pub open spec fn answer(result: Result<Value, ProviderError>) -> Result<Json, ErrorView> {
    match result {
        Ok(value) => Ok(json_of(value)),
        Err(error) => Err(error@),
    }
}

impl View for Exec {
    type V = ExecView;

    open spec fn view(&self) -> ExecView {
        match self {
            Exec::Open(state) => ExecView::Open(state@),
            Exec::Connect(state) => ExecView::Connect(state@),
            Exec::Prepare(state) => ExecView::Prepare(state@),
            Exec::Step(state) => ExecView::Step(state@),
            Exec::PumpIo(state) => ExecView::PumpIo(state@),
            Exec::Finished(result) => ExecView::Finished(answer(*result)),
        }
    }
}

/// Starts an invocation: forgets the last one's trace and reads the
/// statements of the input.
pub fn exec(input: Value, trace: &mut Trace) -> (next: Exec)
    ensures
        final(trace)@ == TraceView::empty(),
        next@ == begun(json_of(input)),
{
    trace_reset(trace);
    match statements_of(&input) {
        Ok(statements) => {
            assert(list_view(statements@).len() > 0);
            Exec::Open(Opening(Batch::start(statements)))
        },
        Err(error) => Exec::Finished(Err(error)),
    }
}

impl Opening {
    /// The name of the file to open.
    pub fn database(&self) -> (name: &'static str)
        ensures
            name@ == DATABASE@,
    {
        DATABASE
    }

    /// Goes on after the attempt to open the database.
    pub fn opened(self, reply: Result<(), String>) -> (next: Exec)
        ensures
            next@ == after_open(self@, outcome(reply)),
    {
        match reply {
            Ok(_) => Exec::Connect(Connecting(self.0)),
            Err(message) => Exec::Finished(Err(failure("open", message.as_str()))),
        }
    }
}

impl Connecting {
    /// Goes on after the attempt to connect.
    pub fn connected(self, reply: Result<(), String>) -> (next: Exec)
        ensures
            next@ == after_connect(self@, outcome(reply)),
    {
        match reply {
            Ok(_) => Exec::Prepare(Preparing(self.0)),
            Err(message) => Exec::Finished(Err(failure("connect", message.as_str()))),
        }
    }
}

impl Preparing {
    /// The statement to prepare.
    pub fn sql(&self) -> (sql: &str)
        ensures
            sql@ == self@.sql(),
    {
        proof {
            use_type_invariant(&self.0);
        }
        self.0.schedule[self.0.at].as_str()
    }

    /// Goes on after the attempt to prepare the statement.
    pub fn prepared(self, reply: Result<(), String>) -> (next: Exec)
        ensures
            next@ == after_prepare(self@, outcome(reply)),
    {
        match reply {
            Ok(_) => Exec::Step(Stepping(self.0)),
            Err(message) => self.0.failed("prepare", message.as_str()),
        }
    }
}

impl Stepping {
    /// Goes on after a step of the statement.
    pub fn stepped(self, event: StepEvent, trace: &Trace) -> (next: Exec)
        ensures
            next@ == after_step(self@, event@, trace@),
    {
        match event {
            StepEvent::Row(Some(cells)) => Exec::Step(Stepping(self.0.with_row(cells))),
            StepEvent::Row(None) => self.0.failed("step", "row signalled but absent"),
            StepEvent::Io => Exec::PumpIo(Pumping(self.0)),
            StepEvent::Done => self.0.done(trace),
            StepEvent::Interrupt => self.0.failed_with_sql("interrupted"),
            StepEvent::Busy => self.0.failed_with_sql("busy"),
            StepEvent::Other => Exec::Step(self),
            StepEvent::Failed(message) => self.0.failed("step", message.as_str()),
        }
    }
}

impl Pumping {
    /// Goes on after the attempt to let the engine finish its I/O.
    pub fn pumped(self, reply: Result<(), String>) -> (next: Exec)
        ensures
            next@ == after_pump(self@, outcome(reply)),
    {
        match reply {
            Ok(_) => Exec::Step(Stepping(self.0)),
            Err(message) => self.0.failed("io", message.as_str()),
        }
    }
}

impl Batch {
    /// Adds a row of the statement under way.
    fn with_row(self, cells: Vec<SqlValue>) -> (batch: Batch)
        ensures
            batch@ == self@.with_row(row_json(cells_view(cells@))),
    {
        proof {
            use_type_invariant(&self);
        }
        let Batch { schedule, at, results, mut rows } = self;
        let ghost before = rows@;
        rows.push(row_to_json(cells));
        assert(items_of(rows@) == items_of(before).push(json_of(rows@.last())));
        Batch { schedule, at, results, rows }
    }

    /// Goes on after the statement under way is done.
    fn done(self, trace: &Trace) -> (next: Exec)
        ensures
            next@ == after_step(self@, StepView::Done, trace@),
    {
        proof {
            use_type_invariant(&self);
        }
        let Batch { schedule, at, mut results, rows } = self;
        if at == schedule.len() - 1 {
            let trace = trace_snapshot(trace);
            return Exec::Finished(Ok(response_value(results, &trace)));
        }
        if 2 <= at {
            let ghost before = results@;
            results.push(statement_value(schedule[at].as_str(), rows));
            assert(items_of(results@) == items_of(before).push(json_of(results@.last())));
        }
        let none: Vec<Value> = Vec::new();
        assert(items_of(none@) == Seq::<Json>::empty());
        Exec::Prepare(Preparing(Batch { schedule, at: at + 1, results, rows: none }))
    }
}

/// An invocation runs three statements more than its input holds: one sets
/// pages of 64 KiB and one a cache of 256 of them, before all others, and one
/// truncates the write-ahead log, behind them. Between them stand the statements
/// of the input, each as it is and in their order.
pub proof fn schedule_frames_the_statements(statements: Seq<Seq<char>>)
    ensures
        schedule_of(statements).len() == statements.len() + 3,
        schedule_of(statements)[0] == "PRAGMA page_size = 65536"@,
        schedule_of(statements)[1] == "PRAGMA cache_size = 256"@,
        forall|i: int|
            0 <= i < statements.len() ==> #[trigger] schedule_of(statements)[i + 2] == statements[i],
        schedule_of(statements).last() == "PRAGMA wal_checkpoint(TRUNCATE)"@,
{
    reveal_strlit("PRAGMA page_size = ");
    reveal_strlit("PRAGMA page_size = 65536");
    reveal_strlit("PRAGMA cache_size = ");
    reveal_strlit("PRAGMA cache_size = 256");
    reveal_with_fuel(decimal, 6);
    assert(decimal(65_536) =~= seq!['6', '5', '5', '3', '6']);
    assert(decimal(256) =~= seq!['2', '5', '6']);
    assert(page_size_sql() =~= "PRAGMA page_size = 65536"@);
    assert(cache_size_sql() =~= "PRAGMA cache_size = 256"@);
}

/// An invocation starts at the beginning of the schedule of its statements,
/// without a result or a row, by opening the database. One whose input holds no
/// statements is finished with the reason.
pub proof fn invocation_starts_at_the_beginning(input: Json)
    ensures
        match statements_in(input) {
            Ok(statements) => begun(input) matches ExecView::Open(batch) && batch.schedule
                == schedule_of(statements) && batch.at == 0 && batch.results.len() == 0
                && batch.rows.len() == 0,
            Err(error) => begun(input) == ExecView::Finished(Err(error)),
        },
{
}

/// A failure of `batch` with this code and message, which carries the code of
/// the checkpoint where the last entry of the schedule is under way.
pub open spec fn fails_with(
    next: ExecView,
    batch: BatchView,
    code: Seq<char>,
    message: Seq<char>,
) -> bool {
    next matches ExecView::Finished(Err(error)) && error.message == message && error.code == if batch.at
        + 1 == batch.schedule.len() {
        "checkpoint"@
    } else {
        code
    }
}

/// Each failure of the engine ends the invocation with the code of what failed
/// and with the engine's own message, or with the statement where the engine
/// has none.
pub proof fn failures_say_what_failed(batch: BatchView, message: Seq<char>, trace: TraceView)
    requires
        batch.well_formed(),
    ensures
        after_open(batch, Err(message)) == ExecView::Finished(
            Err(ErrorView { code: "open"@, message }),
        ),
        after_connect(batch, Err(message)) == ExecView::Finished(
            Err(ErrorView { code: "connect"@, message }),
        ),
        fails_with(after_prepare(batch, Err(message)), batch, "prepare"@, message),
        fails_with(after_step(batch, StepView::Failed(message), trace), batch, "step"@, message),
        fails_with(
            after_step(batch, StepView::Row(None), trace),
            batch,
            "step"@,
            "row signalled but absent"@,
        ),
        fails_with(
            after_step(batch, StepView::Interrupt, trace),
            batch,
            "interrupted"@,
            batch.schedule[batch.at],
        ),
        fails_with(
            after_step(batch, StepView::Busy, trace),
            batch,
            "busy"@,
            batch.schedule[batch.at],
        ),
        fails_with(after_pump(batch, Err(message)), batch, "io"@, message),
{
}

/// What is no failure leads on: from the open database to the connection, to
/// the first statement, and to its steps. A row is kept behind those before it.
/// I/O is pumped and anything else stepped again, with everything kept.
pub proof fn progress_keeps_everything(batch: BatchView, cells: Seq<SqlView>, trace: TraceView)
    requires
        batch.well_formed(),
    ensures
        after_open(batch, Ok(())) == ExecView::Connect(batch),
        after_connect(batch, Ok(())) == ExecView::Prepare(batch),
        after_prepare(batch, Ok(())) == ExecView::Step(batch),
        after_step(batch, StepView::Io, trace) == ExecView::PumpIo(batch),
        after_pump(batch, Ok(())) == ExecView::Step(batch),
        after_step(batch, StepView::Other, trace) == ExecView::Step(batch),
        after_step(batch, StepView::Row(Some(cells)), trace) matches ExecView::Step(next) && {
            &&& next.schedule == batch.schedule && next.at == batch.at
            &&& next.results == batch.results
            &&& next.rows.len() == batch.rows.len() + 1
            &&& forall|i: int| 0 <= i < batch.rows.len() ==> #[trigger] next.rows[i] == batch.rows[i]
            &&& next.rows.last() == row_json(cells)
        },
{
}

/// A statement that is done makes room for the next entry of the schedule. Its
/// result, its text and all of its rows, stands behind those before it, except
/// that the two pragmas have none. The last entry ends the invocation with all
/// of the results.
pub proof fn done_statements_leave_their_result(batch: BatchView, trace: TraceView)
    requires
        batch.well_formed(),
    ensures
        batch.at + 1 < batch.schedule.len() ==> (after_step(batch, StepView::Done, trace) matches
            ExecView::Prepare(next) && {
            &&& next.schedule == batch.schedule
            &&& next.at == batch.at + 1
            &&& next.rows.len() == 0
            &&& batch.at < 2 ==> next.results == batch.results
            &&& batch.at >= 2 ==> next.results == batch.results.push(
                statement_result(batch.schedule[batch.at], batch.rows),
            )
        }),
        batch.at + 1 == batch.schedule.len() ==> after_step(batch, StepView::Done, trace)
            == ExecView::Finished(Ok(response(batch.results, trace))),
{
}

/// What came of a step or of a call is what its view says.
pub proof fn events_are_their_views(
    cells: Vec<SqlValue>,
    message: String,
    value: Value,
    error: ProviderError,
)
    ensures
        StepEvent::Row(Some(cells))@ == StepView::Row(Some(cells_view(cells@))),
        StepEvent::Row(None)@ == StepView::Row(None),
        StepEvent::Io@ == StepView::Io,
        StepEvent::Done@ == StepView::Done,
        StepEvent::Interrupt@ == StepView::Interrupt,
        StepEvent::Busy@ == StepView::Busy,
        StepEvent::Other@ == StepView::Other,
        StepEvent::Failed(message)@ == StepView::Failed(message@),
        outcome(Ok(())) == Ok::<(), Seq<char>>(()),
        outcome(Err(message)) == Err::<(), Seq<char>>(message@),
        answer(Ok(value)) == Ok::<Json, ErrorView>(json_of(value)),
        answer(Err(error)) == Err::<Json, ErrorView>(error@),
{
}

} // verus!
