//! What holds of every invocation, whatever the engine answers.

use crate::cell::{cell_json, row_json, row_keeps_every_cell, SqlView};
use crate::error::ErrorView;
use crate::exec::{
    after_connect, after_open, after_prepare, after_pump, after_step, begun, schedule_of, BatchView,
    ExecView, StepView, CHECKPOINT,
};
use crate::json::Json;
use crate::response::{
    response, response_keeps_every_result, result_keeps_every_row, statement_result,
};
use crate::statements::{first_fault_is_first, is_refused, item_fault, statements_in, texts_of};
use crate::text::{first_word, from_first_word, leading_word};
use crate::trace::TraceView;
use vstd::prelude::*;

verus! {

/// What came of the thing that a state asked for.
pub enum Reply {
    Opened(Result<(), Seq<char>>),
    Connected(Result<(), Seq<char>>),
    Prepared(Result<(), Seq<char>>),
    Stepped(StepView),
    Pumped(Result<(), Seq<char>>),
}

/// The state after `reply`, where `trace` has counted the host calls so far.
/// A reply to something that was not asked for changes nothing.
pub open spec fn next(state: ExecView, reply: Reply, trace: TraceView) -> ExecView {
    match (state, reply) {
        (ExecView::Open(batch), Reply::Opened(result)) => after_open(batch, result),
        (ExecView::Connect(batch), Reply::Connected(result)) => after_connect(batch, result),
        (ExecView::Prepare(batch), Reply::Prepared(result)) => after_prepare(batch, result),
        (ExecView::Step(batch), Reply::Stepped(event)) => after_step(batch, event, trace),
        (ExecView::PumpIo(batch), Reply::Pumped(result)) => after_pump(batch, result),
        _ => state,
    }
}

/// A reply together with what the trace has counted when it comes.
pub struct Turn {
    pub reply: Reply,
    pub trace: TraceView,
}

/// The state that an invocation in `state` comes to.
pub open spec fn driven(state: ExecView, turns: Seq<Turn>) -> ExecView
    decreases turns.len(),
{
    if turns.len() == 0 {
        state
    } else {
        driven(next(state, turns[0].reply, turns[0].trace), turns.drop_first())
    }
}

/// The statements that are handed to the engine on the way, in order.
pub open spec fn prepared(state: ExecView, turns: Seq<Turn>) -> Seq<Seq<char>>
    decreases turns.len(),
{
    if turns.len() == 0 {
        Seq::empty()
    } else {
        let now = match (state, turns[0].reply) {
            (ExecView::Prepare(batch), Reply::Prepared(_)) => seq![batch.sql()],
            _ => Seq::empty(),
        };
        now + prepared(next(state, turns[0].reply, turns[0].trace), turns.drop_first())
    }
}

/// The rows that the engine gives on the way for entry `k` of the schedule, in order.
pub open spec fn rows_given(state: ExecView, turns: Seq<Turn>, k: int) -> Seq<Json>
    decreases turns.len(),
{
    if turns.len() == 0 {
        Seq::empty()
    } else {
        let now = match (state, turns[0].reply) {
            (ExecView::Step(batch), Reply::Stepped(StepView::Row(Some(cells)))) => if batch.at
                == k {
                seq![row_json(cells)]
            } else {
                Seq::empty()
            },
            _ => Seq::empty(),
        };
        now + rows_given(next(state, turns[0].reply, turns[0].trace), turns.drop_first(), k)
    }
}

/// What the trace has counted when the invocation finishes.
pub open spec fn end_trace(state: ExecView, turns: Seq<Turn>) -> TraceView
    decreases turns.len(),
{
    if turns.len() == 0 {
        TraceView::empty()
    } else {
        let after = next(state, turns[0].reply, turns[0].trace);
        if after is Finished {
            turns[0].trace
        } else {
            end_trace(after, turns.drop_first())
        }
    }
}

/// The batch of a state that is not finished.
pub open spec fn batch_of(state: ExecView) -> BatchView
    recommends
        !(state is Finished),
{
    match state {
        ExecView::Open(batch) => batch,
        ExecView::Connect(batch) => batch,
        ExecView::Prepare(batch) => batch,
        ExecView::Step(batch) => batch,
        ExecView::PumpIo(batch) => batch,
        ExecView::Finished(_) => arbitrary(),
    }
}

/// How many entries of the schedule have been handed to the engine.
pub open spec fn handed(state: ExecView) -> int {
    match state {
        ExecView::Step(batch) => batch.at + 1,
        ExecView::PumpIo(batch) => batch.at + 1,
        _ => batch_of(state).at,
    }
}

/// What every state keeps on the way of an invocation with these statements.
pub open spec fn sound(state: ExecView, statements: Seq<Seq<char>>) -> bool {
    state is Finished || {
        let batch = batch_of(state);
        &&& batch.well_formed()
        &&& batch.schedule == schedule_of(statements)
        &&& (state is Open || state is Connect) ==> batch.at == 0
    }
}

/// The results that an invocation in `state` ends with where it succeeds.
spec fn results_to_come(
    state: ExecView,
    turns: Seq<Turn>,
    statements: Seq<Seq<char>>,
) -> Seq<Json> {
    let batch = batch_of(state);
    Seq::new(
        statements.len(),
        |i: int|
            if i < batch.results.len() {
                batch.results[i]
            } else if i + 2 == batch.at {
                statement_result(statements[i], batch.rows + rows_given(state, turns, i + 2))
            } else {
                statement_result(statements[i], rows_given(state, turns, i + 2))
            },
    )
}

/// A turn keeps a state sound.
proof fn sound_next(state: ExecView, turn: Turn, statements: Seq<Seq<char>>)
    requires
        sound(state, statements),
    ensures
        sound(next(state, turn.reply, turn.trace), statements),
{
}

/// An invocation never goes back in its schedule.
proof fn no_rows_of_the_past(
    state: ExecView,
    turns: Seq<Turn>,
    k: int,
)
    requires
        !(state is Finished) ==> k < batch_of(state).at,
    ensures
        rows_given(state, turns, k) == Seq::<Json>::empty(),
    decreases turns.len(),
{
    if turns.len() > 0 {
        let after = next(state, turns[0].reply, turns[0].trace);
        no_rows_of_the_past(after, turns.drop_first(), k);
    }
}

/// A finished invocation stays as it is: whatever else comes, its answer
/// stands and nothing more is handed to the engine.
pub proof fn finished_stays(result: Result<Json, ErrorView>, turns: Seq<Turn>)
    ensures
        driven(ExecView::Finished(result), turns) == ExecView::Finished(result),
        prepared(ExecView::Finished(result), turns) == Seq::<Seq<char>>::empty(),
    decreases turns.len(),
{
    if turns.len() > 0 {
        finished_stays(result, turns.drop_first());
    }
}

/// Where an invocation succeeds, its answer is made of the results to come.
proof fn results_come(state: ExecView, turns: Seq<Turn>, statements: Seq<Seq<char>>)
    requires
        sound(state, statements),
        !(state is Finished),
    ensures
        driven(state, turns) matches ExecView::Finished(Ok(result)) ==> result == response(
            results_to_come(state, turns, statements),
            end_trace(state, turns),
        ),
    decreases turns.len(),
{
    if turns.len() > 0 {
        let turn = turns[0];
        let rest = turns.drop_first();
        let after = next(state, turn.reply, turn.trace);
        let batch = batch_of(state);
        sound_next(state, turn, statements);
        if let ExecView::Finished(result) = after {
            finished_stays(result, rest);
            if result is Ok {
                assert(results_to_come(state, turns, statements) =~= batch.results);
            }
        } else {
            results_come(after, rest, statements);
            let now = results_to_come(state, turns, statements);
            let then = results_to_come(after, rest, statements);
            assert forall|i: int| 0 <= i < statements.len() implies now[i] == then[i] by {
                let k = i + 2;
                let given = rows_given(state, turns, k);
                let later = rows_given(after, rest, k);
                if i >= batch.results.len() {
                    if k == batch.at {
                        if batch_of(after).at == batch.at {
                            assert(batch.rows + given =~= batch_of(after).rows + later);
                        } else {
                            no_rows_of_the_past(after, rest, k);
                            assert(batch.rows + given =~= batch.rows);
                            assert(batch.schedule[k] == statements[i]);
                        }
                    } else {
                        assert(given =~= later);
                        assert(batch_of(after).rows + later =~= later || k != batch_of(after).at);
                    }
                }
            }
            assert(now =~= then);
        }
    }
}

/// What is handed to the engine is a stretch of the schedule, from where the
/// invocation stands, and all that is left of it where it succeeds.
proof fn schedule_is_followed(state: ExecView, turns: Seq<Turn>, statements: Seq<Seq<char>>)
    requires
        sound(state, statements),
        !(state is Finished),
    ensures
        ({
            let all = schedule_of(statements);
            let given = prepared(state, turns);
            &&& handed(state) + given.len() <= all.len()
            &&& given == all.subrange(handed(state), handed(state) + given.len())
            &&& driven(state, turns) matches ExecView::Finished(Ok(_)) ==> handed(state)
                + given.len() == all.len()
        }),
    decreases turns.len(),
{
    let all = schedule_of(statements);
    if turns.len() == 0 {
        assert(prepared(state, turns) =~= all.subrange(handed(state), handed(state)));
    } else {
        let turn = turns[0];
        let rest = turns.drop_first();
        let after = next(state, turn.reply, turn.trace);
        sound_next(state, turn, statements);
        let given = prepared(state, turns);
        if let ExecView::Finished(result) = after {
            finished_stays(result, rest);
        } else {
            schedule_is_followed(after, rest, statements);
        }
        assert(given =~= all.subrange(handed(state), handed(state) + given.len()));
    }
}

/// The statements are run in their order, after the two pragmas and before
/// the checkpoint, and nothing else is run. Whatever the engine answers, what
/// has been handed to it is the beginning of that schedule; where the
/// invocation succeeds it is all of it.
pub proof fn statements_run_in_order(
    input: Json,
    turns: Seq<Turn>,
)
    requires
        statements_in(input) is Ok,
    ensures
        prepared(begun(input), turns).is_prefix_of(schedule_of(statements_in(input)->Ok_0)),
        driven(begun(input), turns) matches ExecView::Finished(Ok(_)) ==> prepared(
            begun(input),
            turns,
        ) == schedule_of(statements_in(input)->Ok_0),
{
    let statements = statements_in(input)->Ok_0;
    let all = schedule_of(statements);
    schedule_is_followed(begun(input), turns, statements);
    let given = prepared(begun(input), turns);
    assert(given =~= all.subrange(0, given.len() as int));
    if given.len() == all.len() {
        assert(given =~= all);
    }
}

/// No invocation succeeds without the checkpoint that empties the
/// write-ahead log, and nothing is run after it.
pub proof fn success_empties_the_log(input: Json, turns: Seq<Turn>)
    requires
        driven(begun(input), turns) matches ExecView::Finished(Ok(_)),
    ensures
        prepared(begun(input), turns).len() > 0,
        prepared(begun(input), turns).last() == CHECKPOINT@,
{
    if statements_in(input) is Ok {
        statements_run_in_order(input, turns);
    } else {
        finished_stays(Err(statements_in(input)->Err_0), turns);
    }
}

/// Where an invocation succeeds, its answer holds one result for each
/// statement, in order: the text of the statement and exactly the rows that
/// the engine gave for it. The storage report is that of the trace at the end.
pub proof fn success_returns_the_rows_given(input: Json, turns: Seq<Turn>)
    requires
        driven(begun(input), turns) matches ExecView::Finished(Ok(_)),
    ensures
        statements_in(input) is Ok,
        ({
            let statements = statements_in(input)->Ok_0;
            driven(begun(input), turns)->Finished_0->Ok_0 == response(
                Seq::new(
                    statements.len(),
                    |i: int|
                        statement_result(statements[i], rows_given(begun(input), turns, i + 2)),
                ),
                end_trace(begun(input), turns),
            )
        }),
{
    if statements_in(input) is Ok {
        let statements = statements_in(input)->Ok_0;
        results_come(begun(input), turns, statements);
        assert(results_to_come(begun(input), turns, statements) =~= Seq::new(
            statements.len(),
            |i: int| statement_result(statements[i], rows_given(begun(input), turns, i + 2)),
        ));
    } else {
        finished_stays(Err(statements_in(input)->Err_0), turns);
    }
}

/// An input that is refused is answered with its failure, and nothing is
/// handed to the engine.
pub proof fn refused_input_reaches_no_engine(input: Json, turns: Seq<Turn>)
    requires
        statements_in(input) is Err,
    ensures
        driven(begun(input), turns) == ExecView::Finished(Err(statements_in(input)->Err_0)),
        prepared(begun(input), turns) == Seq::<Seq<char>>::empty(),
{
    finished_stays(Err(statements_in(input)->Err_0), turns);
}

/// Whether an answer of the engine is no failure.
pub open spec fn benign(reply: Reply) -> bool {
    match reply {
        Reply::Opened(result) => result is Ok,
        Reply::Connected(result) => result is Ok,
        Reply::Prepared(result) => result is Ok,
        Reply::Stepped(event) => match event {
            StepView::Row(row) => row is Some,
            StepView::Io => true,
            StepView::Done => true,
            StepView::Other => true,
            _ => false,
        },
        Reply::Pumped(result) => result is Ok,
    }
}

/// An invocation whose input is in order fails only where the engine failed.
pub proof fn no_failure_without_cause(input: Json, turns: Seq<Turn>)
    requires
        statements_in(input) is Ok,
        forall|i: int| 0 <= i < turns.len() ==> benign((#[trigger] turns[i]).reply),
    ensures
        !(driven(begun(input), turns) matches ExecView::Finished(Err(_))),
{
    benign_turns_do_not_fail(begun(input), turns);
}

proof fn benign_turns_do_not_fail(state: ExecView, turns: Seq<Turn>)
    requires
        !(state matches ExecView::Finished(Err(_))),
        forall|i: int| 0 <= i < turns.len() ==> benign((#[trigger] turns[i]).reply),
    ensures
        !(driven(state, turns) matches ExecView::Finished(Err(_))),
    decreases turns.len(),
{
    if turns.len() > 0 {
        assert(benign(turns[0].reply));
        let rest = turns.drop_first();
        assert forall|i: int| 0 <= i < rest.len() implies benign((#[trigger] rest[i]).reply) by {
            assert(rest[i] == turns[i + 1]);
        }
        benign_turns_do_not_fail(next(state, turns[0].reply, turns[0].trace), rest);
    }
}

/// The turns of an engine that is done with each of `n` statements at the first step.
pub open spec fn prompt_runs(n: nat, trace: TraceView) -> Seq<Turn>
    decreases n,
{
    if n == 0 {
        Seq::empty()
    } else {
        seq![
            Turn { reply: Reply::Prepared(Ok(())), trace },
            Turn { reply: Reply::Stepped(StepView::Done), trace },
        ] + prompt_runs((n - 1) as nat, trace)
    }
}

/// The turns of an engine that opens, connects and is then as prompt as that.
pub open spec fn prompt_turns(n: nat, trace: TraceView) -> Seq<Turn> {
    seq![
        Turn { reply: Reply::Opened(Ok(())), trace },
        Turn { reply: Reply::Connected(Ok(())), trace },
    ] + prompt_runs(n, trace)
}

proof fn prompt_runs_finish(state: ExecView, statements: Seq<Seq<char>>, trace: TraceView)
    requires
        state is Prepare,
        sound(state, statements),
    ensures
        driven(
            state,
            prompt_runs((schedule_of(statements).len() - batch_of(state).at) as nat, trace),
        ) matches ExecView::Finished(Ok(_)),
    decreases schedule_of(statements).len() - batch_of(state).at,
{
    let n = (schedule_of(statements).len() - batch_of(state).at) as nat;
    let turns = prompt_runs(n, trace);
    let rest = prompt_runs((n - 1) as nat, trace);
    let stepping = next(state, turns[0].reply, trace);
    let after = next(stepping, turns[1].reply, trace);
    assert(turns.drop_first().drop_first() == rest);
    assert(turns.drop_first()[0] == turns[1]);
    assert(driven(state, turns) == driven(stepping, turns.drop_first()));
    assert(driven(stepping, turns.drop_first()) == driven(after, rest));
    if let ExecView::Finished(result) = after {
        finished_stays(result, rest);
    } else {
        prompt_runs_finish(after, statements, trace);
    }
}

/// An invocation whose input is in order succeeds where the engine opens,
/// connects, and is done with each statement of the schedule.
pub proof fn success_is_owed(input: Json, trace: TraceView)
    requires
        statements_in(input) is Ok,
    ensures
        driven(
            begun(input),
            prompt_turns(schedule_of(statements_in(input)->Ok_0).len(), trace),
        ) matches ExecView::Finished(Ok(_)),
{
    let statements = statements_in(input)->Ok_0;
    let n = schedule_of(statements).len();
    let turns = prompt_turns(n, trace);
    let batch = BatchView::start(statements);
    let connecting = next(begun(input), turns[0].reply, trace);
    let preparing = next(connecting, turns[1].reply, trace);
    assert(turns.drop_first().drop_first() == prompt_runs(n, trace));
    assert(turns.drop_first()[0] == turns[1]);
    assert(driven(begun(input), turns) == driven(connecting, turns.drop_first()));
    assert(driven(connecting, turns.drop_first()) == driven(preparing, prompt_runs(n, trace)));
    assert(preparing == ExecView::Prepare(batch));
    prompt_runs_finish(preparing, statements, trace);
}

/// A text that begins with `P` is not refused.
proof fn pragma_is_not_refused(sql: Seq<char>)
    requires
        sql.len() > 0,
        sql[0] == 'P',
    ensures
        !is_refused(sql),
{
    reveal_strlit("vacuum");
    assert(from_first_word(sql) == sql);
    assert(first_word(sql)[0] == 'P');
    assert(leading_word(sql)[0] == 'p');
}

/// No statement that begins with a refused word is ever handed to the engine.
pub proof fn no_refused_statement_is_run(input: Json, turns: Seq<Turn>)
    ensures
        forall|i: int|
            #![trigger prepared(begun(input), turns)[i]]
            0 <= i < prepared(begun(input), turns).len() ==> !is_refused(
                prepared(begun(input), turns)[i],
            ),
{
    if statements_in(input) is Ok {
        let statements = statements_in(input)->Ok_0;
        let items = input->Object_0["statements"@]->Array_0;
        statements_run_in_order(input, turns);
        first_fault_is_first(items);
        let given = prepared(begun(input), turns);
        let all = schedule_of(statements);
        reveal_strlit("PRAGMA page_size = ");
        reveal_strlit("PRAGMA cache_size = ");
        reveal_strlit("PRAGMA wal_checkpoint(TRUNCATE)");
        assert forall|i: int| 0 <= i < given.len() implies !is_refused(#[trigger] given[i]) by {
            assert(given[i] == all[i]);
            if 2 <= i < all.len() - 1 {
                assert(all[i] == texts_of(items)[i - 2]);
                assert(item_fault(items[i - 2]) is None);
            } else {
                pragma_is_not_refused(all[i]);
            }
        }
    } else {
        refused_input_reaches_no_engine(input, turns);
    }
}

/// How many entries of the schedule the engine is done with on the way.
pub open spec fn entries_done(state: ExecView, turns: Seq<Turn>) -> nat
    decreases turns.len(),
{
    if turns.len() == 0 {
        0
    } else {
        let now: nat = match (state, turns[0].reply) {
            (ExecView::Step(_), Reply::Stepped(StepView::Done)) => 1,
            _ => 0,
        };
        now + entries_done(next(state, turns[0].reply, turns[0].trace), turns.drop_first())
    }
}

proof fn finished_is_done_with_nothing_more(result: Result<Json, ErrorView>, turns: Seq<Turn>)
    ensures
        entries_done(ExecView::Finished(result), turns) == 0,
    decreases turns.len(),
{
    if turns.len() > 0 {
        finished_is_done_with_nothing_more(result, turns.drop_first());
    }
}

proof fn code_tells_how_far(state: ExecView, turns: Seq<Turn>, statements: Seq<Seq<char>>)
    requires
        sound(state, statements),
        !(state is Finished),
    ensures
        driven(state, turns) matches ExecView::Finished(Err(error)) ==> (error.code
            == "checkpoint"@ <==> batch_of(state).at + entries_done(state, turns)
            == statements.len() + 2),
        driven(state, turns) matches ExecView::Finished(Ok(_)) ==> batch_of(state).at
            + entries_done(state, turns) == statements.len() + 3,
    decreases turns.len(),
{
    if turns.len() > 0 {
        let rest = turns.drop_first();
        let after = next(state, turns[0].reply, turns[0].trace);
        sound_next(state, turns[0], statements);
        if let ExecView::Finished(result) = after {
            finished_stays(result, rest);
            finished_is_done_with_nothing_more(result, rest);
            reveal_strlit("checkpoint");
            reveal_strlit("open");
            reveal_strlit("connect");
            reveal_strlit("prepare");
            reveal_strlit("step");
            reveal_strlit("io");
            reveal_strlit("interrupted");
            reveal_strlit("busy");
            assert("checkpoint"@.len() == 10);
            assert("interrupted"@.len() == 11);
            assert("open"@.len() == 4 && "connect"@.len() == 7 && "prepare"@.len() == 7);
            assert("step"@.len() == 4 && "io"@.len() == 2 && "busy"@.len() == 4);
        } else {
            code_tells_how_far(after, rest, statements);
        }
    }
}

/// The code of a failure tells how far the invocation came: it is that of the
/// checkpoint exactly where the engine was done with the pragmas and with
/// every statement of the input, and only emptying the log failed.
pub proof fn checkpoint_fails_after_every_statement(input: Json, turns: Seq<Turn>)
    requires
        statements_in(input) is Ok,
    ensures
        ({
            let statements = statements_in(input)->Ok_0;
            let done = entries_done(begun(input), turns);
            &&& driven(begun(input), turns) matches ExecView::Finished(Err(error)) ==> (error.code
                == "checkpoint"@ <==> done == statements.len() + 2)
            &&& driven(begun(input), turns) matches ExecView::Finished(Ok(_)) ==> done
                == statements.len() + 3
        }),
{
    code_tells_how_far(begun(input), turns, statements_in(input)->Ok_0);
}

/// The rows, as cells, that the engine gives on the way for entry `k` of the
/// schedule, in order.
pub open spec fn cells_given(state: ExecView, turns: Seq<Turn>, k: int) -> Seq<Seq<SqlView>>
    decreases turns.len(),
{
    if turns.len() == 0 {
        Seq::empty()
    } else {
        let now = match (state, turns[0].reply) {
            (ExecView::Step(batch), Reply::Stepped(StepView::Row(Some(cells)))) => if batch.at
                == k {
                seq![cells]
            } else {
                Seq::empty()
            },
            _ => Seq::empty(),
        };
        now + cells_given(next(state, turns[0].reply, turns[0].trace), turns.drop_first(), k)
    }
}

proof fn rows_are_cells(state: ExecView, turns: Seq<Turn>, k: int)
    ensures
        rows_given(state, turns, k).len() == cells_given(state, turns, k).len(),
        forall|r: int|
            0 <= r < cells_given(state, turns, k).len() ==> #[trigger] rows_given(state, turns, k)[r]
                == row_json(cells_given(state, turns, k)[r]),
    decreases turns.len(),
{
    if turns.len() > 0 {
        let after = next(state, turns[0].reply, turns[0].trace);
        let rest = turns.drop_first();
        rows_are_cells(after, rest, k);
        let rows = rows_given(state, turns, k);
        let cells = cells_given(state, turns, k);
        let ahead = cells.len() - cells_given(after, rest, k).len();
        assert forall|r: int| 0 <= r < cells.len() implies #[trigger] rows[r] == row_json(
            cells[r],
        ) by {
            if r >= ahead {
                assert(rows[r] == rows_given(after, rest, k)[r - ahead]);
                assert(cells[r] == cells_given(after, rest, k)[r - ahead]);
            }
        }
    }
}

/// Where an invocation succeeds, entry `i` of the answer's results holds, under
/// `sql`, the text of statement `i` and, under `rows`, one array for each row
/// that the engine gave for it: as many as it gave, in that order, each with
/// one item for each cell, which is what that cell becomes.
pub proof fn answer_holds_every_row_of_every_statement(input: Json, turns: Seq<Turn>)
    requires
        driven(begun(input), turns) matches ExecView::Finished(Ok(_)),
    ensures
        statements_in(input) is Ok,
        ({
            let statements = statements_in(input)->Ok_0;
            let answer = driven(begun(input), turns)->Finished_0->Ok_0;
            &&& answer matches Json::Object(entries)
            &&& entries["results"@] matches Json::Array(results)
            &&& results.len() == statements.len()
            &&& forall|i: int|
                #![trigger results[i]]
                0 <= i < statements.len() ==> {
                    let given = cells_given(begun(input), turns, i + 2);
                    &&& results[i] matches Json::Object(result)
                    &&& result["sql"@] == Json::Str(statements[i])
                    &&& result["rows"@] matches Json::Array(rows)
                    &&& rows.len() == given.len()
                    &&& forall|r: int|
                        #![trigger rows[r]]
                        0 <= r < given.len() ==> {
                            &&& rows[r] matches Json::Array(items)
                            &&& items.len() == given[r].len()
                            &&& forall|c: int|
                                0 <= c < items.len() ==> #[trigger] items[c] == cell_json(given[r][c])
                        }
                }
        }),
{
    success_returns_the_rows_given(input, turns);
    let statements = statements_in(input)->Ok_0;
    let all = Seq::new(
        statements.len(),
        |i: int| statement_result(statements[i], rows_given(begun(input), turns, i + 2)),
    );
    let trace = end_trace(begun(input), turns);
    response_keeps_every_result(all, trace);
    let entries = driven(begun(input), turns)->Finished_0->Ok_0->Object_0;
    let results = entries["results"@]->Array_0;
    assert forall|i: int|
        #![trigger results[i]]
        0 <= i < statements.len() implies {
        let given = cells_given(begun(input), turns, i + 2);
        &&& results[i] matches Json::Object(result)
        &&& result["sql"@] == Json::Str(statements[i])
        &&& result["rows"@] matches Json::Array(rows)
        &&& rows.len() == given.len()
        &&& forall|r: int|
            #![trigger rows[r]]
            0 <= r < given.len() ==> {
                &&& rows[r] matches Json::Array(items)
                &&& items.len() == given[r].len()
                &&& forall|c: int|
                    0 <= c < items.len() ==> #[trigger] items[c] == cell_json(given[r][c])
            }
    } by {
        let given = cells_given(begun(input), turns, i + 2);
        let kept = rows_given(begun(input), turns, i + 2);
        assert(results[i] == all[i]);
        result_keeps_every_row(statements[i], kept);
        rows_are_cells(begun(input), turns, i + 2);
        let rows = results[i]->Object_0["rows"@]->Array_0;
        assert forall|r: int|
            #![trigger rows[r]]
            0 <= r < given.len() implies {
            &&& rows[r] matches Json::Array(items)
            &&& items.len() == given[r].len()
            &&& forall|c: int|
                0 <= c < items.len() ==> #[trigger] items[c] == cell_json(given[r][c])
        } by {
            assert(rows[r] == kept[r]);
            row_keeps_every_cell(given[r]);
        }
    }
}

} // verus!
