//! What holds of every run of a load: the chunks of a table cover its rows in order, the
//! JSON sent for a chunk holds exactly its rows, a
//! chunk that cannot be written as JSON stops the insertion with no status update, a chunk
//! that the procedure refuses is recorded before the insertion stops, an insertion makes at
//! most one status update and it is its last call, the tables are handled one after the
//! other, a skipped table changes nothing, a failed insertion ends the load at its table,
//! an insertion counts every row that was read, the catalogue is looked up by the exact
//! key, the JSON array holds each row's text unchanged, the file log row copies the header
//! and the key, and every answered action takes the load closer to its end.

use vstd::prelude::*;

use crate::batch::{
    batch_action, batch_expects, batch_finished, batch_inv, batch_next, batch_start, chunk_end, chunk_rows_fit, json_array,
    lemma_batch_next_inv,
    logged_id, texts, BatchActionModel, BatchEvent, BatchFailure, BatchModel, BatchPhase, CHUNK_ROWS,
};
use crate::loader::{
    lemma_load_next_inv, load_action, load_inv, load_next, load_start, settle, LoadActionModel, LoadEvent, LoadFailure,
    LoadModel, LoadPhase,
};
use crate::catalogue::{find_entry, find_entry_from, Module, CATALOGUE};
use crate::file::{record_for, AemoHeader, KeyModel};
use crate::plan::plan_of;

verus! {

/// The insertion `m` after one chunk: its rows `rows` were written as JSON and the insert
/// procedure took them.
pub open spec fn chunk_cycle(m: BatchModel, rows: Vec<String>) -> BatchModel {
    batch_next(batch_next(m, BatchEvent::ChunkRows(rows)), BatchEvent::ChunkDone)
}

/// The insertion `m` after `k` chunks, the rows of chunk `i` written as `rs[i]`.
pub open spec fn after_chunks(m: BatchModel, rs: Seq<Vec<String>>, k: nat) -> BatchModel
    decreases k,
{
    if k == 0 {
        m
    } else {
        chunk_cycle(after_chunks(m, rs, (k - 1) as nat), rs[k - 1])
    }
}

/// The insertion of a table starts by recording it in the file log. An id that comes back
/// leads to the first chunk, or straight to marking the log row complete when the table has
/// no rows; no row or no id that comes back stops it, as does a failed insertion of the log
/// row.
pub proof fn law_file_log_outcome(procedure: Seq<char>, total: nat, first: Option<Option<i64>>)
    ensures
        batch_action(batch_start(procedure, total)) == BatchActionModel::InsertFileLog,
        first matches Some(Some(id)) ==> {
            let n = batch_next(batch_start(procedure, total), BatchEvent::FileLogged(first));
            &&& n.file_log_id == id
            &&& n.sent == 0
            &&& total == 0 ==> batch_action(n) == (BatchActionModel::MarkComplete { file_log_id: id })
            &&& total > 0 ==> n.phase == BatchPhase::AwaitChunkRows
        },
        !(first matches Some(Some(_))) ==> batch_action(
            batch_next(batch_start(procedure, total), BatchEvent::FileLogged(first)),
        ) == BatchActionModel::Finished(Err(BatchFailure::FileLogMissing)),
        batch_action(batch_next(batch_start(procedure, total), BatchEvent::FileLogFailed)) == BatchActionModel::Finished(
            Err(BatchFailure::FileLogQuery),
        ),
{
}

proof fn lemma_after_chunks_keeps(m: BatchModel, rs: Seq<Vec<String>>, k: nat)
    ensures
        after_chunks(m, rs, k).total == m.total,
        after_chunks(m, rs, k).procedure == m.procedure,
        after_chunks(m, rs, k).file_log_id == m.file_log_id,
    decreases k,
{
    if k > 0 {
        lemma_after_chunks_keeps(m, rs, (k - 1) as nat);
    }
}

/// Number of rows in chunk `k` of a table of `total` rows.
pub open spec fn chunk_len(total: nat, k: nat) -> int {
    chunk_end(total, (k * CHUNK_ROWS) as nat) - k * CHUNK_ROWS
}

/// The chunks of a table are asked for and sent in order and cover its rows, none lost and
/// none repeated: after `j` chunks, while rows are left, the rows `j * CHUNK_ROWS` up to
/// `(j + 1) * CHUNK_ROWS` or the end of the table are to be written as JSON; the JSON texts
/// of exactly those rows go to the procedure as one JSON array, and a list of another
/// length answers nothing; once the last chunk was taken every row was sent and the log row
/// is to be marked complete.
pub proof fn law_chunks_cover_rows(m: BatchModel, rs: Seq<Vec<String>>, j: nat)
    requires
        batch_inv(m),
        m.phase == BatchPhase::AwaitChunkRows,
        m.sent == 0,
        j <= rs.len(),
        forall|k: int| 0 <= k < j ==> (#[trigger] rs[k])@.len() == chunk_len(m.total, k as nat),
    ensures
        j * CHUNK_ROWS < m.total ==> {
            let s = after_chunks(m, rs, j);
            let start = j * CHUNK_ROWS;
            let end = if m.total <= start + CHUNK_ROWS { m.total as int } else { start + CHUNK_ROWS };
            &&& s.phase == BatchPhase::AwaitChunkRows
            &&& s.sent == start
            &&& batch_action(s) == (BatchActionModel::SerializeChunk {
                first_row: start as nat,
                end_row: end as nat,
                total_rows: m.total,
            })
            &&& forall|v: Vec<String>|
                v@.len() == end - start ==> #[trigger] batch_action(batch_next(s, BatchEvent::ChunkRows(v)))
                    == (BatchActionModel::ExecuteChunk {
                    procedure: m.procedure,
                    file_log_id: m.file_log_id,
                    json: json_array(texts(v@)),
                    first_row: start as nat,
                    end_row: end as nat,
                    total_rows: m.total,
                })
            &&& forall|v: Vec<String>|
                v@.len() != end - start ==> #[trigger] batch_next(s, BatchEvent::ChunkRows(v)) == s
        },
        j >= 1 && (j - 1) * CHUNK_ROWS < m.total <= j * CHUNK_ROWS ==> {
            let s = after_chunks(m, rs, j);
            &&& s.phase == BatchPhase::AwaitCompletionMark
            &&& s.sent == m.total
            &&& batch_action(s) == (BatchActionModel::MarkComplete { file_log_id: m.file_log_id })
        },
    decreases j,
{
    assert(j * CHUNK_ROWS == (j - 1) * CHUNK_ROWS + CHUNK_ROWS) by (nonlinear_arith)
        requires
            j >= 0,
    ;
    lemma_after_chunks_keeps(m, rs, j);
    if j > 0 {
        law_chunks_cover_rows(m, rs, (j - 1) as nat);
        assert(rs[j - 1]@.len() == chunk_len(m.total, (j - 1) as nat));
        let p = after_chunks(m, rs, (j - 1) as nat);
        lemma_after_chunks_keeps(m, rs, (j - 1) as nat);
        assert(after_chunks(m, rs, j) == chunk_cycle(p, rs[j - 1]));
        if (j - 1) * CHUNK_ROWS < m.total {
            assert(p.sent == (j - 1) * CHUNK_ROWS);
        }
    }
}

/// The JSON that goes to the insert procedure holds exactly the rows of the chunk it names:
/// it is the JSON array of the pending texts, one for each row from `first_row` up to
/// `end_row`.
pub proof fn law_sent_json_holds_the_chunk(m: BatchModel)
    requires
        batch_inv(m),
        batch_action(m) is ExecuteChunk,
    ensures
        match batch_action(m) {
            BatchActionModel::ExecuteChunk { json, first_row, end_row, .. } => {
                &&& json == json_array(m.chunk)
                &&& m.chunk.len() == end_row - first_row
            },
            _ => false,
        },
{
}

/// A chunk whose rows cannot be written as JSON stops the insertion at once: the log row
/// is neither marked failed nor complete, and nothing more is sent.
pub proof fn law_unserialisable_chunk_stops(m: BatchModel)
    requires
        batch_inv(m),
        m.phase == BatchPhase::AwaitChunkRows,
    ensures
        batch_next(m, BatchEvent::ChunkSerializeFailed).phase == BatchPhase::Failed(BatchFailure::ChunkSerialize),
        batch_action(batch_next(m, BatchEvent::ChunkSerializeFailed)) == BatchActionModel::Finished(
            Err(BatchFailure::ChunkSerialize),
        ),
{
}

/// A chunk that the insert procedure refuses is recorded: the log row is marked failed
/// with the refusal's message, and then the insertion stops with the chunk's failure, or
/// with the failure of the update when marking the row failed fails.
pub proof fn law_failed_chunk_is_recorded(m: BatchModel, msg: String)
    requires
        batch_inv(m),
        m.phase == BatchPhase::AwaitChunk,
    ensures
        batch_action(batch_next(m, BatchEvent::ChunkFailed(msg))) == (BatchActionModel::MarkFailed {
            file_log_id: m.file_log_id,
            message: msg@,
        }),
        batch_action(batch_next(batch_next(m, BatchEvent::ChunkFailed(msg)), BatchEvent::StatusUpdated))
            == BatchActionModel::Finished(Err(BatchFailure::ChunkExecute)),
        batch_action(batch_next(batch_next(m, BatchEvent::ChunkFailed(msg)), BatchEvent::StatusUpdateFailed))
            == BatchActionModel::Finished(Err(BatchFailure::StatusUpdate)),
{
}

/// An insertion succeeds only by marking its log row complete after every row was sent.
pub proof fn law_success_needs_all_rows(m: BatchModel, e: BatchEvent)
    requires
        batch_inv(m),
        m.phase != BatchPhase::Succeeded,
        batch_next(m, e).phase == BatchPhase::Succeeded,
    ensures
        m.phase == BatchPhase::AwaitCompletionMark,
        m.sent == m.total,
        (e is StatusUpdated),
{
}

/// A finished insertion stays as it is, whatever comes.
pub proof fn law_batch_finished_is_final(m: BatchModel, e: BatchEvent)
    requires
        batch_finished(m.phase),
    ensures
        batch_next(m, e) == m,
{
}

/// The steps of a run of an insertion from `m`: each state, with the event that answered
/// its action; events that answer nothing are passed over.
pub open spec fn batch_trace(m: BatchModel, es: Seq<BatchEvent>) -> Seq<(BatchModel, BatchEvent)>
    decreases es.len(),
{
    if es.len() == 0 {
        Seq::empty()
    } else if batch_expects(m, es[0]) {
        seq![(m, es[0])] + batch_trace(batch_next(m, es[0]), es.drop_first())
    } else {
        batch_trace(m, es.drop_first())
    }
}

/// Whether an action updates the status of the file log row.
pub open spec fn is_status_update(a: BatchActionModel) -> bool {
    (a is MarkFailed) || (a is MarkComplete)
}

/// Whether an insertion in the phase `p` has met no failure.
pub open spec fn untroubled(p: BatchPhase) -> bool {
    ||| p == BatchPhase::AwaitFileLog
    ||| p == BatchPhase::AwaitChunkRows
    ||| p == BatchPhase::AwaitChunk
    ||| p == BatchPhase::AwaitCompletionMark
}

/// The message that a refused chunk came back with.
pub open spec fn refusal(e: BatchEvent) -> Seq<char> {
    match e {
        BatchEvent::ChunkFailed(msg) => msg@,
        _ => Seq::empty(),
    }
}

/// Whether the event `e` answered the action of the insertion `s` with success.
pub open spec fn answered_well(s: BatchModel, e: BatchEvent) -> bool {
    match s.phase {
        BatchPhase::AwaitFileLog => (e matches BatchEvent::FileLogged(first) && logged_id(first) is Some),
        BatchPhase::AwaitChunkRows => chunk_rows_fit(s, e),
        BatchPhase::AwaitChunk => (e is ChunkDone),
        _ => true,
    }
}

/// In a run `t`, a status update is the last step.
pub open spec fn status_update_is_last(t: Seq<(BatchModel, BatchEvent)>) -> bool {
    forall|i: int| 0 <= i < t.len() && #[trigger] is_status_update(batch_action(t[i].0)) ==> i == t.len() - 1
}

/// In a run `t`, the log row is marked failed only right after a chunk that the insert
/// procedure refused, with the refusal's message.
pub open spec fn failure_mark_follows_refusal(t: Seq<(BatchModel, BatchEvent)>) -> bool {
    forall|i: int|
        0 <= i < t.len() && (#[trigger] batch_action(t[i].0) is MarkFailed) ==> {
            &&& i > 0
            &&& batch_action(t[i - 1].0) is ExecuteChunk
            &&& t[i - 1].1 is ChunkFailed
            &&& batch_action(t[i].0) == (BatchActionModel::MarkFailed {
                file_log_id: t[i - 1].0.file_log_id,
                message: refusal(t[i - 1].1),
            })
        }
}

/// In a run `t` of the insertion of `total` rows, the log row is marked complete only when
/// every row was sent and every earlier action succeeded: the log row was inserted, and
/// every chunk was written as JSON and taken by the insert procedure.
pub open spec fn completion_follows_success(t: Seq<(BatchModel, BatchEvent)>, total: nat) -> bool {
    forall|i: int|
        0 <= i < t.len() && (#[trigger] batch_action(t[i].0) is MarkComplete) ==> {
            &&& t[i].0.sent == total
            &&& forall|j: int| 0 <= j < i ==> #[trigger] answered_well(t[j].0, t[j].1)
        }
}

/// In a run `t`, step `i` starts from where step `i - 1` led.
pub open spec fn linked(t: Seq<(BatchModel, BatchEvent)>, i: int) -> bool {
    t[i].0 == batch_next(t[i - 1].0, t[i - 1].1)
}

/// In a run `t`, step `i` starts from a state that an insertion reaches and its event
/// answers that state's action.
pub open spec fn well_stepped(t: Seq<(BatchModel, BatchEvent)>, i: int) -> bool {
    batch_inv(t[i].0) && batch_expects(t[i].0, t[i].1)
}

proof fn lemma_batch_trace(m: BatchModel, es: Seq<BatchEvent>)
    requires
        batch_inv(m),
    ensures
        forall|i: int| 0 < i < batch_trace(m, es).len() ==> #[trigger] linked(batch_trace(m, es), i),
        forall|i: int| 0 <= i < batch_trace(m, es).len() ==> #[trigger] well_stepped(batch_trace(m, es), i),
        batch_trace(m, es).len() > 0 ==> batch_trace(m, es)[0].0 == m,
    decreases es.len(),
{
    if es.len() == 0 {
        return;
    }
    let e0 = es[0];
    let rest = es.drop_first();
    if !batch_expects(m, e0) {
        lemma_batch_trace(m, rest);
        return;
    }
    let m2 = batch_next(m, e0);
    lemma_batch_next_inv(m, e0);
    lemma_batch_trace(m2, rest);
    let t = batch_trace(m, es);
    let t2 = batch_trace(m2, rest);
    assert(t == seq![(m, e0)] + t2);
    assert forall|i: int| 0 < i < t.len() implies #[trigger] linked(t, i) by {
        assert(t[i] == t2[i - 1]);
        if i > 1 {
            assert(linked(t2, i - 1));
            assert(t[i - 1] == t2[i - 2]);
        } else {
            assert(t2[0].0 == m2);
        }
    }
    assert forall|i: int| 0 <= i < t.len() implies #[trigger] well_stepped(t, i) by {
        if i > 0 {
            assert(t[i] == t2[i - 1]);
            assert(well_stepped(t2, i - 1));
        }
    }
}

/// Once an insertion met a failure, every later step of its run has too.
proof fn lemma_untroubled_back(t: Seq<(BatchModel, BatchEvent)>, j: int, i: int)
    requires
        0 <= j <= i < t.len(),
        forall|k: int| 0 < k < t.len() ==> #[trigger] linked(t, k),
        forall|k: int| 0 <= k < t.len() ==> #[trigger] well_stepped(t, k),
        untroubled(t[i].0.phase),
    ensures
        untroubled(t[j].0.phase),
    decreases i - j,
{
    if j < i {
        lemma_untroubled_back(t, j + 1, i);
        assert(linked(t, j + 1));
        assert(well_stepped(t, j));
    }
}

/// An insertion makes at most one status update, and it is its last call on the database:
/// the log row is marked failed only right after a chunk that the insert procedure refused,
/// with the refusal's message, and marked complete only after the log row was inserted and
/// every chunk was written as JSON and taken, every row being sent. It is never marked both.
pub proof fn law_one_status_update_last(procedure: Seq<char>, total: nat, es: Seq<BatchEvent>)
    ensures
        status_update_is_last(batch_trace(batch_start(procedure, total), es)),
        failure_mark_follows_refusal(batch_trace(batch_start(procedure, total), es)),
        completion_follows_success(batch_trace(batch_start(procedure, total), es), total),
{
    let m = batch_start(procedure, total);
    let t = batch_trace(m, es);
    lemma_batch_trace(m, es);
    assert forall|i: int| 0 <= i < t.len() && #[trigger] is_status_update(batch_action(t[i].0)) implies i == t.len()
        - 1 by {
        if i < t.len() - 1 {
            assert(well_stepped(t, i));
            assert(linked(t, i + 1));
            assert(well_stepped(t, i + 1));
        }
    }
    assert forall|i: int| 0 <= i < t.len() && (#[trigger] batch_action(t[i].0) is MarkFailed) implies {
        &&& i > 0
        &&& batch_action(t[i - 1].0) is ExecuteChunk
        &&& t[i - 1].1 is ChunkFailed
        &&& batch_action(t[i].0) == (BatchActionModel::MarkFailed {
            file_log_id: t[i - 1].0.file_log_id,
            message: refusal(t[i - 1].1),
        })
    } by {
        if i > 0 {
            assert(linked(t, i));
            assert(well_stepped(t, i - 1));
        }
    }
    assert forall|i: int| 0 <= i < t.len() && (#[trigger] batch_action(t[i].0) is MarkComplete) implies {
        &&& t[i].0.sent == total
        &&& forall|j: int| 0 <= j < i ==> #[trigger] answered_well(t[j].0, t[j].1)
    } by {
        assert(well_stepped(t, i));
        assert(t[i].0.total == total) by {
            lemma_trace_total(m, es, i);
        }
        assert forall|j: int| 0 <= j < i implies #[trigger] answered_well(t[j].0, t[j].1) by {
            lemma_untroubled_back(t, j + 1, i);
            lemma_untroubled_back(t, j, i);
            assert(linked(t, j + 1));
            assert(well_stepped(t, j));
        }
    }
}

proof fn lemma_trace_total(m: BatchModel, es: Seq<BatchEvent>, i: int)
    requires
        0 <= i < batch_trace(m, es).len(),
    ensures
        batch_trace(m, es)[i].0.total == m.total,
    decreases es.len(),
{
    if es.len() > 0 {
        let rest = es.drop_first();
        if batch_expects(m, es[0]) {
            let t2 = batch_trace(batch_next(m, es[0]), rest);
            assert(batch_trace(m, es) == seq![(m, es[0])] + t2);
            if i > 0 {
                lemma_trace_total(batch_next(m, es[0]), rest, i - 1);
            }
        } else {
            lemma_trace_total(m, rest, i);
        }
    }
}

/// How far an insertion is from its end.
pub open spec fn batch_measure(m: BatchModel) -> nat {
    match m.phase {
        BatchPhase::AwaitFileLog => 2 * m.total + 4,
        BatchPhase::AwaitChunkRows => (2 * (m.total - m.sent) + 2) as nat,
        BatchPhase::AwaitChunk => (2 * (m.total - m.sent) + 1) as nat,
        BatchPhase::AwaitFailureMark => 1,
        BatchPhase::AwaitCompletionMark => 1,
        _ => 0,
    }
}

/// Every answered action takes an insertion closer to its end, so an insertion whose
/// actions are all answered ends.
pub proof fn law_batch_progress(m: BatchModel, e: BatchEvent)
    requires
        batch_inv(m),
        batch_next(m, e) != m,
    ensures
        batch_measure(batch_next(m, e)) < batch_measure(m),
{
}

/// Tables are handled one after the other: an event either leaves the load at its table
/// or moves it on to the next one, which it then reaches as `settle` says.
pub proof fn law_tables_in_order(m: LoadModel, e: LoadEvent)
    requires
        load_inv(m),
    ensures
        load_next(m, e).index == m.index || load_next(m, e).index == m.index + 1,
        load_next(m, e).index == m.index + 1 ==> load_next(m, e).phase == settle(
            m.keys,
            m.features,
            (m.index + 1) as int,
        ),
{
}

/// A table is read and inserted exactly when the catalogue holds it and its module is
/// enabled; otherwise it is skipped, as unexpected when the catalogue does not hold it.
pub proof fn law_table_fate(m: LoadModel)
    requires
        load_inv(m),
        m.index < m.keys.len(),
    ensures
        (m.phase == LoadPhase::ReadTable || m.phase == LoadPhase::Inserting) ==> (plan_of(
            m.keys[m.index as int],
            m.features,
        ) is Insert),
        m.phase == LoadPhase::SkipUnhandled ==> (plan_of(m.keys[m.index as int], m.features) is Unhandled),
        m.phase == LoadPhase::SkipUnexpected ==> (plan_of(m.keys[m.index as int], m.features) is Unexpected),
{
}

/// The insertion actions that a load hands out are chunks to write as JSON, chunks to send
/// and status updates only: it
/// asks for the file log row itself, and it ends a finished insertion itself.
pub proof fn law_load_hands_out_insert_steps(m: LoadModel)
    requires
        load_inv(m),
    ensures
        load_action(m) matches LoadActionModel::Batch(a) ==> ((a is SerializeChunk) || (a is ExecuteChunk) || (
        a is MarkFailed) || (a is MarkComplete)),
{
}

/// A load succeeds only once every table of the file was handled.
pub proof fn law_load_success_needs_all_tables(m: LoadModel, e: LoadEvent)
    requires
        load_inv(m),
        load_next(m, e).phase == LoadPhase::Succeeded,
    ensures
        load_next(m, e).index == m.keys.len(),
{
    crate::loader::lemma_load_next_inv(m, e);
}

/// A load that succeeded or failed stays as it is, whatever comes: it stops at the first
/// failure.
pub proof fn law_load_finished_is_final(m: LoadModel, e: LoadEvent)
    requires
        m.phase == LoadPhase::Succeeded || (m.phase is Failed),
    ensures
        load_next(m, e) == m,
{
}

/// How far a load is along its current table.
pub open spec fn load_stage(m: LoadModel) -> nat {
    match m.phase {
        LoadPhase::Inserting => 1,
        LoadPhase::Succeeded => 2,
        LoadPhase::Failed(_) => 2,
        _ => 0,
    }
}

/// Whether the load `n` is further along than the load `m`.
pub open spec fn further(m: LoadModel, n: LoadModel) -> bool {
    ||| n.index > m.index
    ||| n.index == m.index && load_stage(n) > load_stage(m)
    ||| n.index == m.index && load_stage(n) == 1 && load_stage(m) == 1 && batch_measure(n.batch.unwrap())
        < batch_measure(m.batch.unwrap())
}

/// Every answered action takes a load further along; an event that answers nothing
/// changes nothing.
pub proof fn law_load_progress(m: LoadModel, e: LoadEvent)
    requires
        load_inv(m),
        load_next(m, e) != m,
    ensures
        further(m, load_next(m, e)),
{
    match m.phase {
        LoadPhase::Inserting => match e {
            LoadEvent::Batch(be) => {
                let b = m.batch.unwrap();
                if batch_next(b, be) != b {
                    law_batch_progress(b, be);
                }
            },
            _ => {},
        },
        _ => {},
    }
}

/// Whether the actions `a` and `b` have the same effect: the same notice about a skipped
/// table, the same table read (by module), or the same database call or end.
pub open spec fn same_effect(a: LoadActionModel, b: LoadActionModel) -> bool {
    match a {
        LoadActionModel::SkipUnexpected { .. } => (b is SkipUnexpected),
        LoadActionModel::SkipUnhandled { module, .. } => (b matches LoadActionModel::SkipUnhandled { module: m, .. }
            && m == module),
        LoadActionModel::ReadTable { module, .. } => (b matches LoadActionModel::ReadTable { module: m, .. } && m
            == module),
        _ => a == b,
    }
}

/// Whether the table `r` of `keys` is skipped when the modules `features` are enabled.
pub open spec fn skipped(keys: Seq<KeyModel>, features: Set<Module>, r: int) -> bool {
    0 <= r < keys.len() && !(plan_of(keys[r], features) is Insert)
}

/// Whether the load `n` of a file without its table `r` stands where the load `m` of the
/// whole file does, `r` being a table that is skipped.
pub open spec fn without_table(m: LoadModel, n: LoadModel, r: int) -> bool {
    &&& skipped(m.keys, m.features, r)
    &&& n.header == m.header
    &&& n.features == m.features
    &&& n.keys == m.keys.remove(r)
    &&& load_inv(m)
    &&& load_inv(n)
    &&& if m.index < r {
        n.index == m.index && n.phase == m.phase && n.batch == m.batch
    } else if m.index == r {
        &&& m.phase == LoadPhase::SkipUnexpected || m.phase == LoadPhase::SkipUnhandled
        &&& n.index == r
        &&& n.phase == settle(n.keys, n.features, r)
        &&& n.batch is None
    } else {
        n.index + 1 == m.index && n.phase == m.phase && n.batch == m.batch
    }
}

proof fn lemma_settle_without(keys: Seq<KeyModel>, features: Set<Module>, r: int, i: int)
    requires
        0 <= r < keys.len(),
        0 <= i,
    ensures
        i < r ==> settle(keys.remove(r), features, i) == settle(keys, features, i),
        i >= r ==> settle(keys.remove(r), features, i) == settle(keys, features, i + 1),
        i < r ==> keys.remove(r)[i] == keys[i],
        r <= i < keys.len() - 1 ==> keys.remove(r)[i] == keys[i + 1],
{
    keys.remove_ensures(r);
}

/// The load of a file without a skipped table starts where the load of the whole file
/// does.
pub proof fn law_skipped_table_start(header: AemoHeader, keys: Seq<KeyModel>, features: Set<Module>, r: int)
    requires
        skipped(keys, features, r),
    ensures
        without_table(load_start(header, keys, features), load_start(header, keys.remove(r), features), r),
{
    keys.remove_ensures(r);
    lemma_settle_without(keys, features, r, 0);
}

/// A table that is skipped (not in the catalogue, or its module not enabled) changes
/// nothing of a load: at that table the load only gives its notice and moves on, and
/// elsewhere it asks for what the load of the file without that table asks for, and the
/// same event keeps the two loads in step. So both make the same reads and database calls
/// in the same order and end alike.
pub proof fn law_skipped_table_changes_nothing(m: LoadModel, n: LoadModel, r: int, e: LoadEvent)
    requires
        without_table(m, n, r),
    ensures
        m.index == r ==> (load_action(m) is SkipUnexpected) || (load_action(m) is SkipUnhandled),
        m.index == r ==> without_table(load_next(m, LoadEvent::Continue), n, r),
        m.index != r ==> same_effect(load_action(m), load_action(n)),
        m.index != r ==> without_table(load_next(m, e), load_next(n, e), r),
{
    let keys = m.keys;
    keys.remove_ensures(r);
    lemma_load_next_inv(m, e);
    lemma_load_next_inv(n, e);
    lemma_load_next_inv(m, LoadEvent::Continue);
    if m.index == r {
        lemma_settle_without(keys, m.features, r, r);
    } else if m.index < r {
        lemma_settle_without(keys, m.features, r, (m.index + 1) as int);
        lemma_settle_without(keys, m.features, r, m.index as int);
    } else {
        lemma_settle_without(keys, m.features, r, (n.index + 1) as int);
        lemma_settle_without(keys, m.features, r, n.index as int);
    }
}

/// A failed insertion ends the load with that failure, at the table whose insertion failed:
/// the load never moves past such a table.
pub proof fn law_failed_insertion_ends_load(m: LoadModel, e: BatchEvent, f: BatchFailure)
    requires
        load_inv(m),
        m.phase == LoadPhase::Inserting,
        batch_next(m.batch.unwrap(), e).phase == BatchPhase::Failed(f),
    ensures
        load_next(m, LoadEvent::Batch(e)).phase == LoadPhase::Failed(LoadFailure::Insert(f)),
        load_next(m, LoadEvent::Batch(e)).index == m.index,
        load_action(load_next(m, LoadEvent::Batch(e))) == LoadActionModel::Finished(Err(LoadFailure::Insert(f))),
{
}

/// The insertion that starts once a table was read counts every row that was read: it is
/// to insert `n` rows, none of them sent yet, beginning with the file log row.
pub proof fn law_read_table_inserts_all_rows(m: LoadModel, n: usize)
    requires
        load_inv(m),
        m.phase == LoadPhase::ReadTable,
    ensures
        load_next(m, LoadEvent::TableRead(n)).phase == LoadPhase::Inserting,
        load_next(m, LoadEvent::TableRead(n)).index == m.index,
        load_next(m, LoadEvent::TableRead(n)).batch matches Some(b) && b.total == n && b.sent == 0 && b.phase
            == BatchPhase::AwaitFileLog,
{
}

/// Whether the catalogue entry `j` has exactly the data set, the table and the version
/// that the key `k` names.
pub open spec fn names_exactly(k: KeyModel, j: int) -> bool {
    &&& CATALOGUE@[j].0@ == k.data_set
    &&& k.table == Some(CATALOGUE@[j].1@)
    &&& CATALOGUE@[j].2 == k.version
}

proof fn lemma_find_entry_from_exact(k: KeyModel, from: int)
    requires
        0 <= from,
    ensures
        find_entry_from(k, from) matches Some(i) ==> from <= i < CATALOGUE@.len() && names_exactly(k, i)
            && forall|j: int| from <= j < i ==> !#[trigger] names_exactly(k, j),
        find_entry_from(k, from) is None ==> forall|j: int|
            from <= j < CATALOGUE@.len() ==> !#[trigger] names_exactly(k, j),
    decreases CATALOGUE@.len() - from,
{
    if from < CATALOGUE@.len() {
        lemma_find_entry_from_exact(k, from + 1);
    }
}

/// The catalogue is looked up by the exact key: the entry found has the key's data set,
/// table and version, no earlier entry has them, and a key that no entry has exactly is
/// found nowhere.
pub proof fn law_catalogue_lookup_is_exact(k: KeyModel)
    ensures
        find_entry(k) matches Some(i) ==> 0 <= i < CATALOGUE@.len() && names_exactly(k, i)
            && forall|j: int| 0 <= j < i ==> !#[trigger] names_exactly(k, j),
        find_entry(k) is None <==> forall|j: int| 0 <= j < CATALOGUE@.len() ==> !#[trigger] names_exactly(k, j),
{
    lemma_find_entry_from_exact(k, 0);
}

/// A table is skipped as unexpected exactly when no catalogue entry has its data set, its
/// table and its version, whatever modules are enabled.
pub proof fn law_unexpected_iff_not_catalogued(k: KeyModel, features: Set<Module>)
    ensures
        (plan_of(k, features) is Unexpected) <==> forall|j: int|
            0 <= j < CATALOGUE@.len() ==> !#[trigger] names_exactly(k, j),
{
    law_catalogue_lookup_is_exact(k);
}

/// The JSON array of no rows is `[]`.
pub proof fn law_json_array_empty()
    ensures
        json_array(Seq::empty()) == seq!['[', ']'],
{
    assert(json_array(Seq::empty()) =~= seq!['[', ']']);
}

/// The JSON array of one row is the row's text, unchanged, between `[` and `]`.
pub proof fn law_json_array_single(t: Seq<char>)
    ensures
        json_array(seq![t]) == seq!['['] + t + seq![']'],
{
}

/// One more row goes after the rows already in the array: a comma, then its text unchanged,
/// before the closing `]`.
pub proof fn law_json_array_push(rows: Seq<Seq<char>>, t: Seq<char>)
    requires
        rows.len() > 0,
    ensures
        json_array(rows.push(t)) == json_array(rows).drop_last() + seq![','] + t + seq![']'],
{
    assert(rows.push(t).drop_last() =~= rows);
    assert(json_array(rows).drop_last() =~= seq!['['] + crate::batch::join_rows(rows));
    assert(json_array(rows.push(t)) =~= json_array(rows).drop_last() + seq![','] + t + seq![']']);
}

/// The file log row of a table takes each header field from the file's header as it is,
/// and the data set, table name and version from the table's key.
pub proof fn law_file_log_row_copies_header_and_key(h: AemoHeader, k: KeyModel)
    ensures
        record_for(h, k).data_source == h.data_source@,
        record_for(h, k).participant_name == h.participant_name@,
        record_for(h, k).privacy_level == h.privacy_level@,
        record_for(h, k).effective_date == h.effective@,
        record_for(h, k).serial_number == h.serial_number,
        record_for(h, k).data_set == k.data_set,
        k.table matches Some(t) ==> record_for(h, k).sub_type == t,
        k.table is None ==> record_for(h, k).sub_type.len() == 0,
        record_for(h, k).version == k.version,
{
}

} // verus!
