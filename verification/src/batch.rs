//! Inserting the rows of one table: record the load in the file log, then, chunk by chunk
//! of at most `CHUNK_ROWS` rows, have the rows written as JSON and hand them to the table's
//! stored procedure as one JSON array, and mark the log row complete, or failed with the
//! message of the first chunk that the procedure refused. A chunk that cannot be written
//! as JSON stops the insertion at once, with no status update.

use vstd::prelude::*;

use crate::naming::push_char;

verus! {

/// Number of rows that go into one call of an insert procedure.
pub const CHUNK_ROWS: usize = 100_000;

/// End (exclusive) of the chunk that starts at row `start` of a table of `total` rows.
pub open spec fn chunk_end(total: nat, start: nat) -> nat {
    if total <= start + CHUNK_ROWS {
        total
    } else {
        (start + CHUNK_ROWS) as nat
    }
}

/// End (exclusive) of the chunk that starts at row `start` of a table of `total` rows.
pub fn next_chunk_end(total: usize, start: usize) -> (end: usize)
    requires
        start <= total,
    ensures
        end == chunk_end(total as nat, start as nat),
{
    if total - start <= CHUNK_ROWS {
        total
    } else {
        start + CHUNK_ROWS
    }
}

/// The texts of a list of strings.
pub open spec fn texts(v: Seq<String>) -> Seq<Seq<char>> {
    v.map_values(|s: String| s@)
}

/// The texts `rows` joined by commas.
pub open spec fn join_rows(rows: Seq<Seq<char>>) -> Seq<char>
    decreases rows.len(),
{
    if rows.len() == 0 {
        Seq::empty()
    } else if rows.len() == 1 {
        rows[0]
    } else {
        join_rows(rows.drop_last()) + seq![','] + rows.last()
    }
}

/// The JSON array whose elements are the JSON texts `rows`, written compactly.
pub open spec fn json_array(rows: Seq<Seq<char>>) -> Seq<char> {
    seq!['['] + join_rows(rows) + seq![']']
}

/// The JSON array of the rows `start..end` of `rows`, each row being one JSON text: `[`,
/// the rows separated by commas, `]`.
pub fn json_array_of(rows: &Vec<String>, start: usize, end: usize) -> (r: String)
    requires
        start <= end <= rows.len(),
    ensures
        r@ == json_array(texts(rows@).subrange(start as int, end as int)),
{
    let ghost all = texts(rows@);
    let mut out = String::new();
    push_char(&mut out, '[');
    let mut i: usize = start;
    assert(all.subrange(start as int, start as int) =~= Seq::<Seq<char>>::empty());
    while i < end
        invariant
            start <= i <= end,
            end <= rows.len(),
            all == texts(rows@),
            out@ == seq!['['] + join_rows(all.subrange(start as int, i as int)),
        decreases end - i,
    {
        if i > start {
            push_char(&mut out, ',');
        }
        out.append(rows[i].as_str());
        proof {
            let sub = all.subrange(start as int, i + 1);
            assert(sub.drop_last() =~= all.subrange(start as int, i as int));
            assert(sub.last() == rows@[i as int]@);
            if i == start {
                assert(sub.len() == 1);
            }
        }
        assert(out@ =~= seq!['['] + join_rows(all.subrange(start as int, i + 1)));
        i = i + 1;
    }
    push_char(&mut out, ']');
    assert(out@ =~= json_array(all.subrange(start as int, end as int)));
    out
}

/// Why the insertion of a table failed.
#[derive(Clone, Copy, PartialEq, Eq, Structural, Debug)]
pub enum BatchFailure {
    /// The insertion of the file log row, or the reading of its result, failed.
    FileLogQuery,
    /// The insertion of the file log row gave back no row, or no id.
    FileLogMissing,
    /// The rows of a chunk could not be written as JSON; the file log row keeps its status.
    ChunkSerialize,
    /// A call of the insert procedure failed, and the file log row was marked failed.
    ChunkExecute,
    /// Marking the file log row complete or failed failed.
    StatusUpdate,
}

/// Where the insertion of a table stands.
#[derive(Clone, Copy, PartialEq, Eq, Structural, Debug)]
pub enum BatchPhase {
    /// The file log row is to be inserted.
    AwaitFileLog,
    /// The rows of the next chunk are to be written as JSON.
    AwaitChunkRows,
    /// The next chunk of rows is to be handed to the insert procedure.
    AwaitChunk,
    /// The file log row is to be marked failed.
    AwaitFailureMark,
    /// The file log row is to be marked complete.
    AwaitCompletionMark,
    /// All rows were inserted and the file log row marked complete.
    Succeeded,
    /// The insertion stopped.
    Failed(BatchFailure),
}

/// What happened to the last action that the insertion asked for.
pub enum BatchEvent {
    /// The file log row was inserted; the first column of the first row that came back, if
    /// a row came back.
    FileLogged(Option<Option<i64>>),
    /// The insertion of the file log row failed.
    FileLogFailed,
    /// The rows of the pending chunk, in order, each written as one JSON text. A list that
    /// does not hold exactly the rows of the chunk answers nothing.
    ChunkRows(Vec<String>),
    /// The rows of the pending chunk could not be written as JSON.
    ChunkSerializeFailed,
    /// The insert procedure took the chunk.
    ChunkDone,
    /// The insert procedure failed, with this message.
    ChunkFailed(String),
    /// The status of the file log row was updated.
    StatusUpdated,
    /// The update of the status of the file log row failed.
    StatusUpdateFailed,
}

/// What the insertion of a table asks its driver to do next.
pub enum BatchAction {
    /// Insert the file log row of the table, and report the id that comes back.
    InsertFileLog,
    /// Write the rows `first_row..end_row` of the `total_rows` rows of the table as JSON, one
    /// text per row, and report them.
    SerializeChunk { first_row: usize, end_row: usize, total_rows: usize },
    /// Call `procedure` with `file_log_id` and `json`, the rows `first_row..end_row` of
    /// `total_rows` as a JSON array.
    ExecuteChunk { procedure: String, file_log_id: i64, json: String, first_row: usize, end_row: usize, total_rows: usize },
    /// Set the status of the file log row to failed, with `message`.
    MarkFailed { file_log_id: i64, message: String },
    /// Set the status of the file log row to complete.
    MarkComplete { file_log_id: i64 },
    /// Nothing more to do: the insertion succeeded or failed.
    Finished(Result<(), BatchFailure>),
}

/// An action of the insertion of a table, as values.
pub enum BatchActionModel {
    InsertFileLog,
    SerializeChunk { first_row: nat, end_row: nat, total_rows: nat },
    ExecuteChunk { procedure: Seq<char>, file_log_id: i64, json: Seq<char>, first_row: nat, end_row: nat, total_rows: nat },
    MarkFailed { file_log_id: i64, message: Seq<char> },
    MarkComplete { file_log_id: i64 },
    Finished(Result<(), BatchFailure>),
}

impl View for BatchAction {
    type V = BatchActionModel;

    open spec fn view(&self) -> BatchActionModel {
        match self {
            BatchAction::InsertFileLog => BatchActionModel::InsertFileLog,
            BatchAction::SerializeChunk { first_row, end_row, total_rows } => BatchActionModel::SerializeChunk {
                first_row: *first_row as nat,
                end_row: *end_row as nat,
                total_rows: *total_rows as nat,
            },
            BatchAction::ExecuteChunk { procedure, file_log_id, json, first_row, end_row, total_rows } =>
                BatchActionModel::ExecuteChunk {
                    procedure: procedure@,
                    file_log_id: *file_log_id,
                    json: json@,
                    first_row: *first_row as nat,
                    end_row: *end_row as nat,
                    total_rows: *total_rows as nat,
                },
            BatchAction::MarkFailed { file_log_id, message } =>
                BatchActionModel::MarkFailed { file_log_id: *file_log_id, message: message@ },
            BatchAction::MarkComplete { file_log_id } => BatchActionModel::MarkComplete { file_log_id: *file_log_id },
            BatchAction::Finished(r) => BatchActionModel::Finished(*r),
        }
    }
}

/// The state of the insertion of a table, as values.
pub struct BatchModel {
    pub procedure: Seq<char>,
    /// Rows of the table.
    pub total: nat,
    pub file_log_id: i64,
    /// Rows that the insert procedure has taken.
    pub sent: nat,
    /// The JSON texts of the rows of the pending chunk.
    pub chunk: Seq<Seq<char>>,
    /// Message of the failed chunk.
    pub message: Seq<char>,
    pub phase: BatchPhase,
}

/// The insertion of `total` rows by the procedure `procedure`, before anything was done.
pub open spec fn batch_start(procedure: Seq<char>, total: nat) -> BatchModel {
    BatchModel {
        procedure,
        total,
        file_log_id: 0,
        sent: 0,
        chunk: Seq::empty(),
        message: Seq::empty(),
        phase: BatchPhase::AwaitFileLog,
    }
}

/// What holds of every state that an insertion reaches.
pub open spec fn batch_inv(m: BatchModel) -> bool {
    &&& m.sent <= m.total
    &&& m.phase == BatchPhase::AwaitFileLog ==> m.sent == 0
    &&& m.phase == BatchPhase::AwaitChunkRows ==> m.sent < m.total
    &&& m.phase == BatchPhase::AwaitChunk ==> m.sent < m.total && m.chunk.len() == chunk_end(m.total, m.sent) - m.sent
    &&& m.phase == BatchPhase::AwaitCompletionMark ==> m.sent == m.total
    &&& m.phase == BatchPhase::Succeeded ==> m.sent == m.total
}

/// The id of the file log row, from the first column of the first row that its insertion
/// gave back: none when no row or no value came back.
pub open spec fn logged_id(first: Option<Option<i64>>) -> Option<i64> {
    match first {
        Some(Some(id)) => Some(id),
        _ => None,
    }
}

/// Whether the insertion is over.
pub open spec fn batch_finished(p: BatchPhase) -> bool {
    p == BatchPhase::Succeeded || p is Failed
}

/// Whether `e` gives the rows of the chunk that the insertion `m` asks for: as many JSON
/// texts as the chunk has rows.
pub open spec fn chunk_rows_fit(m: BatchModel, e: BatchEvent) -> bool {
    e matches BatchEvent::ChunkRows(rows) && rows@.len() == chunk_end(m.total, m.sent) - m.sent
}

/// Whether the event `e` answers the action that the insertion `m` asks for.
pub open spec fn batch_expects(m: BatchModel, e: BatchEvent) -> bool {
    match m.phase {
        BatchPhase::AwaitFileLog => e is FileLogged || e is FileLogFailed,
        BatchPhase::AwaitChunkRows => chunk_rows_fit(m, e) || e is ChunkSerializeFailed,
        BatchPhase::AwaitChunk => e is ChunkDone || e is ChunkFailed,
        BatchPhase::AwaitFailureMark => e is StatusUpdated || e is StatusUpdateFailed,
        BatchPhase::AwaitCompletionMark => e is StatusUpdated || e is StatusUpdateFailed,
        _ => false,
    }
}

/// The state of an insertion after the event `e`; an event that does not answer the
/// pending action leaves the state as it is.
pub open spec fn batch_next(m: BatchModel, e: BatchEvent) -> BatchModel {
    match m.phase {
        BatchPhase::AwaitFileLog => match e {
            BatchEvent::FileLogged(first) => match logged_id(first) {
                Some(id) => BatchModel {
                    file_log_id: id,
                    phase: if m.total == 0 { BatchPhase::AwaitCompletionMark } else { BatchPhase::AwaitChunkRows },
                    ..m
                },
                None => BatchModel { phase: BatchPhase::Failed(BatchFailure::FileLogMissing), ..m },
            },
            BatchEvent::FileLogFailed => BatchModel { phase: BatchPhase::Failed(BatchFailure::FileLogQuery), ..m },
            _ => m,
        },
        BatchPhase::AwaitChunkRows => match e {
            BatchEvent::ChunkRows(rows) => if rows@.len() == chunk_end(m.total, m.sent) - m.sent {
                BatchModel { chunk: texts(rows@), phase: BatchPhase::AwaitChunk, ..m }
            } else {
                m
            },
            BatchEvent::ChunkSerializeFailed => BatchModel {
                phase: BatchPhase::Failed(BatchFailure::ChunkSerialize),
                ..m
            },
            _ => m,
        },
        BatchPhase::AwaitChunk => match e {
            BatchEvent::ChunkDone => {
                let end = chunk_end(m.total, m.sent);
                BatchModel {
                    sent: end,
                    chunk: Seq::empty(),
                    phase: if end == m.total { BatchPhase::AwaitCompletionMark } else { BatchPhase::AwaitChunkRows },
                    ..m
                }
            },
            BatchEvent::ChunkFailed(msg) => BatchModel { message: msg@, phase: BatchPhase::AwaitFailureMark, ..m },
            _ => m,
        },
        BatchPhase::AwaitFailureMark => match e {
            BatchEvent::StatusUpdated => BatchModel { phase: BatchPhase::Failed(BatchFailure::ChunkExecute), ..m },
            BatchEvent::StatusUpdateFailed => BatchModel { phase: BatchPhase::Failed(BatchFailure::StatusUpdate), ..m },
            _ => m,
        },
        BatchPhase::AwaitCompletionMark => match e {
            BatchEvent::StatusUpdated => BatchModel { phase: BatchPhase::Succeeded, ..m },
            BatchEvent::StatusUpdateFailed => BatchModel { phase: BatchPhase::Failed(BatchFailure::StatusUpdate), ..m },
            _ => m,
        },
        _ => m,
    }
}

/// What an insertion in the state `m` asks its driver to do.
pub open spec fn batch_action(m: BatchModel) -> BatchActionModel {
    match m.phase {
        BatchPhase::AwaitFileLog => BatchActionModel::InsertFileLog,
        BatchPhase::AwaitChunkRows => BatchActionModel::SerializeChunk {
            first_row: m.sent,
            end_row: chunk_end(m.total, m.sent),
            total_rows: m.total,
        },
        BatchPhase::AwaitChunk => BatchActionModel::ExecuteChunk {
            procedure: m.procedure,
            file_log_id: m.file_log_id,
            json: json_array(m.chunk),
            first_row: m.sent,
            end_row: chunk_end(m.total, m.sent),
            total_rows: m.total,
        },
        BatchPhase::AwaitFailureMark => BatchActionModel::MarkFailed { file_log_id: m.file_log_id, message: m.message },
        BatchPhase::AwaitCompletionMark => BatchActionModel::MarkComplete { file_log_id: m.file_log_id },
        BatchPhase::Succeeded => BatchActionModel::Finished(Ok(())),
        BatchPhase::Failed(f) => BatchActionModel::Finished(Err(f)),
    }
}

/// Every state that an insertion reaches satisfies `batch_inv`: the invariant holds at the
/// start and every event keeps it.
pub proof fn lemma_batch_next_inv(m: BatchModel, e: BatchEvent)
    requires
        batch_inv(m),
    ensures
        batch_inv(batch_next(m, e)),
{
}

/// The insertion of the rows of one table by its insert procedure.
pub struct BatchInsert {
    procedure: String,
    total: usize,
    file_log_id: i64,
    sent: usize,
    chunk: Vec<String>,
    message: String,
    phase: BatchPhase,
}

impl View for BatchInsert {
    type V = BatchModel;

    closed spec fn view(&self) -> BatchModel {
        BatchModel {
            procedure: self.procedure@,
            total: self.total as nat,
            file_log_id: self.file_log_id,
            sent: self.sent as nat,
            chunk: texts(self.chunk@),
            message: self.message@,
            phase: self.phase,
        }
    }
}

impl BatchInsert {
    /// Well-formedness: the state is one that an insertion reaches.
    pub open spec fn wf(&self) -> bool {
        batch_inv(self@)
    }

    /// Starts the insertion of the `total` rows of a table by the procedure call
    /// `procedure`.
    pub fn new(procedure: String, total: usize) -> (r: BatchInsert)
        ensures
            r@ == batch_start(procedure@, total as nat),
            r.wf(),
    {
        let r = BatchInsert {
            procedure,
            total,
            file_log_id: 0,
            sent: 0,
            chunk: Vec::new(),
            message: String::new(),
            phase: BatchPhase::AwaitFileLog,
        };
        assert(texts(r.chunk@) =~= Seq::<Seq<char>>::empty());
        r
    }

    /// Where the insertion stands.
    pub fn phase(&self) -> (p: BatchPhase)
        ensures
            p == self@.phase,
    {
        self.phase
    }

    /// Rows that the insert procedure has taken so far.
    pub fn saved(&self) -> (n: usize)
        ensures
            n == self@.sent,
    {
        self.sent
    }

    /// Rows of the table.
    pub fn total(&self) -> (n: usize)
        ensures
            n == self@.total,
    {
        self.total
    }

    /// What the insertion asks its driver to do next.
    pub fn action(&self) -> (a: BatchAction)
        requires
            self.wf(),
        ensures
            a@ == batch_action(self@),
    {
        match self.phase {
            BatchPhase::AwaitFileLog => BatchAction::InsertFileLog,
            BatchPhase::AwaitChunkRows => BatchAction::SerializeChunk {
                first_row: self.sent,
                end_row: next_chunk_end(self.total, self.sent),
                total_rows: self.total,
            },
            BatchPhase::AwaitChunk => {
                let json = json_array_of(&self.chunk, 0, self.chunk.len());
                assert(texts(self.chunk@).subrange(0, self.chunk@.len() as int) =~= texts(self.chunk@));
                BatchAction::ExecuteChunk {
                    procedure: self.procedure.clone(),
                    file_log_id: self.file_log_id,
                    json,
                    first_row: self.sent,
                    end_row: next_chunk_end(self.total, self.sent),
                    total_rows: self.total,
                }
            },
            BatchPhase::AwaitFailureMark => BatchAction::MarkFailed {
                file_log_id: self.file_log_id,
                message: self.message.clone(),
            },
            BatchPhase::AwaitCompletionMark => BatchAction::MarkComplete { file_log_id: self.file_log_id },
            BatchPhase::Succeeded => BatchAction::Finished(Ok(())),
            BatchPhase::Failed(f) => BatchAction::Finished(Err(f)),
        }
    }

    /// Takes the outcome of the last action; an outcome that does not answer the pending
    /// action changes nothing.
    pub fn step(&mut self, e: BatchEvent)
        requires
            old(self).wf(),
        ensures
            final(self)@ == batch_next(old(self)@, e),
            final(self).wf(),
    {
        match self.phase {
            BatchPhase::AwaitFileLog => match e {
                BatchEvent::FileLogged(first) => match first {
                    Some(Some(id)) => {
                        self.file_log_id = id;
                        self.phase = if self.total == 0 {
                            BatchPhase::AwaitCompletionMark
                        } else {
                            BatchPhase::AwaitChunkRows
                        };
                    },
                    _ => {
                        self.phase = BatchPhase::Failed(BatchFailure::FileLogMissing);
                    },
                },
                BatchEvent::FileLogFailed => {
                    self.phase = BatchPhase::Failed(BatchFailure::FileLogQuery);
                },
                _ => {},
            },
            BatchPhase::AwaitChunkRows => match e {
                BatchEvent::ChunkRows(rows) => {
                    if rows.len() == next_chunk_end(self.total, self.sent) - self.sent {
                        self.chunk = rows;
                        self.phase = BatchPhase::AwaitChunk;
                    }
                },
                BatchEvent::ChunkSerializeFailed => {
                    self.phase = BatchPhase::Failed(BatchFailure::ChunkSerialize);
                },
                _ => {},
            },
            BatchPhase::AwaitChunk => match e {
                BatchEvent::ChunkDone => {
                    let end = next_chunk_end(self.total, self.sent);
                    self.sent = end;
                    self.chunk = Vec::new();
                    assert(texts(self.chunk@) =~= Seq::<Seq<char>>::empty());
                    self.phase = if end == self.total {
                        BatchPhase::AwaitCompletionMark
                    } else {
                        BatchPhase::AwaitChunkRows
                    };
                },
                BatchEvent::ChunkFailed(msg) => {
                    self.message = msg;
                    self.phase = BatchPhase::AwaitFailureMark;
                },
                _ => {},
            },
            BatchPhase::AwaitFailureMark => match e {
                BatchEvent::StatusUpdated => {
                    self.phase = BatchPhase::Failed(BatchFailure::ChunkExecute);
                },
                BatchEvent::StatusUpdateFailed => {
                    self.phase = BatchPhase::Failed(BatchFailure::StatusUpdate);
                },
                _ => {},
            },
            BatchPhase::AwaitCompletionMark => match e {
                BatchEvent::StatusUpdated => {
                    self.phase = BatchPhase::Succeeded;
                },
                BatchEvent::StatusUpdateFailed => {
                    self.phase = BatchPhase::Failed(BatchFailure::StatusUpdate);
                },
                _ => {},
            },
            _ => {},
        }
    }
}

} // verus!
