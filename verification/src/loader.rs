//! Loading every table of a file: each table that the catalogue holds and whose module is
//! enabled is read and inserted, the others are skipped with a notice, and the load stops
//! at the first failure.

use vstd::prelude::*;

use crate::batch::{
    batch_action, batch_finished, batch_inv, batch_next, batch_start, BatchAction, BatchActionModel,
    BatchEvent, BatchFailure, BatchInsert, BatchModel, BatchPhase, lemma_batch_next_inv,
};
use crate::catalogue::Module;
use crate::file::{file_keys, record_for, AemoFile, AemoHeader, FileLogRecord, KeyModel, RecordModel};
use crate::plan::{plan_key, plan_of, Features, KeyPlan, PlanModel};

verus! {

/// Why the load of a file failed.
#[derive(Clone, Copy, PartialEq, Eq, Structural, Debug)]
pub enum LoadFailure {
    /// The rows of a table could not be read.
    TableRead,
    /// The insertion of a table failed.
    Insert(BatchFailure),
}

/// Where the load of a file stands.
#[derive(Clone, Copy, PartialEq, Eq, Structural, Debug)]
pub enum LoadPhase {
    /// The current table is not in the catalogue; it is to be skipped with an error notice.
    SkipUnexpected,
    /// The module of the current table is not enabled; it is to be skipped with a warning.
    SkipUnhandled,
    /// The rows of the current table are to be read.
    ReadTable,
    /// The current table is being inserted.
    Inserting,
    /// Every table was handled.
    Succeeded,
    /// The load stopped.
    Failed(LoadFailure),
}

/// What happened to the last action that the load asked for.
pub enum LoadEvent {
    /// The notice about a skipped table was given.
    Continue,
    /// The rows of the current table were read: this many.
    TableRead(usize),
    /// The rows of the current table could not be read.
    TableFailed,
    /// The outcome of an action of the insertion of the current table.
    Batch(BatchEvent),
}

/// What the load asks its driver to do next.
pub enum LoadAction {
    /// Give an error notice: the table `index` of the file is not in the catalogue.
    SkipUnexpected { index: usize },
    /// Give a warning: the module of the table `index` of the file is not enabled.
    SkipUnhandled { index: usize, module: Module },
    /// Read the rows of the table `index` of the file, which belongs to `module`.
    ReadTable { index: usize, module: Module },
    /// Insert this row into the file log, and report the id that comes back.
    InsertFileLog(FileLogRecord),
    /// Carry out this action of the insertion of the current table.
    Batch(BatchAction),
    /// Nothing more to do: the load succeeded or failed.
    Finished(Result<(), LoadFailure>),
}

/// An action of the load, as values.
pub enum LoadActionModel {
    SkipUnexpected { index: nat },
    SkipUnhandled { index: nat, module: Module },
    ReadTable { index: nat, module: Module },
    InsertFileLog(RecordModel),
    Batch(BatchActionModel),
    Finished(Result<(), LoadFailure>),
}

impl View for LoadAction {
    type V = LoadActionModel;

    open spec fn view(&self) -> LoadActionModel {
        match self {
            LoadAction::SkipUnexpected { index } => LoadActionModel::SkipUnexpected { index: *index as nat },
            LoadAction::SkipUnhandled { index, module } =>
                LoadActionModel::SkipUnhandled { index: *index as nat, module: *module },
            LoadAction::ReadTable { index, module } => LoadActionModel::ReadTable { index: *index as nat, module: *module },
            LoadAction::InsertFileLog(r) => LoadActionModel::InsertFileLog(r@),
            LoadAction::Batch(a) => LoadActionModel::Batch(a@),
            LoadAction::Finished(r) => LoadActionModel::Finished(*r),
        }
    }
}

/// The state of the load of a file, as values.
pub struct LoadModel {
    pub header: AemoHeader,
    pub keys: Seq<KeyModel>,
    pub features: Set<Module>,
    /// The table being handled.
    pub index: nat,
    pub phase: LoadPhase,
    /// The insertion of the current table, while it runs.
    pub batch: Option<BatchModel>,
}

/// The module that the plan of a table names (an arbitrary one for a table that the
/// catalogue does not hold, which names none).
pub open spec fn plan_module(p: PlanModel) -> Module {
    match p {
        PlanModel::Insert { module, .. } => module,
        PlanModel::Unhandled { module } => module,
        PlanModel::Unexpected => Module::Dispatch,
    }
}

/// The procedure call that the plan of a table names.
pub open spec fn plan_procedure(p: PlanModel) -> Seq<char> {
    match p {
        PlanModel::Insert { procedure, .. } => procedure,
        _ => Seq::empty(),
    }
}

/// Where the load stands on reaching the table `i`.
pub open spec fn settle(keys: Seq<KeyModel>, features: Set<Module>, i: int) -> LoadPhase {
    if i >= keys.len() {
        LoadPhase::Succeeded
    } else {
        match plan_of(keys[i], features) {
            PlanModel::Unexpected => LoadPhase::SkipUnexpected,
            PlanModel::Unhandled { .. } => LoadPhase::SkipUnhandled,
            PlanModel::Insert { .. } => LoadPhase::ReadTable,
        }
    }
}

/// The load of a file whose header is `header` and whose tables are `keys`, before
/// anything was done.
pub open spec fn load_start(header: AemoHeader, keys: Seq<KeyModel>, features: Set<Module>) -> LoadModel {
    LoadModel { header, keys, features, index: 0, phase: settle(keys, features, 0), batch: None }
}

/// The load, moved on to the next table.
pub open spec fn advance(m: LoadModel) -> LoadModel {
    LoadModel { index: m.index + 1, phase: settle(m.keys, m.features, (m.index + 1) as int), batch: None, ..m }
}

/// What holds of every state that a load reaches.
pub open spec fn load_inv(m: LoadModel) -> bool {
    &&& m.index <= m.keys.len()
    &&& (m.phase == LoadPhase::Succeeded ==> m.index == m.keys.len())
    &&& (m.phase == LoadPhase::SkipUnexpected || m.phase == LoadPhase::SkipUnhandled || m.phase
        == LoadPhase::ReadTable) ==> m.index < m.keys.len() && m.phase == settle(m.keys, m.features, m.index as int)
    &&& (m.phase == LoadPhase::Inserting) == (m.batch is Some)
    &&& m.phase == LoadPhase::Inserting ==> {
        &&& m.index < m.keys.len()
        &&& plan_of(m.keys[m.index as int], m.features) is Insert
        &&& batch_inv(m.batch.unwrap())
        &&& !batch_finished(m.batch.unwrap().phase)
        &&& m.batch.unwrap().procedure == plan_procedure(plan_of(m.keys[m.index as int], m.features))
    }
}

/// The state of a load after the event `e`; an event that does not answer the pending
/// action leaves the state as it is.
pub open spec fn load_next(m: LoadModel, e: LoadEvent) -> LoadModel {
    match m.phase {
        LoadPhase::SkipUnexpected | LoadPhase::SkipUnhandled => match e {
            LoadEvent::Continue => advance(m),
            _ => m,
        },
        LoadPhase::ReadTable => match e {
            LoadEvent::TableRead(total) => LoadModel {
                phase: LoadPhase::Inserting,
                batch: Some(batch_start(plan_procedure(plan_of(m.keys[m.index as int], m.features)), total as nat)),
                ..m
            },
            LoadEvent::TableFailed => LoadModel { phase: LoadPhase::Failed(LoadFailure::TableRead), ..m },
            _ => m,
        },
        LoadPhase::Inserting => match e {
            LoadEvent::Batch(be) => {
                let b = batch_next(m.batch.unwrap(), be);
                match b.phase {
                    BatchPhase::Succeeded => advance(m),
                    BatchPhase::Failed(f) => LoadModel {
                        phase: LoadPhase::Failed(LoadFailure::Insert(f)),
                        batch: None,
                        ..m
                    },
                    _ => LoadModel { batch: Some(b), ..m },
                }
            },
            _ => m,
        },
        _ => m,
    }
}

/// What a load in the state `m` asks its driver to do.
pub open spec fn load_action(m: LoadModel) -> LoadActionModel {
    match m.phase {
        LoadPhase::SkipUnexpected => LoadActionModel::SkipUnexpected { index: m.index },
        LoadPhase::SkipUnhandled => LoadActionModel::SkipUnhandled {
            index: m.index,
            module: plan_module(plan_of(m.keys[m.index as int], m.features)),
        },
        LoadPhase::ReadTable => LoadActionModel::ReadTable {
            index: m.index,
            module: plan_module(plan_of(m.keys[m.index as int], m.features)),
        },
        LoadPhase::Inserting => if m.batch.unwrap().phase == BatchPhase::AwaitFileLog {
            LoadActionModel::InsertFileLog(record_for(m.header, m.keys[m.index as int]))
        } else {
            LoadActionModel::Batch(batch_action(m.batch.unwrap()))
        },
        LoadPhase::Succeeded => LoadActionModel::Finished(Ok(())),
        LoadPhase::Failed(f) => LoadActionModel::Finished(Err(f)),
    }
}

/// The load of the tables of one file, in order.
pub struct Loader<'a> {
    file: &'a AemoFile,
    features: Features,
    index: usize,
    phase: LoadPhase,
    batch: Option<BatchInsert>,
}

impl<'a> View for Loader<'a> {
    type V = LoadModel;

    closed spec fn view(&self) -> LoadModel {
        LoadModel {
            header: self.file.header,
            keys: file_keys(*self.file),
            features: self.features@,
            index: self.index as nat,
            phase: self.phase,
            batch: match self.batch {
                Some(b) => Some(b@),
                None => None,
            },
        }
    }
}

/// Where the load of `file` stands on reaching its table `i`.
fn phase_at(file: &AemoFile, features: &Features, i: usize) -> (p: LoadPhase)
    ensures
        p == settle(file_keys(*file), features@, i as int),
{
    if i >= file.data.len() {
        LoadPhase::Succeeded
    } else {
        match plan_key(&file.data[i].key, features) {
            KeyPlan::Unexpected => LoadPhase::SkipUnexpected,
            KeyPlan::Unhandled { .. } => LoadPhase::SkipUnhandled,
            KeyPlan::Insert { .. } => LoadPhase::ReadTable,
        }
    }
}

impl<'a> Loader<'a> {
    /// Well-formedness: the state is one that a load reaches.
    pub open spec fn wf(&self) -> bool {
        load_inv(self@)
    }

    /// Starts the load of the tables of `file`, with the modules `features` enabled.
    pub fn new(file: &'a AemoFile, features: Features) -> (r: Loader<'a>)
        ensures
            r@ == load_start(file.header, file_keys(*file), features@),
            r.wf(),
    {
        let phase = phase_at(file, &features, 0);
        Loader { file, features, index: 0, phase, batch: None }
    }

    /// Where the load stands.
    pub fn phase(&self) -> (p: LoadPhase)
        ensures
            p == self@.phase,
    {
        self.phase
    }

    /// The table being handled.
    pub fn index(&self) -> (i: usize)
        ensures
            i == self@.index,
    {
        self.index
    }

    /// Moves on to the next table.
    fn advance(&mut self)
        requires
            old(self).index < file_keys(*old(self).file).len(),
        ensures
            final(self)@ == advance(old(self)@),
            final(self).file == old(self).file,
    {
        let n = self.file.data.len();
        assert(file_keys(*self.file).len() == n);
        self.index = self.index + 1;
        self.batch = None;
        self.phase = phase_at(self.file, &self.features, self.index);
    }

    /// What the load asks its driver to do next.
    pub fn action(&self) -> (a: LoadAction)
        requires
            self.wf(),
        ensures
            a@ == load_action(self@),
    {
        match self.phase {
            LoadPhase::SkipUnexpected => LoadAction::SkipUnexpected { index: self.index },
            LoadPhase::SkipUnhandled => {
                let plan = plan_key(&self.file.data[self.index].key, &self.features);
                match plan {
                    KeyPlan::Unhandled { module } => LoadAction::SkipUnhandled { index: self.index, module },
                    KeyPlan::Insert { module, .. } => LoadAction::SkipUnhandled { index: self.index, module },
                    KeyPlan::Unexpected => LoadAction::SkipUnexpected { index: self.index },
                }
            },
            LoadPhase::ReadTable => {
                let plan = plan_key(&self.file.data[self.index].key, &self.features);
                match plan {
                    KeyPlan::Insert { module, .. } => LoadAction::ReadTable { index: self.index, module },
                    KeyPlan::Unhandled { module } => LoadAction::ReadTable { index: self.index, module },
                    KeyPlan::Unexpected => LoadAction::SkipUnexpected { index: self.index },
                }
            },
            LoadPhase::Inserting => match &self.batch {
                Some(b) => {
                    if b.phase() == BatchPhase::AwaitFileLog {
                        LoadAction::InsertFileLog(self.file.file_log_record(&self.file.data[self.index].key))
                    } else {
                        LoadAction::Batch(b.action())
                    }
                },
                None => LoadAction::Finished(Ok(())),
            },
            LoadPhase::Succeeded => LoadAction::Finished(Ok(())),
            LoadPhase::Failed(f) => LoadAction::Finished(Err(f)),
        }
    }

    /// Takes the outcome of the last action; an outcome that does not answer the pending
    /// action changes nothing.
    pub fn step(&mut self, e: LoadEvent)
        requires
            old(self).wf(),
        ensures
            final(self)@ == load_next(old(self)@, e),
            final(self).wf(),
            old(self)@.phase == LoadPhase::ReadTable ==> (e matches LoadEvent::TableRead(n) ==> {
                &&& final(self)@.phase == LoadPhase::Inserting
                &&& final(self)@.index == old(self)@.index
                &&& final(self)@.batch matches Some(b) && b.total == n && b.sent == 0 && b.phase
                    == BatchPhase::AwaitFileLog
            }),
            old(self)@.phase == LoadPhase::Inserting ==> (e matches LoadEvent::Batch(be) ==> (batch_next(
                old(self)@.batch.unwrap(),
                be,
            ).phase matches BatchPhase::Failed(f) ==> {
                &&& final(self)@.phase == LoadPhase::Failed(LoadFailure::Insert(f))
                &&& final(self)@.index == old(self)@.index
            })),
    {
        proof {
            lemma_load_next_inv(self@, e);
        }
        match self.phase {
            LoadPhase::SkipUnexpected | LoadPhase::SkipUnhandled => match e {
                LoadEvent::Continue => self.advance(),
                _ => {},
            },
            LoadPhase::ReadTable => match e {
                LoadEvent::TableRead(total) => {
                    let plan = plan_key(&self.file.data[self.index].key, &self.features);
                    match plan {
                        KeyPlan::Insert { procedure, .. } => {
                            self.batch = Some(BatchInsert::new(procedure, total));
                            self.phase = LoadPhase::Inserting;
                        },
                        _ => {},
                    }
                },
                LoadEvent::TableFailed => {
                    self.phase = LoadPhase::Failed(LoadFailure::TableRead);
                },
                _ => {},
            },
            LoadPhase::Inserting => match e {
                LoadEvent::Batch(be) => {
                    match self.batch.take() {
                        Some(mut b) => {
                            b.step(be);
                            match b.phase() {
                                BatchPhase::Succeeded => self.advance(),
                                BatchPhase::Failed(f) => {
                                    self.phase = LoadPhase::Failed(LoadFailure::Insert(f));
                                },
                                _ => {
                                    self.batch = Some(b);
                                },
                            }
                        },
                        None => {},
                    }
                },
                _ => {},
            },
            _ => {},
        }
    }
}

/// Every state that a load reaches satisfies `load_inv`: the invariant holds at the start
/// and every event keeps it.
pub proof fn lemma_load_next_inv(m: LoadModel, e: LoadEvent)
    requires
        load_inv(m),
    ensures
        load_inv(load_next(m, e)),
{
    match m.phase {
        LoadPhase::Inserting => match e {
            LoadEvent::Batch(be) => {
                lemma_batch_next_inv(m.batch.unwrap(), be);
            },
            _ => {},
        },
        _ => {},
    }
}

} // verus!
