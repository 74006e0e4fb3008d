//! Which modules are enabled, and what the load does with each table of a file.

use vstd::prelude::*;

use crate::catalogue::{catalogue_index, entry_matches, find_entry, Module, CATALOGUE};
use crate::file::{FileKey, KeyModel};
use crate::naming::{procedure, procedure_name};

verus! {

/// The set of data model modules whose tables are loaded.
pub struct Features {
    enabled: Vec<Module>,
}

impl View for Features {
    type V = Set<Module>;

    closed spec fn view(&self) -> Set<Module> {
        Set::new(|m: Module| self.enabled@.contains(m))
    }
}

impl Features {
    /// No module enabled.
    pub fn none() -> (r: Features)
        ensures
            r@ == Set::<Module>::empty(),
    {
        let r = Features { enabled: Vec::new() };
        assert(r@ =~= Set::<Module>::empty());
        r
    }

    /// Every module enabled.
    pub fn all() -> (r: Features)
        ensures
            forall|m: Module| r@.contains(m),
    {
        let v = vec![
            Module::Asoffer,
            Module::Bids,
            Module::BillingConfig,
            Module::BillingRun,
            Module::DemandForecasts,
            Module::Dispatch,
            Module::ForceMajeure,
            Module::GdInstruct,
            Module::GenericConstraint,
            Module::Irauction,
            Module::MarketConfig,
            Module::MarketNotice,
            Module::MccDispatch,
            Module::MeterData,
            Module::Mrevent,
            Module::Network,
            Module::P5min,
            Module::ParticipantRegistration,
            Module::Pdpasa,
            Module::PreDispatch,
            Module::Prudentials,
            Module::ReserveData,
            Module::SettlementConfig,
            Module::SettlementData,
            Module::StpasaSolution,
            Module::TradingData,
            Module::VoltageInstructions
        ];
        assert forall|m: Module| v@.contains(m) by {
            match m {
                Module::Asoffer => assert(v@[0] == m),
                Module::Bids => assert(v@[1] == m),
                Module::BillingConfig => assert(v@[2] == m),
                Module::BillingRun => assert(v@[3] == m),
                Module::DemandForecasts => assert(v@[4] == m),
                Module::Dispatch => assert(v@[5] == m),
                Module::ForceMajeure => assert(v@[6] == m),
                Module::GdInstruct => assert(v@[7] == m),
                Module::GenericConstraint => assert(v@[8] == m),
                Module::Irauction => assert(v@[9] == m),
                Module::MarketConfig => assert(v@[10] == m),
                Module::MarketNotice => assert(v@[11] == m),
                Module::MccDispatch => assert(v@[12] == m),
                Module::MeterData => assert(v@[13] == m),
                Module::Mrevent => assert(v@[14] == m),
                Module::Network => assert(v@[15] == m),
                Module::P5min => assert(v@[16] == m),
                Module::ParticipantRegistration => assert(v@[17] == m),
                Module::Pdpasa => assert(v@[18] == m),
                Module::PreDispatch => assert(v@[19] == m),
                Module::Prudentials => assert(v@[20] == m),
                Module::ReserveData => assert(v@[21] == m),
                Module::SettlementConfig => assert(v@[22] == m),
                Module::SettlementData => assert(v@[23] == m),
                Module::StpasaSolution => assert(v@[24] == m),
                Module::TradingData => assert(v@[25] == m),
                Module::VoltageInstructions => assert(v@[26] == m),
            }
        }
        Features { enabled: v }
    }

    /// Enables the module `m`.
    pub fn enable(&mut self, m: Module)
        ensures
            final(self)@ == old(self)@.insert(m),
    {
        let ghost before = self.enabled@;
        let ghost old_set = self@;
        self.enabled.push(m);
        assert(self.enabled@ == before.push(m));
        assert forall|x: Module| #[trigger] self@.contains(x) == old_set.insert(m).contains(x) by {
            if before.contains(x) {
                let j = choose|j: int| 0 <= j < before.len() && before[j] == x;
                assert(self.enabled@[j] == x);
            }
            if x == m {
                assert(self.enabled@[before.len() as int] == x);
            }
            if self.enabled@.contains(x) && x != m {
                let j = choose|j: int| 0 <= j < self.enabled@.len() && self.enabled@[j] == x;
                assert(before[j] == x);
            }
        }
        assert(self@ =~= old_set.insert(m));
    }

    /// Whether the module `m` is enabled.
    pub fn is_enabled(&self, m: Module) -> (r: bool)
        ensures
            r == self@.contains(m),
    {
        let n = self.enabled.len();
        let mut i: usize = 0;
        while i < n
            invariant
                n == self.enabled@.len(),
                i <= n,
                forall|j: int| 0 <= j < i ==> self.enabled@[j] != m,
            decreases n - i,
        {
            if self.enabled[i] == m {
                return true;
            }
            i = i + 1;
        }
        false
    }
}

/// What the load does with one table of a file.
pub enum KeyPlan {
    /// Insert the table, which belongs to `module`, by the procedure call `procedure`.
    Insert { module: Module, procedure: String },
    /// Skip the table: its module is not enabled.
    Unhandled { module: Module },
    /// Skip the table: the loader does not know it.
    Unexpected,
}

/// What the load does with one table, as values.
pub enum PlanModel {
    Insert { module: Module, procedure: Seq<char> },
    Unhandled { module: Module },
    Unexpected,
}

impl View for KeyPlan {
    type V = PlanModel;

    open spec fn view(&self) -> PlanModel {
        match self {
            KeyPlan::Insert { module, procedure } => PlanModel::Insert { module: *module, procedure: procedure@ },
            KeyPlan::Unhandled { module } => PlanModel::Unhandled { module: *module },
            KeyPlan::Unexpected => PlanModel::Unexpected,
        }
    }
}

/// What the load does with the table `k` when the modules `features` are enabled: a table
/// that the catalogue holds is inserted by its procedure when its module is enabled and
/// skipped otherwise; a table that it does not hold is skipped as unexpected.
pub open spec fn plan_of(k: KeyModel, features: Set<Module>) -> PlanModel {
    match find_entry(k) {
        None => PlanModel::Unexpected,
        Some(i) => {
            let m = CATALOGUE@[i].3;
            if features.contains(m) {
                PlanModel::Insert { module: m, procedure: procedure_name(k.data_set, k.table.unwrap(), k.version) }
            } else {
                PlanModel::Unhandled { module: m }
            }
        },
    }
}

/// What the load does with the table `key` when the modules `features` are enabled.
pub fn plan_key(key: &FileKey, features: &Features) -> (r: KeyPlan)
    ensures
        r@ == plan_of(key@, features@),
{
    match catalogue_index(key) {
        None => KeyPlan::Unexpected,
        Some(i) => {
            let m = CATALOGUE[i].3;
            if features.is_enabled(m) {
                match &key.table_name {
                    Some(t) => KeyPlan::Insert {
                        module: m,
                        procedure: procedure(key.data_set_name.as_str(), t.as_str(), key.version),
                    },
                    None => {
                        assert(entry_matches(CATALOGUE@[i as int], key@));
                        KeyPlan::Unexpected
                    },
                }
            } else {
                KeyPlan::Unhandled { module: m }
            }
        },
    }
}

} // verus!
