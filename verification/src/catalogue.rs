//! The tables that the loader knows: for each (data set, table, version) of an MMSDM
//! file, the data model module that holds the table.

use vstd::prelude::*;

use crate::file::{FileKey, KeyModel};

verus! {

/// A data model module of the MMSDM. A table is loaded only when the module that holds it
/// is enabled.
#[derive(Clone, Copy, PartialEq, Eq, Structural, Debug)]
pub enum Module {
    /// Tables of the `asoffer` data model.
    Asoffer,
    /// Tables of the `bids` data model.
    Bids,
    /// Tables of the `billing_config` data model.
    BillingConfig,
    /// Tables of the `billing_run` data model.
    BillingRun,
    /// Tables of the `demand_forecasts` data model.
    DemandForecasts,
    /// Tables of the `dispatch` data model.
    Dispatch,
    /// Tables of the `force_majeure` data model.
    ForceMajeure,
    /// Tables of the `gd_instruct` data model.
    GdInstruct,
    /// Tables of the `generic_constraint` data model.
    GenericConstraint,
    /// Tables of the `irauction` data model.
    Irauction,
    /// Tables of the `market_config` data model.
    MarketConfig,
    /// Tables of the `market_notice` data model.
    MarketNotice,
    /// Tables of the `mcc_dispatch` data model.
    MccDispatch,
    /// Tables of the `meter_data` data model.
    MeterData,
    /// Tables of the `mrevent` data model.
    Mrevent,
    /// Tables of the `network` data model.
    Network,
    /// Tables of the `p5min` data model.
    P5min,
    /// Tables of the `participant_registration` data model.
    ParticipantRegistration,
    /// Tables of the `pdpasa` data model.
    Pdpasa,
    /// Tables of the `pre_dispatch` data model.
    PreDispatch,
    /// Tables of the `prudentials` data model.
    Prudentials,
    /// Tables of the `reserve_data` data model.
    ReserveData,
    /// Tables of the `settlement_config` data model.
    SettlementConfig,
    /// Tables of the `settlement_data` data model.
    SettlementData,
    /// Tables of the `stpasa_solution` data model.
    StpasaSolution,
    /// Tables of the `trading_data` data model.
    TradingData,
    /// Tables of the `voltage_instructions` data model.
    VoltageInstructions,
}

/// Number of entries in `CATALOGUE`.
pub const CATALOGUE_LEN: usize = 317;

/// Every table that the loader can insert, in the order in which a file key is tried
/// against them: data set name, table name, version, and the module that holds the table.
pub const CATALOGUE: [(&'static str, &'static str, i32, Module); 317] = [
    ("MCC", "CASESOLUTION", 1, Module::MccDispatch),
    ("MCC", "CONSTRAINTSOLUTION", 1, Module::MccDispatch),
    ("P5MIN", "CONSTRAINTSOLUTION", 6, Module::P5min),
    ("P5MIN", "INTERCONNECTORSOLN", 4, Module::P5min),
    ("P5MIN", "REGIONSOLUTION", 5, Module::P5min),
    ("P5MIN", "BLOCKED_CONSTRAINTS", 1, Module::P5min),
    ("P5MIN", "LOCAL_PRICE", 1, Module::P5min),
    ("P5MIN", "CASESOLUTION", 2, Module::P5min),
    ("P5MIN", "UNITSOLUTION", 3, Module::P5min),
    ("PREDISPATCH", "UNIT_SOLUTION", 2, Module::PreDispatch),
    ("PREDISPATCH", "REGION_SOLUTION", 4, Module::PreDispatch),
    ("PREDISPATCH", "CONSTRAINT_SOLUTION", 5, Module::PreDispatch),
    ("PREDISPATCH", "BLOCKED_CONSTRAINTS", 1, Module::PreDispatch),
    ("PREDISPATCH", "INTERCONNECTR_SENS", 1, Module::PreDispatch),
    ("PREDISPATCH", "SCENARIO_DEMAND", 1, Module::PreDispatch),
    ("PREDISPATCH", "LOCAL_PRICE", 1, Module::PreDispatch),
    ("PREDISPATCH", "OFFERTRK", 1, Module::PreDispatch),
    ("PREDISPATCH", "REGION_PRICES", 1, Module::PreDispatch),
    ("PREDISPATCH", "REGIONFCASREQUIREMENT", 2, Module::PreDispatch),
    ("PREDISPATCH", "PRICESENSITIVITIES", 1, Module::PreDispatch),
    ("PREDISPATCH", "MNSPBIDTRK", 1, Module::PreDispatch),
    ("PREDISPATCH", "INTERCONNECTOR_SOLN", 3, Module::PreDispatch),
    ("PREDISPATCH", "CASE_SOLUTION", 1, Module::PreDispatch),
    ("PREDISPATCH", "SCENARIO_DEMAND_TRK", 1, Module::PreDispatch),
    ("ASOFFER", "OFFERASTRK", 1, Module::Asoffer),
    ("ASOFFER", "OFFERLSHEDDATA", 1, Module::Asoffer),
    ("ASOFFER", "OFFERRPOWERDATA", 1, Module::Asoffer),
    ("ASOFFER", "OFFERAGCDATA", 1, Module::Asoffer),
    ("ASOFFER", "OFFERRESTARTDATA", 1, Module::Asoffer),
    ("GEQRHS", "NULL", 1, Module::GenericConstraint),
    ("GCRHS", "NULL", 1, Module::GenericConstraint),
    ("GENERIC_CONSTRAINT", "GENCONSETINVOKE", 2, Module::GenericConstraint),
    ("GENERIC_CONSTRAINT", "EMSMASTER", 1, Module::GenericConstraint),
    ("SPDICC", "NULL", 1, Module::GenericConstraint),
    ("GENCONDATA", "NULL", 6, Module::GenericConstraint),
    ("SPDCPC", "NULL", 2, Module::GenericConstraint),
    ("GENCONSETTRK", "NULL", 2, Module::GenericConstraint),
    ("GEQDESC", "NULL", 2, Module::GenericConstraint),
    ("GENCONSET", "NULL", 1, Module::GenericConstraint),
    ("SPDRC", "NULL", 2, Module::GenericConstraint),
    ("MARKET_NOTICE", "MARKETNOTICETYPE", 1, Module::MarketNotice),
    ("MARKET_NOTICE", "MARKETNOTICEDATA", 1, Module::MarketNotice),
    ("MARKET_NOTICE", "PARTICIPANTNOTICETRK", 1, Module::MarketNotice),
    ("FORCE_MAJEURE", "IRFMEVENTS", 1, Module::ForceMajeure),
    ("FORCE_MAJEURE", "IRFMAMOUNT", 1, Module::ForceMajeure),
    ("AP", "APEVENT", 1, Module::ForceMajeure),
    ("AP", "APEVENTREGION", 1, Module::ForceMajeure),
    ("AP", "REGIONAPCINTERVALS", 1, Module::ForceMajeure),
    ("FORCE_MAJEURE", "OVERRIDERRP", 1, Module::ForceMajeure),
    ("FORCE_MAJEURE", "MARKET_SUSPEND_SCHEDULE", 1, Module::ForceMajeure),
    ("FORCE_MAJEURE", "MARKET_SUSPEND_REGIME_SUM", 1, Module::ForceMajeure),
    ("FORCE_MAJEURE", "MARKET_SUSPEND_SCHEDULE_TRK", 1, Module::ForceMajeure),
    ("FORCE_MAJEURE", "MARKET_SUSPEND_REGION_SUM", 1, Module::ForceMajeure),
    ("AP", "REGIONAPC", 1, Module::ForceMajeure),
    ("DISPATCH", "INTERCONNECTION", 1, Module::Dispatch),
    ("PRICELOAD", "CONSTRAINT_FCAS_OCD", 1, Module::Dispatch),
    ("DISPATCH", "PRICE", 4, Module::Dispatch),
    ("PRICELOAD", "CONSTRAINTRELAXATION", 1, Module::Dispatch),
    ("DISPATCH", "INTERMITTENT_FORECAST_TRK", 1, Module::Dispatch),
    ("DISPATCH", "UNIT_SCADA", 1, Module::Dispatch),
    ("DISPATCH", "FCAS_REQ", 2, Module::Dispatch),
    ("DISPATCH", "BLOCKED_CONSTRAINTS", 1, Module::Dispatch),
    ("DISPATCH", "UNIT_SOLUTION", 2, Module::Dispatch),
    ("PRICELOAD", "PRICE_REVISION", 1, Module::Dispatch),
    ("DISPATCH", "REGIONSUM", 4, Module::Dispatch),
    ("DISPATCH", "UNIT_CONFORMANCE", 1, Module::Dispatch),
    ("DISPATCH", "LOCAL_PRICE", 1, Module::Dispatch),
    ("DISPATCH", "OFFERTRK", 1, Module::Dispatch),
    ("DISPATCH", "MNSPBIDTRK", 1, Module::Dispatch),
    ("DISPATCH", "NEGATIVE_RESIDUE", 1, Module::Dispatch),
    ("DISPATCH", "CASE_SOLUTION", 2, Module::Dispatch),
    ("DISPATCH", "INTERCONNECTORRES", 3, Module::Dispatch),
    ("DISPATCH", "MR_SCHEDULE_TRK", 1, Module::Dispatch),
    ("DISPATCH", "CONSTRAINT", 5, Module::Dispatch),
    ("BILLING", "IRPARTSURPLUS", 5, Module::BillingRun),
    ("BILLING", "DAILY_ENERGY_SUMMARY", 1, Module::BillingRun),
    ("BILLING", "BILLING_DIRECTION_RECON_OTHER", 1, Module::BillingRun),
    ("BILLING", "NMAS_TST_RECOVERY", 1, Module::BillingRun),
    ("BILLING", "SECDEP_INTEREST_PAY", 1, Module::BillingRun),
    ("BILLING", "IRAUCSURPLUSSUM", 7, Module::BillingRun),
    ("BILLING", "DAYTRK", 5, Module::BillingRun),
    ("BILLING", "IRNSPSURPLUSSUM", 6, Module::BillingRun),
    ("BILLING", "APC_RECOVERY", 2, Module::BillingRun),
    ("BILLING", "IRFM", 5, Module::BillingRun),
    ("BILLING", "SMELTERREDUCTION", 5, Module::BillingRun),
    ("BILLING", "NMAS_TST_PAYMENTS", 1, Module::BillingRun),
    ("BILLING", "RUNTRK", 5, Module::BillingRun),
    ("BILLING", "MR_SHORTFALL", 5, Module::BillingRun),
    ("BILLING", "GENDATA", 5, Module::BillingRun),
    ("BILLING", "GST_SUMMARY", 5, Module::BillingRun),
    ("BILLING", "SECDEP_INTEREST_RATE", 1, Module::BillingRun),
    ("BILLING", "REALLOC", 5, Module::BillingRun),
    ("BILLING", "MR_PAYMENT", 5, Module::BillingRun),
    ("BILLING", "REGIONFIGURES", 5, Module::BillingRun),
    ("BILLING", "ASPAYMENTS", 6, Module::BillingRun),
    ("BILLING", "NMAS_TST_RECVRY_RBF", 1, Module::BillingRun),
    ("BILLING", "MR_SUMMARY", 5, Module::BillingRun),
    ("BILLING", "REGIONEXPORTS", 5, Module::BillingRun),
    ("BILLING", "FINANCIALADJUSTMENTS", 5, Module::BillingRun),
    ("BILLING", "REGIONIMPORTS", 5, Module::BillingRun),
    ("BILLING", "REALLOC_DETAIL", 5, Module::BillingRun),
    ("BILLING", "PRIORADJUSTMENTS", 5, Module::BillingRun),
    ("BILLING", "EFTSHORTFALL_AMOUNT", 1, Module::BillingRun),
    ("BILLING", "CPDATA", 5, Module::BillingRun),
    ("BILLING", "MR_RECOVERY", 5, Module::BillingRun),
    ("BILLING", "RES_TRADER_PAYMENT", 1, Module::BillingRun),
    ("BILLING", "ASRECOVERY", 7, Module::BillingRun),
    ("BILLING", "FEES", 5, Module::BillingRun),
    ("BILLING", "BILLING_CO2E_PUBLICATION", 1, Module::BillingRun),
    ("BILLING", "SECDEPOSIT_APPLICATION", 1, Module::BillingRun),
    ("BILLING", "GST_DETAIL", 5, Module::BillingRun),
    ("BILLING", "DIRECTION_RECONCILIATN", 1, Module::BillingRun),
    ("BILLING", "EFTSHORTFALL_DETAIL", 1, Module::BillingRun),
    ("BILLING", "IRNSPSURPLUS", 5, Module::BillingRun),
    ("BILLING", "WHITEHOLE", 5, Module::BillingRun),
    ("BILLING", "IRPARTSURPLUSSUM", 7, Module::BillingRun),
    ("BILLING", "APC_COMPENSATION", 2, Module::BillingRun),
    ("BILLING", "NMAS_TST_RECVRY_TRK", 1, Module::BillingRun),
    ("BILLING", "INTERRESIDUES", 5, Module::BillingRun),
    ("BILLING", "RES_TRADER_RECOVERY", 1, Module::BillingRun),
    ("BILLING", "IRAUCSURPLUS", 5, Module::BillingRun),
    ("BILLING", "BILLING_CO2E_PUBLICATION_TRK", 1, Module::BillingRun),
    ("BILLING", "INTRARESIDUES", 5, Module::BillingRun),
    ("BID", "BIDDAYOFFER_D", 2, Module::Bids),
    ("BID", "BIDPEROFFER_D", 2, Module::Bids),
    ("OFFER", "MTPASA_OFFERFILETRK", 1, Module::Bids),
    ("OFFER", "MNSP_PEROFFER", 1, Module::Bids),
    ("BID", "MNSP_FILETRK", 1, Module::Bids),
    ("OFFER", "BIDPEROFFER", 1, Module::Bids),
    ("OFFER", "MNSP_DAYOFFER", 2, Module::Bids),
    ("OFFER", "MTPASA_OFFERDATA", 1, Module::Bids),
    ("OFFER", "MNSP_OFFERTRK", 1, Module::Bids),
    ("OFFER", "BIDDAYOFFER", 2, Module::Bids),
    ("OFFER", "BIDOFFERFILETRK", 1, Module::Bids),
    ("STPASA", "CONSTRAINTSOLUTION", 2, Module::StpasaSolution),
    ("STPASA", "INTERCONNECTORSOLN", 2, Module::StpasaSolution),
    ("STPASA", "REGIONSOLUTION", 5, Module::StpasaSolution),
    ("STPASA", "CASESOLUTION", 3, Module::StpasaSolution),
    ("GD_INSTRUCT", "INSTRUCTIONSUBTYPE", 1, Module::GdInstruct),
    ("GD_INSTRUCT", "GDINSTRUCT", 1, Module::GdInstruct),
    ("GD_INSTRUCT", "INSTRUCTIONTYPE", 1, Module::GdInstruct),
    ("VOLTAGE_INSTRUCTION", "TRACK", 2, Module::VoltageInstructions),
    ("VOLTAGE_INSTRUCTION", "INSTRUCTION", 2, Module::VoltageInstructions),
    ("NETWORK", "SUBSTATIONDETAIL", 1, Module::Network),
    ("NETWORK", "REALTIMERATING", 1, Module::Network),
    ("NETWORK", "OUTAGECONSTRAINTSET", 1, Module::Network),
    ("NETWORK", "STATICRATING", 1, Module::Network),
    ("NETWORK", "EQUIPMENTDETAIL", 1, Module::Network),
    ("NETWORK", "OUTAGEDETAIL", 3, Module::Network),
    ("NETWORK", "OUTAGESTATUSCODE", 1, Module::Network),
    ("NETWORK", "RATING", 1, Module::Network),
    ("IRAUCTION_CONFIG", "AUCTION_RP_ESTIMATE", 1, Module::Irauction),
    ("IRAUCTION", "SRA_FINANCIAL_AUC_RECEIPTS", 1, Module::Irauction),
    ("IRAUCTION", "SRA_FINANCIAL_AUC_MARDETAIL", 1, Module::Irauction),
    ("IRAUCTION", "RESIDUE_PRICE_FUNDS_BID", 1, Module::Irauction),
    ("IRAUCTION", "SRA_PRUDENTIAL_COMP_POSITION", 1, Module::Irauction),
    ("IRAUCTION", "SRA_FINANCIAL_AUC_MARGIN", 1, Module::Irauction),
    ("IRAUCTION", "RESIDUE_CON_FUNDS", 1, Module::Irauction),
    ("IRAUCTION", "RESIDUE_CON_DATA", 2, Module::Irauction),
    ("IRAUCTION", "SRA_PRUDENTIAL_CASH_SECURITY", 1, Module::Irauction),
    ("IRAUCTION", "VALUATIONID", 1, Module::Irauction),
    ("IRAUCTION_CONFIG", "AUCTION_REVENUE_TRACK", 1, Module::Irauction),
    ("SETTLEMENT_CONFIG", "RESIDUECONTRACTPAYMENTS", 1, Module::Irauction),
    ("IRAUCTION", "RESIDUE_CONTRACTS", 1, Module::Irauction),
    ("IRAUCTION", "RESIDUE_BID_TRK", 1, Module::Irauction),
    ("IRAUCTION_BIDS", "FILE_TRK", 1, Module::Irauction),
    ("IRAUCTION_CONFIG", "AUCTION_CALENDAR", 2, Module::Irauction),
    ("IRAUCTION_CONFIG", "AUCTION_TRANCHE", 1, Module::Irauction),
    ("IRAUCTION_BIDS", "FUNDS_BID", 1, Module::Irauction),
    ("IRAUCTION", "SRA_FINANCIAL_RUNTRK", 1, Module::Irauction),
    ("IRAUCTION", "SRA_CASH_SECURITY", 1, Module::Irauction),
    ("IRAUCTION_CONFIG", "AUCTION_IC_ALLOCATIONS", 2, Module::Irauction),
    ("IRAUCTION", "SRA_FINANCIAL_AUCPAY_SUM", 1, Module::Irauction),
    ("IRAUCTION", "SRA_OFFER_PROFILE", 1, Module::Irauction),
    ("IRAUCTION", "SRA_PRUDENTIAL_EXPOSURE", 1, Module::Irauction),
    ("IRAUCTION", "SRA_PRUDENTIAL_RUN", 1, Module::Irauction),
    ("IRAUCTION", "SRA_OFFER_PRODUCT", 1, Module::Irauction),
    ("IRAUCTION_CONFIG", "AUCTION_REVENUE_ESTIMATE", 1, Module::Irauction),
    ("IRAUCTION_BIDS", "PRICE_BID", 1, Module::Irauction),
    ("IRAUCTION_CONFIG", "AUCTION", 1, Module::Irauction),
    ("IRAUCTION", "RESIDUE_TRK", 1, Module::Irauction),
    ("IRAUCTION", "SRA_FINANCIAL_AUCPAY_DETAIL", 1, Module::Irauction),
    ("IRAUCTION", "RESIDUE_CON_ESTIMATES_TRK", 1, Module::Irauction),
    ("IRAUCTION", "RESIDUE_PUBLIC_DATA", 1, Module::Irauction),
    ("SETTLEMENTS", "RPOWERRECOVERY", 5, Module::SettlementData),
    ("SETTLEMENTS", "VICBOUNDARYENERGY", 5, Module::SettlementData),
    ("SETTLEMENTS", "APC_COMPENSATION", 1, Module::SettlementData),
    ("SETTLEMENTS", "FCASCOMP", 5, Module::SettlementData),
    ("SETTLEMENTS", "ANCILLARY_SUMMARY", 5, Module::SettlementData),
    ("SETTLEMENTS", "AGCRECOVERY", 5, Module::SettlementData),
    ("SETTLEMENTS", "IRFMRECOVERY", 5, Module::SettlementData),
    ("SETTLEMENTS", "CPDATAREGION", 5, Module::SettlementData),
    ("SETTLEMENTS", "LUNLOADRECOVERY", 5, Module::SettlementData),
    ("SETTLEMENTS", "RPOWERPAYMENT", 6, Module::SettlementData),
    ("SETTLEMENTS", "APC_RECOVERY", 1, Module::SettlementData),
    ("SETTLEMENTS", "MR_RECOVERY", 5, Module::SettlementData),
    ("SETTLEMENTS", "FCAS_RECOVERY", 6, Module::SettlementData),
    ("SETTLEMENTS", "MARKETFEES", 5, Module::SettlementData),
    ("SETTLEMENTS", "GENDATAREGION", 5, Module::SettlementData),
    ("SETTLEMENTS", "INTRAREGIONRESIDUES", 5, Module::SettlementData),
    ("SETTLEMENTS", "IRNSPSURPLUS", 6, Module::SettlementData),
    ("SETTLEMENTS", "CPDATA", 5, Module::SettlementData),
    ("SETTLEMENTS", "INTERVENTIONRECOVERY", 5, Module::SettlementData),
    ("SETTLEMENTS", "LSHEDPAYMENT", 5, Module::SettlementData),
    ("SETTLEMENTS", "RESTARTRECOVERY", 6, Module::SettlementData),
    ("SETTLEMENTS", "RESTARTPAYMENT", 6, Module::SettlementData),
    ("SETTLEMENTS", "AGCPAYMENT", 5, Module::SettlementData),
    ("SETTLEMENTS", "FCAS_PAYMENT", 5, Module::SettlementData),
    ("SETTLEMENTS", "IRSURPLUS", 6, Module::SettlementData),
    ("SETTLEMENTS", "NMAS_RECOVERY_RBF", 1, Module::SettlementData),
    ("SETTLEMENTS", "MR_PAYMENT", 5, Module::SettlementData),
    ("SETTLEMENTS", "IRPARTSURPLUS", 6, Module::SettlementData),
    ("SETTLEMENTS", "SMALLGENDATA", 1, Module::SettlementData),
    ("SETTLEMENTS", "LUNLOADPAYMENT", 5, Module::SettlementData),
    ("SETTLEMENTS", "LULOADRECOVERY", 5, Module::SettlementData),
    ("SETTLEMENTS", "GENDATA", 6, Module::SettlementData),
    ("SETTLEMENTS", "FCASREGIONRECOVERY", 5, Module::SettlementData),
    ("SETTLEMENTS", "IRAUCSURPLUS", 6, Module::SettlementData),
    ("SETTLEMENTS", "SET_FCAS_REGULATION_TRK", 1, Module::SettlementData),
    ("SETTLEMENTS", "NMAS_RECOVERY", 2, Module::SettlementData),
    ("SETTLEMENTS", "VICENERGYFIGURES", 5, Module::SettlementData),
    ("SETTLEMENTS", "DAYTRACK", 5, Module::SettlementData),
    ("SETTLEMENTS", "REALLOCATIONS", 5, Module::SettlementData),
    ("SETTLEMENTS", "INTERVENTION", 5, Module::SettlementData),
    ("SETTLEMENTS", "VICENERGYFLOW", 5, Module::SettlementData),
    ("SETTLEMENTS", "RUN_PARAMETER", 5, Module::SettlementData),
    ("SETTLEMENTS", "LSHEDRECOVERY", 5, Module::SettlementData),
    ("SETCFG", "REALLOCATION", 2, Module::SettlementConfig),
    ("SETTLEMENT_CONFIG", "SETCFG_PARTICIPANT_MPF", 1, Module::SettlementConfig),
    ("SETTLEMENT_CONFIG", "ANCILLARY_RECOVERY_SPLIT", 1, Module::SettlementConfig),
    ("SETTLEMENT_CONFIG", "MARKETFEETRK", 1, Module::SettlementConfig),
    ("SETTLEMENT_CONFIG", "SETCFG_PARTICIPANT_MPFTRK", 1, Module::SettlementConfig),
    ("SETTLEMENT_CONFIG", "MARKET_FEE_CAT_EXCL", 1, Module::SettlementConfig),
    ("SETTLEMENT_CONFIG", "MARKET_FEE_EXCLUSION_TRK", 1, Module::SettlementConfig),
    ("SETTLEMENT_CONFIG", "MARKET_FEE_CAT_EXCL_TRK", 1, Module::SettlementConfig),
    ("SETTLEMENT_CONFIG", "PARTICIPANT_BANDFEE_ALLOC", 1, Module::SettlementConfig),
    ("SETTLEMENT_CONFIG", "MARKETFEE", 1, Module::SettlementConfig),
    ("SETCFG", "REALLOCATIONINTERVAL", 1, Module::SettlementConfig),
    ("SETTLEMENT_CONFIG", "MARKET_FEE_EXCLUSION", 1, Module::SettlementConfig),
    ("SETTLEMENT_CONFIG", "MARKETFEEDATA", 1, Module::SettlementConfig),
    ("MARKET_CONFIG", "INTERCONNECTORALLOC", 1, Module::MarketConfig),
    ("MARKET_CONFIG", "TRANSMISSIONLOSSFACTOR", 2, Module::MarketConfig),
    ("MARKET_CONFIG", "BIDTYPESTRK", 1, Module::MarketConfig),
    ("MARKET_CONFIG", "LOSSMODEL", 1, Module::MarketConfig),
    ("MARKET_CONFIG", "LOSSFACTORMODEL", 1, Module::MarketConfig),
    ("MARKET_CONFIG", "BIDTYPES", 1, Module::MarketConfig),
    ("MARKET_CONFIG", "MARKET_PRICE_THRESHOLDS", 1, Module::MarketConfig),
    ("MARKET_CONFIG", "INTERCONNECTOR", 1, Module::MarketConfig),
    ("MARKET_CONFIG", "INTRAREGIONALLOC", 1, Module::MarketConfig),
    ("MARKET_CONFIG", "REGIONSTANDINGDATA", 1, Module::MarketConfig),
    ("MARKET_CONFIG", "INTERCONNECTORCONSTRAINT", 1, Module::MarketConfig),
    ("MARKET_CONFIG", "REGION", 1, Module::MarketConfig),
    ("METERDATA", "TRK", 1, Module::MeterData),
    ("METERDATA", "INTERCONNECTOR", 1, Module::MeterData),
    ("METERDATA", "INDIVIDUAL_READS", 1, Module::MeterData),
    ("METERDATA", "AGGREGATE_READS", 1, Module::MeterData),
    ("PRUDENTIAL", "COMPANY_POSITION", 1, Module::Prudentials),
    ("PRUDENTIAL", "RUNTRK", 1, Module::Prudentials),
    ("PDPASA", "CASESOLUTION", 3, Module::Pdpasa),
    ("PDPASA", "REGIONSOLUTION", 5, Module::Pdpasa),
    ("TRADING", "REGIONSUM", 4, Module::TradingData),
    ("TRADING", "UNIT_SOLUTION", 2, Module::TradingData),
    ("TRADING", "PRICE", 2, Module::TradingData),
    ("TRADING", "INTERCONNECTORRES", 2, Module::TradingData),
    ("DEMAND", "INTERMITTENT_GEN_LIMIT_DAY", 1, Module::DemandForecasts),
    ("DEMAND", "TRK", 1, Module::DemandForecasts),
    ("DEMAND", "INTERMITTENT_GEN_LIMIT", 1, Module::DemandForecasts),
    ("DEMAND", "INTERMITTENT_DS_PRED", 1, Module::DemandForecasts),
    ("DEMAND", "MTPASA_INTERMITTENT_LIMIT", 1, Module::DemandForecasts),
    ("ROOFTOP", "ACTUAL", 2, Module::DemandForecasts),
    ("DEMAND", "INTERMITTENT_CLUSTER_AVAIL_DAY", 1, Module::DemandForecasts),
    ("OPERATIONAL_DEMAND", "ACTUAL", 1, Module::DemandForecasts),
    ("DEMAND", "INTERMITTENT_CLUSTER_AVAIL", 1, Module::DemandForecasts),
    ("FORECAST", "INTERMITTENT_GEN_DATA", 1, Module::DemandForecasts),
    ("DEMAND", "PERIOD", 1, Module::DemandForecasts),
    ("FORECAST", "INTERMITTENT_GEN", 1, Module::DemandForecasts),
    ("ROOFTOP", "FORECAST", 1, Module::DemandForecasts),
    ("DEMAND", "MTPASA_INTERMITTENT_AVAIL", 1, Module::DemandForecasts),
    ("DEMAND", "INTERMITTENT_DS_RUN", 1, Module::DemandForecasts),
    ("OPERATIONAL_DEMAND", "FORECAST", 1, Module::DemandForecasts),
    ("MR", "EVENT", 1, Module::Mrevent),
    ("MR", "PEROFFER_STACK", 1, Module::Mrevent),
    ("MR", "DAYOFFER_STACK", 1, Module::Mrevent),
    ("MR", "EVENT_SCHEDULE", 1, Module::Mrevent),
    ("PARTICIPANT_REGISTRATION", "PARTICIPANTCATEGORYALLOC", 1, Module::ParticipantRegistration),
    ("PARTICIPANT_REGISTRATION", "MNSP_INTERCONNECTOR", 2, Module::ParticipantRegistration),
    ("PARTICIPANT_REGISTRATION", "DISPATCHABLEUNIT", 1, Module::ParticipantRegistration),
    ("PARTICIPANT_REGISTRATION", "PARTICIPANTACCOUNT", 1, Module::ParticipantRegistration),
    ("PARTICIPANT_REGISTRATION", "STATIONOWNERTRK", 1, Module::ParticipantRegistration),
    ("PARTICIPANT_REGISTRATION", "BIDDUIDDETAILSTRK", 1, Module::ParticipantRegistration),
    ("PARTICIPANT_REGISTRATION", "DUDETAIL", 3, Module::ParticipantRegistration),
    ("PARTICIPANT_REGISTRATION", "STADUALLOC", 1, Module::ParticipantRegistration),
    ("PARTICIPANT_REGISTRATION", "BIDDUIDDETAILS", 1, Module::ParticipantRegistration),
    ("PARTICIPANT_REGISTRATION", "DUALLOC", 1, Module::ParticipantRegistration),
    ("PARTICIPANT_REGISTRATION", "DUDETAILSUMMARY", 4, Module::ParticipantRegistration),
    ("PARTICIPANT_REGISTRATION", "PARTICIPANTCREDITDETAIL", 1, Module::ParticipantRegistration),
    ("PARTICIPANT_REGISTRATION", "MNSP_PARTICIPANT", 1, Module::ParticipantRegistration),
    ("PARTICIPANT_REGISTRATION", "PARTICIPANTCLASS", 1, Module::ParticipantRegistration),
    ("PARTICIPANT_REGISTRATION", "PARTICIPANT", 1, Module::ParticipantRegistration),
    ("PARTICIPANT_REGISTRATION", "STATION", 1, Module::ParticipantRegistration),
    ("PARTICIPANT_REGISTRATION", "STATIONOWNER", 1, Module::ParticipantRegistration),
    ("PARTICIPANT_REGISTRATION", "GENUNITS_UNIT", 1, Module::ParticipantRegistration),
    ("PARTICIPANT_REGISTRATION", "GENUNITS", 2, Module::ParticipantRegistration),
    ("PARTICIPANT_REGISTRATION", "GENMETER", 1, Module::ParticipantRegistration),
    ("PARTICIPANT_REGISTRATION", "STATIONOPERATINGSTATUS", 1, Module::ParticipantRegistration),
    ("PARTICIPANT_REGISTRATION", "PARTICIPANTCATEGORY", 1, Module::ParticipantRegistration),
    ("MTPASA", "RESERVELIMIT", 1, Module::ReserveData),
    ("MTPASA", "RESERVELIMIT_REGION", 1, Module::ReserveData),
    ("MTPASA", "RESERVELIMIT_SET", 1, Module::ReserveData),
    ("RESERVE_DATA", "RESERVE", 1, Module::ReserveData),
    ("BILLING_CONFIG", "GST_TRANSACTION_CLASS", 1, Module::BillingConfig),
    ("BILLING_CONFIG", "GST_TRANSACTION_TYPE", 1, Module::BillingConfig),
    ("BILLING_CONFIG", "GST_RATE", 1, Module::BillingConfig),
    ("BILLING_CONFIG", "SECDEPOSIT_INTEREST_RATE", 1, Module::BillingConfig),
    ("BILLING_CONFIG", "SECDEPOSIT_PROVISION", 1, Module::BillingConfig),
    ("BILLING_CONFIG", "BILLINGCALENDAR", 2, Module::BillingConfig),
    ("BILLING_CONFIG", "GST_BAS_CLASS", 1, Module::BillingConfig),
];

/// Whether the catalogue entry `e` is the table that the file key `k` names.
pub open spec fn entry_matches(e: (&'static str, &'static str, i32, Module), k: KeyModel) -> bool {
    &&& e.0@ == k.data_set
    &&& k.table == Some(e.1@)
    &&& e.2 == k.version
}

/// Index of the first catalogue entry at or after `from` that the key `k` names.
pub open spec fn find_entry_from(k: KeyModel, from: int) -> Option<int>
    decreases CATALOGUE@.len() - from,
{
    if from < 0 || from >= CATALOGUE@.len() {
        None
    } else if entry_matches(CATALOGUE@[from], k) {
        Some(from)
    } else {
        find_entry_from(k, from + 1)
    }
}

/// Index of the first catalogue entry that the key `k` names, if any.
pub open spec fn find_entry(k: KeyModel) -> Option<int> {
    find_entry_from(k, 0)
}

/// Whether two texts hold the same characters.
pub fn same_text(a: &str, b: &str) -> (r: bool)
    ensures
        r == (a@ == b@),
{
    let n = a.unicode_len();
    if n != b.unicode_len() {
        return false;
    }
    let mut i: usize = 0;
    while i < n
        invariant
            n == a@.len(),
            n == b@.len(),
            i <= n,
            forall|j: int| 0 <= j < i ==> a@[j] == b@[j],
        decreases n - i,
    {
        if a.get_char(i) != b.get_char(i) {
            return false;
        }
        i = i + 1;
    }
    assert(a@ =~= b@);
    true
}

/// Looks the file key up in the catalogue: the index of the first entry that names the
/// same data set, table and version, or `None` when no entry does.
pub fn catalogue_index(key: &FileKey) -> (r: Option<usize>)
    ensures
        r matches Some(i) ==> find_entry(key@) == Some(i as int) && i < CATALOGUE_LEN
            && entry_matches(CATALOGUE@[i as int], key@),
        r is None ==> find_entry(key@) is None,
        r matches Some(i) ==> {
            &&& i < CATALOGUE_LEN
            &&& CATALOGUE@[i as int].0@ == key.data_set_name@
            &&& key.table_name matches Some(t) && t@ == CATALOGUE@[i as int].1@
            &&& CATALOGUE@[i as int].2 == key.version
            &&& forall|j: int|
                0 <= j < i ==> !(#[trigger] CATALOGUE@[j].0@ == key.data_set_name@ && (key.table_name matches Some(
                    t,
                ) && t@ == CATALOGUE@[j].1@) && CATALOGUE@[j].2 == key.version)
        },
        r is None ==> forall|j: int|
            0 <= j < CATALOGUE_LEN ==> !(#[trigger] CATALOGUE@[j].0@ == key.data_set_name@ && (key.table_name matches Some(
                t,
            ) && t@ == CATALOGUE@[j].1@) && CATALOGUE@[j].2 == key.version),
{
    let ghost k = key@;
    assert(CATALOGUE@.len() == CATALOGUE_LEN);
    let mut i: usize = 0;
    while i < CATALOGUE_LEN
        invariant
            k == key@,
            CATALOGUE@.len() == CATALOGUE_LEN,
            i <= CATALOGUE_LEN,
            find_entry_from(k, 0) == find_entry_from(k, i as int),
            forall|j: int|
                0 <= j < i ==> !(#[trigger] CATALOGUE@[j].0@ == key.data_set_name@ && (key.table_name matches Some(
                    t,
                ) && t@ == CATALOGUE@[j].1@) && CATALOGUE@[j].2 == key.version),
        decreases CATALOGUE_LEN - i,
    {
        let e = CATALOGUE[i];
        let table_ok = match &key.table_name {
            Some(t) => same_text(t.as_str(), e.1),
            None => false,
        };
        if table_ok && e.2 == key.version && same_text(key.data_set_name.as_str(), e.0) {
            assert(entry_matches(CATALOGUE@[i as int], k));
            return Some(i);
        }
        assert(!entry_matches(CATALOGUE@[i as int], k));
        i = i + 1;
    }
    None
}

} // verus!
