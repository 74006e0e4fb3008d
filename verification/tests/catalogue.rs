use mmsdm_loader::catalogue::{Module, CATALOGUE, CATALOGUE_LEN};
use mmsdm_loader::file::FileKey;
use mmsdm_loader::plan::{plan_key, Features, KeyPlan};

/// Every table that an MMSDM file may hold and that the loader inserts, with its module and
/// the call of its insert procedure.
const TABLES: &[(&str, &str, i32, Module, &str)] = &[
    ("MCC", "CASESOLUTION", 1, Module::MccDispatch, "exec mmsdm_proc.InsertMccCasesolution1 @P1, @P2"),
    ("MCC", "CONSTRAINTSOLUTION", 1, Module::MccDispatch, "exec mmsdm_proc.InsertMccConstraintsolution1 @P1, @P2"),
    ("P5MIN", "CONSTRAINTSOLUTION", 6, Module::P5min, "exec mmsdm_proc.InsertP5minConstraintsolution6 @P1, @P2"),
    ("P5MIN", "INTERCONNECTORSOLN", 4, Module::P5min, "exec mmsdm_proc.InsertP5minInterconnectorsoln4 @P1, @P2"),
    ("P5MIN", "REGIONSOLUTION", 5, Module::P5min, "exec mmsdm_proc.InsertP5minRegionsolution5 @P1, @P2"),
    ("P5MIN", "BLOCKED_CONSTRAINTS", 1, Module::P5min, "exec mmsdm_proc.InsertP5minBlockedConstraints1 @P1, @P2"),
    ("P5MIN", "LOCAL_PRICE", 1, Module::P5min, "exec mmsdm_proc.InsertP5minLocalPrice1 @P1, @P2"),
    ("P5MIN", "CASESOLUTION", 2, Module::P5min, "exec mmsdm_proc.InsertP5minCasesolution2 @P1, @P2"),
    ("P5MIN", "UNITSOLUTION", 3, Module::P5min, "exec mmsdm_proc.InsertP5minUnitsolution3 @P1, @P2"),
    ("PREDISPATCH", "UNIT_SOLUTION", 2, Module::PreDispatch, "exec mmsdm_proc.InsertPredispatchUnitSolution2 @P1, @P2"),
    ("PREDISPATCH", "REGION_SOLUTION", 4, Module::PreDispatch, "exec mmsdm_proc.InsertPredispatchRegionSolution4 @P1, @P2"),
    ("PREDISPATCH", "CONSTRAINT_SOLUTION", 5, Module::PreDispatch, "exec mmsdm_proc.InsertPredispatchConstraintSolution5 @P1, @P2"),
    ("PREDISPATCH", "BLOCKED_CONSTRAINTS", 1, Module::PreDispatch, "exec mmsdm_proc.InsertPredispatchBlockedConstraints1 @P1, @P2"),
    ("PREDISPATCH", "INTERCONNECTR_SENS", 1, Module::PreDispatch, "exec mmsdm_proc.InsertPredispatchInterconnectrSens1 @P1, @P2"),
    ("PREDISPATCH", "SCENARIO_DEMAND", 1, Module::PreDispatch, "exec mmsdm_proc.InsertPredispatchScenarioDemand1 @P1, @P2"),
    ("PREDISPATCH", "LOCAL_PRICE", 1, Module::PreDispatch, "exec mmsdm_proc.InsertPredispatchLocalPrice1 @P1, @P2"),
    ("PREDISPATCH", "OFFERTRK", 1, Module::PreDispatch, "exec mmsdm_proc.InsertPredispatchOffertrk1 @P1, @P2"),
    ("PREDISPATCH", "REGION_PRICES", 1, Module::PreDispatch, "exec mmsdm_proc.InsertPredispatchRegionPrices1 @P1, @P2"),
    ("PREDISPATCH", "REGIONFCASREQUIREMENT", 2, Module::PreDispatch, "exec mmsdm_proc.InsertPredispatchRegionfcasrequirement2 @P1, @P2"),
    ("PREDISPATCH", "PRICESENSITIVITIES", 1, Module::PreDispatch, "exec mmsdm_proc.InsertPredispatchPricesensitivities1 @P1, @P2"),
    ("PREDISPATCH", "MNSPBIDTRK", 1, Module::PreDispatch, "exec mmsdm_proc.InsertPredispatchMnspbidtrk1 @P1, @P2"),
    ("PREDISPATCH", "INTERCONNECTOR_SOLN", 3, Module::PreDispatch, "exec mmsdm_proc.InsertPredispatchInterconnectorSoln3 @P1, @P2"),
    ("PREDISPATCH", "CASE_SOLUTION", 1, Module::PreDispatch, "exec mmsdm_proc.InsertPredispatchCaseSolution1 @P1, @P2"),
    ("PREDISPATCH", "SCENARIO_DEMAND_TRK", 1, Module::PreDispatch, "exec mmsdm_proc.InsertPredispatchScenarioDemandTrk1 @P1, @P2"),
    ("ASOFFER", "OFFERASTRK", 1, Module::Asoffer, "exec mmsdm_proc.InsertAsofferOfferastrk1 @P1, @P2"),
    ("ASOFFER", "OFFERLSHEDDATA", 1, Module::Asoffer, "exec mmsdm_proc.InsertAsofferOfferlsheddata1 @P1, @P2"),
    ("ASOFFER", "OFFERRPOWERDATA", 1, Module::Asoffer, "exec mmsdm_proc.InsertAsofferOfferrpowerdata1 @P1, @P2"),
    ("ASOFFER", "OFFERAGCDATA", 1, Module::Asoffer, "exec mmsdm_proc.InsertAsofferOfferagcdata1 @P1, @P2"),
    ("ASOFFER", "OFFERRESTARTDATA", 1, Module::Asoffer, "exec mmsdm_proc.InsertAsofferOfferrestartdata1 @P1, @P2"),
    ("GEQRHS", "NULL", 1, Module::GenericConstraint, "exec mmsdm_proc.InsertGeqrhsNull1 @P1, @P2"),
    ("GCRHS", "NULL", 1, Module::GenericConstraint, "exec mmsdm_proc.InsertGcrhsNull1 @P1, @P2"),
    ("GENERIC_CONSTRAINT", "GENCONSETINVOKE", 2, Module::GenericConstraint, "exec mmsdm_proc.InsertGenericConstraintGenconsetinvoke2 @P1, @P2"),
    ("GENERIC_CONSTRAINT", "EMSMASTER", 1, Module::GenericConstraint, "exec mmsdm_proc.InsertGenericConstraintEmsmaster1 @P1, @P2"),
    ("SPDICC", "NULL", 1, Module::GenericConstraint, "exec mmsdm_proc.InsertSpdiccNull1 @P1, @P2"),
    ("GENCONDATA", "NULL", 6, Module::GenericConstraint, "exec mmsdm_proc.InsertGencondataNull6 @P1, @P2"),
    ("SPDCPC", "NULL", 2, Module::GenericConstraint, "exec mmsdm_proc.InsertSpdcpcNull2 @P1, @P2"),
    ("GENCONSETTRK", "NULL", 2, Module::GenericConstraint, "exec mmsdm_proc.InsertGenconsettrkNull2 @P1, @P2"),
    ("GEQDESC", "NULL", 2, Module::GenericConstraint, "exec mmsdm_proc.InsertGeqdescNull2 @P1, @P2"),
    ("GENCONSET", "NULL", 1, Module::GenericConstraint, "exec mmsdm_proc.InsertGenconsetNull1 @P1, @P2"),
    ("SPDRC", "NULL", 2, Module::GenericConstraint, "exec mmsdm_proc.InsertSpdrcNull2 @P1, @P2"),
    ("MARKET_NOTICE", "MARKETNOTICETYPE", 1, Module::MarketNotice, "exec mmsdm_proc.InsertMarketNoticeMarketnoticetype1 @P1, @P2"),
    ("MARKET_NOTICE", "MARKETNOTICEDATA", 1, Module::MarketNotice, "exec mmsdm_proc.InsertMarketNoticeMarketnoticedata1 @P1, @P2"),
    ("MARKET_NOTICE", "PARTICIPANTNOTICETRK", 1, Module::MarketNotice, "exec mmsdm_proc.InsertMarketNoticeParticipantnoticetrk1 @P1, @P2"),
    ("FORCE_MAJEURE", "IRFMEVENTS", 1, Module::ForceMajeure, "exec mmsdm_proc.InsertForceMajeureIrfmevents1 @P1, @P2"),
    ("FORCE_MAJEURE", "IRFMAMOUNT", 1, Module::ForceMajeure, "exec mmsdm_proc.InsertForceMajeureIrfmamount1 @P1, @P2"),
    ("AP", "APEVENT", 1, Module::ForceMajeure, "exec mmsdm_proc.InsertApApevent1 @P1, @P2"),
    ("AP", "APEVENTREGION", 1, Module::ForceMajeure, "exec mmsdm_proc.InsertApApeventregion1 @P1, @P2"),
    ("AP", "REGIONAPCINTERVALS", 1, Module::ForceMajeure, "exec mmsdm_proc.InsertApRegionapcintervals1 @P1, @P2"),
    ("FORCE_MAJEURE", "OVERRIDERRP", 1, Module::ForceMajeure, "exec mmsdm_proc.InsertForceMajeureOverriderrp1 @P1, @P2"),
    ("FORCE_MAJEURE", "MARKET_SUSPEND_SCHEDULE", 1, Module::ForceMajeure, "exec mmsdm_proc.InsertForceMajeureMarketSuspendSchedule1 @P1, @P2"),
    ("FORCE_MAJEURE", "MARKET_SUSPEND_REGIME_SUM", 1, Module::ForceMajeure, "exec mmsdm_proc.InsertForceMajeureMarketSuspendRegimeSum1 @P1, @P2"),
    ("FORCE_MAJEURE", "MARKET_SUSPEND_SCHEDULE_TRK", 1, Module::ForceMajeure, "exec mmsdm_proc.InsertForceMajeureMarketSuspendScheduleTrk1 @P1, @P2"),
    ("FORCE_MAJEURE", "MARKET_SUSPEND_REGION_SUM", 1, Module::ForceMajeure, "exec mmsdm_proc.InsertForceMajeureMarketSuspendRegionSum1 @P1, @P2"),
    ("AP", "REGIONAPC", 1, Module::ForceMajeure, "exec mmsdm_proc.InsertApRegionapc1 @P1, @P2"),
    ("DISPATCH", "INTERCONNECTION", 1, Module::Dispatch, "exec mmsdm_proc.InsertDispatchInterconnection1 @P1, @P2"),
    ("PRICELOAD", "CONSTRAINT_FCAS_OCD", 1, Module::Dispatch, "exec mmsdm_proc.InsertPriceloadConstraintFcasOcd1 @P1, @P2"),
    ("DISPATCH", "PRICE", 4, Module::Dispatch, "exec mmsdm_proc.InsertDispatchPrice4 @P1, @P2"),
    ("PRICELOAD", "CONSTRAINTRELAXATION", 1, Module::Dispatch, "exec mmsdm_proc.InsertPriceloadConstraintrelaxation1 @P1, @P2"),
    ("DISPATCH", "INTERMITTENT_FORECAST_TRK", 1, Module::Dispatch, "exec mmsdm_proc.InsertDispatchIntermittentForecastTrk1 @P1, @P2"),
    ("DISPATCH", "UNIT_SCADA", 1, Module::Dispatch, "exec mmsdm_proc.InsertDispatchUnitScada1 @P1, @P2"),
    ("DISPATCH", "FCAS_REQ", 2, Module::Dispatch, "exec mmsdm_proc.InsertDispatchFcasReq2 @P1, @P2"),
    ("DISPATCH", "BLOCKED_CONSTRAINTS", 1, Module::Dispatch, "exec mmsdm_proc.InsertDispatchBlockedConstraints1 @P1, @P2"),
    ("DISPATCH", "UNIT_SOLUTION", 2, Module::Dispatch, "exec mmsdm_proc.InsertDispatchUnitSolution2 @P1, @P2"),
    ("PRICELOAD", "PRICE_REVISION", 1, Module::Dispatch, "exec mmsdm_proc.InsertPriceloadPriceRevision1 @P1, @P2"),
    ("DISPATCH", "REGIONSUM", 4, Module::Dispatch, "exec mmsdm_proc.InsertDispatchRegionsum4 @P1, @P2"),
    ("DISPATCH", "UNIT_CONFORMANCE", 1, Module::Dispatch, "exec mmsdm_proc.InsertDispatchUnitConformance1 @P1, @P2"),
    ("DISPATCH", "LOCAL_PRICE", 1, Module::Dispatch, "exec mmsdm_proc.InsertDispatchLocalPrice1 @P1, @P2"),
    ("DISPATCH", "OFFERTRK", 1, Module::Dispatch, "exec mmsdm_proc.InsertDispatchOffertrk1 @P1, @P2"),
    ("DISPATCH", "MNSPBIDTRK", 1, Module::Dispatch, "exec mmsdm_proc.InsertDispatchMnspbidtrk1 @P1, @P2"),
    ("DISPATCH", "NEGATIVE_RESIDUE", 1, Module::Dispatch, "exec mmsdm_proc.InsertDispatchNegativeResidue1 @P1, @P2"),
    ("DISPATCH", "CASE_SOLUTION", 2, Module::Dispatch, "exec mmsdm_proc.InsertDispatchCaseSolution2 @P1, @P2"),
    ("DISPATCH", "INTERCONNECTORRES", 3, Module::Dispatch, "exec mmsdm_proc.InsertDispatchInterconnectorres3 @P1, @P2"),
    ("DISPATCH", "MR_SCHEDULE_TRK", 1, Module::Dispatch, "exec mmsdm_proc.InsertDispatchMrScheduleTrk1 @P1, @P2"),
    ("DISPATCH", "CONSTRAINT", 5, Module::Dispatch, "exec mmsdm_proc.InsertDispatchConstraint5 @P1, @P2"),
    ("BILLING", "IRPARTSURPLUS", 5, Module::BillingRun, "exec mmsdm_proc.InsertBillingIrpartsurplus5 @P1, @P2"),
    ("BILLING", "DAILY_ENERGY_SUMMARY", 1, Module::BillingRun, "exec mmsdm_proc.InsertBillingDailyEnergySummary1 @P1, @P2"),
    ("BILLING", "BILLING_DIRECTION_RECON_OTHER", 1, Module::BillingRun, "exec mmsdm_proc.InsertBillingBillingDirectionReconOther1 @P1, @P2"),
    ("BILLING", "NMAS_TST_RECOVERY", 1, Module::BillingRun, "exec mmsdm_proc.InsertBillingNmasTstRecovery1 @P1, @P2"),
    ("BILLING", "SECDEP_INTEREST_PAY", 1, Module::BillingRun, "exec mmsdm_proc.InsertBillingSecdepInterestPay1 @P1, @P2"),
    ("BILLING", "IRAUCSURPLUSSUM", 7, Module::BillingRun, "exec mmsdm_proc.InsertBillingIraucsurplussum7 @P1, @P2"),
    ("BILLING", "DAYTRK", 5, Module::BillingRun, "exec mmsdm_proc.InsertBillingDaytrk5 @P1, @P2"),
    ("BILLING", "IRNSPSURPLUSSUM", 6, Module::BillingRun, "exec mmsdm_proc.InsertBillingIrnspsurplussum6 @P1, @P2"),
    ("BILLING", "APC_RECOVERY", 2, Module::BillingRun, "exec mmsdm_proc.InsertBillingApcRecovery2 @P1, @P2"),
    ("BILLING", "IRFM", 5, Module::BillingRun, "exec mmsdm_proc.InsertBillingIrfm5 @P1, @P2"),
    ("BILLING", "SMELTERREDUCTION", 5, Module::BillingRun, "exec mmsdm_proc.InsertBillingSmelterreduction5 @P1, @P2"),
    ("BILLING", "NMAS_TST_PAYMENTS", 1, Module::BillingRun, "exec mmsdm_proc.InsertBillingNmasTstPayments1 @P1, @P2"),
    ("BILLING", "RUNTRK", 5, Module::BillingRun, "exec mmsdm_proc.InsertBillingRuntrk5 @P1, @P2"),
    ("BILLING", "MR_SHORTFALL", 5, Module::BillingRun, "exec mmsdm_proc.InsertBillingMrShortfall5 @P1, @P2"),
    ("BILLING", "GENDATA", 5, Module::BillingRun, "exec mmsdm_proc.InsertBillingGendata5 @P1, @P2"),
    ("BILLING", "GST_SUMMARY", 5, Module::BillingRun, "exec mmsdm_proc.InsertBillingGstSummary5 @P1, @P2"),
    ("BILLING", "SECDEP_INTEREST_RATE", 1, Module::BillingRun, "exec mmsdm_proc.InsertBillingSecdepInterestRate1 @P1, @P2"),
    ("BILLING", "REALLOC", 5, Module::BillingRun, "exec mmsdm_proc.InsertBillingRealloc5 @P1, @P2"),
    ("BILLING", "MR_PAYMENT", 5, Module::BillingRun, "exec mmsdm_proc.InsertBillingMrPayment5 @P1, @P2"),
    ("BILLING", "REGIONFIGURES", 5, Module::BillingRun, "exec mmsdm_proc.InsertBillingRegionfigures5 @P1, @P2"),
    ("BILLING", "ASPAYMENTS", 6, Module::BillingRun, "exec mmsdm_proc.InsertBillingAspayments6 @P1, @P2"),
    ("BILLING", "NMAS_TST_RECVRY_RBF", 1, Module::BillingRun, "exec mmsdm_proc.InsertBillingNmasTstRecvryRbf1 @P1, @P2"),
    ("BILLING", "MR_SUMMARY", 5, Module::BillingRun, "exec mmsdm_proc.InsertBillingMrSummary5 @P1, @P2"),
    ("BILLING", "REGIONEXPORTS", 5, Module::BillingRun, "exec mmsdm_proc.InsertBillingRegionexports5 @P1, @P2"),
    ("BILLING", "FINANCIALADJUSTMENTS", 5, Module::BillingRun, "exec mmsdm_proc.InsertBillingFinancialadjustments5 @P1, @P2"),
    ("BILLING", "REGIONIMPORTS", 5, Module::BillingRun, "exec mmsdm_proc.InsertBillingRegionimports5 @P1, @P2"),
    ("BILLING", "REALLOC_DETAIL", 5, Module::BillingRun, "exec mmsdm_proc.InsertBillingReallocDetail5 @P1, @P2"),
    ("BILLING", "PRIORADJUSTMENTS", 5, Module::BillingRun, "exec mmsdm_proc.InsertBillingPrioradjustments5 @P1, @P2"),
    ("BILLING", "EFTSHORTFALL_AMOUNT", 1, Module::BillingRun, "exec mmsdm_proc.InsertBillingEftshortfallAmount1 @P1, @P2"),
    ("BILLING", "CPDATA", 5, Module::BillingRun, "exec mmsdm_proc.InsertBillingCpdata5 @P1, @P2"),
    ("BILLING", "MR_RECOVERY", 5, Module::BillingRun, "exec mmsdm_proc.InsertBillingMrRecovery5 @P1, @P2"),
    ("BILLING", "RES_TRADER_PAYMENT", 1, Module::BillingRun, "exec mmsdm_proc.InsertBillingResTraderPayment1 @P1, @P2"),
    ("BILLING", "ASRECOVERY", 7, Module::BillingRun, "exec mmsdm_proc.InsertBillingAsrecovery7 @P1, @P2"),
    ("BILLING", "FEES", 5, Module::BillingRun, "exec mmsdm_proc.InsertBillingFees5 @P1, @P2"),
    ("BILLING", "BILLING_CO2E_PUBLICATION", 1, Module::BillingRun, "exec mmsdm_proc.InsertBillingBillingCo2ePublication1 @P1, @P2"),
    ("BILLING", "SECDEPOSIT_APPLICATION", 1, Module::BillingRun, "exec mmsdm_proc.InsertBillingSecdepositApplication1 @P1, @P2"),
    ("BILLING", "GST_DETAIL", 5, Module::BillingRun, "exec mmsdm_proc.InsertBillingGstDetail5 @P1, @P2"),
    ("BILLING", "DIRECTION_RECONCILIATN", 1, Module::BillingRun, "exec mmsdm_proc.InsertBillingDirectionReconciliatn1 @P1, @P2"),
    ("BILLING", "EFTSHORTFALL_DETAIL", 1, Module::BillingRun, "exec mmsdm_proc.InsertBillingEftshortfallDetail1 @P1, @P2"),
    ("BILLING", "IRNSPSURPLUS", 5, Module::BillingRun, "exec mmsdm_proc.InsertBillingIrnspsurplus5 @P1, @P2"),
    ("BILLING", "WHITEHOLE", 5, Module::BillingRun, "exec mmsdm_proc.InsertBillingWhitehole5 @P1, @P2"),
    ("BILLING", "IRPARTSURPLUSSUM", 7, Module::BillingRun, "exec mmsdm_proc.InsertBillingIrpartsurplussum7 @P1, @P2"),
    ("BILLING", "APC_COMPENSATION", 2, Module::BillingRun, "exec mmsdm_proc.InsertBillingApcCompensation2 @P1, @P2"),
    ("BILLING", "NMAS_TST_RECVRY_TRK", 1, Module::BillingRun, "exec mmsdm_proc.InsertBillingNmasTstRecvryTrk1 @P1, @P2"),
    ("BILLING", "INTERRESIDUES", 5, Module::BillingRun, "exec mmsdm_proc.InsertBillingInterresidues5 @P1, @P2"),
    ("BILLING", "RES_TRADER_RECOVERY", 1, Module::BillingRun, "exec mmsdm_proc.InsertBillingResTraderRecovery1 @P1, @P2"),
    ("BILLING", "IRAUCSURPLUS", 5, Module::BillingRun, "exec mmsdm_proc.InsertBillingIraucsurplus5 @P1, @P2"),
    ("BILLING", "BILLING_CO2E_PUBLICATION_TRK", 1, Module::BillingRun, "exec mmsdm_proc.InsertBillingBillingCo2ePublicationTrk1 @P1, @P2"),
    ("BILLING", "INTRARESIDUES", 5, Module::BillingRun, "exec mmsdm_proc.InsertBillingIntraresidues5 @P1, @P2"),
    ("BID", "BIDDAYOFFER_D", 2, Module::Bids, "exec mmsdm_proc.InsertBidBiddayofferD2 @P1, @P2"),
    ("BID", "BIDPEROFFER_D", 2, Module::Bids, "exec mmsdm_proc.InsertBidBidperofferD2 @P1, @P2"),
    ("OFFER", "MTPASA_OFFERFILETRK", 1, Module::Bids, "exec mmsdm_proc.InsertOfferMtpasaOfferfiletrk1 @P1, @P2"),
    ("OFFER", "MNSP_PEROFFER", 1, Module::Bids, "exec mmsdm_proc.InsertOfferMnspPeroffer1 @P1, @P2"),
    ("BID", "MNSP_FILETRK", 1, Module::Bids, "exec mmsdm_proc.InsertBidMnspFiletrk1 @P1, @P2"),
    ("OFFER", "BIDPEROFFER", 1, Module::Bids, "exec mmsdm_proc.InsertOfferBidperoffer1 @P1, @P2"),
    ("OFFER", "MNSP_DAYOFFER", 2, Module::Bids, "exec mmsdm_proc.InsertOfferMnspDayoffer2 @P1, @P2"),
    ("OFFER", "MTPASA_OFFERDATA", 1, Module::Bids, "exec mmsdm_proc.InsertOfferMtpasaOfferdata1 @P1, @P2"),
    ("OFFER", "MNSP_OFFERTRK", 1, Module::Bids, "exec mmsdm_proc.InsertOfferMnspOffertrk1 @P1, @P2"),
    ("OFFER", "BIDDAYOFFER", 2, Module::Bids, "exec mmsdm_proc.InsertOfferBiddayoffer2 @P1, @P2"),
    ("OFFER", "BIDOFFERFILETRK", 1, Module::Bids, "exec mmsdm_proc.InsertOfferBidofferfiletrk1 @P1, @P2"),
    ("STPASA", "CONSTRAINTSOLUTION", 2, Module::StpasaSolution, "exec mmsdm_proc.InsertStpasaConstraintsolution2 @P1, @P2"),
    ("STPASA", "INTERCONNECTORSOLN", 2, Module::StpasaSolution, "exec mmsdm_proc.InsertStpasaInterconnectorsoln2 @P1, @P2"),
    ("STPASA", "REGIONSOLUTION", 5, Module::StpasaSolution, "exec mmsdm_proc.InsertStpasaRegionsolution5 @P1, @P2"),
    ("STPASA", "CASESOLUTION", 3, Module::StpasaSolution, "exec mmsdm_proc.InsertStpasaCasesolution3 @P1, @P2"),
    ("GD_INSTRUCT", "INSTRUCTIONSUBTYPE", 1, Module::GdInstruct, "exec mmsdm_proc.InsertGdInstructInstructionsubtype1 @P1, @P2"),
    ("GD_INSTRUCT", "GDINSTRUCT", 1, Module::GdInstruct, "exec mmsdm_proc.InsertGdInstructGdinstruct1 @P1, @P2"),
    ("GD_INSTRUCT", "INSTRUCTIONTYPE", 1, Module::GdInstruct, "exec mmsdm_proc.InsertGdInstructInstructiontype1 @P1, @P2"),
    ("VOLTAGE_INSTRUCTION", "TRACK", 2, Module::VoltageInstructions, "exec mmsdm_proc.InsertVoltageInstructionTrack2 @P1, @P2"),
    ("VOLTAGE_INSTRUCTION", "INSTRUCTION", 2, Module::VoltageInstructions, "exec mmsdm_proc.InsertVoltageInstructionInstruction2 @P1, @P2"),
    ("NETWORK", "SUBSTATIONDETAIL", 1, Module::Network, "exec mmsdm_proc.InsertNetworkSubstationdetail1 @P1, @P2"),
    ("NETWORK", "REALTIMERATING", 1, Module::Network, "exec mmsdm_proc.InsertNetworkRealtimerating1 @P1, @P2"),
    ("NETWORK", "OUTAGECONSTRAINTSET", 1, Module::Network, "exec mmsdm_proc.InsertNetworkOutageconstraintset1 @P1, @P2"),
    ("NETWORK", "STATICRATING", 1, Module::Network, "exec mmsdm_proc.InsertNetworkStaticrating1 @P1, @P2"),
    ("NETWORK", "EQUIPMENTDETAIL", 1, Module::Network, "exec mmsdm_proc.InsertNetworkEquipmentdetail1 @P1, @P2"),
    ("NETWORK", "OUTAGEDETAIL", 3, Module::Network, "exec mmsdm_proc.InsertNetworkOutagedetail3 @P1, @P2"),
    ("NETWORK", "OUTAGESTATUSCODE", 1, Module::Network, "exec mmsdm_proc.InsertNetworkOutagestatuscode1 @P1, @P2"),
    ("NETWORK", "RATING", 1, Module::Network, "exec mmsdm_proc.InsertNetworkRating1 @P1, @P2"),
    ("IRAUCTION_CONFIG", "AUCTION_RP_ESTIMATE", 1, Module::Irauction, "exec mmsdm_proc.InsertIrauctionConfigAuctionRpEstimate1 @P1, @P2"),
    ("IRAUCTION", "SRA_FINANCIAL_AUC_RECEIPTS", 1, Module::Irauction, "exec mmsdm_proc.InsertIrauctionSraFinancialAucReceipts1 @P1, @P2"),
    ("IRAUCTION", "SRA_FINANCIAL_AUC_MARDETAIL", 1, Module::Irauction, "exec mmsdm_proc.InsertIrauctionSraFinancialAucMardetail1 @P1, @P2"),
    ("IRAUCTION", "RESIDUE_PRICE_FUNDS_BID", 1, Module::Irauction, "exec mmsdm_proc.InsertIrauctionResiduePriceFundsBid1 @P1, @P2"),
    ("IRAUCTION", "SRA_PRUDENTIAL_COMP_POSITION", 1, Module::Irauction, "exec mmsdm_proc.InsertIrauctionSraPrudentialCompPosition1 @P1, @P2"),
    ("IRAUCTION", "SRA_FINANCIAL_AUC_MARGIN", 1, Module::Irauction, "exec mmsdm_proc.InsertIrauctionSraFinancialAucMargin1 @P1, @P2"),
    ("IRAUCTION", "RESIDUE_CON_FUNDS", 1, Module::Irauction, "exec mmsdm_proc.InsertIrauctionResidueConFunds1 @P1, @P2"),
    ("IRAUCTION", "RESIDUE_CON_DATA", 2, Module::Irauction, "exec mmsdm_proc.InsertIrauctionResidueConData2 @P1, @P2"),
    ("IRAUCTION", "SRA_PRUDENTIAL_CASH_SECURITY", 1, Module::Irauction, "exec mmsdm_proc.InsertIrauctionSraPrudentialCashSecurity1 @P1, @P2"),
    ("IRAUCTION", "VALUATIONID", 1, Module::Irauction, "exec mmsdm_proc.InsertIrauctionValuationid1 @P1, @P2"),
    ("IRAUCTION_CONFIG", "AUCTION_REVENUE_TRACK", 1, Module::Irauction, "exec mmsdm_proc.InsertIrauctionConfigAuctionRevenueTrack1 @P1, @P2"),
    ("SETTLEMENT_CONFIG", "RESIDUECONTRACTPAYMENTS", 1, Module::Irauction, "exec mmsdm_proc.InsertSettlementConfigResiduecontractpayments1 @P1, @P2"),
    ("IRAUCTION", "RESIDUE_CONTRACTS", 1, Module::Irauction, "exec mmsdm_proc.InsertIrauctionResidueContracts1 @P1, @P2"),
    ("IRAUCTION", "RESIDUE_BID_TRK", 1, Module::Irauction, "exec mmsdm_proc.InsertIrauctionResidueBidTrk1 @P1, @P2"),
    ("IRAUCTION_BIDS", "FILE_TRK", 1, Module::Irauction, "exec mmsdm_proc.InsertIrauctionBidsFileTrk1 @P1, @P2"),
    ("IRAUCTION_CONFIG", "AUCTION_CALENDAR", 2, Module::Irauction, "exec mmsdm_proc.InsertIrauctionConfigAuctionCalendar2 @P1, @P2"),
    ("IRAUCTION_CONFIG", "AUCTION_TRANCHE", 1, Module::Irauction, "exec mmsdm_proc.InsertIrauctionConfigAuctionTranche1 @P1, @P2"),
    ("IRAUCTION_BIDS", "FUNDS_BID", 1, Module::Irauction, "exec mmsdm_proc.InsertIrauctionBidsFundsBid1 @P1, @P2"),
    ("IRAUCTION", "SRA_FINANCIAL_RUNTRK", 1, Module::Irauction, "exec mmsdm_proc.InsertIrauctionSraFinancialRuntrk1 @P1, @P2"),
    ("IRAUCTION", "SRA_CASH_SECURITY", 1, Module::Irauction, "exec mmsdm_proc.InsertIrauctionSraCashSecurity1 @P1, @P2"),
    ("IRAUCTION_CONFIG", "AUCTION_IC_ALLOCATIONS", 2, Module::Irauction, "exec mmsdm_proc.InsertIrauctionConfigAuctionIcAllocations2 @P1, @P2"),
    ("IRAUCTION", "SRA_FINANCIAL_AUCPAY_SUM", 1, Module::Irauction, "exec mmsdm_proc.InsertIrauctionSraFinancialAucpaySum1 @P1, @P2"),
    ("IRAUCTION", "SRA_OFFER_PROFILE", 1, Module::Irauction, "exec mmsdm_proc.InsertIrauctionSraOfferProfile1 @P1, @P2"),
    ("IRAUCTION", "SRA_PRUDENTIAL_EXPOSURE", 1, Module::Irauction, "exec mmsdm_proc.InsertIrauctionSraPrudentialExposure1 @P1, @P2"),
    ("IRAUCTION", "SRA_PRUDENTIAL_RUN", 1, Module::Irauction, "exec mmsdm_proc.InsertIrauctionSraPrudentialRun1 @P1, @P2"),
    ("IRAUCTION", "SRA_OFFER_PRODUCT", 1, Module::Irauction, "exec mmsdm_proc.InsertIrauctionSraOfferProduct1 @P1, @P2"),
    ("IRAUCTION_CONFIG", "AUCTION_REVENUE_ESTIMATE", 1, Module::Irauction, "exec mmsdm_proc.InsertIrauctionConfigAuctionRevenueEstimate1 @P1, @P2"),
    ("IRAUCTION_BIDS", "PRICE_BID", 1, Module::Irauction, "exec mmsdm_proc.InsertIrauctionBidsPriceBid1 @P1, @P2"),
    ("IRAUCTION_CONFIG", "AUCTION", 1, Module::Irauction, "exec mmsdm_proc.InsertIrauctionConfigAuction1 @P1, @P2"),
    ("IRAUCTION", "RESIDUE_TRK", 1, Module::Irauction, "exec mmsdm_proc.InsertIrauctionResidueTrk1 @P1, @P2"),
    ("IRAUCTION", "SRA_FINANCIAL_AUCPAY_DETAIL", 1, Module::Irauction, "exec mmsdm_proc.InsertIrauctionSraFinancialAucpayDetail1 @P1, @P2"),
    ("IRAUCTION", "RESIDUE_CON_ESTIMATES_TRK", 1, Module::Irauction, "exec mmsdm_proc.InsertIrauctionResidueConEstimatesTrk1 @P1, @P2"),
    ("IRAUCTION", "RESIDUE_PUBLIC_DATA", 1, Module::Irauction, "exec mmsdm_proc.InsertIrauctionResiduePublicData1 @P1, @P2"),
    ("SETTLEMENTS", "RPOWERRECOVERY", 5, Module::SettlementData, "exec mmsdm_proc.InsertSettlementsRpowerrecovery5 @P1, @P2"),
    ("SETTLEMENTS", "VICBOUNDARYENERGY", 5, Module::SettlementData, "exec mmsdm_proc.InsertSettlementsVicboundaryenergy5 @P1, @P2"),
    ("SETTLEMENTS", "APC_COMPENSATION", 1, Module::SettlementData, "exec mmsdm_proc.InsertSettlementsApcCompensation1 @P1, @P2"),
    ("SETTLEMENTS", "FCASCOMP", 5, Module::SettlementData, "exec mmsdm_proc.InsertSettlementsFcascomp5 @P1, @P2"),
    ("SETTLEMENTS", "ANCILLARY_SUMMARY", 5, Module::SettlementData, "exec mmsdm_proc.InsertSettlementsAncillarySummary5 @P1, @P2"),
    ("SETTLEMENTS", "AGCRECOVERY", 5, Module::SettlementData, "exec mmsdm_proc.InsertSettlementsAgcrecovery5 @P1, @P2"),
    ("SETTLEMENTS", "IRFMRECOVERY", 5, Module::SettlementData, "exec mmsdm_proc.InsertSettlementsIrfmrecovery5 @P1, @P2"),
    ("SETTLEMENTS", "CPDATAREGION", 5, Module::SettlementData, "exec mmsdm_proc.InsertSettlementsCpdataregion5 @P1, @P2"),
    ("SETTLEMENTS", "LUNLOADRECOVERY", 5, Module::SettlementData, "exec mmsdm_proc.InsertSettlementsLunloadrecovery5 @P1, @P2"),
    ("SETTLEMENTS", "RPOWERPAYMENT", 6, Module::SettlementData, "exec mmsdm_proc.InsertSettlementsRpowerpayment6 @P1, @P2"),
    ("SETTLEMENTS", "APC_RECOVERY", 1, Module::SettlementData, "exec mmsdm_proc.InsertSettlementsApcRecovery1 @P1, @P2"),
    ("SETTLEMENTS", "MR_RECOVERY", 5, Module::SettlementData, "exec mmsdm_proc.InsertSettlementsMrRecovery5 @P1, @P2"),
    ("SETTLEMENTS", "FCAS_RECOVERY", 6, Module::SettlementData, "exec mmsdm_proc.InsertSettlementsFcasRecovery6 @P1, @P2"),
    ("SETTLEMENTS", "MARKETFEES", 5, Module::SettlementData, "exec mmsdm_proc.InsertSettlementsMarketfees5 @P1, @P2"),
    ("SETTLEMENTS", "GENDATAREGION", 5, Module::SettlementData, "exec mmsdm_proc.InsertSettlementsGendataregion5 @P1, @P2"),
    ("SETTLEMENTS", "INTRAREGIONRESIDUES", 5, Module::SettlementData, "exec mmsdm_proc.InsertSettlementsIntraregionresidues5 @P1, @P2"),
    ("SETTLEMENTS", "IRNSPSURPLUS", 6, Module::SettlementData, "exec mmsdm_proc.InsertSettlementsIrnspsurplus6 @P1, @P2"),
    ("SETTLEMENTS", "CPDATA", 5, Module::SettlementData, "exec mmsdm_proc.InsertSettlementsCpdata5 @P1, @P2"),
    ("SETTLEMENTS", "INTERVENTIONRECOVERY", 5, Module::SettlementData, "exec mmsdm_proc.InsertSettlementsInterventionrecovery5 @P1, @P2"),
    ("SETTLEMENTS", "LSHEDPAYMENT", 5, Module::SettlementData, "exec mmsdm_proc.InsertSettlementsLshedpayment5 @P1, @P2"),
    ("SETTLEMENTS", "RESTARTRECOVERY", 6, Module::SettlementData, "exec mmsdm_proc.InsertSettlementsRestartrecovery6 @P1, @P2"),
    ("SETTLEMENTS", "RESTARTPAYMENT", 6, Module::SettlementData, "exec mmsdm_proc.InsertSettlementsRestartpayment6 @P1, @P2"),
    ("SETTLEMENTS", "AGCPAYMENT", 5, Module::SettlementData, "exec mmsdm_proc.InsertSettlementsAgcpayment5 @P1, @P2"),
    ("SETTLEMENTS", "FCAS_PAYMENT", 5, Module::SettlementData, "exec mmsdm_proc.InsertSettlementsFcasPayment5 @P1, @P2"),
    ("SETTLEMENTS", "IRSURPLUS", 6, Module::SettlementData, "exec mmsdm_proc.InsertSettlementsIrsurplus6 @P1, @P2"),
    ("SETTLEMENTS", "NMAS_RECOVERY_RBF", 1, Module::SettlementData, "exec mmsdm_proc.InsertSettlementsNmasRecoveryRbf1 @P1, @P2"),
    ("SETTLEMENTS", "MR_PAYMENT", 5, Module::SettlementData, "exec mmsdm_proc.InsertSettlementsMrPayment5 @P1, @P2"),
    ("SETTLEMENTS", "IRPARTSURPLUS", 6, Module::SettlementData, "exec mmsdm_proc.InsertSettlementsIrpartsurplus6 @P1, @P2"),
    ("SETTLEMENTS", "SMALLGENDATA", 1, Module::SettlementData, "exec mmsdm_proc.InsertSettlementsSmallgendata1 @P1, @P2"),
    ("SETTLEMENTS", "LUNLOADPAYMENT", 5, Module::SettlementData, "exec mmsdm_proc.InsertSettlementsLunloadpayment5 @P1, @P2"),
    ("SETTLEMENTS", "LULOADRECOVERY", 5, Module::SettlementData, "exec mmsdm_proc.InsertSettlementsLuloadrecovery5 @P1, @P2"),
    ("SETTLEMENTS", "GENDATA", 6, Module::SettlementData, "exec mmsdm_proc.InsertSettlementsGendata6 @P1, @P2"),
    ("SETTLEMENTS", "FCASREGIONRECOVERY", 5, Module::SettlementData, "exec mmsdm_proc.InsertSettlementsFcasregionrecovery5 @P1, @P2"),
    ("SETTLEMENTS", "IRAUCSURPLUS", 6, Module::SettlementData, "exec mmsdm_proc.InsertSettlementsIraucsurplus6 @P1, @P2"),
    ("SETTLEMENTS", "SET_FCAS_REGULATION_TRK", 1, Module::SettlementData, "exec mmsdm_proc.InsertSettlementsSetFcasRegulationTrk1 @P1, @P2"),
    ("SETTLEMENTS", "NMAS_RECOVERY", 2, Module::SettlementData, "exec mmsdm_proc.InsertSettlementsNmasRecovery2 @P1, @P2"),
    ("SETTLEMENTS", "VICENERGYFIGURES", 5, Module::SettlementData, "exec mmsdm_proc.InsertSettlementsVicenergyfigures5 @P1, @P2"),
    ("SETTLEMENTS", "DAYTRACK", 5, Module::SettlementData, "exec mmsdm_proc.InsertSettlementsDaytrack5 @P1, @P2"),
    ("SETTLEMENTS", "REALLOCATIONS", 5, Module::SettlementData, "exec mmsdm_proc.InsertSettlementsReallocations5 @P1, @P2"),
    ("SETTLEMENTS", "INTERVENTION", 5, Module::SettlementData, "exec mmsdm_proc.InsertSettlementsIntervention5 @P1, @P2"),
    ("SETTLEMENTS", "VICENERGYFLOW", 5, Module::SettlementData, "exec mmsdm_proc.InsertSettlementsVicenergyflow5 @P1, @P2"),
    ("SETTLEMENTS", "RUN_PARAMETER", 5, Module::SettlementData, "exec mmsdm_proc.InsertSettlementsRunParameter5 @P1, @P2"),
    ("SETTLEMENTS", "LSHEDRECOVERY", 5, Module::SettlementData, "exec mmsdm_proc.InsertSettlementsLshedrecovery5 @P1, @P2"),
    ("SETCFG", "REALLOCATION", 2, Module::SettlementConfig, "exec mmsdm_proc.InsertSetcfgReallocation2 @P1, @P2"),
    ("SETTLEMENT_CONFIG", "SETCFG_PARTICIPANT_MPF", 1, Module::SettlementConfig, "exec mmsdm_proc.InsertSettlementConfigSetcfgParticipantMpf1 @P1, @P2"),
    ("SETTLEMENT_CONFIG", "ANCILLARY_RECOVERY_SPLIT", 1, Module::SettlementConfig, "exec mmsdm_proc.InsertSettlementConfigAncillaryRecoverySplit1 @P1, @P2"),
    ("SETTLEMENT_CONFIG", "MARKETFEETRK", 1, Module::SettlementConfig, "exec mmsdm_proc.InsertSettlementConfigMarketfeetrk1 @P1, @P2"),
    ("SETTLEMENT_CONFIG", "SETCFG_PARTICIPANT_MPFTRK", 1, Module::SettlementConfig, "exec mmsdm_proc.InsertSettlementConfigSetcfgParticipantMpftrk1 @P1, @P2"),
    ("SETTLEMENT_CONFIG", "MARKET_FEE_CAT_EXCL", 1, Module::SettlementConfig, "exec mmsdm_proc.InsertSettlementConfigMarketFeeCatExcl1 @P1, @P2"),
    ("SETTLEMENT_CONFIG", "MARKET_FEE_EXCLUSION_TRK", 1, Module::SettlementConfig, "exec mmsdm_proc.InsertSettlementConfigMarketFeeExclusionTrk1 @P1, @P2"),
    ("SETTLEMENT_CONFIG", "MARKET_FEE_CAT_EXCL_TRK", 1, Module::SettlementConfig, "exec mmsdm_proc.InsertSettlementConfigMarketFeeCatExclTrk1 @P1, @P2"),
    ("SETTLEMENT_CONFIG", "PARTICIPANT_BANDFEE_ALLOC", 1, Module::SettlementConfig, "exec mmsdm_proc.InsertSettlementConfigParticipantBandfeeAlloc1 @P1, @P2"),
    ("SETTLEMENT_CONFIG", "MARKETFEE", 1, Module::SettlementConfig, "exec mmsdm_proc.InsertSettlementConfigMarketfee1 @P1, @P2"),
    ("SETCFG", "REALLOCATIONINTERVAL", 1, Module::SettlementConfig, "exec mmsdm_proc.InsertSetcfgReallocationinterval1 @P1, @P2"),
    ("SETTLEMENT_CONFIG", "MARKET_FEE_EXCLUSION", 1, Module::SettlementConfig, "exec mmsdm_proc.InsertSettlementConfigMarketFeeExclusion1 @P1, @P2"),
    ("SETTLEMENT_CONFIG", "MARKETFEEDATA", 1, Module::SettlementConfig, "exec mmsdm_proc.InsertSettlementConfigMarketfeedata1 @P1, @P2"),
    ("MARKET_CONFIG", "INTERCONNECTORALLOC", 1, Module::MarketConfig, "exec mmsdm_proc.InsertMarketConfigInterconnectoralloc1 @P1, @P2"),
    ("MARKET_CONFIG", "TRANSMISSIONLOSSFACTOR", 2, Module::MarketConfig, "exec mmsdm_proc.InsertMarketConfigTransmissionlossfactor2 @P1, @P2"),
    ("MARKET_CONFIG", "BIDTYPESTRK", 1, Module::MarketConfig, "exec mmsdm_proc.InsertMarketConfigBidtypestrk1 @P1, @P2"),
    ("MARKET_CONFIG", "LOSSMODEL", 1, Module::MarketConfig, "exec mmsdm_proc.InsertMarketConfigLossmodel1 @P1, @P2"),
    ("MARKET_CONFIG", "LOSSFACTORMODEL", 1, Module::MarketConfig, "exec mmsdm_proc.InsertMarketConfigLossfactormodel1 @P1, @P2"),
    ("MARKET_CONFIG", "BIDTYPES", 1, Module::MarketConfig, "exec mmsdm_proc.InsertMarketConfigBidtypes1 @P1, @P2"),
    ("MARKET_CONFIG", "MARKET_PRICE_THRESHOLDS", 1, Module::MarketConfig, "exec mmsdm_proc.InsertMarketConfigMarketPriceThresholds1 @P1, @P2"),
    ("MARKET_CONFIG", "INTERCONNECTOR", 1, Module::MarketConfig, "exec mmsdm_proc.InsertMarketConfigInterconnector1 @P1, @P2"),
    ("MARKET_CONFIG", "INTRAREGIONALLOC", 1, Module::MarketConfig, "exec mmsdm_proc.InsertMarketConfigIntraregionalloc1 @P1, @P2"),
    ("MARKET_CONFIG", "REGIONSTANDINGDATA", 1, Module::MarketConfig, "exec mmsdm_proc.InsertMarketConfigRegionstandingdata1 @P1, @P2"),
    ("MARKET_CONFIG", "INTERCONNECTORCONSTRAINT", 1, Module::MarketConfig, "exec mmsdm_proc.InsertMarketConfigInterconnectorconstraint1 @P1, @P2"),
    ("MARKET_CONFIG", "REGION", 1, Module::MarketConfig, "exec mmsdm_proc.InsertMarketConfigRegion1 @P1, @P2"),
    ("METERDATA", "TRK", 1, Module::MeterData, "exec mmsdm_proc.InsertMeterdataTrk1 @P1, @P2"),
    ("METERDATA", "INTERCONNECTOR", 1, Module::MeterData, "exec mmsdm_proc.InsertMeterdataInterconnector1 @P1, @P2"),
    ("METERDATA", "INDIVIDUAL_READS", 1, Module::MeterData, "exec mmsdm_proc.InsertMeterdataIndividualReads1 @P1, @P2"),
    ("METERDATA", "AGGREGATE_READS", 1, Module::MeterData, "exec mmsdm_proc.InsertMeterdataAggregateReads1 @P1, @P2"),
    ("PRUDENTIAL", "COMPANY_POSITION", 1, Module::Prudentials, "exec mmsdm_proc.InsertPrudentialCompanyPosition1 @P1, @P2"),
    ("PRUDENTIAL", "RUNTRK", 1, Module::Prudentials, "exec mmsdm_proc.InsertPrudentialRuntrk1 @P1, @P2"),
    ("PDPASA", "CASESOLUTION", 3, Module::Pdpasa, "exec mmsdm_proc.InsertPdpasaCasesolution3 @P1, @P2"),
    ("PDPASA", "REGIONSOLUTION", 5, Module::Pdpasa, "exec mmsdm_proc.InsertPdpasaRegionsolution5 @P1, @P2"),
    ("TRADING", "REGIONSUM", 4, Module::TradingData, "exec mmsdm_proc.InsertTradingRegionsum4 @P1, @P2"),
    ("TRADING", "UNIT_SOLUTION", 2, Module::TradingData, "exec mmsdm_proc.InsertTradingUnitSolution2 @P1, @P2"),
    ("TRADING", "PRICE", 2, Module::TradingData, "exec mmsdm_proc.InsertTradingPrice2 @P1, @P2"),
    ("TRADING", "INTERCONNECTORRES", 2, Module::TradingData, "exec mmsdm_proc.InsertTradingInterconnectorres2 @P1, @P2"),
    ("DEMAND", "INTERMITTENT_GEN_LIMIT_DAY", 1, Module::DemandForecasts, "exec mmsdm_proc.InsertDemandIntermittentGenLimitDay1 @P1, @P2"),
    ("DEMAND", "TRK", 1, Module::DemandForecasts, "exec mmsdm_proc.InsertDemandTrk1 @P1, @P2"),
    ("DEMAND", "INTERMITTENT_GEN_LIMIT", 1, Module::DemandForecasts, "exec mmsdm_proc.InsertDemandIntermittentGenLimit1 @P1, @P2"),
    ("DEMAND", "INTERMITTENT_DS_PRED", 1, Module::DemandForecasts, "exec mmsdm_proc.InsertDemandIntermittentDsPred1 @P1, @P2"),
    ("DEMAND", "MTPASA_INTERMITTENT_LIMIT", 1, Module::DemandForecasts, "exec mmsdm_proc.InsertDemandMtpasaIntermittentLimit1 @P1, @P2"),
    ("ROOFTOP", "ACTUAL", 2, Module::DemandForecasts, "exec mmsdm_proc.InsertRooftopActual2 @P1, @P2"),
    ("DEMAND", "INTERMITTENT_CLUSTER_AVAIL_DAY", 1, Module::DemandForecasts, "exec mmsdm_proc.InsertDemandIntermittentClusterAvailDay1 @P1, @P2"),
    ("OPERATIONAL_DEMAND", "ACTUAL", 1, Module::DemandForecasts, "exec mmsdm_proc.InsertOperationalDemandActual1 @P1, @P2"),
    ("DEMAND", "INTERMITTENT_CLUSTER_AVAIL", 1, Module::DemandForecasts, "exec mmsdm_proc.InsertDemandIntermittentClusterAvail1 @P1, @P2"),
    ("FORECAST", "INTERMITTENT_GEN_DATA", 1, Module::DemandForecasts, "exec mmsdm_proc.InsertForecastIntermittentGenData1 @P1, @P2"),
    ("DEMAND", "PERIOD", 1, Module::DemandForecasts, "exec mmsdm_proc.InsertDemandPeriod1 @P1, @P2"),
    ("FORECAST", "INTERMITTENT_GEN", 1, Module::DemandForecasts, "exec mmsdm_proc.InsertForecastIntermittentGen1 @P1, @P2"),
    ("ROOFTOP", "FORECAST", 1, Module::DemandForecasts, "exec mmsdm_proc.InsertRooftopForecast1 @P1, @P2"),
    ("DEMAND", "MTPASA_INTERMITTENT_AVAIL", 1, Module::DemandForecasts, "exec mmsdm_proc.InsertDemandMtpasaIntermittentAvail1 @P1, @P2"),
    ("DEMAND", "INTERMITTENT_DS_RUN", 1, Module::DemandForecasts, "exec mmsdm_proc.InsertDemandIntermittentDsRun1 @P1, @P2"),
    ("OPERATIONAL_DEMAND", "FORECAST", 1, Module::DemandForecasts, "exec mmsdm_proc.InsertOperationalDemandForecast1 @P1, @P2"),
    ("MR", "EVENT", 1, Module::Mrevent, "exec mmsdm_proc.InsertMrEvent1 @P1, @P2"),
    ("MR", "PEROFFER_STACK", 1, Module::Mrevent, "exec mmsdm_proc.InsertMrPerofferStack1 @P1, @P2"),
    ("MR", "DAYOFFER_STACK", 1, Module::Mrevent, "exec mmsdm_proc.InsertMrDayofferStack1 @P1, @P2"),
    ("MR", "EVENT_SCHEDULE", 1, Module::Mrevent, "exec mmsdm_proc.InsertMrEventSchedule1 @P1, @P2"),
    ("PARTICIPANT_REGISTRATION", "PARTICIPANTCATEGORYALLOC", 1, Module::ParticipantRegistration, "exec mmsdm_proc.InsertParticipantRegistrationParticipantcategoryalloc1 @P1, @P2"),
    ("PARTICIPANT_REGISTRATION", "MNSP_INTERCONNECTOR", 2, Module::ParticipantRegistration, "exec mmsdm_proc.InsertParticipantRegistrationMnspInterconnector2 @P1, @P2"),
    ("PARTICIPANT_REGISTRATION", "DISPATCHABLEUNIT", 1, Module::ParticipantRegistration, "exec mmsdm_proc.InsertParticipantRegistrationDispatchableunit1 @P1, @P2"),
    ("PARTICIPANT_REGISTRATION", "PARTICIPANTACCOUNT", 1, Module::ParticipantRegistration, "exec mmsdm_proc.InsertParticipantRegistrationParticipantaccount1 @P1, @P2"),
    ("PARTICIPANT_REGISTRATION", "STATIONOWNERTRK", 1, Module::ParticipantRegistration, "exec mmsdm_proc.InsertParticipantRegistrationStationownertrk1 @P1, @P2"),
    ("PARTICIPANT_REGISTRATION", "BIDDUIDDETAILSTRK", 1, Module::ParticipantRegistration, "exec mmsdm_proc.InsertParticipantRegistrationBidduiddetailstrk1 @P1, @P2"),
    ("PARTICIPANT_REGISTRATION", "DUDETAIL", 3, Module::ParticipantRegistration, "exec mmsdm_proc.InsertParticipantRegistrationDudetail3 @P1, @P2"),
    ("PARTICIPANT_REGISTRATION", "STADUALLOC", 1, Module::ParticipantRegistration, "exec mmsdm_proc.InsertParticipantRegistrationStadualloc1 @P1, @P2"),
    ("PARTICIPANT_REGISTRATION", "BIDDUIDDETAILS", 1, Module::ParticipantRegistration, "exec mmsdm_proc.InsertParticipantRegistrationBidduiddetails1 @P1, @P2"),
    ("PARTICIPANT_REGISTRATION", "DUALLOC", 1, Module::ParticipantRegistration, "exec mmsdm_proc.InsertParticipantRegistrationDualloc1 @P1, @P2"),
    ("PARTICIPANT_REGISTRATION", "DUDETAILSUMMARY", 4, Module::ParticipantRegistration, "exec mmsdm_proc.InsertParticipantRegistrationDudetailsummary4 @P1, @P2"),
    ("PARTICIPANT_REGISTRATION", "PARTICIPANTCREDITDETAIL", 1, Module::ParticipantRegistration, "exec mmsdm_proc.InsertParticipantRegistrationParticipantcreditdetail1 @P1, @P2"),
    ("PARTICIPANT_REGISTRATION", "MNSP_PARTICIPANT", 1, Module::ParticipantRegistration, "exec mmsdm_proc.InsertParticipantRegistrationMnspParticipant1 @P1, @P2"),
    ("PARTICIPANT_REGISTRATION", "PARTICIPANTCLASS", 1, Module::ParticipantRegistration, "exec mmsdm_proc.InsertParticipantRegistrationParticipantclass1 @P1, @P2"),
    ("PARTICIPANT_REGISTRATION", "PARTICIPANT", 1, Module::ParticipantRegistration, "exec mmsdm_proc.InsertParticipantRegistrationParticipant1 @P1, @P2"),
    ("PARTICIPANT_REGISTRATION", "STATION", 1, Module::ParticipantRegistration, "exec mmsdm_proc.InsertParticipantRegistrationStation1 @P1, @P2"),
    ("PARTICIPANT_REGISTRATION", "STATIONOWNER", 1, Module::ParticipantRegistration, "exec mmsdm_proc.InsertParticipantRegistrationStationowner1 @P1, @P2"),
    ("PARTICIPANT_REGISTRATION", "GENUNITS_UNIT", 1, Module::ParticipantRegistration, "exec mmsdm_proc.InsertParticipantRegistrationGenunitsUnit1 @P1, @P2"),
    ("PARTICIPANT_REGISTRATION", "GENUNITS", 2, Module::ParticipantRegistration, "exec mmsdm_proc.InsertParticipantRegistrationGenunits2 @P1, @P2"),
    ("PARTICIPANT_REGISTRATION", "GENMETER", 1, Module::ParticipantRegistration, "exec mmsdm_proc.InsertParticipantRegistrationGenmeter1 @P1, @P2"),
    ("PARTICIPANT_REGISTRATION", "STATIONOPERATINGSTATUS", 1, Module::ParticipantRegistration, "exec mmsdm_proc.InsertParticipantRegistrationStationoperatingstatus1 @P1, @P2"),
    ("PARTICIPANT_REGISTRATION", "PARTICIPANTCATEGORY", 1, Module::ParticipantRegistration, "exec mmsdm_proc.InsertParticipantRegistrationParticipantcategory1 @P1, @P2"),
    ("MTPASA", "RESERVELIMIT", 1, Module::ReserveData, "exec mmsdm_proc.InsertMtpasaReservelimit1 @P1, @P2"),
    ("MTPASA", "RESERVELIMIT_REGION", 1, Module::ReserveData, "exec mmsdm_proc.InsertMtpasaReservelimitRegion1 @P1, @P2"),
    ("MTPASA", "RESERVELIMIT_SET", 1, Module::ReserveData, "exec mmsdm_proc.InsertMtpasaReservelimitSet1 @P1, @P2"),
    ("RESERVE_DATA", "RESERVE", 1, Module::ReserveData, "exec mmsdm_proc.InsertReserveDataReserve1 @P1, @P2"),
    ("BILLING_CONFIG", "GST_TRANSACTION_CLASS", 1, Module::BillingConfig, "exec mmsdm_proc.InsertBillingConfigGstTransactionClass1 @P1, @P2"),
    ("BILLING_CONFIG", "GST_TRANSACTION_TYPE", 1, Module::BillingConfig, "exec mmsdm_proc.InsertBillingConfigGstTransactionType1 @P1, @P2"),
    ("BILLING_CONFIG", "GST_RATE", 1, Module::BillingConfig, "exec mmsdm_proc.InsertBillingConfigGstRate1 @P1, @P2"),
    ("BILLING_CONFIG", "SECDEPOSIT_INTEREST_RATE", 1, Module::BillingConfig, "exec mmsdm_proc.InsertBillingConfigSecdepositInterestRate1 @P1, @P2"),
    ("BILLING_CONFIG", "SECDEPOSIT_PROVISION", 1, Module::BillingConfig, "exec mmsdm_proc.InsertBillingConfigSecdepositProvision1 @P1, @P2"),
    ("BILLING_CONFIG", "BILLINGCALENDAR", 2, Module::BillingConfig, "exec mmsdm_proc.InsertBillingConfigBillingcalendar2 @P1, @P2"),
    ("BILLING_CONFIG", "GST_BAS_CLASS", 1, Module::BillingConfig, "exec mmsdm_proc.InsertBillingConfigGstBasClass1 @P1, @P2"),
];

fn key(data_set: &str, table: &str, version: i32) -> FileKey {
    FileKey { data_set_name: data_set.to_string(), table_name: Some(table.to_string()), version }
}

#[test]
fn catalogue_holds_every_table() {
    assert_eq!(CATALOGUE_LEN, TABLES.len());
    for (i, (ds, t, v, m, _)) in TABLES.iter().enumerate() {
        assert_eq!(CATALOGUE[i].0, *ds);
        assert_eq!(CATALOGUE[i].1, *t);
        assert_eq!(CATALOGUE[i].2, *v);
        assert_eq!(CATALOGUE[i].3, *m);
    }
}

#[test]
fn every_table_is_inserted_by_its_procedure() {
    let features = Features::all();
    for (ds, t, v, m, proc) in TABLES {
        match plan_key(&key(ds, t, *v), &features) {
            KeyPlan::Insert { module, procedure } => {
                assert_eq!(module, *m);
                assert_eq!(procedure, *proc);
            }
            _ => panic!("{} {} {} not inserted", ds, t, v),
        }
    }
}

#[test]
fn every_table_is_unhandled_without_its_module() {
    let features = Features::none();
    for (ds, t, v, m, _) in TABLES {
        match plan_key(&key(ds, t, *v), &features) {
            KeyPlan::Unhandled { module } => assert_eq!(module, *m),
            _ => panic!("{} {} {} not unhandled", ds, t, v),
        }
    }
}

#[test]
fn every_table_is_inserted_when_only_its_module_is_enabled() {
    for (ds, t, v, m, proc) in TABLES {
        let mut features = Features::none();
        features.enable(*m);
        match plan_key(&key(ds, t, *v), &features) {
            KeyPlan::Insert { module, procedure } => {
                assert_eq!(module, *m);
                assert_eq!(procedure, *proc);
            }
            _ => panic!("{} {} {} not inserted", ds, t, v),
        }
    }
}
