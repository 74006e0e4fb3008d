//! Loading the tables of AEMO MMSDM files into SQL Server: which stored procedure takes
//! each table, and the decisions of the load, as state machines that a driver runs.

pub mod catalogue;
pub mod file;
pub mod naming;
pub mod batch;
pub mod plan;
pub mod loader;
pub mod laws;
