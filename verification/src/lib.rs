//! Control-plane engine of a 5G gNB-CU-CP worker: the tables that correlate
//! requests with responses, the UE state store, the worker's signalling
//! decisions and the F1 peer used to exercise them.

pub mod table;
pub mod f1ap;
pub mod rrc;
pub mod net;
pub mod mock_du;
pub mod rrc_transaction;
pub mod stack;
pub mod datastore;
pub mod config;
pub mod worker;
pub mod ngap;
pub mod workflows;
