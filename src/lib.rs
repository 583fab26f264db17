//! A download engine core: destination naming, overwrite policy, the
//! commit protocol of temporary files and the bounded scheduler of
//! concurrent downloads, each stated and proved as a state machine or a
//! pure decision over plain values.
pub mod cookies;
pub mod disposition;
pub mod file;
pub mod http;
pub mod operation;
pub mod path;
pub mod progress;
