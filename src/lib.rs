//! Wait-free data sharing between one writer process and many reader processes through
//! memory-mapped files.
//!
//! A writer publishes complete snapshots of a byte payload into one of two data files and then
//! commits them by storing a packed 64-bit version word into a small shared state file. Readers
//! load the version word, register themselves on the slot it names, read the payload straight
//! from the mapped pages and deregister when done. The writer only reuses a slot once its reader
//! count has drained, or after a grace period has expired.
//!
//! This crate holds the protocol itself: the version word, the shared state and its transitions,
//! slot selection, the data file bookkeeping, the write lock policy and the checksum. Opening,
//! mapping and locking files, and the atomic accesses to the mapped state, are left to the caller.
pub mod synchronizer;
pub mod instance;
pub mod state;
pub mod guard;
pub mod locks;
pub mod data;
