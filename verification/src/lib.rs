//! State-transition engine of an encrypted group-messaging protocol whose
//! records live in the accounts of a shared ledger.
//!
//! The engine stores ciphertext and wrapped keys and decides who may create,
//! use and change which record. It holds no state of its own: an invocation
//! hands it the accounts that it names, a buffer with the instruction and
//! the time of the ledger, and gets back the updates that the ledger is to
//! make, all of them or none.
//!
//! - [`address`]: account addresses, their order and their derivation from seeds
//! - [`wire`], [`records`]: the byte layout of values and of records
//! - [`state`]: the records and what can be done to them
//! - [`instruction`]: the instructions, their buffers and their accounts
//! - [`identity`]: the question asked of the identity program
//! - [`processor`]: what each instruction does
//! - [`journal`]: what the updates of an invocation do to the accounts
//! - [`laws`]: what holds of every invocation
//! - [`error`]: the errors

pub mod address;
pub mod error;
pub mod identity;
pub mod instruction;
pub mod journal;
pub mod laws;
pub mod processor;
pub mod records;
pub mod state;
pub mod wire;
