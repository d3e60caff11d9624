//! Core of a ledger-resident token sale vault: a fixed-width codec for the
//! persisted sale record, an instruction decoder, and the state machine that
//! validates and carries out the four sale operations (initialize, reprice,
//! purchase, terminate), returning the transfers each one requires.

pub mod error;
pub mod state;
pub mod instruction;
pub mod external;
pub mod accounts;
pub mod processor;
pub mod laws;
