//! Anker mints bSOL against deposits of stSOL, and pays stSOL back for bSOL.
//!
//! Anker is a Solana program that belongs to an instance of Solido. The library decides
//! what each instruction does: it checks the accounts, calculates the amounts, and lays
//! down a [`action::Plan`] of the actions to perform outside the program. The modules whose
//! names end in `laws` hold what is proved of the instructions as a whole.

pub mod account;
pub mod action;
pub mod address;
pub mod amount_laws;
pub mod derived;
pub mod encoding_laws;
pub mod error;
pub mod exchange;
pub mod history_laws;
pub mod instruction;
pub mod outcome_laws;
pub mod process_laws;
pub mod processor;
pub mod reading_laws;
pub mod setup_laws;
pub mod solido;
pub mod spl;
pub mod state;
pub mod token;
