//! A time-locked custody vault: a record that holds a balance of a fungible
//! asset for one owner and refuses withdrawal until a configured lock period
//! has elapsed since the most recent deposit. The record's state machine,
//! the account-relationship checks each operation demands, and the
//! derivation of the vault's keyless signing authority live here; the ledger
//! runtime that stores records, supplies the clock and executes each
//! invocation atomically is an external collaborator.

pub mod account_id;
pub mod authority;
pub mod laws;
pub mod vault;
