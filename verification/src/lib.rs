//! Split donations: a payer sends an amount, the recipient receives all of it
//! and the platform receives one percent on top, both debited from the payer.
//!
//! - [`shares`]: the two amounts and their sum.
//! - [`executor`]: what a donation asks of its host, one request at a time.
//! - [`instruction`]: a request to move funds, as the system program reads it.
//! - [`ledger`]: a host held in memory.
//! - [`donation`]: a whole donation on that ledger, and what holds of it.

pub mod account;
pub mod donation;
pub mod error;
pub mod executor;
pub mod instruction;
pub mod ledger;
pub mod shares;

pub use donation::donate;
pub use executor::Donate;
