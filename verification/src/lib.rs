//! A ledger-resident lock-and-release bridge contract.
//!
//! The contract custodies deposited value on a source ledger and authorizes
//! its later release to a recipient. Three trust roles interact with it: an
//! owner who performs one-time configuration, an admin who receives swapped
//! funds and exclusively authorizes releases, and users who deposit funds to
//! be bridged.
//!
//! The hosting ledger's collaborators (persistent storage, the signature
//! authorization mechanism, the event log, and the fungible-token contract)
//! are abstracted at their interface boundary: each operation takes the
//! caller identity the host has already authenticated as a parameter, and
//! returns the token-transfer orders the host is to perform. Every decision
//! the contract makes is verified here.

pub mod contract;
pub mod model;
pub mod records;
pub mod revenue;

pub use contract::LockAndReleaseContract;
pub use contract::FlushOrder;
pub use contract::LockOutcome;
pub use contract::ReleaseOrder;
pub use model::Address;
pub use model::ConfigSlot;
pub use model::ContractError;
pub use model::FLUSH_THRESHOLD;
pub use model::MAX_LOCK_AMOUNT;
pub use records::LockData;
