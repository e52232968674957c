//! An escrow-based token vesting engine.
//!
//! A depositor locks a fixed quantity of a fungible asset for a receiver
//! under a vesting schedule; the locked amount is held by a custody
//! authority derived deterministically from public inputs. Any caller may
//! later unlock the portion that the schedule has released so far. The
//! library contains the full vesting state machine — schedule validation,
//! entitlement computation, and the release ledger — with machine-checked
//! contracts; moving the asset itself is the caller's affair, done between
//! the `check`/`prepare` step and the committing step of each operation.

pub mod custody;
pub mod errors;
pub mod laws;
pub mod record;
pub mod registry;

pub use custody::CustodyAddress;
pub use errors::CustomError;
pub use record::ScheduleShape;
pub use record::VaultInfo;
pub use registry::Vesting;
