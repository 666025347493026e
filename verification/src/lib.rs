//! Accounting core of a yield-bearing deposit vault.
//!
//! The vault pools user deposits into an external lending market and tracks
//! ownership with its own share ledger. Yield accrues to depositors net of a
//! configurable admin fee, and separately funded token incentives stream to
//! depositors through a lazy, pull-based reward index.
//!
//! Everything here is pure state arithmetic: each operation takes the records
//! it touches (the vault ledger, a user's share balance, reward records), the
//! current timestamp and the pool's fresh exchange rate, and returns the new
//! records. The host environment is responsible for loading and persisting
//! those records and for moving the actual tokens.

pub mod constants;
pub mod errors;
pub mod laws;
pub mod math;
pub mod rewards;
pub mod storage;
pub mod summary;
pub mod validator;
pub mod vault;
