//! A single-owner forced-savings account.
//!
//! The owner routes outgoing payments through the account; a fixed share of
//! each payment is withheld as savings, and the savings plus any remaining
//! balance become claimable only once a configured expiration moment has
//! passed.
//!
//! The account itself never reads the ledger: the caller's identity, the
//! current balance, the protocol-wide minimum reserve and the current time
//! are facts of a surrounding ledger environment, handed in as arguments.
//! Each operation decides, from those facts and the account's own fields,
//! whether the request is permitted, updates the account's accounting, and
//! leaves the actual movement of funds to the environment.

pub mod account;
pub mod laws;

pub use account::AccountId;
pub use account::Balance;
pub use account::DoubleSig;
pub use account::Error;
pub use account::Timestamp;
