//! Policy layer for a permissioned fungible asset.
//!
//! A central authority grants fine-grained operational roles (mint, burn,
//! freeze, pause, blacklist, seize) over one asset, and a cooperating
//! validation module enforces a wallet blacklist on every transfer of that
//! asset.  Balances and supply live in an external ledger; this crate holds
//! only the policy state layered on top: the token configuration record, the
//! role registry with its windowed minting quotas, and the compliance
//! registry, together with the deterministic sub-record addressing and the
//! fixed wire layout that both sides of the protocol must agree on.

pub mod addr;
pub mod amount;
pub mod client;
pub mod codec;
pub mod constants;
pub mod digest;
pub mod errors;
pub mod events;
pub mod hook;
pub mod instructions;
pub mod laws;
pub mod pda;
pub mod query;
pub mod state;
pub mod txbuild;
pub mod utils;
