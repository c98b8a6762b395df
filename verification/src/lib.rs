//! A constant-product exchange accounting engine.
//!
//! Three cooperating components keep a two-asset pool consistent while only
//! ever talking to each other through asynchronous request/continuation
//! messages:
//!
//! * [`math`] — the pure exchange formulas: quoting, optimal liquidity
//!   contributions, and the fee-adjusted swap amounts.
//! * [`pool`] — the pool unit, owner of one pair's claim-token ledger and of
//!   the mint/burn rules that turn deposits into liquidity shares.
//! * [`vault`] — the central ledger, owner of the authoritative reserve table
//!   for every registered pool; it orchestrates liquidity and swap workflows
//!   and commits reserve updates only when a continuation confirms them.
//! * [`factory`] — the registry that creates pool units and registers them
//!   with the vault once their instantiation completes.
//!
//! Every function here is pure with respect to the host: callers feed in the
//! decoded messages and state snapshots, and get back the next state and the
//! outbound messages to dispatch.

pub mod addr_map;
pub mod factory;
pub mod math;
pub mod pool;
pub mod pool_msg;
pub mod vault;
pub mod vault_msg;
