//! Pool state synchronization and fixed-point price computation for a
//! decentralized exchange liquidity pool.
//!
//! The crate decodes 256-bit Q64.96 square-root prices into decimal form,
//! normalizes spot prices for token decimal precision and token ordering,
//! and maintains a pool's tick, liquidity and price as swap events arrive.
//! Network access, the token registry loader and the event stream itself are
//! external collaborators; this crate holds the decisions and computations
//! between them.

pub mod errors;
pub mod fixed_point;
pub mod machine;
pub mod pool;
pub mod price;
pub mod tokens;
