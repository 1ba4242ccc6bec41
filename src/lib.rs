//! Minting a basket-backed cluster token from a single stablecoin deposit:
//! allocation of the deposit over the basket's target weights, routing of
//! each share, the staged execution chain and the read-only preview.

pub mod allocator;
pub mod asset;
pub mod chain;
pub mod error;
pub mod msg;
pub mod router;
pub mod simulate;
