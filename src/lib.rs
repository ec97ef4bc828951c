//! An asset registry with generative breeding: kitties with an immutable
//! 16-byte genome, an ownership relation, and a small token ledger.
pub mod breeding;
pub mod entropy;
pub mod counter;
pub mod pallet;
pub mod erc20;
