//! Routing core of a token-swap bridge.
//!
//! The bridge forwards a deposited token amount through a caller-supplied
//! chain of liquidity venues, or hands the whole swap to an aggregator venue,
//! and pays the outcome to a recipient. Who may trigger a swap, and when, is
//! decided by an operator allow-list and a pause flag.
//!
//! Venues, the aggregator and the ledger are collaborators behind traits; the
//! decisions around them are stated over [`model::BridgeModel`].
pub mod types;
pub mod model;
pub mod route;
pub mod venue;
pub mod bridge;
pub mod memory;

pub use bridge::BridgeNew;
pub use memory::MemoryBridge;
pub use types::{Address, AggregatorStep, BridgeError, EsdtTokenPayment, Permissions, Status, TokenAmount, TokenId, VenueError};
pub use venue::{AggregatorModule, FactoryModule, Pair, Recorded};
