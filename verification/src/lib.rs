//! A price-quoting router in front of an external automated-market-maker
//! exchange.
//!
//! The library keeps a bidirectional registry from asset pairs to the
//! identifier of the liquidity pool that trades them, and decides how a quote
//! request is routed: as a single remote price query when one side of the pair
//! is the designated bridge asset, or as a two-hop sequence through the bridge
//! asset otherwise. The remote calls themselves are issued by the hosting
//! environment; this crate produces and verifies the call descriptions and the
//! continuation decision that joins the two hops.

pub mod codec;
pub mod laws;
pub mod registry;
pub mod router;

pub use registry::Registry;
pub use registry::RegistryError;
pub use router::CallOutcome;
pub use router::Contract;
pub use router::QuoteAction;
pub use router::QuoteError;
pub use router::RemoteCall;
pub use router::SwapAction;
