//! A typed, handle-indexed resource store for render-graph execution.
//!
//! A render graph declares data dependencies on resources whose concrete
//! identity is only decided by the graph compiler; at execution time each
//! pass turns those declared dependencies into concrete per-frame values
//! through one store instance. The store resolves render-target and shadow
//! dependencies against compiler-provided mappings, and exchanges
//! pass-chosen payloads through a slot array whose aliasing discipline is
//! enforced at run time by per-slot read counts.

pub mod handle;
pub mod laws;
pub mod payload;
pub mod store;
