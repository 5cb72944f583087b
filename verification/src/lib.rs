//! A verified core for a plugin-hook bridge between a host runtime and a
//! native build pipeline.
//!
//! A host runtime supplies optional callbacks for the pipeline's extension
//! points (build lifecycle, module resolution, loading, transformation, chunk
//! rendering, bundle notifications). This crate holds the decision logic of
//! that bridge: which callback a hook invocation must call (if any), how the
//! call arguments are translated, how the several legal return shapes a host
//! callback may produce are normalized into one native result, and how a raw
//! configuration payload is translated into the pipeline's configuration and
//! an ordered list of plugin adapters.
//!
//! The asynchronous crossing into the host runtime itself is input/output and
//! stays outside the verified core: a thin unverified layer performs each
//! call that the decision functions here request, and hands the outcome back.

pub mod error;
pub mod external;
pub mod handle;
pub mod options;
pub mod outputs;
pub mod pipeline;
pub mod plugin;
pub mod shape;
mod util;
