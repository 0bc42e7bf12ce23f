//! Static configuration preconditions: an axis registry, an ambient
//! configuration snapshot, per-axis marker synthesis with `CanBe` / `Is`
//! capability facts, and the analysis that decides whether a call site meets
//! the configuration requirements of the function it calls.
pub mod text;
pub mod oracle;
pub mod error;
pub mod registry;
pub mod capability;
pub mod facts;
pub mod laws;

pub use capability::{CanBe, Is, Marker};
pub use error::ConfigError;
pub use facts::{Diagnostic, FactTable, Requirement};
pub use oracle::{is_check_cfg, CfgPair, Oracle};
pub use registry::{standard_axes, Axis, Registry};
