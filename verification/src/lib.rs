//! Ownership and call-planning core of a binding to the PROJ.4 cartographic
//! projection engine.
//!
//! The engine is reached through its C entry points, which this crate never
//! calls itself. It decides which entry point is invoked with which arguments,
//! and what becomes of the answer; a thin shell performs the calls.

pub mod call;
pub mod context;
pub mod definition;
pub mod error;
pub mod handle;
pub mod projection;
pub mod text;
pub mod transform;

pub use crate::call::{Command, ContextSource, Query, TextSource, TransformCall};
pub use crate::definition::{init_plus, InitPlus};
pub use crate::context::{ctx_alloc, ctx_get_errno, ctx_set_debug, ctx_set_errno, get_default_ctx};
pub use crate::error::{ConstructionError, ContractViolation, TransformError};
pub use crate::handle::{Context, ContextState, Projection, ProjectionState};
pub use crate::projection::{flag, get_ctx, get_def, is_geocent, is_latlong, set_ctx};
pub use crate::text::{get_release, take_text};
pub use crate::transform::{check_status, transform, transformv};
