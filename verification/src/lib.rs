//! Interface contract between the elendirna core and its plugin modules:
//! permissions, caller identity, the shape of a tool call and the server surface.

pub mod api_key;
pub mod error;
pub mod identity;
pub mod json;
pub mod permissions;
pub mod server;
pub mod tool;

pub use api_key::ApiKey;
pub use error::{PermissionDenied, ToolError};
pub use identity::Identity;
pub use permissions::Permissions;
pub use server::ToolDescriptor;
pub use tool::CallContext;

use vstd::prelude::*;

verus! {

/// The SDK crate version, the `version` of its package, for diagnosing
/// version skew between a plugin's SDK and the core.
pub const VERSION: &'static str = "0.1.0";

} // verus!
