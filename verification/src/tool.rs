//! What a tool call carries to the plugin's handler.

use vstd::prelude::*;

use crate::identity::Identity;
use crate::permissions::Permissions;

verus! {

/// The context handed to a plugin handler with each tool call.
///
/// `session_id` is issued by the transport (stdio: a UUID v4; HTTP: the
/// `Mcp-Session-Id`). `permissions` and `identity` come from the API key that
/// authenticated the call, or from the transport's default (stdio `ADMIN`,
/// anonymous HTTP `READ`, both as `Human`). `key_id` is the id of the key
/// record that authenticated the call; it is `None` on stdio, for anonymous
/// calls and where authentication failed.
#[derive(Debug, Clone)]
#[non_exhaustive]
pub struct CallContext {
    pub session_id: String,
    pub identity: Identity,
    pub permissions: Permissions,
    /// The id of the API key record that authenticated this call (`k_…`), or
    /// `None` where no key did.
    pub key_id: Option<String>,
}

impl CallContext {
    /// A context with no key id.
    pub fn new(session_id: String, identity: Identity, permissions: Permissions) -> (c: CallContext)
        ensures
            c.session_id == session_id,
            c.identity == identity,
            c.permissions == permissions,
            c.key_id is None,
    {
        CallContext { session_id, identity, permissions, key_id: None }
    }

    /// The same context carrying the id of the key that authenticated it.
    pub fn with_key_id(self, key_id: Option<String>) -> (c: CallContext)
        ensures
            c.session_id == self.session_id,
            c.identity == self.identity,
            c.permissions == self.permissions,
            c.key_id == key_id,
    {
        let mut c = self;
        c.key_id = key_id;
        c
    }
}

} // verus!
