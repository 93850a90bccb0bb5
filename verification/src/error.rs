//! Errors shared by the SDK, and their JSON-RPC form.

use vstd::prelude::*;

use crate::json::{
    json_map_insert_text, json_map_insert_uint, json_map_new, json_object, json_object_fields,
    JsonField,
};
use crate::permissions::{debug_text, Permissions};

verus! {

/// A tool call was refused: it requires `required`, the caller was granted
/// `granted`.
#[derive(Debug, Clone, Copy, PartialEq, Eq, Structural)]
#[non_exhaustive]
pub struct PermissionDenied {
    pub required: Permissions,
    pub granted: Permissions,
}

impl PermissionDenied {
    pub fn new(required: Permissions, granted: Permissions) -> (e: PermissionDenied)
        ensures
            e.required == required,
            e.granted == granted,
    {
        PermissionDenied { required, granted }
    }

    /// The error message: `permission denied: requires {required:?}, granted {granted:?}`.
    pub open spec fn message(&self) -> Seq<char> {
        "permission denied: requires "@ + debug_text(self.required) + ", granted "@ + debug_text(
            self.granted,
        )
    }

    /// The text that `Display` shows of the error.
    pub fn to_string(&self) -> (s: String)
        ensures
            s@ == self.message(),
    {
        let mut s = String::from_str("permission denied: requires ");
        let required = self.required.debug_string();
        s.append(required.as_str());
        s.append(", granted ");
        let granted = self.granted.debug_string();
        s.append(granted.as_str());
        s
    }
}

/// The error of a tool call.
#[derive(Debug)]
#[non_exhaustive]
pub enum ToolError {
    PermissionDenied(PermissionDenied),
    InvalidArgument(String),
    Internal(String),
}

impl From<PermissionDenied> for ToolError {
    fn from(e: PermissionDenied) -> (r: ToolError) {
        ToolError::PermissionDenied(e)
    }
}

impl vstd::std_specs::convert::FromSpecImpl<PermissionDenied> for ToolError {
    open spec fn obeys_from_spec() -> bool {
        true
    }

    open spec fn from_spec(e: PermissionDenied) -> ToolError {
        ToolError::PermissionDenied(e)
    }
}

/// JSON-RPC error code of a refused permission.
///
/// It lies in the server-defined range (-32000 to -32099) and differs from the
/// codes that rmcp 1.5.0 adds there (-32002, -32042). A later MCP or rmcp may
/// reserve -32001, so a transport adapter looks at `data.kind` as well.
pub const ERROR_CODE_PERMISSION_DENIED: i32 = -32001;

/// JSON-RPC code of an invalid argument ("Invalid params").
pub const ERROR_CODE_INVALID_ARGUMENT: i32 = -32602;

/// JSON-RPC code of an internal error.
pub const ERROR_CODE_INTERNAL: i32 = -32603;

impl ToolError {
    /// The JSON-RPC error code of this error.
    pub open spec fn spec_json_rpc_code(&self) -> i32 {
        match self {
            ToolError::PermissionDenied(_) => ERROR_CODE_PERMISSION_DENIED,
            ToolError::InvalidArgument(_) => ERROR_CODE_INVALID_ARGUMENT,
            ToolError::Internal(_) => ERROR_CODE_INTERNAL,
        }
    }

    /// The fields of the JSON-RPC `error.data` object of this error: a `kind`
    /// and the details of the error.
    pub open spec fn spec_json_rpc_data(&self) -> Map<Seq<char>, JsonField> {
        match self {
            ToolError::PermissionDenied(pd) => Map::empty().insert(
                "kind"@,
                JsonField::Text("permission_denied"@),
            ).insert("required"@, JsonField::UInt(pd.required@ as nat)).insert(
                "granted"@,
                JsonField::UInt(pd.granted@ as nat),
            ),
            ToolError::InvalidArgument(msg) => Map::empty().insert(
                "kind"@,
                JsonField::Text("invalid_argument"@),
            ).insert("message"@, JsonField::Text(msg@)),
            ToolError::Internal(msg) => Map::empty().insert(
                "kind"@,
                JsonField::Text("internal"@),
            ).insert("message"@, JsonField::Text(msg@)),
        }
    }

    /// The error message: that of the refused permission, or
    /// `invalid argument: {msg}`, or `internal: {msg}`.
    pub open spec fn message(&self) -> Seq<char> {
        match self {
            ToolError::PermissionDenied(pd) => pd.message(),
            ToolError::InvalidArgument(msg) => "invalid argument: "@ + msg@,
            ToolError::Internal(msg) => "internal: "@ + msg@,
        }
    }

    /// The text that `Display` shows of the error.
    pub fn to_string(&self) -> (s: String)
        ensures
            s@ == self.message(),
    {
        match self {
            ToolError::PermissionDenied(pd) => pd.to_string(),
            ToolError::InvalidArgument(msg) => {
                let mut s = String::from_str("invalid argument: ");
                s.append(msg.as_str());
                s
            },
            ToolError::Internal(msg) => {
                let mut s = String::from_str("internal: ");
                s.append(msg.as_str());
                s
            },
        }
    }

    /// The JSON-RPC error code, for the transport adapter.
    pub fn json_rpc_code(&self) -> (c: i32)
        ensures
            c == self.spec_json_rpc_code(),
    {
        match self {
            ToolError::PermissionDenied(_) => ERROR_CODE_PERMISSION_DENIED,
            ToolError::InvalidArgument(_) => ERROR_CODE_INVALID_ARGUMENT,
            ToolError::Internal(_) => ERROR_CODE_INTERNAL,
        }
    }

    /// The JSON-RPC `error.data` payload: an object with the error's `kind`
    /// and its details, which the transport adapter attaches to the error
    /// response.
    pub fn json_rpc_data(&self) -> (v: serde_json::Value)
        ensures
            json_object_fields(v) == self.spec_json_rpc_data(),
    {
        let mut m = json_map_new();
        match self {
            ToolError::PermissionDenied(pd) => {
                json_map_insert_text(&mut m, "kind", "permission_denied");
                json_map_insert_uint(&mut m, "required", pd.required.bits());
                json_map_insert_uint(&mut m, "granted", pd.granted.bits());
            },
            ToolError::InvalidArgument(msg) => {
                json_map_insert_text(&mut m, "kind", "invalid_argument");
                json_map_insert_text(&mut m, "message", msg.as_str());
            },
            ToolError::Internal(msg) => {
                json_map_insert_text(&mut m, "kind", "internal");
                json_map_insert_text(&mut m, "message", msg.as_str());
            },
        }
        json_object(m)
    }
}

/// Whether two errors are of the same kind (the same variant).
pub open spec fn same_kind(a: ToolError, b: ToolError) -> bool {
    match (a, b) {
        (ToolError::PermissionDenied(_), ToolError::PermissionDenied(_)) => true,
        (ToolError::InvalidArgument(_), ToolError::InvalidArgument(_)) => true,
        (ToolError::Internal(_), ToolError::Internal(_)) => true,
        _ => false,
    }
}

/// The keys of the data fields are distinct texts.
proof fn lemma_field_keys_distinct()
    ensures
        "kind"@ != "required"@,
        "kind"@ != "granted"@,
        "kind"@ != "message"@,
        "required"@ != "granted"@,
{
    reveal_strlit("kind");
    reveal_strlit("required");
    reveal_strlit("granted");
    reveal_strlit("message");
    assert("kind"@.len() != "required"@.len());
    assert("kind"@.len() != "granted"@.len());
    assert("kind"@.len() != "message"@.len());
    assert("required"@.len() != "granted"@.len());
}

/// The code of a refused permission lies in JSON-RPC's server-defined range
/// (-32000 to -32099), apart from the codes that rmcp 1.5.0 adds there
/// (-32002, -32042) and from the codes that JSON-RPC itself defines.
pub proof fn lemma_permission_denied_code_is_server_defined()
    ensures
        -32099 <= ERROR_CODE_PERMISSION_DENIED <= -32000,
        ERROR_CODE_PERMISSION_DENIED != -32002,
        ERROR_CODE_PERMISSION_DENIED != -32042,
        ERROR_CODE_PERMISSION_DENIED != ERROR_CODE_INVALID_ARGUMENT,
        ERROR_CODE_PERMISSION_DENIED != ERROR_CODE_INTERNAL,
        ERROR_CODE_PERMISSION_DENIED != -32700,
        ERROR_CODE_PERMISSION_DENIED != -32600,
        ERROR_CODE_PERMISSION_DENIED != -32601,
{
}

/// The code of an error and the `kind` field of its data both tell its kind:
/// two errors have the same code, and the same `kind`, exactly when they are
/// of the same kind. Every data object has a `kind` field.
pub proof fn lemma_code_and_kind_identify_error(a: ToolError, b: ToolError)
    ensures
        a.spec_json_rpc_data().contains_key("kind"@),
        (a.spec_json_rpc_code() == b.spec_json_rpc_code()) <==> same_kind(a, b),
        (a.spec_json_rpc_data()["kind"@] == b.spec_json_rpc_data()["kind"@]) <==> same_kind(a, b),
{
    lemma_field_keys_distinct();
    reveal_strlit("permission_denied");
    reveal_strlit("invalid_argument");
    reveal_strlit("internal");
    assert("permission_denied"@ != "invalid_argument"@) by {
        assert("permission_denied"@[0] != "invalid_argument"@[0]);
    }
    assert("permission_denied"@ != "internal"@) by {
        assert("permission_denied"@[0] != "internal"@[0]);
    }
    assert("invalid_argument"@ != "internal"@) by {
        assert("invalid_argument"@.len() != "internal"@.len());
    }
}

/// A refused permission turned into a tool error (`?` or `into`) answers
/// with the permission-denied code, and its data carries the required and the
/// granted bits.
pub proof fn lemma_permission_denied_into_tool_error(pd: PermissionDenied)
    ensures
        ({
            let e = <ToolError as vstd::std_specs::convert::FromSpec<PermissionDenied>>::from_spec(pd);
            &&& e.spec_json_rpc_code() == ERROR_CODE_PERMISSION_DENIED
            &&& e.spec_json_rpc_data()["kind"@] == JsonField::Text("permission_denied"@)
            &&& e.spec_json_rpc_data()["required"@] == JsonField::UInt(pd.required@ as nat)
            &&& e.spec_json_rpc_data()["granted"@] == JsonField::UInt(pd.granted@ as nat)
        }),
{
    lemma_field_keys_distinct();
}

/// The data object of an invalid argument or an internal error holds exactly
/// two fields, `kind` and `message`, and its `message` is the error's message,
/// whatever that message is. The data object of a refused permission holds
/// exactly `kind`, `required` and `granted`, the latter two being the bits of
/// the required and of the granted permissions.
pub proof fn lemma_data_fields_carry_the_details(e: ToolError)
    ensures
        match e {
            ToolError::InvalidArgument(msg) => {
                &&& e.spec_json_rpc_data().dom() =~= set!["kind"@, "message"@]
                &&& e.spec_json_rpc_data()["message"@] == JsonField::Text(msg@)
            },
            ToolError::Internal(msg) => {
                &&& e.spec_json_rpc_data().dom() =~= set!["kind"@, "message"@]
                &&& e.spec_json_rpc_data()["message"@] == JsonField::Text(msg@)
            },
            ToolError::PermissionDenied(pd) => {
                &&& e.spec_json_rpc_data().dom() =~= set!["kind"@, "required"@, "granted"@]
                &&& e.spec_json_rpc_data()["required"@] == JsonField::UInt(pd.required@ as nat)
                &&& e.spec_json_rpc_data()["granted"@] == JsonField::UInt(pd.granted@ as nat)
            },
        },
{
    lemma_field_keys_distinct();
}

} // verus!
