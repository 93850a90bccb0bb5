use eln_plugin_sdk::error::{
    ERROR_CODE_INTERNAL, ERROR_CODE_INVALID_ARGUMENT, ERROR_CODE_PERMISSION_DENIED,
};
use eln_plugin_sdk::{PermissionDenied, Permissions, ToolError};

#[test]
fn permission_denied_json_rpc_data_carries_kind_and_bits() {
    let err = ToolError::PermissionDenied(PermissionDenied::new(
        Permissions::WRITE,
        Permissions::READ,
    ));
    assert_eq!(err.json_rpc_code(), ERROR_CODE_PERMISSION_DENIED);
    let data = err.json_rpc_data();
    assert_eq!(data["kind"], "permission_denied");
    assert_eq!(data["required"], Permissions::WRITE.bits());
    assert_eq!(data["granted"], Permissions::READ.bits());
}

#[test]
fn json_rpc_codes_per_kind() {
    let pd = ToolError::PermissionDenied(PermissionDenied::new(
        Permissions::ADMIN,
        Permissions::empty(),
    ));
    assert_eq!(pd.json_rpc_code(), -32001);
    assert_eq!(ToolError::InvalidArgument("x".to_string()).json_rpc_code(), -32602);
    assert_eq!(ToolError::Internal("y".to_string()).json_rpc_code(), -32603);
    assert_eq!(ERROR_CODE_INVALID_ARGUMENT, -32602);
    assert_eq!(ERROR_CODE_INTERNAL, -32603);
}

#[test]
fn permission_denied_code_is_server_defined() {
    assert!((-32099..=-32000).contains(&ERROR_CODE_PERMISSION_DENIED));
    assert_ne!(ERROR_CODE_PERMISSION_DENIED, -32002);
    assert_ne!(ERROR_CODE_PERMISSION_DENIED, -32042);
}

#[test]
fn invalid_argument_data_carries_message() {
    let data = ToolError::InvalidArgument("missing `msg` (string)".to_string()).json_rpc_data();
    assert_eq!(data["kind"], "invalid_argument");
    assert_eq!(data["message"], "missing `msg` (string)");
    assert_eq!(data.as_object().unwrap().len(), 2);
}

#[test]
fn internal_data_carries_message() {
    let data = ToolError::Internal("note store poisoned".to_string()).json_rpc_data();
    assert_eq!(data["kind"], "internal");
    assert_eq!(data["message"], "note store poisoned");
    assert_eq!(data.as_object().unwrap().len(), 2);
}

#[test]
fn permission_denied_data_has_exactly_three_fields() {
    let err = ToolError::PermissionDenied(PermissionDenied::new(
        Permissions::READ_WRITE,
        Permissions::MODIFY,
    ));
    let data = err.json_rpc_data();
    assert!(data.is_object());
    assert_eq!(data.as_object().unwrap().len(), 3);
    assert_eq!(data["required"], 3);
    assert_eq!(data["granted"], 4);
}

#[test]
fn kinds_tell_errors_apart() {
    let a = ToolError::PermissionDenied(PermissionDenied::new(
        Permissions::WRITE,
        Permissions::READ,
    ));
    let b = ToolError::InvalidArgument("m".to_string());
    let c = ToolError::Internal("m".to_string());
    assert_ne!(a.json_rpc_data()["kind"], b.json_rpc_data()["kind"]);
    assert_ne!(b.json_rpc_data()["kind"], c.json_rpc_data()["kind"]);
    assert_ne!(a.json_rpc_data()["kind"], c.json_rpc_data()["kind"]);
    assert_ne!(a.json_rpc_code(), b.json_rpc_code());
    assert_ne!(b.json_rpc_code(), c.json_rpc_code());
}

#[test]
fn permission_denied_converts_into_tool_error() {
    let pd = PermissionDenied::new(Permissions::WRITE, Permissions::READ);
    assert_eq!(pd.required, Permissions::WRITE);
    assert_eq!(pd.granted, Permissions::READ);
    let err: ToolError = pd.into();
    match &err {
        ToolError::PermissionDenied(inner) => assert_eq!(*inner, pd),
        other => panic!("expected PermissionDenied, got {other:?}"),
    }
    assert_eq!(err.json_rpc_code(), ERROR_CODE_PERMISSION_DENIED);
    assert_eq!(err.json_rpc_data()["required"], 2);
}

#[test]
fn error_messages() {
    let pd = PermissionDenied::new(Permissions::WRITE, Permissions::READ);
    assert_eq!(
        pd.to_string(),
        "permission denied: requires Permissions(WRITE), granted Permissions(READ)"
    );
    assert_eq!(ToolError::from(pd).to_string(), pd.to_string());
    let empty = PermissionDenied::new(Permissions::ADMIN, Permissions::empty());
    assert_eq!(
        empty.to_string(),
        "permission denied: requires Permissions(READ | WRITE | MODIFY), granted Permissions(0x0)"
    );
    assert_eq!(
        ToolError::InvalidArgument("missing `id` (string)".to_string()).to_string(),
        "invalid argument: missing `id` (string)"
    );
    assert_eq!(ToolError::Internal("boom".to_string()).to_string(), "internal: boom");
}
