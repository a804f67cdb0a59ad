use op_adapter::command::{
    get_item_response, get_items_response, get_me_response, get_vault_response,
    get_vaults_response, op_command_response,
};
use op_adapter::{create_basic_vault, OPVault, OpError};

const USER_JSON: &[u8] = br#"{
    "id": "U1",
    "name": "Alice",
    "email": "alice@example.com",
    "state": "ACTIVE",
    "created_at": "2023-01-01T00:00:00Z",
    "updated_at": "2023-01-02T00:00:00Z",
    "last_auth_at": "2023-01-03T00:00:00Z"
}"#;

const ITEM_FULL_JSON: &[u8] = br#"{
    "id": "I1",
    "title": "Example Login",
    "version": 2,
    "vault": {"id": "V1", "name": "Personal"},
    "category": "LOGIN",
    "last_edited_by": "U1",
    "created_at": "2023-02-01T00:00:00Z",
    "updated_at": "2023-02-02T00:00:00Z",
    "additional_information": "extra notes",
    "urls": [
        {"label": "site", "primary": true, "href": "https://example.com"},
        {"href": "https://fallback.example.com"}
    ],
    "fields": [
        {
            "id": "F1",
            "type": "STRING",
            "purpose": "USERNAME",
            "label": "username",
            "value": "alice",
            "reference": "op://Personal/Example Login/username"
        },
        {"id": "F2", "type": "CONCEALED"}
    ]
}"#;

const ITEM_MINIMAL_JSON: &[u8] = br#"{
    "id": "I2",
    "title": "Bare Item",
    "version": 1,
    "vault": {"id": "V1", "name": "Personal"},
    "category": "SECURE_NOTE",
    "last_edited_by": "U1",
    "created_at": "2023-03-01T00:00:00Z",
    "updated_at": "2023-03-01T00:00:00Z"
}"#;

#[test]
fn user_fields_match_json_exactly() {
    let user = get_me_response(true, USER_JSON, b"").unwrap();
    assert_eq!(user.id, "U1");
    assert_eq!(user.name, "Alice");
    assert_eq!(user.email, "alice@example.com");
    assert_eq!(user.user_type, None);
    assert_eq!(user.state, "ACTIVE");
    assert_eq!(user.created_at, "2023-01-01T00:00:00Z");
    assert_eq!(user.updated_at, "2023-01-02T00:00:00Z");
    assert_eq!(user.last_auth_at, "2023-01-03T00:00:00Z");
}

#[test]
fn user_optional_type_is_kept_when_present() {
    let body = br#"{
        "id": "U2",
        "name": "Bob",
        "email": "bob@example.com",
        "user_type": "MEMBER",
        "state": "ACTIVE",
        "created_at": "2023-01-01T00:00:00Z",
        "updated_at": "2023-01-01T00:00:00Z",
        "last_auth_at": "2023-01-01T00:00:00Z"
    }"#;
    let user = get_me_response(true, body, b"").unwrap();
    assert_eq!(user.user_type.as_deref(), Some("MEMBER"));
}

#[test]
fn user_missing_required_field_is_malformed() {
    let body = br#"{"id": "U1", "name": "Alice"}"#;
    match get_me_response(true, body, b"") {
        Err(OpError::MalformedResponse) => {},
        _ => panic!("expected the malformed-response error"),
    }
}

#[test]
fn failure_exit_surfaces_stderr_verbatim() {
    match get_me_response(false, b"", b"invalid token") {
        Err(OpError::Cli(text)) => assert_eq!(text, "invalid token"),
        _ => panic!("expected the external tool's error text"),
    }
}

#[test]
fn failure_exit_error_message_matches() {
    let e = get_item_response(false, b"", b"invalid token").unwrap_err();
    assert_eq!(e.message(), "invalid token");
}

#[test]
fn success_with_non_json_output_is_malformed() {
    match op_command_response(true, b"not json at all", b"") {
        Err(OpError::MalformedResponse) => {},
        _ => panic!("expected the malformed-response error"),
    }
}

#[test]
fn item_with_all_optionals_populated() {
    let item = get_item_response(true, ITEM_FULL_JSON, b"").unwrap();
    assert_eq!(item.id, "I1");
    assert_eq!(item.title, "Example Login");
    assert_eq!(item.version, 2);
    assert_eq!(item.vault.id, "V1");
    assert_eq!(item.vault.name, "Personal");
    assert_eq!(item.category, "LOGIN");
    assert_eq!(item.last_edited_by, "U1");
    assert_eq!(item.additional_information.as_deref(), Some("extra notes"));
    let urls = item.urls.expect("urls should be populated");
    assert_eq!(urls.len(), 2);
    assert_eq!(urls[0].label.as_deref(), Some("site"));
    assert_eq!(urls[0].primary, Some(true));
    assert_eq!(urls[0].href, "https://example.com");
    assert_eq!(urls[1].label, None);
    assert_eq!(urls[1].primary, None);
    assert_eq!(urls[1].href, "https://fallback.example.com");
    let fields = item.fields.expect("fields should be populated");
    assert_eq!(fields.len(), 2);
    assert_eq!(fields[0].id, "F1");
    assert_eq!(fields[0].field_type, "STRING");
    assert_eq!(fields[0].purpose.as_deref(), Some("USERNAME"));
    assert_eq!(fields[0].label.as_deref(), Some("username"));
    assert_eq!(fields[0].value.as_deref(), Some("alice"));
    assert_eq!(
        fields[0].reference.as_deref(),
        Some("op://Personal/Example Login/username")
    );
    assert_eq!(fields[1].id, "F2");
    assert_eq!(fields[1].field_type, "CONCEALED");
    assert_eq!(fields[1].purpose, None);
    assert_eq!(fields[1].label, None);
    assert_eq!(fields[1].value, None);
    assert_eq!(fields[1].reference, None);
}

#[test]
fn item_without_optionals_leaves_them_absent() {
    let item = get_item_response(true, ITEM_MINIMAL_JSON, b"").unwrap();
    assert_eq!(item.id, "I2");
    assert_eq!(item.additional_information, None);
    assert!(item.urls.is_none());
    assert!(item.fields.is_none());
}

#[test]
fn item_with_wrong_version_type_is_malformed() {
    let body = br#"{
        "id": "I3",
        "title": "Broken",
        "version": "2",
        "vault": {"id": "V1", "name": "Personal"},
        "category": "LOGIN",
        "last_edited_by": "U1",
        "created_at": "2023-03-01T00:00:00Z",
        "updated_at": "2023-03-01T00:00:00Z"
    }"#;
    match get_item_response(true, body, b"") {
        Err(OpError::MalformedResponse) => {},
        _ => panic!("expected the malformed-response error"),
    }
}

#[test]
fn item_with_fractional_version_is_malformed() {
    let body = br#"{
        "id": "I4",
        "title": "Broken",
        "version": 1.5,
        "vault": {"id": "V1", "name": "Personal"},
        "category": "LOGIN",
        "last_edited_by": "U1",
        "created_at": "2023-03-01T00:00:00Z",
        "updated_at": "2023-03-01T00:00:00Z"
    }"#;
    match get_item_response(true, body, b"") {
        Err(OpError::MalformedResponse) => {},
        _ => panic!("expected the malformed-response error"),
    }
}

#[test]
fn items_list_keeps_emitted_order() {
    let mut body = Vec::new();
    body.extend_from_slice(b"[");
    body.extend_from_slice(ITEM_FULL_JSON);
    body.extend_from_slice(b",");
    body.extend_from_slice(ITEM_MINIMAL_JSON);
    body.extend_from_slice(b"]");
    let items = get_items_response(true, &body, b"").unwrap();
    assert_eq!(items.len(), 2);
    assert_eq!(items[0].id, "I1");
    assert_eq!(items[1].id, "I2");
}

#[test]
fn items_list_with_non_array_body_is_malformed() {
    match get_items_response(true, ITEM_FULL_JSON, b"") {
        Err(OpError::MalformedResponse) => {},
        _ => panic!("expected the malformed-response error"),
    }
}

#[test]
fn vault_record_with_optionals() {
    let body = br#"{
        "id": "V1",
        "name": "Personal",
        "content_version": "12",
        "items": ["I1", "I2"],
        "vault_type": "USER_CREATED",
        "created_at": "2023-01-01T00:00:00Z",
        "updated_at": "2023-01-05T00:00:00Z"
    }"#;
    let vault = get_vault_response(true, body, b"").unwrap();
    assert_eq!(vault.id, "V1");
    assert_eq!(vault.name, "Personal");
    assert_eq!(vault.content_version.as_deref(), Some("12"));
    assert_eq!(vault.attribute_version, None);
    assert_eq!(vault.items, Some(vec!["I1".to_string(), "I2".to_string()]));
    assert_eq!(vault.vault_type.as_deref(), Some("USER_CREATED"));
}

#[test]
fn vault_list_maps_each_record() {
    let body = br#"[
        {"id": "V1", "name": "Personal"},
        {"id": "V2", "name": "Work", "content_version": "3"}
    ]"#;
    let vaults = get_vaults_response(true, body, b"").unwrap();
    assert_eq!(vaults.len(), 2);
    assert_eq!(vaults[0].id, "V1");
    assert_eq!(vaults[0].content_version, None);
    assert_eq!(vaults[1].id, "V2");
    assert_eq!(vaults[1].content_version.as_deref(), Some("3"));
}

#[test]
fn basic_vault_constructors_leave_rest_absent() {
    let v = OPVault::new("V1".to_string(), "Personal".to_string(), Some("7".to_string()));
    assert_eq!(v.id, "V1");
    assert_eq!(v.name, "Personal");
    assert_eq!(v.content_version.as_deref(), Some("7"));
    assert_eq!(v.attribute_version, None);
    assert_eq!(v.items, None);
    assert_eq!(v.vault_type, None);
    assert_eq!(v.created_at, None);
    assert_eq!(v.updated_at, None);
    let w = create_basic_vault("V2".to_string(), "Work".to_string(), None);
    assert_eq!(w.id, "V2");
    assert_eq!(w.name, "Work");
    assert_eq!(w.content_version, None);
    assert_eq!(w.items, None);
}

#[test]
fn null_optionals_are_treated_as_absent() {
    let body = br#"{
        "id": "I5",
        "title": "Nulled",
        "version": 3,
        "vault": {"id": "V1", "name": "Personal"},
        "category": "LOGIN",
        "last_edited_by": "U1",
        "created_at": "2023-03-01T00:00:00Z",
        "updated_at": "2023-03-01T00:00:00Z",
        "additional_information": null,
        "urls": null,
        "fields": null
    }"#;
    let item = get_item_response(true, body, b"").unwrap();
    assert_eq!(item.additional_information, None);
    assert!(item.urls.is_none());
    assert!(item.fields.is_none());
}

#[test]
fn version_out_of_range_is_malformed() {
    let body = br#"{
        "id": "I6",
        "title": "Huge",
        "version": 4294967296,
        "vault": {"id": "V1", "name": "Personal"},
        "category": "LOGIN",
        "last_edited_by": "U1",
        "created_at": "2023-03-01T00:00:00Z",
        "updated_at": "2023-03-01T00:00:00Z"
    }"#;
    match get_item_response(true, body, b"") {
        Err(OpError::MalformedResponse) => {},
        _ => panic!("expected the malformed-response error"),
    }
}
