use op_adapter::command::{join_comma, Unofficial1Password};
use op_adapter::OpError;

fn owned(parts: &[&str]) -> Vec<String> {
    parts.iter().map(|p| (*p).to_string()).collect()
}

#[test]
fn empty_token_refuses_get_me() {
    let op = Unofficial1Password::new(String::new());
    let r = op.get_me_request();
    match r {
        Err(OpError::MissingCredential) => {},
        _ => panic!("expected the missing-credential error"),
    }
}

#[test]
fn empty_token_refuses_get_items() {
    let op = Unofficial1Password::new(String::new());
    let r = op.get_items_request(true, true, Some(owned(&["a"])), Some("V1".to_string()));
    match r {
        Err(OpError::MissingCredential) => {},
        _ => panic!("expected the missing-credential error"),
    }
}

#[test]
fn empty_token_refuses_get_item() {
    let op = Unofficial1Password::new(String::new());
    let r = op.get_item_request("I1", "V1");
    match r {
        Err(OpError::MissingCredential) => {},
        _ => panic!("expected the missing-credential error"),
    }
}

#[test]
fn empty_token_refuses_vault_operations() {
    let op = Unofficial1Password::new(String::new());
    assert!(matches!(op.get_vaults_request(), Err(OpError::MissingCredential)));
    assert!(matches!(op.get_vault_request("V1"), Err(OpError::MissingCredential)));
}

#[test]
fn missing_credential_message_is_verbatim() {
    let e = OpError::MissingCredential;
    assert_eq!(e.message(), "Service account token is missing.");
}

#[test]
fn get_me_request_arguments() {
    let op = Unofficial1Password::new("tok".to_string());
    let req = op.get_me_request().unwrap();
    assert_eq!(
        req.args,
        owned(&["--no-color", "--format=json", "--iso-timestamps", "user", "get", "--me"])
    );
    assert!(req.input_lines.is_empty());
}

#[test]
fn items_request_with_favorites_and_tags() {
    let op = Unofficial1Password::new("tok".to_string());
    let req = op
        .get_items_request(true, false, Some(owned(&["work", "urgent"])), None)
        .unwrap();
    assert_eq!(
        req.args,
        owned(&[
            "--no-color",
            "--format=json",
            "--iso-timestamps",
            "items",
            "list",
            "--favorites",
            "--tags",
            "work,urgent",
        ])
    );
    assert!(!req.args.contains(&"--include-archive".to_string()));
    assert!(!req.args.contains(&"--vault".to_string()));
}

#[test]
fn items_request_with_all_filters() {
    let op = Unofficial1Password::new("tok".to_string());
    let req = op
        .get_items_request(false, true, Some(owned(&["one"])), Some("V9".to_string()))
        .unwrap();
    assert_eq!(
        req.args,
        owned(&[
            "--no-color",
            "--format=json",
            "--iso-timestamps",
            "items",
            "list",
            "--include-archive",
            "--tags",
            "one",
            "--vault",
            "V9",
        ])
    );
}

#[test]
fn items_request_without_filters() {
    let op = Unofficial1Password::new("tok".to_string());
    let req = op.get_items_request(false, false, None, None).unwrap();
    assert_eq!(
        req.args,
        owned(&["--no-color", "--format=json", "--iso-timestamps", "items", "list"])
    );
}

#[test]
fn item_request_arguments() {
    let op = Unofficial1Password::new("tok".to_string());
    let req = op.get_item_request("I7", "V3").unwrap();
    assert_eq!(
        req.args,
        owned(&["--no-color", "--format=json", "--iso-timestamps", "item", "get", "I7", "--vault", "V3"])
    );
}

#[test]
fn vault_request_arguments() {
    let op = Unofficial1Password::new("tok".to_string());
    let list = op.get_vaults_request().unwrap();
    assert_eq!(
        list.args,
        owned(&["--no-color", "--format=json", "--iso-timestamps", "vault", "list"])
    );
    let one = op.get_vault_request("V2").unwrap();
    assert_eq!(
        one.args,
        owned(&["--no-color", "--format=json", "--iso-timestamps", "vault", "get", "V2"])
    );
}

#[test]
fn request_environment_carries_only_its_own_token() {
    let op_a = Unofficial1Password::new("token-a".to_string());
    let op_b = Unofficial1Password::new("token-b".to_string());
    let req_a = op_a.get_me_request().unwrap();
    let req_b = op_b.get_me_request().unwrap();
    assert_eq!(
        req_a.env_set,
        vec![("OP_SERVICE_ACCOUNT_TOKEN".to_string(), "token-a".to_string())]
    );
    assert_eq!(
        req_b.env_set,
        vec![("OP_SERVICE_ACCOUNT_TOKEN".to_string(), "token-b".to_string())]
    );
    for (_, value) in &req_a.env_set {
        assert_ne!(value, "token-b");
    }
    for (_, value) in &req_b.env_set {
        assert_ne!(value, "token-a");
    }
}

#[test]
fn request_clears_connect_environment() {
    let op = Unofficial1Password::new("tok".to_string());
    let req = op.get_me_request().unwrap();
    assert_eq!(req.env_remove, owned(&["OP_CONNECT_HOST", "OP_CONNECT_TOKEN"]));
}

#[test]
fn login_with_empty_token_sets_nothing() {
    let op = Unofficial1Password::new(String::new());
    let plan = op.login_with_service_account();
    assert_eq!(plan.remove, owned(&["OP_CONNECT_HOST", "OP_CONNECT_TOKEN"]));
    assert!(plan.set.is_empty());
}

#[test]
fn join_comma_cases() {
    assert_eq!(join_comma(&owned(&[])), "");
    assert_eq!(join_comma(&owned(&["a"])), "a");
    assert_eq!(join_comma(&owned(&["a", "b", "c"])), "a,b,c");
    assert_eq!(join_comma(&owned(&["", ""])), ",");
}

#[test]
fn greet_frames_the_name() {
    assert_eq!(
        op_adapter::command::greet("World"),
        "Hello, World! You've been greeted from Rust!"
    );
}
