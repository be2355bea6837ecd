use nbxdca::{sign, u64_to_dec, Account, ClientError};

#[test]
fn golden_signature() {
    // secret = base64("k"), canonical message "1700000000000POST/x{}"
    let sig = sign("aw==", 1700000000000, "POST", "/x", "{}").unwrap();
    assert_eq!(sig, "lW7roy3DZKc41/M5qWe03R1G+wTBmlEZ90i7SO3U+fA=");
}

#[test]
fn signature_deterministic() {
    let a = sign("aw==", 1700000000000, "POST", "/x", "{}").unwrap();
    let b = sign("aw==", 1700000000000, "POST", "/x", "{}").unwrap();
    assert_eq!(a, b);
}

#[test]
fn signature_changes_with_each_input() {
    let base = sign("aw==", 1700000000000, "POST", "/x", "{}").unwrap();
    let other_secret = sign("bA==", 1700000000000, "POST", "/x", "{}").unwrap();
    let other_timestamp = sign("aw==", 1700000000001, "POST", "/x", "{}").unwrap();
    let other_method = sign("aw==", 1700000000000, "GET", "/x", "{}").unwrap();
    let other_path = sign("aw==", 1700000000000, "POST", "/y", "{}").unwrap();
    let other_body = sign("aw==", 1700000000000, "POST", "/x", "{ }").unwrap();
    assert_ne!(base, other_secret);
    assert_ne!(base, other_timestamp);
    assert_ne!(base, other_method);
    assert_ne!(base, other_path);
    assert_ne!(base, other_body);
    assert_eq!(other_timestamp, "hNH5rm26ecJ+2S/hWZiBzo2jYJyzjlRZaMEtonFhmwU=");
    assert_eq!(other_method, "13wLi9QnxPTF6XQpuaArWvbv5uyQ8GJW1jlpxJ+LBnQ=");
}

#[test]
fn sign_rejects_bad_base64_secret() {
    assert_eq!(
        sign("!not base64!", 1700000000000, "POST", "/x", "{}"),
        Err(ClientError::Decode)
    );
}

#[test]
fn timestamp_renders_in_decimal() {
    assert_eq!(u64_to_dec(1700000000000), "1700000000000");
    assert_eq!(u64_to_dec(0), "0");
    assert_eq!(u64_to_dec(u64::MAX), "18446744073709551615");
}

fn sample_account() -> Account {
    Account {
        id: "A1".to_string(),
        key: "K1".to_string(),
        passphrase: "P1".to_string(),
        secret: "aw==".to_string(),
        token_lifetime: "3600".to_string(),
    }
}

#[test]
fn token_request_builds_signed_headers() {
    let acct = Account::new(sample_account());
    let req = acct.token_request(1700000000000).unwrap();
    assert_eq!(req.path, "/accounts/A1/api_keys/K1/tokens");
    assert_eq!(req.body, "{\"expiresIn\":\"3600\"}");
    assert_eq!(req.timestamp, 1700000000000);
    let sig = sign("aw==", 1700000000000, "POST", &req.path, &req.body).unwrap();
    assert_eq!(req.auth_header, format!("NBX-HMAC-SHA256 P1:{}", sig));
}

#[test]
fn token_request_rejects_bad_secret() {
    let mut cfg = sample_account();
    cfg.secret = "%%%".to_string();
    let acct = Account::new(cfg);
    assert!(matches!(
        acct.token_request(1700000000000),
        Err(ClientError::Decode)
    ));
}
