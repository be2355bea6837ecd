use nbxdca::{bearer_header, extract_balance, extract_token, Account, ClientError, Decimal};

fn sample_account() -> Account {
    Account::new(Account {
        id: "A1".to_string(),
        key: "K1".to_string(),
        passphrase: "P1".to_string(),
        secret: "aw==".to_string(),
        token_lifetime: "900".to_string(),
    })
}

#[test]
fn new_keeps_every_field() {
    let acct = sample_account();
    assert_eq!(acct.id, "A1");
    assert_eq!(acct.key, "K1");
    assert_eq!(acct.passphrase, "P1");
    assert_eq!(acct.secret, "aw==");
    assert_eq!(acct.token_lifetime, "900");
}

#[test]
fn paths_follow_the_wire_protocol() {
    let acct = sample_account();
    assert_eq!(acct.asset_path("BTC"), "/accounts/A1/assets/BTC");
    assert_eq!(acct.orders_path(), "/accounts/A1/orders");
    assert_eq!(acct.order_path("42"), "/accounts/A1/orders/42");
    assert_eq!(bearer_header("tok"), "Bearer tok");
}

#[test]
fn token_is_extracted_as_a_plain_string() {
    assert_eq!(extract_token("{\"token\":\"abc.def\"}").unwrap(), "abc.def");
}

#[test]
fn token_errors_are_typed() {
    assert_eq!(extract_token("{\"nope\":1}"), Err(ClientError::Protocol));
    assert_eq!(extract_token("{\"token\":5}"), Err(ClientError::Protocol));
    assert_eq!(extract_token("{"), Err(ClientError::Decode));
}

#[test]
fn balance_is_read_from_the_nested_field() {
    let body = "{\"balance\":{\"available\":\"123.45\",\"total\":\"999\"}}";
    assert_eq!(extract_balance(body), Ok(Decimal { m: 12345, s: 2 }));
}

#[test]
fn balance_errors_are_typed() {
    assert_eq!(extract_balance("{}"), Err(ClientError::Protocol));
    assert_eq!(
        extract_balance("{\"balance\":{}}"),
        Err(ClientError::Protocol)
    );
    assert_eq!(
        extract_balance("{\"balance\":{\"available\":\"x\"}}"),
        Err(ClientError::Parse)
    );
    assert_eq!(
        extract_balance("{\"balance\":{\"available\":1.5}}"),
        Err(ClientError::Protocol)
    );
    assert_eq!(extract_balance("<html>"), Err(ClientError::Decode));
}

#[test]
fn errors_describe_themselves() {
    assert_eq!(ClientError::Decode.describe(), "invalid base64 secret");
    assert_eq!(ClientError::NotFound.describe(), "no matching record");
}
