use nbxdca::{order_outcome, order_payload, ClientError, Decimal, Order, OrderOutcome};

#[test]
fn buy_payload_shape() {
    let amount = (100.0f64).to_string();
    assert_eq!(amount, "100");
    let p = order_payload("BUY", "BTC", &amount);
    assert_eq!(
        p,
        "{\"execution\":{\"freeze\":{\"type\":\"AMOUNT\",\"value\":\"100\"},\
         \"timeInForce\":{\"type\":\"IMMEDIATE_OR_CANCEL\"},\"type\":\"MARKET\"},\
         \"market\":\"BTC-NOK\",\"quantity\":\"1\",\"side\":\"BUY\"}"
    );
}

#[test]
fn sell_payload_shape() {
    let amount = (0.5f64).to_string();
    assert_eq!(amount, "0.5");
    let p = order_payload("SELL", "ETH", &amount);
    assert_eq!(
        p,
        "{\"execution\":{\"timeInForce\":{\"type\":\"IMMEDIATE_OR_CANCEL\"},\
         \"type\":\"MARKET\"},\"market\":\"ETH-NOK\",\"quantity\":\"0.5\",\"side\":\"SELL\"}"
    );
    assert!(!p.contains("freeze"));
}

#[test]
fn unknown_side_gives_empty_payload() {
    assert_eq!(order_payload("HOLD", "BTC", "100"), "{}");
}

#[test]
fn side_is_case_normalized() {
    assert_eq!(
        order_payload("buy", "BTC", "100"),
        order_payload("BUY", "BTC", "100")
    );
    assert_eq!(
        order_payload("Sell", "ETH", "0.5"),
        order_payload("SELL", "ETH", "0.5")
    );
}

#[test]
fn outcome_by_status_class() {
    assert_eq!(order_outcome(200, String::new()), OrderOutcome::Accepted);
    assert_eq!(order_outcome(204, String::new()), OrderOutcome::Accepted);
    assert_eq!(order_outcome(299, String::new()), OrderOutcome::Accepted);
    for status in [199u16, 300, 400, 404, 500] {
        let out = order_outcome(status, "oops".to_string());
        assert_eq!(
            out,
            OrderOutcome::Rejected {
                status,
                body: "oops".to_string()
            }
        );
        assert!(!out.accepted());
    }
    assert!(order_outcome(201, String::new()).accepted());
}

#[test]
fn fill_cost_is_recomputed() {
    let o = Order::from_fill_fields("2024-01-02T03:04:05Z", "0.1", "100.0", "2.0").unwrap();
    assert_eq!(o.created, "2024-01-02T03:04:05Z");
    assert_eq!(o.fee, Decimal { m: 1, s: 1 });
    assert_eq!(o.price, Decimal { m: 1000, s: 1 });
    assert_eq!(o.quantity, Decimal { m: 20, s: 1 });
    // 100.0 * 2.0 = 200.00
    assert_eq!(o.cost, Decimal { m: 20000, s: 2 });
}

#[test]
fn fill_rejects_bad_numerics() {
    assert_eq!(
        Order::from_fill_fields("t", "x", "100.0", "2.0"),
        Err(ClientError::Parse)
    );
    assert_eq!(
        Order::from_fill_fields("t", "0.1", "1e3", "2.0"),
        Err(ClientError::Parse)
    );
}

#[test]
fn details_response_parses_first_fill() {
    let body = "{\"id\":\"42\",\"fills\":[{\"createdAt\":\"2024-01-02T03:04:05Z\",\
                 \"fee\":\"0.25\",\"price\":\"350.5\",\"quantity\":\"2.0\"},\
                 {\"createdAt\":\"later\",\"fee\":\"9\",\"price\":\"9\",\"quantity\":\"9\"}]}";
    let o = Order::from_details_response(body).unwrap();
    assert_eq!(o.created, "2024-01-02T03:04:05Z");
    assert_eq!(o.fee, Decimal { m: 25, s: 2 });
    assert_eq!(o.price, Decimal { m: 3505, s: 1 });
    assert_eq!(o.quantity, Decimal { m: 20, s: 1 });
    assert_eq!(o.cost, Decimal { m: 70100, s: 2 });
}

#[test]
fn empty_fills_is_a_typed_not_found() {
    let body = "{\"id\":\"42\",\"fills\":[]}";
    assert_eq!(Order::from_details_response(body), Err(ClientError::NotFound));
}

#[test]
fn missing_fills_is_a_protocol_error() {
    assert_eq!(
        Order::from_details_response("{\"id\":\"42\"}"),
        Err(ClientError::Protocol)
    );
    assert_eq!(
        Order::from_details_response("{\"fills\":7}"),
        Err(ClientError::Protocol)
    );
    assert_eq!(
        Order::from_details_response("{\"fills\":[{\"createdAt\":\"t\",\"fee\":\"1\",\"price\":\"1\"}]}"),
        Err(ClientError::Protocol)
    );
}

#[test]
fn malformed_details_json_is_a_decode_error() {
    assert_eq!(Order::from_details_response("{"), Err(ClientError::Decode));
}

#[test]
fn first_order_id_takes_the_head_of_the_listing() {
    let body = "[{\"id\":\"abc\"},{\"id\":\"def\"}]";
    assert_eq!(Order::first_order_id(body).unwrap(), "abc");
}

#[test]
fn first_order_id_errors_are_typed() {
    assert_eq!(Order::first_order_id("[]"), Err(ClientError::NotFound));
    assert_eq!(Order::first_order_id("{}"), Err(ClientError::Protocol));
    assert_eq!(Order::first_order_id("[{\"x\":1}]"), Err(ClientError::Protocol));
    assert_eq!(Order::first_order_id("[{\"id\":5}]"), Err(ClientError::Protocol));
    assert_eq!(Order::first_order_id("nope"), Err(ClientError::Decode));
}
