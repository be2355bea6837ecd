use vstd::prelude::*;

use crate::decimal::{dec_m, dec_scale, dec_valid, Decimal};
use crate::errors::ClientError;
use crate::json::{json_ok, json_valid};

verus! {

/// What `str::to_uppercase` returns: the Unicode uppercase mapping
/// depends on the input characters alone (no locale is involved).
pub uninterp spec fn upper_of(s: Seq<char>) -> Seq<char>;

/// Relies on str::to_uppercase: see `upper_of`.
#[verifier::external_body]
fn to_upper(s: &str) -> (r: String)
    ensures
        r@ == upper_of(s@),
{
    s.to_uppercase()
}

/// The market symbol for a ticker: the quote currency is fixed.
pub open spec fn market_spec(ticker: Seq<char>) -> Seq<char> {
    ticker + "-NOK"@
}

/// A BUY payload: a MARKET order, immediate-or-cancel, quantity fixed
/// at the literal "1", and a freeze clause capping the fiat spend at
/// `amount`. Keys appear in the alphabetical order JSON objects are
/// serialized in.
pub open spec fn buy_payload_spec(ticker: Seq<char>, amount: Seq<char>) -> Seq<char> {
    "{\"execution\":{\"freeze\":{\"type\":\"AMOUNT\",\"value\":\""@ + amount
        + "\"},\"timeInForce\":{\"type\":\"IMMEDIATE_OR_CANCEL\"},\"type\":\"MARKET\"},\"market\":\""@
        + market_spec(ticker) + "\",\"quantity\":\"1\",\"side\":\"BUY\"}"@
}

/// A SELL payload: a MARKET order, immediate-or-cancel, with quantity
/// equal to `amount` (units of the asset) and no freeze clause.
pub open spec fn sell_payload_spec(ticker: Seq<char>, amount: Seq<char>) -> Seq<char> {
    "{\"execution\":{\"timeInForce\":{\"type\":\"IMMEDIATE_OR_CANCEL\"},\"type\":\"MARKET\"},\"market\":\""@
        + market_spec(ticker) + "\",\"quantity\":\""@ + amount + "\",\"side\":\"SELL\"}"@
}

/// The payload for an already-uppercased side: the BUY shape, the SELL
/// shape, or the empty object for any other side.
pub open spec fn payload_for_side_spec(
    side_upper: Seq<char>,
    ticker: Seq<char>,
    amount: Seq<char>,
) -> Seq<char> {
    if side_upper == "BUY"@ {
        buy_payload_spec(ticker, amount)
    } else if side_upper == "SELL"@ {
        sell_payload_spec(ticker, amount)
    } else {
        "{}"@
    }
}

/// Build the order payload for a side that has already been
/// case-normalized to uppercase.
pub fn payload_for_side(side_upper: &str, ticker: &str, amount: &str) -> (r: String)
    ensures
        r@ == payload_for_side_spec(side_upper@, ticker@, amount@),
{
    let side = side_upper.to_owned();
    if side == "BUY".to_owned() {
        let mut p = "{\"execution\":{\"freeze\":{\"type\":\"AMOUNT\",\"value\":\"".to_owned();
        p.append(amount);
        p.append("\"},\"timeInForce\":{\"type\":\"IMMEDIATE_OR_CANCEL\"},\"type\":\"MARKET\"},\"market\":\"");
        p.append(ticker);
        p.append("-NOK");
        p.append("\",\"quantity\":\"1\",\"side\":\"BUY\"}");
        proof {
            assert(p@ =~= buy_payload_spec(ticker@, amount@));
        }
        p
    } else if side == "SELL".to_owned() {
        let mut p =
            "{\"execution\":{\"timeInForce\":{\"type\":\"IMMEDIATE_OR_CANCEL\"},\"type\":\"MARKET\"},\"market\":\"".to_owned();
        p.append(ticker);
        p.append("-NOK");
        p.append("\",\"quantity\":\"");
        p.append(amount);
        p.append("\",\"side\":\"SELL\"}");
        proof {
            assert(p@ =~= sell_payload_spec(ticker@, amount@));
        }
        p
    } else {
        "{}".to_owned()
    }
}

/// Build the order payload for a raw side string: the side is
/// case-normalized to uppercase before the shape is chosen.
pub fn order_payload(side: &str, ticker: &str, amount: &str) -> (r: String)
    ensures
        r@ == payload_for_side_spec(upper_of(side@), ticker@, amount@),
{
    let side_upper = to_upper(side);
    payload_for_side(side_upper.as_str(), ticker, amount)
}

/// Whether an HTTP status is in the success class.
pub open spec fn is_success_status(status: u16) -> bool {
    200 <= status < 300
}

/// What came of submitting an order: accepted, or rejected with the
/// status and the raw response body kept for diagnostics.
#[derive(Clone, Debug, PartialEq)]
pub enum OrderOutcome {
    Accepted,
    Rejected { status: u16, body: String },
}

impl OrderOutcome {
    /// Whether the order was accepted.
    pub fn accepted(&self) -> (r: bool)
        ensures
            r == (self is Accepted),
    {
        match self {
            OrderOutcome::Accepted => true,
            OrderOutcome::Rejected { .. } => false,
        }
    }
}

/// Classify an order submission by HTTP status class alone: any status
/// from 200 to 299 is acceptance, anything else is rejection, with the
/// raw response body carried along for diagnostics.
pub fn order_outcome(status: u16, body: String) -> (r: OrderOutcome)
    ensures
        is_success_status(status) ==> r == OrderOutcome::Accepted,
        !is_success_status(status) ==> (r matches OrderOutcome::Rejected { status: st, body: b }
            && st == status && b@ == body@),
{
    if 200 <= status && status < 300 {
        OrderOutcome::Accepted
    } else {
        OrderOutcome::Rejected { status, body }
    }
}

/// The realized fill of an order: creation time, fee, price and
/// quantity as exact decimals, and the cost recomputed as price times
/// quantity, never trusted from upstream.
#[derive(Clone, Debug, PartialEq)]
pub struct Order {
    pub created: String,
    pub fee: Decimal,
    pub price: Decimal,
    pub quantity: Decimal,
    pub cost: Decimal,
}

/// The length of the top-level JSON array in `s`, when `s` parses to
/// one: a function of the text alone.
pub uninterp spec fn orders_len_of(s: Seq<char>) -> Option<nat>;

/// Relies on serde_json::from_str and Value::as_array: the length of
/// the top-level JSON array of a listing body, named by
/// `orders_len_of`; neither panics, and the result depends on the body
/// text alone.
#[verifier::external_body]
fn orders_count(body: &str) -> (r: Option<usize>)
    ensures
        match r {
            Some(n) => json_ok(body@) && orders_len_of(body@) == Some(n as nat),
            None => !json_ok(body@) || orders_len_of(body@) is None,
        },
{
    let v: serde_json::Value = serde_json::from_str(body).ok()?;
    let n = v.as_array()?.len();
    Some(n)
}

/// The `id` string field of the first element of the top-level JSON
/// array in `s`, when it is there: a function of the text alone.
pub uninterp spec fn first_id_of(s: Seq<char>) -> Option<Seq<char>>;

/// Relies on serde_json::from_str, Value::get and Value::as_str: the
/// `id` string field of a listing's first element, named by
/// `first_id_of`; none of them panics, and the result depends on the
/// body text alone.
#[verifier::external_body]
fn listing_first_id(body: &str) -> (r: Option<String>)
    ensures
        match r {
            Some(t) => json_ok(body@) && first_id_of(body@) == Some(t@),
            None => !json_ok(body@) || first_id_of(body@) is None,
        },
{
    let v: serde_json::Value = serde_json::from_str(body).ok()?;
    Some(v.get(0)?.get("id")?.as_str()?.to_owned())
}

/// The length of the `fills` array of the JSON document in `s`, when
/// `s` parses and `fills` is an array: a function of the text alone.
pub uninterp spec fn fills_len_of(s: Seq<char>) -> Option<nat>;

/// Relies on serde_json::from_str, Value::get and Value::as_array: the
/// length of a details body's `fills` array, named by `fills_len_of`;
/// none of them panics, and the result depends on the body text alone.
#[verifier::external_body]
fn fills_count(body: &str) -> (r: Option<usize>)
    ensures
        match r {
            Some(n) => json_ok(body@) && fills_len_of(body@) == Some(n as nat),
            None => !json_ok(body@) || fills_len_of(body@) is None,
        },
{
    let v: serde_json::Value = serde_json::from_str(body).ok()?;
    let n = v.get("fills")?.as_array()?.len();
    Some(n)
}

/// The `createdAt`, `fee`, `price` and `quantity` string fields of
/// `fills[0]` of the JSON document in `s`, when all four are there: a
/// function of the text alone.
pub uninterp spec fn first_fill_of(s: Seq<char>) -> Option<
    (Seq<char>, Seq<char>, Seq<char>, Seq<char>),
>;

/// Relies on serde_json::from_str, Value::get and Value::as_str: the
/// four string fields of a details body's first fill, named by
/// `first_fill_of`; none of them panics, and the result depends on the
/// body text alone.
#[verifier::external_body]
fn first_fill_fields(body: &str) -> (r: Option<(String, String, String, String)>)
    ensures
        match r {
            Some(f) => json_ok(body@) && first_fill_of(body@) == Some((f.0@, f.1@, f.2@, f.3@)),
            None => !json_ok(body@) || first_fill_of(body@) is None,
        },
{
    let v: serde_json::Value = serde_json::from_str(body).ok()?;
    let fill = v.get("fills")?.get(0)?;
    let created = fill.get("createdAt")?.as_str()?.to_owned();
    let fee = fill.get("fee")?.as_str()?.to_owned();
    let price = fill.get("price")?.as_str()?.to_owned();
    let quantity = fill.get("quantity")?.as_str()?.to_owned();
    Some((created, fee, price, quantity))
}

impl Order {
    /// Build an order fill from the string-encoded fields of a fill
    /// record. Succeeds exactly when fee, price and quantity parse as
    /// decimal numerals that fit, and the cost scale fits; the cost is
    /// always price times quantity.
    pub fn from_fill_fields(created: &str, fee: &str, price: &str, quantity: &str) -> (r: Result<
        Order,
        ClientError,
    >)
        ensures
            match r {
                Ok(o) => {
                    &&& dec_valid(fee@) && dec_m(fee@) <= u64::MAX
                    &&& dec_valid(price@) && dec_m(price@) <= u64::MAX
                    &&& dec_valid(quantity@) && dec_m(quantity@) <= u64::MAX
                    &&& o.created@ == created@
                    &&& o.fee.m == dec_m(fee@) && o.fee.s == dec_scale(fee@)
                    &&& o.price.m == dec_m(price@) && o.price.s == dec_scale(price@)
                    &&& o.quantity.m == dec_m(quantity@) && o.quantity.s == dec_scale(quantity@)
                    &&& o.cost.m == o.price.m * o.quantity.m
                    &&& o.cost.s == o.price.s + o.quantity.s
                },
                Err(e) => {
                    &&& e == ClientError::Parse
                    &&& {
                        ||| !(dec_valid(fee@) && dec_m(fee@) <= u64::MAX)
                        ||| !(dec_valid(price@) && dec_m(price@) <= u64::MAX)
                        ||| !(dec_valid(quantity@) && dec_m(quantity@) <= u64::MAX)
                        ||| dec_scale(price@) + dec_scale(quantity@) > u64::MAX
                    }
                },
            },
    {
        let fee_d = match Decimal::parse(fee) {
            Ok(d) => d,
            Err(e) => {
                return Err(e);
            },
        };
        let price_d = match Decimal::parse(price) {
            Ok(d) => d,
            Err(e) => {
                return Err(e);
            },
        };
        let quantity_d = match Decimal::parse(quantity) {
            Ok(d) => d,
            Err(e) => {
                return Err(e);
            },
        };
        let cost = match price_d.checked_mul(&quantity_d) {
            Some(c) => c,
            None => {
                proof {
                    vstd::arithmetic::mul::lemma_mul_upper_bound(
                        price_d.m as int,
                        u64::MAX as int,
                        quantity_d.m as int,
                        u64::MAX as int,
                    );
                }
                return Err(ClientError::Parse);
            },
        };
        Ok(
            Order {
                created: created.to_owned(),
                fee: fee_d,
                price: price_d,
                quantity: quantity_d,
                cost,
            },
        )
    }

    /// Read the id of the most recent order out of the body of an
    /// order-listing response: the `id` of the JSON array's first
    /// element, which succeeds exactly when it is there. Malformed
    /// JSON gives the decode error; a body that is not an array, or
    /// whose first element has no string id, gives the protocol error;
    /// an empty listing gives the not-found error.
    pub fn first_order_id(body: &str) -> (r: Result<String, ClientError>)
        ensures
            match r {
                Ok(id) => json_ok(body@) && first_id_of(body@) == Some(id@),
                Err(e) => {
                    &&& (e == ClientError::Decode <==> !json_ok(body@))
                    &&& (e == ClientError::NotFound <==> json_ok(body@) && first_id_of(body@)
                        is None && orders_len_of(body@) == Some(0 as nat))
                    &&& (e == ClientError::Protocol <==> json_ok(body@) && first_id_of(body@)
                        is None && orders_len_of(body@) != Some(0 as nat))
                    &&& (e == ClientError::Decode || e == ClientError::Protocol || e
                        == ClientError::NotFound)
                },
            },
    {
        match listing_first_id(body) {
            Some(id) => Ok(id),
            None => {
                if !json_valid(body) {
                    return Err(ClientError::Decode);
                }
                match orders_count(body) {
                    Some(n) => {
                        if n == 0 {
                            Err(ClientError::NotFound)
                        } else {
                            Err(ClientError::Protocol)
                        }
                    },
                    None => Err(ClientError::Protocol),
                }
            },
        }
    }

    /// Read the first fill out of the body of an order-details
    /// response and build the order from it: success exactly when the
    /// fill is there, its fields as `from_fill_fields` states them,
    /// the cost recomputed as price times quantity. Malformed JSON
    /// gives the decode error; a missing or malformed fills array, or
    /// a fill missing a string field, gives the protocol error; an
    /// empty fills array gives the not-found error, never an unchecked
    /// crash; a fill field that is not a numeral gives the parse error.
    pub fn from_details_response(body: &str) -> (r: Result<Order, ClientError>)
        ensures
            match r {
                Ok(o) => json_ok(body@) && (first_fill_of(body@) matches Some(f) && {
                    &&& o.created@ == f.0
                    &&& dec_valid(f.1) && dec_m(f.1) <= u64::MAX && o.fee.m == dec_m(f.1)
                        && o.fee.s == dec_scale(f.1)
                    &&& dec_valid(f.2) && dec_m(f.2) <= u64::MAX && o.price.m == dec_m(f.2)
                        && o.price.s == dec_scale(f.2)
                    &&& dec_valid(f.3) && dec_m(f.3) <= u64::MAX && o.quantity.m == dec_m(f.3)
                        && o.quantity.s == dec_scale(f.3)
                    &&& o.cost.m == o.price.m * o.quantity.m
                    &&& o.cost.s == o.price.s + o.quantity.s
                }),
                Err(e) => {
                    &&& (e == ClientError::Decode <==> !json_ok(body@))
                    &&& (e == ClientError::NotFound <==> json_ok(body@) && first_fill_of(body@)
                        is None && fills_len_of(body@) == Some(0 as nat))
                    &&& (e == ClientError::Protocol <==> json_ok(body@) && first_fill_of(body@)
                        is None && fills_len_of(body@) != Some(0 as nat))
                    &&& (e == ClientError::Parse <==> json_ok(body@) && (first_fill_of(body@)
                        matches Some(f) && {
                        ||| !(dec_valid(f.1) && dec_m(f.1) <= u64::MAX)
                        ||| !(dec_valid(f.2) && dec_m(f.2) <= u64::MAX)
                        ||| !(dec_valid(f.3) && dec_m(f.3) <= u64::MAX)
                        ||| dec_scale(f.2) + dec_scale(f.3) > u64::MAX
                    }))
                    &&& (e == ClientError::Decode || e == ClientError::Protocol || e
                        == ClientError::NotFound || e == ClientError::Parse)
                },
            },
    {
        match first_fill_fields(body) {
            Some(fields) => {
                let (created, fee, price, quantity) = fields;
                Order::from_fill_fields(
                    created.as_str(),
                    fee.as_str(),
                    price.as_str(),
                    quantity.as_str(),
                )
            },
            None => {
                if !json_valid(body) {
                    return Err(ClientError::Decode);
                }
                match fills_count(body) {
                    Some(n) => {
                        if n == 0 {
                            Err(ClientError::NotFound)
                        } else {
                            Err(ClientError::Protocol)
                        }
                    },
                    None => Err(ClientError::Protocol),
                }
            },
        }
    }
}

} // verus!
