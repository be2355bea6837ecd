use vstd::prelude::*;

use crate::decimal::{dec_m, dec_scale, dec_valid, Decimal};
use crate::errors::ClientError;
use crate::json::{json_ok, json_valid};

verus! {

/// The `token` field of the JSON document in `s`, when `s` parses and
/// the field holds a string: a function of the text alone.
pub uninterp spec fn token_of(s: Seq<char>) -> Option<Seq<char>>;

/// Relies on serde_json::from_str, Value::get and Value::as_str: the
/// `token` string field of a JSON body, named by `token_of`; none of
/// them panics, and the result depends on the body text alone.
#[verifier::external_body]
fn token_field(body: &str) -> (r: Option<String>)
    ensures
        match r {
            Some(t) => json_ok(body@) && token_of(body@) == Some(t@),
            None => !json_ok(body@) || token_of(body@) is None,
        },
{
    let v: serde_json::Value = serde_json::from_str(body).ok()?;
    Some(v.get("token")?.as_str()?.to_owned())
}

/// The `balance.available` field of the JSON document in `s`, when `s`
/// parses and the field holds a string: a function of the text alone.
pub uninterp spec fn available_of(s: Seq<char>) -> Option<Seq<char>>;

/// Relies on serde_json::from_str, Value::get and Value::as_str: the
/// `balance.available` string field of a JSON body, named by
/// `available_of`; none of them panics, and the result depends on the
/// body text alone.
#[verifier::external_body]
fn available_field(body: &str) -> (r: Option<String>)
    ensures
        match r {
            Some(t) => json_ok(body@) && available_of(body@) == Some(t@),
            None => !json_ok(body@) || available_of(body@) is None,
        },
{
    let v: serde_json::Value = serde_json::from_str(body).ok()?;
    Some(v.get("balance")?.get("available")?.as_str()?.to_owned())
}

/// Read the bearer token out of the body of a token-issuance response:
/// the `token` field, as a plain string. Succeeds exactly when the
/// field is there; malformed JSON gives the decode error, and a
/// missing or non-string field gives the protocol error instead of an
/// unchecked crash.
pub fn extract_token(body: &str) -> (r: Result<String, ClientError>)
    ensures
        match r {
            Ok(t) => json_ok(body@) && token_of(body@) == Some(t@),
            Err(e) => {
                &&& (e == ClientError::Decode <==> !json_ok(body@))
                &&& (e == ClientError::Protocol <==> json_ok(body@) && token_of(body@) is None)
                &&& (e == ClientError::Decode || e == ClientError::Protocol)
            },
        },
{
    match token_field(body) {
        Some(t) => Ok(t),
        None => {
            if json_valid(body) {
                Err(ClientError::Protocol)
            } else {
                Err(ClientError::Decode)
            }
        },
    }
}

/// Read an asset balance out of the body of a balance response: the
/// exact decimal value of the `balance.available` field. Succeeds
/// exactly when the field is there and parses; malformed JSON gives
/// the decode error, a missing or non-string field the protocol
/// error, and a non-numeric field the parse error.
pub fn extract_balance(body: &str) -> (r: Result<Decimal, ClientError>)
    ensures
        match r {
            Ok(d) => json_ok(body@) && (available_of(body@) matches Some(t) && dec_valid(t)
                && dec_m(t) <= u64::MAX && d.m == dec_m(t) && d.s == dec_scale(t)),
            Err(e) => {
                &&& (e == ClientError::Decode <==> !json_ok(body@))
                &&& (e == ClientError::Protocol <==> json_ok(body@) && available_of(body@)
                    is None)
                &&& (e == ClientError::Parse <==> json_ok(body@) && (available_of(body@) matches
                Some(t) && !(dec_valid(t) && dec_m(t) <= u64::MAX)))
                &&& (e == ClientError::Decode || e == ClientError::Protocol || e
                    == ClientError::Parse)
            },
        },
{
    match available_field(body) {
        Some(text) => match Decimal::parse(text.as_str()) {
            Ok(d) => Ok(d),
            Err(_) => Err(ClientError::Parse),
        },
        None => {
            if json_valid(body) {
                Err(ClientError::Protocol)
            } else {
                Err(ClientError::Decode)
            }
        },
    }
}

} // verus!
