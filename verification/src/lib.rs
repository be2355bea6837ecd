mod account;
mod decimal;
mod digits;
mod errors;
mod json;
mod orders;
mod response;
mod signing;

pub use account::{
    asset_path_spec, auth_header_spec, bearer_header, bearer_spec, order_path_spec,
    orders_path_spec, token_body_spec, token_path_spec, Account, TokenRequest,
};
pub use decimal::{
    dec_m, dec_scale, dec_valid, digit_val, digits_val, is_digit, lemma_digits_val_dec_digits,
    lemma_valid_decimal_unique, mantissa_digits, render_spec, scale_at, valid_decimal, zeros,
    Decimal,
};
pub use digits::{dec_digits, digit_char, lemma_dec_digits_ascii, u128_to_dec, u64_to_dec};
pub use errors::ClientError;
pub use json::json_ok;
pub use orders::{
    buy_payload_spec, fills_len_of, first_fill_of, first_id_of, is_success_status, market_spec,
    order_outcome, order_payload, orders_len_of, payload_for_side, payload_for_side_spec,
    sell_payload_spec, upper_of, Order, OrderOutcome,
};
pub use response::{available_of, extract_balance, extract_token, token_of};
pub use signing::{
    b64_decode_of, b64_encode_of, canonical_message, hmac_sha256_of, lemma_sign_deterministic,
    sign, signature_of,
};
