//! The execution gateway's request side: endpoint paths, deterministic
//! JSON bodies, and the timestamped HMAC signature every private call
//! carries.
//!
//! The network round-trips themselves live outside the library; what is
//! signed and what is sent are built here, exactly.
use vstd::prelude::*;

use crate::error::StrategyError;
use crate::sign::dec_of;
use crate::sign::hex_encode;
use crate::sign::hex_of;
use crate::sign::hmac_sha256;
use crate::sign::hmac_sha256_of;
use crate::sign::json_safe;
use crate::sign::u64_to_string;
use crate::types::Order;
use crate::types::OrderSide;
use crate::types::OrderType;

verus! {

/// What the exchange signs: the decimal timestamp, the method, the
/// endpoint and the body, concatenated.
pub open spec fn spec_sig_message(
    ts: nat,
    method: Seq<char>,
    endpoint: Seq<char>,
    body: Seq<char>,
) -> Seq<char> {
    dec_of(ts) + method + endpoint + body
}

/// The request signature: lowercase hex of the HMAC-SHA256 of the
/// signing message under the account's secret.
pub open spec fn spec_signature(
    secret: Seq<char>,
    ts: nat,
    method: Seq<char>,
    endpoint: Seq<char>,
    body: Seq<char>,
) -> Seq<char> {
    hex_of(hmac_sha256_of(secret, spec_sig_message(ts, method, endpoint, body)))
}

/// The wire text for an order side.
pub open spec fn spec_side_text(side: OrderSide) -> Seq<char> {
    match side {
        OrderSide::Buy => "BUY"@,
        OrderSide::Sell => "SELL"@,
    }
}

/// The wire text for an order type.
pub open spec fn spec_type_text(t: OrderType) -> Seq<char> {
    match t {
        OrderType::Market => "MARKET"@,
        OrderType::Limit => "LIMIT"@,
    }
}

/// A size in size units rendered as contracts with six decimals:
/// the integer part, a point, and the zero-padded fraction.
pub open spec fn spec_quantity_text(q: nat) -> Seq<char> {
    dec_of(q / 1_000_000) + "."@ + dec_of(q % 1_000_000 + 1_000_000).subrange(1, 7)
}

/// The order body: fields in a fixed order, every value a JSON string,
/// the optional price present only on a priced order.
pub open spec fn spec_order_body(order: Order) -> Seq<char> {
    "{\"leverage\":\""@ + dec_of(order.leverage as nat) + "\","@ + (match order.price {
        Some(p) => "\"price\":\""@ + dec_of(p as nat) + "\","@,
        None => Seq::<char>::empty(),
    }) + "\"quantity\":\""@ + spec_quantity_text(order.quantity as nat) + "\",\"side\":\""@
        + spec_side_text(order.side) + "\",\"symbol\":\""@ + order.symbol@ + "\",\"type\":\""@
        + spec_type_text(order.order_type) + "\"}"@
}

/// The leverage body: the two fields, in a fixed order.
pub open spec fn spec_leverage_body(symbol: Seq<char>, leverage: nat) -> Seq<char> {
    "{\"leverage\":\""@ + dec_of(leverage) + "\",\"symbol\":\""@ + symbol + "\"}"@
}

/// The candle-history endpoint with its query.
pub open spec fn spec_klines_endpoint(
    symbol: Seq<char>,
    interval: Seq<char>,
    limit: nat,
) -> Seq<char> {
    "/api/v1/klines?symbol="@ + symbol + "&interval="@ + interval + "&limit="@ + dec_of(limit)
}

/// A decimal rendering of `n + 1_000_000` is exactly seven digits long
/// for any fraction `n` under one million.
proof fn lemma_dec_len_seven(n: nat)
    requires
        1_000_000 <= n < 10_000_000,
    ensures
        dec_of(n).len() == 7,
{
    assert(pow10(0) == 1 && pow10(1) == 10 && pow10(2) == 100 && pow10(3) == 1000 && pow10(4)
        == 10000 && pow10(5) == 100000 && pow10(6) == 1000000 && pow10(7) == 10000000) by {
        reveal_with_fuel(pow10, 8);
    }
    lemma_dec_len_range(n, 6);
}

/// `dec_of` of a number with `k + 1` digits has length `k + 1`.
proof fn lemma_dec_len_range(n: nat, k: nat)
    requires
        k <= 19,
        pow10(k) <= n < pow10((k + 1) as nat),
    ensures
        dec_of(n).len() == k + 1,
    decreases k,
{
    if k == 0 {
    } else {
        vstd::arithmetic::div_mod::lemma_fundamental_div_mod(n as int, 10);
        assert(pow10((k - 1) as nat) <= n / 10 < pow10(k)) by {
            assert(pow10(k) == 10 * pow10((k - 1) as nat));
            assert(pow10((k + 1) as nat) == 10 * pow10(k));
        }
        lemma_dec_len_range(n / 10, (k - 1) as nat);
        assert(n >= 10);
    }
}

/// Powers of ten.
pub open spec fn pow10(k: nat) -> nat
    decreases k,
{
    if k == 0 {
        1
    } else {
        10 * pow10((k - 1) as nat)
    }
}

/// The configured REST gateway: its base URL and the account's
/// credentials. The HTTP transport lives with the caller.
pub struct EdgeXClient {
    pub base_url: String,
    pub api_key: String,
    pub secret_key: String,
}

impl EdgeXClient {
    /// A client against the production or test endpoint.
    pub fn new(api_key: String, secret_key: String, testnet: bool) -> (c: Self)
        ensures
            c.api_key@ == api_key@,
            c.secret_key@ == secret_key@,
            testnet ==> c.base_url@ == "https://testnet.edgex.com"@,
            !testnet ==> c.base_url@ == "https://api.edgex.com"@,
    {
        let base_url = if testnet {
            String::from_str("https://testnet.edgex.com")
        } else {
            String::from_str("https://api.edgex.com")
        };
        EdgeXClient { base_url, api_key, secret_key }
    }

    /// The signature for one request: hex of the HMAC-SHA256, under the
    /// secret key, of timestamp-method-endpoint-body.
    pub fn generate_signature(
        &self,
        timestamp: u64,
        method: &str,
        endpoint: &str,
        body: &str,
    ) -> (r: String)
        ensures
            r@ == spec_signature(
                self.secret_key@,
                timestamp as nat,
                method@,
                endpoint@,
                body@,
            ),
    {
        let mut message = u64_to_string(timestamp);
        message.append(method);
        message.append(endpoint);
        message.append(body);
        proof {
            assert(message@ =~= spec_sig_message(timestamp as nat, method@, endpoint@, body@));
        }
        let digest = hmac_sha256(self.secret_key.as_str(), message.as_str());
        hex_encode(&digest)
    }

    /// Signature for the account-snapshot request.
    pub fn sign_account_request(&self, timestamp: u64) -> (r: String)
        ensures
            r@ == spec_signature(
                self.secret_key@,
                timestamp as nat,
                "GET"@,
                "/api/v1/account"@,
                ""@,
            ),
    {
        self.generate_signature(timestamp, "GET", "/api/v1/account", "")
    }

    /// Signature for an order submission over its exact body text.
    pub fn sign_place_order(&self, timestamp: u64, body: &str) -> (r: String)
        ensures
            r@ == spec_signature(
                self.secret_key@,
                timestamp as nat,
                "POST"@,
                "/api/v1/order"@,
                body@,
            ),
    {
        self.generate_signature(timestamp, "POST", "/api/v1/order", body)
    }

    /// Signature for a leverage change over its exact body text.
    pub fn sign_set_leverage(&self, timestamp: u64, body: &str) -> (r: String)
        ensures
            r@ == spec_signature(
                self.secret_key@,
                timestamp as nat,
                "POST"@,
                "/api/v1/leverage"@,
                body@,
            ),
    {
        self.generate_signature(timestamp, "POST", "/api/v1/leverage", body)
    }
}

/// A size in size units as a contracts string with six decimals.
pub fn quantity_text(q: u64) -> (r: String)
    ensures
        r@ == spec_quantity_text(q as nat),
{
    let whole = u64_to_string(q / 1_000_000);
    let frac = q % 1_000_000;
    let padded = u64_to_string(1_000_000 + frac);
    proof {
        lemma_dec_len_seven((1_000_000 + frac) as nat);
    }
    let digits = padded.as_str().substring_char(1, 7);
    let mut r = whole;
    r.append(".");
    r.append(digits);
    proof {
        assert(r@ =~= spec_quantity_text(q as nat));
    }
    r
}

/// The deterministic JSON body for an order submission. The symbol must
/// be JSON-safe; the caller's adapter rejects one that is not.
pub fn order_body_json(order: &Order) -> (r: Result<String, StrategyError>)
    ensures
        r is Err <==> !json_safe(order.symbol@),
        r matches Ok(body) ==> body@ == spec_order_body(*order),
{
    if !crate::sign::is_json_safe(order.symbol.as_str()) {
        return Err(
            StrategyError::TradingError(String::from_str("symbol is not JSON-safe")),
        );
    }
    let mut r = String::from_str("{\"leverage\":\"");
    let lev = u64_to_string(order.leverage as u64);
    r.append(lev.as_str());
    r.append("\",");
    match order.price {
        Some(p) => {
            r.append("\"price\":\"");
            let pt = u64_to_string(p);
            r.append(pt.as_str());
            r.append("\",");
        },
        None => {},
    }
    r.append("\"quantity\":\"");
    let qt = quantity_text(order.quantity);
    r.append(qt.as_str());
    r.append("\",\"side\":\"");
    match order.side {
        OrderSide::Buy => r.append("BUY"),
        OrderSide::Sell => r.append("SELL"),
    }
    r.append("\",\"symbol\":\"");
    r.append(order.symbol.as_str());
    r.append("\",\"type\":\"");
    match order.order_type {
        OrderType::Market => r.append("MARKET"),
        OrderType::Limit => r.append("LIMIT"),
    }
    r.append("\"}");
    proof {
        assert(r@ =~= spec_order_body(*order));
    }
    Ok(r)
}

/// The deterministic JSON body for a leverage change.
pub fn leverage_body_json(symbol: &str, leverage: u32) -> (r: Result<String, StrategyError>)
    ensures
        r is Err <==> !json_safe(symbol@),
        r matches Ok(body) ==> body@ == spec_leverage_body(symbol@, leverage as nat),
{
    if !crate::sign::is_json_safe(symbol) {
        return Err(
            StrategyError::TradingError(String::from_str("symbol is not JSON-safe")),
        );
    }
    let mut r = String::from_str("{\"leverage\":\"");
    let lev = u64_to_string(leverage as u64);
    r.append(lev.as_str());
    r.append("\",\"symbol\":\"");
    r.append(symbol);
    r.append("\"}");
    proof {
        assert(r@ =~= spec_leverage_body(symbol@, leverage as nat));
    }
    Ok(r)
}

/// The candle-history endpoint for a symbol, timeframe and bar count.
pub fn klines_endpoint(symbol: &str, interval: &str, limit: u32) -> (r: String)
    ensures
        r@ == spec_klines_endpoint(symbol@, interval@, limit as nat),
{
    let mut r = String::from_str("/api/v1/klines?symbol=");
    r.append(symbol);
    r.append("&interval=");
    r.append(interval);
    r.append("&limit=");
    let lim = u64_to_string(limit as u64);
    r.append(lim.as_str());
    proof {
        assert(r@ =~= spec_klines_endpoint(symbol@, interval@, limit as nat));
    }
    r
}

} // verus!
