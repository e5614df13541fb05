//! The market-data channel's client side: connection URLs, the private
//! stream's authentication content, subscription frames and heartbeat
//! frames, and the managers that hold the public and private endpoints.
//!
//! Sockets are the caller's concern; every text this module hands out is
//! specified exactly.
use vstd::prelude::*;

use crate::error::StrategyError;
use crate::sign::dec_of;
use crate::sign::is_json_safe;
use crate::sign::json_safe;
use crate::sign::keccak256;
use crate::sign::keccak256_of;
use crate::sign::u64_to_string;

verus! {

/// A subscribe request for one channel.
pub open spec fn spec_subscribe_frame(channel: Seq<char>) -> Seq<char> {
    "{\"type\":\"subscribe\",\"channel\":\""@ + channel + "\"}"@
}

/// An unsubscribe request for one channel.
pub open spec fn spec_unsubscribe_frame(channel: Seq<char>) -> Seq<char> {
    "{\"type\":\"unsubscribe\",\"channel\":\""@ + channel + "\"}"@
}

/// The reply to a server heartbeat, echoing its timestamp.
pub open spec fn spec_pong_frame(time: Seq<char>) -> Seq<char> {
    "{\"type\":\"pong\",\"time\":\""@ + time + "\"}"@
}

/// The application-level latency ping with the current timestamp.
pub open spec fn spec_ping_frame(ts: nat) -> Seq<char> {
    "{\"type\":\"ping\",\"time\":\""@ + dec_of(ts) + "\"}"@
}

/// The 24-hour ticker channel of one contract.
pub open spec fn spec_ticker_channel(id: Seq<char>) -> Seq<char> {
    "ticker."@ + id
}

/// The order-book depth channel of one contract.
pub open spec fn spec_depth_channel(id: Seq<char>, depth: nat) -> Seq<char> {
    "depth."@ + id + "."@ + dec_of(depth)
}

/// The candle channel of one contract for a price type and interval.
pub open spec fn spec_kline_channel(
    price_type: Seq<char>,
    id: Seq<char>,
    interval: Seq<char>,
) -> Seq<char> {
    "kline."@ + price_type + "."@ + id + "."@ + interval
}

/// The recent-trades channel of one contract.
pub open spec fn spec_trades_channel(id: Seq<char>) -> Seq<char> {
    "trades."@ + id
}

/// What the private stream's authentication signs: timestamp, method and
/// the account-qualified path.
pub open spec fn spec_auth_content(ts: nat, account_id: nat) -> Seq<char> {
    dec_of(ts) + "GET"@ + "/api/v1/private/ws?accountId="@ + dec_of(account_id)
}

/// Build the reply to a server heartbeat.
pub fn pong_frame(time: &str) -> (r: String)
    requires
        json_safe(time@),
    ensures
        r@ == spec_pong_frame(time@),
{
    let mut r = String::from_str("{\"type\":\"pong\",\"time\":\"");
    r.append(time);
    r.append("\"}");
    proof {
        assert(r@ =~= spec_pong_frame(time@));
    }
    r
}

/// Build the application-level latency ping for a timestamp.
pub fn ping_frame(timestamp_millis: u64) -> (r: String)
    ensures
        r@ == spec_ping_frame(timestamp_millis as nat),
{
    let mut r = String::from_str("{\"type\":\"ping\",\"time\":\"");
    let ts = u64_to_string(timestamp_millis);
    r.append(ts.as_str());
    r.append("\"}");
    proof {
        assert(r@ =~= spec_ping_frame(timestamp_millis as nat));
    }
    r
}

/// One endpoint of the exchange's stream API, public market data or the
/// private account stream.
pub struct EdgeXWebSocketClient {
    pub base_url: String,
    pub account_id: Option<u64>,
    pub stark_private_key: Option<String>,
    pub is_private: bool,
}

impl EdgeXWebSocketClient {
    /// The public market-data endpoint.
    pub fn new_public(testnet: bool) -> (c: Self)
        ensures
            !c.is_private,
            c.account_id is None,
            c.stark_private_key is None,
            testnet ==> c.base_url@ == "wss://quote-testnet.edgex.exchange/api/v1/public/ws"@,
            !testnet ==> c.base_url@ == "wss://quote.edgex.exchange/api/v1/public/ws"@,
    {
        let base_url = if testnet {
            String::from_str("wss://quote-testnet.edgex.exchange/api/v1/public/ws")
        } else {
            String::from_str("wss://quote.edgex.exchange/api/v1/public/ws")
        };
        EdgeXWebSocketClient {
            base_url,
            account_id: None,
            stark_private_key: None,
            is_private: false,
        }
    }

    /// The private account-event endpoint for one account.
    pub fn new_private(account_id: u64, stark_private_key: String, testnet: bool) -> (c: Self)
        ensures
            c.is_private,
            c.account_id == Some(account_id),
            c.stark_private_key matches Some(k) && k@ == stark_private_key@,
            testnet ==> c.base_url@ == "wss://quote-testnet.edgex.exchange/api/v1/private/ws"@,
            !testnet ==> c.base_url@ == "wss://quote.edgex.exchange/api/v1/private/ws"@,
    {
        let base_url = if testnet {
            String::from_str("wss://quote-testnet.edgex.exchange/api/v1/private/ws")
        } else {
            String::from_str("wss://quote.edgex.exchange/api/v1/private/ws")
        };
        EdgeXWebSocketClient {
            base_url,
            account_id: Some(account_id),
            stark_private_key: Some(stark_private_key),
            is_private: true,
        }
    }

    /// The URL to open: the endpoint with a timestamp, and on the private
    /// stream the account id. A private client without an account id is
    /// rejected.
    pub fn connect_url(&self, timestamp: u64) -> (r: Result<String, StrategyError>)
        ensures
            r is Err <==> (self.is_private && self.account_id is None),
            !self.is_private ==> (r matches Ok(u) && u@ == self.base_url@ + "?timestamp="@
                + dec_of(timestamp as nat)),
            (self.is_private && self.account_id is Some) ==> (r matches Ok(u)
                && self.account_id matches Some(id) && u@ == self.base_url@ + "?accountId="@
                + dec_of(id as nat) + "&timestamp="@ + dec_of(timestamp as nat)),
    {
        let ts = u64_to_string(timestamp);
        if self.is_private {
            match self.account_id {
                None => Err(
                    StrategyError::TradingError(
                        String::from_str("a private stream needs an account id"),
                    ),
                ),
                Some(id) => {
                    let mut u = self.base_url.clone();
                    u.append("?accountId=");
                    let ids = u64_to_string(id);
                    u.append(ids.as_str());
                    u.append("&timestamp=");
                    u.append(ts.as_str());
                    proof {
                        assert(u@ =~= self.base_url@ + "?accountId="@ + dec_of(id as nat)
                            + "&timestamp="@ + dec_of(timestamp as nat));
                    }
                    Ok(u)
                },
            }
        } else {
            let mut u = self.base_url.clone();
            u.append("?timestamp=");
            u.append(ts.as_str());
            proof {
                assert(u@ =~= self.base_url@ + "?timestamp="@ + dec_of(timestamp as nat));
            }
            Ok(u)
        }
    }

    /// The Keccak-256 hash of the private stream's signing content; what
    /// a Stark signature would be computed over. Rejected on a public
    /// client or one without an account id.
    pub fn connect_auth_hash(&self, timestamp: u64) -> (r: Result<Vec<u8>, StrategyError>)
        ensures
            r is Err <==> (!self.is_private || self.account_id is None),
            r matches Ok(h) ==> (self.account_id matches Some(id) && h@ == keccak256_of(
                spec_auth_content(timestamp as nat, id as nat),
            ) && h@.len() == 32),
    {
        if !self.is_private {
            return Err(
                StrategyError::TradingError(
                    String::from_str("only the private stream authenticates"),
                ),
            );
        }
        match self.account_id {
            None => Err(
                StrategyError::TradingError(
                    String::from_str("a private stream needs an account id"),
                ),
            ),
            Some(id) => {
                let mut content = u64_to_string(timestamp);
                content.append("GET");
                content.append("/api/v1/private/ws?accountId=");
                let ids = u64_to_string(id);
                content.append(ids.as_str());
                proof {
                    assert(content@ =~= spec_auth_content(timestamp as nat, id as nat));
                }
                Ok(keccak256(content.as_str()))
            },
        }
    }

    /// The subscribe frame for one contract's ticker channel. The private
    /// stream takes no subscriptions, and a contract id must be JSON-safe.
    pub fn subscribe_ticker(&self, contract_id: &str) -> (r: Result<String, StrategyError>)
        ensures
            r is Err <==> (self.is_private || !json_safe(contract_id@)),
            r matches Ok(m) ==> m@ == spec_subscribe_frame(spec_ticker_channel(contract_id@)),
    {
        if self.is_private {
            return Err(
                StrategyError::TradingError(
                    String::from_str("the private stream takes no subscriptions"),
                ),
            );
        }
        if !is_json_safe(contract_id) {
            return Err(
                StrategyError::TradingError(String::from_str("contract id is not JSON-safe")),
            );
        }
        let mut ch = String::from_str("ticker.");
        ch.append(contract_id);
        proof {
            assert(ch@ =~= spec_ticker_channel(contract_id@));
        }
        Ok(subscribe_frame(ch.as_str()))
    }

    /// The subscribe frame for one contract's order-book depth channel.
    pub fn subscribe_depth(&self, contract_id: &str, depth: u32) -> (r: Result<
        String,
        StrategyError,
    >)
        ensures
            r is Err <==> (self.is_private || !json_safe(contract_id@)),
            r matches Ok(m) ==> m@ == spec_subscribe_frame(
                spec_depth_channel(contract_id@, depth as nat),
            ),
    {
        if self.is_private {
            return Err(
                StrategyError::TradingError(
                    String::from_str("the private stream takes no subscriptions"),
                ),
            );
        }
        if !is_json_safe(contract_id) {
            return Err(
                StrategyError::TradingError(String::from_str("contract id is not JSON-safe")),
            );
        }
        let mut ch = String::from_str("depth.");
        ch.append(contract_id);
        ch.append(".");
        let d = u64_to_string(depth as u64);
        ch.append(d.as_str());
        proof {
            assert(ch@ =~= spec_depth_channel(contract_id@, depth as nat));
        }
        Ok(subscribe_frame(ch.as_str()))
    }

    /// The subscribe frame for one contract's candle channel.
    pub fn subscribe_kline(
        &self,
        contract_id: &str,
        price_type: &str,
        interval: &str,
    ) -> (r: Result<String, StrategyError>)
        ensures
            r is Err <==> (self.is_private || !json_safe(contract_id@) || !json_safe(price_type@)
                || !json_safe(interval@)),
            r matches Ok(m) ==> m@ == spec_subscribe_frame(
                spec_kline_channel(price_type@, contract_id@, interval@),
            ),
    {
        if self.is_private {
            return Err(
                StrategyError::TradingError(
                    String::from_str("the private stream takes no subscriptions"),
                ),
            );
        }
        if !is_json_safe(contract_id) || !is_json_safe(price_type) || !is_json_safe(interval) {
            return Err(
                StrategyError::TradingError(
                    String::from_str("channel parts must be JSON-safe"),
                ),
            );
        }
        let mut ch = String::from_str("kline.");
        ch.append(price_type);
        ch.append(".");
        ch.append(contract_id);
        ch.append(".");
        ch.append(interval);
        proof {
            assert(ch@ =~= spec_kline_channel(price_type@, contract_id@, interval@));
        }
        Ok(subscribe_frame(ch.as_str()))
    }

    /// The subscribe frame for one contract's recent-trades channel.
    pub fn subscribe_trades(&self, contract_id: &str) -> (r: Result<String, StrategyError>)
        ensures
            r is Err <==> (self.is_private || !json_safe(contract_id@)),
            r matches Ok(m) ==> m@ == spec_subscribe_frame(spec_trades_channel(contract_id@)),
    {
        if self.is_private {
            return Err(
                StrategyError::TradingError(
                    String::from_str("the private stream takes no subscriptions"),
                ),
            );
        }
        if !is_json_safe(contract_id) {
            return Err(
                StrategyError::TradingError(String::from_str("contract id is not JSON-safe")),
            );
        }
        let mut ch = String::from_str("trades.");
        ch.append(contract_id);
        proof {
            assert(ch@ =~= spec_trades_channel(contract_id@));
        }
        Ok(subscribe_frame(ch.as_str()))
    }

    /// The subscribe frame for the exchange-metadata channel.
    pub fn subscribe_metadata(&self) -> (r: Result<String, StrategyError>)
        ensures
            r is Err <==> self.is_private,
            r matches Ok(m) ==> m@ == spec_subscribe_frame("metadata"@),
    {
        if self.is_private {
            return Err(
                StrategyError::TradingError(
                    String::from_str("the private stream takes no subscriptions"),
                ),
            );
        }
        Ok(subscribe_frame("metadata"))
    }

    /// The unsubscribe frame for one channel.
    pub fn unsubscribe(&self, channel: &str) -> (r: Result<String, StrategyError>)
        ensures
            r is Err <==> (self.is_private || !json_safe(channel@)),
            r matches Ok(m) ==> m@ == spec_unsubscribe_frame(channel@),
    {
        if self.is_private {
            return Err(
                StrategyError::TradingError(
                    String::from_str("the private stream takes no subscriptions"),
                ),
            );
        }
        if !is_json_safe(channel) {
            return Err(
                StrategyError::TradingError(String::from_str("channel is not JSON-safe")),
            );
        }
        let mut r = String::from_str("{\"type\":\"unsubscribe\",\"channel\":\"");
        r.append(channel);
        r.append("\"}");
        proof {
            assert(r@ =~= spec_unsubscribe_frame(channel@));
        }
        Ok(r)
    }
}

/// The subscribe frame for an arbitrary registered channel name, checked
/// for JSON-safety; what a reconnect driver sends for each topic.
pub fn subscribe_frame_text(channel: &str) -> (r: Result<String, StrategyError>)
    ensures
        r is Err <==> !json_safe(channel@),
        r matches Ok(m) ==> m@ == spec_subscribe_frame(channel@),
{
    if !is_json_safe(channel) {
        return Err(
            StrategyError::TradingError(String::from_str("channel is not JSON-safe")),
        );
    }
    Ok(subscribe_frame(channel))
}

/// The subscribe frame for a channel whose name is already JSON-safe.
fn subscribe_frame(channel: &str) -> (r: String)
    ensures
        r@ == spec_subscribe_frame(channel@),
{
    let mut r = String::from_str("{\"type\":\"subscribe\",\"channel\":\"");
    r.append(channel);
    r.append("\"}");
    proof {
        assert(r@ =~= spec_subscribe_frame(channel@));
    }
    r
}

/// A stream of market or account data for a set of contracts.
pub struct RealTimePriceStream {
    pub ws_client: EdgeXWebSocketClient,
    pub contract_ids: Vec<String>,
}

impl RealTimePriceStream {
    /// A public market-data stream over the given contracts.
    pub fn new_public(testnet: bool, contract_ids: Vec<String>) -> (s: Self)
        ensures
            !s.ws_client.is_private,
            s.ws_client.account_id is None,
            testnet ==> s.ws_client.base_url@
                == "wss://quote-testnet.edgex.exchange/api/v1/public/ws"@,
            !testnet ==> s.ws_client.base_url@ == "wss://quote.edgex.exchange/api/v1/public/ws"@,
            s.contract_ids == contract_ids,
    {
        let ws_client = EdgeXWebSocketClient::new_public(testnet);
        RealTimePriceStream { ws_client, contract_ids }
    }

    /// A private account-event stream.
    pub fn new_private(account_id: u64, stark_private_key: String, testnet: bool) -> (s: Self)
        ensures
            s.ws_client.is_private,
            s.ws_client.account_id == Some(account_id),
            s.ws_client.stark_private_key matches Some(k) && k@ == stark_private_key@,
            testnet ==> s.ws_client.base_url@
                == "wss://quote-testnet.edgex.exchange/api/v1/private/ws"@,
            !testnet ==> s.ws_client.base_url@
                == "wss://quote.edgex.exchange/api/v1/private/ws"@,
            s.contract_ids@ == Seq::<String>::empty(),
    {
        let ws_client = EdgeXWebSocketClient::new_private(account_id, stark_private_key, testnet);
        RealTimePriceStream { ws_client, contract_ids: Vec::new() }
    }
}

/// The four market channels subscribed for one contract: its ticker, its
/// 15-level depth, its one-minute last-price candles, and its trades.
pub fn market_topics_for(contract_id: &str) -> (r: Vec<String>)
    ensures
        r@.len() == 4,
        r@[0]@ == spec_ticker_channel(contract_id@),
        r@[1]@ == spec_depth_channel(contract_id@, 15),
        r@[2]@ == spec_kline_channel("LAST_PRICE"@, contract_id@, "MINUTE_1"@),
        r@[3]@ == spec_trades_channel(contract_id@),
{
    let mut ticker = String::from_str("ticker.");
    ticker.append(contract_id);
    let mut depth = String::from_str("depth.");
    depth.append(contract_id);
    depth.append(".");
    let d = u64_to_string(15);
    depth.append(d.as_str());
    let mut kline = String::from_str("kline.");
    kline.append("LAST_PRICE");
    kline.append(".");
    kline.append(contract_id);
    kline.append(".");
    kline.append("MINUTE_1");
    let mut trades = String::from_str("trades.");
    trades.append(contract_id);
    proof {
        assert(ticker@ =~= spec_ticker_channel(contract_id@));
        assert(depth@ =~= spec_depth_channel(contract_id@, 15));
        assert(kline@ =~= spec_kline_channel("LAST_PRICE"@, contract_id@, "MINUTE_1"@));
        assert(trades@ =~= spec_trades_channel(contract_id@));
    }
    let mut r: Vec<String> = Vec::new();
    r.push(ticker);
    r.push(depth);
    r.push(kline);
    r.push(trades);
    r
}

/// Both stream endpoints and the contracts they should cover.
pub struct WebSocketManager {
    pub public_client: Option<EdgeXWebSocketClient>,
    pub private_client: Option<EdgeXWebSocketClient>,
    pub contract_ids: Vec<String>,
}

impl WebSocketManager {
    /// A manager with the public endpoint configured and no private one.
    pub fn new(testnet: bool) -> (m: Self)
        ensures
            m.public_client matches Some(c) && !c.is_private && c.account_id is None
                && c.stark_private_key is None && (testnet ==> c.base_url@
                == "wss://quote-testnet.edgex.exchange/api/v1/public/ws"@) && (!testnet
                ==> c.base_url@ == "wss://quote.edgex.exchange/api/v1/public/ws"@),
            m.private_client is None,
            m.contract_ids@ == Seq::<String>::empty(),
    {
        WebSocketManager {
            public_client: Some(EdgeXWebSocketClient::new_public(testnet)),
            private_client: None,
            contract_ids: Vec::new(),
        }
    }

    /// Configure the private endpoint with the account's credentials.
    pub fn with_private(&mut self, account_id: u64, stark_private_key: String, testnet: bool)
        ensures
            final(self).private_client matches Some(c) && c.is_private && c.account_id == Some(
                account_id,
            ) && (c.stark_private_key matches Some(k) && k@ == stark_private_key@) && (testnet
                ==> c.base_url@ == "wss://quote-testnet.edgex.exchange/api/v1/private/ws"@) && (
            !testnet ==> c.base_url@ == "wss://quote.edgex.exchange/api/v1/private/ws"@),
            final(self).public_client == old(self).public_client,
            final(self).contract_ids == old(self).contract_ids,
    {
        self.private_client = Some(
            EdgeXWebSocketClient::new_private(account_id, stark_private_key, testnet),
        );
    }

    /// Add contracts to cover.
    pub fn add_contracts(&mut self, contract_ids: Vec<String>)
        ensures
            final(self).contract_ids@ == old(self).contract_ids@ + contract_ids@,
            final(self).public_client == old(self).public_client,
            final(self).private_client == old(self).private_client,
    {
        let mut more = contract_ids;
        self.contract_ids.append(&mut more);
    }
}

} // verus!
