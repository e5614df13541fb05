//! Inbound frame classification: every frame the stream yields is resolved
//! at parse time into one of a closed set of kinds, and a market frame's
//! channel into a topic kind, by exact string comparison.
use vstd::prelude::*;

use crate::strings::str_eq;

verus! {

/// The plain fields of one inbound frame: its type tag, its channel, its
/// heartbeat timestamp and its private event tag, each empty when absent,
/// and whether a content payload is present.
pub struct FrameFields {
    pub msg_type: String,
    pub channel: String,
    pub time: String,
    pub event: String,
    pub has_content: bool,
}

/// What an inbound frame is.
#[derive(Debug, Clone, Copy, PartialEq, Eq, Structural)]
pub enum FrameKind {
    /// A server heartbeat; must be answered at once.
    HeartbeatPing,
    /// The server's answer to our latency ping.
    HeartbeatPong,
    /// A subscription acknowledgment.
    SubscribeAck,
    /// An unsubscription acknowledgment.
    UnsubscribeAck,
    /// An error the server sent; logged, never fatal.
    ServerError,
    /// A market-data payload, dispatched by channel.
    MarketData,
    /// A private account event, dispatched by event tag.
    PrivateEvent,
    /// Anything else; dropped and logged.
    Unknown,
}

/// Which market channel a data frame belongs to.
#[derive(Debug, Clone, Copy, PartialEq, Eq, Structural)]
pub enum TopicKind {
    Ticker,
    Depth,
    Kline,
    Trades,
    Metadata,
    Other,
}

/// The private account events the exchange pushes.
#[derive(Debug, Clone, Copy, PartialEq, Eq, Structural)]
pub enum PrivateEventKind {
    AccountUpdate,
    OrderUpdate,
    PositionUpdate,
    DepositUpdate,
    WithdrawUpdate,
    FundingSettlement,
    StartLiquidating,
    FinishLiquidating,
    Other,
}

/// `p` is a prefix of `s`.
pub open spec fn spec_has_prefix(s: Seq<char>, p: Seq<char>) -> bool {
    p.len() <= s.len() && s.subrange(0, p.len() as int) == p
}

/// The kind of a frame, from its type tag alone.
pub open spec fn spec_frame_kind(t: Seq<char>) -> FrameKind {
    if t == "ping"@ {
        FrameKind::HeartbeatPing
    } else if t == "pong"@ {
        FrameKind::HeartbeatPong
    } else if t == "subscribed"@ {
        FrameKind::SubscribeAck
    } else if t == "unsubscribed"@ {
        FrameKind::UnsubscribeAck
    } else if t == "error"@ {
        FrameKind::ServerError
    } else if t == "payload"@ || t == "quote-event"@ {
        FrameKind::MarketData
    } else if t == "trade-event"@ {
        FrameKind::PrivateEvent
    } else {
        FrameKind::Unknown
    }
}

/// The topic of a market channel name, by its prefix.
pub open spec fn spec_topic_kind(ch: Seq<char>) -> TopicKind {
    if spec_has_prefix(ch, "ticker."@) {
        TopicKind::Ticker
    } else if spec_has_prefix(ch, "depth."@) {
        TopicKind::Depth
    } else if spec_has_prefix(ch, "kline."@) {
        TopicKind::Kline
    } else if spec_has_prefix(ch, "trades."@) {
        TopicKind::Trades
    } else if ch == "metadata"@ {
        TopicKind::Metadata
    } else {
        TopicKind::Other
    }
}

/// The kind of a private account event, from its tag.
pub open spec fn spec_private_event_kind(e: Seq<char>) -> PrivateEventKind {
    if e == "ACCOUNT_UPDATE"@ {
        PrivateEventKind::AccountUpdate
    } else if e == "ORDER_UPDATE"@ {
        PrivateEventKind::OrderUpdate
    } else if e == "POSITION_UPDATE"@ {
        PrivateEventKind::PositionUpdate
    } else if e == "DEPOSIT_UPDATE"@ {
        PrivateEventKind::DepositUpdate
    } else if e == "WITHDRAW_UPDATE"@ {
        PrivateEventKind::WithdrawUpdate
    } else if e == "FUNDING_SETTLEMENT"@ {
        PrivateEventKind::FundingSettlement
    } else if e == "START_LIQUIDATING"@ {
        PrivateEventKind::StartLiquidating
    } else if e == "FINISH_LIQUIDATING"@ {
        PrivateEventKind::FinishLiquidating
    } else {
        PrivateEventKind::Other
    }
}

/// `p` is a prefix of `s`, decided exactly.
pub fn str_has_prefix(s: &str, p: &str) -> (r: bool)
    ensures
        r == spec_has_prefix(s@, p@),
{
    let sn = s.unicode_len();
    let pn = p.unicode_len();
    if pn > sn {
        return false;
    }
    let head = s.substring_char(0, pn);
    str_eq(head, p)
}

/// Classify a frame by its type tag.
pub fn classify_frame(msg_type: &str) -> (r: FrameKind)
    ensures
        r == spec_frame_kind(msg_type@),
{
    if str_eq(msg_type, "ping") {
        FrameKind::HeartbeatPing
    } else if str_eq(msg_type, "pong") {
        FrameKind::HeartbeatPong
    } else if str_eq(msg_type, "subscribed") {
        FrameKind::SubscribeAck
    } else if str_eq(msg_type, "unsubscribed") {
        FrameKind::UnsubscribeAck
    } else if str_eq(msg_type, "error") {
        FrameKind::ServerError
    } else if str_eq(msg_type, "payload") || str_eq(msg_type, "quote-event") {
        FrameKind::MarketData
    } else if str_eq(msg_type, "trade-event") {
        FrameKind::PrivateEvent
    } else {
        FrameKind::Unknown
    }
}

/// Classify a market channel name by its prefix.
pub fn classify_channel(channel: &str) -> (r: TopicKind)
    ensures
        r == spec_topic_kind(channel@),
{
    if str_has_prefix(channel, "ticker.") {
        TopicKind::Ticker
    } else if str_has_prefix(channel, "depth.") {
        TopicKind::Depth
    } else if str_has_prefix(channel, "kline.") {
        TopicKind::Kline
    } else if str_has_prefix(channel, "trades.") {
        TopicKind::Trades
    } else if str_eq(channel, "metadata") {
        TopicKind::Metadata
    } else {
        TopicKind::Other
    }
}

/// Classify a private account event by its tag.
pub fn classify_private_event(event: &str) -> (r: PrivateEventKind)
    ensures
        r == spec_private_event_kind(event@),
{
    if str_eq(event, "ACCOUNT_UPDATE") {
        PrivateEventKind::AccountUpdate
    } else if str_eq(event, "ORDER_UPDATE") {
        PrivateEventKind::OrderUpdate
    } else if str_eq(event, "POSITION_UPDATE") {
        PrivateEventKind::PositionUpdate
    } else if str_eq(event, "DEPOSIT_UPDATE") {
        PrivateEventKind::DepositUpdate
    } else if str_eq(event, "WITHDRAW_UPDATE") {
        PrivateEventKind::WithdrawUpdate
    } else if str_eq(event, "FUNDING_SETTLEMENT") {
        PrivateEventKind::FundingSettlement
    } else if str_eq(event, "START_LIQUIDATING") {
        PrivateEventKind::StartLiquidating
    } else if str_eq(event, "FINISH_LIQUIDATING") {
        PrivateEventKind::FinishLiquidating
    } else {
        PrivateEventKind::Other
    }
}

/// What parsing one frame text yields. Stated only by name: the parse
/// depends on the text alone, so the same text gives the same fields on
/// every machine.
pub uninterp spec fn frame_fields_of(text: Seq<char>) -> Option<FrameFields>;

/// Relies on `serde_json::from_str` to parse one inbound frame. Hands back
/// the frame's type, channel, time and content-event fields as plain
/// strings, empty where absent, and whether a content payload is present;
/// a text that does not parse yields nothing. The fields' values are
/// stated by name alone.
#[verifier::external_body]
pub(crate) fn parse_frame(text: &str) -> (r: Option<FrameFields>)
    ensures
        r == frame_fields_of(text@),
{
    let v: serde_json::Value = serde_json::from_str(text).ok()?;
    let msg_type = v.get("type").and_then(|t| t.as_str()).unwrap_or("").to_string();
    let channel = v.get("channel").and_then(|c| c.as_str()).unwrap_or("").to_string();
    let time = v.get("time").and_then(|t| t.as_str()).unwrap_or("").to_string();
    let event = v.get("content").and_then(|c| c.get("event")).and_then(|e| e.as_str()).unwrap_or(
        "",
    ).to_string();
    let has_content = v.get("content").is_some();
    Some(FrameFields { msg_type, channel, time, event, has_content })
}

} // verus!
