use edgex_hft::channel::frame_event_of_text;
use edgex_hft::channel::ChannelAction;
use edgex_hft::channel::ChannelEvent;
use edgex_hft::channel::ChannelState;
use edgex_hft::channel::MarketChannel;
use edgex_hft::frames::classify_channel;
use edgex_hft::frames::classify_frame;
use edgex_hft::frames::classify_private_event;
use edgex_hft::frames::FrameKind;
use edgex_hft::frames::PrivateEventKind;
use edgex_hft::frames::TopicKind;

fn subscribed_channels(actions: &[ChannelAction]) -> Vec<String> {
    actions
        .iter()
        .filter_map(|a| match a {
            ChannelAction::SendSubscribe(t) => Some(t.clone()),
            _ => None,
        })
        .collect()
}

#[test]
fn a_reconnect_restores_every_subscription_before_dispatch() {
    let mut c = MarketChannel::new(false);
    c.add_topic("ticker.10000001".to_string());
    c.add_topic("trades.10000001".to_string());

    let actions = c.step(ChannelEvent::Start);
    assert!(matches!(actions[0], ChannelAction::Connect));
    let actions = c.step(ChannelEvent::Opened);
    assert_eq!(
        subscribed_channels(&actions),
        vec!["ticker.10000001".to_string(), "trades.10000001".to_string()]
    );
    assert_eq!(c.state, ChannelState::Subscribing);

    // No data frame is dispatched before both topics are acknowledged.
    let actions = c.step(ChannelEvent::DataFrame("ticker.10000001".to_string()));
    assert!(matches!(actions[0], ChannelAction::DropFrame));
    let _ = c.step(ChannelEvent::SubscribedAck("ticker.10000001".to_string()));
    assert_eq!(c.state, ChannelState::Subscribing);
    let _ = c.step(ChannelEvent::SubscribedAck("trades.10000001".to_string()));
    assert_eq!(c.state, ChannelState::Streaming);
    let actions = c.step(ChannelEvent::DataFrame("ticker.10000001".to_string()));
    assert!(matches!(&actions[0], ChannelAction::Dispatch(ch) if ch == "ticker.10000001"));

    // An abrupt close: the channel backs off, reconnects, and must
    // re-subscribe every previously active topic before the first
    // post-reconnect data frame is dispatched.
    let actions = c.step(ChannelEvent::TransportError);
    assert_eq!(c.state, ChannelState::Reconnecting);
    assert!(matches!(actions[0], ChannelAction::Backoff(1000)));
    let _ = c.step(ChannelEvent::Start);
    let actions = c.step(ChannelEvent::Opened);
    assert_eq!(
        subscribed_channels(&actions),
        vec!["ticker.10000001".to_string(), "trades.10000001".to_string()]
    );
    assert_eq!(c.state, ChannelState::Subscribing);
    let actions = c.step(ChannelEvent::DataFrame("trades.10000001".to_string()));
    assert!(matches!(actions[0], ChannelAction::DropFrame));
    let _ = c.step(ChannelEvent::SubscribedAck("trades.10000001".to_string()));
    let _ = c.step(ChannelEvent::SubscribedAck("ticker.10000001".to_string()));
    assert_eq!(c.state, ChannelState::Streaming);
    let actions = c.step(ChannelEvent::DataFrame("trades.10000001".to_string()));
    assert!(matches!(&actions[0], ChannelAction::Dispatch(ch) if ch == "trades.10000001"));
}

#[test]
fn a_private_channel_streams_without_subscriptions() {
    let mut c = MarketChannel::new(true);
    let _ = c.step(ChannelEvent::Start);
    let actions = c.step(ChannelEvent::Opened);
    assert!(actions.is_empty());
    assert_eq!(c.state, ChannelState::Streaming);
    let actions = c.step(ChannelEvent::PrivateFrame("ACCOUNT_UPDATE".to_string()));
    assert!(matches!(&actions[0], ChannelAction::DispatchPrivate(e) if e == "ACCOUNT_UPDATE"));
}

#[test]
fn server_pings_are_answered_at_once() {
    let mut c = MarketChannel::new(true);
    let _ = c.step(ChannelEvent::Start);
    let _ = c.step(ChannelEvent::Opened);
    let actions = c.step(ChannelEvent::PingFrame("1700000000000".to_string()));
    assert!(matches!(&actions[0], ChannelAction::SendPong(t) if t == "1700000000000"));
    // A heartbeat whose timestamp cannot stand in a JSON string is
    // dropped rather than echoed.
    let actions = c.step(ChannelEvent::PingFrame("17\"00".to_string()));
    assert!(matches!(actions[0], ChannelAction::DropFrame));
}

#[test]
fn five_unanswered_pings_kill_the_connection() {
    let mut c = MarketChannel::new(true);
    let _ = c.step(ChannelEvent::Start);
    let _ = c.step(ChannelEvent::Opened);
    for _ in 0..5 {
        let actions = c.step(ChannelEvent::PingTimer);
        assert!(matches!(actions[0], ChannelAction::SendPing));
        assert_eq!(c.state, ChannelState::Streaming);
    }
    let actions = c.step(ChannelEvent::PingTimer);
    assert!(matches!(actions[0], ChannelAction::Backoff(1000)));
    assert_eq!(c.state, ChannelState::Reconnecting);
}

#[test]
fn a_pong_resets_the_missed_ping_count() {
    let mut c = MarketChannel::new(true);
    let _ = c.step(ChannelEvent::Start);
    let _ = c.step(ChannelEvent::Opened);
    for _ in 0..5 {
        let _ = c.step(ChannelEvent::PingTimer);
    }
    let _ = c.step(ChannelEvent::PongFrame);
    let actions = c.step(ChannelEvent::PingTimer);
    assert!(matches!(actions[0], ChannelAction::SendPing));
    assert_eq!(c.state, ChannelState::Streaming);
}

#[test]
fn the_backoff_doubles_to_a_cap() {
    let mut c = MarketChannel::new(false);
    let mut delays = Vec::new();
    // Each attempt fails while still connecting, so no stream ever
    // resets the failure count.
    for _ in 0..7 {
        let _ = c.step(ChannelEvent::Start);
        let actions = c.step(ChannelEvent::TransportError);
        match actions[0] {
            ChannelAction::Backoff(ms) => delays.push(ms),
            _ => panic!("a backoff was expected"),
        }
    }
    assert_eq!(delays, vec![1000, 2000, 4000, 8000, 16000, 30000, 30000]);
}

#[test]
fn a_clean_stream_resets_the_backoff() {
    let mut c = MarketChannel::new(false);
    let _ = c.step(ChannelEvent::Start);
    let _ = c.step(ChannelEvent::Opened);
    let _ = c.step(ChannelEvent::TransportError);
    let _ = c.step(ChannelEvent::Start);
    // Reaching Streaming again clears the failure count.
    let _ = c.step(ChannelEvent::Opened);
    assert_eq!(c.state, ChannelState::Streaming);
    let actions = c.step(ChannelEvent::Closed);
    assert!(matches!(actions[0], ChannelAction::Backoff(1000)));
}

#[test]
fn registering_a_topic_twice_keeps_it_once() {
    let mut c = MarketChannel::new(false);
    c.add_topic("ticker.1".to_string());
    c.add_topic("ticker.1".to_string());
    c.add_topic("trades.1".to_string());
    assert_eq!(c.topics.len(), 2);
}

#[test]
fn malformed_and_unknown_frames_are_dropped_not_fatal() {
    let mut c = MarketChannel::new(false);
    c.add_topic("ticker.1".to_string());
    let _ = c.step(ChannelEvent::Start);
    let _ = c.step(ChannelEvent::Opened);
    let _ = c.step(ChannelEvent::SubscribedAck("ticker.1".to_string()));
    assert_eq!(c.state, ChannelState::Streaming);
    let actions = c.step(ChannelEvent::MalformedFrame);
    assert!(matches!(actions[0], ChannelAction::DropFrame));
    assert_eq!(c.state, ChannelState::Streaming);
    let actions = c.step(ChannelEvent::UnknownFrame);
    assert!(matches!(actions[0], ChannelAction::DropFrame));
    assert_eq!(c.state, ChannelState::Streaming);
    let actions = c.step(ChannelEvent::ErrorFrame);
    assert!(actions.is_empty());
    assert_eq!(c.state, ChannelState::Streaming);
}

#[test]
fn frame_types_resolve_to_a_closed_set_of_kinds() {
    assert_eq!(classify_frame("ping"), FrameKind::HeartbeatPing);
    assert_eq!(classify_frame("pong"), FrameKind::HeartbeatPong);
    assert_eq!(classify_frame("subscribed"), FrameKind::SubscribeAck);
    assert_eq!(classify_frame("unsubscribed"), FrameKind::UnsubscribeAck);
    assert_eq!(classify_frame("error"), FrameKind::ServerError);
    assert_eq!(classify_frame("payload"), FrameKind::MarketData);
    assert_eq!(classify_frame("quote-event"), FrameKind::MarketData);
    assert_eq!(classify_frame("trade-event"), FrameKind::PrivateEvent);
    assert_eq!(classify_frame("pingg"), FrameKind::Unknown);
    assert_eq!(classify_frame(""), FrameKind::Unknown);
}

#[test]
fn channels_resolve_by_prefix() {
    assert_eq!(classify_channel("ticker.10000001"), TopicKind::Ticker);
    assert_eq!(classify_channel("depth.10000001.15"), TopicKind::Depth);
    assert_eq!(classify_channel("kline.LAST_PRICE.10000001.MINUTE_1"), TopicKind::Kline);
    assert_eq!(classify_channel("trades.10000001"), TopicKind::Trades);
    assert_eq!(classify_channel("metadata"), TopicKind::Metadata);
    assert_eq!(classify_channel("metadata2"), TopicKind::Other);
    assert_eq!(classify_channel("ticker"), TopicKind::Other);
}

#[test]
fn private_events_resolve_by_tag() {
    assert_eq!(classify_private_event("ACCOUNT_UPDATE"), PrivateEventKind::AccountUpdate);
    assert_eq!(classify_private_event("ORDER_UPDATE"), PrivateEventKind::OrderUpdate);
    assert_eq!(classify_private_event("POSITION_UPDATE"), PrivateEventKind::PositionUpdate);
    assert_eq!(classify_private_event("DEPOSIT_UPDATE"), PrivateEventKind::DepositUpdate);
    assert_eq!(classify_private_event("WITHDRAW_UPDATE"), PrivateEventKind::WithdrawUpdate);
    assert_eq!(
        classify_private_event("FUNDING_SETTLEMENT"),
        PrivateEventKind::FundingSettlement
    );
    assert_eq!(classify_private_event("START_LIQUIDATING"), PrivateEventKind::StartLiquidating);
    assert_eq!(
        classify_private_event("FINISH_LIQUIDATING"),
        PrivateEventKind::FinishLiquidating
    );
    assert_eq!(classify_private_event("SOMETHING_ELSE"), PrivateEventKind::Other);
}

#[test]
fn raw_frame_texts_become_machine_events() {
    let ev = frame_event_of_text("{\"type\":\"ping\",\"time\":\"1700000000000\"}");
    assert!(matches!(ev, ChannelEvent::PingFrame(t) if t == "1700000000000"));
    let ev = frame_event_of_text("{\"type\":\"pong\"}");
    assert!(matches!(ev, ChannelEvent::PongFrame));
    let ev = frame_event_of_text(
        "{\"type\":\"payload\",\"channel\":\"ticker.10000001\",\"content\":{\"data\":[]}}",
    );
    assert!(matches!(ev, ChannelEvent::DataFrame(ch) if ch == "ticker.10000001"));
    let ev = frame_event_of_text("{\"type\":\"subscribed\",\"channel\":\"ticker.1\"}");
    assert!(matches!(ev, ChannelEvent::SubscribedAck(ch) if ch == "ticker.1"));
    let ev = frame_event_of_text(
        "{\"type\":\"trade-event\",\"content\":{\"event\":\"ORDER_UPDATE\"}}",
    );
    assert!(matches!(ev, ChannelEvent::PrivateFrame(tag) if tag == "ORDER_UPDATE"));
    let ev = frame_event_of_text("{\"type\":\"mystery\"}");
    assert!(matches!(ev, ChannelEvent::UnknownFrame));
    let ev = frame_event_of_text("not json at all");
    assert!(matches!(ev, ChannelEvent::MalformedFrame));
}
