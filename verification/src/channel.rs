//! The market-data channel's state machine.
//!
//! One connection runs `Disconnected -> Connecting -> Subscribing ->
//! Streaming`, and any failure sends it to `Reconnecting` with a capped
//! doubling backoff. Re-opening re-issues a subscribe for every registered
//! topic and holds data frames back until each is acknowledged, so a
//! consumer observes a contiguous subscription set across reconnects.
//! Protocol heartbeats are answered at once in any state; the
//! application-level ping counts unanswered intervals and declares the
//! connection dead at five.
use vstd::prelude::*;

use crate::strings::str_eq;
use crate::sign::json_safe;
use crate::sign::is_json_safe;

verus! {

/// How many unanswered latency pings mean a dead connection.
pub const MAX_MISSED_PINGS: u32 = 5;

/// Seconds between application-level latency pings.
pub const PING_INTERVAL_SECS: u64 = 30;

/// Where the channel stands.
#[derive(Debug, Clone, Copy, PartialEq, Eq, Structural)]
pub enum ChannelState {
    Disconnected,
    Connecting,
    Subscribing,
    Streaming,
    Reconnecting,
}

/// What the transport or the timer reports to the machine.
#[derive(Debug, Clone)]
pub enum ChannelEvent {
    /// Begin connecting, from rest or after a backoff.
    Start,
    /// The socket is established (and authenticated where private).
    Opened,
    /// A server heartbeat carrying its timestamp.
    PingFrame(String),
    /// The server answered our latency ping.
    PongFrame,
    /// A subscription acknowledgment for a channel.
    SubscribedAck(String),
    /// An unsubscription acknowledgment for a channel.
    UnsubscribedAck(String),
    /// A market-data frame for a channel.
    DataFrame(String),
    /// A private account event with its tag.
    PrivateFrame(String),
    /// An error payload the server sent.
    ErrorFrame,
    /// A frame of no known kind.
    UnknownFrame,
    /// A frame that did not parse.
    MalformedFrame,
    /// The application-level ping timer fired.
    PingTimer,
    /// The remote closed the connection.
    Closed,
    /// A read or send failed.
    TransportError,
}

/// What the machine asks its driver to do.
#[derive(Debug, Clone)]
pub enum ChannelAction {
    /// Open the socket.
    Connect,
    /// Send the subscribe frame for a channel.
    SendSubscribe(String),
    /// Answer a server heartbeat, echoing its timestamp.
    SendPong(String),
    /// Send the application-level latency ping.
    SendPing,
    /// Hand a market frame's channel to its topic handler.
    Dispatch(String),
    /// Hand a private event's tag to the account handler.
    DispatchPrivate(String),
    /// Wait this many milliseconds, then raise `Start`.
    Backoff(u64),
    /// Drop the frame, log it, and carry on.
    DropFrame,
}

/// No channel name occurs twice.
pub open spec fn unique_channels(cs: Seq<Seq<char>>) -> bool {
    forall|i: int, j: int| 0 <= i < j < cs.len() ==> (#[trigger] cs[i]) != (#[trigger] cs[j])
}

/// Some entry equals `ch`.
pub open spec fn has_channel(cs: Seq<Seq<char>>, ch: Seq<char>) -> bool {
    exists|i: int| 0 <= i < cs.len() && (#[trigger] cs[i]) == ch
}

/// The index of `ch`.
pub open spec fn channel_at(cs: Seq<Seq<char>>, ch: Seq<char>) -> int {
    choose|i: int| 0 <= i < cs.len() && (#[trigger] cs[i]) == ch
}

/// `cs` with `ch` taken out, where present.
pub open spec fn remove_channel(cs: Seq<Seq<char>>, ch: Seq<char>) -> Seq<Seq<char>> {
    if has_channel(cs, ch) {
        cs.remove(channel_at(cs, ch))
    } else {
        cs
    }
}

/// Reconnect delay in milliseconds for a failure count: doubling from one
/// second, capped at thirty.
pub open spec fn spec_backoff_ms(level: int) -> int {
    if level <= 1 {
        1000
    } else if level == 2 {
        2000
    } else if level == 3 {
        4000
    } else if level == 4 {
        8000
    } else if level == 5 {
        16000
    } else {
        30000
    }
}

/// One reconnecting market-data channel and its registered topics.
pub struct MarketChannel {
    pub state: ChannelState,
    pub is_private: bool,
    pub topics: Vec<String>,
    pub pending: Vec<String>,
    pub missed_pings: u32,
    pub backoff_level: u32,
}

impl MarketChannel {
    /// Structural invariant: distinct topics, distinct pending acks, a
    /// private channel with no subscriptions, and bounded counters.
    pub open spec fn wf(&self) -> bool {
        &&& unique_channels(self.topics.deep_view())
        &&& unique_channels(self.pending.deep_view())
        &&& self.is_private ==> self.topics@.len() == 0
        &&& self.missed_pings <= MAX_MISSED_PINGS
        &&& self.backoff_level <= 16
    }

    /// A fresh channel at rest, with nothing registered.
    pub fn new(is_private: bool) -> (c: Self)
        ensures
            c.wf(),
            c.state == ChannelState::Disconnected,
            c.is_private == is_private,
            c.topics@ == Seq::<String>::empty(),
            c.pending@ == Seq::<String>::empty(),
            c.missed_pings == 0,
            c.backoff_level == 0,
    {
        MarketChannel {
            state: ChannelState::Disconnected,
            is_private,
            topics: Vec::new(),
            pending: Vec::new(),
            missed_pings: 0,
            backoff_level: 0,
        }
    }

    /// Register a topic to subscribe on every (re)connect. A topic
    /// already registered is kept once.
    pub fn add_topic(&mut self, topic: String)
        requires
            old(self).wf(),
            !old(self).is_private,
        ensures
            final(self).wf(),
            has_channel(old(self).topics.deep_view(), topic@) ==> final(self).topics
                == old(self).topics,
            !has_channel(old(self).topics.deep_view(), topic@) ==> final(self).topics@
                == old(self).topics@.push(topic),
            final(self).state == old(self).state,
            final(self).is_private == old(self).is_private,
            final(self).pending == old(self).pending,
            final(self).missed_pings == old(self).missed_pings,
            final(self).backoff_level == old(self).backoff_level,
    {
        let n = self.topics.len();
        let mut i: usize = 0;
        while i < n
            invariant
                0 <= i <= n,
                n == self.topics@.len(),
                *self == *old(self),
                old(self).wf(),
                forall|j: int|
                    0 <= j < i ==> (#[trigger] self.topics.deep_view()[j]) != topic@,
            decreases n - i,
        {
            if str_eq(self.topics[i].as_str(), topic.as_str()) {
                proof {
                    assert(self.topics.deep_view()[i as int] == topic@);
                    assert(has_channel(self.topics.deep_view(), topic@));
                }
                return ;
            }
            i = i + 1;
        }
        proof {
            if has_channel(self.topics.deep_view(), topic@) {
                let k = channel_at(self.topics.deep_view(), topic@);
                assert(false);
            }
        }
        self.topics.push(topic);
        proof {
            let ts = old(self).topics.deep_view();
            assert forall|a: int, b: int| 0 <= a < b < self.topics.deep_view().len() implies (
            #[trigger] self.topics.deep_view()[a]) != (#[trigger] self.topics.deep_view()[b]) by {
                if b < ts.len() {
                    assert(ts[a] != ts[b]);
                } else {
                    assert(self.topics.deep_view()[b] == topic@);
                    assert(self.topics.deep_view()[a] == ts[a]);
                    if ts[a] == topic@ {
                        assert(has_channel(ts, topic@));
                    }
                }
            }
        }
    }

    /// Feed one event through the machine; the returned actions are what
    /// the driver must perform, in order. Data frames are dispatched only
    /// while `Streaming`: after a reconnect, every registered topic's
    /// subscribe is issued on `Opened` and must be acknowledged before the
    /// machine streams again, so no data frame is handed on before the
    /// subscription set is restored.
    pub fn step(&mut self, ev: ChannelEvent) -> (actions: Vec<ChannelAction>)
        requires
            old(self).wf(),
        ensures
            final(self).wf(),
            final(self).is_private == old(self).is_private,
            final(self).topics == old(self).topics,
            ev matches ChannelEvent::Start ==> (
            if old(self).state == ChannelState::Disconnected || old(self).state
                == ChannelState::Reconnecting {
                &&& final(self).state == ChannelState::Connecting
                &&& final(self).pending == old(self).pending
                &&& final(self).missed_pings == old(self).missed_pings
                &&& final(self).backoff_level == old(self).backoff_level
                &&& actions@ == seq![ChannelAction::Connect]
            } else {
                *final(self) == *old(self) && actions@.len() == 0
            }),
            ev matches ChannelEvent::Opened ==> (
            if old(self).state == ChannelState::Connecting {
                &&& final(self).pending@ == old(self).topics@
                &&& final(self).missed_pings == 0
                &&& (old(self).topics@.len() == 0 ==> final(self).state
                    == ChannelState::Streaming && final(self).backoff_level == 0
                    && actions@.len() == 0)
                &&& (old(self).topics@.len() > 0 ==> final(self).state
                    == ChannelState::Subscribing && final(self).backoff_level == old(
                    self,
                ).backoff_level && actions@.len() == old(self).topics@.len() && (forall|i: int|
                    0 <= i < actions@.len() ==> (#[trigger] actions@[i])
                        == ChannelAction::SendSubscribe(old(self).topics@[i])))
            } else {
                *final(self) == *old(self) && actions@.len() == 0
            }),
            ev matches ChannelEvent::PingFrame(t) ==> (final(self).state == old(self).state
                && final(self).pending == old(self).pending && final(self).missed_pings == old(
                self,
            ).missed_pings && final(self).backoff_level == old(self).backoff_level && (
            if json_safe(t@) {
                actions@ == seq![ChannelAction::SendPong(t)]
            } else {
                actions@ == seq![ChannelAction::DropFrame]
            })),
            ev matches ChannelEvent::PongFrame ==> (final(self).state == old(self).state
                && final(self).pending == old(self).pending && final(self).missed_pings == 0
                && final(self).backoff_level == old(self).backoff_level && actions@.len() == 0),
            ev matches ChannelEvent::SubscribedAck(ch) ==> (
            if old(self).state == ChannelState::Subscribing {
                &&& final(self).pending.deep_view() == remove_channel(
                    old(self).pending.deep_view(),
                    ch@,
                )
                &&& final(self).missed_pings == old(self).missed_pings
                &&& (final(self).pending@.len() == 0 ==> final(self).state
                    == ChannelState::Streaming && final(self).backoff_level == 0)
                &&& (final(self).pending@.len() > 0 ==> final(self).state
                    == ChannelState::Subscribing && final(self).backoff_level == old(
                    self,
                ).backoff_level)
                &&& actions@.len() == 0
            } else {
                *final(self) == *old(self) && actions@.len() == 0
            }),
            ev matches ChannelEvent::UnsubscribedAck(ch) ==> (*final(self) == *old(self)
                && actions@.len() == 0),
            ev matches ChannelEvent::DataFrame(ch) ==> (*final(self) == *old(self) && (
            if old(self).state == ChannelState::Streaming {
                actions@ == seq![ChannelAction::Dispatch(ch)]
            } else {
                actions@ == seq![ChannelAction::DropFrame]
            })),
            ev matches ChannelEvent::PrivateFrame(tag) ==> (*final(self) == *old(self) && (
            if old(self).state == ChannelState::Streaming {
                actions@ == seq![ChannelAction::DispatchPrivate(tag)]
            } else {
                actions@ == seq![ChannelAction::DropFrame]
            })),
            ev matches ChannelEvent::ErrorFrame ==> (*final(self) == *old(self)
                && actions@.len() == 0),
            ev matches ChannelEvent::UnknownFrame ==> (*final(self) == *old(self) && actions@
                == seq![ChannelAction::DropFrame]),
            ev matches ChannelEvent::MalformedFrame ==> (*final(self) == *old(self) && actions@
                == seq![ChannelAction::DropFrame]),
            ev matches ChannelEvent::PingTimer ==> (
            if old(self).state == ChannelState::Streaming {
                if old(self).missed_pings < MAX_MISSED_PINGS {
                    &&& *final(self) == (MarketChannel {
                        missed_pings: (old(self).missed_pings + 1) as u32,
                        ..*old(self)
                    })
                    &&& actions@ == seq![ChannelAction::SendPing]
                } else {
                    &&& final(self).state == ChannelState::Reconnecting
                    &&& final(self).missed_pings == 0
                    &&& final(self).pending == old(self).pending
                    &&& final(self).backoff_level as int == spec_bumped(
                        old(self).backoff_level as int,
                    )
                    &&& actions@.len() == 1
                    &&& (actions@[0] matches ChannelAction::Backoff(ms) && ms as int
                        == spec_backoff_ms(final(self).backoff_level as int))
                }
            } else {
                *final(self) == *old(self) && actions@.len() == 0
            }),
            (ev matches ChannelEvent::Closed || ev matches ChannelEvent::TransportError) ==> (
            if old(self).state == ChannelState::Connecting || old(self).state
                == ChannelState::Subscribing || old(self).state == ChannelState::Streaming {
                &&& final(self).state == ChannelState::Reconnecting
                &&& final(self).missed_pings == 0
                &&& final(self).pending == old(self).pending
                &&& final(self).backoff_level as int == spec_bumped(
                    old(self).backoff_level as int,
                )
                &&& actions@.len() == 1
                &&& (actions@[0] matches ChannelAction::Backoff(ms) && ms as int
                    == spec_backoff_ms(final(self).backoff_level as int))
            } else {
                *final(self) == *old(self) && actions@.len() == 0
            }),
    {
        let mut actions: Vec<ChannelAction> = Vec::new();
        match ev {
            ChannelEvent::Start => {
                match self.state {
                    ChannelState::Disconnected | ChannelState::Reconnecting => {
                        self.state = ChannelState::Connecting;
                        actions.push(ChannelAction::Connect);
                        proof {
                            assert(actions@ =~= seq![ChannelAction::Connect]);
                        }
                    },
                    _ => {},
                }
            },
            ChannelEvent::Opened => {
                match self.state {
                    ChannelState::Connecting => {
                        self.missed_pings = 0;
                        let fresh = clone_channels(&self.topics);
                        self.pending = fresh;
                        if self.pending.len() == 0 {
                            self.state = ChannelState::Streaming;
                            self.backoff_level = 0;
                        } else {
                            self.state = ChannelState::Subscribing;
                            let n = self.topics.len();
                            let mut i: usize = 0;
                            while i < n
                                invariant
                                    0 <= i <= n,
                                    n == self.topics@.len(),
                                    actions@.len() == i,
                                    forall|j: int|
                                        0 <= j < i ==> (#[trigger] actions@[j])
                                            == ChannelAction::SendSubscribe(self.topics@[j]),
                                decreases n - i,
                            {
                                let t = self.topics[i].clone();
                                actions.push(ChannelAction::SendSubscribe(t));
                                i = i + 1;
                            }
                        }
                    },
                    _ => {},
                }
            },
            ChannelEvent::PingFrame(t) => {
                if is_json_safe(t.as_str()) {
                    actions.push(ChannelAction::SendPong(t));
                    proof {
                        assert(actions@ =~= seq![actions@[0]]);
                    }
                } else {
                    actions.push(ChannelAction::DropFrame);
                    proof {
                        assert(actions@ =~= seq![ChannelAction::DropFrame]);
                    }
                }
            },
            ChannelEvent::PongFrame => {
                self.missed_pings = 0;
            },
            ChannelEvent::SubscribedAck(ch) => {
                match self.state {
                    ChannelState::Subscribing => {
                        self.remove_pending(ch.as_str());
                        if self.pending.len() == 0 {
                            self.state = ChannelState::Streaming;
                            self.backoff_level = 0;
                        }
                    },
                    _ => {},
                }
            },
            ChannelEvent::UnsubscribedAck(_) => {},
            ChannelEvent::DataFrame(ch) => {
                match self.state {
                    ChannelState::Streaming => {
                        actions.push(ChannelAction::Dispatch(ch));
                        proof {
                            assert(actions@ =~= seq![actions@[0]]);
                        }
                    },
                    _ => {
                        actions.push(ChannelAction::DropFrame);
                        proof {
                            assert(actions@ =~= seq![ChannelAction::DropFrame]);
                        }
                    },
                }
            },
            ChannelEvent::PrivateFrame(tag) => {
                match self.state {
                    ChannelState::Streaming => {
                        actions.push(ChannelAction::DispatchPrivate(tag));
                        proof {
                            assert(actions@ =~= seq![actions@[0]]);
                        }
                    },
                    _ => {
                        actions.push(ChannelAction::DropFrame);
                        proof {
                            assert(actions@ =~= seq![ChannelAction::DropFrame]);
                        }
                    },
                }
            },
            ChannelEvent::ErrorFrame => {},
            ChannelEvent::UnknownFrame => {
                actions.push(ChannelAction::DropFrame);
                proof {
                    assert(actions@ =~= seq![ChannelAction::DropFrame]);
                }
            },
            ChannelEvent::MalformedFrame => {
                actions.push(ChannelAction::DropFrame);
                proof {
                    assert(actions@ =~= seq![ChannelAction::DropFrame]);
                }
            },
            ChannelEvent::PingTimer => {
                match self.state {
                    ChannelState::Streaming => {
                        if self.missed_pings < MAX_MISSED_PINGS {
                            self.missed_pings = self.missed_pings + 1;
                            actions.push(ChannelAction::SendPing);
                            proof {
                                assert(actions@ =~= seq![ChannelAction::SendPing]);
                            }
                        } else {
                            let ms = self.go_reconnecting();
                            actions.push(ChannelAction::Backoff(ms));
                            proof {
                                assert(actions@ =~= seq![actions@[0]]);
                            }
                        }
                    },
                    _ => {},
                }
            },
            ChannelEvent::Closed | ChannelEvent::TransportError => {
                match self.state {
                    ChannelState::Connecting | ChannelState::Subscribing
                        | ChannelState::Streaming => {
                        let ms = self.go_reconnecting();
                        actions.push(ChannelAction::Backoff(ms));
                        proof {
                            assert(actions@ =~= seq![actions@[0]]);
                        }
                    },
                    _ => {},
                }
            },
        }
        actions
    }

    /// Enter `Reconnecting` with one more failure on the clock; the
    /// returned delay is the backoff to wait before `Start`.
    fn go_reconnecting(&mut self) -> (ms: u64)
        requires
            old(self).wf(),
        ensures
            final(self).wf(),
            final(self).state == ChannelState::Reconnecting,
            final(self).missed_pings == 0,
            final(self).backoff_level as int == spec_bumped(old(self).backoff_level as int),
            final(self).pending == old(self).pending,
            final(self).topics == old(self).topics,
            final(self).is_private == old(self).is_private,
            ms as int == spec_backoff_ms(final(self).backoff_level as int),
    {
        self.state = ChannelState::Reconnecting;
        self.missed_pings = 0;
        if self.backoff_level < 16 {
            self.backoff_level = self.backoff_level + 1;
        }
        let level = self.backoff_level;
        if level <= 1 {
            1000
        } else if level == 2 {
            2000
        } else if level == 3 {
            4000
        } else if level == 4 {
            8000
        } else if level == 5 {
            16000
        } else {
            30000
        }
    }

    /// Drop the acknowledged channel from the pending set.
    fn remove_pending(&mut self, ch: &str)
        requires
            old(self).wf(),
        ensures
            final(self).wf(),
            final(self).pending.deep_view() == remove_channel(old(self).pending.deep_view(), ch@),
            final(self).state == old(self).state,
            final(self).topics == old(self).topics,
            final(self).is_private == old(self).is_private,
            final(self).missed_pings == old(self).missed_pings,
            final(self).backoff_level == old(self).backoff_level,
    {
        let n = self.pending.len();
        let mut i: usize = 0;
        while i < n
            invariant
                0 <= i <= n,
                n == self.pending@.len(),
                old(self).wf(),
                *self == *old(self),
                forall|j: int| 0 <= j < i ==> (#[trigger] self.pending.deep_view()[j]) != ch@,
            decreases n - i,
        {
            if str_eq(self.pending[i].as_str(), ch) {
                proof {
                    let ps = self.pending.deep_view();
                    assert(ps[i as int] == ch@);
                    assert(has_channel(ps, ch@));
                    let k = channel_at(ps, ch@);
                    assert(0 <= k < ps.len() && ps[k] == ch@);
                    if k != i as int {
                        assert(false);
                    }
                }
                self.pending.remove(i);
                proof {
                    let ps = old(self).pending.deep_view();
                    assert(self.pending.deep_view() =~= ps.remove(i as int));
                    assert forall|a: int, b: int|
                        0 <= a < b < self.pending.deep_view().len() implies (
                    #[trigger] self.pending.deep_view()[a]) != (
                    #[trigger] self.pending.deep_view()[b]) by {
                        let ra = if a < i as int {
                            a
                        } else {
                            a + 1
                        };
                        let rb = if b < i as int {
                            b
                        } else {
                            b + 1
                        };
                        assert(self.pending.deep_view()[a] == ps[ra]);
                        assert(self.pending.deep_view()[b] == ps[rb]);
                    }
                }
                return ;
            }
            i = i + 1;
        }
        proof {
            if has_channel(self.pending.deep_view(), ch@) {
                let k = channel_at(self.pending.deep_view(), ch@);
                assert(false);
            }
        }
    }
}

/// Bump a failure count, capped.
pub open spec fn spec_bumped(level: int) -> int {
    if level < 16 {
        level + 1
    } else {
        16
    }
}

/// The machine event a parsed frame's fields dictate: heartbeats carry
/// the echoed timestamp, acknowledgments and market data their channel,
/// private events their tag, and every other type tag an unknown frame.
pub open spec fn spec_event_of_fields(f: crate::frames::FrameFields) -> ChannelEvent {
    match crate::frames::spec_frame_kind(f.msg_type@) {
        crate::frames::FrameKind::HeartbeatPing => ChannelEvent::PingFrame(f.time),
        crate::frames::FrameKind::HeartbeatPong => ChannelEvent::PongFrame,
        crate::frames::FrameKind::SubscribeAck => ChannelEvent::SubscribedAck(f.channel),
        crate::frames::FrameKind::UnsubscribeAck => ChannelEvent::UnsubscribedAck(f.channel),
        crate::frames::FrameKind::ServerError => ChannelEvent::ErrorFrame,
        crate::frames::FrameKind::MarketData => ChannelEvent::DataFrame(f.channel),
        crate::frames::FrameKind::PrivateEvent => ChannelEvent::PrivateFrame(f.event),
        crate::frames::FrameKind::Unknown => ChannelEvent::UnknownFrame,
    }
}

/// The machine event for one raw frame text: a text that does not parse
/// is a malformed frame, and one that parses yields exactly the event its
/// fields' frame kind dictates.
pub fn frame_event_of_text(text: &str) -> (ev: ChannelEvent)
    ensures
        crate::frames::frame_fields_of(text@) is None ==> ev == ChannelEvent::MalformedFrame,
        crate::frames::frame_fields_of(text@) matches Some(f) ==> ev == spec_event_of_fields(f),
{
    match crate::frames::parse_frame(text) {
        None => ChannelEvent::MalformedFrame,
        Some(fields) => event_of_fields(fields),
    }
}

/// The machine event for one parsed frame, resolved from its type tag.
pub fn event_of_fields(f: crate::frames::FrameFields) -> (ev: ChannelEvent)
    ensures
        ev == spec_event_of_fields(f),
{
    match crate::frames::classify_frame(f.msg_type.as_str()) {
        crate::frames::FrameKind::HeartbeatPing => ChannelEvent::PingFrame(f.time),
        crate::frames::FrameKind::HeartbeatPong => ChannelEvent::PongFrame,
        crate::frames::FrameKind::SubscribeAck => ChannelEvent::SubscribedAck(f.channel),
        crate::frames::FrameKind::UnsubscribeAck => ChannelEvent::UnsubscribedAck(f.channel),
        crate::frames::FrameKind::ServerError => ChannelEvent::ErrorFrame,
        crate::frames::FrameKind::MarketData => ChannelEvent::DataFrame(f.channel),
        crate::frames::FrameKind::PrivateEvent => ChannelEvent::PrivateFrame(f.event),
        crate::frames::FrameKind::Unknown => ChannelEvent::UnknownFrame,
    }
}

/// An exact copy of a channel list.
fn clone_channels(v: &Vec<String>) -> (r: Vec<String>)
    ensures
        r@ == v@,
{
    let n = v.len();
    let mut r: Vec<String> = Vec::new();
    let mut i: usize = 0;
    while i < n
        invariant
            0 <= i <= n,
            n == v@.len(),
            r@.len() == i,
            forall|j: int| 0 <= j < i ==> #[trigger] r@[j] == v@[j],
        decreases n - i,
    {
        r.push(v[i].clone());
        i = i + 1;
    }
    proof {
        assert(r@ =~= v@);
    }
    r
}

} // verus!
