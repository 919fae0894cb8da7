//! The stream client's decisions. The connection supervisor's concurrent
//! plumbing (sockets, queues, timers) lives outside this crate; everything
//! it decides — what to answer to each inbound frame, when a keepalive
//! failure turns fatal, when to resubscribe, how the connection state moves
//! — is a pure function here, with an exact contract.

use crate::codec::{spec_decode_message, spec_subscribe_text, subscribe_text, decode_message,
    CensusMessage, CensusMessageView};
use crate::error::{DecodeError, TransportError};
use crate::event::{Event, EventView};
use crate::subscription::{spec_default_settings, SubscriptionSettings, SubscriptionSettingsView};
use vstd::prelude::*;
use vstd::string::{StrSliceExecFns, StringExecFns};

verus! {

broadcast use {vstd::std_specs::vec::group_vec_axioms, vstd::seq::group_seq_axioms};

/// The endpoint the client connects to when the configuration names none.
pub const REALTIME_URL: &'static str = "wss://push.planetside2.com/streaming";

/// How often the keepalive ping is sent, in seconds.
pub const KEEPALIVE_INTERVAL_SECS: u64 = 1;

/// How many consecutive keepalive failures are tolerated before the
/// connection is considered lost for good.
pub const MAX_PING_FAILS: u32 = 5;

/// How often the current subscription is re-sent, in seconds, to defend
/// against server-side expiry.
pub const RESUBSCRIBE_INTERVAL_SECS: u64 = 1800;

/// How long a failed resubscription waits before retrying, in seconds.
pub const RESUBSCRIBE_RETRY_SECS: u64 = 5;

/// How the client reaches the push service.
#[derive(Clone, PartialEq, Debug)]
pub struct RealtimeClientConfig {
    /// The environment tag sent on connect.
    pub environment: String,
    /// The caller's service identifier, sent as `s:<identifier>`.
    pub service_id: String,
    /// An endpoint overriding the built-in one, if any.
    pub realtime_url: Option<String>,
}

/// The mathematical value of a [`RealtimeClientConfig`].
pub struct RealtimeClientConfigView {
    pub environment: Seq<char>,
    pub service_id: Seq<char>,
    pub realtime_url: Option<Seq<char>>,
}

impl View for RealtimeClientConfig {
    type V = RealtimeClientConfigView;

    open spec fn view(&self) -> RealtimeClientConfigView {
        RealtimeClientConfigView {
            environment: self.environment@,
            service_id: self.service_id@,
            realtime_url: match &self.realtime_url {
                Some(u) => Some(u@),
                None => None,
            },
        }
    }
}

impl Default for RealtimeClientConfig {
    /// The public game environment, with no service identifier and the
    /// built-in endpoint.
    fn default() -> (r: Self)
        ensures
            r@.environment == "ps2"@,
            r@.service_id == Seq::<char>::empty(),
            r@.realtime_url is None,
    {
        RealtimeClientConfig {
            environment: String::from_str("ps2"),
            service_id: String::new(),
            realtime_url: None,
        }
    }
}

/// The address a configuration connects to: the endpoint, the environment
/// tag, and the service identifier.
pub open spec fn spec_realtime_address(c: RealtimeClientConfigView) -> Seq<char> {
    (match c.realtime_url {
        Some(u) => u,
        None => REALTIME_URL@,
    }) + "?environment="@ + c.environment + "&service-id=s:"@ + c.service_id
}

/// Builds the connection address for a configuration.
pub fn realtime_address(c: &RealtimeClientConfig) -> (r: String)
    ensures
        r@ == spec_realtime_address(c@),
{
    let mut out = match &c.realtime_url {
        Some(u) => u.clone(),
        None => String::from_str(REALTIME_URL),
    };
    out.append("?environment=");
    out.append(c.environment.as_str());
    out.append("&service-id=s:");
    out.append(c.service_id.as_str());
    out
}

/// The consumer's handle on the stream: the connection configuration and
/// the one current desired subscription. The subscription is replaced as a
/// whole by [`RealtimeClient::subscribe`], never merged.
#[derive(Clone, PartialEq, Debug)]
pub struct RealtimeClient {
    pub config: RealtimeClientConfig,
    pub subscription_config: SubscriptionSettings,
}

/// The mathematical value of a [`RealtimeClient`].
pub struct RealtimeClientView {
    pub config: RealtimeClientConfigView,
    pub subscription_config: SubscriptionSettingsView,
}

impl View for RealtimeClient {
    type V = RealtimeClientView;

    open spec fn view(&self) -> RealtimeClientView {
        RealtimeClientView { config: self.config@, subscription_config: self.subscription_config@ }
    }
}

/// Replacing the subscription: the whole desired value changes at once and
/// nothing else does.
pub open spec fn spec_subscribe(c: RealtimeClientView, s: SubscriptionSettingsView) -> RealtimeClientView {
    RealtimeClientView { config: c.config, subscription_config: s }
}

impl RealtimeClient {
    /// A fresh client for the given configuration, subscribed to everything
    /// until told otherwise.
    pub fn new(config: RealtimeClientConfig) -> (r: Self)
        ensures
            r@.config == config@,
            r@.subscription_config == spec_default_settings(),
    {
        RealtimeClient { config, subscription_config: SubscriptionSettings::default() }
    }

    /// Replaces the desired subscription, as a whole. Nothing is sent here:
    /// the new value goes on the wire at the next server handshake or
    /// resubscription tick.
    pub fn subscribe(&mut self, subscription: SubscriptionSettings)
        ensures
            final(self)@ == spec_subscribe(old(self)@, subscription@),
    {
        self.subscription_config = subscription;
    }

    /// The address this client connects to.
    pub fn address(&self) -> (r: String)
        ensures
            r@ == spec_realtime_address(self@.config),
    {
        realtime_address(&self.config)
    }

    /// The subscribe frame for the current subscription.
    pub fn subscribe_frame(&self) -> (r: String)
        ensures
            r@ == spec_subscribe_text(self@.subscription_config),
    {
        subscribe_text(&self.subscription_config)
    }
}

/// Details of a close frame.
#[derive(Clone, PartialEq, Debug)]
pub struct CloseInfo {
    pub code: u16,
    pub reason: String,
}

/// The mathematical value of a [`CloseInfo`].
pub struct CloseInfoView {
    pub code: u16,
    pub reason: Seq<char>,
}

impl View for CloseInfo {
    type V = CloseInfoView;

    open spec fn view(&self) -> CloseInfoView {
        CloseInfoView { code: self.code, reason: self.reason@ }
    }
}

/// One frame read from the transport, as plain values.
#[derive(Clone, PartialEq, Debug)]
pub enum InboundFrame {
    Text(String),
    Binary(Vec<u8>),
    Ping(Vec<u8>),
    Pong(Vec<u8>),
    Close(Option<CloseInfo>),
    Other,
}

/// The mathematical value of an [`InboundFrame`].
pub enum InboundFrameView {
    Text(Seq<char>),
    Binary(Seq<u8>),
    Ping(Seq<u8>),
    Pong(Seq<u8>),
    Close(Option<CloseInfoView>),
    Other,
}

impl View for InboundFrame {
    type V = InboundFrameView;

    open spec fn view(&self) -> InboundFrameView {
        match self {
            InboundFrame::Text(t) => InboundFrameView::Text(t@),
            InboundFrame::Binary(b) => InboundFrameView::Binary(b@),
            InboundFrame::Ping(p) => InboundFrameView::Ping(p@),
            InboundFrame::Pong(p) => InboundFrameView::Pong(p@),
            InboundFrame::Close(c) => InboundFrameView::Close(
                match c {
                    Some(ci) => Some(ci@),
                    None => None,
                },
            ),
            InboundFrame::Other => InboundFrameView::Other,
        }
    }
}

/// One frame for the writer task to send, as plain values.
#[derive(Clone, PartialEq, Debug)]
pub enum OutboundFrame {
    Text(String),
    Ping(Vec<u8>),
    Pong(Vec<u8>),
}

/// The mathematical value of an [`OutboundFrame`].
pub enum OutboundFrameView {
    Text(Seq<char>),
    Ping(Seq<u8>),
    Pong(Seq<u8>),
}

impl View for OutboundFrame {
    type V = OutboundFrameView;

    open spec fn view(&self) -> OutboundFrameView {
        match self {
            OutboundFrame::Text(t) => OutboundFrameView::Text(t@),
            OutboundFrame::Ping(p) => OutboundFrameView::Ping(p@),
            OutboundFrame::Pong(p) => OutboundFrameView::Pong(p@),
        }
    }
}

/// The mathematical values of a queue of outbound frames.
pub open spec fn outbound_view(fs: Seq<OutboundFrame>) -> Seq<OutboundFrameView> {
    Seq::new(fs.len(), |k: int| fs[k]@)
}

/// Everything the reader decides about one inbound frame: frames to queue
/// for the writer, at most one domain event for the consumer, a decode
/// failure kept for observability, and whether the connection is over.
pub struct FrameReaction {
    pub outbound: Vec<OutboundFrame>,
    pub event: Option<Event>,
    pub decode_error: Option<DecodeError>,
    pub disconnect: bool,
}

/// The mathematical value of a [`FrameReaction`].
pub struct FrameReactionView {
    pub outbound: Seq<OutboundFrameView>,
    pub event: Option<EventView>,
    pub decode_error: Option<DecodeError>,
    pub disconnect: bool,
}

impl View for FrameReaction {
    type V = FrameReactionView;

    open spec fn view(&self) -> FrameReactionView {
        FrameReactionView {
            outbound: outbound_view(self.outbound@),
            event: match &self.event {
                Some(e) => Some(e@),
                None => None,
            },
            decode_error: self.decode_error,
            disconnect: self.disconnect,
        }
    }
}

/// A reaction that does nothing.
pub open spec fn spec_no_reaction() -> FrameReactionView {
    FrameReactionView {
        outbound: Seq::empty(),
        event: None,
        decode_error: None,
        disconnect: false,
    }
}

/// What the reader does with one inbound frame, given the current desired
/// subscription:
/// - a ping is answered with exactly one pong carrying the same payload;
/// - a text frame is decoded: the handshake's `connected` signal queues the
///   current subscription, a service message hands its event to the
///   consumer, the other envelope kinds are observed and dropped, and a
///   decode failure is recorded and spoils nothing else;
/// - a close frame ends the connection;
/// - binary, pong and raw frames are ignored.
/// The consumer never sees a control frame: only a service message yields
/// an event.
pub open spec fn spec_handle_frame(sub: SubscriptionSettingsView, f: InboundFrameView) -> FrameReactionView {
    match f {
        InboundFrameView::Ping(p) => FrameReactionView {
            outbound: seq![OutboundFrameView::Pong(p)],
            ..spec_no_reaction()
        },
        InboundFrameView::Text(t) => match spec_decode_message(t) {
            Ok(m) => match m {
                CensusMessageView::ConnectionStateChanged { connected } => if connected {
                    FrameReactionView {
                        outbound: seq![OutboundFrameView::Text(spec_subscribe_text(sub))],
                        ..spec_no_reaction()
                    }
                } else {
                    spec_no_reaction()
                },
                CensusMessageView::ServiceMessage { payload } => FrameReactionView {
                    event: Some(payload),
                    ..spec_no_reaction()
                },
                _ => spec_no_reaction(),
            },
            Err(e) => FrameReactionView { decode_error: Some(e), ..spec_no_reaction() },
        },
        InboundFrameView::Close(_) => FrameReactionView {
            disconnect: true,
            ..spec_no_reaction()
        },
        _ => spec_no_reaction(),
    }
}

/// Reacts to one inbound frame.
pub fn handle_frame(sub: &SubscriptionSettings, frame: InboundFrame) -> (r: FrameReaction)
    ensures
        r@ == spec_handle_frame(sub@, frame@),
{
    match frame {
        InboundFrame::Ping(p) => {
            let mut outbound: Vec<OutboundFrame> = Vec::new();
            let ghost pv = p@;
            outbound.push(OutboundFrame::Pong(p));
            let r = FrameReaction { outbound, event: None, decode_error: None, disconnect: false };
            proof {
                assert(r@.outbound =~= seq![OutboundFrameView::Pong(pv)]);
            }
            r
        },
        InboundFrame::Text(t) => {
            match decode_message(t.as_str()) {
                Ok(m) => match m {
                    CensusMessage::ConnectionStateChanged { connected } => {
                        if connected {
                            let mut outbound: Vec<OutboundFrame> = Vec::new();
                            outbound.push(OutboundFrame::Text(subscribe_text(sub)));
                            let r = FrameReaction {
                                outbound,
                                event: None,
                                decode_error: None,
                                disconnect: false,
                            };
                            proof {
                                assert(r@.outbound =~= seq![
                                    OutboundFrameView::Text(spec_subscribe_text(sub@)),
                                ]);
                            }
                            r
                        } else {
                            no_reaction()
                        }
                    },
                    CensusMessage::ServiceMessage { payload } => {
                        let r = FrameReaction {
                            outbound: Vec::new(),
                            event: Some(payload),
                            decode_error: None,
                            disconnect: false,
                        };
                        proof {
                            assert(r@.outbound =~= Seq::<OutboundFrameView>::empty());
                        }
                        r
                    },
                    _ => no_reaction(),
                },
                Err(e) => {
                    let r = FrameReaction {
                        outbound: Vec::new(),
                        event: None,
                        decode_error: Some(e),
                        disconnect: false,
                    };
                    proof {
                        assert(r@.outbound =~= Seq::<OutboundFrameView>::empty());
                    }
                    r
                },
            }
        },
        InboundFrame::Close(_) => {
            let r = FrameReaction {
                outbound: Vec::new(),
                event: None,
                decode_error: None,
                disconnect: true,
            };
            proof {
                assert(r@.outbound =~= Seq::<OutboundFrameView>::empty());
            }
            r
        },
        _ => no_reaction(),
    }
}

/// A reaction that does nothing.
fn no_reaction() -> (r: FrameReaction)
    ensures
        r@ == spec_no_reaction(),
{
    let r = FrameReaction {
        outbound: Vec::new(),
        event: None,
        decode_error: None,
        disconnect: false,
    };
    proof {
        assert(r@.outbound =~= Seq::<OutboundFrameView>::empty());
    }
    r
}

/// The keepalive payload.
pub open spec fn spec_ping_payload() -> Seq<u8> {
    seq![72u8, 101u8, 108u8, 108u8, 111u8]
}

/// The keepalive frame: a ping carrying the fixed payload.
pub fn ping_frame() -> (r: OutboundFrame)
    ensures
        r@ == OutboundFrameView::Ping(spec_ping_payload()),
{
    let mut p: Vec<u8> = Vec::new();
    p.push(72);
    p.push(101);
    p.push(108);
    p.push(108);
    p.push(111);
    proof {
        assert(p@ =~= spec_ping_payload());
    }
    OutboundFrame::Ping(p)
}

/// One keepalive tick: a successful send clears the consecutive-failure
/// count; a failed send raises it, and past the tolerated maximum the
/// connection is reported lost for good.
pub fn keepalive_step(fails: u32, send_ok: bool) -> (r: (u32, bool))
    requires
        fails <= MAX_PING_FAILS,
    ensures
        send_ok ==> r == (0u32, false),
        !send_ok ==> r.0 == fails + 1 && (r.1 <==> fails + 1 > MAX_PING_FAILS),
{
    if send_ok {
        (0, false)
    } else {
        (fails + 1, fails + 1 > MAX_PING_FAILS)
    }
}

/// How long the resubscription task sleeps after a send: the long interval
/// after a success, the short backoff after a failure.
pub fn resubscribe_delay(send_ok: bool) -> (r: u64)
    ensures
        send_ok ==> r == RESUBSCRIBE_INTERVAL_SECS,
        !send_ok ==> r == RESUBSCRIBE_RETRY_SECS,
{
    if send_ok {
        RESUBSCRIBE_INTERVAL_SECS
    } else {
        RESUBSCRIBE_RETRY_SECS
    }
}

/// Where the supervisor stands for one connection instance.
#[derive(Copy, Clone, PartialEq, Eq, Structural, Debug)]
pub enum ConnectionState {
    /// Before `connect` is called.
    Idle,
    /// The transport is being opened.
    Connecting,
    /// The transport is up and the four tasks run.
    Connected,
    /// The transport is gone; terminal for this instance.
    Disconnected,
}

/// What the supervisor observes.
#[derive(Copy, Clone, PartialEq, Eq, Structural, Debug)]
pub enum ConnectionEvent {
    /// The consumer called `connect`.
    ConnectRequested,
    /// The transport opened.
    TransportEstablished,
    /// The transport could not be opened; the error surfaces to the caller.
    ConnectFailed,
    /// The server's handshake announced the session ready: the current
    /// subscription is sent.
    HandshakeConnected,
    /// A read failed.
    ReadError,
    /// A close frame arrived.
    CloseFrame,
}

/// The supervisor's moves: connect opens the transport; an established
/// transport runs; the ready handshake keeps it running (the side effect is
/// the subscribe send); a read failure or a close ends the instance. Any
/// other observation leaves the state alone.
pub open spec fn spec_connection_step(s: ConnectionState, e: ConnectionEvent) -> ConnectionState {
    match (s, e) {
        (ConnectionState::Idle, ConnectionEvent::ConnectRequested) => ConnectionState::Connecting,
        (ConnectionState::Connecting, ConnectionEvent::TransportEstablished) => {
            ConnectionState::Connected
        },
        (ConnectionState::Connecting, ConnectionEvent::ConnectFailed) => {
            ConnectionState::Disconnected
        },
        (ConnectionState::Connected, ConnectionEvent::HandshakeConnected) => {
            ConnectionState::Connected
        },
        (ConnectionState::Connected, ConnectionEvent::ReadError) => ConnectionState::Disconnected,
        (ConnectionState::Connected, ConnectionEvent::CloseFrame) => ConnectionState::Disconnected,
        _ => s,
    }
}

/// Advances the connection state machine by one observation.
pub fn connection_step(s: ConnectionState, e: ConnectionEvent) -> (r: ConnectionState)
    ensures
        r == spec_connection_step(s, e),
{
    match (s, e) {
        (ConnectionState::Idle, ConnectionEvent::ConnectRequested) => ConnectionState::Connecting,
        (ConnectionState::Connecting, ConnectionEvent::TransportEstablished) => {
            ConnectionState::Connected
        },
        (ConnectionState::Connecting, ConnectionEvent::ConnectFailed) => {
            ConnectionState::Disconnected
        },
        (ConnectionState::Connected, ConnectionEvent::HandshakeConnected) => {
            ConnectionState::Connected
        },
        (ConnectionState::Connected, ConnectionEvent::ReadError) => ConnectionState::Disconnected,
        (ConnectionState::Connected, ConnectionEvent::CloseFrame) => ConnectionState::Disconnected,
        _ => s,
    }
}

/// Whether a read result means the connection is gone, mirroring the
/// write-side classification.
pub fn is_read_disconnect_error(item: &Result<InboundFrame, TransportError>) -> (r: bool)
    ensures
        r == match item {
            Err(e) => e.spec_is_disconnect(),
            Ok(_) => false,
        },
{
    match item {
        Err(e) => e.is_disconnect_error(),
        Ok(_) => false,
    }
}

} // verus!
