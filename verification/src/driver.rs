//! The worker's connection state machine.
//!
//! The worker connects once, then forwards cursor positions until the
//! editor's side of the outbound channel is closed. This module decides; the
//! embedding program performs. It feeds each outcome in as a
//! [`DriverEvent`] and carries out the [`DriverEffect`]s it gets back, in the
//! order given.

use vstd::prelude::*;
use crate::address::{address_text, server_address};
use crate::event::{
    request_of, BufInfo, CursorView, MessageEvent, MessageView, ReportCursorMovementRequest,
    RequestView,
};

verus! {

/// Where a session stands. A session only ever moves forward through these.
#[derive(Debug, Clone, Copy, PartialEq, Eq, Structural)]
pub enum DriverState {
    /// The single connection attempt has not finished yet.
    Connecting,
    /// Connected: cursor positions are being forwarded.
    Streaming,
    /// Over, after a failed connection or the end of the outbound channel.
    Closed,
}

/// Something that happened outside and that the driver must react to.
#[derive(Debug, PartialEq, Eq)]
pub enum DriverEvent {
    /// The connection attempt succeeded.
    Connected,
    /// The connection attempt failed; the text describes the cause.
    ConnectFailed(String),
    /// The outbound channel delivered a cursor position.
    Cursor(BufInfo),
    /// The call that reported the previous cursor position failed.
    ReportFailed,
    /// Every sender of the outbound channel is gone: end of stream.
    OutboundClosed,
}

/// Something the embedding program must do on the driver's behalf.
#[derive(Debug, PartialEq, Eq)]
pub enum DriverEffect {
    /// Put the message on the inbound channel.
    Enqueue(MessageEvent),
    /// Signal the editor's loop that the inbound channel holds a message.
    Wake,
    /// Send the request to the server and wait until the call is over.
    Report(ReportCursorMovementRequest),
}

/// Mathematical content of a [`DriverEvent`].
pub enum EventView {
    Connected,
    ConnectFailed(Seq<char>),
    Cursor(CursorView),
    ReportFailed,
    OutboundClosed,
}

/// Mathematical content of a [`DriverEffect`].
pub enum EffectView {
    Enqueue(MessageView),
    Wake,
    Report(RequestView),
}

impl View for DriverEvent {
    type V = EventView;

    open spec fn view(&self) -> EventView {
        match self {
            DriverEvent::Connected => EventView::Connected,
            DriverEvent::ConnectFailed(cause) => EventView::ConnectFailed(cause@),
            DriverEvent::Cursor(info) => EventView::Cursor(info@),
            DriverEvent::ReportFailed => EventView::ReportFailed,
            DriverEvent::OutboundClosed => EventView::OutboundClosed,
        }
    }
}

impl View for DriverEffect {
    type V = EffectView;

    open spec fn view(&self) -> EffectView {
        match self {
            DriverEffect::Enqueue(message) => EffectView::Enqueue(message@),
            DriverEffect::Wake => EffectView::Wake,
            DriverEffect::Report(request) => EffectView::Report(request@),
        }
    }
}

/// The contents of a list of effects, in order.
pub open spec fn effect_views(effects: Seq<DriverEffect>) -> Seq<EffectView> {
    effects.map_values(|effect: DriverEffect| effect@)
}

/// The notice that follows a successful connection.
pub open spec fn connected_notice() -> MessageView {
    MessageView { err: false, text: "Connected to server"@ }
}

/// The notice that ends a session whose outbound channel was closed.
pub open spec fn disconnected_notice() -> MessageView {
    MessageView { err: false, text: "Client disconnected"@ }
}

/// The error notice for a connection attempt on `port` that failed with the
/// given cause: it names the address and the cause.
pub open spec fn failure_notice(port: u16, cause: Seq<char>) -> MessageView {
    MessageView {
        err: true,
        text: "Failed to connect to server "@ + address_text(port) + ": "@ + cause,
    }
}

/// Delivering a message to the editor: first the message goes on the inbound
/// channel, then the editor's loop is woken.
pub open spec fn notify(message: MessageView) -> Seq<EffectView> {
    seq![EffectView::Enqueue(message), EffectView::Wake]
}

/// One transition: the state after `event` and the effects it calls for.
///
/// An event that the state has no use for changes nothing and calls for
/// nothing.
pub open spec fn step_model(state: DriverState, port: u16, event: EventView) -> (
    DriverState,
    Seq<EffectView>,
) {
    match (state, event) {
        (DriverState::Connecting, EventView::Connected) => (
            DriverState::Streaming,
            notify(connected_notice()),
        ),
        (DriverState::Connecting, EventView::ConnectFailed(cause)) => (
            DriverState::Closed,
            notify(failure_notice(port, cause)),
        ),
        (DriverState::Streaming, EventView::Cursor(cursor)) => (
            DriverState::Streaming,
            seq![EffectView::Report(request_of(cursor))],
        ),
        (DriverState::Streaming, EventView::OutboundClosed) => (
            DriverState::Closed,
            notify(disconnected_notice()),
        ),
        _ => (state, Seq::empty()),
    }
}

/// The error message for a connection attempt on `port` that failed.
pub fn connect_failure(port: u16, cause: &str) -> (message: MessageEvent)
    ensures
        message@ == failure_notice(port, cause@),
{
    let mut text = String::from_str("Failed to connect to server ");
    let address = server_address(port);
    text.append(address.as_str());
    text.append(": ");
    text.append(cause);
    MessageEvent::new(true, text)
}

/// The two effects that deliver `message`.
fn deliver(message: MessageEvent) -> (effects: Vec<DriverEffect>)
    ensures
        effect_views(effects@) == notify(message@),
{
    let mut effects = Vec::new();
    effects.push(DriverEffect::Enqueue(message));
    effects.push(DriverEffect::Wake);
    effects
}

/// The state machine of one session.
#[derive(Debug)]
pub struct Driver {
    state: DriverState,
    port: u16,
}

/// Mathematical content of a [`Driver`].
pub struct DriverView {
    pub state: DriverState,
    pub port: u16,
}

impl View for Driver {
    type V = DriverView;

    closed spec fn view(&self) -> DriverView {
        DriverView { state: self.state, port: self.port }
    }
}

impl Driver {
    /// A session that is about to make its connection attempt on `port`.
    pub fn new(port: u16) -> (driver: Self)
        ensures
            driver@ == (DriverView { state: DriverState::Connecting, port }),
    {
        Driver { state: DriverState::Connecting, port }
    }

    /// Where the session stands.
    pub fn state(&self) -> (state: DriverState)
        ensures
            state == self@.state,
    {
        self.state
    }

    /// The port the session was created for.
    pub fn port(&self) -> (port: u16)
        ensures
            port == self@.port,
    {
        self.port
    }

    /// The address to connect to.
    pub fn address(&self) -> (address: String)
        ensures
            address@ == address_text(self@.port),
    {
        server_address(self.port)
    }

    /// Takes one event: moves the session on and returns what must be done,
    /// in order.
    pub fn step(&mut self, event: DriverEvent) -> (effects: Vec<DriverEffect>)
        ensures
            final(self)@.port == old(self)@.port,
            (final(self)@.state, effect_views(effects@)) == step_model(
                old(self)@.state,
                old(self)@.port,
                event@,
            ),
    {
        match self.state {
            DriverState::Connecting => match event {
                DriverEvent::Connected => {
                    self.state = DriverState::Streaming;
                    deliver(MessageEvent::from("Connected to server"))
                },
                DriverEvent::ConnectFailed(cause) => {
                    self.state = DriverState::Closed;
                    deliver(connect_failure(self.port, cause.as_str()))
                },
                _ => Vec::new(),
            },
            DriverState::Streaming => match event {
                DriverEvent::Cursor(info) => {
                    let mut effects = Vec::new();
                    effects.push(DriverEffect::Report(ReportCursorMovementRequest::from(info)));
                    effects
                },
                DriverEvent::OutboundClosed => {
                    self.state = DriverState::Closed;
                    deliver(MessageEvent::from("Client disconnected"))
                },
                _ => Vec::new(),
            },
            DriverState::Closed => Vec::new(),
        }
    }
}

} // verus!
