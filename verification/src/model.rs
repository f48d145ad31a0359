//! The hub as a state machine over plain values: what each event makes of a
//! session and of the shared maps, and which frames it sends where. The
//! executable session is proved to follow these functions step by step.

use crate::frame::{DeliveryView, FrameView, Handle};
use crate::message::{
    receiver_connected_text, transfer_created_text, transfer_ready_text, ControlView,
};
use crate::transfer::TransferInfoView;
use vstd::prelude::*;

verus! {

/// Where a session stands in its life.
#[derive(Clone, Copy, Debug, PartialEq, Eq, Structural)]
pub enum Phase {
    /// The id is chosen; the registry does not know the connection yet.
    Connecting,
    /// Registered, with all duties running.
    Active,
    /// One duty has ended; the others are being abandoned.
    Closing,
    /// Removed from the registry. There is no way back.
    Closed,
}

/// One connection's own state.
pub struct SessionView {
    /// The id that was generated for the connection.
    pub id: Seq<char>,
    /// The connection's outbound stream.
    pub handle: Handle,
    /// The connection that binary frames are relayed to, if any.
    pub peer: Option<Seq<char>>,
    pub phase: Phase,
}

/// The state that all connections share.
pub struct HubView {
    pub registry: Map<Seq<char>, Handle>,
    pub transfers: Map<Seq<char>, TransferInfoView>,
}

/// What one event leaves behind: the session, the shared state, and the
/// frames to hand over, in order.
pub struct Outcome {
    pub session: SessionView,
    pub hub: HubView,
    pub deliveries: Seq<DeliveryView>,
}

/// The outcome of an event that changes nothing and sends nothing.
pub open spec fn unchanged(session: SessionView, hub: HubView) -> Outcome {
    Outcome { session, hub, deliveries: Seq::empty() }
}

/// A new session: it has an id and a handle, no peer, and is not registered.
pub open spec fn connecting(id: Seq<char>, handle: Handle) -> SessionView {
    SessionView { id, handle, peer: None, phase: Phase::Connecting }
}

/// A delivery of `frame` to whatever `registry` binds to `target`: one
/// delivery where the target resolves, none where it does not.
pub open spec fn relay(registry: Map<Seq<char>, Handle>, target: Seq<char>, frame: FrameView) -> Seq<
    DeliveryView,
> {
    if registry.contains_key(target) {
        seq![DeliveryView { to: registry[target], frame }]
    } else {
        Seq::empty()
    }
}

/// Starting a session registers its id and makes it active. Only a
/// connecting session can start.
pub open spec fn after_start(session: SessionView, hub: HubView) -> Outcome {
    if session.phase == Phase::Connecting {
        Outcome {
            session: SessionView { phase: Phase::Active, ..session },
            hub: HubView { registry: hub.registry.insert(session.id, session.handle), ..hub },
            deliveries: Seq::empty(),
        }
    } else {
        unchanged(session, hub)
    }
}

/// Joining a transfer. Where the transfer is on record, the session pairs
/// with the transfer's sender, the sender is told (if it is still
/// registered), and the session itself is told what to expect. Where it is
/// not on record, nothing happens.
pub open spec fn after_join(session: SessionView, hub: HubView, transfer_id: Seq<char>) -> Outcome {
    if session.phase == Phase::Active && hub.transfers.contains_key(transfer_id) {
        let info = hub.transfers[transfer_id];
        Outcome {
            session: SessionView { peer: Some(info.sender_id), ..session },
            hub,
            deliveries: relay(
                hub.registry,
                info.sender_id,
                FrameView::Text(receiver_connected_text(transfer_id, session.id)),
            ).push(
                DeliveryView {
                    to: session.handle,
                    frame: FrameView::Text(transfer_ready_text(info.file_name, info.file_size)),
                },
            ),
        }
    } else {
        unchanged(session, hub)
    }
}

/// Opening a connection: a session under `id` starts, and joins the transfer
/// that the connection asked for, if it asked for one.
pub open spec fn after_connect(
    id: Seq<char>,
    handle: Handle,
    hub: HubView,
    transfer_id: Option<Seq<char>>,
) -> Outcome {
    let started = after_start(connecting(id, handle), hub);
    match transfer_id {
        Some(transfer_id) => after_join(started.session, started.hub, transfer_id),
        None => started,
    }
}

/// Handling a control message that arrived as the text frame `text`.
/// `fresh` is the id that a new transfer gets; no other message uses it.
pub open spec fn after_control(
    session: SessionView,
    hub: HubView,
    control: ControlView,
    text: Seq<char>,
    fresh: Seq<char>,
) -> Outcome {
    if session.phase != Phase::Active {
        unchanged(session, hub)
    } else {
        match control {
            ControlView::Register { connection_id } => Outcome {
                session,
                hub: HubView { registry: hub.registry.insert(connection_id, session.handle), ..hub },
                deliveries: Seq::empty(),
            },
            ControlView::InitTransfer { file_name, file_size } => Outcome {
                session,
                hub: HubView {
                    transfers: hub.transfers.insert(
                        fresh,
                        TransferInfoView { file_name, file_size, sender_id: session.id },
                    ),
                    ..hub
                },
                deliveries: seq![
                    DeliveryView {
                        to: session.handle,
                        frame: FrameView::Text(transfer_created_text(fresh)),
                    },
                ],
            },
            ControlView::Direct { target_id } => Outcome {
                session: SessionView { peer: Some(target_id), ..session },
                hub,
                deliveries: relay(hub.registry, target_id, FrameView::Text(text)),
            },
            ControlView::Ignored => unchanged(session, hub),
        }
    }
}

/// Handling a binary frame: it goes to the session's peer, if the session
/// has one and the peer is registered, and nowhere else.
pub open spec fn after_binary(session: SessionView, hub: HubView, payload: Seq<u8>) -> Outcome {
    if session.phase == Phase::Active && session.peer.is_some() {
        Outcome {
            session,
            hub,
            deliveries: relay(hub.registry, session.peer.unwrap(), FrameView::Binary(payload)),
        }
    } else {
        unchanged(session, hub)
    }
}

/// The end of any one duty: an active session begins to close.
pub open spec fn after_duty_exit(session: SessionView) -> SessionView {
    if session.phase == Phase::Active {
        SessionView { phase: Phase::Closing, ..session }
    } else {
        session
    }
}

/// Handling one inbound frame, where `control` is what a text frame asks
/// for. A close frame ends the reading duty; pings and pongs pass unnoticed.
pub open spec fn after_frame(
    session: SessionView,
    hub: HubView,
    frame: FrameView,
    control: ControlView,
    fresh: Seq<char>,
) -> Outcome {
    match frame {
        FrameView::Text(text) => after_control(session, hub, control, text, fresh),
        FrameView::Binary(payload) => after_binary(session, hub, payload),
        FrameView::Close => unchanged(after_duty_exit(session), hub),
        FrameView::Ping(_) => unchanged(session, hub),
        FrameView::Pong(_) => unchanged(session, hub),
    }
}

/// Closing a session removes its generated id from the registry, whatever
/// phase it was in and whatever made it end. Aliases that it registered stay
/// behind. A closed session stays closed and touches nothing.
pub open spec fn after_close(session: SessionView, hub: HubView) -> Outcome {
    if session.phase == Phase::Closed {
        unchanged(session, hub)
    } else {
        Outcome {
            session: SessionView { phase: Phase::Closed, ..session },
            hub: HubView { registry: hub.registry.remove(session.id), ..hub },
            deliveries: Seq::empty(),
        }
    }
}

} // verus!
