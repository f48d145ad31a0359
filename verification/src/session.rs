//! One connection's session: its life from start to close, and the routing
//! of every frame that arrives on it.

use crate::frame::{delivery_views, Delivery, DeliveryView, Frame, FrameView, Handle};
use crate::hub::Hub;
use crate::ident::{is_hyphenated_id, random_id};
use crate::message::{
    control_of, decode, receiver_connected, text_view, transfer_created, transfer_ready, Control,
    ControlView,
};
use crate::model::{
    after_binary, after_close, after_connect, after_control, after_duty_exit, after_frame,
    after_join, after_start, connecting, relay, HubView, Outcome, Phase, SessionView,
};
use crate::registry::Registry;
use crate::transfer::TransferInfo;
use vstd::prelude::*;

verus! {

/// The state of one connection. The id and the handle are fixed when the
/// session is made; the peer changes with every pairing.
#[derive(Debug)]
pub struct Session {
    id: String,
    handle: Handle,
    peer: Option<String>,
    phase: Phase,
}

impl View for Session {
    type V = SessionView;

    closed spec fn view(&self) -> SessionView {
        SessionView {
            id: self.id@,
            handle: self.handle,
            peer: text_view(self.peer),
            phase: self.phase,
        }
    }
}

/// What a step left behind, taken together: the session, the shared state
/// and the deliveries it returned.
pub open spec fn outcome_of(session: SessionView, hub: HubView, out: Seq<Delivery>) -> Outcome {
    Outcome { session, hub, deliveries: delivery_views(out) }
}

/// The control message that a frame carries: that of its text, and nothing
/// for a frame of any other kind.
pub open spec fn frame_control(frame: FrameView) -> ControlView {
    match frame {
        FrameView::Text(text) => control_of(text),
        _ => ControlView::Ignored,
    }
}

/// Whether a session that receives `control` files a new transfer, and so
/// needs a fresh id.
pub open spec fn files_transfer(session: SessionView, control: ControlView) -> bool {
    session.phase == Phase::Active && control is InitTransfer
}

/// The view of an optional string slice.
pub open spec fn str_view(text: Option<&str>) -> Option<Seq<char>> {
    match text {
        Some(s) => Some(s@),
        None => None,
    }
}

/// No delivery at all.
fn nothing() -> (out: Vec<Delivery>)
    ensures
        delivery_views(out@) == Seq::<DeliveryView>::empty(),
{
    let out: Vec<Delivery> = Vec::new();
    assert(delivery_views(out@) =~= Seq::empty());
    out
}

/// One delivery of `frame` to `to`.
fn one(to: Handle, frame: Frame) -> (out: Vec<Delivery>)
    ensures
        delivery_views(out@) == seq![(Delivery { to, frame })@],
{
    let mut out: Vec<Delivery> = Vec::new();
    out.push(Delivery { to, frame });
    assert(delivery_views(out@) =~= seq![(Delivery { to, frame })@]);
    out
}

/// Addresses `frame` to whatever the registry binds to `target`.
fn relay_to(registry: &Registry, target: &str, frame: Frame) -> (out: Vec<Delivery>)
    ensures
        delivery_views(out@) == relay(registry@, target@, frame@),
{
    match registry.get(target) {
        Some(to) => one(to, frame),
        None => nothing(),
    }
}

impl Session {
    /// A session for a connection whose id is `id`, not yet registered.
    pub fn new(id: String, handle: Handle) -> (session: Session)
        ensures
            session@ == connecting(id@, handle),
    {
        Session { id, handle, peer: None, phase: Phase::Connecting }
    }

    /// A session under a freshly drawn id, not yet registered.
    pub fn generate(handle: Handle) -> (session: Session)
        ensures
            is_hyphenated_id(session@.id),
            session@ == connecting(session@.id, handle),
    {
        Session::new(random_id(), handle)
    }

    /// The id that was generated for the connection.
    pub fn id(&self) -> (id: &str)
        ensures
            id@ == self@.id,
    {
        self.id.as_str()
    }

    /// The connection's outbound stream.
    pub fn handle(&self) -> (handle: Handle)
        ensures
            handle == self@.handle,
    {
        self.handle
    }

    /// The connection that binary frames are relayed to, if any.
    pub fn peer(&self) -> (peer: Option<&str>)
        ensures
            str_view(peer) == self@.peer,
    {
        match &self.peer {
            Some(id) => Some(id.as_str()),
            None => None,
        }
    }

    /// Where the session stands in its life.
    pub fn phase(&self) -> (phase: Phase)
        ensures
            phase == self@.phase,
    {
        self.phase
    }

    /// Whether the session is registered and its duties are to go on.
    pub fn is_active(&self) -> (active: bool)
        ensures
            active == (self@.phase == Phase::Active),
    {
        match self.phase {
            Phase::Active => true,
            _ => false,
        }
    }

    /// Registers the session under its id and makes it active.
    pub fn start(&mut self, hub: &mut Hub)
        ensures
            final(self)@ == after_start(old(self)@, old(hub)@).session,
            final(hub)@ == after_start(old(self)@, old(hub)@).hub,
    {
        match self.phase {
            Phase::Connecting => {
                hub.registry.put(self.id.clone(), self.handle);
                self.phase = Phase::Active;
            },
            _ => {},
        }
    }

    /// Joins the transfer `transfer_id`: pairs with its sender, tells the
    /// sender who joined and tells this connection what to expect. Joining a
    /// transfer that is not on record does nothing.
    pub fn join(&mut self, hub: &Hub, transfer_id: &str) -> (out: Vec<Delivery>)
        ensures
            outcome_of(final(self)@, hub@, out@) == after_join(old(self)@, hub@, transfer_id@),
    {
        if !self.is_active() {
            return nothing();
        }
        match hub.transfers.get(transfer_id) {
            Some(info) => {
                self.peer = Some(info.sender_id.clone());
                let notice = receiver_connected(transfer_id, self.id.as_str());
                let mut out = relay_to(&hub.registry, info.sender_id.as_str(), Frame::Text(notice));
                let ghost told = out@;
                let ready = transfer_ready(info.file_name.as_str(), info.file_size);
                out.push(Delivery { to: self.handle, frame: Frame::Text(ready) });
                assert(delivery_views(out@) =~= delivery_views(told).push(out@.last()@));
                out
            },
            None => nothing(),
        }
    }

    /// Opens a connection: makes a session under a freshly drawn id, starts
    /// it, and joins the transfer `transfer_id` where one is given.
    pub fn connect(hub: &mut Hub, handle: Handle, transfer_id: Option<&str>) -> (opened: (
        Session,
        Vec<Delivery>,
    ))
        ensures
            is_hyphenated_id(opened.0@.id),
            outcome_of(opened.0@, final(hub)@, opened.1@) == after_connect(
                opened.0@.id,
                handle,
                old(hub)@,
                str_view(transfer_id),
            ),
    {
        let mut session = Session::generate(handle);
        session.start(hub);
        let out = match transfer_id {
            Some(transfer_id) => session.join(hub, transfer_id),
            None => nothing(),
        };
        (session, out)
    }

    /// Carries out a control message that arrived as the text frame `text`.
    /// A new transfer is filed under `fresh`; no other message uses it.
    pub fn on_control(&mut self, hub: &mut Hub, control: Control, text: String, fresh: String) -> (out:
        Vec<Delivery>)
        ensures
            outcome_of(final(self)@, final(hub)@, out@) == after_control(
                old(self)@,
                old(hub)@,
                control@,
                text@,
                fresh@,
            ),
    {
        if !self.is_active() {
            return nothing();
        }
        match control {
            Control::Register { connection_id } => {
                hub.registry.put(connection_id, self.handle);
                nothing()
            },
            Control::InitTransfer { file_name, file_size } => {
                let answer = transfer_created(fresh.as_str());
                let info = TransferInfo { file_name, file_size, sender_id: self.id.clone() };
                hub.transfers.insert(fresh, info);
                one(self.handle, Frame::Text(answer))
            },
            Control::Direct { target_id } => {
                let out = relay_to(&hub.registry, target_id.as_str(), Frame::Text(text));
                self.peer = Some(target_id);
                out
            },
            Control::Ignored => nothing(),
        }
    }

    /// Handles an inbound text frame: reads it, draws an id where it
    /// announces a transfer, and carries it out. Which id is drawn is not
    /// known beforehand; whatever it is, the step is the one that the state
    /// machine takes with it.
    pub fn on_text(&mut self, hub: &mut Hub, text: String) -> (out: Vec<Delivery>)
        ensures
            exists|fresh: Seq<char>|
                {
                    &&& files_transfer(old(self)@, control_of(text@)) ==> is_hyphenated_id(fresh)
                    &&& outcome_of(final(self)@, final(hub)@, out@) == #[trigger] after_control(
                        old(self)@,
                        old(hub)@,
                        control_of(text@),
                        text@,
                        fresh,
                    )
                },
    {
        if !self.is_active() {
            let out = nothing();
            assert(outcome_of(self@, hub@, out@) == after_control(
                old(self)@,
                old(hub)@,
                control_of(text@),
                text@,
                Seq::empty(),
            ));
            return out;
        }
        let control = decode(text.as_str());
        let fresh = match &control {
            Control::InitTransfer { .. } => random_id(),
            _ => String::new(),
        };
        let ghost drawn = fresh@;
        let out = self.on_control(hub, control, text, fresh);
        assert(outcome_of(self@, hub@, out@) == after_control(
            old(self)@,
            old(hub)@,
            control_of(text@),
            text@,
            drawn,
        ));
        out
    }

    /// Handles an inbound binary frame: relays it to the peer, if there is
    /// one and it is registered, and drops it otherwise.
    pub fn on_binary(&self, hub: &Hub, payload: Vec<u8>) -> (out: Vec<Delivery>)
        ensures
            outcome_of(self@, hub@, out@) == after_binary(self@, hub@, payload@),
    {
        if !self.is_active() {
            return nothing();
        }
        match &self.peer {
            Some(peer) => relay_to(&hub.registry, peer.as_str(), Frame::Binary(payload)),
            None => nothing(),
        }
    }

    /// Notes that one of the session's duties has ended, for whatever
    /// reason: an active session begins to close.
    pub fn duty_exited(&mut self)
        ensures
            final(self)@ == after_duty_exit(old(self)@),
    {
        match self.phase {
            Phase::Active => {
                self.phase = Phase::Closing;
            },
            _ => {},
        }
    }

    /// Handles one inbound frame of any kind. After a close frame the session
    /// is no longer active, and the reading duty is to stop.
    pub fn on_frame(&mut self, hub: &mut Hub, frame: Frame) -> (out: Vec<Delivery>)
        ensures
            exists|fresh: Seq<char>|
                {
                    &&& files_transfer(old(self)@, frame_control(frame@)) ==> is_hyphenated_id(
                        fresh,
                    )
                    &&& outcome_of(final(self)@, final(hub)@, out@) == #[trigger] after_frame(
                        old(self)@,
                        old(hub)@,
                        frame@,
                        frame_control(frame@),
                        fresh,
                    )
                },
    {
        let ghost seen = frame@;
        match frame {
            Frame::Text(text) => {
                let out = self.on_text(hub, text);
                proof {
                    let fresh = choose|fresh: Seq<char>|
                        {
                            &&& files_transfer(old(self)@, control_of(text@)) ==> is_hyphenated_id(
                                fresh,
                            )
                            &&& outcome_of(self@, hub@, out@) == #[trigger] after_control(
                                old(self)@,
                                old(hub)@,
                                control_of(text@),
                                text@,
                                fresh,
                            )
                        };
                    assert(outcome_of(self@, hub@, out@) == after_frame(
                        old(self)@,
                        old(hub)@,
                        seen,
                        frame_control(seen),
                        fresh,
                    ));
                }
                out
            },
            Frame::Binary(payload) => {
                let out = self.on_binary(hub, payload);
                assert(outcome_of(self@, hub@, out@) == after_frame(
                    old(self)@,
                    old(hub)@,
                    seen,
                    frame_control(seen),
                    Seq::empty(),
                ));
                out
            },
            Frame::Close => {
                self.duty_exited();
                let out = nothing();
                assert(outcome_of(self@, hub@, out@) == after_frame(
                    old(self)@,
                    old(hub)@,
                    seen,
                    frame_control(seen),
                    Seq::empty(),
                ));
                out
            },
            _ => {
                let out = nothing();
                assert(outcome_of(self@, hub@, out@) == after_frame(
                    old(self)@,
                    old(hub)@,
                    seen,
                    frame_control(seen),
                    Seq::empty(),
                ));
                out
            },
        }
    }

    /// Ends the session: its generated id leaves the registry, whatever made
    /// the session end.
    pub fn close(&mut self, hub: &mut Hub)
        ensures
            final(self)@ == after_close(old(self)@, old(hub)@).session,
            final(hub)@ == after_close(old(self)@, old(hub)@).hub,
    {
        match self.phase {
            Phase::Closed => {},
            _ => {
                hub.registry.remove(self.id.as_str());
                self.phase = Phase::Closed;
            },
        }
    }
}

} // verus!
