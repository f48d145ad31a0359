//! Frames, the handles they are delivered to, and deliveries.

use vstd::prelude::*;

verus! {

/// Names one connection's outbound stream. Whoever opens a session picks the
/// handle; frames addressed to it leave on that connection in the order in
/// which they were handed over.
#[derive(Clone, Copy, Debug, PartialEq, Eq, Structural, Hash)]
pub struct Handle {
    pub slot: u64,
}

/// One discrete message on a connection.
#[derive(Debug, PartialEq, Eq)]
pub enum Frame {
    /// A control message: UTF-8 text.
    Text(String),
    /// Payload: opaque bytes.
    Binary(Vec<u8>),
    /// A keepalive probe.
    Ping(Vec<u8>),
    /// The answer to a keepalive probe.
    Pong(Vec<u8>),
    /// The peer's explicit close signal.
    Close,
}

/// What a frame holds.
pub enum FrameView {
    Text(Seq<char>),
    Binary(Seq<u8>),
    Ping(Seq<u8>),
    Pong(Seq<u8>),
    Close,
}

impl View for Frame {
    type V = FrameView;

    open spec fn view(&self) -> FrameView {
        match self {
            Frame::Text(text) => FrameView::Text(text@),
            Frame::Binary(bytes) => FrameView::Binary(bytes@),
            Frame::Ping(bytes) => FrameView::Ping(bytes@),
            Frame::Pong(bytes) => FrameView::Pong(bytes@),
            Frame::Close => FrameView::Close,
        }
    }
}

/// A copy of a list of bytes.
fn copy_bytes(bytes: &Vec<u8>) -> (copy: Vec<u8>)
    ensures
        copy@ == bytes@,
{
    let copy = bytes.clone();
    assert(copy@ =~= bytes@);
    copy
}

impl Clone for Frame {
    fn clone(&self) -> (copy: Frame)
        ensures
            copy@ == self@,
    {
        match self {
            Frame::Text(text) => Frame::Text(text.clone()),
            Frame::Binary(bytes) => Frame::Binary(copy_bytes(bytes)),
            Frame::Ping(bytes) => Frame::Ping(copy_bytes(bytes)),
            Frame::Pong(bytes) => Frame::Pong(copy_bytes(bytes)),
            Frame::Close => Frame::Close,
        }
    }
}

/// A frame on its way to one connection's outbound stream.
#[derive(Debug, PartialEq, Eq)]
pub struct Delivery {
    pub to: Handle,
    pub frame: Frame,
}

/// What a delivery holds.
pub struct DeliveryView {
    pub to: Handle,
    pub frame: FrameView,
}

impl View for Delivery {
    type V = DeliveryView;

    open spec fn view(&self) -> DeliveryView {
        DeliveryView { to: self.to, frame: self.frame@ }
    }
}

impl Clone for Delivery {
    fn clone(&self) -> (copy: Delivery)
        ensures
            copy@ == self@,
    {
        Delivery { to: self.to, frame: self.frame.clone() }
    }
}

/// The deliveries of a list, in order.
pub open spec fn delivery_views(list: Seq<Delivery>) -> Seq<DeliveryView> {
    list.map_values(|d: Delivery| d@)
}

/// The frames that a list of deliveries adds to the outbound stream of
/// `handle`, in order.
pub open spec fn frames_for(list: Seq<DeliveryView>, handle: Handle) -> Seq<FrameView> {
    list.filter(|d: DeliveryView| d.to == handle).map_values(|d: DeliveryView| d.frame)
}

/// The frame that the keepalive duty enqueues on every tick: a ping without
/// payload.
pub fn keepalive_frame() -> (frame: Frame)
    ensures
        frame@ == FrameView::Ping(Seq::<u8>::empty()),
{
    Frame::Ping(Vec::new())
}

} // verus!
