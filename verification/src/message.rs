//! The control messages: what an inbound text frame asks for, and the texts
//! of the notifications that the hub sends.

use crate::json::{
    json_document, json_object_text, parse_document, render_object, text_at, text_member,
    text_pairs, uint_at, uint_member, uint_pairs, Scalar,
};
use vstd::prelude::*;
use vstd::string::*;

verus! {

/// The members of an inbound text frame that the protocol reads.
#[derive(Debug, PartialEq, Eq)]
pub struct Envelope {
    /// The string member `type`.
    pub kind: Option<String>,
    /// The string member `connectionId`.
    pub connection_id: Option<String>,
    /// The string member `file_name`.
    pub file_name: Option<String>,
    /// The unsigned integer member `file_size`.
    pub file_size: Option<u64>,
    /// The string member `target_id`.
    pub target_id: Option<String>,
}

/// What an envelope holds.
pub struct EnvelopeView {
    pub kind: Option<Seq<char>>,
    pub connection_id: Option<Seq<char>>,
    pub file_name: Option<Seq<char>>,
    pub file_size: Option<u64>,
    pub target_id: Option<Seq<char>>,
}

/// The view of an optional string.
pub open spec fn text_view(text: Option<String>) -> Option<Seq<char>> {
    match text {
        Some(s) => Some(s@),
        None => None,
    }
}

impl View for Envelope {
    type V = EnvelopeView;

    open spec fn view(&self) -> EnvelopeView {
        EnvelopeView {
            kind: text_view(self.kind),
            connection_id: text_view(self.connection_id),
            file_name: text_view(self.file_name),
            file_size: self.file_size,
            target_id: text_view(self.target_id),
        }
    }
}

/// What an inbound text frame asks the hub to do.
#[derive(Debug, PartialEq, Eq)]
pub enum Control {
    /// Let this connection answer to `connection_id` as well.
    Register { connection_id: String },
    /// Announce a transfer.
    InitTransfer { file_name: String, file_size: u64 },
    /// Pair with `target_id` and pass the frame on to it.
    Direct { target_id: String },
    /// Nothing: the frame is dropped.
    Ignored,
}

/// What a control message holds.
pub enum ControlView {
    Register { connection_id: Seq<char> },
    InitTransfer { file_name: Seq<char>, file_size: u64 },
    Direct { target_id: Seq<char> },
    Ignored,
}

impl View for Control {
    type V = ControlView;

    open spec fn view(&self) -> ControlView {
        match self {
            Control::Register { connection_id } => ControlView::Register {
                connection_id: connection_id@,
            },
            Control::InitTransfer { file_name, file_size } => ControlView::InitTransfer {
                file_name: file_name@,
                file_size: *file_size,
            },
            Control::Direct { target_id } => ControlView::Direct { target_id: target_id@ },
            Control::Ignored => ControlView::Ignored,
        }
    }
}

/// The control message that an envelope stands for. A recognised `type`
/// decides alone: a `register` without `connectionId`, or an `init_transfer`
/// that lacks a field, is ignored even where a `target_id` is present. Only
/// without a recognised `type` does `target_id` make a direct message.
pub open spec fn classify_spec(envelope: EnvelopeView) -> ControlView {
    if envelope.kind == Some("register"@) {
        match envelope.connection_id {
            Some(connection_id) => ControlView::Register { connection_id },
            None => ControlView::Ignored,
        }
    } else if envelope.kind == Some("init_transfer"@) {
        match (envelope.file_name, envelope.file_size) {
            (Some(file_name), Some(file_size)) => ControlView::InitTransfer {
                file_name,
                file_size,
            },
            _ => ControlView::Ignored,
        }
    } else {
        match envelope.target_id {
            Some(target_id) => ControlView::Direct { target_id },
            None => ControlView::Ignored,
        }
    }
}

/// The envelope of a parsed document.
pub open spec fn envelope_of(members: Map<Seq<char>, Scalar>) -> EnvelopeView {
    EnvelopeView {
        kind: text_at(members, "type"@),
        connection_id: text_at(members, "connectionId"@),
        file_name: text_at(members, "file_name"@),
        file_size: uint_at(members, "file_size"@),
        target_id: text_at(members, "target_id"@),
    }
}

/// The control message that a text frame stands for: nothing where the text
/// is not well-formed JSON, else what its envelope stands for.
pub open spec fn control_of(text: Seq<char>) -> ControlView {
    match json_document(text) {
        Some(members) => classify_spec(envelope_of(members)),
        None => ControlView::Ignored,
    }
}

/// Whether `kind` is the string `tag`.
fn is_tag(kind: &Option<String>, tag: &str) -> (same: bool)
    ensures
        same == (text_view(*kind) == Some(tag@)),
{
    match kind {
        Some(found) => *found == tag.to_owned(),
        None => false,
    }
}

/// Decides what an envelope asks for.
pub fn classify(envelope: Envelope) -> (control: Control)
    ensures
        control@ == classify_spec(envelope@),
{
    if is_tag(&envelope.kind, "register") {
        match envelope.connection_id {
            Some(connection_id) => Control::Register { connection_id },
            None => Control::Ignored,
        }
    } else if is_tag(&envelope.kind, "init_transfer") {
        match (envelope.file_name, envelope.file_size) {
            (Some(file_name), Some(file_size)) => Control::InitTransfer { file_name, file_size },
            _ => Control::Ignored,
        }
    } else {
        match envelope.target_id {
            Some(target_id) => Control::Direct { target_id },
            None => Control::Ignored,
        }
    }
}

/// Reads a text frame: parses it as JSON and decides what it asks for.
pub fn decode(text: &str) -> (control: Control)
    ensures
        control@ == control_of(text@),
{
    match parse_document(text) {
        Ok(doc) => {
            let envelope = Envelope {
                kind: text_member(&doc, "type"),
                connection_id: text_member(&doc, "connectionId"),
                file_name: text_member(&doc, "file_name"),
                file_size: uint_member(&doc, "file_size"),
                target_id: text_member(&doc, "target_id"),
            };
            classify(envelope)
        },
        Err(_) => Control::Ignored,
    }
}

/// The path under which a transfer can be received.
pub open spec fn share_path(transfer_id: Seq<char>) -> Seq<char> {
    "/receive/"@ + transfer_id
}

/// The text of the answer to a sender who announced a transfer.
pub open spec fn transfer_created_text(transfer_id: Seq<char>) -> Seq<char> {
    json_object_text(
        seq![
            ("type"@, "transfer_created"@),
            ("transfer_id"@, transfer_id),
            ("share_url"@, share_path(transfer_id)),
        ],
        Seq::empty(),
    )
}

/// The text that tells a sender that a receiver has joined its transfer.
pub open spec fn receiver_connected_text(transfer_id: Seq<char>, receiver_id: Seq<char>) -> Seq<
    char,
> {
    json_object_text(
        seq![
            ("type"@, "receiver_connected"@),
            ("transfer_id"@, transfer_id),
            ("receiver_id"@, receiver_id),
        ],
        Seq::empty(),
    )
}

/// The text that tells a receiver what it is about to receive.
pub open spec fn transfer_ready_text(file_name: Seq<char>, file_size: u64) -> Seq<char> {
    json_object_text(
        seq![("type"@, "transfer_ready"@), ("file_name"@, file_name)],
        seq![("file_size"@, file_size)],
    )
}

/// Builds the answer to a sender who announced a transfer: the transfer's id
/// and the path under which it can be received.
pub fn transfer_created(transfer_id: &str) -> (text: String)
    ensures
        text@ == transfer_created_text(transfer_id@),
{
    let path = "/receive/".to_owned().concat(transfer_id);
    let mut texts: Vec<(String, String)> = Vec::new();
    texts.push(("type".to_owned(), "transfer_created".to_owned()));
    texts.push(("transfer_id".to_owned(), transfer_id.to_owned()));
    texts.push(("share_url".to_owned(), path));
    let uints: Vec<(String, u64)> = Vec::new();
    assert(text_pairs(texts@) =~= seq![
        ("type"@, "transfer_created"@),
        ("transfer_id"@, transfer_id@),
        ("share_url"@, share_path(transfer_id@)),
    ]);
    assert(uint_pairs(uints@) =~= Seq::empty());
    render_object(&texts, &uints)
}

/// Builds the notification for a sender whose transfer a receiver joined.
pub fn receiver_connected(transfer_id: &str, receiver_id: &str) -> (text: String)
    ensures
        text@ == receiver_connected_text(transfer_id@, receiver_id@),
{
    let mut texts: Vec<(String, String)> = Vec::new();
    texts.push(("type".to_owned(), "receiver_connected".to_owned()));
    texts.push(("transfer_id".to_owned(), transfer_id.to_owned()));
    texts.push(("receiver_id".to_owned(), receiver_id.to_owned()));
    let uints: Vec<(String, u64)> = Vec::new();
    assert(text_pairs(texts@) =~= seq![
        ("type"@, "receiver_connected"@),
        ("transfer_id"@, transfer_id@),
        ("receiver_id"@, receiver_id@),
    ]);
    assert(uint_pairs(uints@) =~= Seq::empty());
    render_object(&texts, &uints)
}

/// Builds the notification for a receiver who joined a transfer.
pub fn transfer_ready(file_name: &str, file_size: u64) -> (text: String)
    ensures
        text@ == transfer_ready_text(file_name@, file_size),
{
    let mut texts: Vec<(String, String)> = Vec::new();
    texts.push(("type".to_owned(), "transfer_ready".to_owned()));
    texts.push(("file_name".to_owned(), file_name.to_owned()));
    let mut uints: Vec<(String, u64)> = Vec::new();
    uints.push(("file_size".to_owned(), file_size));
    assert(text_pairs(texts@) =~= seq![("type"@, "transfer_ready"@), ("file_name"@, file_name@)]);
    assert(uint_pairs(uints@) =~= seq![("file_size"@, file_size)]);
    render_object(&texts, &uints)
}

} // verus!
