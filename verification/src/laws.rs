//! What holds of the hub whatever the sessions do, stated over the state
//! machine that the executable session is proved to follow.

use crate::frame::{frames_for, DeliveryView, FrameView, Handle};
use crate::message::{classify_spec, transfer_created_text, ControlView, EnvelopeView};
use crate::model::{
    after_binary, after_close, after_connect, after_control, after_join, after_start, unchanged,
    HubView, Phase, SessionView,
};
use crate::transfer::{record_at, TransferInfoView};
use vstd::prelude::*;

verus! {

/// A list of one delivery adds that one frame to the stream it is addressed
/// to and nothing to any other stream.
proof fn lemma_frames_of_one(delivery: DeliveryView, handle: Handle)
    ensures
        frames_for(seq![delivery], handle) == if delivery.to == handle {
            seq![delivery.frame]
        } else {
            Seq::<FrameView>::empty()
        },
{
    let wanted = |d: DeliveryView| d.to == handle;
    let list = seq![delivery];
    reveal(Seq::filter);
    assert(list.drop_last() =~= Seq::<DeliveryView>::empty());
    assert(list.drop_last().filter(wanted) =~= Seq::<DeliveryView>::empty());
    if delivery.to == handle {
        assert(list.filter(wanted) =~= seq![delivery]);
        assert(frames_for(list, handle) =~= seq![delivery.frame]);
    } else {
        assert(list.filter(wanted) =~= Seq::<DeliveryView>::empty());
        assert(frames_for(list, handle) =~= Seq::<FrameView>::empty());
    }
}

/// An empty list of deliveries adds nothing to any stream.
proof fn lemma_frames_of_none(handle: Handle)
    ensures
        frames_for(Seq::<DeliveryView>::empty(), handle) == Seq::<FrameView>::empty(),
{
    let wanted = |d: DeliveryView| d.to == handle;
    reveal(Seq::filter);
    assert(Seq::<DeliveryView>::empty().filter(wanted) =~= Seq::<DeliveryView>::empty());
    assert(frames_for(Seq::<DeliveryView>::empty(), handle) =~= Seq::<FrameView>::empty());
}

/// Two lists of deliveries, one after the other, add to each stream what the
/// first adds and then what the second adds.
proof fn lemma_frames_of_both(first: Seq<DeliveryView>, second: Seq<DeliveryView>, handle: Handle)
    ensures
        frames_for(first + second, handle) == frames_for(first, handle) + frames_for(
            second,
            handle,
        ),
{
    let wanted = |d: DeliveryView| d.to == handle;
    Seq::filter_distributes_over_add(first, second, wanted);
    assert(frames_for(first + second, handle) =~= frames_for(first, handle) + frames_for(
        second,
        handle,
    ));
}

/// How an envelope is read. An `init_transfer` with a name and a size is an
/// announcement, and a `register` with a connection id is a registration,
/// whatever else the envelope holds. A target makes a direct message exactly
/// where the type is neither of the two: under a recognised type the target
/// is not looked at, and the frame is not relayed.
pub proof fn law_recognised_type_decides_alone(envelope: EnvelopeView)
    ensures
        envelope.kind == Some("init_transfer"@) ==> classify_spec(envelope) == match (
            envelope.file_name,
            envelope.file_size,
        ) {
            (Some(file_name), Some(file_size)) => ControlView::InitTransfer {
                file_name,
                file_size,
            },
            _ => ControlView::Ignored,
        },
        envelope.kind == Some("register"@) ==> classify_spec(envelope) == match envelope
            .connection_id {
            Some(connection_id) => ControlView::Register { connection_id },
            None => ControlView::Ignored,
        },
        classify_spec(envelope) is Direct <==> {
            &&& envelope.target_id.is_some()
            &&& envelope.kind != Some("register"@)
            &&& envelope.kind != Some("init_transfer"@)
        },
        classify_spec(envelope) is Direct ==> envelope.target_id == Some(
            classify_spec(envelope)->target_id,
        ),
{
    reveal_strlit("register");
    reveal_strlit("init_transfer");
    assert("register"@.len() == 8);
    assert("init_transfer"@.len() == 13);
}

/// A transfer that was just announced resolves at once, under the id that
/// the sender is told, to the name and size that were submitted and to the
/// sender's id; the sender is told that id and the path made of it, and
/// nobody else is told anything.
pub proof fn law_announced_transfer_resolves(
    session: SessionView,
    hub: HubView,
    file_name: Seq<char>,
    file_size: u64,
    text: Seq<char>,
    fresh: Seq<char>,
)
    requires
        session.phase == Phase::Active,
    ensures
        ({
            let after = after_control(
                session,
                hub,
                ControlView::InitTransfer { file_name, file_size },
                text,
                fresh,
            );
            &&& record_at(after.hub.transfers, fresh) == Some(
                TransferInfoView { file_name, file_size, sender_id: session.id },
            )
            &&& frames_for(after.deliveries, session.handle) == seq![
                FrameView::Text(transfer_created_text(fresh)),
            ]
            &&& forall|other: Handle|
                other != session.handle ==> #[trigger] frames_for(after.deliveries, other)
                    == Seq::<FrameView>::empty()
            &&& after.session == session
            &&& after.hub.registry == hub.registry
        }),
{
    let sent = DeliveryView {
        to: session.handle,
        frame: FrameView::Text(transfer_created_text(fresh)),
    };
    lemma_frames_of_one(sent, session.handle);
    assert forall|other: Handle| other != session.handle implies #[trigger] frames_for(
        seq![sent],
        other,
    ) == Seq::<FrameView>::empty() by {
        lemma_frames_of_one(sent, other);
    }
}

/// A transfer that is filed under an id not yet in use gets an id of its
/// own: the id differs from that of every transfer on record, every earlier
/// record stays as it was, and the store grows by exactly the new record.
/// Whether a drawn id is in use is a matter of chance; the hub does not look.
pub proof fn law_unused_id_is_unique(
    session: SessionView,
    hub: HubView,
    file_name: Seq<char>,
    file_size: u64,
    text: Seq<char>,
    fresh: Seq<char>,
)
    requires
        session.phase == Phase::Active,
        !hub.transfers.contains_key(fresh),
    ensures
        ({
            let after = after_control(
                session,
                hub,
                ControlView::InitTransfer { file_name, file_size },
                text,
                fresh,
            );
            &&& forall|id: Seq<char>| #[trigger]
                hub.transfers.contains_key(id) ==> id != fresh && record_at(
                    after.hub.transfers,
                    id,
                ) == record_at(hub.transfers, id)
            &&& after.hub.transfers.remove(fresh) == hub.transfers
        }),
{
    let after = after_control(
        session,
        hub,
        ControlView::InitTransfer { file_name, file_size },
        text,
        fresh,
    );
    assert(after.hub.transfers.remove(fresh) =~= hub.transfers);
}

/// A text frame that names a registered target reaches that target's stream
/// as it was sent, once, and reaches no other stream. The sender is paired
/// with the target from then on.
pub proof fn law_direct_text_reaches_only_its_target(
    session: SessionView,
    hub: HubView,
    target: Seq<char>,
    text: Seq<char>,
    fresh: Seq<char>,
)
    requires
        session.phase == Phase::Active,
        hub.registry.contains_key(target),
    ensures
        ({
            let after = after_control(
                session,
                hub,
                ControlView::Direct { target_id: target },
                text,
                fresh,
            );
            &&& frames_for(after.deliveries, hub.registry[target]) == seq![FrameView::Text(text)]
            &&& forall|other: Handle|
                other != hub.registry[target] ==> #[trigger] frames_for(after.deliveries, other)
                    == Seq::<FrameView>::empty()
            &&& after.session == (SessionView { peer: Some(target), ..session })
            &&& after.hub == hub
        }),
{
    let after = after_control(
        session,
        hub,
        ControlView::Direct { target_id: target },
        text,
        fresh,
    );
    let sent = DeliveryView { to: hub.registry[target], frame: FrameView::Text(text) };
    assert(after.deliveries == seq![sent]);
    lemma_frames_of_one(sent, hub.registry[target]);
    assert forall|other: Handle| other != hub.registry[target] implies #[trigger] frames_for(
        after.deliveries,
        other,
    ) == Seq::<FrameView>::empty() by {
        lemma_frames_of_one(sent, other);
    }
}

/// While a session is paired with a registered target, each binary frame
/// from it reaches the target's stream unchanged and reaches no other
/// stream. Relaying changes nothing, so this holds of every later frame too:
/// the same payload relayed twice arrives twice, as two frames equal to the
/// payload.
pub proof fn law_binary_follows_the_pairing(
    session: SessionView,
    hub: HubView,
    target: Seq<char>,
    payload: Seq<u8>,
)
    requires
        session.phase == Phase::Active,
        session.peer == Some(target),
        hub.registry.contains_key(target),
    ensures
        ({
            let once = after_binary(session, hub, payload);
            let twice = after_binary(once.session, once.hub, payload);
            &&& frames_for(once.deliveries, hub.registry[target]) == seq![
                FrameView::Binary(payload),
            ]
            &&& forall|other: Handle|
                other != hub.registry[target] ==> #[trigger] frames_for(once.deliveries, other)
                    == Seq::<FrameView>::empty()
            &&& once.session == session
            &&& once.hub == hub
            &&& twice == once
            &&& frames_for(once.deliveries + twice.deliveries, hub.registry[target]) == seq![
                FrameView::Binary(payload),
                FrameView::Binary(payload),
            ]
        }),
{
    let once = after_binary(session, hub, payload);
    let sent = DeliveryView { to: hub.registry[target], frame: FrameView::Binary(payload) };
    assert(once.deliveries == seq![sent]);
    lemma_frames_of_one(sent, hub.registry[target]);
    assert forall|other: Handle| other != hub.registry[target] implies #[trigger] frames_for(
        once.deliveries,
        other,
    ) == Seq::<FrameView>::empty() by {
        lemma_frames_of_one(sent, other);
    }
    lemma_frames_of_both(once.deliveries, once.deliveries, hub.registry[target]);
    assert(seq![FrameView::Binary(payload)] + seq![FrameView::Binary(payload)] =~= seq![
        FrameView::Binary(payload),
        FrameView::Binary(payload),
    ]);
}

/// A frame for a target that the registry does not know is dropped: no
/// stream receives anything, the sender included, and the shared state stays
/// as it was. This holds of a text frame that names the target and of a
/// binary frame from a session paired with it.
pub proof fn law_unknown_target_is_dropped(
    session: SessionView,
    hub: HubView,
    target: Seq<char>,
    text: Seq<char>,
    fresh: Seq<char>,
    payload: Seq<u8>,
)
    requires
        !hub.registry.contains_key(target),
    ensures
        ({
            let direct = after_control(
                session,
                hub,
                ControlView::Direct { target_id: target },
                text,
                fresh,
            );
            let binary = after_binary(
                SessionView { peer: Some(target), ..session },
                hub,
                payload,
            );
            &&& direct.deliveries == Seq::<DeliveryView>::empty()
            &&& direct.hub == hub
            &&& binary == unchanged(SessionView { peer: Some(target), ..session }, hub)
            &&& forall|any: Handle| #[trigger]
                frames_for(direct.deliveries, any) == Seq::<FrameView>::empty()
            &&& forall|any: Handle| #[trigger]
                frames_for(binary.deliveries, any) == Seq::<FrameView>::empty()
        }),
{
    assert forall|any: Handle| #[trigger]
        frames_for(Seq::<DeliveryView>::empty(), any) == Seq::<FrameView>::empty() by {
        lemma_frames_of_none(any);
    }
}

/// A binary frame from a session that has no peer is dropped.
pub proof fn law_unpaired_binary_is_dropped(session: SessionView, hub: HubView, payload: Seq<u8>)
    requires
        session.peer.is_none(),
    ensures
        after_binary(session, hub, payload) == unchanged(session, hub),
{
}

/// Joining a transfer that is not on record leaves the session as it was,
/// so an unpaired session stays unpaired, and sends nothing to anybody.
pub proof fn law_joining_unknown_transfer_does_nothing(
    session: SessionView,
    hub: HubView,
    transfer_id: Seq<char>,
)
    requires
        !hub.transfers.contains_key(transfer_id),
    ensures
        after_join(session, hub, transfer_id) == unchanged(session, hub),
{
}

/// A plain connect leaves an active session that is registered under its id
/// and paired with nobody, and sends nothing. A connect that names a
/// transfer which is not on record does the same.
pub proof fn law_connect_without_transfer_is_unpaired(
    id: Seq<char>,
    handle: Handle,
    hub: HubView,
    transfer_id: Seq<char>,
)
    ensures
        ({
            let plain = after_connect(id, handle, hub, None);
            &&& plain.session.phase == Phase::Active
            &&& plain.session.peer.is_none()
            &&& plain.hub.registry == hub.registry.insert(id, handle)
            &&& plain.hub.transfers == hub.transfers
            &&& plain.deliveries == Seq::<DeliveryView>::empty()
            &&& !hub.transfers.contains_key(transfer_id) ==> after_connect(
                id,
                handle,
                hub,
                Some(transfer_id),
            ) == plain
        }),
{
}

/// Joining pairs the joining session with the sender and changes nothing
/// that is shared: no registry entry, no transfer record. The sender's own
/// pairing, which lives in the sender's session, is out of its reach.
pub proof fn law_joining_pairs_the_joiner_alone(
    session: SessionView,
    hub: HubView,
    transfer_id: Seq<char>,
)
    requires
        session.phase == Phase::Active,
        hub.transfers.contains_key(transfer_id),
    ensures
        after_join(session, hub, transfer_id).session.peer == Some(
            hub.transfers[transfer_id].sender_id,
        ),
        after_join(session, hub, transfer_id).hub == hub,
{
}

/// A started session is registered under its id, and a closed session is
/// not, whatever phase it was closed in: a direct message that any session
/// then sends to that id is dropped.
pub proof fn law_closed_session_is_unreachable(
    session: SessionView,
    hub: HubView,
    sender: SessionView,
    text: Seq<char>,
    fresh: Seq<char>,
)
    requires
        session.phase != Phase::Closed,
    ensures
        session.phase == Phase::Connecting ==> after_start(session, hub).hub.registry.contains_key(
            session.id,
        ) && after_start(session, hub).hub.registry[session.id] == session.handle,
        after_close(session, hub).session.phase == Phase::Closed,
        !after_close(session, hub).hub.registry.contains_key(session.id),
        after_control(
            sender,
            after_close(session, hub).hub,
            ControlView::Direct { target_id: session.id },
            text,
            fresh,
        ).deliveries == Seq::<DeliveryView>::empty(),
{
}

/// No message and no join removes a registry entry or changes a transfer
/// record: a connection stays registered until a session is closed, and a
/// record stays as it was filed unless a new transfer is filed under its id.
pub proof fn law_messages_keep_what_is_registered(
    session: SessionView,
    hub: HubView,
    control: ControlView,
    text: Seq<char>,
    fresh: Seq<char>,
    transfer_id: Seq<char>,
    payload: Seq<u8>,
)
    ensures
        forall|id: Seq<char>| #[trigger]
            hub.registry.contains_key(id) ==> {
                &&& after_control(session, hub, control, text, fresh).hub.registry.contains_key(id)
                &&& after_join(session, hub, transfer_id).hub.registry.contains_key(id)
                &&& after_binary(session, hub, payload).hub.registry.contains_key(id)
            },
        forall|id: Seq<char>| #[trigger]
            hub.transfers.contains_key(id) && id != fresh ==> {
                &&& record_at(after_control(session, hub, control, text, fresh).hub.transfers, id)
                    == record_at(hub.transfers, id)
                &&& record_at(after_join(session, hub, transfer_id).hub.transfers, id)
                    == record_at(hub.transfers, id)
                &&& record_at(after_binary(session, hub, payload).hub.transfers, id) == record_at(
                    hub.transfers,
                    id,
                )
            },
{
}

} // verus!
