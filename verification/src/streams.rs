//! Routing of events to the per-Application streams of an agent: each
//! Application has its own bounded queue, so that one Application's trouble
//! never reaches another's events.

use vstd::prelude::*;

use std::collections::BTreeMap;
use tokio::sync::mpsc::Sender;

use crate::agent_session::{control_result_of, drop_counters_of, handle_control};
use crate::counters::{snapshot_of, Counters};
use crate::delivery::{
    model_acknowledge, model_next_batch, model_push, pending_total, EventBuffer, PendingBatch,
};
use crate::event_model::same_events;
use crate::event_model::{RuntimeEvent, PROTOCOL_VERSION};
use crate::protocol::{encode_event, event_encoded};
use crate::stream_queue::offer;
pub use crate::stream_queue::{Offer, OfferReceipt, StreamItem};
use crate::wire::{
    AgentMessage, AgentMessageKind, BatchAcknowledgement, DropCounters, EventBatch, Heartbeat,
    ServerMessage, ServerMessageKind,
};

verus! {

broadcast use {vstd::laws_cmp::group_laws_cmp, vstd::std_specs::btree::group_btree_axioms};

/// The outcome of routing an event whose stream answered `outcome`: a queued
/// event is routed; an event refused for want of room is counted as dropped
/// for capacity; an ended stream drops it uncounted.
pub open spec fn settled(outcome: Offer, before: Counters) -> (bool, Counters) {
    match outcome {
        Offer::Queued => (true, before),
        Offer::Full => (
            false,
            Counters { capacity_dropped: before.capacity_dropped.wrapping_add(1), ..before },
        ),
        Offer::Closed => (false, before),
    }
}

/// Counts what an offer came to and says whether the event was routed.
pub fn settle_offer(outcome: Offer, counters: &mut Counters) -> (r: bool)
    ensures
        (r, *final(counters)) == settled(outcome, *old(counters)),
{
    match outcome {
        Offer::Queued => true,
        Offer::Full => {
            counters.capacity_dropped = counters.capacity_dropped.wrapping_add(1);
            false
        },
        Offer::Closed => false,
    }
}

/// The streams a list of routes makes: each Application's last sender.
pub open spec fn routes_map(routes: Seq<(u128, Sender<StreamItem>)>) -> Map<u128, Sender<StreamItem>>
    decreases routes.len(),
{
    if routes.len() == 0 {
        Map::empty()
    } else {
        routes_map(routes.drop_last()).insert(routes.last().0, routes.last().1)
    }
}

/// The agent's Application streams, by Application id.
pub struct ApplicationStreams {
    routes: BTreeMap<u128, Sender<StreamItem>>,
}

impl ApplicationStreams {
    /// The Applications that have a stream.
    pub closed spec fn route_ids(&self) -> Set<u128> {
        self.routes@.dom()
    }

    /// The stream of each Application that has one.
    pub closed spec fn streams(&self) -> Map<u128, Sender<StreamItem>> {
        self.routes@
    }

    /// Streams for the given Applications, each fed through its sender; a
    /// later sender for the same Application replaces an earlier one.
    pub fn new(routes: Vec<(u128, Sender<StreamItem>)>) -> (r: Self)
        ensures
            r.streams() == routes_map(routes@),
            forall|id: u128|
                #[trigger] r.route_ids().contains(id) <==> exists|i: int|
                    0 <= i < routes@.len() && routes@[i].0 == id,
    {
        let ghost all = routes@;
        let mut map: BTreeMap<u128, Sender<StreamItem>> = BTreeMap::new();
        let mut rest = routes;
        let mut taken: usize = 0;
        let total = rest.len();
        while rest.len() > 0
            invariant
                all.len() == total,
                taken + rest@.len() == all.len(),
                rest@ == all.skip(taken as int),
                map@ == routes_map(all.take(taken as int)),
                forall|id: u128|
                    #[trigger] map@.dom().contains(id) <==> exists|i: int|
                        0 <= i < taken && all[i].0 == id,
            decreases rest@.len(),
        {
            proof {
                assert(rest@[0] == all[taken as int]);
            }
            let (id, sender) = rest.remove(0);
            map.insert(id, sender);
            proof {
                let next = all.take(taken + 1);
                assert(next.drop_last() =~= all.take(taken as int));
                assert(next.last() == all[taken as int]);
            }
            proof {
                assert forall|x: u128| #[trigger] map@.dom().contains(x) <==> exists|i: int|
                    0 <= i < taken + 1 && all[i].0 == x by {
                    if x == id {
                        assert(all[taken as int].0 == x);
                    }
                    if exists|i: int| 0 <= i < taken + 1 && all[i].0 == x {
                        let i = choose|i: int| 0 <= i < taken + 1 && all[i].0 == x;
                        if i < taken {
                        }
                    }
                }
            }
            taken = taken + 1;
            assert(rest@ =~= all.skip(taken as int));
        }
        assert(all.take(total as int) =~= all);
        ApplicationStreams { routes: map }
    }

    /// How many Applications have a stream.
    pub fn route_count(&self) -> (r: usize)
        ensures
            r == self.route_ids().len(),
    {
        self.routes.len()
    }

    /// Offers an event to the stream of its Application. An event of an
    /// Application without a stream is counted as unattributed and goes
    /// nowhere; otherwise the event is offered to that Application's stream,
    /// and what the stream answered settles it.
    pub fn route(&self, event: RuntimeEvent, counters: &mut Counters) -> (r: bool)
        ensures
            !self.route_ids().contains(event.attribution.application_id) ==> !r && *final(counters)
                == (Counters {
                unattributed: old(counters).unattributed.wrapping_add(1),
                ..*old(counters)
            }),
            self.route_ids().contains(event.attribution.application_id) ==> exists|
                receipt: OfferReceipt,
            |
                #![trigger receipt.answer()]
                receipt.offered_to() == self.streams()[event.attribution.application_id]
                    && receipt.offered_item() == StreamItem::Event(Box::new(event)) && settled(
                    receipt.answer(),
                    *old(counters),
                ) == (r, *final(counters)),
    {
        let route_id = event.attribution.application_id;
        match self.routes.get(&route_id) {
            None => {
                counters.unattributed = counters.unattributed.wrapping_add(1);
                false
            },
            Some(sender) => {
                let ghost item = StreamItem::Event(Box::new(event));
                let receipt = offer(sender, StreamItem::Event(Box::new(event)));
                let ghost before = *counters;
                let r = settle_offer(receipt.outcome(), counters);
                assert(settled(receipt.answer(), before) == (r, *counters));
                assert(receipt.offered_item() == item);
                r
            },
        }
    }
}

/// Applies the server's acknowledgement of a batch to the buffer: the batch
/// is settled whether or not the server kept every event of it (events
/// outside retention are discarded by the server, not retried).
pub fn acknowledge_batch(buffer: &mut EventBuffer, counters: &mut Counters, ack: &BatchAcknowledgement) -> (r:
    bool)
    requires
        old(buffer).well_formed(),
    ensures
        final(buffer).well_formed(),
        final(buffer)@ == model_acknowledge(old(buffer)@, ack.sequence).0,
        r == model_acknowledge(old(buffer)@, ack.sequence).1 is Some,
{
    buffer.acknowledge(ack.sequence, counters)
}

// ----------------------------------------------------------- the stream loop

/// What happens to an Application stream: what its loop waits on reports
/// one of these at a time.
#[derive(Debug)]
pub enum StreamEvent {
    /// A session with the server was opened.
    Connected,
    /// The queue handed over an item.
    Item(StreamItem),
    /// The queue has no more senders.
    QueueClosed,
    /// The flush timer fired.
    FlushTick,
    /// The heartbeat timer fired at this time, in nanoseconds since the epoch.
    HeartbeatTick { now_unix_nanos: i64 },
    /// The server sent a message.
    Server(ServerMessage),
    /// The server closed the session, or receiving from it failed.
    ServerGone,
    /// The agent is shutting down.
    Shutdown,
}

/// What the stream's loop does next.
#[derive(Debug)]
pub enum StreamAction {
    /// Nothing to do.
    Wait,
    /// Send these messages, in order; a failed send ends the session.
    Send(Vec<AgentMessage>),
    /// Drop the session and open a new one.
    Reconnect,
    /// End the stream.
    Stop,
}

/// `m` carries a batch with this sequence, each event in its wire form.
pub open spec fn carries_batch(m: AgentMessage, sequence: u64, events: Seq<RuntimeEvent>) -> bool {
    &&& m.protocol_version == PROTOCOL_VERSION
    &&& m.message matches Some(AgentMessageKind::EventBatch(b)) && b.sequence == sequence
        && b.events@.len() == events.len() && forall|i: int|
        0 <= i < events.len() ==> event_encoded(#[trigger] b.events@[i], events[i])
}

/// `m` carries a batch with this sequence and events equal to these.
pub open spec fn carries_batch_of(m: AgentMessage, sequence: u64, events: Seq<RuntimeEvent>) -> bool {
    exists|e: Seq<RuntimeEvent>| same_events(e, events) && #[trigger] carries_batch(m, sequence, e)
}

/// The message that carries a batch.
pub fn batch_message(batch: PendingBatch) -> (r: AgentMessage)
    ensures
        carries_batch(r, batch.sequence, batch.events@),
{
    let ghost all = batch.events@;
    let mut rest = batch.events;
    let mut events: Vec<crate::wire::RuntimeEvent> = Vec::new();
    let total = rest.len();
    assert(all.skip(0) =~= all);
    while rest.len() > 0
        invariant
            all.len() == total,
            events@.len() + rest@.len() == total,
            rest@ == all.skip(events@.len() as int),
            forall|i: int| 0 <= i < events@.len() ==> event_encoded(#[trigger] events@[i], all[i]),
        decreases rest@.len(),
    {
        let ghost k = events@.len() as int;
        assert(rest@[0] == all[k]);
        let e = rest.remove(0);
        events.push(encode_event(e));
        assert(rest@ =~= all.skip(events@.len() as int));
    }
    AgentMessage {
        protocol_version: PROTOCOL_VERSION,
        message: Some(AgentMessageKind::EventBatch(EventBatch { sequence: batch.sequence, events })),
    }
}

/// The step of an Application stream's loop: events are buffered as they
/// come and sent in batches when the flush timer fires; a new session first
/// replays every unacknowledged batch; acknowledgements settle batches;
/// control commands are answered; heartbeats carry the drop counters; a
/// server that goes away is reconnected to; a closed queue or a shutdown
/// ends the stream.
pub fn stream_step(buffer: &mut EventBuffer, counters: &mut Counters, event: StreamEvent) -> (r:
    StreamAction)
    requires
        old(buffer).well_formed(),
    ensures
        final(buffer).well_formed(),
        match event {
            StreamEvent::Connected => final(buffer)@ == old(buffer)@ && *final(counters) == (Counters {
                retried: old(counters).retried.wrapping_add(
                    pending_total(old(buffer)@.pending) as u64,
                ),
                ..*old(counters)
            }) && (r matches StreamAction::Send(v) && v@.len() == old(buffer)@.pending.len()
                && forall|i: int|
                0 <= i < v@.len() ==> carries_batch_of(
                    #[trigger] v@[i],
                    old(buffer)@.pending[i].0,
                    old(buffer)@.pending[i].1,
                )),
            StreamEvent::Item(StreamItem::Event(e)) => r is Wait && final(buffer)@ == model_push(
                old(buffer)@,
                *e,
            ).0 && *final(counters) == (if model_push(old(buffer)@, *e).1 {
                *old(counters)
            } else {
                Counters {
                    capacity_dropped: old(counters).capacity_dropped.wrapping_add(1),
                    ..*old(counters)
                }
            }),
            StreamEvent::QueueClosed => r is Stop && final(buffer)@ == old(buffer)@ && *final(counters)
                == *old(counters),
            StreamEvent::FlushTick => final(buffer)@ == model_next_batch(old(buffer)@).0 && match model_next_batch(
                old(buffer)@,
            ).1 {
                None => r is Wait && *final(counters) == *old(counters),
                Some((sequence, events)) => r matches StreamAction::Send(v) && v@.len() == 1
                    && carries_batch_of(v@[0], sequence, events) && *final(counters) == (Counters {
                    sent: old(counters).sent.wrapping_add(events.len() as u64),
                    ..*old(counters)
                }),
            },
            StreamEvent::HeartbeatTick { now_unix_nanos } => final(buffer)@ == old(buffer)@
                && *final(counters) == *old(counters) && (r matches StreamAction::Send(v) && v@.len()
                == 1 && v@[0] == (AgentMessage {
                protocol_version: PROTOCOL_VERSION,
                message: Some(
                    AgentMessageKind::Heartbeat(
                        Heartbeat {
                            sent_at_unix_nanos: now_unix_nanos,
                            drop_counters: Some(drop_counters_of(snapshot_of(*old(counters)))),
                        },
                    ),
                ),
            })),
            StreamEvent::Server(m) => match m.message {
                Some(ServerMessageKind::BatchAcknowledgement(ack)) => r is Wait && final(buffer)@
                    == model_acknowledge(old(buffer)@, ack.sequence).0 && *final(counters) == match model_acknowledge(
                    old(buffer)@,
                    ack.sequence,
                ).1 {
                    Some(n) => Counters {
                        acknowledged: old(counters).acknowledged.wrapping_add(n as u64),
                        ..*old(counters)
                    },
                    None => *old(counters),
                },
                Some(ServerMessageKind::Control(c)) => final(buffer)@ == old(buffer)@
                    && *final(counters) == *old(counters) && (r matches StreamAction::Send(v)
                    && v@.len() == 1 && v@[0].protocol_version == PROTOCOL_VERSION && (
                v@[0].message matches Some(AgentMessageKind::ControlResult(res))
                    && res.request_id == c.request_id && res.status == control_result_of(c).0
                    && res.detail@ == control_result_of(c).1)),
                _ => r is Wait && final(buffer)@ == old(buffer)@ && *final(counters)
                    == *old(counters),
            },
            StreamEvent::ServerGone => r is Reconnect && final(buffer)@ == old(buffer)@
                && *final(counters) == *old(counters),
            StreamEvent::Shutdown => r is Stop && final(buffer)@ == old(buffer)@ && *final(counters)
                == *old(counters),
        },
{
    match event {
        StreamEvent::Connected => {
            let batches = buffer.replay_pending(counters);
            let ghost pv = buffer@.pending;
            let ghost all = batches@;
            let mut rest = batches;
            let mut messages: Vec<AgentMessage> = Vec::new();
            let total = rest.len();
            assert(all.skip(0) =~= all);
            while rest.len() > 0
                invariant
                    all.len() == total,
                    all.len() == pv.len(),
                    messages@.len() + rest@.len() == total,
                    rest@ == all.skip(messages@.len() as int),
                    forall|i: int|
                        0 <= i < all.len() ==> (#[trigger] all[i]).sequence == pv[i].0 && same_events(
                            all[i].events@,
                            pv[i].1,
                        ),
                    forall|i: int|
                        0 <= i < messages@.len() ==> carries_batch_of(
                            #[trigger] messages@[i],
                            pv[i].0,
                            pv[i].1,
                        ),
                decreases rest@.len(),
            {
                let ghost k = messages@.len() as int;
                assert(rest@[0] == all[k]);
                let batch = rest.remove(0);
                let ghost events = batch.events@;
                let m = batch_message(batch);
                assert(carries_batch(m, pv[k].0, events));
                messages.push(m);
                assert(rest@ =~= all.skip(messages@.len() as int));
            }
            StreamAction::Send(messages)
        },
        StreamEvent::Item(StreamItem::Event(e)) => {
            buffer.push(*e, counters);
            StreamAction::Wait
        },
        StreamEvent::QueueClosed => StreamAction::Stop,
        StreamEvent::FlushTick => match buffer.next_batch(counters) {
            Some(batch) => {
                let ghost events = batch.events@;
                let ghost sequence = batch.sequence;
                let m = batch_message(batch);
                assert(carries_batch(m, sequence, events));
                StreamAction::Send(vec![m])
            },
            None => StreamAction::Wait,
        },
        StreamEvent::HeartbeatTick { now_unix_nanos } => {
            let snapshot = counters.snapshot();
            let m = AgentMessage {
                protocol_version: PROTOCOL_VERSION,
                message: Some(
                    AgentMessageKind::Heartbeat(
                        Heartbeat {
                            sent_at_unix_nanos: now_unix_nanos,
                            drop_counters: Some(DropCounters::from(snapshot)),
                        },
                    ),
                ),
            };
            StreamAction::Send(vec![m])
        },
        StreamEvent::Server(m) => match m.message {
            Some(ServerMessageKind::BatchAcknowledgement(ack)) => {
                buffer.acknowledge(ack.sequence, counters);
                StreamAction::Wait
            },
            Some(ServerMessageKind::Control(c)) => {
                let result = handle_control(c);
                StreamAction::Send(
                    vec![
                        AgentMessage {
                            protocol_version: PROTOCOL_VERSION,
                            message: Some(AgentMessageKind::ControlResult(result)),
                        },
                    ],
                )
            },
            _ => StreamAction::Wait,
        },
        StreamEvent::ServerGone => StreamAction::Reconnect,
        StreamEvent::Shutdown => StreamAction::Stop,
    }
}

} // verus!
