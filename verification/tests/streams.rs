use okoscope::counters::Counters;
use okoscope::delivery::EventBuffer;
use okoscope::event_model::{
    EventPayload, KubernetesAttribution, ProcessExec, ProcessIdentity, RuntimeEvent,
    UtcTimestamp, EVENT_SCHEMA_VERSION,
};
use okoscope::streams::{
    acknowledge_batch, settle_offer, stream_step, ApplicationStreams, Offer, StreamAction,
    StreamEvent, StreamItem,
};
use okoscope::wire::{
    AgentMessageKind, BatchAcknowledgement, ControlCommand, ControlMessage, ServerMessage,
    ServerMessageKind, CONTROL_STATUS_APPLIED,
};
use tokio::sync::mpsc;

fn new_id() -> u128 {
    uuid::Uuid::new_v4().as_u128()
}

fn event(route_id: u128) -> RuntimeEvent {
    RuntimeEvent {
        id: new_id(),
        observed_at: UtcTimestamp { secs: 1_700_000_000, nanos: 0 },
        schema_version: EVENT_SCHEMA_VERSION,
        attribution: KubernetesAttribution {
            project_id: 0,
            application_id: route_id,
            node_name: "node".into(),
            namespace: "ns".into(),
            pod_uid: "pod".into(),
            pod_name: "pod".into(),
            container_id: "container".into(),
            container_name: "container".into(),
            workload_uid: "workload".into(),
            workload_kind: "Deployment".into(),
            workload_name: "app".into(),
            release: None,
        },
        process: ProcessIdentity { cgroup_id: 1, pid: 1, tgid: 1, command: "app".into() },
        payload: EventPayload::ProcessExec(ProcessExec {
            executable: "/app".into(),
            parent_command: None,
        }),
    }
}

#[test]
fn mixed_retention_ack_drops_sequence_without_replaying_eligible_events() {
    let mut counters = Counters::default();
    let mut buffer = EventBuffer::new(2, 2);
    buffer.push(event(new_id()), &mut counters);
    buffer.push(event(new_id()), &mut counters);
    let batch = buffer.next_batch(&mut counters).unwrap();
    acknowledge_batch(
        &mut buffer,
        &mut counters,
        &BatchAcknowledgement {
            sequence: batch.sequence,
            accepted_events: 1,
            retention_expired_events: 1,
        },
    );
    assert!(buffer.replay_pending(&mut counters).is_empty());
    assert_eq!(counters.snapshot().acknowledged, 2);
}

#[test]
fn unknown_route_is_isolated_and_counted() {
    let streams = ApplicationStreams::new(Vec::new());
    let mut counters = Counters::default();
    assert!(!streams.route(event(new_id()), &mut counters));
    assert_eq!(counters.snapshot().unattributed, 1);
}

#[test]
fn distinct_routes_do_not_cross_deliver_or_share_failure() {
    let healthy_route = new_id();
    let failed_route = new_id();
    let (healthy_sender, mut healthy_receiver) = mpsc::channel(1);
    let (failed_sender, failed_receiver) = mpsc::channel(1);
    drop(failed_receiver);
    let streams =
        ApplicationStreams::new(vec![(healthy_route, healthy_sender), (failed_route, failed_sender)]);
    let mut counters = Counters::default();

    assert!(!streams.route(event(failed_route), &mut counters));
    assert!(streams.route(event(healthy_route), &mut counters));
    let StreamItem::Event(received) = healthy_receiver.try_recv().unwrap();
    assert_eq!(received.attribution.application_id, healthy_route);
    assert!(healthy_receiver.try_recv().is_err());
}

#[test]
fn full_route_drops_only_that_route_and_counts_capacity() {
    let full_route = new_id();
    let healthy_route = new_id();
    let (full_sender, _full_receiver) = mpsc::channel(1);
    let (healthy_sender, mut healthy_receiver) = mpsc::channel(1);
    let streams =
        ApplicationStreams::new(vec![(full_route, full_sender), (healthy_route, healthy_sender)]);
    let mut counters = Counters::default();

    assert!(streams.route(event(full_route), &mut counters));
    assert!(!streams.route(event(full_route), &mut counters));
    assert!(streams.route(event(healthy_route), &mut counters));
    assert_eq!(counters.snapshot().capacity_dropped, 1);
    let StreamItem::Event(received) = healthy_receiver.try_recv().unwrap();
    assert_eq!(received.attribution.application_id, healthy_route);
    assert_eq!(streams.route_count(), 2);
}

#[test]
fn offers_settle_as_the_stream_answered() {
    let mut counters = Counters::default();
    assert!(settle_offer(Offer::Queued, &mut counters));
    assert!(!settle_offer(Offer::Closed, &mut counters));
    assert_eq!(counters.snapshot().capacity_dropped, 0);
    assert!(!settle_offer(Offer::Full, &mut counters));
    assert_eq!(counters.snapshot().capacity_dropped, 1);
}

fn sent(action: StreamAction) -> Vec<okoscope::wire::AgentMessage> {
    match action {
        StreamAction::Send(messages) => messages,
        other => panic!("expected messages, got {other:?}"),
    }
}

#[test]
fn streams_batch_replay_and_acknowledge() {
    let mut counters = Counters::default();
    let mut buffer = EventBuffer::new(8, 2);
    let route = new_id();
    for _ in 0..3 {
        let item = StreamItem::Event(Box::new(event(route)));
        assert!(matches!(stream_step(&mut buffer, &mut counters, StreamEvent::Item(item)), StreamAction::Wait));
    }
    let first = sent(stream_step(&mut buffer, &mut counters, StreamEvent::FlushTick));
    assert_eq!(first.len(), 1);
    let Some(AgentMessageKind::EventBatch(batch)) = &first[0].message else { panic!("batch") };
    assert_eq!(batch.events.len(), 2);
    let sequence = batch.sequence;
    let second = sent(stream_step(&mut buffer, &mut counters, StreamEvent::FlushTick));
    let Some(AgentMessageKind::EventBatch(tail)) = &second[0].message else { panic!("batch") };
    assert_eq!(tail.events.len(), 1);
    assert!(matches!(stream_step(&mut buffer, &mut counters, StreamEvent::FlushTick), StreamAction::Wait));

    let replayed = sent(stream_step(&mut buffer, &mut counters, StreamEvent::Connected));
    assert_eq!(replayed.len(), 2);
    let ack = ServerMessage {
        protocol_version: 1,
        message: Some(ServerMessageKind::BatchAcknowledgement(BatchAcknowledgement {
            sequence,
            accepted_events: 2,
            retention_expired_events: 0,
        })),
    };
    assert!(matches!(stream_step(&mut buffer, &mut counters, StreamEvent::Server(ack)), StreamAction::Wait));
    assert_eq!(sent(stream_step(&mut buffer, &mut counters, StreamEvent::Connected)).len(), 1);
    assert_eq!(counters.snapshot().acknowledged, 2);
}

#[test]
fn streams_answer_control_and_report_heartbeats() {
    let mut counters = Counters::default();
    let mut buffer = EventBuffer::new(4, 2);
    let control = ServerMessage {
        protocol_version: 1,
        message: Some(ServerMessageKind::Control(ControlMessage {
            request_id: "r-1".into(),
            command: Some(ControlCommand::Ping),
        })),
    };
    let answer = sent(stream_step(&mut buffer, &mut counters, StreamEvent::Server(control)));
    let Some(AgentMessageKind::ControlResult(result)) = &answer[0].message else { panic!("result") };
    assert_eq!((result.request_id.as_str(), result.status, result.detail.as_str()), ("r-1", CONTROL_STATUS_APPLIED, "pong"));
    counters.unattributed = 3;
    let beat = sent(stream_step(&mut buffer, &mut counters, StreamEvent::HeartbeatTick { now_unix_nanos: 77 }));
    let Some(AgentMessageKind::Heartbeat(heartbeat)) = &beat[0].message else { panic!("heartbeat") };
    assert_eq!(heartbeat.sent_at_unix_nanos, 77);
    assert_eq!(heartbeat.drop_counters.unwrap().unattributed, 3);
    assert!(matches!(stream_step(&mut buffer, &mut counters, StreamEvent::ServerGone), StreamAction::Reconnect));
    assert!(matches!(stream_step(&mut buffer, &mut counters, StreamEvent::QueueClosed), StreamAction::Stop));
    assert!(matches!(stream_step(&mut buffer, &mut counters, StreamEvent::Shutdown), StreamAction::Stop));
}

#[test]
fn stream_steps_count_dropped_sent_retried_and_acknowledged_events() {
    let mut counters = Counters::default();
    let mut buffer = EventBuffer::new(2, 2);
    let route = new_id();
    for _ in 0..3 {
        let item = StreamItem::Event(Box::new(event(route)));
        stream_step(&mut buffer, &mut counters, StreamEvent::Item(item));
    }
    assert_eq!(counters.snapshot().capacity_dropped, 1);
    let first = sent(stream_step(&mut buffer, &mut counters, StreamEvent::FlushTick));
    let Some(AgentMessageKind::EventBatch(batch)) = &first[0].message else { panic!("batch") };
    assert_eq!(counters.snapshot().sent, 2);
    sent(stream_step(&mut buffer, &mut counters, StreamEvent::Connected));
    assert_eq!(counters.snapshot().retried, 2);
    let ack = ServerMessage {
        protocol_version: 1,
        message: Some(ServerMessageKind::BatchAcknowledgement(BatchAcknowledgement {
            sequence: batch.sequence,
            accepted_events: 2,
            retention_expired_events: 0,
        })),
    };
    stream_step(&mut buffer, &mut counters, StreamEvent::Server(ack));
    assert_eq!(counters.snapshot().acknowledged, 2);
    let before = counters.snapshot();
    stream_step(&mut buffer, &mut counters, StreamEvent::QueueClosed);
    assert_eq!(counters.snapshot(), before);
}
