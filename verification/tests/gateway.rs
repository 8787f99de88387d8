use okoscope::agent_gateway::{
    accept_hello, acknowledgement, application_of, bearer, canonical_cluster_uid,
    credential_digest, has_capability, registration, session_accepted, session_protocol_version,
    session_step, ApplicationScope, CredentialLookup, SessionAction, SessionRefusal, SessionScope,
    StatusCode,
};
use okoscope::event_model::{
    EventPayload, KubernetesAttribution, ProcessExec, ProcessIdentity, RuntimeEvent,
    UtcTimestamp, EVENT_SCHEMA_VERSION, PROTOCOL_VERSION,
};
use okoscope::ingestion::{count_stored, event_row, grouping_scope, IngestionContext, IngestionError};
use okoscope::protocol::{encode_event, ProtocolError};
use okoscope::wire::{
    AgentHello, AgentMessage, AgentMessageKind, ControlResult, EventBatch, Heartbeat,
    ServerMessageKind, FILE_ACTIVITY_CAPABILITY, KUBERNETES_RELEASE_DISCOVERY_CAPABILITY,
};

fn hello(node_name: &str, architecture: &str, kernel_release: &str) -> AgentHello {
    AgentHello {
        agent_version: "test".into(),
        node_name: node_name.into(),
        architecture: architecture.into(),
        kernel_release: kernel_release.into(),
        capabilities: vec!["process.exec/v1".into()],
        drop_counters: None,
        cluster_uid: "6f0e9c1a-2b3d-4e5f-8a9b-0c1d2e3f4a5b".into(),
    }
}

fn message(kind: AgentMessageKind) -> AgentMessage {
    AgentMessage { protocol_version: PROTOCOL_VERSION, message: Some(kind) }
}

fn event() -> RuntimeEvent {
    RuntimeEvent {
        id: 0x0190_0000_0000_7000_8000_0000_0000_0042,
        observed_at: UtcTimestamp { secs: 1_700_000_000, nanos: 5 },
        schema_version: EVENT_SCHEMA_VERSION,
        attribution: KubernetesAttribution {
            project_id: 1,
            application_id: 2,
            node_name: "node-1".into(),
            namespace: "production".into(),
            pod_uid: "pod-uid".into(),
            pod_name: "payment-api-1".into(),
            container_id: "abc".into(),
            container_name: "payment-api".into(),
            workload_uid: "deployment-uid".into(),
            workload_kind: "Deployment".into(),
            workload_name: "payment-api".into(),
            release: None,
        },
        process: ProcessIdentity { cgroup_id: 7, pid: 10, tgid: 10, command: "payment".into() },
        payload: EventPayload::ProcessExec(ProcessExec {
            executable: "/app/payment".into(),
            parent_command: None,
        }),
    }
}

#[test]
fn bearer_credentials_follow_the_scheme() {
    assert_eq!(bearer(Some(Some("Bearer secret"))).unwrap(), "secret");
    assert_eq!(bearer(None).unwrap_err(), SessionRefusal::MissingAuthorization);
    assert_eq!(bearer(Some(None)).unwrap_err(), SessionRefusal::InvalidAuthorization);
    assert_eq!(bearer(Some(Some("Bearer "))).unwrap_err(), SessionRefusal::BearerRequired);
    assert_eq!(bearer(Some(Some("Basic abc"))).unwrap_err(), SessionRefusal::BearerRequired);
    assert_eq!(bearer(Some(Some("bearer abc"))).unwrap_err(), SessionRefusal::BearerRequired);
    let refusal = bearer(None).unwrap_err();
    assert_eq!(refusal.code(), StatusCode::Unauthenticated);
    assert_eq!(refusal.message(), "authorization metadata is required");
}

#[test]
fn cluster_uid_must_be_a_canonical_uuid() {
    let text = "6f0e9c1a-2b3d-4e5f-8a9b-0c1d2e3f4a5b";
    assert_eq!(
        canonical_cluster_uid(text).unwrap(),
        0x6f0e9c1a_2b3d_4e5f_8a9b_0c1d2e3f4a5b
    );
    assert_eq!(
        canonical_cluster_uid(&text.to_ascii_uppercase()).unwrap_err(),
        SessionRefusal::ClusterUidNotCanonical
    );
    assert_eq!(
        canonical_cluster_uid("cluster-a").unwrap_err(),
        SessionRefusal::ClusterUidNotUuid
    );
    assert_eq!(
        SessionRefusal::ClusterUidNotCanonical.code(),
        StatusCode::InvalidArgument
    );
}

#[test]
fn sessions_open_with_a_hello_of_this_protocol() {
    let first = message(AgentMessageKind::Hello(hello("node-a", "x86_64", "6.8.1")));
    assert_eq!(accept_hello(Some(first)).unwrap().node_name, "node-a");
    assert_eq!(accept_hello(None).unwrap_err(), SessionRefusal::HelloRequired);
    let old = AgentMessage { protocol_version: 99, message: None };
    let refusal = accept_hello(Some(old)).unwrap_err();
    assert_eq!(refusal, SessionRefusal::Protocol(ProtocolError::UnsupportedProtocol(99)));
    assert_eq!(refusal.code(), StatusCode::FailedPrecondition);
    assert_eq!(refusal.message(), "unsupported protocol version 99");
    let heartbeat = message(AgentMessageKind::Heartbeat(Heartbeat { sent_at_unix_nanos: 0, drop_counters: None }));
    assert_eq!(
        accept_hello(Some(heartbeat)).unwrap_err(),
        SessionRefusal::FirstMessageNotHello
    );
}

#[test]
fn registration_normalizes_platform_values() {
    let row = registration(&hello("node-a", " x86_64 ", "6.8.1"));
    assert_eq!(row.architecture.as_deref(), Some("x86_64"));
    assert_eq!(row.kernel_release.as_deref(), Some("6.8.1"));
    assert_eq!(row.node_name, "node-a");
    assert_eq!(row.capabilities, vec!["process.exec/v1".to_string()]);
    let refreshed = registration(&hello("node-a", "unknown", "6.9.2"));
    assert_eq!(refreshed.architecture, None);
    assert_eq!(refreshed.kernel_release.as_deref(), Some("6.9.2"));
    assert_eq!(session_protocol_version(), 1);
}

#[test]
fn later_messages_become_actions() {
    let batch = EventBatch { sequence: 9, events: vec![encode_event(event())] };
    match session_step(message(AgentMessageKind::EventBatch(batch)), false).unwrap() {
        SessionAction::PersistBatch { sequence, events } => {
            assert_eq!(sequence, 9);
            assert_eq!(events, vec![event()]);
        }
        other => panic!("unexpected action {other:?}"),
    }
    let heartbeat = message(AgentMessageKind::Heartbeat(Heartbeat { sent_at_unix_nanos: 0, drop_counters: None }));
    assert_eq!(session_step(heartbeat, false).unwrap(), SessionAction::TouchAgent);
    let result = ControlResult { request_id: "r1".into(), status: 1, detail: String::new() };
    assert_eq!(
        session_step(message(AgentMessageKind::ControlResult(result.clone())), false).unwrap(),
        SessionAction::LogControlResult(result)
    );
    let again = message(AgentMessageKind::Hello(hello("node-a", "x86_64", "6.8.1")));
    assert_eq!(session_step(again, false).unwrap_err(), SessionRefusal::HelloRepeated);
    let empty = AgentMessage { protocol_version: PROTOCOL_VERSION, message: None };
    assert_eq!(session_step(empty, false).unwrap_err(), SessionRefusal::UnknownMessage);
}

#[test]
fn release_evidence_requires_its_capability() {
    let evidence = message(AgentMessageKind::RevisionEvidence(vec![1, 2, 3]));
    let refusal = session_step(evidence.clone(), false).unwrap_err();
    assert_eq!(refusal, SessionRefusal::RevisionEvidenceNotNegotiated);
    assert_eq!(refusal.code(), StatusCode::FailedPrecondition);
    assert_eq!(
        refusal.message(),
        "revision evidence requires kubernetes.release-discovery/v1 capability"
    );
    assert_eq!(
        session_step(evidence, true).unwrap(),
        SessionAction::PersistRevisionEvidence(vec![1, 2, 3])
    );
    let snapshot = message(AgentMessageKind::ReadinessSnapshot(vec![4]));
    assert_eq!(
        session_step(snapshot, true).unwrap(),
        SessionAction::PersistReadinessSnapshot(vec![4])
    );
    let capabilities = vec![
        "process.exec/v1".to_string(),
        KUBERNETES_RELEASE_DISCOVERY_CAPABILITY.to_string(),
    ];
    assert!(has_capability(&capabilities, KUBERNETES_RELEASE_DISCOVERY_CAPABILITY));
    assert!(!has_capability(&capabilities, FILE_ACTIVITY_CAPABILITY));
}

#[test]
fn invalid_events_end_the_session() {
    let mut bad = encode_event(event());
    bad.schema_version = 99;
    let batch = EventBatch { sequence: 1, events: vec![encode_event(event()), bad] };
    let refusal = session_step(message(AgentMessageKind::EventBatch(batch)), false).unwrap_err();
    assert_eq!(
        refusal,
        SessionRefusal::InvalidEvent(ProtocolError::UnsupportedEventSchema(99))
    );
    assert_eq!(refusal.code(), StatusCode::InvalidArgument);
    assert_eq!(refusal.message(), "unsupported event schema version 99");
}

#[test]
fn accepted_sessions_name_their_tenant() {
    let scope = SessionScope { organization_id: 1, cluster_id: 2 };
    let application = ApplicationScope {
        credential_id: 3,
        organization_id: 1,
        project_id: 4,
        application_id: 5,
    };
    let accepted = session_accepted(scope, 6, application);
    assert_eq!(accepted.protocol_version, PROTOCOL_VERSION);
    match accepted.message {
        Some(ServerMessageKind::SessionAccepted(a)) => {
            assert_eq!(a.organization_id, "00000000-0000-0000-0000-000000000001");
            assert_eq!(a.cluster_id, "00000000-0000-0000-0000-000000000002");
            assert_eq!(a.agent_id, "00000000-0000-0000-0000-000000000006");
            assert_eq!(a.project_id, "00000000-0000-0000-0000-000000000004");
            assert_eq!(a.application_id, "00000000-0000-0000-0000-000000000005");
        }
        other => panic!("unexpected message {other:?}"),
    }
    match acknowledgement(3, 2, 1).message {
        Some(ServerMessageKind::BatchAcknowledgement(ack)) => {
            assert_eq!((ack.sequence, ack.accepted_events, ack.retention_expired_events), (3, 2, 1));
        }
        other => panic!("unexpected message {other:?}"),
    }
    assert_eq!(application_of(CredentialLookup::Found(application)).unwrap(), application);
    assert_eq!(
        application_of(CredentialLookup::NotFound).unwrap_err(),
        SessionRefusal::InvalidCredential
    );
    assert_eq!(
        application_of(CredentialLookup::StoreFailed).unwrap_err().code(),
        StatusCode::Internal
    );
}

#[test]
fn credentials_are_stored_by_digest() {
    assert_eq!(credential_digest(""), None);
    let digest = credential_digest("abc").unwrap();
    assert_eq!(
        digest[..4].to_vec(),
        vec![0xba, 0x78, 0x16, 0xbf]
    );
    assert_eq!(digest.len(), 32);
}

#[test]
fn admitted_events_become_rows() {
    let context = IngestionContext { scope: SessionScope { organization_id: 11, cluster_id: 12 }, agent_id: 13 };
    let row = event_row(context, &event(), true).unwrap();
    assert_eq!(row.organization_id, 11);
    assert_eq!(row.cluster_id, 12);
    assert_eq!(row.agent_id, 13);
    assert_eq!(row.project_id, 1);
    assert_eq!(row.application_id, 2);
    assert_eq!(row.cgroup_id, 7);
    assert_eq!(row.event_kind, "process.exec");
    assert_eq!(row.event_schema_version, 1);
    assert_eq!(event_row(context, &event(), false).unwrap_err(), IngestionError::InvalidOwnership);
    let mut old = event();
    old.schema_version = 2;
    let refusal = event_row(context, &old, true).unwrap_err();
    assert_eq!(refusal, IngestionError::UnsupportedSchema(2));
    assert_eq!(refusal.message(), "unsupported event schema version 2");
    let mut huge = event();
    huge.process.cgroup_id = u64::MAX;
    assert_eq!(event_row(context, &huge, true).unwrap_err(), IngestionError::CgroupOverflow);
    let e = event();
    let scope = grouping_scope(context, &e);
    assert_eq!((scope.organization_id, scope.cluster_id, scope.namespace), (11, 12, "production"));
    assert_eq!(count_stored(3, true), 4);
    assert_eq!(count_stored(3, false), 3);
    assert_eq!(count_stored(u32::MAX, true), u32::MAX);
}
