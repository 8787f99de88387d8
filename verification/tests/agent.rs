use okoscope::agent_session::{
    authorization_value, channel_security, hello_message, ChannelSecurity,
    after_connect_failure, handle_control, server_message_kind, ReconnectStep,
};
use okoscope::attribution::{
    resolve_and_count, AttributionCache, ControllerInfo, OwnerReference, PodInfo,
    count_attribution_failure, next_retry, normalize_container_id, source_initialized,
    source_unavailable, watch_retry_step, AttributionError, Readiness, SOURCE_DEPLOYMENTS,
    SOURCE_PODS, SOURCE_REPLICA_SETS, WATCH_RETRY_MIN_SECS,
};
use okoscope::config::{
    ConfigError, AgentConfig, IdentityConfig, ObservationConfig, SafetyLimits, ScopeConfig, ServerConfig,
    WorkloadMetadata, WorkloadSelector,
};
use okoscope::observation::{event_payload, runtime_event};
use okoscope::counters::{
    dns_kernel_counters, network_counters, per_cpu_total, CounterSnapshot, Counters,
    DnsKernelCounters, NetworkKernelCounters,
};
use okoscope::delivery::EventBuffer;
use okoscope::event_model::{
    EventPayload, IpAddr, KubernetesAttribution, NetworkConnectError, NetworkConnectOutcome,
    ProcessExec, ProcessIdentity, RuntimeEvent, UtcTimestamp, EVENT_SCHEMA_VERSION,
    LINUX_EINPROGRESS,
};
use okoscope::kernel_abi::{
    emit_record, syscall_number,
    connect_entry, ConnectEntry, AF_INET, AF_INET6, NETWORK_COUNTER_DECODE_FAILED,
    NETWORK_COUNTER_UNSUPPORTED_FAMILY,
    completed_connect, connect_outcome, KernelEvent, PendingConnect, ADDRESS_FAMILY_IPV4,
    ADDRESS_FAMILY_IPV6, COMMAND_LEN, CONNECT_OUTCOME_FAILED, CONNECT_OUTCOME_IN_PROGRESS,
    CONNECT_OUTCOME_SUCCEEDED, EVENT_KIND_NETWORK_CONNECT,
};
use okoscope::kernel_event::{
    command, decode, decode_in_order, network_connect, pid_and_tgid, ByteOrder, DecodeError,
    NetworkDecodeError,
};
use okoscope::wire::{
    BatchAcknowledgement, ControlCommand, ControlMessage, DropCounters, ServerMessage,
    ServerMessageKind, CONTROL_STATUS_APPLIED, CONTROL_STATUS_UNSUPPORTED,
};

#[test]
fn watch_retry_is_exponential_and_bounded() {
    let mut retry = WATCH_RETRY_MIN_SECS;
    for expected in [2, 4, 8, 16, 30, 30] {
        retry = next_retry(retry);
        assert_eq!(retry, expected);
    }
}

#[test]
fn watch_retry_resets_after_initialization() {
    assert_eq!(watch_retry_step(true, 16), (1, 1));
    assert_eq!(watch_retry_step(false, 16), (16, 30));
    assert_eq!(next_retry(u64::MAX), 30);
}

#[test]
fn lifecycle_readiness_requires_every_source_and_can_be_withheld() {
    let mut state = Readiness::default();
    source_initialized(&mut state, SOURCE_PODS);
    source_initialized(&mut state, SOURCE_DEPLOYMENTS);
    assert!(!state.ready);
    source_initialized(&mut state, SOURCE_REPLICA_SETS);
    assert!(state.ready);
    assert!(source_unavailable(&mut state, SOURCE_PODS));
    assert!(!state.ready);
    assert_eq!(state.initialized, 0b110);
    assert!(!source_unavailable(&mut state, SOURCE_PODS));
}

#[test]
fn container_ids_lose_their_runtime_prefix() {
    assert_eq!(normalize_container_id("containerd://abc"), "abc");
    assert_eq!(normalize_container_id("abc"), "abc");
    assert_eq!(normalize_container_id("a://b://c"), "c");
    assert_eq!(normalize_container_id("docker://"), "");
}

#[test]
fn attribution_failures_are_counted_by_reason() {
    let mut counters = Counters::default();
    count_attribution_failure(&mut counters, AttributionError::NotSelected);
    count_attribution_failure(&mut counters, AttributionError::UnknownContainer);
    count_attribution_failure(&mut counters, AttributionError::IncompleteOwnerChain);
    let snapshot = counters.snapshot();
    assert_eq!(snapshot.filtered, 1);
    assert_eq!(snapshot.unattributed, 2);
}

#[test]
fn labels_are_and_and_selectors_can_be_or() {
    let selector = WorkloadSelector {
        project_id: 0x018f4f9c_3f9a_7de1_8000_000000000001,
        application_id: 0x018f4f9c_3f9a_7de1_8000_000000000002,
        namespace: "production".into(),
        kind: "Deployment".into(),
        name: "payment-api".into(),
        release: None,
        labels: vec![("app.kubernetes.io/name".into(), "payment-api".into())],
    };
    let labels = vec![("app.kubernetes.io/name".to_string(), "payment-api".to_string())];
    assert!(selector.matches(&WorkloadMetadata {
        namespace: "production".into(),
        kind: "Deployment".into(),
        name: "payment-api".into(),
        labels
    }));
    assert!(!selector.matches(&WorkloadMetadata {
        namespace: "production".into(),
        kind: "Deployment".into(),
        name: "payment-api".into(),
        labels: vec![("app.kubernetes.io/name".into(), "other".into())],
    }));
}

#[test]
fn rejects_wrong_size() {
    assert!(matches!(
        decode(&[0; 4]),
        Err(DecodeError::InvalidSize { .. })
    ));
    assert_eq!(
        decode(&[0; 4]).unwrap_err().message(),
        "kernel event has size 4, expected 72"
    );
}

#[test]
fn decodes_network_record_with_native_layout() {
    let mut bytes = [0_u8; KernelEvent::SIZE];
    bytes[28..32].copy_from_slice(&(-111_i32).to_ne_bytes());
    bytes[32] = EVENT_KIND_NETWORK_CONNECT;
    bytes[33] = ADDRESS_FAMILY_IPV4;
    bytes[34] = CONNECT_OUTCOME_FAILED;
    bytes[36..38].copy_from_slice(&443_u16.to_ne_bytes());
    bytes[38..40].copy_from_slice(&111_u16.to_ne_bytes());
    bytes[40..44].copy_from_slice(&[203, 0, 113, 7]);
    assert_eq!(decode(&bytes).unwrap().connect_result, -111);
    assert_eq!(decode(&bytes).unwrap().destination_port, 443);
    assert_eq!(
        decode(&bytes).unwrap().destination_address[0..4],
        [203, 0, 113, 7]
    );
    let decoded = decode(&bytes).unwrap();
    let network = network_connect(&decoded).unwrap();
    assert_eq!(network.destination_address, IpAddr::V4([203, 0, 113, 7]));
    assert_eq!(network.outcome, NetworkConnectOutcome::Failed);
    assert_eq!(network.errno, Some(111));
}

#[test]
fn decodes_fields_in_either_byte_order() {
    let mut bytes = [0_u8; KernelEvent::SIZE];
    bytes[0..8].copy_from_slice(&0x0102_0304_0506_0708_u64.to_le_bytes());
    bytes[24..28].copy_from_slice(&0x0a0b_0c0d_u32.to_le_bytes());
    let little = decode_in_order(&bytes, ByteOrder::Little).unwrap();
    assert_eq!(little.timestamp_ns, 0x0102_0304_0506_0708);
    assert_eq!(little.syscall_id, 0x0a0b_0c0d);
    let big = decode_in_order(&bytes, ByteOrder::Big).unwrap();
    assert_eq!(big.timestamp_ns, 0x0807_0605_0403_0201);
    assert_eq!(big.syscall_id, 0x0d0c_0b0a);
}

fn kernel_event() -> KernelEvent {
    KernelEvent {
        timestamp_ns: 1,
        cgroup_id: 2,
        pid_tgid: 3,
        syscall_id: 0,
        connect_result: -115,
        event_kind: EVENT_KIND_NETWORK_CONNECT,
        address_family: ADDRESS_FAMILY_IPV6,
        connect_outcome: CONNECT_OUTCOME_IN_PROGRESS,
        padding: 0,
        destination_port: 443,
        errno: LINUX_EINPROGRESS,
        destination_address: [0, 0, 0, 0, 0, 0, 0, 0, 0, 0, 0, 0, 0, 0, 0, 1],
        command: [0; COMMAND_LEN],
    }
}

#[test]
fn decodes_ipv6_and_rejects_invalid_network_semantics() {
    let mut event = kernel_event();
    assert_eq!(
        network_connect(&event).unwrap().destination_address,
        IpAddr::V6([0, 0, 0, 0, 0, 0, 0, 0, 0, 0, 0, 0, 0, 0, 0, 1])
    );
    event.address_family = 99;
    assert_eq!(
        network_connect(&event),
        Err(NetworkDecodeError::UnsupportedFamily(99))
    );
    event.address_family = ADDRESS_FAMILY_IPV6;
    event.connect_outcome = CONNECT_OUTCOME_SUCCEEDED;
    assert_eq!(
        network_connect(&event),
        Err(NetworkDecodeError::Invalid(
            NetworkConnectError::InconsistentOutcome
        ))
    );
    event.connect_outcome = 9;
    assert_eq!(
        network_connect(&event),
        Err(NetworkDecodeError::UnsupportedOutcome(9))
    );
}

#[test]
fn connect_results_are_classified_as_the_kernel_does() {
    assert_eq!(connect_outcome(0), Some((CONNECT_OUTCOME_SUCCEEDED, 0)));
    assert_eq!(connect_outcome(-115), Some((CONNECT_OUTCOME_IN_PROGRESS, 115)));
    assert_eq!(connect_outcome(-111), Some((CONNECT_OUTCOME_FAILED, 111)));
    assert_eq!(connect_outcome(-4095), Some((CONNECT_OUTCOME_FAILED, 4095)));
    assert_eq!(connect_outcome(-4096), None);
    assert_eq!(connect_outcome(1), None);
    let pending = PendingConnect {
        timestamp_ns: 5,
        cgroup_id: 6,
        pid_tgid: (7_u64 << 32) | 8,
        destination_address: [10, 0, 0, 1, 0, 0, 0, 0, 0, 0, 0, 0, 0, 0, 0, 0],
        destination_port: 8080,
        address_family: ADDRESS_FAMILY_IPV4,
        padding: [0; 5],
        command: *b"curl\0\0\0\0\0\0\0\0\0\0\0\0",
    };
    let event = completed_connect(&pending, -111).unwrap();
    assert_eq!(event.connect_result, -111);
    assert_eq!(event.errno, 111);
    let network = network_connect(&event).unwrap();
    assert_eq!(network.destination_address, IpAddr::V4([10, 0, 0, 1]));
    assert_eq!(network.outcome, NetworkConnectOutcome::Failed);
    assert!(completed_connect(&pending, 5).is_none());
    assert_eq!(pid_and_tgid(event.pid_tgid), (8, 7));
    assert_eq!(command(&event.command), "curl");
}

#[test]
fn command_names_stop_at_nul_and_replace_invalid_bytes() {
    assert_eq!(command(b"sh\0\0\0\0\0\0\0\0\0\0\0\0\0\0"), "sh");
    assert_eq!(command(b"abcdefghijklmnop"), "abcdefghijklmnop");
    let mut bytes = [0_u8; 16];
    bytes[0] = 0xff;
    bytes[1] = b'x';
    assert_eq!(command(&bytes), "\u{fffd}x");
}

#[test]
fn missing_control_variant_is_unsupported() {
    let result = handle_control(ControlMessage {
        request_id: "1".into(),
        command: None,
    });
    assert_eq!(result.status, CONTROL_STATUS_UNSUPPORTED);
}

#[test]
fn ping_is_applied_with_pong() {
    let result = handle_control(ControlMessage {
        request_id: "7".into(),
        command: Some(ControlCommand::Ping),
    });
    assert_eq!(result.status, CONTROL_STATUS_APPLIED);
    assert_eq!(result.detail, "pong");
    assert_eq!(result.request_id, "7");
    let unsupported = handle_control(ControlMessage { request_id: "8".into(), command: None });
    assert_eq!(unsupported.detail, "unsupported or missing typed command");
}

#[test]
fn server_message_kinds_are_named() {
    let ack = ServerMessage {
        protocol_version: 1,
        message: Some(ServerMessageKind::BatchAcknowledgement(BatchAcknowledgement {
            sequence: 1,
            accepted_events: 1,
            retention_expired_events: 0,
        })),
    };
    assert_eq!(server_message_kind(&ack), "batch_acknowledgement");
    let empty = ServerMessage { protocol_version: 1, message: None };
    assert_eq!(server_message_kind(&empty), "unknown");
}

#[test]
fn reconnect_backoff_doubles_and_gives_up_at_the_bound() {
    let mut delay = 250;
    let mut sleeps = Vec::new();
    loop {
        match after_connect_failure(delay) {
            ReconnectStep::Retry { sleep_ms, next_delay_ms } => {
                sleeps.push(sleep_ms);
                delay = next_delay_ms;
            }
            ReconnectStep::GiveUp => break,
        }
    }
    assert_eq!(sleeps, vec![250, 500, 1000, 2000, 4000, 8000, 16000]);
    assert_eq!(delay, 30_000);
}

#[test]
fn network_drop_counters_are_transported_additively() {
    let wire = DropCounters::from(CounterSnapshot {
        connect_correlation_capacity: 1,
        connect_correlation_miss: 2,
        connect_decode_failed: 3,
        connect_unsupported_family: 4,
        connect_kernel_lost: 5,
        ..CounterSnapshot::default()
    });
    assert_eq!(wire.connect_correlation_capacity, 1);
    assert_eq!(wire.connect_correlation_miss, 2);
    assert_eq!(wire.connect_decode_failed, 3);
    assert_eq!(wire.connect_unsupported_family, 4);
    assert_eq!(wire.connect_kernel_lost, 5);
}

#[test]
fn dns_drop_counters_are_transported_additively() {
    let wire = DropCounters::from(CounterSnapshot {
        dns_packet_decode_failed: 1,
        dns_malformed_compression: 2,
        dns_truncated: 3,
        dns_unsupported_record: 4,
        dns_correlation_miss: 5,
        dns_correlation_capacity: 6,
        dns_tcp_reassembly: 7,
        dns_rate_limited: 8,
        dns_capacity: 9,
        dns_kernel_lost: 10,
        ..CounterSnapshot::default()
    });
    assert_eq!(wire.dns_packet_decode_failed, 1);
    assert_eq!(wire.dns_malformed_compression, 2);
    assert_eq!(wire.dns_truncated, 3);
    assert_eq!(wire.dns_unsupported_record, 4);
    assert_eq!(wire.dns_correlation_miss, 5);
    assert_eq!(wire.dns_correlation_capacity, 6);
    assert_eq!(wire.dns_tcp_reassembly, 7);
    assert_eq!(wire.dns_rate_limited, 8);
    assert_eq!(wire.dns_capacity, 9);
    assert_eq!(wire.dns_kernel_lost, 10);
}

#[test]
fn inbound_drop_counters_are_transported_additively() {
    let wire = DropCounters::from(CounterSnapshot {
        inbound_decode_failed: 1,
        inbound_attribution_failed: 2,
        inbound_unsupported_family: 3,
        inbound_kernel_lost: 4,
        inbound_rate_limited: 5,
        inbound_correlation_miss: 6,
        ..CounterSnapshot::default()
    });
    assert_eq!(wire.inbound_decode_failed, 1);
    assert_eq!(wire.inbound_attribution_failed, 2);
    assert_eq!(wire.inbound_unsupported_family, 3);
    assert_eq!(wire.inbound_kernel_lost, 4);
    assert_eq!(wire.inbound_rate_limited, 5);
    assert_eq!(wire.inbound_correlation_miss, 6);
}

#[test]
fn file_drop_counters_are_transported_additively() {
    let wire = DropCounters::from(CounterSnapshot {
        file_correlation_capacity: 1,
        file_correlation_miss: 2,
        file_path_read_failed: 3,
        file_path_relative: 4,
        file_path_invalid: 5,
        file_path_oversize: 6,
        file_fd_miss: 7,
        file_filtered: 8,
        file_kernel_lost: 9,
        file_aggregation_capacity: 10,
        file_decode_failed: 11,
        file_attribution_failed: 12,
        file_rate_limited: 13,
        file_unsupported_object: 14,
        ..CounterSnapshot::default()
    });
    assert_eq!(wire.file_correlation_capacity, 1);
    assert_eq!(wire.file_correlation_miss, 2);
    assert_eq!(wire.file_path_read_failed, 3);
    assert_eq!(wire.file_path_relative, 4);
    assert_eq!(wire.file_path_invalid, 5);
    assert_eq!(wire.file_path_oversize, 6);
    assert_eq!(wire.file_fd_miss, 7);
    assert_eq!(wire.file_filtered, 8);
    assert_eq!(wire.file_kernel_lost, 9);
    assert_eq!(wire.file_aggregation_capacity, 10);
    assert_eq!(wire.file_decode_failed, 11);
    assert_eq!(wire.file_attribution_failed, 12);
    assert_eq!(wire.file_rate_limited, 13);
    assert_eq!(wire.file_unsupported_object, 14);
}

#[test]
fn capacity_drops_travel_as_capacity() {
    let wire = DropCounters::from(CounterSnapshot {
        capacity_dropped: 3,
        sent: 9,
        ..CounterSnapshot::default()
    });
    assert_eq!(wire.capacity, 3);
}

#[test]
fn kernel_counters_replace_the_cumulative_values() {
    let mut counters = Counters::default();
    counters.update_network_kernel(NetworkKernelCounters {
        correlation_capacity: 1,
        correlation_miss: 2,
        decode_failed: 3,
        unsupported_family: 4,
        kernel_lost: 5,
    });
    counters.update_dns_kernel(DnsKernelCounters {
        unsupported_framing: 6,
        attribution_failed: 7,
        decode_failed: 8,
        oversize: 9,
        ring_lost: 10,
    });
    counters.update_dns_kernel(DnsKernelCounters {
        unsupported_framing: 6,
        attribution_failed: 7,
        decode_failed: 11,
        oversize: 9,
        ring_lost: 10,
    });
    let snapshot = counters.snapshot();
    assert_eq!(snapshot.connect_correlation_capacity, 1);
    assert_eq!(snapshot.connect_kernel_lost, 5);
    assert_eq!(snapshot.dns_kernel_unsupported_framing, 6);
    assert_eq!(snapshot.dns_attribution_failed, 7);
    assert_eq!(snapshot.dns_packet_decode_failed, 11);
    assert_eq!(snapshot.dns_oversize, 9);
    assert_eq!(snapshot.dns_kernel_lost, 10);
}

fn event() -> RuntimeEvent {
    RuntimeEvent {
        id: 42,
        observed_at: UtcTimestamp { secs: 1_700_000_000, nanos: 0 },
        schema_version: EVENT_SCHEMA_VERSION,
        attribution: KubernetesAttribution {
            project_id: 1,
            application_id: 2,
            node_name: "node".into(),
            namespace: "ns".into(),
            pod_uid: "p".into(),
            pod_name: "p".into(),
            container_id: "c".into(),
            container_name: "c".into(),
            workload_uid: "w".into(),
            workload_kind: "Deployment".into(),
            workload_name: "app".into(),
            release: None,
        },
        process: ProcessIdentity {
            cgroup_id: 1,
            pid: 1,
            tgid: 1,
            command: "sh".into(),
        },
        payload: EventPayload::ProcessExec(ProcessExec {
            executable: "/bin/sh".into(),
            parent_command: None,
        }),
    }
}

#[test]
fn bounds_batches_retries_and_acknowledges() {
    let mut counters = Counters::default();
    let mut buffer = EventBuffer::new(2, 2);
    assert!(buffer.push(event(), &mut counters));
    assert!(buffer.push(event(), &mut counters));
    assert!(!buffer.push(event(), &mut counters));
    let batch = buffer.next_batch(&mut counters).unwrap();
    assert_eq!(batch.events.len(), 2);
    assert_eq!(buffer.replay_pending(&mut counters).len(), 1);
    assert!(buffer.acknowledge(batch.sequence, &mut counters));
    let snapshot = counters.snapshot();
    assert_eq!(snapshot.capacity_dropped, 1);
    assert_eq!(snapshot.acknowledged, 2);
    assert_eq!(snapshot.retried, 2);
}

#[test]
fn batches_keep_arrival_order_and_increasing_sequences() {
    let mut counters = Counters::default();
    let mut buffer = EventBuffer::new(5, 2);
    for id in 1..=5 {
        let mut e = event();
        e.id = id;
        assert!(buffer.push(e, &mut counters));
    }
    let first = buffer.next_batch(&mut counters).unwrap();
    let second = buffer.next_batch(&mut counters).unwrap();
    let third = buffer.next_batch(&mut counters).unwrap();
    assert!(buffer.next_batch(&mut counters).is_none());
    assert_eq!((first.sequence, second.sequence, third.sequence), (1, 2, 3));
    let ids: Vec<u128> = first
        .events
        .iter()
        .chain(second.events.iter())
        .chain(third.events.iter())
        .map(|e| e.id)
        .collect();
    assert_eq!(ids, vec![1, 2, 3, 4, 5]);
    assert_eq!(counters.snapshot().sent, 5);
    assert!(buffer.acknowledge(2, &mut counters));
    assert!(!buffer.acknowledge(2, &mut counters));
    let replay = buffer.replay_pending(&mut counters);
    assert_eq!(replay.iter().map(|b| b.sequence).collect::<Vec<_>>(), vec![1, 3]);
    assert_eq!(counters.snapshot().retried, 3);
    let mut e = event();
    e.id = 6;
    assert!(buffer.push(e, &mut counters));
}

fn owner(kind: &str, name: &str, uid: &str) -> OwnerReference {
    OwnerReference {
        uid: uid.into(),
        kind: kind.into(),
        name: name.into(),
        controller: Some(true),
    }
}

fn payment_cache() -> AttributionCache {
    let mut cache = AttributionCache::new(30_000);
    let deployment = ControllerInfo {
        uid: Some("deployment-uid".into()),
        namespace: Some("production".into()),
        name: "payment-api".into(),
        owner_references: None,
        labels: Some(vec![("app".into(), "payment-api".into())]),
    };
    let replica_set = ControllerInfo {
        uid: Some("rs-uid".into()),
        namespace: Some("production".into()),
        name: "payment-api-abc".into(),
        owner_references: Some(vec![owner("Deployment", "payment-api", "deployment-uid")]),
        labels: None,
    };
    let pod = PodInfo {
        uid: Some("pod-uid".into()),
        namespace: Some("production".into()),
        name: "payment-api-1".into(),
        owner_references: Some(vec![owner("ReplicaSet", "payment-api-abc", "rs-uid")]),
        container_statuses: vec![("payment-api".into(), Some("containerd://abc".into()))],
    };
    cache.apply_deployment(&deployment);
    cache.apply_replica_set(&replica_set);
    cache.apply_pod(&pod);
    cache
}

fn payment_selector() -> WorkloadSelector {
    WorkloadSelector {
        project_id: 0,
        application_id: 42,
        namespace: "production".into(),
        kind: "Deployment".into(),
        name: "payment-api".into(),
        release: Some("1.7.2".into()),
        labels: vec![("app".into(), "payment-api".into())],
    }
}

#[test]
fn resolves_deployment_and_filters_non_selected_workload() {
    let mut cache = payment_cache();
    let selector = payment_selector();
    let result = cache
        .resolve("abc", "node-1", std::slice::from_ref(&selector), 0)
        .unwrap();
    assert_eq!(result.workload_uid, "deployment-uid");
    assert_eq!(result.container_name, "payment-api");
    assert_eq!(result.release.as_deref(), Some("1.7.2"));
    let other = WorkloadSelector {
        name: "other".into(),
        ..selector
    };
    assert_eq!(
        cache.resolve("abc", "node-1", &[other], 0).unwrap_err(),
        AttributionError::NotSelected
    );
}

#[test]
fn missing_container_is_counted_as_unattributed() {
    let mut cache = AttributionCache::new(0);
    let mut counters = Counters::default();
    assert!(resolve_and_count(&mut cache, &mut counters, Some("missing"), "node-1", &[], 0).is_none());
    assert_eq!(counters.snapshot().unattributed, 1);
}

#[test]
fn resolved_attribution_carries_pod_and_workload() {
    let mut cache = payment_cache();
    let result = cache
        .resolve("docker://abc", "node-7", &[payment_selector()], 5)
        .unwrap();
    assert_eq!(result.project_id, 0);
    assert_eq!(result.application_id, 42);
    assert_eq!(result.node_name, "node-7");
    assert_eq!(result.namespace, "production");
    assert_eq!(result.pod_uid, "pod-uid");
    assert_eq!(result.pod_name, "payment-api-1");
    assert_eq!(result.container_id, "abc");
    assert_eq!(result.workload_kind, "Deployment");
    assert_eq!(result.workload_name, "payment-api");
}

#[test]
fn broken_owner_chain_is_incomplete() {
    let mut cache = AttributionCache::new(0);
    let pod = PodInfo {
        uid: Some("pod-uid".into()),
        namespace: Some("production".into()),
        name: "payment-api-1".into(),
        owner_references: Some(vec![owner("ReplicaSet", "payment-api-abc", "rs-uid")]),
        container_statuses: vec![("payment-api".into(), Some("containerd://abc".into()))],
    };
    cache.apply_pod(&pod);
    assert_eq!(
        cache.resolve("abc", "node-1", &[payment_selector()], 0).unwrap_err(),
        AttributionError::IncompleteOwnerChain
    );
    let mut counters = Counters::default();
    assert!(resolve_and_count(&mut cache, &mut counters, None, "node-1", &[], 0).is_none());
    assert_eq!(counters.snapshot().unattributed, 1);
}

#[test]
fn pods_owned_directly_resolve_to_their_owner() {
    let mut cache = AttributionCache::new(0);
    let pod = PodInfo {
        uid: Some("pod-uid".into()),
        namespace: Some("jobs".into()),
        name: "nightly-1".into(),
        owner_references: Some(vec![owner("Job", "nightly", "job-uid")]),
        container_statuses: vec![("main".into(), Some("cri-o://xyz".into()))],
    };
    cache.apply_pod(&pod);
    let selector = WorkloadSelector {
        project_id: 0,
        application_id: 7,
        namespace: "jobs".into(),
        kind: "Job".into(),
        name: "nightly".into(),
        release: None,
        labels: Vec::new(),
    };
    let result = cache.resolve("xyz", "node-1", &[selector], 0).unwrap();
    assert_eq!(result.workload_uid, "job-uid");
    assert_eq!(result.workload_kind, "Job");
}

#[test]
fn deleted_pods_expire_after_the_ttl() {
    let mut cache = payment_cache();
    cache.delete_pod(Some("pod-uid"), 1_000);
    assert!(cache.resolve("abc", "node-1", &[payment_selector()], 30_999).is_ok());
    assert_eq!(
        cache.resolve("abc", "node-1", &[payment_selector()], 31_000).unwrap_err(),
        AttributionError::UnknownContainer
    );
}

fn agent_config() -> AgentConfig {
    AgentConfig {
        api_version: "okoscope.io/v1alpha1".into(),
        kind: "AgentConfiguration".into(),
        server: ServerConfig {
            endpoint: "http://server:4317".into(),
            credential_file: "/secrets/credential".into(),
            development_plaintext: true,
            ca_file: None,
        },
        identity: IdentityConfig { node_name: "node-1".into(), cluster_name: "local".into() },
        scope: ScopeConfig { workloads: vec![payment_selector()] },
        observation: ObservationConfig { process_exec: true, syscalls: vec!["ptrace".into()] },
        safety: SafetyLimits::default(),
    }
}

fn exec_record() -> KernelEvent {
    let mut command = [0; COMMAND_LEN];
    command[..7].copy_from_slice(b"payment");
    KernelEvent {
        event_kind: okoscope::kernel_abi::EVENT_KIND_EXEC,
        cgroup_id: 9,
        pid_tgid: (7 << 32) | 8,
        command,
        ..kernel_event()
    }
}

#[test]
fn kernel_records_become_attributed_events() {
    let mut cache = payment_cache();
    let mut counters = Counters::default();
    let config = agent_config();
    let event = runtime_event(
        &exec_record(),
        Some("containerd://abc"),
        Some("/app/payment".into()),
        None,
        &mut cache,
        &mut counters,
        &config,
        0,
    )
    .unwrap();
    assert_eq!(event.process.pid, 8);
    assert_eq!(event.process.tgid, 7);
    assert_eq!(event.process.cgroup_id, 9);
    assert_eq!(event.process.command, "payment");
    assert_eq!(event.attribution.workload_name, "payment-api");
    assert_eq!(event.attribution.application_id, 42);
    assert_eq!(
        event.payload,
        EventPayload::ProcessExec(ProcessExec { executable: "/app/payment".into(), parent_command: None })
    );
    assert_eq!(event.schema_version, EVENT_SCHEMA_VERSION);
    assert_eq!(counters.snapshot(), Counters::default().snapshot());

    assert!(runtime_event(&exec_record(), None, None, None, &mut cache, &mut counters, &config, 0).is_none());
    assert_eq!(counters.snapshot().unattributed, 1);
}

#[test]
fn payloads_follow_the_record_kind() {
    let mut counters = Counters::default();
    let command = String::from("payment");
    let exec = event_payload(&exec_record(), &command, None, None, &mut counters).unwrap();
    assert_eq!(
        exec,
        EventPayload::ProcessExec(ProcessExec { executable: "payment".into(), parent_command: None })
    );
    let syscall = KernelEvent { event_kind: okoscope::kernel_abi::EVENT_KIND_SYSCALL, ..exec_record() };
    assert!(event_payload(&syscall, &command, None, None, &mut counters).is_none());
    assert_eq!(counters.snapshot().unsupported, 1);
    assert!(matches!(
        event_payload(&syscall, &command, None, Some("ptrace"), &mut counters),
        Some(EventPayload::Syscall(s)) if s.name == "ptrace"
    ));
    let connect = event_payload(&kernel_event(), &command, None, None, &mut counters);
    assert!(matches!(connect, Some(EventPayload::NetworkConnect(_))));
    let broken = KernelEvent { destination_port: 0, ..kernel_event() };
    assert!(event_payload(&broken, &command, None, None, &mut counters).is_none());
    assert_eq!(counters.snapshot().connect_decode_failed, 1);
    let unknown = KernelEvent { event_kind: 99, ..kernel_event() };
    assert!(event_payload(&unknown, &command, None, None, &mut counters).is_none());
    assert_eq!(counters.snapshot().unsupported, 2);
}

#[test]
fn channels_need_tls_outside_development() {
    let mut server = agent_config().server;
    assert_eq!(channel_security(&server), Ok(ChannelSecurity::Plaintext));
    server.development_plaintext = false;
    assert_eq!(channel_security(&server).unwrap_err(), "caFile is required for TLS");
    server.ca_file = Some("/etc/ca.pem".into());
    assert_eq!(
        channel_security(&server),
        Ok(ChannelSecurity::Tls { ca_file: "/etc/ca.pem".into() })
    );
}

#[test]
fn sessions_present_the_credential_as_a_bearer() {
    let value = authorization_value("secret-token");
    assert_eq!(value, "Bearer secret-token");
    assert_eq!(
        okoscope::agent_gateway::bearer(Some(Some(value.as_str()))).unwrap(),
        "secret-token"
    );
    let hello = okoscope::wire::AgentHello {
        agent_version: "0.1.0".into(),
        node_name: "node-1".into(),
        architecture: "x86_64".into(),
        kernel_release: "6.8".into(),
        capabilities: vec![],
        drop_counters: None,
        cluster_uid: String::new(),
    };
    let message = hello_message(hello.clone());
    assert_eq!(message.protocol_version, 1);
    assert_eq!(message.message, Some(okoscope::wire::AgentMessageKind::Hello(hello)));
}

#[test]
fn connect_entries_keep_only_readable_destinations() {
    let mut v4 = [0u8; 16];
    v4[0..2].copy_from_slice(&AF_INET.to_ne_bytes());
    v4[2..4].copy_from_slice(&443u16.to_be_bytes());
    v4[4..8].copy_from_slice(&[10, 0, 0, 7]);
    let mut expected = [0u8; 16];
    expected[..4].copy_from_slice(&[10, 0, 0, 7]);
    assert_eq!(
        connect_entry(true, Some(AF_INET), 16, Some(&v4)),
        ConnectEntry::Destination {
            address_family: ADDRESS_FAMILY_IPV4,
            destination_port: 443,
            destination_address: expected,
        }
    );
    let mut v6 = [0u8; 28];
    v6[2..4].copy_from_slice(&53u16.to_be_bytes());
    v6[8..24].copy_from_slice(&[0x20, 0x01, 0x0d, 0xb8, 0, 0, 0, 0, 0, 0, 0, 0, 0, 0, 0, 1]);
    match connect_entry(true, Some(AF_INET6), 28, Some(&v6)) {
        ConnectEntry::Destination { address_family, destination_port, destination_address } => {
            assert_eq!((address_family, destination_port), (ADDRESS_FAMILY_IPV6, 53));
            assert_eq!(destination_address[15], 1);
            assert_eq!(destination_address[0], 0x20);
        }
        other => panic!("unexpected {other:?}"),
    }
    let decode = ConnectEntry::Counted(NETWORK_COUNTER_DECODE_FAILED);
    assert_eq!(connect_entry(false, Some(AF_INET), 16, Some(&v4)), decode);
    assert_eq!(connect_entry(true, None, 16, None), decode);
    assert_eq!(connect_entry(true, Some(AF_INET), 8, Some(&v4)), decode);
    assert_eq!(connect_entry(true, Some(AF_INET), 16, None), decode);
    assert_eq!(
        connect_entry(true, Some(1), 110, None),
        ConnectEntry::Counted(NETWORK_COUNTER_UNSUPPORTED_FAMILY)
    );
    let mut no_port = v4;
    no_port[2..4].copy_from_slice(&[0, 0]);
    assert_eq!(connect_entry(true, Some(AF_INET), 16, Some(&no_port)), decode);
}

#[test]
fn kernel_counters_sum_their_cpus() {
    assert_eq!(per_cpu_total(&vec![]), 0);
    assert_eq!(per_cpu_total(&vec![1, 2, 3]), 6);
    let per_counter = vec![vec![1, 1], vec![2], vec![], vec![4, 0, 1], vec![7]];
    assert_eq!(
        network_counters(&per_counter),
        NetworkKernelCounters {
            correlation_capacity: 2,
            correlation_miss: 2,
            decode_failed: 0,
            unsupported_family: 5,
            kernel_lost: 7,
        }
    );
    assert_eq!(
        dns_kernel_counters(&per_counter),
        DnsKernelCounters {
            unsupported_framing: 2,
            attribution_failed: 2,
            decode_failed: 0,
            oversize: 5,
            ring_lost: 7,
        }
    );
}

#[test]
fn exec_and_syscall_records_carry_no_network_fields() {
    assert_eq!(syscall_number((1 << 32) | 101), 101);
    let record = emit_record(okoscope::kernel_abi::EVENT_KIND_SYSCALL, 101, 5, 6, 7, None);
    assert_eq!((record.syscall_id, record.timestamp_ns, record.cgroup_id, record.pid_tgid), (101, 5, 6, 7));
    assert_eq!(record.command, [0; COMMAND_LEN]);
    assert_eq!(record.destination_address, [0; 16]);
    assert_eq!((record.destination_port, record.errno, record.connect_result), (0, 0, 0));
    let mut command = [0; COMMAND_LEN];
    command[0] = b'x';
    let exec = emit_record(okoscope::kernel_abi::EVENT_KIND_EXEC, 0, 1, 2, 3, Some(command));
    assert_eq!(exec.command, command);
    assert_eq!(okoscope::kernel_event::command(&exec.command), "x");
}

fn valid_configuration() -> AgentConfig {
    AgentConfig {
        api_version: "okoscope.io/v1alpha1".into(),
        kind: "AgentConfiguration".into(),
        server: ServerConfig {
            endpoint: "http://server:4317".into(),
            credential_file: "/secrets/credential".into(),
            development_plaintext: true,
            ca_file: None,
        },
        identity: IdentityConfig { node_name: "node-1".into(), cluster_name: "local".into() },
        scope: ScopeConfig {
            workloads: vec![WorkloadSelector {
                project_id: 0x018f4f9c_3f9a_7de1_8000_000000000001,
                application_id: 0x018f4f9c_3f9a_7de1_8000_000000000002,
                namespace: "production".into(),
                kind: "Deployment".into(),
                name: "payment-api".into(),
                release: None,
                labels: vec![("app.kubernetes.io/name".into(), "payment-api".into())],
            }],
        },
        observation: ObservationConfig {
            process_exec: true,
            syscalls: vec!["ptrace".into(), "setns".into()],
        },
        safety: SafetyLimits::default(),
    }
}

fn with_release(release: &str) -> AgentConfig {
    let mut config = valid_configuration();
    config.scope.workloads[0].release = Some(release.to_string());
    config
}

fn resolved(count: usize) -> Vec<Option<String>> {
    vec![None; count]
}

#[test]
fn unresolvable_syscalls_are_rejected() {
    let mut config = valid_configuration();
    config.observation.syscalls = vec!["ptrace".into(), "101".into()];
    let faults = vec![None, Some("syscall 101 is not known on x86_64".to_string())];
    let error = AgentConfig::from_parsed(config.clone(), &faults).unwrap_err();
    assert_eq!(error, ConfigError::Syscall("syscall 101 is not known on x86_64".into()));
    assert_eq!(error.message(), "syscall 101 is not known on x86_64");
    assert!(AgentConfig::from_parsed(config.clone(), &resolved(2)).is_ok());
    let mut broken = config;
    broken.scope.workloads[0].name = String::new();
    assert_eq!(
        AgentConfig::from_parsed(broken, &faults).unwrap_err(),
        ConfigError::InvalidSelector("namespace, kind, and name are required")
    );
}

#[test]
fn parses_strict_valid_configuration() {
    let config = AgentConfig::from_parsed(valid_configuration(), &resolved(2)).unwrap();
    assert_eq!(config.scope.workloads.len(), 1);
}

#[test]
fn release_is_optional_bounded_and_trimmed() {
    let config = AgentConfig::from_parsed(with_release("1.7.2"), &resolved(2)).unwrap();
    assert_eq!(config.scope.workloads[0].release.as_deref(), Some("1.7.2"));
    let normalized = AgentConfig::from_parsed(with_release(" 1.7.2 "), &resolved(2)).unwrap();
    assert_eq!(normalized.scope.workloads[0].release.as_deref(), Some("1.7.2"));
    assert!(AgentConfig::from_parsed(with_release(&"x".repeat(201)), &resolved(2)).is_err());
}
