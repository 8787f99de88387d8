use okoscope::event_model::{
    DnsAddressAnswer, DnsContext, DnsDirection, DnsName, DnsQueryType, DnsResponseCode,
    DnsTransport, EventPayload, IpAddr, KubernetesAttribution, NetworkAddressFamily,
    NetworkConnect, NetworkConnectOutcome, NetworkDnsQuery, NetworkDnsResponse, ProcessExec,
    ProcessIdentity, RuntimeEvent, SyscallEvent, UtcTimestamp, EVENT_SCHEMA_VERSION,
    LINUX_EINPROGRESS,
};
use okoscope::grouping::{
    canonical_encoding, fingerprint_v1, grouping_follow_up, FingerprintError, FingerprintVersion, GroupingSource,
    RuntimeGroupStatus, Semantic, TrustedGroupingScope,
};

fn event(payload: EventPayload) -> RuntimeEvent {
    RuntimeEvent {
        id: 50,
        observed_at: UtcTimestamp { secs: 1_700_000_000, nanos: 0 },
        schema_version: EVENT_SCHEMA_VERSION,
        attribution: KubernetesAttribution {
            project_id: 2,
            application_id: 3,
            node_name: "node-a".into(),
            namespace: "payments".into(),
            pod_uid: "pod-uid-a".into(),
            pod_name: "payment-api-abc".into(),
            container_id: "container-a".into(),
            container_name: "api".into(),
            workload_uid: "deployment-uid-a".into(),
            workload_kind: "Deployment".into(),
            workload_name: "payment-api".into(),
            release: None,
        },
        process: ProcessIdentity {
            cgroup_id: 10,
            pid: 100,
            tgid: 100,
            command: "curl".into(),
        },
        payload,
    }
}

fn scope(event: &RuntimeEvent) -> TrustedGroupingScope<'_> {
    TrustedGroupingScope {
        organization_id: 1,
        project_id: event.attribution.project_id,
        application_id: event.attribution.application_id,
        cluster_id: 4,
        namespace: &event.attribution.namespace,
        workload_kind: &event.attribution.workload_kind,
        workload_name: &event.attribution.workload_name,
    }
}

#[test]
fn fingerprint_is_stable_across_rollout_identity() {
    let first = event(EventPayload::ProcessExec(ProcessExec {
        executable: "/bin/sh".into(),
        parent_command: None,
    }));
    let mut rolled = first.clone();
    rolled.id = 51;
    rolled.attribution.pod_uid = "pod-uid-b".into();
    rolled.attribution.pod_name = "payment-api-def".into();
    rolled.attribution.container_id = "container-b".into();
    rolled.attribution.workload_uid = "deployment-uid-b".into();
    rolled.process.pid = 200;
    assert_eq!(
        fingerprint_v1(&scope(&first), &first).unwrap().digest,
        fingerprint_v1(&scope(&rolled), &rolled).unwrap().digest
    );
}

#[test]
fn tenant_and_workload_are_part_of_fingerprint() {
    let event = event(EventPayload::Syscall(SyscallEvent {
        name: "PTRACE".into(),
    }));
    let first = fingerprint_v1(&scope(&event), &event).unwrap();
    let mut other_tenant = scope(&event);
    other_tenant.organization_id = 99;
    let mut other_workload = scope(&event);
    other_workload.workload_name = "worker";
    assert_ne!(
        first.digest,
        fingerprint_v1(&other_tenant, &event).unwrap().digest
    );
    assert_ne!(
        first.digest,
        fingerprint_v1(&other_workload, &event).unwrap().digest
    );
    assert_eq!(
        first.summary.semantic,
        Semantic::Syscall { process_command: "curl".into(), syscall: "ptrace".into() }
    );
    assert_eq!(first.version, FingerprintVersion::V1);
    assert_eq!(first.summary.event_kind, "syscall");
}

#[test]
fn semantic_identity_is_normalized_and_validated() {
    let spaced = event(EventPayload::ProcessExec(ProcessExec {
        executable: "  /bin/sh\0 ".into(),
        parent_command: None,
    }));
    let clean = event(EventPayload::ProcessExec(ProcessExec {
        executable: "/bin/sh".into(),
        parent_command: None,
    }));
    assert_eq!(
        fingerprint_v1(&scope(&spaced), &spaced).unwrap().digest,
        fingerprint_v1(&scope(&clean), &clean).unwrap().digest
    );

    let invalid = event(EventPayload::Syscall(SyscallEvent { name: " \0".into() }));
    assert_eq!(
        fingerprint_v1(&scope(&invalid), &invalid),
        Err(FingerprintError::EmptyField("syscall_name"))
    );
}

#[test]
fn empty_scope_fields_are_refused_in_order() {
    let e = event(EventPayload::ProcessExec(ProcessExec {
        executable: "/bin/sh".into(),
        parent_command: None,
    }));
    let mut s = scope(&e);
    s.workload_kind = " ";
    s.workload_name = "";
    assert_eq!(fingerprint_v1(&s, &e), Err(FingerprintError::EmptyField("workload_kind")));
    let mut blank_command = e.clone();
    blank_command.payload = EventPayload::Syscall(SyscallEvent { name: "ptrace".into() });
    blank_command.process.command = "\0".into();
    assert_eq!(
        fingerprint_v1(&scope(&blank_command), &blank_command),
        Err(FingerprintError::EmptyField("process_command"))
    );
}

#[test]
fn fingerprint_digest_is_sha256_of_the_canonical_fields() {
    let e = event(EventPayload::ProcessExec(ProcessExec {
        executable: "/bin/sh".into(),
        parent_command: None,
    }));
    let fields: Vec<Vec<u8>> = vec![
        b"okoscope.runtime-event-group".to_vec(),
        1_i16.to_be_bytes().to_vec(),
        1_u128.to_be_bytes().to_vec(),
        2_u128.to_be_bytes().to_vec(),
        3_u128.to_be_bytes().to_vec(),
        4_u128.to_be_bytes().to_vec(),
        b"payments".to_vec(),
        b"Deployment".to_vec(),
        b"payment-api".to_vec(),
        b"process.exec".to_vec(),
        b"/bin/sh".to_vec(),
    ];
    let encoded = canonical_encoding(&fields);
    let mut expected_encoding = Vec::new();
    for field in &fields {
        expected_encoding.extend_from_slice(&(field.len() as u64).to_be_bytes());
        expected_encoding.extend_from_slice(field);
    }
    assert_eq!(encoded, expected_encoding);
    let digest: [u8; 32] = <sha2::Sha256 as sha2::Digest>::digest(&encoded).into();
    assert_eq!(fingerprint_v1(&scope(&e), &e).unwrap().digest, digest);
}

fn network(address: [u8; 4], port: u16, outcome: NetworkConnectOutcome) -> RuntimeEvent {
    let errno = match outcome {
        NetworkConnectOutcome::Succeeded => None,
        NetworkConnectOutcome::InProgress => Some(LINUX_EINPROGRESS),
        NetworkConnectOutcome::Failed => Some(111),
    };
    event(EventPayload::NetworkConnect(
        NetworkConnect::new(NetworkAddressFamily::Ipv4, IpAddr::V4(address), port, outcome, errno)
            .unwrap(),
    ))
}

#[test]
fn network_fingerprint_uses_endpoint_but_not_outcome() {
    let succeeded = network([203, 0, 113, 7], 443, NetworkConnectOutcome::Succeeded);
    let failed = network([203, 0, 113, 7], 443, NetworkConnectOutcome::Failed);
    let other_address = network([203, 0, 113, 8], 443, NetworkConnectOutcome::Succeeded);
    let other_port = network([203, 0, 113, 7], 8443, NetworkConnectOutcome::Succeeded);
    let mut other_process = succeeded.clone();
    other_process.process.command = "wget".into();

    let fingerprint = fingerprint_v1(&scope(&succeeded), &succeeded).unwrap();
    assert_eq!(
        fingerprint.digest,
        fingerprint_v1(&scope(&failed), &failed).unwrap().digest
    );
    assert_ne!(
        fingerprint.digest,
        fingerprint_v1(&scope(&other_address), &other_address).unwrap().digest
    );
    assert_ne!(
        fingerprint.digest,
        fingerprint_v1(&scope(&other_port), &other_port).unwrap().digest
    );
    assert_ne!(
        fingerprint.digest,
        fingerprint_v1(&scope(&other_process), &other_process).unwrap().digest
    );
    assert_eq!(
        fingerprint.summary.semantic,
        Semantic::Network {
            process_command: "curl".into(),
            address_family: "ipv4",
            destination_address: IpAddr::V4([203, 0, 113, 7]),
            destination_port: 443,
            dns_context: None,
        }
    );
}

#[test]
fn dns_fingerprint_excludes_transaction_and_answers() {
    let name = DnsName::new("api.example.com".to_string()).unwrap();
    let query = event(EventPayload::NetworkDnsQuery(NetworkDnsQuery {
        transaction_id: 1,
        direction: DnsDirection::Egress,
        transport: DnsTransport::Udp,
        resolver_address: IpAddr::V4([10, 96, 0, 10]),
        name: name.clone(),
        query_type: DnsQueryType::A,
    }));
    let mut repeated = query.clone();
    let EventPayload::NetworkDnsQuery(value) = &mut repeated.payload else {
        unreachable!()
    };
    value.transaction_id = 99;
    assert_eq!(
        fingerprint_v1(&scope(&query), &query).unwrap().digest,
        fingerprint_v1(&scope(&repeated), &repeated).unwrap().digest
    );

    let response = event(EventPayload::NetworkDnsResponse(NetworkDnsResponse {
        transaction_id: 1,
        direction: DnsDirection::Ingress,
        transport: DnsTransport::Udp,
        resolver_address: IpAddr::V4([10, 96, 0, 10]),
        name: name.clone(),
        query_type: DnsQueryType::A,
        response_code: DnsResponseCode::NoError,
        truncated: false,
        answers: vec![DnsAddressAnswer::new(name, IpAddr::V4([203, 0, 113, 7]), 60).unwrap()],
        cname_chain: vec![],
        effective_ttl_seconds: Some(60),
    }));
    let mut changed_answer = response.clone();
    let EventPayload::NetworkDnsResponse(value) = &mut changed_answer.payload else {
        unreachable!()
    };
    value.transaction_id = 2;
    value.answers[0].address = IpAddr::V4([203, 0, 113, 8]);
    assert_eq!(
        fingerprint_v1(&scope(&response), &response).unwrap().digest,
        fingerprint_v1(&scope(&changed_answer), &changed_answer).unwrap().digest
    );
}

#[test]
fn connection_context_changes_summary_but_not_ip_first_fingerprint() {
    let plain = network([203, 0, 113, 7], 443, NetworkConnectOutcome::Succeeded);
    let mut qualified = plain.clone();
    let observed_at = UtcTimestamp { secs: 1_700_000_000, nanos: 0 };
    let EventPayload::NetworkConnect(connect) = &mut qualified.payload else {
        unreachable!()
    };
    connect.dns_context = Some(
        DnsContext::new(
            vec![DnsName::new("api.example.com".to_string()).unwrap()],
            observed_at,
            UtcTimestamp { secs: observed_at.secs + 60, nanos: 0 },
        )
        .unwrap(),
    );
    let plain_fingerprint = fingerprint_v1(&scope(&plain), &plain).unwrap();
    let qualified_fingerprint = fingerprint_v1(&scope(&qualified), &qualified).unwrap();
    assert_eq!(plain_fingerprint.digest, qualified_fingerprint.digest);
    let Semantic::Network { dns_context: plain_context, .. } = plain_fingerprint.summary.semantic
    else {
        unreachable!()
    };
    assert!(plain_context.is_none());
    let Semantic::Network { dns_context: qualified_context, .. } =
        qualified_fingerprint.summary.semantic
    else {
        unreachable!()
    };
    assert!(qualified_context.is_some());
}

#[test]
fn group_status_and_source_names() {
    assert_eq!(RuntimeGroupStatus::default(), RuntimeGroupStatus::Open);
    assert_eq!(RuntimeGroupStatus::Acknowledged.as_str(), "acknowledged");
    assert_eq!(GroupingSource::Backfill.as_str(), "backfill");
    assert_eq!(FingerprintVersion::V1.number(), 1);
}

#[test]
fn replayed_events_are_counted_nowhere() {
    let first = grouping_follow_up(true, true, Some(9));
    assert!(!first.update_occurrence);
    assert!(first.announce_first_seen);
    assert_eq!(first.release_summary, Some(9));
    let again = grouping_follow_up(false, true, None);
    assert!(again.update_occurrence);
    assert!(!again.announce_first_seen);
    let replay = grouping_follow_up(false, false, Some(9));
    assert!(!replay.update_occurrence);
    assert_eq!(replay.release_summary, None);
    assert!(!replay.announce_first_seen);
}
