use okoscope::event_model::{
    DnsAddressAnswer, DnsConfidence, DnsContext, DnsDirection, DnsName, DnsQueryType,
    DnsResponseCode, DnsTransport, DnsValidationError, EventPayload, IpAddr,
    KubernetesAttribution, NetworkAddressFamily, NetworkConnect, NetworkConnectError,
    NetworkConnectOutcome, NetworkDnsQuery, NetworkDnsResponse, ProcessIdentity, RuntimeEvent,
    UtcTimestamp, EVENT_SCHEMA_VERSION, LINUX_EINPROGRESS,
};

const LOCALHOST6: [u8; 16] = [0, 0, 0, 0, 0, 0, 0, 0, 0, 0, 0, 0, 0, 0, 0, 1];

#[test]
fn network_connect_validates_family_port_and_outcome() {
    let ipv4 = IpAddr::V4([203, 0, 113, 7]);
    let event = NetworkConnect::new(
        NetworkAddressFamily::Ipv4,
        ipv4,
        443,
        NetworkConnectOutcome::Succeeded,
        None,
    )
    .unwrap();
    assert_eq!(event.destination_address, ipv4);
    assert_eq!(
        NetworkConnect::new(
            NetworkAddressFamily::Ipv6,
            ipv4,
            443,
            NetworkConnectOutcome::Succeeded,
            None,
        ),
        Err(NetworkConnectError::AddressFamilyMismatch)
    );
    assert_eq!(
        NetworkConnect::new(
            NetworkAddressFamily::Ipv4,
            ipv4,
            0,
            NetworkConnectOutcome::Succeeded,
            None,
        ),
        Err(NetworkConnectError::ZeroDestinationPort)
    );
    assert_eq!(
        NetworkConnect::new(
            NetworkAddressFamily::Ipv4,
            ipv4,
            443,
            NetworkConnectOutcome::Failed,
            None,
        ),
        Err(NetworkConnectError::InconsistentOutcome)
    );
    assert!(NetworkConnect::new(
        NetworkAddressFamily::Ipv6,
        IpAddr::V6(LOCALHOST6),
        443,
        NetworkConnectOutcome::InProgress,
        Some(LINUX_EINPROGRESS),
    )
    .is_ok());
}

#[test]
fn errno_outside_linux_range_is_rejected() {
    let ipv4 = IpAddr::V4([203, 0, 113, 7]);
    assert_eq!(
        NetworkConnect::new(NetworkAddressFamily::Ipv4, ipv4, 443, NetworkConnectOutcome::Failed, Some(4096)),
        Err(NetworkConnectError::InvalidErrno)
    );
    assert_eq!(
        NetworkConnect::new(NetworkAddressFamily::Ipv4, ipv4, 443, NetworkConnectOutcome::Failed, Some(0)),
        Err(NetworkConnectError::InvalidErrno)
    );
    assert_eq!(
        NetworkConnect::new(NetworkAddressFamily::Ipv4, ipv4, 443, NetworkConnectOutcome::Failed, Some(115)),
        Err(NetworkConnectError::InconsistentOutcome)
    );
    assert_eq!(NetworkConnectError::InvalidErrno.message(), "errno must be in 1..=4095");
}

#[test]
fn dns_name_requires_canonical_bounded_ascii_labels() {
    assert_eq!(
        DnsName::new("api.example.com".to_string()).unwrap().as_str(),
        "api.example.com"
    );
    for invalid in [
        "",
        "API.example.com",
        "api.example.com.",
        "-api.example",
        "api..example",
        "пример.рф",
    ] {
        assert_eq!(
            DnsName::new(invalid.to_string()),
            Err(DnsValidationError::InvalidName)
        );
    }
    assert_eq!(
        DnsName::new(format!("{}.example", "a".repeat(64))),
        Err(DnsValidationError::InvalidName)
    );
}

#[test]
fn dns_name_bounds_are_inclusive() {
    assert!(DnsName::new(format!("{}.example", "a".repeat(63))).is_ok());
    let long = format!("{}.{}.{}.{}", "a".repeat(63), "b".repeat(63), "c".repeat(63), "d".repeat(61));
    assert_eq!(long.len(), 253);
    assert!(DnsName::new(long.clone()).is_ok());
    assert!(DnsName::new(format!("{long}e")).is_err());
    assert!(DnsName::new("api-1.example".to_string()).is_ok());
    assert!(DnsName::new("api-.example".to_string()).is_err());
}

fn at(secs: i64) -> UtcTimestamp {
    UtcTimestamp { secs, nanos: 0 }
}

#[test]
fn dns_ttl_and_context_are_strictly_bounded() {
    let name = DnsName::new("api.example.com".to_string()).unwrap();
    assert_eq!(
        DnsAddressAnswer::new(name.clone(), IpAddr::V4([203, 0, 113, 4]), 0),
        Err(DnsValidationError::InvalidTtl)
    );
    let observed_at = at(1_700_000_000);
    let context = DnsContext::new(
        vec![name.clone(), DnsName::new("cdn.example.com".to_string()).unwrap()],
        observed_at,
        at(1_700_000_060),
    )
    .unwrap();
    assert!(context.ambiguous);
    assert_eq!(context.confidence, DnsConfidence::ObservedRecently);
    assert_eq!(
        DnsContext::new(vec![name], observed_at, observed_at),
        Err(DnsValidationError::InvalidContext)
    );
}

#[test]
fn dns_response_bounds_answers_and_ttls() {
    let name = DnsName::new("api.example.com".to_string()).unwrap();
    let answer = DnsAddressAnswer::new(name.clone(), IpAddr::V4([203, 0, 113, 4]), 60).unwrap();
    let mut response = NetworkDnsResponse {
        transaction_id: 1,
        direction: DnsDirection::Ingress,
        transport: DnsTransport::Udp,
        resolver_address: IpAddr::V4([10, 96, 0, 10]),
        name,
        query_type: DnsQueryType::A,
        response_code: DnsResponseCode::NoError,
        truncated: false,
        answers: vec![answer.clone(); 16],
        cname_chain: vec![],
        effective_ttl_seconds: Some(86_400),
    };
    assert_eq!(response.validate(), Ok(()));
    response.answers.push(answer);
    assert_eq!(response.validate(), Err(DnsValidationError::TooManyValues));
    response.answers.pop();
    response.effective_ttl_seconds = Some(86_401);
    assert_eq!(response.validate(), Err(DnsValidationError::InvalidTtl));
}

#[test]
fn dns_payload_kinds_are_typed() {
    let query = NetworkDnsQuery {
        transaction_id: 7,
        direction: DnsDirection::Egress,
        transport: DnsTransport::Udp,
        resolver_address: IpAddr::V4([10, 96, 0, 10]),
        name: DnsName::new("api.example.com".to_string()).unwrap(),
        query_type: DnsQueryType::A,
    };
    let mut event = RuntimeEvent {
        id: 1,
        observed_at: at(1_700_000_000),
        schema_version: EVENT_SCHEMA_VERSION,
        attribution: KubernetesAttribution {
            project_id: 2,
            application_id: 3,
            node_name: "node".into(),
            namespace: "default".into(),
            pod_uid: "pod".into(),
            pod_name: "pod".into(),
            container_id: "container".into(),
            container_name: "container".into(),
            workload_uid: "workload".into(),
            workload_kind: "Deployment".into(),
            workload_name: "api".into(),
            release: None,
        },
        process: ProcessIdentity {
            cgroup_id: 1,
            pid: 2,
            tgid: 2,
            command: "api".into(),
        },
        payload: EventPayload::NetworkDnsQuery(query.clone()),
    };
    assert_eq!(event.kind(), "network.dns.query");
    event.payload = EventPayload::NetworkDnsResponse(NetworkDnsResponse {
        transaction_id: query.transaction_id,
        direction: DnsDirection::Ingress,
        transport: query.transport,
        resolver_address: query.resolver_address,
        name: query.name,
        query_type: query.query_type,
        response_code: DnsResponseCode::NxDomain,
        truncated: false,
        answers: vec![],
        cname_chain: vec![],
        effective_ttl_seconds: None,
    });
    assert_eq!(event.kind(), "network.dns.response");
}

#[test]
fn cloned_events_are_equal() {
    let name = DnsName::new("api.example.com".to_string()).unwrap();
    let event = RuntimeEvent {
        id: 9,
        observed_at: at(5),
        schema_version: EVENT_SCHEMA_VERSION,
        attribution: KubernetesAttribution {
            project_id: 2,
            application_id: 3,
            node_name: "node".into(),
            namespace: "default".into(),
            pod_uid: "pod".into(),
            pod_name: "pod".into(),
            container_id: "container".into(),
            container_name: "container".into(),
            workload_uid: "workload".into(),
            workload_kind: "Deployment".into(),
            workload_name: "api".into(),
            release: Some("1.0".into()),
        },
        process: ProcessIdentity { cgroup_id: 1, pid: 2, tgid: 2, command: "api".into() },
        payload: EventPayload::NetworkConnect(
            NetworkConnect::new(
                NetworkAddressFamily::Ipv4,
                IpAddr::V4([1, 2, 3, 4]),
                80,
                NetworkConnectOutcome::Succeeded,
                None,
            )
            .unwrap()
            .with_dns_context(DnsContext::new(vec![name], at(1), at(2)).unwrap()),
        ),
    };
    assert_eq!(event.clone(), event);
}

#[test]
fn timestamps_convert_to_nanoseconds_when_they_fit() {
    assert_eq!(UtcTimestamp { secs: 1, nanos: 5 }.unix_nanos(), Some(1_000_000_005));
    assert_eq!(UtcTimestamp { secs: -1, nanos: 0 }.unix_nanos(), Some(-1_000_000_000));
    assert_eq!(UtcTimestamp { secs: i64::MAX, nanos: 0 }.unix_nanos(), None);
    assert!(at(1).not_after(&at(1)));
    assert!(!at(2).not_after(&at(1)));
}
