use okoscope::event_model::{
    DnsAddressAnswer, DnsContext, DnsDirection, DnsName, DnsQueryType, DnsResponseCode,
    DnsTransport, EventPayload, IpAddr, KubernetesAttribution, NetworkAddressFamily,
    NetworkConnect, NetworkConnectOutcome, NetworkDnsQuery, NetworkDnsResponse, ProcessExec,
    ProcessIdentity, RuntimeEvent, UtcTimestamp, EVENT_SCHEMA_VERSION,
};
use okoscope::protocol::{decode_event, encode_event, validate_protocol, ProtocolError};
use okoscope::wire;

const PROJECT: u128 = 0x018f4f9c_3f9a_7de1_8000_000000000001;
const APPLICATION: u128 = 0x018f4f9c_3f9a_7de1_8000_000000000002;

fn now() -> UtcTimestamp {
    UtcTimestamp { secs: 1_700_000_000, nanos: 123_456_789 }
}

fn event() -> RuntimeEvent {
    RuntimeEvent {
        id: 0x0190_0000_0000_7000_8000_0000_0000_0042,
        observed_at: now(),
        schema_version: EVENT_SCHEMA_VERSION,
        attribution: KubernetesAttribution {
            project_id: PROJECT,
            application_id: APPLICATION,
            node_name: "node-1".into(),
            namespace: "production".into(),
            pod_uid: "pod-uid".into(),
            pod_name: "payment-api-1".into(),
            container_id: "containerd://abc".into(),
            container_name: "payment-api".into(),
            workload_uid: "deployment-uid".into(),
            workload_kind: "Deployment".into(),
            workload_name: "payment-api".into(),
            release: None,
        },
        process: ProcessIdentity {
            cgroup_id: 42,
            pid: 100,
            tgid: 100,
            command: "sh".into(),
        },
        payload: EventPayload::ProcessExec(ProcessExec {
            executable: "/bin/sh".into(),
            parent_command: Some("payment-api".into()),
        }),
    }
}

#[test]
fn event_round_trip() {
    let original = event();
    let decoded = decode_event(encode_event(original.clone())).unwrap();
    assert_eq!(decoded, original);
}

#[test]
fn optional_release_round_trips_and_old_messages_remain_valid() {
    let mut original = event();
    original.attribution.release = Some("1.7.2".into());
    assert_eq!(decode_event(encode_event(original.clone())).unwrap(), original);
    let mut wire = encode_event(event());
    wire.attribution.as_mut().unwrap().release = None;
    assert!(decode_event(wire).unwrap().attribution.release.is_none());
}

#[test]
fn release_labels_are_trimmed_and_bounded() {
    let mut wire = encode_event(event());
    wire.attribution.as_mut().unwrap().release = Some(" 1.7.2 ".into());
    assert_eq!(decode_event(wire).unwrap().attribution.release.as_deref(), Some("1.7.2"));
    let mut wire = encode_event(event());
    wire.attribution.as_mut().unwrap().release = Some("x".repeat(201));
    assert!(decode_event(wire).unwrap().attribution.release.is_none());
    let mut wire = encode_event(event());
    wire.attribution.as_mut().unwrap().release = Some("   ".into());
    assert!(decode_event(wire).unwrap().attribution.release.is_none());
}

#[test]
fn rejects_unknown_schema_and_missing_payload() {
    let mut wire = encode_event(event());
    wire.schema_version = 999;
    assert_eq!(
        decode_event(wire).unwrap_err(),
        ProtocolError::UnsupportedEventSchema(999)
    );
    let mut wire = encode_event(event());
    wire.payload = None;
    assert_eq!(decode_event(wire).unwrap_err(), ProtocolError::Missing("payload"));
}

#[test]
fn rejects_blank_required_fields_and_bad_identifiers() {
    let mut wire = encode_event(event());
    wire.attribution.as_mut().unwrap().namespace = "  ".into();
    assert_eq!(decode_event(wire).unwrap_err(), ProtocolError::Missing("namespace"));
    let mut wire = encode_event(event());
    wire.event_id = "not-a-uuid".into();
    assert_eq!(
        decode_event(wire).unwrap_err(),
        ProtocolError::InvalidUuid { field: "event_id", value: "not-a-uuid".into() }
    );
    let mut wire = encode_event(event());
    wire.process = None;
    assert_eq!(decode_event(wire).unwrap_err(), ProtocolError::Missing("process"));
}

#[test]
fn rejects_unknown_protocol() {
    assert_eq!(
        validate_protocol(999),
        Err(ProtocolError::UnsupportedProtocol(999))
    );
    assert_eq!(validate_protocol(1), Ok(()));
}

fn network_event() -> RuntimeEvent {
    let mut event = event();
    event.payload = EventPayload::NetworkConnect(
        NetworkConnect::new(
            NetworkAddressFamily::Ipv6,
            IpAddr::V6([0x20, 0x01, 0x0d, 0xb8, 0, 0, 0, 0, 0, 0, 0, 0, 0, 0, 0, 7]),
            443,
            NetworkConnectOutcome::Failed,
            Some(111),
        )
        .unwrap(),
    );
    event
}

#[test]
fn network_event_round_trips() {
    let original = network_event();
    assert_eq!(decode_event(encode_event(original.clone())).unwrap(), original);
    let legacy = event();
    assert_eq!(decode_event(encode_event(legacy.clone())).unwrap(), legacy);
}

#[test]
fn rejects_invalid_network_fields() {
    let cases = [
        (0, vec![203, 0, 113, 1], 443, 1, None),
        (1, vec![203, 0, 113], 443, 1, None),
        (1, vec![203, 0, 113, 1], 0, 1, None),
        (1, vec![203, 0, 113, 1], 443, 0, None),
        (1, vec![203, 0, 113, 1], 443, 1, Some(1)),
        (1, vec![203, 0, 113, 1], 443, 2, Some(111)),
        (1, vec![203, 0, 113, 1], 443, 3, None),
        (1, vec![203, 0, 113, 1], 443, 3, Some(4096)),
    ];
    for (family, address, port, outcome, errno) in cases {
        let mut wire = encode_event(event());
        wire.payload = Some(wire::Payload::NetworkConnect(wire::NetworkConnect {
            address_family: family,
            destination_address: address,
            destination_port: port,
            outcome,
            errno,
            dns_context: None,
        }));
        assert!(matches!(
            decode_event(wire),
            Err(ProtocolError::InvalidNetwork(_))
        ));
    }
}

#[test]
fn dns_query_response_and_connect_context_round_trip() {
    let name = DnsName::new("api.example.com".to_string()).unwrap();
    let mut query = event();
    query.payload = EventPayload::NetworkDnsQuery(NetworkDnsQuery {
        transaction_id: 42,
        direction: DnsDirection::Egress,
        transport: DnsTransport::Udp,
        resolver_address: IpAddr::V4([10, 96, 0, 10]),
        name: name.clone(),
        query_type: DnsQueryType::A,
    });
    assert_eq!(decode_event(encode_event(query.clone())).unwrap(), query);

    let mut response = event();
    response.payload = EventPayload::NetworkDnsResponse(NetworkDnsResponse {
        transaction_id: 42,
        direction: DnsDirection::Ingress,
        transport: DnsTransport::Udp,
        resolver_address: IpAddr::V4([10, 96, 0, 10]),
        name: name.clone(),
        query_type: DnsQueryType::A,
        response_code: DnsResponseCode::NoError,
        truncated: false,
        answers: vec![DnsAddressAnswer::new(name.clone(), IpAddr::V4([203, 0, 113, 7]), 60).unwrap()],
        cname_chain: vec![],
        effective_ttl_seconds: Some(60),
    });
    assert_eq!(decode_event(encode_event(response.clone())).unwrap(), response);

    let observed_at = now();
    let expires_at = UtcTimestamp { secs: observed_at.secs + 60, nanos: observed_at.nanos };
    let context = DnsContext::new(vec![name], observed_at, expires_at).unwrap();
    let mut connect = network_event();
    if let EventPayload::NetworkConnect(value) = &mut connect.payload {
        value.dns_context = Some(context);
    }
    assert_eq!(decode_event(encode_event(connect.clone())).unwrap(), connect);
}

#[test]
fn rejects_malformed_dns_wire_fields() {
    let mut wire = encode_event(event());
    wire.payload = Some(wire::Payload::NetworkDnsQuery(wire::NetworkDnsQuery {
        transaction_id: 70_000,
        direction: wire::DNS_DIRECTION_EGRESS,
        transport: wire::DNS_TRANSPORT_UDP,
        resolver_address: vec![10, 0, 0, 1],
        name: "UPPER.example".into(),
        query_type: wire::DNS_QUERY_TYPE_A,
    }));
    assert!(matches!(decode_event(wire), Err(ProtocolError::InvalidDns(_))));

    let mut wire = encode_event(network_event());
    if let Some(wire::Payload::NetworkConnect(network)) = &mut wire.payload {
        network.dns_context = Some(wire::DnsContext {
            names: vec!["one.example".into(), "two.example".into()],
            observed_at_unix_nanos: 1,
            expires_at_unix_nanos: 2,
            confidence: wire::DNS_CONFIDENCE_OBSERVED_RECENTLY,
            ambiguous: false,
        });
    }
    assert!(matches!(
        decode_event(wire),
        Err(ProtocolError::InvalidDns("context.ambiguous"))
    ));
}

#[test]
fn timestamps_travel_as_nanoseconds() {
    let wire = encode_event(event());
    assert_eq!(wire.observed_at_unix_nanos, 1_700_000_000_123_456_789);
    assert_eq!(wire.event_id, "01900000-0000-7000-8000-000000000042");
    let mut negative = encode_event(event());
    negative.observed_at_unix_nanos = -1;
    assert_eq!(
        decode_event(negative).unwrap().observed_at,
        UtcTimestamp { secs: -1, nanos: 999_999_999 }
    );
}
