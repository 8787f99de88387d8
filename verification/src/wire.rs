//! Messages of the versioned agent/server protocol (`okoscope.v1`), field by
//! field as they travel; enumerations travel as their `i32` numbers.

use vstd::prelude::*;

verus! {

pub const ADDRESS_FAMILY_UNSPECIFIED: i32 = 0;

pub const ADDRESS_FAMILY_IPV4: i32 = 1;

pub const ADDRESS_FAMILY_IPV6: i32 = 2;

pub const CONNECT_OUTCOME_UNSPECIFIED: i32 = 0;

pub const CONNECT_OUTCOME_SUCCEEDED: i32 = 1;

pub const CONNECT_OUTCOME_IN_PROGRESS: i32 = 2;

pub const CONNECT_OUTCOME_FAILED: i32 = 3;

pub const DNS_DIRECTION_EGRESS: i32 = 1;

pub const DNS_DIRECTION_INGRESS: i32 = 2;

pub const DNS_TRANSPORT_UDP: i32 = 1;

pub const DNS_TRANSPORT_TCP: i32 = 2;

pub const DNS_QUERY_TYPE_A: i32 = 1;

pub const DNS_QUERY_TYPE_AAAA: i32 = 2;

pub const DNS_RESPONSE_CODE_NO_ERROR: i32 = 1;

pub const DNS_RESPONSE_CODE_FORM_ERR: i32 = 2;

pub const DNS_RESPONSE_CODE_SERV_FAIL: i32 = 3;

pub const DNS_RESPONSE_CODE_NX_DOMAIN: i32 = 4;

pub const DNS_RESPONSE_CODE_NOT_IMP: i32 = 5;

pub const DNS_RESPONSE_CODE_REFUSED: i32 = 6;

pub const DNS_CONFIDENCE_OBSERVED_RECENTLY: i32 = 1;

pub const CONTROL_STATUS_APPLIED: i32 = 1;

pub const CONTROL_STATUS_UNSUPPORTED: i32 = 2;

#[derive(Clone, Debug, PartialEq, Eq)]
pub struct RuntimeEvent {
    pub event_id: String,
    pub observed_at_unix_nanos: i64,
    pub schema_version: u32,
    pub attribution: Option<KubernetesAttribution>,
    pub process: Option<ProcessIdentity>,
    pub payload: Option<Payload>,
}

#[derive(Clone, Debug, PartialEq, Eq)]
pub struct KubernetesAttribution {
    pub project_id: String,
    pub application_id: String,
    pub node_name: String,
    pub namespace: String,
    pub pod_uid: String,
    pub pod_name: String,
    pub container_id: String,
    pub container_name: String,
    pub workload_uid: String,
    pub workload_kind: String,
    pub workload_name: String,
    pub release: Option<String>,
}

#[derive(Clone, Debug, PartialEq, Eq)]
pub struct ProcessIdentity {
    pub cgroup_id: u64,
    pub pid: u32,
    pub tgid: u32,
    pub command: String,
}

#[derive(Clone, Debug, PartialEq, Eq)]
pub enum Payload {
    ProcessExec(ProcessExec),
    Syscall(Syscall),
    NetworkConnect(NetworkConnect),
    NetworkDnsQuery(NetworkDnsQuery),
    NetworkDnsResponse(NetworkDnsResponse),
}

#[derive(Clone, Debug, PartialEq, Eq)]
pub struct ProcessExec {
    pub executable: String,
    pub parent_command: String,
}

#[derive(Clone, Debug, PartialEq, Eq)]
pub struct Syscall {
    pub name: String,
}

#[derive(Clone, Debug, PartialEq, Eq)]
pub struct NetworkConnect {
    pub address_family: i32,
    pub destination_address: Vec<u8>,
    pub destination_port: u32,
    pub outcome: i32,
    pub errno: Option<u32>,
    pub dns_context: Option<DnsContext>,
}

#[derive(Clone, Debug, PartialEq, Eq)]
pub struct NetworkDnsQuery {
    pub transaction_id: u32,
    pub direction: i32,
    pub transport: i32,
    pub resolver_address: Vec<u8>,
    pub name: String,
    pub query_type: i32,
}

#[derive(Clone, Debug, PartialEq, Eq)]
pub struct DnsAddressAnswer {
    pub name: String,
    pub address: Vec<u8>,
    pub ttl_seconds: u32,
}

#[derive(Clone, Debug, PartialEq, Eq)]
pub struct DnsCname {
    pub alias: String,
    pub canonical: String,
    pub ttl_seconds: u32,
}

#[derive(Clone, Debug, PartialEq, Eq)]
pub struct NetworkDnsResponse {
    pub transaction_id: u32,
    pub direction: i32,
    pub transport: i32,
    pub resolver_address: Vec<u8>,
    pub name: String,
    pub query_type: i32,
    pub response_code: i32,
    pub truncated: bool,
    pub answers: Vec<DnsAddressAnswer>,
    pub cname_chain: Vec<DnsCname>,
    pub effective_ttl_seconds: Option<u32>,
}

#[derive(Clone, Debug, PartialEq, Eq)]
pub struct DnsContext {
    pub names: Vec<String>,
    pub observed_at_unix_nanos: i64,
    pub expires_at_unix_nanos: i64,
    pub confidence: i32,
    pub ambiguous: bool,
}

/// Capability of an agent that reports file activity by syscall path.
pub const FILE_ACTIVITY_CAPABILITY: &'static str = "file.activity.syscall-path/v1";

/// Capability of an agent that reports Kubernetes release evidence.
pub const KUBERNETES_RELEASE_DISCOVERY_CAPABILITY: &'static str = "kubernetes.release-discovery/v1";

/// The first message of an agent's session.
#[derive(Clone, Debug, PartialEq, Eq)]
pub struct AgentHello {
    pub agent_version: String,
    pub node_name: String,
    pub architecture: String,
    pub kernel_release: String,
    pub capabilities: Vec<String>,
    pub drop_counters: Option<DropCounters>,
    pub cluster_uid: String,
}

/// A numbered batch of events.
#[derive(Clone, Debug, PartialEq, Eq)]
pub struct EventBatch {
    pub sequence: u64,
    pub events: Vec<RuntimeEvent>,
}

/// A periodic sign of life with the agent's drop counters.
#[derive(Clone, Copy, Debug, PartialEq, Eq)]
pub struct Heartbeat {
    pub sent_at_unix_nanos: i64,
    pub drop_counters: Option<DropCounters>,
}

/// The typed content of an agent message. Release evidence and readiness
/// snapshots are carried through as they came.
#[derive(Clone, Debug, PartialEq, Eq)]
pub enum AgentMessageKind {
    Hello(AgentHello),
    EventBatch(EventBatch),
    Heartbeat(Heartbeat),
    ControlResult(ControlResult),
    RevisionEvidence(Vec<u8>),
    ReadinessSnapshot(Vec<u8>),
}

/// A message of an agent to the server.
#[derive(Clone, Debug, PartialEq, Eq)]
pub struct AgentMessage {
    pub protocol_version: u32,
    pub message: Option<AgentMessageKind>,
}

/// A typed control command of the server.
#[derive(Clone, Debug, PartialEq, Eq)]
pub enum ControlCommand {
    Ping,
}

#[derive(Clone, Debug, PartialEq, Eq)]
pub struct ControlMessage {
    pub request_id: String,
    pub command: Option<ControlCommand>,
}

#[derive(Clone, Debug, PartialEq, Eq)]
pub struct ControlResult {
    pub request_id: String,
    pub status: i32,
    pub detail: String,
}

#[derive(Clone, Debug, PartialEq, Eq)]
pub struct SessionAccepted {
    pub organization_id: String,
    pub cluster_id: String,
    pub agent_id: String,
    pub negotiated_protocol_version: u32,
    pub project_id: String,
    pub application_id: String,
}

#[derive(Clone, Copy, Debug, PartialEq, Eq)]
pub struct BatchAcknowledgement {
    pub sequence: u64,
    pub accepted_events: u32,
    pub retention_expired_events: u32,
}

#[derive(Clone, Debug, PartialEq, Eq)]
pub enum ServerMessageKind {
    SessionAccepted(SessionAccepted),
    BatchAcknowledgement(BatchAcknowledgement),
    Control(ControlMessage),
}

#[derive(Clone, Debug, PartialEq, Eq)]
pub struct ServerMessage {
    pub protocol_version: u32,
    pub message: Option<ServerMessageKind>,
}

/// Drop counters an agent reports in its hello and heartbeats.
#[derive(Clone, Copy, Debug, Default, PartialEq, Eq)]
pub struct DropCounters {
    pub filtered: u64,
    pub unattributed: u64,
    pub unsupported: u64,
    pub decode_failed: u64,
    pub capacity: u64,
    pub kernel_lost: u64,
    pub connect_correlation_capacity: u64,
    pub connect_correlation_miss: u64,
    pub connect_decode_failed: u64,
    pub connect_unsupported_family: u64,
    pub connect_kernel_lost: u64,
    pub dns_packet_decode_failed: u64,
    pub dns_malformed_compression: u64,
    pub dns_truncated: u64,
    pub dns_unsupported_record: u64,
    pub dns_correlation_miss: u64,
    pub dns_correlation_capacity: u64,
    pub dns_tcp_reassembly: u64,
    pub dns_rate_limited: u64,
    pub dns_capacity: u64,
    pub dns_kernel_lost: u64,
    pub dns_kernel_unsupported_framing: u64,
    pub dns_attribution_failed: u64,
    pub dns_oversize: u64,
    pub inbound_decode_failed: u64,
    pub inbound_attribution_failed: u64,
    pub inbound_unsupported_family: u64,
    pub inbound_kernel_lost: u64,
    pub inbound_rate_limited: u64,
    pub inbound_correlation_miss: u64,
    pub file_correlation_capacity: u64,
    pub file_correlation_miss: u64,
    pub file_path_read_failed: u64,
    pub file_path_relative: u64,
    pub file_path_invalid: u64,
    pub file_path_oversize: u64,
    pub file_fd_miss: u64,
    pub file_filtered: u64,
    pub file_kernel_lost: u64,
    pub file_aggregation_capacity: u64,
    pub file_decode_failed: u64,
    pub file_attribution_failed: u64,
    pub file_rate_limited: u64,
    pub file_unsupported_object: u64,
}

} // verus!
