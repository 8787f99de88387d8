//! Transport-independent runtime event domain model.

use vstd::prelude::*;

use crate::text::chars_of;

verus! {

pub const EVENT_SCHEMA_VERSION: u32 = 1;

pub const PROTOCOL_VERSION: u32 = 1;

pub const LINUX_EINPROGRESS: u16 = 115;

pub const MAX_LINUX_ERRNO: u16 = 4095;

pub const MAX_DNS_NAME_LEN: usize = 253;

pub const MAX_DNS_LABEL_LEN: usize = 63;

pub const MAX_DNS_CONTEXT_NAMES: usize = 8;

pub const MAX_DNS_ANSWERS: usize = 16;

pub const MAX_DNS_CNAME_CHAIN: usize = 8;

pub const MAX_DNS_TTL_SECONDS: u32 = 86_400;

pub const NANOS_PER_SECOND: u32 = 1_000_000_000;

/// A UTC instant: whole seconds since the Unix epoch and the nanoseconds within
/// that second (at or above one second only during a leap second).
#[derive(Clone, Copy, Debug, PartialEq, Eq, Hash)]
pub struct UtcTimestamp {
    pub secs: i64,
    pub nanos: u32,
}

/// `a` is not later than `b`, in the order of `chrono::DateTime`.
pub open spec fn ts_le(a: UtcTimestamp, b: UtcTimestamp) -> bool {
    a.secs < b.secs || (a.secs == b.secs && a.nanos <= b.nanos)
}

/// Nanoseconds since the Unix epoch.
pub open spec fn total_nanos(t: UtcTimestamp) -> int {
    t.secs * 1_000_000_000 + t.nanos
}

pub open spec fn fits_i64(v: int) -> bool {
    i64::MIN <= v <= i64::MAX
}

impl UtcTimestamp {
    /// `DateTime::timestamp_nanos_opt`: the instant as nanoseconds since the
    /// epoch, when that fits an `i64`.
    pub fn unix_nanos(&self) -> (r: Option<i64>)
        ensures
            r == (if fits_i64(total_nanos(*self)) {
                Some(total_nanos(*self) as i64)
            } else {
                None
            }),
    {
        let secs = self.secs as i128;
        let nanos = self.nanos as i128;
        let total: i128 = secs * 1_000_000_000 + nanos;
        if total < i64::MIN as i128 || total > i64::MAX as i128 {
            None
        } else {
            Some(total as i64)
        }
    }

    /// Whether `self` is not later than `other`.
    pub fn not_after(&self, other: &UtcTimestamp) -> (r: bool)
        ensures
            r == ts_le(*self, *other),
    {
        self.secs < other.secs || (self.secs == other.secs && self.nanos <= other.nanos)
    }
}

/// An IPv4 or IPv6 address, by its octets.
#[derive(Clone, Copy, Debug, PartialEq, Eq, Hash)]
pub enum IpAddr {
    V4([u8; 4]),
    V6([u8; 16]),
}

#[derive(Debug, PartialEq, Eq)]
pub struct RuntimeEvent {
    pub id: u128,
    pub observed_at: UtcTimestamp,
    pub schema_version: u32,
    pub attribution: KubernetesAttribution,
    pub process: ProcessIdentity,
    pub payload: EventPayload,
}

/// The kind name of a payload.
pub open spec fn payload_kind(p: EventPayload) -> Seq<char> {
    match p {
        EventPayload::ProcessExec(_) => "process.exec"@,
        EventPayload::Syscall(_) => "syscall"@,
        EventPayload::NetworkConnect(_) => "network.connect"@,
        EventPayload::NetworkDnsQuery(_) => "network.dns.query"@,
        EventPayload::NetworkDnsResponse(_) => "network.dns.response"@,
    }
}

impl RuntimeEvent {
    /// The event's kind name, such as `process.exec`.
    pub fn kind(&self) -> (r: &'static str)
        ensures
            r@ == payload_kind(self.payload),
    {
        match self.payload {
            EventPayload::ProcessExec(_) => "process.exec",
            EventPayload::Syscall(_) => "syscall",
            EventPayload::NetworkConnect(_) => "network.connect",
            EventPayload::NetworkDnsQuery(_) => "network.dns.query",
            EventPayload::NetworkDnsResponse(_) => "network.dns.response",
        }
    }
}

#[derive(Clone, Debug, PartialEq, Eq)]
pub struct KubernetesAttribution {
    pub project_id: u128,
    pub application_id: u128,
    pub node_name: String,
    pub namespace: String,
    pub pod_uid: String,
    pub pod_name: String,
    pub container_id: String,
    pub container_name: String,
    pub workload_uid: String,
    pub workload_kind: String,
    pub workload_name: String,
    pub release: Option<String>,
}

#[derive(Clone, Debug, PartialEq, Eq)]
pub struct ProcessIdentity {
    pub cgroup_id: u64,
    pub pid: u32,
    pub tgid: u32,
    pub command: String,
}

#[derive(Clone, Debug, PartialEq, Eq)]
pub enum EventPayload {
    ProcessExec(ProcessExec),
    Syscall(SyscallEvent),
    NetworkConnect(NetworkConnect),
    NetworkDnsQuery(NetworkDnsQuery),
    NetworkDnsResponse(NetworkDnsResponse),
}

#[derive(Clone, Debug, PartialEq, Eq)]
pub struct ProcessExec {
    pub executable: String,
    pub parent_command: Option<String>,
}

#[derive(Clone, Debug, PartialEq, Eq)]
pub struct SyscallEvent {
    pub name: String,
}

#[derive(Clone, Copy, Debug, PartialEq, Eq, Hash)]
pub enum NetworkAddressFamily {
    Ipv4,
    Ipv6,
}

#[derive(Clone, Copy, Debug, PartialEq, Eq, Hash)]
pub enum NetworkConnectOutcome {
    Succeeded,
    InProgress,
    Failed,
}

#[derive(Clone, Debug, PartialEq, Eq)]
pub struct NetworkConnect {
    pub address_family: NetworkAddressFamily,
    pub destination_address: IpAddr,
    pub destination_port: u16,
    pub outcome: NetworkConnectOutcome,
    pub errno: Option<u16>,
    pub dns_context: Option<DnsContext>,
}

#[derive(Clone, Copy, Debug, PartialEq, Eq)]
pub enum NetworkConnectError {
    ZeroDestinationPort,
    AddressFamilyMismatch,
    InconsistentOutcome,
    InvalidErrno,
}

/// The text of a network connect error.
pub open spec fn connect_error_text(e: NetworkConnectError) -> Seq<char> {
    match e {
        NetworkConnectError::ZeroDestinationPort => "destination port must be non-zero"@,
        NetworkConnectError::AddressFamilyMismatch =>
            "address family does not match destination address"@,
        NetworkConnectError::InconsistentOutcome => "connect outcome and errno are inconsistent"@,
        NetworkConnectError::InvalidErrno => "errno must be in 1..=4095"@,
    }
}

impl NetworkConnectError {
    /// Human-readable description of the error.
    pub fn message(&self) -> (r: &'static str)
        ensures
            r@ == connect_error_text(*self),
    {
        match self {
            NetworkConnectError::ZeroDestinationPort => "destination port must be non-zero",
            NetworkConnectError::AddressFamilyMismatch => "address family does not match destination address",
            NetworkConnectError::InconsistentOutcome => "connect outcome and errno are inconsistent",
            NetworkConnectError::InvalidErrno => "errno must be in 1..=4095",
        }
    }
}

pub open spec fn family_matches(family: NetworkAddressFamily, address: IpAddr) -> bool {
    match (family, address) {
        (NetworkAddressFamily::Ipv4, IpAddr::V4(_)) => true,
        (NetworkAddressFamily::Ipv6, IpAddr::V6(_)) => true,
        _ => false,
    }
}

pub open spec fn errno_out_of_range(errno: Option<u16>) -> bool {
    match errno {
        Some(value) => value == 0 || value > MAX_LINUX_ERRNO,
        None => false,
    }
}

/// The errno agrees with the outcome: none on success, `EINPROGRESS` while in
/// progress, and any other errno in range on failure.
pub open spec fn outcome_consistent(outcome: NetworkConnectOutcome, errno: Option<u16>) -> bool {
    match (outcome, errno) {
        (NetworkConnectOutcome::Succeeded, None) => true,
        (NetworkConnectOutcome::InProgress, Some(e)) => e == LINUX_EINPROGRESS,
        (NetworkConnectOutcome::Failed, Some(e)) => 1 <= e <= MAX_LINUX_ERRNO && e
            != LINUX_EINPROGRESS,
        _ => false,
    }
}

/// What `NetworkConnect::new` returns for its arguments.
pub open spec fn network_connect_result(
    address_family: NetworkAddressFamily,
    destination_address: IpAddr,
    destination_port: u16,
    outcome: NetworkConnectOutcome,
    errno: Option<u16>,
) -> Result<NetworkConnect, NetworkConnectError> {
    if destination_port == 0 {
        Err(NetworkConnectError::ZeroDestinationPort)
    } else if !family_matches(address_family, destination_address) {
        Err(NetworkConnectError::AddressFamilyMismatch)
    } else if errno_out_of_range(errno) {
        Err(NetworkConnectError::InvalidErrno)
    } else if !outcome_consistent(outcome, errno) {
        Err(NetworkConnectError::InconsistentOutcome)
    } else {
        Ok(
            NetworkConnect {
                address_family,
                destination_address,
                destination_port,
                outcome,
                errno,
                dns_context: None,
            },
        )
    }
}

/// A connection attempt as `NetworkConnect::new` accepts it.
pub open spec fn valid_network_connect(n: NetworkConnect) -> bool {
    &&& n.destination_port != 0
    &&& family_matches(n.address_family, n.destination_address)
    &&& !errno_out_of_range(n.errno)
    &&& outcome_consistent(n.outcome, n.errno)
}

impl NetworkConnect {
    /// Constructs a validated outbound connection attempt.
    pub fn new(
        address_family: NetworkAddressFamily,
        destination_address: IpAddr,
        destination_port: u16,
        outcome: NetworkConnectOutcome,
        errno: Option<u16>,
    ) -> (r: Result<Self, NetworkConnectError>)
        ensures
            r == network_connect_result(
                address_family,
                destination_address,
                destination_port,
                outcome,
                errno,
            ),
            r is Ok ==> valid_network_connect(r->Ok_0),
    {
        if destination_port == 0 {
            return Err(NetworkConnectError::ZeroDestinationPort);
        }
        let family_ok = match (address_family, destination_address) {
            (NetworkAddressFamily::Ipv4, IpAddr::V4(_)) => true,
            (NetworkAddressFamily::Ipv6, IpAddr::V6(_)) => true,
            _ => false,
        };
        if !family_ok {
            return Err(NetworkConnectError::AddressFamilyMismatch);
        }
        let bad_errno = match errno {
            Some(value) => value == 0 || value > MAX_LINUX_ERRNO,
            None => false,
        };
        if bad_errno {
            return Err(NetworkConnectError::InvalidErrno);
        }
        let consistent = match (outcome, errno) {
            (NetworkConnectOutcome::Succeeded, None) => true,
            (NetworkConnectOutcome::InProgress, Some(e)) => e == LINUX_EINPROGRESS,
            (NetworkConnectOutcome::Failed, Some(e)) => 1 <= e && e <= MAX_LINUX_ERRNO && e
                != LINUX_EINPROGRESS,
            _ => false,
        };
        if !consistent {
            return Err(NetworkConnectError::InconsistentOutcome);
        }
        Ok(
            NetworkConnect {
                address_family,
                destination_address,
                destination_port,
                outcome,
                errno,
                dns_context: None,
            },
        )
    }

    /// The same attempt, qualified by the names recently resolved to its address.
    pub fn with_dns_context(self, context: DnsContext) -> (r: Self)
        ensures
            r == (NetworkConnect { dns_context: Some(context), ..self }),
    {
        let mut value = self;
        value.dns_context = Some(context);
        value
    }
}

/// A character a canonical DNS name may hold.
pub open spec fn dns_char(c: char) -> bool {
    ('a' <= c && c <= 'z') || ('0' <= c && c <= '9') || c == '-' || c == '.'
}

/// `[a, b)` is a maximal run of `s` without a dot: one label.
pub open spec fn is_label_span(s: Seq<char>, a: int, b: int) -> bool {
    &&& 0 <= a <= b <= s.len()
    &&& (a == 0 || s[a - 1] == '.')
    &&& (b == s.len() || s[b] == '.')
    &&& forall|k: int| a <= k < b ==> s[k] != '.'
}

/// A label is non-empty, at most 63 characters, and neither starts nor ends with a hyphen.
pub open spec fn label_ok(s: Seq<char>, a: int, b: int) -> bool {
    &&& a < b
    &&& b - a <= MAX_DNS_LABEL_LEN
    &&& s[a] != '-'
    &&& s[b - 1] != '-'
}

/// A canonical DNS name: lower-case ASCII letters, digits and hyphens in
/// dot-separated labels, at most 253 characters, no trailing dot.
pub open spec fn valid_dns_name(s: Seq<char>) -> bool {
    &&& s.len() <= MAX_DNS_NAME_LEN
    &&& forall|i: int| 0 <= i < s.len() ==> dns_char(#[trigger] s[i])
    &&& forall|a: int, b: int| is_label_span(s, a, b) ==> label_ok(s, a, b)
}

fn is_dns_char(c: char) -> (r: bool)
    ensures
        r == dns_char(c),
{
    ('a' <= c && c <= 'z') || ('0' <= c && c <= '9') || c == '-' || c == '.'
}

fn check_dns_name(v: &Vec<char>) -> (ok: bool)
    ensures
        ok == valid_dns_name(v@),
{
    let n = v.len();
    if n == 0 {
        assert(is_label_span(v@, 0, 0));
        return false;
    }
    if n > MAX_DNS_NAME_LEN {
        return false;
    }
    let mut i: usize = 0;
    let mut start: usize = 0;
    while i < n
        invariant
            start <= i <= n,
            n == v@.len(),
            1 <= n <= MAX_DNS_NAME_LEN,
            start == 0 || v@[start - 1] == '.',
            forall|k: int| start <= k < i ==> v@[k] != '.',
            forall|k: int| 0 <= k < i ==> dns_char(#[trigger] v@[k]),
            forall|a: int, b: int|
                is_label_span(v@, a, b) && b < i ==> label_ok(v@, a, b),
        decreases n - i,
    {
        let c = v[i];
        if !is_dns_char(c) {
            assert(!dns_char(v@[i as int]));
            return false;
        }
        if c == '.' {
            let bad = i == start || i - start > MAX_DNS_LABEL_LEN || v[start] == '-' || v[i - 1]
                == '-';
            assert(is_label_span(v@, start as int, i as int));
            if bad {
                return false;
            }
            assert forall|a: int, b: int|
                is_label_span(v@, a, b) && b < i + 1 implies label_ok(v@, a, b) by {
                if b == i {
                    if a < start {
                        assert(v@[start - 1] == '.');
                    } else if a > start {
                        assert(v@[a - 1] == '.');
                    }
                }
            }
            start = i + 1;
        } else {
            assert forall|a: int, b: int|
                is_label_span(v@, a, b) && b < i + 1 implies label_ok(v@, a, b) by {
                if b == i {
                    assert(v@[b] != '.');
                }
            }
        }
        i = i + 1;
    }
    assert(is_label_span(v@, start as int, n as int));
    if n == start || n - start > MAX_DNS_LABEL_LEN || v[start] == '-' || v[n - 1] == '-' {
        return false;
    }
    assert forall|a: int, b: int| is_label_span(v@, a, b) implies label_ok(v@, a, b) by {
        if b == n {
            if a < start {
                assert(v@[start - 1] == '.');
            } else if a > start {
                assert(v@[a - 1] == '.');
            }
        }
    }
    true
}

/// A validated, canonical DNS name.
#[derive(Debug, PartialEq, Eq, Hash)]
pub struct DnsName(String);

impl Clone for DnsName {
    fn clone(&self) -> (r: Self)
        ensures
            r == *self,
    {
        proof {
            use_type_invariant(self);
        }
        DnsName(self.0.clone())
    }
}

impl View for DnsName {
    type V = Seq<char>;

    closed spec fn view(&self) -> Seq<char> {
        self.0@
    }
}

/// The name holding the given text (meaningful for canonical texts only).
pub closed spec fn dns_name_of(text: String) -> DnsName {
    DnsName(text)
}

impl DnsName {
    #[verifier::type_invariant]
    spec fn inv(&self) -> bool {
        valid_dns_name(self.0@)
    }

    /// Validates a canonical DNS name.
    pub fn new(value: String) -> (r: Result<Self, DnsValidationError>)
        ensures
            valid_dns_name(value@) ==> r == Ok::<_, DnsValidationError>(dns_name_of(value)),
            valid_dns_name(value@) ==> r is Ok && r->Ok_0@ == value@,
            !valid_dns_name(value@) ==> r == Err::<DnsName, _>(DnsValidationError::InvalidName),
    {
        let v = chars_of(value.as_str());
        if check_dns_name(&v) {
            Ok(DnsName(value))
        } else {
            Err(DnsValidationError::InvalidName)
        }
    }

    /// The name's text.
    pub fn as_str(&self) -> (r: &str)
        ensures
            r@ == self@,
            valid_dns_name(self@),
    {
        proof {
            use_type_invariant(self);
        }
        self.0.as_str()
    }

    /// The name's text, owned.
    pub fn into_string(self) -> (r: String)
        ensures
            r@ == self@,
            valid_dns_name(self@),
            dns_name_of(r) == self,
    {
        proof {
            use_type_invariant(&self);
        }
        self.0
    }

}

#[derive(Clone, Copy, Debug, PartialEq, Eq, Hash)]
pub enum DnsQueryType {
    A,
    Aaaa,
}

#[derive(Clone, Copy, Debug, PartialEq, Eq, Hash)]
pub enum DnsTransport {
    Udp,
    Tcp,
}

#[derive(Clone, Copy, Debug, PartialEq, Eq, Hash)]
pub enum DnsDirection {
    Egress,
    Ingress,
}

#[derive(Clone, Copy, Debug, PartialEq, Eq, Hash)]
pub enum DnsResponseCode {
    NoError,
    FormErr,
    ServFail,
    NxDomain,
    NotImp,
    Refused,
}

#[derive(Clone, Copy, Debug, PartialEq, Eq, Hash)]
pub enum DnsConfidence {
    ObservedRecently,
}

#[derive(Debug, PartialEq, Eq)]
pub struct DnsAddressAnswer {
    pub name: DnsName,
    pub address: IpAddr,
    pub ttl_seconds: u32,
}

#[derive(Debug, PartialEq, Eq)]
pub struct DnsCname {
    pub alias: DnsName,
    pub canonical: DnsName,
    pub ttl_seconds: u32,
}

#[derive(Clone, Debug, PartialEq, Eq)]
pub struct NetworkDnsQuery {
    pub transaction_id: u16,
    pub direction: DnsDirection,
    pub transport: DnsTransport,
    pub resolver_address: IpAddr,
    pub name: DnsName,
    pub query_type: DnsQueryType,
}

#[derive(Clone, Debug, PartialEq, Eq)]
pub struct NetworkDnsResponse {
    pub transaction_id: u16,
    pub direction: DnsDirection,
    pub transport: DnsTransport,
    pub resolver_address: IpAddr,
    pub name: DnsName,
    pub query_type: DnsQueryType,
    pub response_code: DnsResponseCode,
    pub truncated: bool,
    pub answers: Vec<DnsAddressAnswer>,
    pub cname_chain: Vec<DnsCname>,
    pub effective_ttl_seconds: Option<u32>,
}

#[derive(Clone, Debug, PartialEq, Eq)]
pub struct DnsContext {
    pub names: Vec<DnsName>,
    pub observed_at: UtcTimestamp,
    pub expires_at: UtcTimestamp,
    pub confidence: DnsConfidence,
    pub ambiguous: bool,
}

#[derive(Clone, Copy, Debug, PartialEq, Eq)]
pub enum DnsValidationError {
    InvalidName,
    TooManyValues,
    InvalidTtl,
    InvalidContext,
}

/// A TTL within `1..=86400` seconds.
pub open spec fn valid_ttl(ttl: u32) -> bool {
    1 <= ttl <= MAX_DNS_TTL_SECONDS
}

pub fn validate_ttl(ttl_seconds: u32) -> (r: Result<(), DnsValidationError>)
    ensures
        r == (if valid_ttl(ttl_seconds) {
            Ok(())
        } else {
            Err(DnsValidationError::InvalidTtl)
        }),
{
    if 1 <= ttl_seconds && ttl_seconds <= MAX_DNS_TTL_SECONDS {
        Ok(())
    } else {
        Err(DnsValidationError::InvalidTtl)
    }
}

impl DnsAddressAnswer {
    pub fn new(name: DnsName, address: IpAddr, ttl_seconds: u32) -> (r: Result<
        Self,
        DnsValidationError,
    >)
        ensures
            r == (if valid_ttl(ttl_seconds) {
                Ok(DnsAddressAnswer { name, address, ttl_seconds })
            } else {
                Err(DnsValidationError::InvalidTtl)
            }),
    {
        validate_ttl(ttl_seconds)?;
        Ok(DnsAddressAnswer { name, address, ttl_seconds })
    }
}

impl DnsCname {
    pub fn new(alias: DnsName, canonical: DnsName, ttl_seconds: u32) -> (r: Result<
        Self,
        DnsValidationError,
    >)
        ensures
            r == (if valid_ttl(ttl_seconds) {
                Ok(DnsCname { alias, canonical, ttl_seconds })
            } else {
                Err(DnsValidationError::InvalidTtl)
            }),
    {
        validate_ttl(ttl_seconds)?;
        Ok(DnsCname { alias, canonical, ttl_seconds })
    }
}

pub open spec fn answers_ttls_ok(answers: Seq<DnsAddressAnswer>) -> bool {
    forall|i: int| 0 <= i < answers.len() ==> valid_ttl(#[trigger] answers[i].ttl_seconds)
}

pub open spec fn cnames_ttls_ok(chain: Seq<DnsCname>) -> bool {
    forall|i: int| 0 <= i < chain.len() ==> valid_ttl(#[trigger] chain[i].ttl_seconds)
}

/// What `NetworkDnsResponse::validate` returns.
pub open spec fn dns_response_check(r: NetworkDnsResponse) -> Result<(), DnsValidationError> {
    if r.answers@.len() > MAX_DNS_ANSWERS || r.cname_chain@.len() > MAX_DNS_CNAME_CHAIN {
        Err(DnsValidationError::TooManyValues)
    } else if !answers_ttls_ok(r.answers@) || !cnames_ttls_ok(r.cname_chain@) || (match r.effective_ttl_seconds {
        Some(ttl) => !valid_ttl(ttl),
        None => false,
    }) {
        Err(DnsValidationError::InvalidTtl)
    } else {
        Ok(())
    }
}

impl NetworkDnsResponse {
    pub fn validate(&self) -> (r: Result<(), DnsValidationError>)
        ensures
            r == dns_response_check(*self),
    {
        if self.answers.len() > MAX_DNS_ANSWERS || self.cname_chain.len() > MAX_DNS_CNAME_CHAIN {
            return Err(DnsValidationError::TooManyValues);
        }
        let mut i: usize = 0;
        while i < self.answers.len()
            invariant
                i <= self.answers@.len(),
                self.answers@.len() <= MAX_DNS_ANSWERS,
                self.cname_chain@.len() <= MAX_DNS_CNAME_CHAIN,
                forall|j: int| 0 <= j < i ==> valid_ttl(#[trigger] self.answers@[j].ttl_seconds),
            decreases self.answers@.len() - i,
        {
            if validate_ttl(self.answers[i].ttl_seconds).is_err() {
                assert(!valid_ttl(self.answers@[i as int].ttl_seconds));
                return Err(DnsValidationError::InvalidTtl);
            }
            i = i + 1;
        }
        let mut j: usize = 0;
        while j < self.cname_chain.len()
            invariant
                j <= self.cname_chain@.len(),
                self.answers@.len() <= MAX_DNS_ANSWERS,
                self.cname_chain@.len() <= MAX_DNS_CNAME_CHAIN,
                answers_ttls_ok(self.answers@),
                forall|k: int|
                    0 <= k < j ==> valid_ttl(#[trigger] self.cname_chain@[k].ttl_seconds),
            decreases self.cname_chain@.len() - j,
        {
            if validate_ttl(self.cname_chain[j].ttl_seconds).is_err() {
                assert(!valid_ttl(self.cname_chain@[j as int].ttl_seconds));
                return Err(DnsValidationError::InvalidTtl);
            }
            j = j + 1;
        }
        if let Some(ttl) = self.effective_ttl_seconds {
            validate_ttl(ttl)?;
        }
        Ok(())
    }
}

/// The conditions `DnsContext::new` puts on its arguments.
pub open spec fn context_args_ok(
    names: Seq<DnsName>,
    observed_at: UtcTimestamp,
    expires_at: UtcTimestamp,
) -> bool {
    &&& names.len() > 0
    &&& names.len() <= MAX_DNS_CONTEXT_NAMES
    &&& !ts_le(expires_at, observed_at)
}

/// A context as `DnsContext::validate` accepts it.
pub open spec fn valid_dns_context(c: DnsContext) -> bool {
    &&& context_args_ok(c.names@, c.observed_at, c.expires_at)
    &&& c.ambiguous == (c.names@.len() > 1)
    &&& c.confidence == DnsConfidence::ObservedRecently
}

impl DnsContext {
    pub fn new(names: Vec<DnsName>, observed_at: UtcTimestamp, expires_at: UtcTimestamp) -> (r:
        Result<Self, DnsValidationError>)
        ensures
            context_args_ok(names@, observed_at, expires_at) ==> r == Ok::<_, DnsValidationError>(
                DnsContext {
                    names,
                    observed_at,
                    expires_at,
                    confidence: DnsConfidence::ObservedRecently,
                    ambiguous: names@.len() > 1,
                },
            ),
            !context_args_ok(names@, observed_at, expires_at) ==> r == Err::<DnsContext, _>(
                DnsValidationError::InvalidContext,
            ),
            r is Ok ==> valid_dns_context(r->Ok_0),
    {
        if names.len() == 0 || names.len() > MAX_DNS_CONTEXT_NAMES || expires_at.not_after(
            &observed_at,
        ) {
            return Err(DnsValidationError::InvalidContext);
        }
        let ambiguous = names.len() > 1;
        Ok(
            DnsContext {
                names,
                observed_at,
                expires_at,
                confidence: DnsConfidence::ObservedRecently,
                ambiguous,
            },
        )
    }

    pub fn validate(&self) -> (r: Result<(), DnsValidationError>)
        ensures
            r == (if valid_dns_context(*self) {
                Ok(())
            } else {
                Err(DnsValidationError::InvalidContext)
            }),
    {
        if self.names.len() == 0 || self.names.len() > MAX_DNS_CONTEXT_NAMES
            || self.expires_at.not_after(&self.observed_at) || self.ambiguous != (self.names.len()
            > 1) {
            return Err(DnsValidationError::InvalidContext);
        }
        match self.confidence {
            DnsConfidence::ObservedRecently => Ok(()),
        }
    }
}

impl Clone for DnsAddressAnswer {
    fn clone(&self) -> (r: Self)
        ensures
            r == *self,
    {
        DnsAddressAnswer { name: self.name.clone(), address: self.address, ttl_seconds: self.ttl_seconds }
    }
}

impl Clone for DnsCname {
    fn clone(&self) -> (r: Self)
        ensures
            r == *self,
    {
        DnsCname {
            alias: self.alias.clone(),
            canonical: self.canonical.clone(),
            ttl_seconds: self.ttl_seconds,
        }
    }
}

// ------------------------------------------------------------------ sameness

/// Two contexts hold the same names, instants and flags.
pub open spec fn same_context(a: DnsContext, b: DnsContext) -> bool {
    &&& a.names@ == b.names@
    &&& a.observed_at == b.observed_at
    &&& a.expires_at == b.expires_at
    &&& a.confidence == b.confidence
    &&& a.ambiguous == b.ambiguous
}

pub open spec fn same_network(a: NetworkConnect, b: NetworkConnect) -> bool {
    &&& a.address_family == b.address_family
    &&& a.destination_address == b.destination_address
    &&& a.destination_port == b.destination_port
    &&& a.outcome == b.outcome
    &&& a.errno == b.errno
    &&& match (a.dns_context, b.dns_context) {
        (None, None) => true,
        (Some(x), Some(y)) => same_context(x, y),
        _ => false,
    }
}

pub open spec fn same_dns_response(a: NetworkDnsResponse, b: NetworkDnsResponse) -> bool {
    &&& a.transaction_id == b.transaction_id
    &&& a.direction == b.direction
    &&& a.transport == b.transport
    &&& a.resolver_address == b.resolver_address
    &&& a.name == b.name
    &&& a.query_type == b.query_type
    &&& a.response_code == b.response_code
    &&& a.truncated == b.truncated
    &&& a.answers@ == b.answers@
    &&& a.cname_chain@ == b.cname_chain@
    &&& a.effective_ttl_seconds == b.effective_ttl_seconds
}

/// Two payloads are equal, their lists compared element by element.
pub open spec fn same_payload(a: EventPayload, b: EventPayload) -> bool {
    match (a, b) {
        (EventPayload::NetworkConnect(x), EventPayload::NetworkConnect(y)) => same_network(x, y),
        (EventPayload::NetworkDnsResponse(x), EventPayload::NetworkDnsResponse(y)) => same_dns_response(x, y),
        (EventPayload::NetworkConnect(_), _) => false,
        (EventPayload::NetworkDnsResponse(_), _) => false,
        _ => a == b,
    }
}

/// Two events are equal, their lists compared element by element.
pub open spec fn same_event(a: RuntimeEvent, b: RuntimeEvent) -> bool {
    &&& a.id == b.id
    &&& a.observed_at == b.observed_at
    &&& a.schema_version == b.schema_version
    &&& a.attribution == b.attribution
    &&& a.process == b.process
    &&& same_payload(a.payload, b.payload)
}

/// Two sequences of events are equal element by element.
pub open spec fn same_events(a: Seq<RuntimeEvent>, b: Seq<RuntimeEvent>) -> bool {
    &&& a.len() == b.len()
    &&& forall|i: int| 0 <= i < a.len() ==> same_event(#[trigger] a[i], b[i])
}

fn clone_text(s: &String) -> (r: String)
    ensures
        r == *s,
{
    s.clone()
}

fn clone_optional_text(s: &Option<String>) -> (r: Option<String>)
    ensures
        r == *s,
{
    match s {
        Some(t) => Some(t.clone()),
        None => None,
    }
}

pub fn clone_context(c: &DnsContext) -> (r: DnsContext)
    ensures
        same_context(r, *c),
{
    DnsContext {
        names: c.names.clone(),
        observed_at: c.observed_at,
        expires_at: c.expires_at,
        confidence: c.confidence,
        ambiguous: c.ambiguous,
    }
}

fn clone_payload(p: &EventPayload) -> (r: EventPayload)
    ensures
        same_payload(r, *p),
{
    match p {
        EventPayload::ProcessExec(x) => EventPayload::ProcessExec(
            ProcessExec {
                executable: clone_text(&x.executable),
                parent_command: clone_optional_text(&x.parent_command),
            },
        ),
        EventPayload::Syscall(x) => EventPayload::Syscall(SyscallEvent { name: clone_text(&x.name) }),
        EventPayload::NetworkConnect(x) => EventPayload::NetworkConnect(
            NetworkConnect {
                address_family: x.address_family,
                destination_address: x.destination_address,
                destination_port: x.destination_port,
                outcome: x.outcome,
                errno: x.errno,
                dns_context: match &x.dns_context {
                    Some(c) => Some(clone_context(c)),
                    None => None,
                },
            },
        ),
        EventPayload::NetworkDnsQuery(x) => EventPayload::NetworkDnsQuery(
            NetworkDnsQuery {
                transaction_id: x.transaction_id,
                direction: x.direction,
                transport: x.transport,
                resolver_address: x.resolver_address,
                name: x.name.clone(),
                query_type: x.query_type,
            },
        ),
        EventPayload::NetworkDnsResponse(x) => EventPayload::NetworkDnsResponse(
            NetworkDnsResponse {
                transaction_id: x.transaction_id,
                direction: x.direction,
                transport: x.transport,
                resolver_address: x.resolver_address,
                name: x.name.clone(),
                query_type: x.query_type,
                response_code: x.response_code,
                truncated: x.truncated,
                answers: x.answers.clone(),
                cname_chain: x.cname_chain.clone(),
                effective_ttl_seconds: x.effective_ttl_seconds,
            },
        ),
    }
}

impl Clone for RuntimeEvent {
    fn clone(&self) -> (r: Self)
        ensures
            same_event(r, *self),
    {
        let a = &self.attribution;
        RuntimeEvent {
            id: self.id,
            observed_at: self.observed_at,
            schema_version: self.schema_version,
            attribution: KubernetesAttribution {
                project_id: a.project_id,
                application_id: a.application_id,
                node_name: clone_text(&a.node_name),
                namespace: clone_text(&a.namespace),
                pod_uid: clone_text(&a.pod_uid),
                pod_name: clone_text(&a.pod_name),
                container_id: clone_text(&a.container_id),
                container_name: clone_text(&a.container_name),
                workload_uid: clone_text(&a.workload_uid),
                workload_kind: clone_text(&a.workload_kind),
                workload_name: clone_text(&a.workload_name),
                release: clone_optional_text(&a.release),
            },
            process: ProcessIdentity {
                cgroup_id: self.process.cgroup_id,
                pid: self.process.pid,
                tgid: self.process.tgid,
                command: clone_text(&self.process.command),
            },
            payload: clone_payload(&self.payload),
        }
    }
}

} // verus!
