//! Conversion between the event model and the versioned wire protocol.

use vstd::prelude::*;

use crate::clock::{timestamp_from_parts, MAX_NANOS_SECOND, MIN_NANOS_SECOND};
use crate::event_model::{
    dns_name_of, fits_i64, total_nanos, valid_dns_name, valid_ttl, DnsAddressAnswer, DnsCname,
    DnsConfidence, DnsContext, DnsDirection, DnsName, DnsQueryType, DnsResponseCode,
    DnsTransport, EventPayload, IpAddr, KubernetesAttribution, NetworkAddressFamily,
    NetworkConnect, NetworkConnectOutcome, NetworkDnsQuery, NetworkDnsResponse, ProcessExec,
    ProcessIdentity, RuntimeEvent, SyscallEvent, UtcTimestamp, EVENT_SCHEMA_VERSION,
    PROTOCOL_VERSION,
};
use crate::ids::{parse_uuid_text, spec_uuid_parse, spec_uuid_text, uuid_text};
use crate::text::{
    all_whitespace, append, byte_len, decimal, is_blank, same_text, trim_whitespace, trim_ws,
    u64_text, utf8_len,
};
use crate::wire;

verus! {

pub const NETWORK_CONNECT_CAPABILITY: &'static str = "network.connect/v1";

pub const NETWORK_DNS_UDP_CAPABILITY: &'static str = "network.dns.udp/v1";

pub const NETWORK_DNS_TCP_CAPABILITY: &'static str = "network.dns.tcp/v1";

/// Longest release label kept from the wire, in bytes.
pub const MAX_RELEASE_LEN: usize = 200;

#[derive(Clone, Debug, PartialEq, Eq)]
pub enum ProtocolError {
    UnsupportedProtocol(u32),
    UnsupportedEventSchema(u32),
    Missing(&'static str),
    InvalidUuid { field: &'static str, value: String },
    InvalidTimestamp,
    InvalidNetwork(&'static str),
    InvalidDns(&'static str),
}

/// A protocol error with its texts taken as character sequences.
pub enum ProtocolFault {
    UnsupportedProtocol(u32),
    UnsupportedEventSchema(u32),
    Missing(Seq<char>),
    InvalidUuid(Seq<char>, Seq<char>),
    InvalidTimestamp,
    InvalidNetwork(Seq<char>),
    InvalidDns(Seq<char>),
}

impl View for ProtocolError {
    type V = ProtocolFault;

    open spec fn view(&self) -> ProtocolFault {
        match self {
            ProtocolError::UnsupportedProtocol(v) => ProtocolFault::UnsupportedProtocol(*v),
            ProtocolError::UnsupportedEventSchema(v) => ProtocolFault::UnsupportedEventSchema(*v),
            ProtocolError::Missing(f) => ProtocolFault::Missing(f@),
            ProtocolError::InvalidUuid { field, value } => ProtocolFault::InvalidUuid(
                field@,
                value@,
            ),
            ProtocolError::InvalidTimestamp => ProtocolFault::InvalidTimestamp,
            ProtocolError::InvalidNetwork(f) => ProtocolFault::InvalidNetwork(f@),
            ProtocolError::InvalidDns(f) => ProtocolFault::InvalidDns(f@),
        }
    }
}

/// The text of a protocol error, as its `Display` writes it.
pub open spec fn fault_text(f: ProtocolFault) -> Seq<char> {
    match f {
        ProtocolFault::UnsupportedProtocol(v) => "unsupported protocol version "@ + decimal(
            v as nat,
        ),
        ProtocolFault::UnsupportedEventSchema(v) => "unsupported event schema version "@
            + decimal(v as nat),
        ProtocolFault::Missing(field) => "missing field: "@ + field,
        ProtocolFault::InvalidUuid(field, value) => "invalid UUID in "@ + field + ": "@ + value,
        ProtocolFault::InvalidTimestamp => "invalid observation timestamp"@,
        ProtocolFault::InvalidNetwork(field) => "invalid network field: "@ + field,
        ProtocolFault::InvalidDns(field) => "invalid DNS field: "@ + field,
    }
}

impl ProtocolError {
    /// Human-readable description of the error.
    pub fn message(&self) -> (r: String)
        ensures
            r@ == fault_text(self@),
    {
        let mut s = String::new();
        match self {
            ProtocolError::UnsupportedProtocol(v) => {
                proof {
                    reveal_strlit("unsupported protocol version ");
                }
                append(&mut s, "unsupported protocol version ");
                let d = u64_text(*v as u64);
                append(&mut s, d.as_str());
            },
            ProtocolError::UnsupportedEventSchema(v) => {
                proof {
                    reveal_strlit("unsupported event schema version ");
                }
                append(&mut s, "unsupported event schema version ");
                let d = u64_text(*v as u64);
                append(&mut s, d.as_str());
            },
            ProtocolError::Missing(field) => {
                proof {
                    reveal_strlit("missing field: ");
                }
                append(&mut s, "missing field: ");
                append(&mut s, field);
            },
            ProtocolError::InvalidUuid { field, value } => {
                proof {
                    reveal_strlit("invalid UUID in ");
                    reveal_strlit(": ");
                }
                append(&mut s, "invalid UUID in ");
                append(&mut s, field);
                append(&mut s, ": ");
                append(&mut s, value.as_str());
            },
            ProtocolError::InvalidTimestamp => {
                proof {
                    reveal_strlit("invalid observation timestamp");
                }
                append(&mut s, "invalid observation timestamp");
            },
            ProtocolError::InvalidNetwork(field) => {
                proof {
                    reveal_strlit("invalid network field: ");
                }
                append(&mut s, "invalid network field: ");
                append(&mut s, field);
            },
            ProtocolError::InvalidDns(field) => {
                proof {
                    reveal_strlit("invalid DNS field: ");
                }
                append(&mut s, "invalid DNS field: ");
                append(&mut s, field);
            },
        }
        s
    }
}

/// The result's error, when there is one, is the given fault.
pub open spec fn fails_with<T>(r: Result<T, ProtocolError>, f: ProtocolFault) -> bool {
    r is Err && r->Err_0@ == f
}

/// Validates the wire protocol version.
pub fn validate_protocol(version: u32) -> (r: Result<(), ProtocolError>)
    ensures
        r == (if version == PROTOCOL_VERSION {
            Ok(())
        } else {
            Err(ProtocolError::UnsupportedProtocol(version))
        }),
{
    if version == PROTOCOL_VERSION {
        Ok(())
    } else {
        Err(ProtocolError::UnsupportedProtocol(version))
    }
}

/// A required text field is present when it holds a non-white-space character.
pub fn require(field: &'static str, value: &str) -> (r: Result<(), ProtocolError>)
    ensures
        r == (if all_whitespace(value@) {
            Err(ProtocolError::Missing(field))
        } else {
            Ok(())
        }),
{
    if is_blank(value) {
        Err(ProtocolError::Missing(field))
    } else {
        Ok(())
    }
}

/// Parses a UUID field.
pub fn parse_uuid(field: &'static str, value: &str) -> (r: Result<u128, ProtocolError>)
    ensures
        spec_uuid_parse(value@) matches Some(id) ==> r == Ok::<u128, ProtocolError>(id),
        spec_uuid_parse(value@) is None ==> fails_with(
            r,
            ProtocolFault::InvalidUuid(field@, value@),
        ),
{
    match parse_uuid_text(value) {
        Some(id) => Ok(id),
        None => Err(ProtocolError::InvalidUuid { field, value: value.to_owned() }),
    }
}

/// The address holds exactly the given octets.
pub open spec fn ip_octets(ip: IpAddr) -> Seq<u8> {
    match ip {
        IpAddr::V4(a) => a@,
        IpAddr::V6(a) => a@,
    }
}

pub open spec fn ip_len_ok(bytes: Seq<u8>) -> bool {
    bytes.len() == 4 || bytes.len() == 16
}

/// The address decoded from octets: IPv4 for four, IPv6 for sixteen.
pub open spec fn ip_decoded(ip: IpAddr, bytes: Seq<u8>) -> bool {
    &&& ip_octets(ip) == bytes
    &&& (ip is V4 <==> bytes.len() == 4)
}

fn octets4(value: &Vec<u8>) -> (a: [u8; 4])
    requires
        value@.len() == 4,
    ensures
        a@ == value@,
{
    let a: [u8; 4] = [value[0], value[1], value[2], value[3]];
    assert(a@ =~= value@);
    a
}

fn octets16(value: &Vec<u8>) -> (a: [u8; 16])
    requires
        value@.len() == 16,
    ensures
        a@ == value@,
{
    let a: [u8; 16] = [
        value[0],
        value[1],
        value[2],
        value[3],
        value[4],
        value[5],
        value[6],
        value[7],
        value[8],
        value[9],
        value[10],
        value[11],
        value[12],
        value[13],
        value[14],
        value[15],
    ];
    assert(a@ =~= value@);
    a
}

/// Octets of an address, as the wire carries them.
pub fn encode_ip(address: IpAddr) -> (r: Vec<u8>)
    ensures
        r@ == ip_octets(address),
{
    match address {
        IpAddr::V4(a) => {
            let v = vstd::slice::slice_to_vec(&a);
            v
        },
        IpAddr::V6(a) => {
            let v = vstd::slice::slice_to_vec(&a);
            v
        },
    }
}

/// An address from its wire octets.
pub fn decode_ip(value: &Vec<u8>) -> (r: Result<IpAddr, ProtocolError>)
    ensures
        ip_len_ok(value@) ==> r is Ok && ip_decoded(r->Ok_0, value@),
        !ip_len_ok(value@) ==> fails_with(r, ProtocolFault::InvalidDns("address"@)),
{
    if value.len() == 4 {
        Ok(IpAddr::V4(octets4(value)))
    } else if value.len() == 16 {
        Ok(IpAddr::V6(octets16(value)))
    } else {
        Err(ProtocolError::InvalidDns("address"))
    }
}

pub open spec fn direction_number(d: DnsDirection) -> i32 {
    match d {
        DnsDirection::Egress => wire::DNS_DIRECTION_EGRESS,
        DnsDirection::Ingress => wire::DNS_DIRECTION_INGRESS,
    }
}

pub open spec fn transport_number(t: DnsTransport) -> i32 {
    match t {
        DnsTransport::Udp => wire::DNS_TRANSPORT_UDP,
        DnsTransport::Tcp => wire::DNS_TRANSPORT_TCP,
    }
}

pub open spec fn query_type_number(q: DnsQueryType) -> i32 {
    match q {
        DnsQueryType::A => wire::DNS_QUERY_TYPE_A,
        DnsQueryType::Aaaa => wire::DNS_QUERY_TYPE_AAAA,
    }
}

pub open spec fn response_code_number(c: DnsResponseCode) -> i32 {
    match c {
        DnsResponseCode::NoError => wire::DNS_RESPONSE_CODE_NO_ERROR,
        DnsResponseCode::FormErr => wire::DNS_RESPONSE_CODE_FORM_ERR,
        DnsResponseCode::ServFail => wire::DNS_RESPONSE_CODE_SERV_FAIL,
        DnsResponseCode::NxDomain => wire::DNS_RESPONSE_CODE_NX_DOMAIN,
        DnsResponseCode::NotImp => wire::DNS_RESPONSE_CODE_NOT_IMP,
        DnsResponseCode::Refused => wire::DNS_RESPONSE_CODE_REFUSED,
    }
}

pub open spec fn direction_of(v: i32) -> Option<DnsDirection> {
    if v == wire::DNS_DIRECTION_EGRESS {
        Some(DnsDirection::Egress)
    } else if v == wire::DNS_DIRECTION_INGRESS {
        Some(DnsDirection::Ingress)
    } else {
        None
    }
}

pub open spec fn transport_of(v: i32) -> Option<DnsTransport> {
    if v == wire::DNS_TRANSPORT_UDP {
        Some(DnsTransport::Udp)
    } else if v == wire::DNS_TRANSPORT_TCP {
        Some(DnsTransport::Tcp)
    } else {
        None
    }
}

pub open spec fn query_type_of(v: i32) -> Option<DnsQueryType> {
    if v == wire::DNS_QUERY_TYPE_A {
        Some(DnsQueryType::A)
    } else if v == wire::DNS_QUERY_TYPE_AAAA {
        Some(DnsQueryType::Aaaa)
    } else {
        None
    }
}

pub open spec fn response_code_of(v: i32) -> Option<DnsResponseCode> {
    if v == wire::DNS_RESPONSE_CODE_NO_ERROR {
        Some(DnsResponseCode::NoError)
    } else if v == wire::DNS_RESPONSE_CODE_FORM_ERR {
        Some(DnsResponseCode::FormErr)
    } else if v == wire::DNS_RESPONSE_CODE_SERV_FAIL {
        Some(DnsResponseCode::ServFail)
    } else if v == wire::DNS_RESPONSE_CODE_NX_DOMAIN {
        Some(DnsResponseCode::NxDomain)
    } else if v == wire::DNS_RESPONSE_CODE_NOT_IMP {
        Some(DnsResponseCode::NotImp)
    } else if v == wire::DNS_RESPONSE_CODE_REFUSED {
        Some(DnsResponseCode::Refused)
    } else {
        None
    }
}

pub fn encode_direction(value: DnsDirection) -> (r: i32)
    ensures
        r == direction_number(value),
{
    match value {
        DnsDirection::Egress => wire::DNS_DIRECTION_EGRESS,
        DnsDirection::Ingress => wire::DNS_DIRECTION_INGRESS,
    }
}

pub fn encode_transport(value: DnsTransport) -> (r: i32)
    ensures
        r == transport_number(value),
{
    match value {
        DnsTransport::Udp => wire::DNS_TRANSPORT_UDP,
        DnsTransport::Tcp => wire::DNS_TRANSPORT_TCP,
    }
}

pub fn encode_query_type(value: DnsQueryType) -> (r: i32)
    ensures
        r == query_type_number(value),
{
    match value {
        DnsQueryType::A => wire::DNS_QUERY_TYPE_A,
        DnsQueryType::Aaaa => wire::DNS_QUERY_TYPE_AAAA,
    }
}

pub fn encode_response_code(value: DnsResponseCode) -> (r: i32)
    ensures
        r == response_code_number(value),
{
    match value {
        DnsResponseCode::NoError => wire::DNS_RESPONSE_CODE_NO_ERROR,
        DnsResponseCode::FormErr => wire::DNS_RESPONSE_CODE_FORM_ERR,
        DnsResponseCode::ServFail => wire::DNS_RESPONSE_CODE_SERV_FAIL,
        DnsResponseCode::NxDomain => wire::DNS_RESPONSE_CODE_NX_DOMAIN,
        DnsResponseCode::NotImp => wire::DNS_RESPONSE_CODE_NOT_IMP,
        DnsResponseCode::Refused => wire::DNS_RESPONSE_CODE_REFUSED,
    }
}

pub fn decode_direction(value: i32) -> (r: Result<DnsDirection, ProtocolError>)
    ensures
        direction_of(value) matches Some(d) ==> r == Ok::<_, ProtocolError>(d),
        direction_of(value) is None ==> fails_with(r, ProtocolFault::InvalidDns("direction"@)),
{
    if value == wire::DNS_DIRECTION_EGRESS {
        Ok(DnsDirection::Egress)
    } else if value == wire::DNS_DIRECTION_INGRESS {
        Ok(DnsDirection::Ingress)
    } else {
        Err(ProtocolError::InvalidDns("direction"))
    }
}

pub fn decode_transport(value: i32) -> (r: Result<DnsTransport, ProtocolError>)
    ensures
        transport_of(value) matches Some(t) ==> r == Ok::<_, ProtocolError>(t),
        transport_of(value) is None ==> fails_with(r, ProtocolFault::InvalidDns("transport"@)),
{
    if value == wire::DNS_TRANSPORT_UDP {
        Ok(DnsTransport::Udp)
    } else if value == wire::DNS_TRANSPORT_TCP {
        Ok(DnsTransport::Tcp)
    } else {
        Err(ProtocolError::InvalidDns("transport"))
    }
}

pub fn decode_query_type(value: i32) -> (r: Result<DnsQueryType, ProtocolError>)
    ensures
        query_type_of(value) matches Some(q) ==> r == Ok::<_, ProtocolError>(q),
        query_type_of(value) is None ==> fails_with(r, ProtocolFault::InvalidDns("query_type"@)),
{
    if value == wire::DNS_QUERY_TYPE_A {
        Ok(DnsQueryType::A)
    } else if value == wire::DNS_QUERY_TYPE_AAAA {
        Ok(DnsQueryType::Aaaa)
    } else {
        Err(ProtocolError::InvalidDns("query_type"))
    }
}

pub fn decode_response_code(value: i32) -> (r: Result<DnsResponseCode, ProtocolError>)
    ensures
        response_code_of(value) matches Some(c) ==> r == Ok::<_, ProtocolError>(c),
        response_code_of(value) is None ==> fails_with(
            r,
            ProtocolFault::InvalidDns("response_code"@),
        ),
{
    if value == wire::DNS_RESPONSE_CODE_NO_ERROR {
        Ok(DnsResponseCode::NoError)
    } else if value == wire::DNS_RESPONSE_CODE_FORM_ERR {
        Ok(DnsResponseCode::FormErr)
    } else if value == wire::DNS_RESPONSE_CODE_SERV_FAIL {
        Ok(DnsResponseCode::ServFail)
    } else if value == wire::DNS_RESPONSE_CODE_NX_DOMAIN {
        Ok(DnsResponseCode::NxDomain)
    } else if value == wire::DNS_RESPONSE_CODE_NOT_IMP {
        Ok(DnsResponseCode::NotImp)
    } else if value == wire::DNS_RESPONSE_CODE_REFUSED {
        Ok(DnsResponseCode::Refused)
    } else {
        Err(ProtocolError::InvalidDns("response_code"))
    }
}

/// A DNS name field decoded from its wire text.
fn decode_name(field: &'static str, value: &String) -> (r: Result<DnsName, ProtocolError>)
    ensures
        valid_dns_name(value@) ==> r == Ok::<_, ProtocolError>(dns_name_of(*value)),
        !valid_dns_name(value@) ==> fails_with(r, ProtocolFault::InvalidDns(field@)),
{
    match DnsName::new(value.clone()) {
        Ok(name) => Ok(name),
        Err(_) => Err(ProtocolError::InvalidDns(field)),
    }
}


/// The instant of a signed count of nanoseconds since the epoch (floor division).
pub open spec fn nanos_split(n: i64) -> UtcTimestamp {
    UtcTimestamp { secs: (n / 1_000_000_000) as i64, nanos: (n % 1_000_000_000) as u32 }
}

/// The instant of a count of nanoseconds, as `DateTime::from_timestamp` builds it
/// from the count's Euclidean quotient and remainder.
fn decode_timestamp(nanos: i64) -> (r: Option<UtcTimestamp>)
    ensures
        r == Some(nanos_split(nanos)),
{
    let secs = nanos.checked_div_euclid(1_000_000_000).unwrap();
    let subsec = nanos.checked_rem_euclid(1_000_000_000).unwrap();
    assert(MIN_NANOS_SECOND <= secs <= MAX_NANOS_SECOND);
    timestamp_from_parts(secs, subsec as u32)
}

/// The count of nanoseconds that travels for an instant: 0 when it does not fit.
pub open spec fn encoded_nanos(t: UtcTimestamp) -> i64 {
    if fits_i64(total_nanos(t)) {
        total_nanos(t) as i64
    } else {
        0
    }
}

fn encode_timestamp(t: &UtcTimestamp) -> (r: i64)
    ensures
        r == encoded_nanos(*t),
{
    match t.unix_nanos() {
        Some(n) => n,
        None => 0,
    }
}

/// An instant that survives the trip through a nanosecond count.
pub open spec fn representable(t: UtcTimestamp) -> bool {
    t.nanos < 1_000_000_000 && fits_i64(total_nanos(t))
}

/// An instant that travels as a nanosecond count comes back unchanged.
pub proof fn lemma_timestamp_round_trip(t: UtcTimestamp)
    requires
        representable(t),
    ensures
        nanos_split(encoded_nanos(t)) == t,
{
    let n = total_nanos(t);
    assert(n == t.secs * 1_000_000_000 + t.nanos);
    assert(n / 1_000_000_000 == t.secs as int && n % 1_000_000_000 == t.nanos as int) by (nonlinear_arith)
        requires
            n == t.secs * 1_000_000_000 + t.nanos,
            0 <= t.nanos < 1_000_000_000,
    {
        vstd::arithmetic::div_mod::lemma_fundamental_div_mod_converse(
            n,
            1_000_000_000,
            t.secs as int,
            t.nanos as int,
        );
    }
}

// ---------------------------------------------------------------- DNS query

pub open spec fn dns_query_fault(q: wire::NetworkDnsQuery) -> Option<ProtocolFault> {
    if q.transaction_id > u16::MAX {
        Some(ProtocolFault::InvalidDns("transaction_id"@))
    } else if direction_of(q.direction) is None {
        Some(ProtocolFault::InvalidDns("direction"@))
    } else if transport_of(q.transport) is None {
        Some(ProtocolFault::InvalidDns("transport"@))
    } else if !ip_len_ok(q.resolver_address@) {
        Some(ProtocolFault::InvalidDns("address"@))
    } else if !valid_dns_name(q.name@) {
        Some(ProtocolFault::InvalidDns("name"@))
    } else if query_type_of(q.query_type) is None {
        Some(ProtocolFault::InvalidDns("query_type"@))
    } else {
        None
    }
}

pub open spec fn dns_query_decoded(d: NetworkDnsQuery, q: wire::NetworkDnsQuery) -> bool {
    &&& d.transaction_id == q.transaction_id
    &&& direction_of(q.direction) == Some(d.direction)
    &&& transport_of(q.transport) == Some(d.transport)
    &&& ip_decoded(d.resolver_address, q.resolver_address@)
    &&& d.name == dns_name_of(q.name)
    &&& query_type_of(q.query_type) == Some(d.query_type)
}

fn decode_dns_query(value: &wire::NetworkDnsQuery) -> (r: Result<EventPayload, ProtocolError>)
    ensures
        dns_query_fault(*value) matches Some(f) ==> fails_with(r, f),
        dns_query_fault(*value) is None ==> (r matches Ok(EventPayload::NetworkDnsQuery(d))
            && dns_query_decoded(d, *value)),
{
    if value.transaction_id > 65535 {
        return Err(ProtocolError::InvalidDns("transaction_id"));
    }
    let transaction_id = value.transaction_id as u16;
    let direction = decode_direction(value.direction)?;
    let transport = decode_transport(value.transport)?;
    let resolver_address = decode_ip(&value.resolver_address)?;
    let name = decode_name("name", &value.name)?;
    let query_type = decode_query_type(value.query_type)?;
    Ok(
        EventPayload::NetworkDnsQuery(
            NetworkDnsQuery { transaction_id, direction, transport, resolver_address, name, query_type },
        ),
    )
}

// ------------------------------------------------------------- DNS response

pub open spec fn answer_fault(a: wire::DnsAddressAnswer) -> Option<ProtocolFault> {
    if !valid_dns_name(a.name@) {
        Some(ProtocolFault::InvalidDns("answer.name"@))
    } else if !ip_len_ok(a.address@) {
        Some(ProtocolFault::InvalidDns("address"@))
    } else if !valid_ttl(a.ttl_seconds) {
        Some(ProtocolFault::InvalidDns("answer.ttl"@))
    } else {
        None
    }
}

pub open spec fn answer_decoded(d: DnsAddressAnswer, a: wire::DnsAddressAnswer) -> bool {
    &&& d.name == dns_name_of(a.name)
    &&& ip_decoded(d.address, a.address@)
    &&& d.ttl_seconds == a.ttl_seconds
}

/// The fault of the first answer that has one.
pub open spec fn answers_fault(s: Seq<wire::DnsAddressAnswer>) -> Option<ProtocolFault>
    decreases s.len(),
{
    if s.len() == 0 {
        None
    } else if answer_fault(s[0]) is Some {
        answer_fault(s[0])
    } else {
        answers_fault(s.drop_first())
    }
}

pub open spec fn answers_decoded(d: Seq<DnsAddressAnswer>, s: Seq<wire::DnsAddressAnswer>) -> bool {
    &&& d.len() == s.len()
    &&& forall|i: int| 0 <= i < s.len() ==> answer_decoded(#[trigger] d[i], s[i])
}

pub open spec fn cname_fault(c: wire::DnsCname) -> Option<ProtocolFault> {
    if !valid_dns_name(c.alias@) {
        Some(ProtocolFault::InvalidDns("cname.alias"@))
    } else if !valid_dns_name(c.canonical@) {
        Some(ProtocolFault::InvalidDns("cname.canonical"@))
    } else if !valid_ttl(c.ttl_seconds) {
        Some(ProtocolFault::InvalidDns("cname.ttl"@))
    } else {
        None
    }
}

pub open spec fn cname_decoded(d: DnsCname, c: wire::DnsCname) -> bool {
    &&& d.alias == dns_name_of(c.alias)
    &&& d.canonical == dns_name_of(c.canonical)
    &&& d.ttl_seconds == c.ttl_seconds
}

pub open spec fn cnames_fault(s: Seq<wire::DnsCname>) -> Option<ProtocolFault>
    decreases s.len(),
{
    if s.len() == 0 {
        None
    } else if cname_fault(s[0]) is Some {
        cname_fault(s[0])
    } else {
        cnames_fault(s.drop_first())
    }
}

pub open spec fn cnames_decoded(d: Seq<DnsCname>, s: Seq<wire::DnsCname>) -> bool {
    &&& d.len() == s.len()
    &&& forall|i: int| 0 <= i < s.len() ==> cname_decoded(#[trigger] d[i], s[i])
}

proof fn lemma_answers_fault_step(s: Seq<wire::DnsAddressAnswer>, i: int)
    requires
        0 <= i < s.len(),
        answers_fault(s) == answers_fault(s.subrange(i, s.len() as int)),
    ensures
        answer_fault(s[i]) is Some ==> answers_fault(s) == answer_fault(s[i]),
        answer_fault(s[i]) is None ==> answers_fault(s) == answers_fault(
            s.subrange(i + 1, s.len() as int),
        ),
{
    let t = s.subrange(i, s.len() as int);
    assert(t[0] == s[i]);
    assert(t.drop_first() =~= s.subrange(i + 1, s.len() as int));
}

proof fn lemma_cnames_fault_step(s: Seq<wire::DnsCname>, i: int)
    requires
        0 <= i < s.len(),
        cnames_fault(s) == cnames_fault(s.subrange(i, s.len() as int)),
    ensures
        cname_fault(s[i]) is Some ==> cnames_fault(s) == cname_fault(s[i]),
        cname_fault(s[i]) is None ==> cnames_fault(s) == cnames_fault(
            s.subrange(i + 1, s.len() as int),
        ),
{
    let t = s.subrange(i, s.len() as int);
    assert(t[0] == s[i]);
    assert(t.drop_first() =~= s.subrange(i + 1, s.len() as int));
}

fn decode_answers(values: &Vec<wire::DnsAddressAnswer>) -> (r: Result<
    Vec<DnsAddressAnswer>,
    ProtocolError,
>)
    ensures
        answers_fault(values@) matches Some(f) ==> fails_with(r, f),
        answers_fault(values@) is None ==> r is Ok && answers_decoded(r->Ok_0@, values@),
{
    let mut out: Vec<DnsAddressAnswer> = Vec::new();
    let mut i: usize = 0;
    assert(values@.subrange(0, values@.len() as int) =~= values@);
    while i < values.len()
        invariant
            i <= values@.len(),
            answers_fault(values@) == answers_fault(values@.subrange(i as int, values@.len() as int)),
            out@.len() == i,
            forall|k: int| 0 <= k < i ==> answer_decoded(#[trigger] out@[k], values@[k]),
        decreases values@.len() - i,
    {
        proof {
            lemma_answers_fault_step(values@, i as int);
        }
        let answer = &values[i];
        let name = decode_name("answer.name", &answer.name)?;
        let address = decode_ip(&answer.address)?;
        let decoded = match DnsAddressAnswer::new(name, address, answer.ttl_seconds) {
            Ok(decoded) => decoded,
            Err(_) => {
                return Err(ProtocolError::InvalidDns("answer.ttl"));
            },
        };
        out.push(decoded);
        i = i + 1;
    }
    proof {
        assert(values@.subrange(i as int, values@.len() as int).len() == 0);
    }
    Ok(out)
}

fn decode_cnames(values: &Vec<wire::DnsCname>) -> (r: Result<Vec<DnsCname>, ProtocolError>)
    ensures
        cnames_fault(values@) matches Some(f) ==> fails_with(r, f),
        cnames_fault(values@) is None ==> r is Ok && cnames_decoded(r->Ok_0@, values@),
{
    let mut out: Vec<DnsCname> = Vec::new();
    let mut i: usize = 0;
    assert(values@.subrange(0, values@.len() as int) =~= values@);
    while i < values.len()
        invariant
            i <= values@.len(),
            cnames_fault(values@) == cnames_fault(values@.subrange(i as int, values@.len() as int)),
            out@.len() == i,
            forall|k: int| 0 <= k < i ==> cname_decoded(#[trigger] out@[k], values@[k]),
        decreases values@.len() - i,
    {
        proof {
            lemma_cnames_fault_step(values@, i as int);
        }
        let cname = &values[i];
        let alias = decode_name("cname.alias", &cname.alias)?;
        let canonical = decode_name("cname.canonical", &cname.canonical)?;
        let decoded = match DnsCname::new(alias, canonical, cname.ttl_seconds) {
            Ok(decoded) => decoded,
            Err(_) => {
                return Err(ProtocolError::InvalidDns("cname.ttl"));
            },
        };
        out.push(decoded);
        i = i + 1;
    }
    proof {
        assert(values@.subrange(i as int, values@.len() as int).len() == 0);
    }
    Ok(out)
}

pub open spec fn effective_ttl_ok(ttl: Option<u32>) -> bool {
    match ttl {
        Some(t) => valid_ttl(t),
        None => true,
    }
}

pub open spec fn dns_response_fault(r: wire::NetworkDnsResponse) -> Option<ProtocolFault> {
    if r.transaction_id > u16::MAX {
        Some(ProtocolFault::InvalidDns("transaction_id"@))
    } else if direction_of(r.direction) is None {
        Some(ProtocolFault::InvalidDns("direction"@))
    } else if transport_of(r.transport) is None {
        Some(ProtocolFault::InvalidDns("transport"@))
    } else if !ip_len_ok(r.resolver_address@) {
        Some(ProtocolFault::InvalidDns("address"@))
    } else if !valid_dns_name(r.name@) {
        Some(ProtocolFault::InvalidDns("name"@))
    } else if query_type_of(r.query_type) is None {
        Some(ProtocolFault::InvalidDns("query_type"@))
    } else if response_code_of(r.response_code) is None {
        Some(ProtocolFault::InvalidDns("response_code"@))
    } else if answers_fault(r.answers@) is Some {
        answers_fault(r.answers@)
    } else if cnames_fault(r.cname_chain@) is Some {
        cnames_fault(r.cname_chain@)
    } else if r.answers@.len() > 16 || r.cname_chain@.len() > 8 || !effective_ttl_ok(
        r.effective_ttl_seconds,
    ) {
        Some(ProtocolFault::InvalidDns("response"@))
    } else {
        None
    }
}

pub open spec fn dns_response_decoded(d: NetworkDnsResponse, r: wire::NetworkDnsResponse) -> bool {
    &&& d.transaction_id == r.transaction_id
    &&& direction_of(r.direction) == Some(d.direction)
    &&& transport_of(r.transport) == Some(d.transport)
    &&& ip_decoded(d.resolver_address, r.resolver_address@)
    &&& d.name == dns_name_of(r.name)
    &&& query_type_of(r.query_type) == Some(d.query_type)
    &&& response_code_of(r.response_code) == Some(d.response_code)
    &&& d.truncated == r.truncated
    &&& answers_decoded(d.answers@, r.answers@)
    &&& cnames_decoded(d.cname_chain@, r.cname_chain@)
    &&& d.effective_ttl_seconds == r.effective_ttl_seconds
}

fn decode_dns_response(value: &wire::NetworkDnsResponse) -> (r: Result<
    EventPayload,
    ProtocolError,
>)
    ensures
        dns_response_fault(*value) matches Some(f) ==> fails_with(r, f),
        dns_response_fault(*value) is None ==> (r matches Ok(
            EventPayload::NetworkDnsResponse(d),
        ) && dns_response_decoded(d, *value)),
{
    if value.transaction_id > 65535 {
        return Err(ProtocolError::InvalidDns("transaction_id"));
    }
    let transaction_id = value.transaction_id as u16;
    let direction = decode_direction(value.direction)?;
    let transport = decode_transport(value.transport)?;
    let resolver_address = decode_ip(&value.resolver_address)?;
    let name = decode_name("name", &value.name)?;
    let query_type = decode_query_type(value.query_type)?;
    let response_code = decode_response_code(value.response_code)?;
    let answers = decode_answers(&value.answers)?;
    let cname_chain = decode_cnames(&value.cname_chain)?;
    let response = NetworkDnsResponse {
        transaction_id,
        direction,
        transport,
        resolver_address,
        name,
        query_type,
        response_code,
        truncated: value.truncated,
        answers,
        cname_chain,
        effective_ttl_seconds: value.effective_ttl_seconds,
    };
    proof {
        assert forall|i: int| 0 <= i < response.answers@.len() implies valid_ttl(
            #[trigger] response.answers@[i].ttl_seconds,
        ) by {
            assert(answer_decoded(response.answers@[i], value.answers@[i]));
            lemma_answers_all_ok(value.answers@, i);
        }
        assert forall|i: int| 0 <= i < response.cname_chain@.len() implies valid_ttl(
            #[trigger] response.cname_chain@[i].ttl_seconds,
        ) by {
            assert(cname_decoded(response.cname_chain@[i], value.cname_chain@[i]));
            lemma_cnames_all_ok(value.cname_chain@, i);
        }
    }
    if response.validate().is_err() {
        return Err(ProtocolError::InvalidDns("response"));
    }
    Ok(EventPayload::NetworkDnsResponse(response))
}

proof fn lemma_answers_all_ok(s: Seq<wire::DnsAddressAnswer>, i: int)
    requires
        answers_fault(s) is None,
        0 <= i < s.len(),
    ensures
        answer_fault(s[i]) is None,
    decreases s.len(),
{
    if i > 0 {
        assert(s.drop_first()[i - 1] == s[i]);
        lemma_answers_all_ok(s.drop_first(), i - 1);
    }
}

proof fn lemma_cnames_all_ok(s: Seq<wire::DnsCname>, i: int)
    requires
        cnames_fault(s) is None,
        0 <= i < s.len(),
    ensures
        cname_fault(s[i]) is None,
    decreases s.len(),
{
    if i > 0 {
        assert(s.drop_first()[i - 1] == s[i]);
        lemma_cnames_all_ok(s.drop_first(), i - 1);
    }
}


// -------------------------------------------------------------- DNS context

pub open spec fn some_name_invalid(names: Seq<String>) -> bool {
    exists|i: int| 0 <= i < names.len() && !valid_dns_name(#[trigger] names[i]@)
}

pub open spec fn context_fault(c: wire::DnsContext) -> Option<ProtocolFault> {
    let observed_at = nanos_split(c.observed_at_unix_nanos);
    let expires_at = nanos_split(c.expires_at_unix_nanos);
    if c.confidence != wire::DNS_CONFIDENCE_OBSERVED_RECENTLY {
        Some(ProtocolFault::InvalidDns("context.confidence"@))
    } else if some_name_invalid(c.names@) {
        Some(ProtocolFault::InvalidDns("context.name"@))
    } else if c.names@.len() == 0 || c.names@.len() > 8 || crate::event_model::ts_le(
        expires_at,
        observed_at,
    ) {
        Some(ProtocolFault::InvalidDns("context"@))
    } else if (c.names@.len() > 1) != c.ambiguous {
        Some(ProtocolFault::InvalidDns("context.ambiguous"@))
    } else {
        None
    }
}

pub open spec fn context_decoded(d: DnsContext, c: wire::DnsContext) -> bool {
    &&& d.names@.len() == c.names@.len()
    &&& forall|i: int| 0 <= i < c.names@.len() ==> #[trigger] d.names@[i] == dns_name_of(c.names@[i])
    &&& d.observed_at == nanos_split(c.observed_at_unix_nanos)
    &&& d.expires_at == nanos_split(c.expires_at_unix_nanos)
    &&& d.confidence == DnsConfidence::ObservedRecently
    &&& d.ambiguous == c.ambiguous
}

fn decode_dns_context(value: &wire::DnsContext) -> (r: Result<DnsContext, ProtocolError>)
    ensures
        context_fault(*value) matches Some(f) ==> fails_with(r, f),
        context_fault(*value) is None ==> r is Ok && context_decoded(r->Ok_0, *value),
{
    if value.confidence != wire::DNS_CONFIDENCE_OBSERVED_RECENTLY {
        return Err(ProtocolError::InvalidDns("context.confidence"));
    }
    let mut names: Vec<DnsName> = Vec::new();
    let mut i: usize = 0;
    while i < value.names.len()
        invariant
            i <= value.names@.len(),
            names@.len() == i,
            value.confidence == wire::DNS_CONFIDENCE_OBSERVED_RECENTLY,
            forall|k: int| 0 <= k < i ==> valid_dns_name(#[trigger] value.names@[k]@),
            forall|k: int| 0 <= k < i ==> #[trigger] names@[k] == dns_name_of(value.names@[k]),
        decreases value.names@.len() - i,
    {
        let name = match DnsName::new(value.names[i].clone()) {
            Ok(name) => name,
            Err(_) => {
                assert(!valid_dns_name(value.names@[i as int]@));
                return Err(ProtocolError::InvalidDns("context.name"));
            },
        };
        names.push(name);
        i = i + 1;
    }
    let observed_at = match decode_timestamp(value.observed_at_unix_nanos) {
        Some(t) => t,
        None => {
            return Err(ProtocolError::InvalidDns("context.timestamp"));
        },
    };
    let expires_at = match decode_timestamp(value.expires_at_unix_nanos) {
        Some(t) => t,
        None => {
            return Err(ProtocolError::InvalidDns("context.timestamp"));
        },
    };
    let context = match DnsContext::new(names, observed_at, expires_at) {
        Ok(context) => context,
        Err(_) => {
            return Err(ProtocolError::InvalidDns("context"));
        },
    };
    if context.ambiguous != value.ambiguous {
        return Err(ProtocolError::InvalidDns("context.ambiguous"));
    }
    Ok(context)
}

// ----------------------------------------------------------------- connect

pub open spec fn family_of(v: i32) -> Option<NetworkAddressFamily> {
    if v == wire::ADDRESS_FAMILY_IPV4 {
        Some(NetworkAddressFamily::Ipv4)
    } else if v == wire::ADDRESS_FAMILY_IPV6 {
        Some(NetworkAddressFamily::Ipv6)
    } else {
        None
    }
}

pub open spec fn outcome_of(v: i32) -> Option<NetworkConnectOutcome> {
    if v == wire::CONNECT_OUTCOME_SUCCEEDED {
        Some(NetworkConnectOutcome::Succeeded)
    } else if v == wire::CONNECT_OUTCOME_IN_PROGRESS {
        Some(NetworkConnectOutcome::InProgress)
    } else if v == wire::CONNECT_OUTCOME_FAILED {
        Some(NetworkConnectOutcome::Failed)
    } else {
        None
    }
}

pub open spec fn outcome_number(o: NetworkConnectOutcome) -> i32 {
    match o {
        NetworkConnectOutcome::Succeeded => wire::CONNECT_OUTCOME_SUCCEEDED,
        NetworkConnectOutcome::InProgress => wire::CONNECT_OUTCOME_IN_PROGRESS,
        NetworkConnectOutcome::Failed => wire::CONNECT_OUTCOME_FAILED,
    }
}

pub open spec fn narrow_errno(errno: Option<u32>) -> Option<u16> {
    match errno {
        Some(e) => Some(e as u16),
        None => None,
    }
}

pub open spec fn network_fault(n: wire::NetworkConnect) -> Option<ProtocolFault> {
    let errno = narrow_errno(n.errno);
    if family_of(n.address_family) is None {
        Some(ProtocolFault::InvalidNetwork("address_family"@))
    } else if (n.address_family == wire::ADDRESS_FAMILY_IPV4 && n.destination_address@.len() != 4)
        || (n.address_family == wire::ADDRESS_FAMILY_IPV6 && n.destination_address@.len() != 16) {
        Some(ProtocolFault::InvalidNetwork("destination_address"@))
    } else if n.destination_port > u16::MAX {
        Some(ProtocolFault::InvalidNetwork("destination_port"@))
    } else if outcome_of(n.outcome) is None {
        Some(ProtocolFault::InvalidNetwork("outcome"@))
    } else if n.errno matches Some(e) && e > u16::MAX {
        Some(ProtocolFault::InvalidNetwork("errno"@))
    } else if n.destination_port == 0 || crate::event_model::errno_out_of_range(errno)
        || !crate::event_model::outcome_consistent(outcome_of(n.outcome)->0, errno) {
        Some(ProtocolFault::InvalidNetwork("network_connect"@))
    } else if n.dns_context matches Some(c) && context_fault(c) is Some {
        context_fault(n.dns_context->0)
    } else {
        None
    }
}

pub open spec fn network_decoded(d: NetworkConnect, n: wire::NetworkConnect) -> bool {
    &&& family_of(n.address_family) == Some(d.address_family)
    &&& ip_decoded(d.destination_address, n.destination_address@)
    &&& d.destination_port == n.destination_port
    &&& outcome_of(n.outcome) == Some(d.outcome)
    &&& d.errno == narrow_errno(n.errno)
    &&& match n.dns_context {
        None => d.dns_context is None,
        Some(c) => d.dns_context matches Some(dc) && context_decoded(dc, c),
    }
}

fn decode_network(network: &wire::NetworkConnect) -> (r: Result<EventPayload, ProtocolError>)
    ensures
        network_fault(*network) matches Some(f) ==> fails_with(r, f),
        network_fault(*network) is None ==> (r matches Ok(EventPayload::NetworkConnect(d))
            && network_decoded(d, *network)),
{
    let (address_family, destination_address) = if network.address_family
        == wire::ADDRESS_FAMILY_IPV4 {
        if network.destination_address.len() != 4 {
            return Err(ProtocolError::InvalidNetwork("destination_address"));
        }
        (NetworkAddressFamily::Ipv4, IpAddr::V4(octets4(&network.destination_address)))
    } else if network.address_family == wire::ADDRESS_FAMILY_IPV6 {
        if network.destination_address.len() != 16 {
            return Err(ProtocolError::InvalidNetwork("destination_address"));
        }
        (NetworkAddressFamily::Ipv6, IpAddr::V6(octets16(&network.destination_address)))
    } else {
        return Err(ProtocolError::InvalidNetwork("address_family"));
    };
    if network.destination_port > 65535 {
        return Err(ProtocolError::InvalidNetwork("destination_port"));
    }
    let destination_port = network.destination_port as u16;
    let outcome = if network.outcome == wire::CONNECT_OUTCOME_SUCCEEDED {
        NetworkConnectOutcome::Succeeded
    } else if network.outcome == wire::CONNECT_OUTCOME_IN_PROGRESS {
        NetworkConnectOutcome::InProgress
    } else if network.outcome == wire::CONNECT_OUTCOME_FAILED {
        NetworkConnectOutcome::Failed
    } else {
        return Err(ProtocolError::InvalidNetwork("outcome"));
    };
    let errno = match network.errno {
        Some(e) => {
            if e > 65535 {
                return Err(ProtocolError::InvalidNetwork("errno"));
            }
            Some(e as u16)
        },
        None => None,
    };
    let mut value = match NetworkConnect::new(
        address_family,
        destination_address,
        destination_port,
        outcome,
        errno,
    ) {
        Ok(value) => value,
        Err(_) => {
            return Err(ProtocolError::InvalidNetwork("network_connect"));
        },
    };
    if let Some(context) = &network.dns_context {
        let decoded = decode_dns_context(context)?;
        value = value.with_dns_context(decoded);
    }
    Ok(EventPayload::NetworkConnect(value))
}


// ------------------------------------------------------------------- event

/// A release label is kept when its trim is non-empty and at most 200 bytes.
pub open spec fn release_kept(s: Seq<char>) -> bool {
    trim_ws(s).len() > 0 && utf8_len(trim_ws(s)) <= MAX_RELEASE_LEN
}

/// The decoded release: the trimmed label when it is kept (the very text that
/// came when it needed no trimming), and none otherwise.
pub open spec fn release_decoded(r: Option<String>, w: Option<String>) -> bool {
    match w {
        None => r is None,
        Some(v) => if release_kept(v@) {
            r matches Some(x) && x@ == trim_ws(v@) && (trim_ws(v@) == v@ ==> x == v)
        } else {
            r is None
        },
    }
}

fn decode_release(value: Option<String>) -> (r: Option<String>)
    ensures
        release_decoded(r, value),
{
    match value {
        None => None,
        Some(v) => {
            let trimmed = trim_whitespace(v.as_str());
            if trimmed.as_str().is_empty() || byte_len(trimmed.as_str()) > MAX_RELEASE_LEN {
                None
            } else if same_text(trimmed.as_str(), v.as_str()) {
                Some(v)
            } else {
                Some(trimmed)
            }
        },
    }
}

pub open spec fn attribution_fault(a: wire::KubernetesAttribution) -> Option<ProtocolFault> {
    if all_whitespace(a.node_name@) {
        Some(ProtocolFault::Missing("node_name"@))
    } else if all_whitespace(a.namespace@) {
        Some(ProtocolFault::Missing("namespace"@))
    } else if all_whitespace(a.pod_uid@) {
        Some(ProtocolFault::Missing("pod_uid"@))
    } else if all_whitespace(a.container_id@) {
        Some(ProtocolFault::Missing("container_id"@))
    } else if all_whitespace(a.workload_uid@) {
        Some(ProtocolFault::Missing("workload_uid"@))
    } else if spec_uuid_parse(a.project_id@) is None {
        Some(ProtocolFault::InvalidUuid("project_id"@, a.project_id@))
    } else if spec_uuid_parse(a.application_id@) is None {
        Some(ProtocolFault::InvalidUuid("application_id"@, a.application_id@))
    } else {
        None
    }
}

pub open spec fn attribution_decoded(d: KubernetesAttribution, a: wire::KubernetesAttribution) -> bool {
    &&& Some(d.project_id) == spec_uuid_parse(a.project_id@)
    &&& Some(d.application_id) == spec_uuid_parse(a.application_id@)
    &&& d.node_name == a.node_name
    &&& d.namespace == a.namespace
    &&& d.pod_uid == a.pod_uid
    &&& d.pod_name == a.pod_name
    &&& d.container_id == a.container_id
    &&& d.container_name == a.container_name
    &&& d.workload_uid == a.workload_uid
    &&& d.workload_kind == a.workload_kind
    &&& d.workload_name == a.workload_name
    &&& release_decoded(d.release, a.release)
}

pub open spec fn payload_fault(p: wire::Payload) -> Option<ProtocolFault> {
    match p {
        wire::Payload::ProcessExec(e) => if all_whitespace(e.executable@) {
            Some(ProtocolFault::Missing("executable"@))
        } else {
            None
        },
        wire::Payload::Syscall(s) => if all_whitespace(s.name@) {
            Some(ProtocolFault::Missing("syscall.name"@))
        } else {
            None
        },
        wire::Payload::NetworkConnect(n) => network_fault(n),
        wire::Payload::NetworkDnsQuery(q) => dns_query_fault(q),
        wire::Payload::NetworkDnsResponse(r) => dns_response_fault(r),
    }
}

pub open spec fn payload_decoded(d: EventPayload, p: wire::Payload) -> bool {
    match p {
        wire::Payload::ProcessExec(e) => d == EventPayload::ProcessExec(
            ProcessExec {
                executable: e.executable,
                parent_command: if e.parent_command@.len() == 0 {
                    None
                } else {
                    Some(e.parent_command)
                },
            },
        ),
        wire::Payload::Syscall(s) => d == EventPayload::Syscall(SyscallEvent { name: s.name }),
        wire::Payload::NetworkConnect(n) => d matches EventPayload::NetworkConnect(x)
            && network_decoded(x, n),
        wire::Payload::NetworkDnsQuery(q) => d matches EventPayload::NetworkDnsQuery(x)
            && dns_query_decoded(x, q),
        wire::Payload::NetworkDnsResponse(r) => d matches EventPayload::NetworkDnsResponse(x)
            && dns_response_decoded(x, r),
    }
}

/// The first fault `decode_event` finds in a wire event, if any.
pub open spec fn event_fault(w: wire::RuntimeEvent) -> Option<ProtocolFault> {
    if w.schema_version != EVENT_SCHEMA_VERSION {
        Some(ProtocolFault::UnsupportedEventSchema(w.schema_version))
    } else if spec_uuid_parse(w.event_id@) is None {
        Some(ProtocolFault::InvalidUuid("event_id"@, w.event_id@))
    } else if w.attribution is None {
        Some(ProtocolFault::Missing("attribution"@))
    } else if attribution_fault(w.attribution->0) is Some {
        attribution_fault(w.attribution->0)
    } else if w.process is None {
        Some(ProtocolFault::Missing("process"@))
    } else if w.payload is None {
        Some(ProtocolFault::Missing("payload"@))
    } else {
        payload_fault(w.payload->0)
    }
}

/// `d` is the event decoded from the fault-free wire event `w`.
pub open spec fn event_decoded(d: RuntimeEvent, w: wire::RuntimeEvent) -> bool {
    &&& Some(d.id) == spec_uuid_parse(w.event_id@)
    &&& d.observed_at == nanos_split(w.observed_at_unix_nanos)
    &&& d.schema_version == w.schema_version
    &&& attribution_decoded(d.attribution, w.attribution->0)
    &&& d.process == (ProcessIdentity {
        cgroup_id: w.process->0.cgroup_id,
        pid: w.process->0.pid,
        tgid: w.process->0.tgid,
        command: w.process->0.command,
    })
    &&& payload_decoded(d.payload, w.payload->0)
}

/// Decodes and validates a wire event (`RuntimeEvent::try_from`).
pub fn decode_event(event: wire::RuntimeEvent) -> (r: Result<RuntimeEvent, ProtocolError>)
    ensures
        event_fault(event) matches Some(f) ==> fails_with(r, f),
        event_fault(event) is None ==> r is Ok && event_decoded(r->Ok_0, event),
{
    let ghost w = event;
    if event.schema_version != EVENT_SCHEMA_VERSION {
        return Err(ProtocolError::UnsupportedEventSchema(event.schema_version));
    }
    let id = parse_uuid("event_id", event.event_id.as_str())?;
    let observed_at = match decode_timestamp(event.observed_at_unix_nanos) {
        Some(t) => t,
        None => {
            return Err(ProtocolError::InvalidTimestamp);
        },
    };
    let a = match event.attribution {
        Some(a) => a,
        None => {
            return Err(ProtocolError::Missing("attribution"));
        },
    };
    require("node_name", a.node_name.as_str())?;
    require("namespace", a.namespace.as_str())?;
    require("pod_uid", a.pod_uid.as_str())?;
    require("container_id", a.container_id.as_str())?;
    require("workload_uid", a.workload_uid.as_str())?;
    let project_id = parse_uuid("project_id", a.project_id.as_str())?;
    let application_id = parse_uuid("application_id", a.application_id.as_str())?;
    let attribution = KubernetesAttribution {
        project_id,
        application_id,
        node_name: a.node_name,
        namespace: a.namespace,
        pod_uid: a.pod_uid,
        pod_name: a.pod_name,
        container_id: a.container_id,
        container_name: a.container_name,
        workload_uid: a.workload_uid,
        workload_kind: a.workload_kind,
        workload_name: a.workload_name,
        release: decode_release(a.release),
    };
    let p = match event.process {
        Some(p) => p,
        None => {
            return Err(ProtocolError::Missing("process"));
        },
    };
    let process = ProcessIdentity {
        cgroup_id: p.cgroup_id,
        pid: p.pid,
        tgid: p.tgid,
        command: p.command,
    };
    let wire_payload = match event.payload {
        Some(payload) => payload,
        None => {
            return Err(ProtocolError::Missing("payload"));
        },
    };
    let payload = match wire_payload {
        wire::Payload::ProcessExec(exec) => {
            require("executable", exec.executable.as_str())?;
            let parent_command = if exec.parent_command.as_str().is_empty() {
                None
            } else {
                Some(exec.parent_command)
            };
            EventPayload::ProcessExec(ProcessExec { executable: exec.executable, parent_command })
        },
        wire::Payload::Syscall(syscall) => {
            require("syscall.name", syscall.name.as_str())?;
            EventPayload::Syscall(SyscallEvent { name: syscall.name })
        },
        wire::Payload::NetworkConnect(network) => decode_network(&network)?,
        wire::Payload::NetworkDnsQuery(query) => decode_dns_query(&query)?,
        wire::Payload::NetworkDnsResponse(response) => decode_dns_response(&response)?,
    };
    Ok(
        RuntimeEvent {
            id,
            observed_at,
            schema_version: event.schema_version,
            attribution,
            process,
            payload,
        },
    )
}


// ---------------------------------------------------------------- encoding

pub open spec fn context_encoded(w: wire::DnsContext, c: DnsContext) -> bool {
    &&& w.names@.len() == c.names@.len()
    &&& forall|i: int|
        0 <= i < c.names@.len() ==> dns_name_of(#[trigger] w.names@[i]) == c.names@[i]
            && w.names@[i]@ == c.names@[i]@
    &&& w.observed_at_unix_nanos == encoded_nanos(c.observed_at)
    &&& w.expires_at_unix_nanos == encoded_nanos(c.expires_at)
    &&& w.confidence == wire::DNS_CONFIDENCE_OBSERVED_RECENTLY
    &&& w.ambiguous == c.ambiguous
}

fn encode_dns_context(value: DnsContext) -> (r: wire::DnsContext)
    ensures
        context_encoded(r, value),
{
    let mut names: Vec<String> = Vec::new();
    let mut i: usize = 0;
    while i < value.names.len()
        invariant
            i <= value.names@.len(),
            names@.len() == i,
            forall|k: int|
                0 <= k < i ==> dns_name_of(#[trigger] names@[k]) == value.names@[k]
                    && names@[k]@ == value.names@[k]@,
        decreases value.names@.len() - i,
    {
        let name = value.names[i].clone();
        names.push(name.into_string());
        i = i + 1;
    }
    wire::DnsContext {
        names,
        observed_at_unix_nanos: encode_timestamp(&value.observed_at),
        expires_at_unix_nanos: encode_timestamp(&value.expires_at),
        confidence: wire::DNS_CONFIDENCE_OBSERVED_RECENTLY,
        ambiguous: value.ambiguous,
    }
}

pub open spec fn wire_errno(errno: Option<u16>) -> Option<u32> {
    match errno {
        Some(e) => Some(e as u32),
        None => None,
    }
}

pub open spec fn ip_family_number(ip: IpAddr) -> i32 {
    match ip {
        IpAddr::V4(_) => wire::ADDRESS_FAMILY_IPV4,
        IpAddr::V6(_) => wire::ADDRESS_FAMILY_IPV6,
    }
}

pub open spec fn network_encoded(w: wire::NetworkConnect, n: NetworkConnect) -> bool {
    &&& w.address_family == ip_family_number(n.destination_address)
    &&& w.destination_address@ == ip_octets(n.destination_address)
    &&& w.destination_port == n.destination_port as u32
    &&& w.outcome == outcome_number(n.outcome)
    &&& w.errno == wire_errno(n.errno)
    &&& match n.dns_context {
        None => w.dns_context is None,
        Some(c) => w.dns_context matches Some(wc) && context_encoded(wc, c),
    }
}

fn encode_network(network: NetworkConnect) -> (r: wire::NetworkConnect)
    ensures
        network_encoded(r, network),
{
    let address_family = match network.destination_address {
        IpAddr::V4(_) => wire::ADDRESS_FAMILY_IPV4,
        IpAddr::V6(_) => wire::ADDRESS_FAMILY_IPV6,
    };
    let outcome = match network.outcome {
        NetworkConnectOutcome::Succeeded => wire::CONNECT_OUTCOME_SUCCEEDED,
        NetworkConnectOutcome::InProgress => wire::CONNECT_OUTCOME_IN_PROGRESS,
        NetworkConnectOutcome::Failed => wire::CONNECT_OUTCOME_FAILED,
    };
    let errno = match network.errno {
        Some(e) => Some(e as u32),
        None => None,
    };
    let dns_context = match network.dns_context {
        Some(c) => Some(encode_dns_context(c)),
        None => None,
    };
    wire::NetworkConnect {
        address_family,
        destination_address: encode_ip(network.destination_address),
        destination_port: network.destination_port as u32,
        outcome,
        errno,
        dns_context,
    }
}

pub open spec fn dns_query_encoded(w: wire::NetworkDnsQuery, q: NetworkDnsQuery) -> bool {
    &&& w.transaction_id == q.transaction_id as u32
    &&& w.direction == direction_number(q.direction)
    &&& w.transport == transport_number(q.transport)
    &&& w.resolver_address@ == ip_octets(q.resolver_address)
    &&& dns_name_of(w.name) == q.name
    &&& w.name@ == q.name@
    &&& w.query_type == query_type_number(q.query_type)
}

fn encode_dns_query(value: NetworkDnsQuery) -> (r: wire::NetworkDnsQuery)
    ensures
        dns_query_encoded(r, value),
{
    wire::NetworkDnsQuery {
        transaction_id: value.transaction_id as u32,
        direction: encode_direction(value.direction),
        transport: encode_transport(value.transport),
        resolver_address: encode_ip(value.resolver_address),
        name: value.name.into_string(),
        query_type: encode_query_type(value.query_type),
    }
}

pub open spec fn answer_encoded(w: wire::DnsAddressAnswer, a: DnsAddressAnswer) -> bool {
    &&& dns_name_of(w.name) == a.name
    &&& w.name@ == a.name@
    &&& w.address@ == ip_octets(a.address)
    &&& w.ttl_seconds == a.ttl_seconds
}

pub open spec fn cname_encoded(w: wire::DnsCname, c: DnsCname) -> bool {
    &&& dns_name_of(w.alias) == c.alias
    &&& w.alias@ == c.alias@
    &&& dns_name_of(w.canonical) == c.canonical
    &&& w.canonical@ == c.canonical@
    &&& w.ttl_seconds == c.ttl_seconds
}

pub open spec fn dns_response_encoded(w: wire::NetworkDnsResponse, r: NetworkDnsResponse) -> bool {
    &&& w.transaction_id == r.transaction_id as u32
    &&& w.direction == direction_number(r.direction)
    &&& w.transport == transport_number(r.transport)
    &&& w.resolver_address@ == ip_octets(r.resolver_address)
    &&& dns_name_of(w.name) == r.name
    &&& w.name@ == r.name@
    &&& w.query_type == query_type_number(r.query_type)
    &&& w.response_code == response_code_number(r.response_code)
    &&& w.truncated == r.truncated
    &&& w.answers@.len() == r.answers@.len()
    &&& forall|i: int| 0 <= i < r.answers@.len() ==> answer_encoded(#[trigger] w.answers@[i], r.answers@[i])
    &&& w.cname_chain@.len() == r.cname_chain@.len()
    &&& forall|i: int|
        0 <= i < r.cname_chain@.len() ==> cname_encoded(#[trigger] w.cname_chain@[i], r.cname_chain@[i])
    &&& w.effective_ttl_seconds == r.effective_ttl_seconds
}

fn encode_dns_response(value: NetworkDnsResponse) -> (r: wire::NetworkDnsResponse)
    ensures
        dns_response_encoded(r, value),
{
    let mut answers: Vec<wire::DnsAddressAnswer> = Vec::new();
    let mut i: usize = 0;
    while i < value.answers.len()
        invariant
            i <= value.answers@.len(),
            answers@.len() == i,
            forall|k: int| 0 <= k < i ==> answer_encoded(#[trigger] answers@[k], value.answers@[k]),
        decreases value.answers@.len() - i,
    {
        let answer = &value.answers[i];
        answers.push(
            wire::DnsAddressAnswer {
                name: answer.name.clone().into_string(),
                address: encode_ip(answer.address),
                ttl_seconds: answer.ttl_seconds,
            },
        );
        i = i + 1;
    }
    let mut cname_chain: Vec<wire::DnsCname> = Vec::new();
    let mut j: usize = 0;
    while j < value.cname_chain.len()
        invariant
            j <= value.cname_chain@.len(),
            cname_chain@.len() == j,
            forall|k: int|
                0 <= k < j ==> cname_encoded(#[trigger] cname_chain@[k], value.cname_chain@[k]),
        decreases value.cname_chain@.len() - j,
    {
        let cname = &value.cname_chain[j];
        cname_chain.push(
            wire::DnsCname {
                alias: cname.alias.clone().into_string(),
                canonical: cname.canonical.clone().into_string(),
                ttl_seconds: cname.ttl_seconds,
            },
        );
        j = j + 1;
    }
    wire::NetworkDnsResponse {
        transaction_id: value.transaction_id as u32,
        direction: encode_direction(value.direction),
        transport: encode_transport(value.transport),
        resolver_address: encode_ip(value.resolver_address),
        name: value.name.into_string(),
        query_type: encode_query_type(value.query_type),
        response_code: encode_response_code(value.response_code),
        truncated: value.truncated,
        answers,
        cname_chain,
        effective_ttl_seconds: value.effective_ttl_seconds,
    }
}

pub open spec fn payload_encoded(w: wire::Payload, p: EventPayload) -> bool {
    match p {
        EventPayload::ProcessExec(e) => w matches wire::Payload::ProcessExec(x) && x.executable
            == e.executable && match e.parent_command {
            Some(c) => x.parent_command == c,
            None => x.parent_command@.len() == 0,
        },
        EventPayload::Syscall(s) => w == wire::Payload::Syscall(wire::Syscall { name: s.name }),
        EventPayload::NetworkConnect(n) => w matches wire::Payload::NetworkConnect(x)
            && network_encoded(x, n),
        EventPayload::NetworkDnsQuery(q) => w matches wire::Payload::NetworkDnsQuery(x)
            && dns_query_encoded(x, q),
        EventPayload::NetworkDnsResponse(r) => w matches wire::Payload::NetworkDnsResponse(x)
            && dns_response_encoded(x, r),
    }
}

pub open spec fn attribution_encoded(w: wire::KubernetesAttribution, a: KubernetesAttribution) -> bool {
    &&& w.project_id@ == spec_uuid_text(a.project_id)
    &&& spec_uuid_parse(w.project_id@) == Some(a.project_id)
    &&& w.application_id@ == spec_uuid_text(a.application_id)
    &&& spec_uuid_parse(w.application_id@) == Some(a.application_id)
    &&& w.node_name == a.node_name
    &&& w.namespace == a.namespace
    &&& w.pod_uid == a.pod_uid
    &&& w.pod_name == a.pod_name
    &&& w.container_id == a.container_id
    &&& w.container_name == a.container_name
    &&& w.workload_uid == a.workload_uid
    &&& w.workload_kind == a.workload_kind
    &&& w.workload_name == a.workload_name
    &&& w.release == a.release
}

/// `w` is the wire form of `e`.
pub open spec fn event_encoded(w: wire::RuntimeEvent, e: RuntimeEvent) -> bool {
    &&& w.event_id@ == spec_uuid_text(e.id)
    &&& spec_uuid_parse(w.event_id@) == Some(e.id)
    &&& w.observed_at_unix_nanos == encoded_nanos(e.observed_at)
    &&& w.schema_version == e.schema_version
    &&& w.attribution matches Some(a) && attribution_encoded(a, e.attribution)
    &&& w.process == Some(
        wire::ProcessIdentity {
            cgroup_id: e.process.cgroup_id,
            pid: e.process.pid,
            tgid: e.process.tgid,
            command: e.process.command,
        },
    )
    &&& w.payload matches Some(p) && payload_encoded(p, e.payload)
}

/// The wire form of an event (`v1::RuntimeEvent::from`).
pub fn encode_event(event: RuntimeEvent) -> (w: wire::RuntimeEvent)
    ensures
        event_encoded(w, event),
{
    let payload = match event.payload {
        EventPayload::ProcessExec(exec) => wire::Payload::ProcessExec(
            wire::ProcessExec {
                executable: exec.executable,
                parent_command: match exec.parent_command {
                    Some(c) => c,
                    None => String::new(),
                },
            },
        ),
        EventPayload::Syscall(syscall) => wire::Payload::Syscall(
            wire::Syscall { name: syscall.name },
        ),
        EventPayload::NetworkConnect(network) => wire::Payload::NetworkConnect(
            encode_network(network),
        ),
        EventPayload::NetworkDnsQuery(query) => wire::Payload::NetworkDnsQuery(
            encode_dns_query(query),
        ),
        EventPayload::NetworkDnsResponse(response) => wire::Payload::NetworkDnsResponse(
            encode_dns_response(response),
        ),
    };
    let a = event.attribution;
    let p = event.process;
    wire::RuntimeEvent {
        event_id: uuid_text(event.id),
        observed_at_unix_nanos: encode_timestamp(&event.observed_at),
        schema_version: event.schema_version,
        attribution: Some(
            wire::KubernetesAttribution {
                project_id: uuid_text(a.project_id),
                application_id: uuid_text(a.application_id),
                node_name: a.node_name,
                namespace: a.namespace,
                pod_uid: a.pod_uid,
                pod_name: a.pod_name,
                container_id: a.container_id,
                container_name: a.container_name,
                workload_uid: a.workload_uid,
                workload_kind: a.workload_kind,
                workload_name: a.workload_name,
                release: a.release,
            },
        ),
        process: Some(
            wire::ProcessIdentity {
                cgroup_id: p.cgroup_id,
                pid: p.pid,
                tgid: p.tgid,
                command: p.command,
            },
        ),
        payload: Some(payload),
    }
}

} // verus!
