//! Grouping of runtime events: the version 1 fingerprint, which identifies an
//! event by its tenant, workload and semantic identity and nothing else.

use vstd::prelude::*;
use vstd::utf8::encode_utf8;

use crate::event_model::{
    clone_context, payload_kind, DnsContext, DnsDirection, DnsName, DnsQueryType,
    DnsResponseCode, DnsTransport, EventPayload, IpAddr, NetworkAddressFamily, RuntimeEvent,
};
use crate::protocol::{encode_ip, ip_octets};
use crate::text::{trim, trim_text, TrimSet};

verus! {

#[derive(Clone, Copy, Debug, PartialEq, Eq)]
pub enum FingerprintVersion {
    V1,
}

pub const CURRENT_FINGERPRINT_VERSION: FingerprintVersion = FingerprintVersion::V1;

impl FingerprintVersion {
    /// The version's number as stored.
    pub fn number(self) -> (r: i16)
        ensures
            r == 1,
    {
        match self {
            FingerprintVersion::V1 => 1,
        }
    }
}

#[derive(Clone, Copy, Debug, Default, PartialEq, Eq)]
pub enum RuntimeGroupStatus {
    #[default]
    Open,
    Acknowledged,
    Resolved,
}

pub open spec fn status_name(s: RuntimeGroupStatus) -> Seq<char> {
    match s {
        RuntimeGroupStatus::Open => "open"@,
        RuntimeGroupStatus::Acknowledged => "acknowledged"@,
        RuntimeGroupStatus::Resolved => "resolved"@,
    }
}

impl RuntimeGroupStatus {
    /// The status's name, as shown and stored.
    pub fn as_str(self) -> (r: &'static str)
        ensures
            r@ == status_name(self),
    {
        match self {
            RuntimeGroupStatus::Open => "open",
            RuntimeGroupStatus::Acknowledged => "acknowledged",
            RuntimeGroupStatus::Resolved => "resolved",
        }
    }
}

#[derive(Clone, Copy, Debug, PartialEq, Eq)]
pub enum FingerprintError {
    EmptyField(&'static str),
}

#[derive(Clone, Copy, Debug, PartialEq, Eq)]
pub enum GroupingSource {
    Live,
    Backfill,
}

impl GroupingSource {
    pub fn as_str(self) -> (r: &'static str)
        ensures
            r@ == (match self {
                GroupingSource::Live => "live"@,
                GroupingSource::Backfill => "backfill"@,
            }),
    {
        match self {
            GroupingSource::Live => "live",
            GroupingSource::Backfill => "backfill",
        }
    }
}

/// The tenant and workload an event is grouped under, as the server trusts them.
#[derive(Clone, Debug, PartialEq, Eq)]
pub struct TrustedGroupingScope<'a> {
    pub organization_id: u128,
    pub project_id: u128,
    pub application_id: u128,
    pub cluster_id: u128,
    pub namespace: &'a str,
    pub workload_kind: &'a str,
    pub workload_name: &'a str,
}

/// What an occurrence is, as shown to people: the fields that identify it.
#[derive(Clone, Debug, PartialEq, Eq)]
pub enum Semantic {
    Exec { executable: String },
    Syscall { process_command: String, syscall: String },
    Network {
        process_command: String,
        address_family: &'static str,
        destination_address: IpAddr,
        destination_port: u16,
        dns_context: Option<DnsContext>,
    },
    DnsQuery {
        process_command: String,
        name: DnsName,
        query_type: DnsQueryType,
        transport: DnsTransport,
        direction: DnsDirection,
    },
    DnsResponse {
        process_command: String,
        name: DnsName,
        query_type: DnsQueryType,
        response_code: DnsResponseCode,
        transport: DnsTransport,
        direction: DnsDirection,
    },
}

#[derive(Clone, Debug, PartialEq, Eq)]
pub struct OccurrenceSummary {
    pub event_kind: String,
    pub semantic: Semantic,
}

#[derive(Clone, Debug, PartialEq, Eq)]
pub struct EventFingerprint {
    pub version: FingerprintVersion,
    pub digest: [u8; 32],
    pub summary: OccurrenceSummary,
}

// ------------------------------------------------------------ byte encoding

/// `256` to the power `n`.
pub open spec fn radix(n: nat) -> nat
    decreases n,
{
    if n == 0 {
        1
    } else {
        256 * radix((n - 1) as nat)
    }
}

/// The `n` low bytes of `x`, most significant first (`to_be_bytes`).
pub open spec fn be_bytes(x: nat, n: nat) -> Seq<u8>
    decreases n,
{
    if n == 0 {
        Seq::empty()
    } else {
        be_bytes(x / 256, (n - 1) as nat).push((x % 256) as u8)
    }
}

fn be_bytes_exec(x: u128, n: usize) -> (r: Vec<u8>)
    ensures
        r@ == be_bytes(x as nat, n as nat),
    decreases n,
{
    if n == 0 {
        Vec::new()
    } else {
        let mut v = be_bytes_exec(x / 256, n - 1);
        v.push((x % 256) as u8);
        v
    }
}

/// One field as the encoder frames it: its length as eight big-endian bytes,
/// then its bytes.
pub open spec fn frame(field: Seq<u8>) -> Seq<u8> {
    be_bytes(field.len(), 8) + field
}

/// The canonical encoding of a list of fields: their frames in order.
pub open spec fn canonical(fields: Seq<Seq<u8>>) -> Seq<u8>
    decreases fields.len(),
{
    if fields.len() == 0 {
        Seq::empty()
    } else {
        frame(fields[0]) + canonical(fields.drop_first())
    }
}

proof fn lemma_be_bytes_len(x: nat, n: nat)
    ensures
        be_bytes(x, n).len() == n,
    decreases n,
{
    if n > 0 {
        lemma_be_bytes_len(x / 256, (n - 1) as nat);
    }
}

proof fn lemma_be_bytes_determine(x: nat, y: nat, n: nat)
    requires
        be_bytes(x, n) == be_bytes(y, n),
    ensures
        x % radix(n) == y % radix(n),
    decreases n,
{
    if n == 0 {
    } else {
        let m = (n - 1) as nat;
        lemma_be_bytes_len(x / 256, m);
        lemma_be_bytes_len(y / 256, m);
        assert(be_bytes(x, n).drop_last() =~= be_bytes(x / 256, m));
        assert(be_bytes(y, n).drop_last() =~= be_bytes(y / 256, m));
        assert(be_bytes(x, n).last() == be_bytes(y, n).last());
        lemma_be_bytes_determine(x / 256, y / 256, m);
        lemma_radix_positive(m);
        assert(radix(n) == 256 * radix(m));
        assert(be_bytes(x, n) == be_bytes(x / 256, m).push((x % 256) as u8));
        assert(be_bytes(y, n) == be_bytes(y / 256, m).push((y % 256) as u8));
        assert(be_bytes(x, n)[m as int] == (x % 256) as u8);
        assert(be_bytes(y, n)[m as int] == (y % 256) as u8);
        assert((x % 256) as u8 == (y % 256) as u8);
        assert(x % 256 == y % 256);
        vstd::arithmetic::div_mod::lemma_mod_breakdown(x as int, 256, radix(m) as int);
        vstd::arithmetic::div_mod::lemma_mod_breakdown(y as int, 256, radix(m) as int);
    }
}

proof fn lemma_radix_positive(n: nat)
    ensures
        radix(n) > 0,
    decreases n,
{
    if n > 0 {
        lemma_radix_positive((n - 1) as nat);
    }
}

proof fn lemma_radix_8()
    ensures
        radix(8) == 0x1_0000_0000_0000_0000,
{
    reveal_with_fuel(radix, 9);
}

proof fn lemma_canonical_append(fields: Seq<Seq<u8>>, last: Seq<u8>)
    ensures
        canonical(fields.push(last)) == canonical(fields) + frame(last),
    decreases fields.len(),
{
    if fields.len() == 0 {
        assert(fields.push(last).drop_first() =~= Seq::<Seq<u8>>::empty());
        assert(fields.push(last)[0] == last);
        assert(canonical(Seq::<Seq<u8>>::empty()) == Seq::<u8>::empty());
        assert(canonical(fields.push(last)) =~= frame(last) + Seq::<u8>::empty());
        assert(canonical(fields) == Seq::<u8>::empty());
    } else {
        assert(fields.push(last).drop_first() =~= fields.drop_first().push(last));
        lemma_canonical_append(fields.drop_first(), last);
        assert(canonical(fields.push(last)) =~= canonical(fields) + frame(last));
    }
}

/// The canonical encoding is unambiguous: two lists of fields (each shorter
/// than 2^64 bytes) with the same encoding are the same list.
pub proof fn lemma_canonical_injective(a: Seq<Seq<u8>>, b: Seq<Seq<u8>>)
    requires
        forall|i: int| 0 <= i < a.len() ==> (#[trigger] a[i]).len() < 0x1_0000_0000_0000_0000,
        forall|i: int| 0 <= i < b.len() ==> (#[trigger] b[i]).len() < 0x1_0000_0000_0000_0000,
        canonical(a) == canonical(b),
    ensures
        a == b,
    decreases a.len(),
{
    if a.len() == 0 {
        if b.len() > 0 {
            lemma_be_bytes_len(b[0].len(), 8);
            assert(canonical(b).len() >= 8);
        }
        assert(a =~= b);
    } else if b.len() == 0 {
        lemma_be_bytes_len(a[0].len(), 8);
        assert(canonical(a).len() >= 8);
    } else {
        let (x, y) = (a[0], b[0]);
        let ca = canonical(a);
        lemma_be_bytes_len(x.len(), 8);
        lemma_be_bytes_len(y.len(), 8);
        assert(ca.subrange(0, 8) =~= be_bytes(x.len(), 8));
        assert(canonical(b).subrange(0, 8) =~= be_bytes(y.len(), 8));
        lemma_be_bytes_determine(x.len(), y.len(), 8);
        lemma_radix_8();
        assert(x.len() == y.len());
        let n = x.len() as int;
        assert(ca.subrange(8, 8 + n) =~= x);
        assert(canonical(b).subrange(8, 8 + n) =~= y);
        assert(ca.subrange(8 + n, ca.len() as int) =~= canonical(a.drop_first()));
        assert(canonical(b).subrange(8 + n, ca.len() as int) =~= canonical(b.drop_first()));
        lemma_canonical_injective(a.drop_first(), b.drop_first());
        assert(a =~= b) by {
            assert forall|i: int| 0 <= i < a.len() implies a[i] == b[i] by {
                if i > 0 {
                    assert(a[i] == a.drop_first()[i - 1]);
                    assert(b[i] == b.drop_first()[i - 1]);
                }
            }
        }
    }
}

/// Encodes fields canonically.
pub fn canonical_encoding(fields: &Vec<Vec<u8>>) -> (r: Vec<u8>)
    ensures
        r@ == canonical(fields@.map_values(|f: Vec<u8>| f@)),
{
    let ghost views = fields@.map_values(|f: Vec<u8>| f@);
    let mut out: Vec<u8> = Vec::new();
    let mut i: usize = 0;
    assert(views.take(0) =~= Seq::<Seq<u8>>::empty());
    while i < fields.len()
        invariant
            i <= fields@.len(),
            views == fields@.map_values(|f: Vec<u8>| f@),
            out@ == canonical(views.take(i as int)),
        decreases fields@.len() - i,
    {
        let field = &fields[i];
        let mut len = be_bytes_exec(field.len() as u128, 8);
        let mut body = field.clone();
        out.append(&mut len);
        out.append(&mut body);
        proof {
            assert(views.take(i as int + 1) =~= views.take(i as int).push(views[i as int]));
            lemma_canonical_append(views.take(i as int), views[i as int]);
            assert(views[i as int] == fields@[i as int]@);
        }
        i = i + 1;
    }
    assert(views.take(i as int) =~= views);
    out
}

// ----------------------------------------------------------------- sha-256

/// The SHA-256 digest of some bytes.
pub uninterp spec fn spec_sha256(bytes: Seq<u8>) -> Seq<u8>;

/// `sha2::Sha256::digest`: the SHA-256 digest of the bytes (feeding them to
/// the hasher in pieces gives the digest of their concatenation).
#[verifier::external_body]
pub(crate) fn sha256(bytes: &[u8]) -> (r: [u8; 32])
    ensures
        r@ == spec_sha256(bytes@),
{
    <sha2::Sha256 as sha2::Digest>::digest(bytes).into()
}

// -------------------------------------------------------------- fingerprint

/// A field of the fingerprint, with NUL and white space trimmed off.
pub open spec fn normalized(value: Seq<char>) -> Seq<char> {
    trim(TrimSet::WhitespaceOrNul, value)
}

/// An ASCII upper-case letter made lower-case; any other character kept.
pub open spec fn ascii_lower(c: char) -> char {
    if 'A' <= c <= 'Z' {
        ((c as u32) + 32) as char
    } else {
        c
    }
}

pub open spec fn ascii_lowercase(s: Seq<char>) -> Seq<char> {
    s.map_values(|c: char| ascii_lower(c))
}

fn to_ascii_lowercase(s: &str) -> (r: String)
    ensures
        r@ == ascii_lowercase(s@),
{
    let chars = crate::text::chars_of(s);
    let mut out: Vec<char> = Vec::new();
    let mut i: usize = 0;
    while i < chars.len()
        invariant
            chars@ == s@,
            i <= chars@.len(),
            out@ == ascii_lowercase(s@.take(i as int)),
        decreases chars@.len() - i,
    {
        let c = chars[i];
        let lower = if 'A' <= c && c <= 'Z' {
            ((c as u8) + 32) as char
        } else {
            c
        };
        out.push(lower);
        i = i + 1;
        assert(out@ =~= ascii_lowercase(s@.take(i as int)));
    }
    assert(s@.take(i as int) =~= s@);
    crate::text::string_of(out.as_slice())
}

pub open spec fn query_type_debug(q: DnsQueryType) -> Seq<char> {
    match q {
        DnsQueryType::A => "A"@,
        DnsQueryType::Aaaa => "Aaaa"@,
    }
}

pub open spec fn response_code_debug(c: DnsResponseCode) -> Seq<char> {
    match c {
        DnsResponseCode::NoError => "NoError"@,
        DnsResponseCode::FormErr => "FormErr"@,
        DnsResponseCode::ServFail => "ServFail"@,
        DnsResponseCode::NxDomain => "NxDomain"@,
        DnsResponseCode::NotImp => "NotImp"@,
        DnsResponseCode::Refused => "Refused"@,
    }
}

pub open spec fn family_name(f: NetworkAddressFamily) -> Seq<char> {
    match f {
        NetworkAddressFamily::Ipv4 => "ipv4"@,
        NetworkAddressFamily::Ipv6 => "ipv6"@,
    }
}

/// The UTF-8 bytes of a text.
pub open spec fn utf8(s: Seq<char>) -> Seq<u8> {
    encode_utf8(s)
}

/// The first required field that is empty once normalized, in the order the
/// fingerprint reads them.
pub open spec fn fingerprint_fault(scope: TrustedGroupingScope, event: RuntimeEvent) -> Option<Seq<char>> {
    let command = normalized(event.process.command@);
    if normalized(scope.namespace@).len() == 0 {
        Some("namespace"@)
    } else if normalized(scope.workload_kind@).len() == 0 {
        Some("workload_kind"@)
    } else if normalized(scope.workload_name@).len() == 0 {
        Some("workload_name"@)
    } else {
        match event.payload {
            EventPayload::ProcessExec(p) => if normalized(p.executable@).len() == 0 {
                Some("executable"@)
            } else {
                None
            },
            EventPayload::Syscall(s) => if command.len() == 0 {
                Some("process_command"@)
            } else if normalized(s.name@).len() == 0 {
                Some("syscall_name"@)
            } else {
                None
            },
            _ => if command.len() == 0 {
                Some("process_command"@)
            } else {
                None
            },
        }
    }
}

/// The fields the version 1 fingerprint hashes: a domain tag, the version,
/// the tenant and workload, the event kind, and the event's semantic identity.
pub open spec fn fingerprint_fields(scope: TrustedGroupingScope, event: RuntimeEvent) -> Seq<Seq<u8>> {
    let command = utf8(normalized(event.process.command@));
    let head = seq![
        utf8("okoscope.runtime-event-group"@),
        be_bytes(1, 2),
        be_bytes(scope.organization_id as nat, 16),
        be_bytes(scope.project_id as nat, 16),
        be_bytes(scope.application_id as nat, 16),
        be_bytes(scope.cluster_id as nat, 16),
        utf8(normalized(scope.namespace@)),
        utf8(normalized(scope.workload_kind@)),
        utf8(normalized(scope.workload_name@)),
        utf8(payload_kind(event.payload)),
    ];
    head + match event.payload {
        EventPayload::ProcessExec(p) => seq![utf8(normalized(p.executable@))],
        EventPayload::Syscall(s) => seq![command, utf8(ascii_lowercase(normalized(s.name@)))],
        EventPayload::NetworkConnect(n) => seq![
            command,
            utf8(family_name(n.address_family)),
            ip_octets(n.destination_address),
            be_bytes(n.destination_port as nat, 2),
        ],
        EventPayload::NetworkDnsQuery(q) => seq![
            command,
            utf8(q.name@),
            utf8(query_type_debug(q.query_type)),
        ],
        EventPayload::NetworkDnsResponse(r) => seq![
            command,
            utf8(r.name@),
            utf8(query_type_debug(r.query_type)),
            utf8(response_code_debug(r.response_code)),
        ],
    }
}

fn text_bytes(s: &str) -> (r: Vec<u8>)
    ensures
        r@ == utf8(s@),
{
    vstd::slice::slice_to_vec(s.as_bytes())
}

fn required(name: &'static str, value: &str) -> (r: Result<String, FingerprintError>)
    ensures
        normalized(value@).len() == 0 ==> r == Err::<String, _>(FingerprintError::EmptyField(name)),
        normalized(value@).len() > 0 ==> r is Ok && r->Ok_0@ == normalized(value@),
{
    let t = trim_text(TrimSet::WhitespaceOrNul, value);
    if t.as_str().is_empty() {
        Err(FingerprintError::EmptyField(name))
    } else {
        Ok(t)
    }
}

fn query_type_text(q: DnsQueryType) -> (r: &'static str)
    ensures
        r@ == query_type_debug(q),
{
    match q {
        DnsQueryType::A => "A",
        DnsQueryType::Aaaa => "Aaaa",
    }
}

fn response_code_text(c: DnsResponseCode) -> (r: &'static str)
    ensures
        r@ == response_code_debug(c),
{
    match c {
        DnsResponseCode::NoError => "NoError",
        DnsResponseCode::FormErr => "FormErr",
        DnsResponseCode::ServFail => "ServFail",
        DnsResponseCode::NxDomain => "NxDomain",
        DnsResponseCode::NotImp => "NotImp",
        DnsResponseCode::Refused => "Refused",
    }
}

/// The semantic summary the fingerprint reports for an event, once its
/// fields are valid.
pub open spec fn semantic_matches(s: Semantic, event: RuntimeEvent) -> bool {
    let command = normalized(event.process.command@);
    match (event.payload, s) {
        (EventPayload::ProcessExec(p), Semantic::Exec { executable }) => executable@ == normalized(
            p.executable@,
        ),
        (EventPayload::Syscall(x), Semantic::Syscall { process_command, syscall }) => process_command@
            == command && syscall@ == ascii_lowercase(normalized(x.name@)),
        (
            EventPayload::NetworkConnect(n),
            Semantic::Network {
                process_command,
                address_family,
                destination_address,
                destination_port,
                dns_context,
            },
        ) => process_command@ == command && address_family@ == family_name(n.address_family)
            && destination_address == n.destination_address && destination_port
            == n.destination_port && match (dns_context, n.dns_context) {
            (None, None) => true,
            (Some(a), Some(b)) => crate::event_model::same_context(a, b),
            _ => false,
        },
        (
            EventPayload::NetworkDnsQuery(q),
            Semantic::DnsQuery { process_command, name, query_type, transport, direction },
        ) => process_command@ == command && name == q.name && query_type == q.query_type
            && transport == q.transport && direction == q.direction,
        (
            EventPayload::NetworkDnsResponse(r),
            Semantic::DnsResponse {
                process_command,
                name,
                query_type,
                response_code,
                transport,
                direction,
            },
        ) => process_command@ == command && name == r.name && query_type == r.query_type
            && response_code == r.response_code && transport == r.transport && direction
            == r.direction,
        _ => false,
    }
}

/// The version 1 fingerprint of an event in its trusted scope: the SHA-256
/// of the canonical encoding of its fingerprint fields, with the semantic
/// summary; an error names the first required field that is empty.
pub fn fingerprint_v1(scope: &TrustedGroupingScope, event: &RuntimeEvent) -> (r: Result<
    EventFingerprint,
    FingerprintError,
>)
    ensures
        fingerprint_fault(*scope, *event) is Some ==> r is Err && r->Err_0->EmptyField_0@
            == fingerprint_fault(*scope, *event)->0,
        fingerprint_fault(*scope, *event) is None ==> r is Ok && r->Ok_0.version
            == FingerprintVersion::V1 && r->Ok_0.digest@ == spec_sha256(
            canonical(fingerprint_fields(*scope, *event)),
        ) && r->Ok_0.summary.event_kind@ == payload_kind(event.payload) && semantic_matches(
            r->Ok_0.summary.semantic,
            *event,
        ),
{
    let namespace = required("namespace", scope.namespace)?;
    let workload_kind = required("workload_kind", scope.workload_kind)?;
    let workload_name = required("workload_name", scope.workload_name)?;
    let event_kind = event.kind();
    let mut fields: Vec<Vec<u8>> = Vec::new();
    fields.push(text_bytes("okoscope.runtime-event-group"));
    fields.push(be_bytes_exec(1, 2));
    fields.push(be_bytes_exec(scope.organization_id, 16));
    fields.push(be_bytes_exec(scope.project_id, 16));
    fields.push(be_bytes_exec(scope.application_id, 16));
    fields.push(be_bytes_exec(scope.cluster_id, 16));
    fields.push(text_bytes(namespace.as_str()));
    fields.push(text_bytes(workload_kind.as_str()));
    fields.push(text_bytes(workload_name.as_str()));
    fields.push(text_bytes(event_kind));
    let ghost head = fields@.map_values(|f: Vec<u8>| f@);
    let semantic = match &event.payload {
        EventPayload::ProcessExec(process) => {
            let executable = required("executable", process.executable.as_str())?;
            fields.push(text_bytes(executable.as_str()));
            Semantic::Exec { executable }
        },
        EventPayload::Syscall(syscall) => {
            let command = required("process_command", event.process.command.as_str())?;
            let name = required("syscall_name", syscall.name.as_str())?;
            let syscall_name = to_ascii_lowercase(name.as_str());
            fields.push(text_bytes(command.as_str()));
            fields.push(text_bytes(syscall_name.as_str()));
            Semantic::Syscall { process_command: command, syscall: syscall_name }
        },
        EventPayload::NetworkConnect(network) => {
            let command = required("process_command", event.process.command.as_str())?;
            let family = match network.address_family {
                NetworkAddressFamily::Ipv4 => "ipv4",
                NetworkAddressFamily::Ipv6 => "ipv6",
            };
            fields.push(text_bytes(command.as_str()));
            fields.push(text_bytes(family));
            fields.push(encode_ip(network.destination_address));
            fields.push(be_bytes_exec(network.destination_port as u128, 2));
            Semantic::Network {
                process_command: command,
                address_family: family,
                destination_address: network.destination_address,
                destination_port: network.destination_port,
                dns_context: match &network.dns_context {
                    Some(c) => Some(clone_context(c)),
                    None => None,
                },
            }
        },
        EventPayload::NetworkDnsQuery(query) => {
            let command = required("process_command", event.process.command.as_str())?;
            fields.push(text_bytes(command.as_str()));
            fields.push(text_bytes(query.name.as_str()));
            fields.push(text_bytes(query_type_text(query.query_type)));
            Semantic::DnsQuery {
                process_command: command,
                name: query.name.clone(),
                query_type: query.query_type,
                transport: query.transport,
                direction: query.direction,
            }
        },
        EventPayload::NetworkDnsResponse(response) => {
            let command = required("process_command", event.process.command.as_str())?;
            fields.push(text_bytes(command.as_str()));
            fields.push(text_bytes(response.name.as_str()));
            fields.push(text_bytes(query_type_text(response.query_type)));
            fields.push(text_bytes(response_code_text(response.response_code)));
            Semantic::DnsResponse {
                process_command: command,
                name: response.name.clone(),
                query_type: response.query_type,
                response_code: response.response_code,
                transport: response.transport,
                direction: response.direction,
            }
        },
    };
    proof {
        assert(fields@.map_values(|f: Vec<u8>| f@) =~= fingerprint_fields(*scope, *event));
    }
    let encoded = canonical_encoding(&fields);
    let digest = sha256(encoded.as_slice());
    Ok(
        EventFingerprint {
            version: FingerprintVersion::V1,
            digest,
            summary: OccurrenceSummary { event_kind: String::from_str(event_kind), semantic },
        },
    )
}

// --------------------------------------------------------------------- laws

/// The fingerprint reads only the trusted scope, the process command and the
/// payload: events that differ in their id, time, pod, container, workload
/// identity, release or process ids group together.
pub proof fn lemma_fingerprint_ignores_rollout_identity(
    scope: TrustedGroupingScope,
    a: RuntimeEvent,
    b: RuntimeEvent,
)
    requires
        a.process.command == b.process.command,
        a.payload == b.payload,
    ensures
        fingerprint_fault(scope, a) == fingerprint_fault(scope, b),
        fingerprint_fields(scope, a) == fingerprint_fields(scope, b),
{
}

/// A connection attempt is identified by its endpoint: its outcome, errno and
/// DNS context do not change the fingerprint.
pub proof fn lemma_network_fingerprint_ignores_outcome(
    scope: TrustedGroupingScope,
    a: RuntimeEvent,
    b: RuntimeEvent,
)
    requires
        a.process.command == b.process.command,
        a.payload matches EventPayload::NetworkConnect(x) && b.payload matches EventPayload::NetworkConnect(y)
            && x.address_family == y.address_family && x.destination_address == y.destination_address
            && x.destination_port == y.destination_port,
    ensures
        fingerprint_fields(scope, a) == fingerprint_fields(scope, b),
{
}

/// A DNS message is identified by its name, type and (for a response) its
/// code: its transaction id, resolver and answers do not change the
/// fingerprint.
pub proof fn lemma_dns_fingerprint_ignores_transaction(
    scope: TrustedGroupingScope,
    a: RuntimeEvent,
    b: RuntimeEvent,
)
    requires
        a.process.command == b.process.command,
        (a.payload matches EventPayload::NetworkDnsQuery(x) && b.payload matches EventPayload::NetworkDnsQuery(y)
            && x.name == y.name && x.query_type == y.query_type) || (a.payload matches EventPayload::NetworkDnsResponse(x)
            && b.payload matches EventPayload::NetworkDnsResponse(y) && x.name == y.name
            && x.query_type == y.query_type && x.response_code == y.response_code),
    ensures
        fingerprint_fields(scope, a) == fingerprint_fields(scope, b),
{
}

proof fn lemma_be_bytes_16_distinct(x: u128, y: u128)
    requires
        x != y,
    ensures
        be_bytes(x as nat, 16) != be_bytes(y as nat, 16),
{
    if be_bytes(x as nat, 16) == be_bytes(y as nat, 16) {
        lemma_be_bytes_determine(x as nat, y as nat, 16);
        reveal_with_fuel(radix, 17);
        assert(radix(16) == 0x1_0000_0000_0000_0000_0000_0000_0000_0000);
        vstd::arithmetic::div_mod::lemma_small_mod(x as nat, radix(16));
        vstd::arithmetic::div_mod::lemma_small_mod(y as nat, radix(16));
    }
}

/// The tenant is part of the identity: the same event under two different
/// organizations is encoded differently, so that only a SHA-256 collision
/// could give both the same digest.
pub proof fn lemma_tenant_changes_encoding(
    a: TrustedGroupingScope,
    b: TrustedGroupingScope,
    event: RuntimeEvent,
)
    requires
        a.organization_id != b.organization_id,
        forall|i: int|
            0 <= i < fingerprint_fields(a, event).len() ==> (#[trigger] fingerprint_fields(
                a,
                event,
            )[i]).len() < 0x1_0000_0000_0000_0000,
        forall|i: int|
            0 <= i < fingerprint_fields(b, event).len() ==> (#[trigger] fingerprint_fields(
                b,
                event,
            )[i]).len() < 0x1_0000_0000_0000_0000,
    ensures
        canonical(fingerprint_fields(a, event)) != canonical(fingerprint_fields(b, event)),
{
    if canonical(fingerprint_fields(a, event)) == canonical(fingerprint_fields(b, event)) {
        lemma_canonical_injective(fingerprint_fields(a, event), fingerprint_fields(b, event));
        assert(fingerprint_fields(a, event)[2] == fingerprint_fields(b, event)[2]);
        lemma_be_bytes_16_distinct(a.organization_id, b.organization_id);
    }
}

proof fn lemma_response_code_names_distinct(a: DnsResponseCode, b: DnsResponseCode)
    requires
        a != b,
    ensures
        utf8(response_code_debug(a)) != utf8(response_code_debug(b)),
{
    reveal_strlit("NoError");
    reveal_strlit("FormErr");
    reveal_strlit("ServFail");
    reveal_strlit("NxDomain");
    reveal_strlit("NotImp");
    reveal_strlit("Refused");
    let x = response_code_debug(a);
    let y = response_code_debug(b);
    if utf8(x) == utf8(y) {
        vstd::utf8::encode_utf8_decode_utf8(x);
        vstd::utf8::encode_utf8_decode_utf8(y);
        assert(x == y);
        assert(x.len() == y.len() && x[0] == y[0]);
    }
}

/// A DNS answer's response code is part of its group identity: two answers
/// to the same name and query type, from the same command and scope, that
/// differ in their response code are encoded differently, so that only a
/// SHA-256 collision could put a successful and a failed lookup in one group.
pub proof fn lemma_dns_response_code_separates_groups(
    scope: TrustedGroupingScope,
    a: RuntimeEvent,
    b: RuntimeEvent,
)
    requires
        a.process.command == b.process.command,
        a.payload matches EventPayload::NetworkDnsResponse(x) && b.payload matches EventPayload::NetworkDnsResponse(y)
            && x.name == y.name && x.query_type == y.query_type && x.response_code != y.response_code,
        forall|i: int|
            0 <= i < fingerprint_fields(scope, a).len() ==> (#[trigger] fingerprint_fields(
                scope,
                a,
            )[i]).len() < 0x1_0000_0000_0000_0000,
        forall|i: int|
            0 <= i < fingerprint_fields(scope, b).len() ==> (#[trigger] fingerprint_fields(
                scope,
                b,
            )[i]).len() < 0x1_0000_0000_0000_0000,
    ensures
        canonical(fingerprint_fields(scope, a)) != canonical(fingerprint_fields(scope, b)),
{
    let x = a.payload->NetworkDnsResponse_0;
    let y = b.payload->NetworkDnsResponse_0;
    let fa = fingerprint_fields(scope, a);
    let fb = fingerprint_fields(scope, b);
    assert(fa[13] == utf8(response_code_debug(x.response_code)));
    assert(fb[13] == utf8(response_code_debug(y.response_code)));
    lemma_response_code_names_distinct(x.response_code, y.response_code);
    if canonical(fa) == canonical(fb) {
        lemma_canonical_injective(fa, fb);
        assert(fa[13] == fb[13]);
    }
}

// --------------------------------------------------------------- assignment

/// What grouping an event came to: its group, whether the group was new,
/// and whether the event joined it now (false for a replayed event).
#[derive(Clone, Copy, Debug, PartialEq, Eq, Structural)]
pub struct GroupingOutcome {
    pub group_id: u128,
    pub group_created: bool,
    pub membership_created: bool,
}

/// The work that follows an event's assignment to a group.
#[derive(Clone, Copy, Debug, PartialEq, Eq, Structural)]
pub struct GroupingFollowUp {
    /// Count the occurrence on an existing group and widen its first and
    /// last sighting.
    pub update_occurrence: bool,
    /// Count the occurrence in the summary of this release.
    pub release_summary: Option<u128>,
    /// Announce the group's first sighting through the outbox.
    pub announce_first_seen: bool,
}

/// What follows an assignment: an event that joined an existing group is
/// counted on it; an event that joined a group under a release is counted
/// for the release; a new group is announced. A replayed event (one that
/// joined nothing) is counted nowhere.
pub fn grouping_follow_up(group_created: bool, membership_created: bool, release_id: Option<u128>) -> (r:
    GroupingFollowUp)
    ensures
        r.update_occurrence == (membership_created && !group_created),
        r.release_summary == (if membership_created {
            release_id
        } else {
            None
        }),
        r.announce_first_seen == group_created,
{
    GroupingFollowUp {
        update_occurrence: membership_created && !group_created,
        release_summary: if membership_created {
            release_id
        } else {
            None
        },
        announce_first_seen: group_created,
    }
}

} // verus!
