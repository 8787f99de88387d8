//! What survives the trip through the wire: a well-formed event that is encoded
//! and then decoded comes back unchanged.

use vstd::prelude::*;

use crate::event_model::{
    same_context, same_dns_response, same_event, same_network, same_payload,
    dns_response_check, valid_dns_context, valid_dns_name, valid_network_connect, DnsAddressAnswer,
    DnsCname, DnsContext, DnsDirection, DnsQueryType, DnsResponseCode, DnsTransport,
    EventPayload, IpAddr, KubernetesAttribution, NetworkConnect, NetworkDnsResponse,
    RuntimeEvent, EVENT_SCHEMA_VERSION,
};
use crate::protocol::{
    representable, release_kept, ip_decoded, ip_octets, ip_len_ok, direction_of, direction_number, transport_of, transport_number, query_type_of, query_type_number, response_code_of, response_code_number, lemma_timestamp_round_trip, context_encoded, context_fault, context_decoded, some_name_invalid, network_encoded, network_fault, network_decoded, narrow_errno, answer_fault, answers_fault, cname_fault, cnames_fault, dns_response_encoded, dns_response_fault, dns_response_decoded, answer_encoded, answer_decoded, cname_encoded, cname_decoded, payload_encoded, payload_fault, payload_decoded, dns_query_fault, event_encoded, event_fault, event_decoded,
};
use crate::text::{all_whitespace, trim_ws};
use crate::wire;

verus! {

// ------------------------------------------------------------ well-formed

/// A context that `DnsContext::validate` accepts, over valid names, whose
/// instants fit a nanosecond count.
pub open spec fn wf_context(c: DnsContext) -> bool {
    &&& valid_dns_context(c)
    &&& representable(c.observed_at)
    &&& representable(c.expires_at)
    &&& forall|i: int| 0 <= i < c.names@.len() ==> valid_dns_name(#[trigger] c.names@[i]@)
}

/// A response that `NetworkDnsResponse::validate` accepts, over valid names.
pub open spec fn wf_dns_response(r: NetworkDnsResponse) -> bool {
    &&& dns_response_check(r) is Ok
    &&& valid_dns_name(r.name@)
    &&& forall|i: int| 0 <= i < r.answers@.len() ==> valid_dns_name(#[trigger] r.answers@[i].name@)
    &&& forall|i: int|
        0 <= i < r.cname_chain@.len() ==> valid_dns_name(#[trigger] r.cname_chain@[i].alias@)
            && valid_dns_name(r.cname_chain@[i].canonical@)
}

/// A payload as the model's constructors build it.
pub open spec fn wf_payload(p: EventPayload) -> bool {
    match p {
        EventPayload::ProcessExec(x) => !all_whitespace(x.executable@) && (x.parent_command matches Some(
            c,
        ) ==> c@.len() > 0),
        EventPayload::Syscall(s) => !all_whitespace(s.name@),
        EventPayload::NetworkConnect(n) => valid_network_connect(n) && (n.dns_context matches Some(
            c,
        ) ==> wf_context(c)),
        EventPayload::NetworkDnsQuery(q) => valid_dns_name(q.name@),
        EventPayload::NetworkDnsResponse(r) => wf_dns_response(r),
    }
}

/// Attribution whose required names are present and whose release label, if
/// any, is already trimmed and within bounds.
pub open spec fn wf_attribution(a: KubernetesAttribution) -> bool {
    &&& !all_whitespace(a.node_name@)
    &&& !all_whitespace(a.namespace@)
    &&& !all_whitespace(a.pod_uid@)
    &&& !all_whitespace(a.container_id@)
    &&& !all_whitespace(a.workload_uid@)
    &&& a.release matches Some(r) ==> release_kept(r@) && trim_ws(r@) == r@
}

/// An event of the current schema that the decoder accepts.
pub open spec fn wf_event(e: RuntimeEvent) -> bool {
    &&& e.schema_version == EVENT_SCHEMA_VERSION
    &&& representable(e.observed_at)
    &&& wf_attribution(e.attribution)
    &&& wf_payload(e.payload)
}

// ------------------------------------------------------------------- pieces

proof fn lemma_ip_round_trip(e: IpAddr, d: IpAddr)
    requires
        ip_decoded(d, ip_octets(e)),
    ensures
        d == e,
        ip_len_ok(ip_octets(e)),
{
    broadcast use vstd::array::group_array_axioms;

    match (e, d) {
        (IpAddr::V4(a), IpAddr::V4(b)) => {
            assert(a =~= b);
        },
        (IpAddr::V6(a), IpAddr::V6(b)) => {
            assert(a =~= b);
        },
        (IpAddr::V4(a), IpAddr::V6(b)) => {
            assert(a@.len() == 4);
        },
        (IpAddr::V6(a), IpAddr::V4(b)) => {
            assert(a@.len() == 16);
        },
    }
}

proof fn lemma_numbers_round_trip(
    d: DnsDirection,
    t: DnsTransport,
    q: DnsQueryType,
    c: DnsResponseCode,
)
    ensures
        direction_of(direction_number(d)) == Some(d),
        transport_of(transport_number(t)) == Some(t),
        query_type_of(query_type_number(q)) == Some(q),
        response_code_of(response_code_number(c)) == Some(c),
{
}

proof fn lemma_context_round_trip(c: DnsContext, w: wire::DnsContext, d: DnsContext)
    requires
        wf_context(c),
        context_encoded(w, c),
        context_fault(w) is None ==> context_decoded(d, w),
    ensures
        context_fault(w) is None,
        same_context(d, c),
{
    lemma_timestamp_round_trip(c.observed_at);
    lemma_timestamp_round_trip(c.expires_at);
    assert(!some_name_invalid(w.names@)) by {
        assert forall|i: int| 0 <= i < w.names@.len() implies valid_dns_name(
            #[trigger] w.names@[i]@,
        ) by {
            assert(valid_dns_name(c.names@[i]@));
        }
    }
    assert(context_fault(w) is None);
    assert(d.names@ =~= c.names@) by {
        assert forall|i: int| 0 <= i < c.names@.len() implies #[trigger] d.names@[i]
            == c.names@[i] by {
            assert(dns_name_of_eq(w.names@[i], c.names@[i]));
        }
    }
}

/// The name built from an encoded name's text is that name.
spec fn dns_name_of_eq(text: String, name: crate::event_model::DnsName) -> bool {
    crate::event_model::dns_name_of(text) == name
}

proof fn lemma_network_round_trip(n: NetworkConnect, w: wire::NetworkConnect, d: NetworkConnect)
    requires
        valid_network_connect(n),
        n.dns_context matches Some(c) ==> wf_context(c),
        network_encoded(w, n),
        network_fault(w) is None ==> network_decoded(d, w),
    ensures
        network_fault(w) is None,
        same_network(d, n),
{
    broadcast use vstd::array::group_array_axioms;

    match n.destination_address {
        IpAddr::V4(a) => {
            assert(a@.len() == 4);
        },
        IpAddr::V6(a) => {
            assert(a@.len() == 16);
        },
    }
    assert(narrow_errno(w.errno) == n.errno);
    if let Some(c) = n.dns_context {
        let wc = w.dns_context->0;
        if context_fault(wc) is None {
            lemma_context_round_trip(c, wc, d.dns_context->0);
        } else {
            lemma_context_round_trip(c, wc, c);
        }
    }
    assert(network_fault(w) is None);
    lemma_ip_round_trip(n.destination_address, d.destination_address);
}

proof fn lemma_answers_none(s: Seq<wire::DnsAddressAnswer>)
    requires
        forall|i: int| 0 <= i < s.len() ==> answer_fault(#[trigger] s[i]) is None,
    ensures
        answers_fault(s) is None,
    decreases s.len(),
{
    if s.len() > 0 {
        assert(answer_fault(s[0]) is None);
        assert forall|i: int| 0 <= i < s.drop_first().len() implies answer_fault(
            #[trigger] s.drop_first()[i],
        ) is None by {
            assert(s.drop_first()[i] == s[i + 1]);
        }
        lemma_answers_none(s.drop_first());
    }
}

proof fn lemma_cnames_none(s: Seq<wire::DnsCname>)
    requires
        forall|i: int| 0 <= i < s.len() ==> cname_fault(#[trigger] s[i]) is None,
    ensures
        cnames_fault(s) is None,
    decreases s.len(),
{
    if s.len() > 0 {
        assert(cname_fault(s[0]) is None);
        assert forall|i: int| 0 <= i < s.drop_first().len() implies cname_fault(
            #[trigger] s.drop_first()[i],
        ) is None by {
            assert(s.drop_first()[i] == s[i + 1]);
        }
        lemma_cnames_none(s.drop_first());
    }
}

proof fn lemma_dns_response_round_trip(
    r: NetworkDnsResponse,
    w: wire::NetworkDnsResponse,
    d: NetworkDnsResponse,
)
    requires
        wf_dns_response(r),
        dns_response_encoded(w, r),
        dns_response_fault(w) is None ==> dns_response_decoded(d, w),
    ensures
        dns_response_fault(w) is None,
        same_dns_response(d, r),
{
    lemma_numbers_round_trip(r.direction, r.transport, r.query_type, r.response_code);
    lemma_ip_round_trip(r.resolver_address, r.resolver_address);
    assert(forall|i: int| 0 <= i < r.answers@.len() ==> valid_dns_name(#[trigger] r.answers@[i].name@));
    assert forall|i: int| 0 <= i < w.answers@.len() implies answer_fault(
        #[trigger] w.answers@[i],
    ) is None by {
        assert(answer_encoded(w.answers@[i], r.answers@[i]));
        assert(valid_dns_name(r.answers@[i].name@));
        assert(valid_ttl_of_answer(r.answers@[i]));
        lemma_ip_round_trip(r.answers@[i].address, r.answers@[i].address);
    }
    assert forall|i: int| 0 <= i < w.cname_chain@.len() implies cname_fault(
        #[trigger] w.cname_chain@[i],
    ) is None by {
        assert(cname_encoded(w.cname_chain@[i], r.cname_chain@[i]));
        assert(valid_dns_name(r.cname_chain@[i].alias@));
        assert(crate::event_model::valid_ttl(r.cname_chain@[i].ttl_seconds));
    }
    lemma_answers_none(w.answers@);
    lemma_cnames_none(w.cname_chain@);
    assert(dns_response_fault(w) is None);
    lemma_ip_round_trip(r.resolver_address, d.resolver_address);
    assert(d.answers@ =~= r.answers@) by {
        assert forall|i: int| 0 <= i < r.answers@.len() implies #[trigger] d.answers@[i]
            == r.answers@[i] by {
            assert(answer_decoded(d.answers@[i], w.answers@[i]));
            assert(answer_encoded(w.answers@[i], r.answers@[i]));
            lemma_ip_round_trip(r.answers@[i].address, d.answers@[i].address);
        }
    }
    assert(d.cname_chain@ =~= r.cname_chain@) by {
        assert forall|i: int| 0 <= i < r.cname_chain@.len() implies #[trigger] d.cname_chain@[i]
            == r.cname_chain@[i] by {
            assert(cname_decoded(d.cname_chain@[i], w.cname_chain@[i]));
            assert(cname_encoded(w.cname_chain@[i], r.cname_chain@[i]));
        }
    }
}

spec fn valid_ttl_of_answer(a: DnsAddressAnswer) -> bool {
    crate::event_model::valid_ttl(a.ttl_seconds)
}

proof fn lemma_payload_round_trip(p: EventPayload, w: wire::Payload, d: EventPayload)
    requires
        wf_payload(p),
        payload_encoded(w, p),
        payload_fault(w) is None ==> payload_decoded(d, w),
    ensures
        payload_fault(w) is None,
        same_payload(d, p),
{
    match p {
        EventPayload::ProcessExec(x) => {},
        EventPayload::Syscall(s) => {},
        EventPayload::NetworkConnect(n) => {
            let wn = w->NetworkConnect_0;
            if network_fault(wn) is None {
                lemma_network_round_trip(n, wn, d->NetworkConnect_0);
            } else {
                lemma_network_round_trip(n, wn, n);
            }
        },
        EventPayload::NetworkDnsQuery(q) => {
            let wq = w->NetworkDnsQuery_0;
            lemma_numbers_round_trip(q.direction, q.transport, q.query_type, DnsResponseCode::NoError);
            lemma_ip_round_trip(q.resolver_address, q.resolver_address);
            assert(dns_query_fault(wq) is None);
            lemma_ip_round_trip(q.resolver_address, d->NetworkDnsQuery_0.resolver_address);
        },
        EventPayload::NetworkDnsResponse(r) => {
            let wr = w->NetworkDnsResponse_0;
            if dns_response_fault(wr) is None {
                lemma_dns_response_round_trip(r, wr, d->NetworkDnsResponse_0);
            } else {
                lemma_dns_response_round_trip(r, wr, r);
            }
        },
    }
}

// ---------------------------------------------------------------------- law

/// Round trip: the wire form of a well-formed event decodes without fault, to
/// the very event that was encoded.
pub proof fn lemma_event_round_trip(e: RuntimeEvent, w: wire::RuntimeEvent, d: RuntimeEvent)
    requires
        wf_event(e),
        event_encoded(w, e),
        event_fault(w) is None ==> event_decoded(d, w),
    ensures
        event_fault(w) is None,
        same_event(d, e),
{
    lemma_timestamp_round_trip(e.observed_at);
    let wp = w.payload->0;
    if payload_fault(wp) is None {
        lemma_payload_round_trip(e.payload, wp, d.payload);
    } else {
        lemma_payload_round_trip(e.payload, wp, e.payload);
    }
    assert(event_fault(w) is None);
}

} // verus!
