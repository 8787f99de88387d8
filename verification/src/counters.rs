//! Drop and delivery counters of the agent, and their point-in-time snapshot.

use vstd::prelude::*;

verus! {

/// The agent's running counters. Each one counts events dropped or handled
/// for one reason; they only grow, wrapping at `u64::MAX`.
#[derive(Clone, Copy, Debug, Default, PartialEq, Eq)]
pub struct Counters {
    pub filtered: u64,
    pub unattributed: u64,
    pub unsupported: u64,
    pub decode_failed: u64,
    pub capacity_dropped: u64,
    pub kernel_lost: u64,
    pub connect_correlation_capacity: u64,
    pub connect_correlation_miss: u64,
    pub connect_decode_failed: u64,
    pub connect_unsupported_family: u64,
    pub connect_kernel_lost: u64,
    pub dns_packet_decode_failed: u64,
    pub dns_malformed_compression: u64,
    pub dns_truncated: u64,
    pub dns_unsupported_record: u64,
    pub dns_correlation_miss: u64,
    pub dns_correlation_capacity: u64,
    pub dns_tcp_reassembly: u64,
    pub dns_rate_limited: u64,
    pub dns_capacity: u64,
    pub dns_kernel_lost: u64,
    pub dns_kernel_unsupported_framing: u64,
    pub dns_attribution_failed: u64,
    pub dns_oversize: u64,
    pub inbound_decode_failed: u64,
    pub inbound_attribution_failed: u64,
    pub inbound_unsupported_family: u64,
    pub inbound_kernel_lost: u64,
    pub inbound_rate_limited: u64,
    pub inbound_correlation_miss: u64,
    pub file_correlation_capacity: u64,
    pub file_correlation_miss: u64,
    pub file_path_read_failed: u64,
    pub file_path_relative: u64,
    pub file_path_invalid: u64,
    pub file_path_oversize: u64,
    pub file_fd_miss: u64,
    pub file_filtered: u64,
    pub file_kernel_lost: u64,
    pub file_aggregation_capacity: u64,
    pub file_decode_failed: u64,
    pub file_attribution_failed: u64,
    pub file_rate_limited: u64,
    pub file_unsupported_object: u64,
    pub sent: u64,
    pub retried: u64,
    pub acknowledged: u64,
}

/// The value of every counter at one moment.
#[derive(Clone, Copy, Debug, Default, PartialEq, Eq)]
pub struct CounterSnapshot {
    pub filtered: u64,
    pub unattributed: u64,
    pub unsupported: u64,
    pub decode_failed: u64,
    pub capacity_dropped: u64,
    pub kernel_lost: u64,
    pub connect_correlation_capacity: u64,
    pub connect_correlation_miss: u64,
    pub connect_decode_failed: u64,
    pub connect_unsupported_family: u64,
    pub connect_kernel_lost: u64,
    pub dns_packet_decode_failed: u64,
    pub dns_malformed_compression: u64,
    pub dns_truncated: u64,
    pub dns_unsupported_record: u64,
    pub dns_correlation_miss: u64,
    pub dns_correlation_capacity: u64,
    pub dns_tcp_reassembly: u64,
    pub dns_rate_limited: u64,
    pub dns_capacity: u64,
    pub dns_kernel_lost: u64,
    pub dns_kernel_unsupported_framing: u64,
    pub dns_attribution_failed: u64,
    pub dns_oversize: u64,
    pub inbound_decode_failed: u64,
    pub inbound_attribution_failed: u64,
    pub inbound_unsupported_family: u64,
    pub inbound_kernel_lost: u64,
    pub inbound_rate_limited: u64,
    pub inbound_correlation_miss: u64,
    pub file_correlation_capacity: u64,
    pub file_correlation_miss: u64,
    pub file_path_read_failed: u64,
    pub file_path_relative: u64,
    pub file_path_invalid: u64,
    pub file_path_oversize: u64,
    pub file_fd_miss: u64,
    pub file_filtered: u64,
    pub file_kernel_lost: u64,
    pub file_aggregation_capacity: u64,
    pub file_decode_failed: u64,
    pub file_attribution_failed: u64,
    pub file_rate_limited: u64,
    pub file_unsupported_object: u64,
    pub sent: u64,
    pub retried: u64,
    pub acknowledged: u64,
}

/// The kernel's own connect counters, read from its per-CPU array.
#[derive(Clone, Copy, Debug, Default, PartialEq, Eq)]
pub struct NetworkKernelCounters {
    pub correlation_capacity: u64,
    pub correlation_miss: u64,
    pub decode_failed: u64,
    pub unsupported_family: u64,
    pub kernel_lost: u64,
}

/// The kernel's own DNS capture counters.
#[derive(Clone, Copy, Debug, Default, PartialEq, Eq)]
pub struct DnsKernelCounters {
    pub unsupported_framing: u64,
    pub attribution_failed: u64,
    pub decode_failed: u64,
    pub oversize: u64,
    pub ring_lost: u64,
}

/// The snapshot of the given counters.
pub open spec fn snapshot_of(c: Counters) -> CounterSnapshot {
    CounterSnapshot {
            filtered: c.filtered,
            unattributed: c.unattributed,
            unsupported: c.unsupported,
            decode_failed: c.decode_failed,
            capacity_dropped: c.capacity_dropped,
            kernel_lost: c.kernel_lost,
            connect_correlation_capacity: c.connect_correlation_capacity,
            connect_correlation_miss: c.connect_correlation_miss,
            connect_decode_failed: c.connect_decode_failed,
            connect_unsupported_family: c.connect_unsupported_family,
            connect_kernel_lost: c.connect_kernel_lost,
            dns_packet_decode_failed: c.dns_packet_decode_failed,
            dns_malformed_compression: c.dns_malformed_compression,
            dns_truncated: c.dns_truncated,
            dns_unsupported_record: c.dns_unsupported_record,
            dns_correlation_miss: c.dns_correlation_miss,
            dns_correlation_capacity: c.dns_correlation_capacity,
            dns_tcp_reassembly: c.dns_tcp_reassembly,
            dns_rate_limited: c.dns_rate_limited,
            dns_capacity: c.dns_capacity,
            dns_kernel_lost: c.dns_kernel_lost,
            dns_kernel_unsupported_framing: c.dns_kernel_unsupported_framing,
            dns_attribution_failed: c.dns_attribution_failed,
            dns_oversize: c.dns_oversize,
            inbound_decode_failed: c.inbound_decode_failed,
            inbound_attribution_failed: c.inbound_attribution_failed,
            inbound_unsupported_family: c.inbound_unsupported_family,
            inbound_kernel_lost: c.inbound_kernel_lost,
            inbound_rate_limited: c.inbound_rate_limited,
            inbound_correlation_miss: c.inbound_correlation_miss,
            file_correlation_capacity: c.file_correlation_capacity,
            file_correlation_miss: c.file_correlation_miss,
            file_path_read_failed: c.file_path_read_failed,
            file_path_relative: c.file_path_relative,
            file_path_invalid: c.file_path_invalid,
            file_path_oversize: c.file_path_oversize,
            file_fd_miss: c.file_fd_miss,
            file_filtered: c.file_filtered,
            file_kernel_lost: c.file_kernel_lost,
            file_aggregation_capacity: c.file_aggregation_capacity,
            file_decode_failed: c.file_decode_failed,
            file_attribution_failed: c.file_attribution_failed,
            file_rate_limited: c.file_rate_limited,
            file_unsupported_object: c.file_unsupported_object,
            sent: c.sent,
            retried: c.retried,
            acknowledged: c.acknowledged,
    }
}

impl Counters {
    /// Takes over the kernel's DNS counters, which the kernel keeps cumulative.
    pub fn update_dns_kernel(&mut self, value: DnsKernelCounters)
        ensures
            *final(self) == (Counters {
                dns_packet_decode_failed: value.decode_failed,
                dns_kernel_unsupported_framing: value.unsupported_framing,
                dns_oversize: value.oversize,
                dns_kernel_lost: value.ring_lost,
                dns_attribution_failed: value.attribution_failed,
                ..*old(self)
            }),
    {
        self.dns_packet_decode_failed = value.decode_failed;
        self.dns_kernel_unsupported_framing = value.unsupported_framing;
        self.dns_oversize = value.oversize;
        self.dns_kernel_lost = value.ring_lost;
        self.dns_attribution_failed = value.attribution_failed;
    }

    /// Takes over the kernel's connect counters, which the kernel keeps cumulative.
    pub fn update_network_kernel(&mut self, value: NetworkKernelCounters)
        ensures
            *final(self) == (Counters {
                connect_correlation_capacity: value.correlation_capacity,
                connect_correlation_miss: value.correlation_miss,
                connect_decode_failed: value.decode_failed,
                connect_unsupported_family: value.unsupported_family,
                connect_kernel_lost: value.kernel_lost,
                ..*old(self)
            }),
    {
        self.connect_correlation_capacity = value.correlation_capacity;
        self.connect_correlation_miss = value.correlation_miss;
        self.connect_decode_failed = value.decode_failed;
        self.connect_unsupported_family = value.unsupported_family;
        self.connect_kernel_lost = value.kernel_lost;
    }

    /// The value of every counter now.
    pub fn snapshot(&self) -> (r: CounterSnapshot)
        ensures
            r == snapshot_of(*self),
    {
        CounterSnapshot {
            filtered: self.filtered,
            unattributed: self.unattributed,
            unsupported: self.unsupported,
            decode_failed: self.decode_failed,
            capacity_dropped: self.capacity_dropped,
            kernel_lost: self.kernel_lost,
            connect_correlation_capacity: self.connect_correlation_capacity,
            connect_correlation_miss: self.connect_correlation_miss,
            connect_decode_failed: self.connect_decode_failed,
            connect_unsupported_family: self.connect_unsupported_family,
            connect_kernel_lost: self.connect_kernel_lost,
            dns_packet_decode_failed: self.dns_packet_decode_failed,
            dns_malformed_compression: self.dns_malformed_compression,
            dns_truncated: self.dns_truncated,
            dns_unsupported_record: self.dns_unsupported_record,
            dns_correlation_miss: self.dns_correlation_miss,
            dns_correlation_capacity: self.dns_correlation_capacity,
            dns_tcp_reassembly: self.dns_tcp_reassembly,
            dns_rate_limited: self.dns_rate_limited,
            dns_capacity: self.dns_capacity,
            dns_kernel_lost: self.dns_kernel_lost,
            dns_kernel_unsupported_framing: self.dns_kernel_unsupported_framing,
            dns_attribution_failed: self.dns_attribution_failed,
            dns_oversize: self.dns_oversize,
            inbound_decode_failed: self.inbound_decode_failed,
            inbound_attribution_failed: self.inbound_attribution_failed,
            inbound_unsupported_family: self.inbound_unsupported_family,
            inbound_kernel_lost: self.inbound_kernel_lost,
            inbound_rate_limited: self.inbound_rate_limited,
            inbound_correlation_miss: self.inbound_correlation_miss,
            file_correlation_capacity: self.file_correlation_capacity,
            file_correlation_miss: self.file_correlation_miss,
            file_path_read_failed: self.file_path_read_failed,
            file_path_relative: self.file_path_relative,
            file_path_invalid: self.file_path_invalid,
            file_path_oversize: self.file_path_oversize,
            file_fd_miss: self.file_fd_miss,
            file_filtered: self.file_filtered,
            file_kernel_lost: self.file_kernel_lost,
            file_aggregation_capacity: self.file_aggregation_capacity,
            file_decode_failed: self.file_decode_failed,
            file_attribution_failed: self.file_attribution_failed,
            file_rate_limited: self.file_rate_limited,
            file_unsupported_object: self.file_unsupported_object,
            sent: self.sent,
            retried: self.retried,
            acknowledged: self.acknowledged,
        }
    }
}

/// The sum of a counter's per-CPU values.
pub open spec fn cpu_total(values: Seq<u64>) -> int
    decreases values.len(),
{
    if values.len() == 0 {
        0
    } else {
        cpu_total(values.drop_last()) + values.last()
    }
}

proof fn lemma_cpu_total_prefix(values: Seq<u64>, i: int)
    requires
        0 <= i < values.len(),
    ensures
        cpu_total(values.take(i + 1)) == cpu_total(values.take(i)) + values[i],
{
    assert(values.take(i + 1).drop_last() =~= values.take(i));
}

proof fn lemma_cpu_total_monotonic(values: Seq<u64>, i: int)
    requires
        0 <= i <= values.len(),
    ensures
        cpu_total(values.take(i)) <= cpu_total(values),
    decreases values.len() - i,
{
    if i < values.len() {
        lemma_cpu_total_prefix(values, i);
        lemma_cpu_total_monotonic(values, i + 1);
    } else {
        assert(values.take(i) =~= values);
    }
}

/// The total of a per-CPU counter, which must fit in 64 bits.
pub fn per_cpu_total(values: &Vec<u64>) -> (r: u64)
    requires
        cpu_total(values@) <= u64::MAX,
    ensures
        r == cpu_total(values@),
{
    let mut total: u64 = 0;
    let mut i: usize = 0;
    assert(values@.take(0) =~= Seq::<u64>::empty());
    while i < values.len()
        invariant
            i <= values@.len(),
            cpu_total(values@) <= u64::MAX,
            total == cpu_total(values@.take(i as int)),
        decreases values@.len() - i,
    {
        proof {
            lemma_cpu_total_prefix(values@, i as int);
            lemma_cpu_total_monotonic(values@, i as int + 1);
        }
        total = total + values[i];
        i = i + 1;
    }
    assert(values@.take(i as int) =~= values@);
    total
}

/// Per-CPU values of every counter fit their totals in 64 bits.
pub open spec fn totals_fit(per_counter: Seq<Vec<u64>>) -> bool {
    forall|i: int| 0 <= i < per_counter.len() ==> cpu_total((#[trigger] per_counter[i])@) <= u64::MAX
}

/// The kernel's network counters, from the per-CPU values of each of them
/// in counter order: correlation capacity, correlation miss, decode failure,
/// unsupported family, lost records.
pub fn network_counters(per_counter: &Vec<Vec<u64>>) -> (r: NetworkKernelCounters)
    requires
        per_counter@.len() == 5,
        totals_fit(per_counter@),
    ensures
        r.correlation_capacity == cpu_total(per_counter@[0]@),
        r.correlation_miss == cpu_total(per_counter@[1]@),
        r.decode_failed == cpu_total(per_counter@[2]@),
        r.unsupported_family == cpu_total(per_counter@[3]@),
        r.kernel_lost == cpu_total(per_counter@[4]@),
{
    proof {
        assert(cpu_total(per_counter@[0]@) <= u64::MAX);
        assert(cpu_total(per_counter@[1]@) <= u64::MAX);
        assert(cpu_total(per_counter@[2]@) <= u64::MAX);
        assert(cpu_total(per_counter@[3]@) <= u64::MAX);
        assert(cpu_total(per_counter@[4]@) <= u64::MAX);
    }
    NetworkKernelCounters {
        correlation_capacity: per_cpu_total(&per_counter[0]),
        correlation_miss: per_cpu_total(&per_counter[1]),
        decode_failed: per_cpu_total(&per_counter[2]),
        unsupported_family: per_cpu_total(&per_counter[3]),
        kernel_lost: per_cpu_total(&per_counter[4]),
    }
}

/// The kernel's DNS capture counters, from the per-CPU values of each of
/// them in counter order: unsupported framing, attribution failure, decode
/// failure, oversize, lost records.
pub fn dns_kernel_counters(per_counter: &Vec<Vec<u64>>) -> (r: DnsKernelCounters)
    requires
        per_counter@.len() == 5,
        totals_fit(per_counter@),
    ensures
        r.unsupported_framing == cpu_total(per_counter@[0]@),
        r.attribution_failed == cpu_total(per_counter@[1]@),
        r.decode_failed == cpu_total(per_counter@[2]@),
        r.oversize == cpu_total(per_counter@[3]@),
        r.ring_lost == cpu_total(per_counter@[4]@),
{
    proof {
        assert(cpu_total(per_counter@[0]@) <= u64::MAX);
        assert(cpu_total(per_counter@[1]@) <= u64::MAX);
        assert(cpu_total(per_counter@[2]@) <= u64::MAX);
        assert(cpu_total(per_counter@[3]@) <= u64::MAX);
        assert(cpu_total(per_counter@[4]@) <= u64::MAX);
    }
    DnsKernelCounters {
        unsupported_framing: per_cpu_total(&per_counter[0]),
        attribution_failed: per_cpu_total(&per_counter[1]),
        decode_failed: per_cpu_total(&per_counter[2]),
        oversize: per_cpu_total(&per_counter[3]),
        ring_lost: per_cpu_total(&per_counter[4]),
    }
}

} // verus!
