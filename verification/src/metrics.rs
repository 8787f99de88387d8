//! Server operation counters and their text exposition.

use vstd::prelude::*;

use crate::text::{append, decimal};

verus! {

/// The server's operation counters. Totals grow, wrapping at `u64::MAX`; the
/// backfill pair holds the latest run's figures.
#[derive(Clone, Copy, Debug, Default, PartialEq, Eq)]
pub struct Metrics {
    pub grouping_count: u64,
    pub grouping_microseconds: u64,
    pub groups_created: u64,
    pub duplicate_events: u64,
    pub api_requests: u64,
    pub backfill_scanned: u64,
    pub backfill_grouped: u64,
    pub notification_materialized: u64,
    pub notification_suppressed: u64,
    pub notification_no_destinations: u64,
    pub notification_claims: u64,
    pub notification_attempts: u64,
    pub notification_retries: u64,
    pub notification_terminal_failures: u64,
    pub notification_duration_microseconds: u64,
    pub release_attributed: u64,
    pub release_absent: u64,
    pub release_unknown: u64,
    pub release_summary_updates: u64,
    pub release_diff_requests: u64,
}

/// Adds `n` to a total, wrapping as an atomic `fetch_add` does.
pub open spec fn bump(total: u64, n: u64) -> u64 {
    total.wrapping_add(n)
}

/// Counts one grouping operation, its duration, and whether it created a group.
pub fn record_grouping(metrics: &mut Metrics, elapsed_micros: u64, group_created: bool)
    ensures
        *final(metrics) == (Metrics {
            grouping_count: bump(old(metrics).grouping_count, 1),
            grouping_microseconds: bump(old(metrics).grouping_microseconds, elapsed_micros),
            groups_created: bump(old(metrics).groups_created, if group_created { 1 } else { 0 }),
            ..*old(metrics)
        }),
{
    metrics.grouping_count = metrics.grouping_count.wrapping_add(1);
    metrics.grouping_microseconds = metrics.grouping_microseconds.wrapping_add(elapsed_micros);
    metrics.groups_created = metrics.groups_created.wrapping_add(if group_created { 1 } else { 0 });
}

pub fn record_duplicate_event(metrics: &mut Metrics)
    ensures
        *final(metrics) == (Metrics {
            duplicate_events: bump(old(metrics).duplicate_events, 1),
            ..*old(metrics)
        }),
{
    metrics.duplicate_events = metrics.duplicate_events.wrapping_add(1);
}

pub fn record_api_request(metrics: &mut Metrics)
    ensures
        *final(metrics) == (Metrics { api_requests: bump(old(metrics).api_requests, 1), ..*old(metrics) }),
{
    metrics.api_requests = metrics.api_requests.wrapping_add(1);
}

/// Records the figures of the latest backfill run, replacing the previous ones.
pub fn record_backfill(metrics: &mut Metrics, scanned: u64, grouped: u64)
    ensures
        *final(metrics) == (Metrics {
            backfill_scanned: scanned,
            backfill_grouped: grouped,
            ..*old(metrics)
        }),
{
    metrics.backfill_scanned = scanned;
    metrics.backfill_grouped = grouped;
}

pub fn record_notification_materialization(
    metrics: &mut Metrics,
    deliveries: u64,
    suppressed: u64,
    no_destinations: u64,
)
    ensures
        *final(metrics) == (Metrics {
            notification_materialized: bump(old(metrics).notification_materialized, deliveries),
            notification_suppressed: bump(old(metrics).notification_suppressed, suppressed),
            notification_no_destinations: bump(
                old(metrics).notification_no_destinations,
                no_destinations,
            ),
            ..*old(metrics)
        }),
{
    metrics.notification_materialized = metrics.notification_materialized.wrapping_add(deliveries);
    metrics.notification_suppressed = metrics.notification_suppressed.wrapping_add(suppressed);
    metrics.notification_no_destinations = metrics.notification_no_destinations.wrapping_add(
        no_destinations,
    );
}

pub fn record_notification_claims(metrics: &mut Metrics, count: usize)
    ensures
        *final(metrics) == (Metrics {
            notification_claims: bump(old(metrics).notification_claims, count as u64),
            ..*old(metrics)
        }),
{
    metrics.notification_claims = metrics.notification_claims.wrapping_add(count as u64);
}

/// Counts one delivery attempt, its duration, and whether it is retried or
/// failed for good.
pub fn record_notification_attempt(
    metrics: &mut Metrics,
    duration_micros: u64,
    retry: bool,
    terminal_failure: bool,
)
    ensures
        *final(metrics) == (Metrics {
            notification_attempts: bump(old(metrics).notification_attempts, 1),
            notification_duration_microseconds: bump(
                old(metrics).notification_duration_microseconds,
                duration_micros,
            ),
            notification_retries: bump(old(metrics).notification_retries, if retry { 1 } else { 0 }),
            notification_terminal_failures: bump(
                old(metrics).notification_terminal_failures,
                if terminal_failure { 1 } else { 0 },
            ),
            ..*old(metrics)
        }),
{
    metrics.notification_attempts = metrics.notification_attempts.wrapping_add(1);
    metrics.notification_duration_microseconds = metrics.notification_duration_microseconds.wrapping_add(
        duration_micros,
    );
    metrics.notification_retries = metrics.notification_retries.wrapping_add(if retry { 1 } else { 0 });
    metrics.notification_terminal_failures = metrics.notification_terminal_failures.wrapping_add(
        if terminal_failure { 1 } else { 0 },
    );
}

/// Counts how an event's release was attributed: resolved, given but unknown,
/// or absent.
pub fn record_release_attribution(metrics: &mut Metrics, provided: bool, resolved: bool)
    ensures
        resolved ==> *final(metrics) == (Metrics {
            release_attributed: bump(old(metrics).release_attributed, 1),
            ..*old(metrics)
        }),
        !resolved && provided ==> *final(metrics) == (Metrics {
            release_unknown: bump(old(metrics).release_unknown, 1),
            ..*old(metrics)
        }),
        !resolved && !provided ==> *final(metrics) == (Metrics {
            release_absent: bump(old(metrics).release_absent, 1),
            ..*old(metrics)
        }),
{
    if resolved {
        metrics.release_attributed = metrics.release_attributed.wrapping_add(1);
    } else if provided {
        metrics.release_unknown = metrics.release_unknown.wrapping_add(1);
    } else {
        metrics.release_absent = metrics.release_absent.wrapping_add(1);
    }
}

pub fn record_release_summary(metrics: &mut Metrics)
    ensures
        *final(metrics) == (Metrics {
            release_summary_updates: bump(old(metrics).release_summary_updates, 1),
            ..*old(metrics)
        }),
{
    metrics.release_summary_updates = metrics.release_summary_updates.wrapping_add(1);
}

pub fn record_release_diff(metrics: &mut Metrics)
    ensures
        *final(metrics) == (Metrics {
            release_diff_requests: bump(old(metrics).release_diff_requests, 1),
            ..*old(metrics)
        }),
{
    metrics.release_diff_requests = metrics.release_diff_requests.wrapping_add(1);
}

/// Queue depths counted in the database when the metrics are read.
#[derive(Clone, Copy, Debug, Default, PartialEq, Eq)]
pub struct DatabaseDepths {
    pub outbox_pending: i64,
    pub pending_deliveries: i64,
    pub in_flight_deliveries: i64,
    pub expired_leases: i64,
    pub release_summaries: i64,
}

/// A database count as exposed: a negative count reads as zero.
pub open spec fn depth_of(count: i64) -> u64 {
    if count < 0 {
        0
    } else {
        count as u64
    }
}

fn depth(count: i64) -> (r: u64)
    ensures
        r == depth_of(count),
{
    if count < 0 {
        0
    } else {
        count as u64
    }
}

/// The exposition of one metric: its type line and its value line.
pub open spec fn metric_text(name: Seq<char>, value: u64) -> Seq<char> {
    "# TYPE "@ + name + " gauge\n"@ + name + " "@ + decimal(value as nat) + "\n"@
}

/// The exposition of a list of metrics, in order.
pub open spec fn metrics_text(list: Seq<(Seq<char>, u64)>) -> Seq<char>
    decreases list.len(),
{
    if list.len() == 0 {
        Seq::empty()
    } else {
        metrics_text(list.drop_last()) + metric_text(list.last().0, list.last().1)
    }
}

/// Every metric the server exposes, by name, in exposition order.
pub open spec fn metric_list(m: Metrics, db: DatabaseDepths) -> Seq<(Seq<char>, u64)> {
    seq![
        ("okoscope_grouping_operations_total"@, m.grouping_count),
        ("okoscope_grouping_duration_microseconds_total"@, m.grouping_microseconds),
        ("okoscope_runtime_groups_created_total"@, m.groups_created),
        ("okoscope_ingestion_duplicate_events_total"@, m.duplicate_events),
        ("okoscope_api_requests_total"@, m.api_requests),
        ("okoscope_backfill_scanned"@, m.backfill_scanned),
        ("okoscope_backfill_grouped"@, m.backfill_grouped),
        ("okoscope_outbox_pending"@, depth_of(db.outbox_pending)),
        ("okoscope_notification_materialized_total"@, m.notification_materialized),
        ("okoscope_notification_suppressed_total"@, m.notification_suppressed),
        ("okoscope_notification_no_destinations_total"@, m.notification_no_destinations),
        ("okoscope_notification_claims_total"@, m.notification_claims),
        ("okoscope_notification_attempts_total"@, m.notification_attempts),
        ("okoscope_notification_retries_total"@, m.notification_retries),
        ("okoscope_notification_terminal_failures_total"@, m.notification_terminal_failures),
        ("okoscope_notification_duration_microseconds_total"@, m.notification_duration_microseconds),
        ("okoscope_notification_pending"@, depth_of(db.pending_deliveries)),
        ("okoscope_notification_in_flight"@, depth_of(db.in_flight_deliveries)),
        ("okoscope_notification_expired_leases"@, depth_of(db.expired_leases)),
        ("okoscope_release_attributed_total"@, m.release_attributed),
        ("okoscope_release_absent_total"@, m.release_absent),
        ("okoscope_release_unknown_total"@, m.release_unknown),
        ("okoscope_release_summary_updates_total"@, m.release_summary_updates),
        ("okoscope_release_summaries"@, depth_of(db.release_summaries)),
        ("okoscope_release_diff_requests_total"@, m.release_diff_requests)
    ]
}

fn append_metric(body: &mut String, name: &str, value: u64)
    ensures
        final(body)@ == old(body)@ + metric_text(name@, value),
{
    proof {
        reveal_strlit("# TYPE ");
        reveal_strlit(" gauge\n");
        reveal_strlit(" ");
        reveal_strlit("\n");
    }
    append(body, "# TYPE ");
    append(body, name);
    append(body, " gauge\n");
    append(body, name);
    append(body, " ");
    let digits = crate::text::u64_text(value);
    append(body, digits.as_str());
    append(body, "\n");
    assert(body@ =~= old(body)@ + metric_text(name@, value));
}

/// The text exposition of the counters and database depths: for each metric a
/// `# TYPE <name> gauge` line and a `<name> <value>` line.
pub fn exposition(metrics: &Metrics, depths: &DatabaseDepths) -> (body: String)
    ensures
        body@ == metrics_text(metric_list(*metrics, *depths)),
{
    let mut list: Vec<(&'static str, u64)> = Vec::new();
    list.push(("okoscope_grouping_operations_total", metrics.grouping_count));
    list.push(("okoscope_grouping_duration_microseconds_total", metrics.grouping_microseconds));
    list.push(("okoscope_runtime_groups_created_total", metrics.groups_created));
    list.push(("okoscope_ingestion_duplicate_events_total", metrics.duplicate_events));
    list.push(("okoscope_api_requests_total", metrics.api_requests));
    list.push(("okoscope_backfill_scanned", metrics.backfill_scanned));
    list.push(("okoscope_backfill_grouped", metrics.backfill_grouped));
    list.push(("okoscope_outbox_pending", depth(depths.outbox_pending)));
    list.push(("okoscope_notification_materialized_total", metrics.notification_materialized));
    list.push(("okoscope_notification_suppressed_total", metrics.notification_suppressed));
    list.push(("okoscope_notification_no_destinations_total", metrics.notification_no_destinations));
    list.push(("okoscope_notification_claims_total", metrics.notification_claims));
    list.push(("okoscope_notification_attempts_total", metrics.notification_attempts));
    list.push(("okoscope_notification_retries_total", metrics.notification_retries));
    list.push(("okoscope_notification_terminal_failures_total", metrics.notification_terminal_failures));
    list.push(("okoscope_notification_duration_microseconds_total", metrics.notification_duration_microseconds));
    list.push(("okoscope_notification_pending", depth(depths.pending_deliveries)));
    list.push(("okoscope_notification_in_flight", depth(depths.in_flight_deliveries)));
    list.push(("okoscope_notification_expired_leases", depth(depths.expired_leases)));
    list.push(("okoscope_release_attributed_total", metrics.release_attributed));
    list.push(("okoscope_release_absent_total", metrics.release_absent));
    list.push(("okoscope_release_unknown_total", metrics.release_unknown));
    list.push(("okoscope_release_summary_updates_total", metrics.release_summary_updates));
    list.push(("okoscope_release_summaries", depth(depths.release_summaries)));
    list.push(("okoscope_release_diff_requests_total", metrics.release_diff_requests));
    let ghost spec_list = metric_list(*metrics, *depths);
    assert(list@.len() == spec_list.len());
    assert forall|k: int| 0 <= k < spec_list.len() implies (#[trigger] spec_list[k]).0 == list@[k].0@
        && spec_list[k].1 == list@[k].1 by {}
    let mut body = String::new();
    let mut i: usize = 0;
    while i < list.len()
        invariant
            i <= list@.len(),
            list@.len() == spec_list.len(),
            forall|k: int| 0 <= k < spec_list.len() ==> (#[trigger] spec_list[k]).0 == list@[k].0@
                && spec_list[k].1 == list@[k].1,
            body@ == metrics_text(spec_list.take(i as int)),
        decreases list@.len() - i,
    {
        let (name, value) = list[i];
        append_metric(&mut body, name, value);
        proof {
            assert(spec_list.take(i as int + 1).drop_last() =~= spec_list.take(i as int));
            assert(spec_list[i as int].0 == name@);
        }
        i = i + 1;
    }
    proof {
        assert(spec_list.take(i as int) =~= spec_list);
    }
    body
}

} // verus!
