//! Webhook notification delivery: how an attempt is classified, when it is
//! retried and after how long, and the figures the workers report.

use std::time::Duration;

use vstd::prelude::*;

verus! {

/// Counts of one materialization pass over the outbox.
#[derive(Clone, Copy, Debug, Default, PartialEq, Eq)]
pub struct MaterializeStats {
    pub outbox_messages: u64,
    pub deliveries: u64,
    pub suppressed: u64,
    pub no_destinations: u64,
}

/// Settings of the retention sweep.
#[derive(Clone, Copy, Debug, PartialEq, Eq)]
pub struct RetentionConfig {
    pub enabled: bool,
    pub terminal_window: Duration,
    pub recovery_window: Duration,
    pub batch_size: i64,
    pub poll_interval: Duration,
}

/// Counts of one retention sweep.
#[derive(Clone, Copy, Debug, Default, PartialEq, Eq)]
pub struct RetentionStats {
    pub recovery_operations_deleted: u64,
    pub terminal_deliveries_deleted: u64,
    pub duration_micros: u64,
}

/// What an attempt means for its delivery.
#[derive(Clone, Copy, Debug, PartialEq, Eq)]
pub enum AttemptDisposition {
    Succeeded,
    Retryable,
    Failed,
}

/// A webhook's answer.
#[derive(Clone, Debug, PartialEq, Eq)]
pub struct WebhookResponse {
    pub status: u16,
    pub response_excerpt: String,
    pub retry_after_secs: Option<u64>,
    pub duration_micros: u64,
}

/// Why a webhook could not be called or answered.
#[derive(Clone, Copy, Debug, PartialEq, Eq)]
pub enum WebhookError {
    Timeout,
    Request,
    Resolution,
    Response,
    UnsafeAddress,
    InvalidUrl,
    Client,
    Serialization,
    SigningKey,
}

/// The outcome of one delivery attempt, as recorded.
#[derive(Clone, Debug, PartialEq, Eq)]
pub struct AttemptResult {
    pub disposition: AttemptDisposition,
    pub http_status: Option<u16>,
    pub error_class: Option<&'static str>,
    pub response_excerpt: Option<String>,
    pub retry_after_secs: Option<u64>,
    pub duration_micros: u64,
}

/// A status worth retrying: a server error, or 408, 425 or 429.
pub open spec fn status_retryable(status: u16) -> bool {
    (500 <= status <= 599) || status == 408 || status == 425 || status == 429
}

pub fn retryable_status(status: u16) -> (r: bool)
    ensures
        r == status_retryable(status),
{
    (500 <= status && status <= 599) || status == 408 || status == 425 || status == 429
}

/// Every server error is worth retrying, as are a request timeout (408),
/// too early (425) and too many requests (429); any other client error
/// (4xx) is final.
pub proof fn lemma_server_errors_are_retried(status: u16)
    ensures
        500 <= status <= 599 ==> status_retryable(status),
        400 <= status <= 499 ==> (status_retryable(status) <==> (status == 408 || status == 425
            || status == 429)),
        status < 400 ==> !status_retryable(status),
{
}

/// The disposition and error class of a failure to call a webhook.
pub open spec fn error_class_of(error: WebhookError) -> (AttemptDisposition, Seq<char>) {
    match error {
        WebhookError::Timeout => (AttemptDisposition::Retryable, "timeout"@),
        WebhookError::Request | WebhookError::Resolution | WebhookError::Response => (
            AttemptDisposition::Retryable,
            "network"@,
        ),
        WebhookError::UnsafeAddress | WebhookError::InvalidUrl => (
            AttemptDisposition::Failed,
            "unsafe_target"@,
        ),
        WebhookError::Client => (AttemptDisposition::Retryable, "client"@),
        WebhookError::Serialization | WebhookError::SigningKey => (
            AttemptDisposition::Failed,
            "invalid_payload"@,
        ),
    }
}

impl AttemptResult {
    /// A failed attempt of the given class.
    pub fn failed(class: &'static str, duration_micros: u64) -> (r: Self)
        ensures
            r == (AttemptResult {
                disposition: AttemptDisposition::Failed,
                http_status: None,
                error_class: Some(class),
                response_excerpt: None,
                retry_after_secs: None,
                duration_micros,
            }),
    {
        AttemptResult {
            disposition: AttemptDisposition::Failed,
            http_status: None,
            error_class: Some(class),
            response_excerpt: None,
            retry_after_secs: None,
            duration_micros,
        }
    }
}

/// Classifies a webhook call: a 2xx answer succeeds; another answer is retried
/// when its status is retryable and fails otherwise; a call that got no
/// answer is classified by its error.
pub fn classify(result: Result<WebhookResponse, WebhookError>, elapsed_micros: u64) -> (r:
    AttemptResult)
    ensures
        result is Ok && 200 <= result->Ok_0.status <= 299 ==> r == (AttemptResult {
            disposition: AttemptDisposition::Succeeded,
            http_status: Some(result->Ok_0.status),
            error_class: None,
            response_excerpt: Some(result->Ok_0.response_excerpt),
            retry_after_secs: None,
            duration_micros: result->Ok_0.duration_micros,
        }),
        result is Ok && !(200 <= result->Ok_0.status <= 299) ==> {
            &&& r.disposition == (if status_retryable(result->Ok_0.status) {
                AttemptDisposition::Retryable
            } else {
                AttemptDisposition::Failed
            })
            &&& r.http_status == Some(result->Ok_0.status)
            &&& r.error_class matches Some(c) && c@ == (if status_retryable(result->Ok_0.status) {
                "http_retryable"@
            } else {
                "http_rejected"@
            })
            &&& r.response_excerpt == Some(result->Ok_0.response_excerpt)
            &&& r.retry_after_secs == result->Ok_0.retry_after_secs
            &&& r.duration_micros == result->Ok_0.duration_micros
        },
        result is Err ==> {
            &&& r.disposition == error_class_of(result->Err_0).0
            &&& r.http_status is None
            &&& r.error_class matches Some(c) && c@ == error_class_of(result->Err_0).1
            &&& r.response_excerpt is None
            &&& r.retry_after_secs is None
            &&& r.duration_micros == elapsed_micros
        },
{
    match result {
        Ok(response) => {
            if 200 <= response.status && response.status <= 299 {
                AttemptResult {
                    disposition: AttemptDisposition::Succeeded,
                    http_status: Some(response.status),
                    error_class: None,
                    response_excerpt: Some(response.response_excerpt),
                    retry_after_secs: None,
                    duration_micros: response.duration_micros,
                }
            } else {
                let retryable = retryable_status(response.status);
                AttemptResult {
                    disposition: if retryable {
                        AttemptDisposition::Retryable
                    } else {
                        AttemptDisposition::Failed
                    },
                    http_status: Some(response.status),
                    error_class: Some(
                        if retryable {
                            "http_retryable"
                        } else {
                            "http_rejected"
                        },
                    ),
                    response_excerpt: Some(response.response_excerpt),
                    retry_after_secs: response.retry_after_secs,
                    duration_micros: response.duration_micros,
                }
            }
        },
        Err(error) => {
            let (disposition, class) = match error {
                WebhookError::Timeout => (AttemptDisposition::Retryable, "timeout"),
                WebhookError::Request | WebhookError::Resolution | WebhookError::Response => (
                    AttemptDisposition::Retryable,
                    "network",
                ),
                WebhookError::UnsafeAddress | WebhookError::InvalidUrl => (
                    AttemptDisposition::Failed,
                    "unsafe_target",
                ),
                WebhookError::Client => (AttemptDisposition::Retryable, "client"),
                WebhookError::Serialization | WebhookError::SigningKey => (
                    AttemptDisposition::Failed,
                    "invalid_payload",
                ),
            };
            AttemptResult {
                disposition,
                http_status: None,
                error_class: Some(class),
                response_excerpt: None,
                retry_after_secs: None,
                duration_micros: elapsed_micros,
            }
        },
    }
}

/// The attempt number an attempt is recorded under, and its final
/// disposition: a retryable attempt that used up the allowed attempts fails.
pub open spec fn settled_attempt(
    disposition: AttemptDisposition,
    attempt_count: i32,
    max_attempts: i32,
) -> (i32, AttemptDisposition) {
    let attempt_number: i32 = if attempt_count < i32::MAX {
        (attempt_count + 1) as i32
    } else {
        i32::MAX
    };
    (
        attempt_number,
        if disposition == AttemptDisposition::Retryable && attempt_number >= max_attempts {
            AttemptDisposition::Failed
        } else {
            disposition
        },
    )
}

pub fn settle_attempt(disposition: AttemptDisposition, attempt_count: i32, max_attempts: i32) -> (r:
    (i32, AttemptDisposition))
    ensures
        r == settled_attempt(disposition, attempt_count, max_attempts),
{
    let attempt_number: i32 = if attempt_count < i32::MAX {
        attempt_count + 1
    } else {
        i32::MAX
    };
    let exhausted = attempt_number >= max_attempts;
    let retryable = match disposition {
        AttemptDisposition::Retryable => true,
        _ => false,
    };
    (attempt_number, if retryable && exhausted {
        AttemptDisposition::Failed
    } else {
        disposition
    })
}

/// The exponent of the backoff for an attempt: one less than its number, at
/// most 31 (and 31 when the number is below one).
pub open spec fn backoff_exponent(attempt_number: i32) -> nat {
    let previous: int = if attempt_number > i32::MIN {
        attempt_number - 1
    } else {
        i32::MIN as int
    };
    if previous < 0 || previous > 31 {
        31
    } else {
        previous as nat
    }
}

/// The backoff before jitter: the minimum doubled per earlier attempt
/// (saturating), capped by the maximum.
pub open spec fn backoff_base(min_secs: u64, max_secs: u64, attempt_number: i32) -> u64 {
    let product = min_secs * vstd::arithmetic::power2::pow2(backoff_exponent(attempt_number));
    let saturated: u64 = if product > u64::MAX {
        u64::MAX
    } else {
        product as u64
    };
    if saturated < max_secs {
        saturated
    } else {
        max_secs
    }
}

/// The delay before a retry: the webhook's `Retry-After` bounded by the
/// minimum and maximum when it gave one; otherwise the backoff plus the
/// jitter, capped by the maximum.
pub open spec fn retry_delay_of(
    min_secs: u64,
    max_secs: u64,
    attempt_number: i32,
    retry_after_secs: Option<u64>,
    jitter: u64,
) -> u64 {
    match retry_after_secs {
        Some(ra) => {
            let capped = if ra < max_secs {
                ra
            } else {
                max_secs
            };
            if capped > min_secs {
                capped
            } else {
                min_secs
            }
        },
        None => {
            let base = backoff_base(min_secs, max_secs, attempt_number);
            let sum = base + jitter;
            let saturated: u64 = if sum > u64::MAX {
                u64::MAX
            } else {
                sum as u64
            };
            if saturated < max_secs {
                saturated
            } else {
                max_secs
            }
        },
    }
}

fn backoff_base_exec(min_secs: u64, max_secs: u64, attempt_number: i32) -> (r: u64)
    ensures
        r == backoff_base(min_secs, max_secs, attempt_number),
{
    let previous: i32 = if attempt_number > i32::MIN {
        attempt_number - 1
    } else {
        i32::MIN
    };
    let exponent: u32 = if previous < 0 || previous > 31 {
        31
    } else {
        previous as u32
    };
    let mut power: u64 = 1;
    let mut k: u32 = 0;
    proof {
        vstd::arithmetic::power2::lemma2_to64();
    }
    while k < exponent
        invariant
            k <= exponent <= 31,
            power == vstd::arithmetic::power2::pow2(k as nat),
        decreases exponent - k,
    {
        proof {
            vstd::arithmetic::power2::lemma_pow2_unfold((k + 1) as nat);
            vstd::arithmetic::power2::lemma_pow2_strictly_increases(k as nat, 32);
            vstd::arithmetic::power2::lemma2_to64();
        }
        power = power * 2;
        k = k + 1;
    }
    let saturated = match min_secs.checked_mul(power) {
        Some(v) => v,
        None => u64::MAX,
    };
    if saturated < max_secs {
        saturated
    } else {
        max_secs
    }
}

/// The delay before a retry, for a jitter drawn up to a quarter of the backoff.
pub fn retry_delay_with_jitter(
    min_secs: u64,
    max_secs: u64,
    attempt_number: i32,
    retry_after_secs: Option<u64>,
    jitter: u64,
) -> (r: u64)
    ensures
        r == retry_delay_of(min_secs, max_secs, attempt_number, retry_after_secs, jitter),
{
    match retry_after_secs {
        Some(ra) => {
            let capped = if ra < max_secs {
                ra
            } else {
                max_secs
            };
            if capped > min_secs {
                capped
            } else {
                min_secs
            }
        },
        None => {
            let base = backoff_base_exec(min_secs, max_secs, attempt_number);
            let saturated = base.saturating_add(jitter);
            if saturated < max_secs {
                saturated
            } else {
                max_secs
            }
        },
    }
}

/// A jitter drawn uniformly from `0..=max` by the thread's random generator
/// (`rand::Rng::random_range`).
#[verifier::external_body]
fn random_jitter(max: u64) -> (r: u64)
    ensures
        r <= max,
{
    rand::Rng::random_range(&mut rand::rng(), 0..=max)
}

/// The delay before a retry (`retry_delay`): the backoff gets a random jitter
/// of at most a quarter of itself, none when that quarter is zero.
pub fn retry_delay(min_secs: u64, max_secs: u64, attempt_number: i32, retry_after_secs: Option<
    u64,
>) -> (r: u64)
    ensures
        exists|jitter: u64|
            jitter <= backoff_base(min_secs, max_secs, attempt_number) / 4 && r == retry_delay_of(
                min_secs,
                max_secs,
                attempt_number,
                retry_after_secs,
                jitter,
            ),
{
    let base = backoff_base_exec(min_secs, max_secs, attempt_number);
    let jitter_max = base / 4;
    let jitter = if jitter_max == 0 {
        0
    } else {
        random_jitter(jitter_max)
    };
    retry_delay_with_jitter(min_secs, max_secs, attempt_number, retry_after_secs, jitter)
}

/// The retry delay never exceeds the maximum once the minimum does not: with
/// `min <= max`, every delay lies in `0..=max`, and a `Retry-After` delay in
/// `min..=max`.
pub proof fn lemma_retry_delay_bounded(
    min_secs: u64,
    max_secs: u64,
    attempt_number: i32,
    retry_after_secs: Option<u64>,
    jitter: u64,
)
    requires
        min_secs <= max_secs,
    ensures
        retry_delay_of(min_secs, max_secs, attempt_number, retry_after_secs, jitter) <= max_secs,
        retry_after_secs is Some ==> min_secs <= retry_delay_of(
            min_secs,
            max_secs,
            attempt_number,
            retry_after_secs,
            jitter,
        ),
{
}

/// The page size of a delivery listing: 50 unless given, and within `1..=200`.
pub open spec fn page_limit_of(limit: Option<i64>) -> i64 {
    let l = match limit {
        Some(l) => l,
        None => 50,
    };
    if l < 1 {
        1
    } else if l > 200 {
        200
    } else {
        l
    }
}

pub fn page_limit(limit: Option<i64>) -> (r: i64)
    ensures
        r == page_limit_of(limit),
{
    let l = match limit {
        Some(l) => l,
        None => 50,
    };
    if l < 1 {
        1
    } else if l > 200 {
        200
    } else {
        l
    }
}

// --------------------------------------------------------- materialization

/// A webhook destination of a project, as the outbox pass sees it.
#[derive(Clone, Copy, Debug, PartialEq, Eq, Structural)]
pub struct DestinationSnapshot {
    pub id: u128,
    pub deliver_backfill: bool,
}

/// The delivery a destination gets for an outbox message: one that is
/// suppressed is recorded as finished at once.
#[derive(Clone, Copy, Debug, PartialEq, Eq, Structural)]
pub struct DeliveryPlan {
    pub destination_id: u128,
    pub suppressed: bool,
}

/// A message from historical backfill reaches only destinations that ask for
/// backfill; every other message reaches every destination.
pub fn plan_delivery(source: &str, destination: DestinationSnapshot) -> (r: DeliveryPlan)
    ensures
        r.destination_id == destination.id,
        r.suppressed == (source@ == "backfill"@ && !destination.deliver_backfill),
{
    DeliveryPlan {
        destination_id: destination.id,
        suppressed: crate::text::same_text(source, "backfill") && !destination.deliver_backfill,
    }
}

impl DeliveryPlan {
    /// The status the delivery is recorded with.
    pub fn status(&self) -> (r: &'static str)
        ensures
            r@ == (if self.suppressed {
                "suppressed"@
            } else {
                "pending"@
            }),
    {
        if self.suppressed {
            "suppressed"
        } else {
            "pending"
        }
    }

    /// The error class and text a suppressed delivery is recorded with.
    pub fn suppression(&self) -> (r: Option<(&'static str, &'static str)>)
        ensures
            self.suppressed ==> (r matches Some((class, text)) && class@ == "backfill_suppressed"@
                && text@ == "historical delivery is disabled"@),
            !self.suppressed ==> r is None,
    {
        if self.suppressed {
            Some(("backfill_suppressed", "historical delivery is disabled"))
        } else {
            None
        }
    }
}

/// The counts after one planned delivery: a delivery the store already had
/// counts for nothing; a new one counts as a delivery, and as suppressed or
/// pending. All counts saturate.
pub fn count_delivery(stats: &mut MaterializeStats, pending: &mut u64, plan: DeliveryPlan, inserted: bool)
    ensures
        !inserted ==> *final(stats) == *old(stats) && *final(pending) == *old(pending),
        inserted ==> final(stats).deliveries == old(stats).deliveries.saturating_add(1),
        inserted && plan.suppressed ==> final(stats).suppressed == old(stats).suppressed.saturating_add(
            1,
        ) && *final(pending) == *old(pending),
        inserted && !plan.suppressed ==> final(stats).suppressed == old(stats).suppressed
            && *final(pending) == old(pending).saturating_add(1),
        final(stats).outbox_messages == old(stats).outbox_messages,
        final(stats).no_destinations == old(stats).no_destinations,
{
    if inserted {
        stats.deliveries = stats.deliveries.saturating_add(1);
        if plan.suppressed {
            stats.suppressed = stats.suppressed.saturating_add(1);
        } else {
            *pending = pending.saturating_add(1);
        }
    }
}

/// How an outbox message's materialization ends.
#[derive(Clone, Copy, Debug, PartialEq, Eq, Structural)]
pub enum MaterializeCompletion {
    /// No destination: the message is done, as `no_destinations`.
    NoDestinations,
    /// Every delivery was suppressed (or already there): done, as `suppressed`.
    Suppressed,
    /// Deliveries are pending: the message is materialized and waits for them.
    Pending,
}

/// How a message ends, from its destination count and its pending deliveries.
pub fn materialize_completion(destinations: usize, pending: u64) -> (r: MaterializeCompletion)
    ensures
        destinations == 0 ==> r == MaterializeCompletion::NoDestinations,
        destinations > 0 && pending == 0 ==> r == MaterializeCompletion::Suppressed,
        destinations > 0 && pending > 0 ==> r == MaterializeCompletion::Pending,
{
    if destinations == 0 {
        MaterializeCompletion::NoDestinations
    } else if pending == 0 {
        MaterializeCompletion::Suppressed
    } else {
        MaterializeCompletion::Pending
    }
}

impl MaterializeCompletion {
    /// The completion reason recorded on the message, where it is done.
    pub fn reason(self) -> (r: Option<&'static str>)
        ensures
            self == MaterializeCompletion::NoDestinations ==> r is Some && r->0@
                == "no_destinations"@,
            self == MaterializeCompletion::Suppressed ==> r is Some && r->0@ == "suppressed"@,
            self == MaterializeCompletion::Pending ==> r is None,
    {
        match self {
            MaterializeCompletion::NoDestinations => Some("no_destinations"),
            MaterializeCompletion::Suppressed => Some("suppressed"),
            MaterializeCompletion::Pending => None,
        }
    }
}

/// An optional UUID field of a stored payload: its text read as a UUID, none
/// where it is missing or no UUID.
pub fn uuid_field(text: Option<&str>) -> (r: Option<u128>)
    ensures
        match text {
            None => r is None,
            Some(t) => r == crate::ids::spec_uuid_parse(t@),
        },
{
    match text {
        None => None,
        Some(t) => crate::ids::parse_uuid_text(t),
    }
}

/// Limits of webhook requests.
#[derive(Clone, Copy, Debug, PartialEq, Eq, Structural)]
pub struct WebhookPolicy {
    pub allow_http: bool,
    pub allow_private_ips: bool,
    pub connect_timeout_ms: u64,
    pub request_timeout_ms: u64,
    pub max_response_bytes: usize,
}

/// Longest a webhook connection may take to open, in milliseconds.
pub const MAX_CONNECT_TIMEOUT_MS: u64 = 5000;

/// The request limits of the notification settings: connecting may take the
/// request timeout, but never more than five seconds.
pub fn webhook_policy(
    allow_http: bool,
    allow_private_ips: bool,
    request_timeout_ms: u64,
    max_response_bytes: usize,
) -> (r: WebhookPolicy)
    ensures
        r == (WebhookPolicy {
            allow_http,
            allow_private_ips,
            connect_timeout_ms: if request_timeout_ms < MAX_CONNECT_TIMEOUT_MS {
                request_timeout_ms
            } else {
                MAX_CONNECT_TIMEOUT_MS
            },
            request_timeout_ms,
            max_response_bytes,
        }),
{
    let connect_timeout_ms = if request_timeout_ms < MAX_CONNECT_TIMEOUT_MS {
        request_timeout_ms
    } else {
        MAX_CONNECT_TIMEOUT_MS
    };
    WebhookPolicy {
        allow_http,
        allow_private_ips,
        connect_timeout_ms,
        request_timeout_ms,
        max_response_bytes,
    }
}

} // verus!
