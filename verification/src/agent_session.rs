//! The agent's side of a session: control commands, server message kinds,
//! the counters it reports, and its reconnect backoff.

use vstd::prelude::*;

use crate::config::ServerConfig;
use crate::counters::CounterSnapshot;
use crate::event_model::PROTOCOL_VERSION;
use crate::text::append;
use crate::wire::{
    AgentHello, AgentMessage, AgentMessageKind, ControlCommand, ControlMessage, ControlResult,
    DropCounters, ServerMessage, ServerMessageKind, CONTROL_STATUS_APPLIED,
    CONTROL_STATUS_UNSUPPORTED,
};

verus! {

/// The result an agent answers a control message with: a ping is applied with
/// "pong"; a message without a typed command is unsupported.
pub open spec fn control_result_of(control: ControlMessage) -> (i32, Seq<char>) {
    match control.command {
        Some(ControlCommand::Ping) => (CONTROL_STATUS_APPLIED, "pong"@),
        None => (CONTROL_STATUS_UNSUPPORTED, "unsupported or missing typed command"@),
    }
}

/// Answers a control message, echoing its request id.
pub fn handle_control(control: ControlMessage) -> (r: ControlResult)
    ensures
        r.request_id == control.request_id,
        r.status == control_result_of(control).0,
        r.detail@ == control_result_of(control).1,
{
    let (status, detail) = match control.command {
        Some(ControlCommand::Ping) => (CONTROL_STATUS_APPLIED, "pong"),
        None => (CONTROL_STATUS_UNSUPPORTED, "unsupported or missing typed command"),
    };
    proof {
        reveal_strlit("pong");
        reveal_strlit("unsupported or missing typed command");
    }
    ControlResult { request_id: control.request_id, status, detail: String::from_str(detail) }
}

/// The name of a server message's kind, for logs.
pub open spec fn server_message_kind_of(message: ServerMessage) -> Seq<char> {
    match message.message {
        Some(ServerMessageKind::SessionAccepted(_)) => "session_accepted"@,
        Some(ServerMessageKind::BatchAcknowledgement(_)) => "batch_acknowledgement"@,
        Some(ServerMessageKind::Control(_)) => "control"@,
        None => "unknown"@,
    }
}

pub fn server_message_kind(message: &ServerMessage) -> (r: &'static str)
    ensures
        r@ == server_message_kind_of(*message),
{
    match message.message {
        Some(ServerMessageKind::SessionAccepted(_)) => "session_accepted",
        Some(ServerMessageKind::BatchAcknowledgement(_)) => "batch_acknowledgement",
        Some(ServerMessageKind::Control(_)) => "control",
        None => "unknown",
    }
}

/// The counters as they travel: every snapshot counter under its wire name,
/// `capacity_dropped` as `capacity`; the delivery counters stay local.
pub open spec fn drop_counters_of(value: CounterSnapshot) -> DropCounters {
    DropCounters {
        filtered: value.filtered,
        unattributed: value.unattributed,
        unsupported: value.unsupported,
        decode_failed: value.decode_failed,
        capacity: value.capacity_dropped,
        kernel_lost: value.kernel_lost,
        connect_correlation_capacity: value.connect_correlation_capacity,
        connect_correlation_miss: value.connect_correlation_miss,
        connect_decode_failed: value.connect_decode_failed,
        connect_unsupported_family: value.connect_unsupported_family,
        connect_kernel_lost: value.connect_kernel_lost,
        dns_packet_decode_failed: value.dns_packet_decode_failed,
        dns_malformed_compression: value.dns_malformed_compression,
        dns_truncated: value.dns_truncated,
        dns_unsupported_record: value.dns_unsupported_record,
        dns_correlation_miss: value.dns_correlation_miss,
        dns_correlation_capacity: value.dns_correlation_capacity,
        dns_tcp_reassembly: value.dns_tcp_reassembly,
        dns_rate_limited: value.dns_rate_limited,
        dns_capacity: value.dns_capacity,
        dns_kernel_lost: value.dns_kernel_lost,
        dns_kernel_unsupported_framing: value.dns_kernel_unsupported_framing,
        dns_attribution_failed: value.dns_attribution_failed,
        dns_oversize: value.dns_oversize,
        inbound_decode_failed: value.inbound_decode_failed,
        inbound_attribution_failed: value.inbound_attribution_failed,
        inbound_unsupported_family: value.inbound_unsupported_family,
        inbound_kernel_lost: value.inbound_kernel_lost,
        inbound_rate_limited: value.inbound_rate_limited,
        inbound_correlation_miss: value.inbound_correlation_miss,
        file_correlation_capacity: value.file_correlation_capacity,
        file_correlation_miss: value.file_correlation_miss,
        file_path_read_failed: value.file_path_read_failed,
        file_path_relative: value.file_path_relative,
        file_path_invalid: value.file_path_invalid,
        file_path_oversize: value.file_path_oversize,
        file_fd_miss: value.file_fd_miss,
        file_filtered: value.file_filtered,
        file_kernel_lost: value.file_kernel_lost,
        file_aggregation_capacity: value.file_aggregation_capacity,
        file_decode_failed: value.file_decode_failed,
        file_attribution_failed: value.file_attribution_failed,
        file_rate_limited: value.file_rate_limited,
        file_unsupported_object: value.file_unsupported_object,
    }
}

impl From<CounterSnapshot> for DropCounters {
    fn from(value: CounterSnapshot) -> (r: Self) {
        DropCounters {
            filtered: value.filtered,
            unattributed: value.unattributed,
            unsupported: value.unsupported,
            decode_failed: value.decode_failed,
            capacity: value.capacity_dropped,
            kernel_lost: value.kernel_lost,
            connect_correlation_capacity: value.connect_correlation_capacity,
            connect_correlation_miss: value.connect_correlation_miss,
            connect_decode_failed: value.connect_decode_failed,
            connect_unsupported_family: value.connect_unsupported_family,
            connect_kernel_lost: value.connect_kernel_lost,
            dns_packet_decode_failed: value.dns_packet_decode_failed,
            dns_malformed_compression: value.dns_malformed_compression,
            dns_truncated: value.dns_truncated,
            dns_unsupported_record: value.dns_unsupported_record,
            dns_correlation_miss: value.dns_correlation_miss,
            dns_correlation_capacity: value.dns_correlation_capacity,
            dns_tcp_reassembly: value.dns_tcp_reassembly,
            dns_rate_limited: value.dns_rate_limited,
            dns_capacity: value.dns_capacity,
            dns_kernel_lost: value.dns_kernel_lost,
            dns_kernel_unsupported_framing: value.dns_kernel_unsupported_framing,
            dns_attribution_failed: value.dns_attribution_failed,
            dns_oversize: value.dns_oversize,
            inbound_decode_failed: value.inbound_decode_failed,
            inbound_attribution_failed: value.inbound_attribution_failed,
            inbound_unsupported_family: value.inbound_unsupported_family,
            inbound_kernel_lost: value.inbound_kernel_lost,
            inbound_rate_limited: value.inbound_rate_limited,
            inbound_correlation_miss: value.inbound_correlation_miss,
            file_correlation_capacity: value.file_correlation_capacity,
            file_correlation_miss: value.file_correlation_miss,
            file_path_read_failed: value.file_path_read_failed,
            file_path_relative: value.file_path_relative,
            file_path_invalid: value.file_path_invalid,
            file_path_oversize: value.file_path_oversize,
            file_fd_miss: value.file_fd_miss,
            file_filtered: value.file_filtered,
            file_kernel_lost: value.file_kernel_lost,
            file_aggregation_capacity: value.file_aggregation_capacity,
            file_decode_failed: value.file_decode_failed,
            file_attribution_failed: value.file_attribution_failed,
            file_rate_limited: value.file_rate_limited,
            file_unsupported_object: value.file_unsupported_object,
        }
    }
}

impl vstd::std_specs::convert::FromSpecImpl<CounterSnapshot> for DropCounters {
    open spec fn obeys_from_spec() -> bool {
        true
    }

    open spec fn from_spec(v: CounterSnapshot) -> Self {
        drop_counters_of(v)
    }
}

/// First wait before reconnecting, in milliseconds.
pub const INITIAL_RECONNECT_DELAY_MS: u64 = 250;

/// Longest wait between reconnects, in milliseconds.
pub const MAX_RECONNECT_DELAY_MS: u64 = 30_000;

/// What the agent does after a failed connection attempt.
#[derive(Clone, Copy, Debug, PartialEq, Eq)]
pub enum ReconnectStep {
    /// Sleep `sleep_ms`, then try again; the next failure starts from `next_delay_ms`.
    Retry { sleep_ms: u64, next_delay_ms: u64 },
    /// The delay has reached its bound: report the failure.
    GiveUp,
}

/// The step after a failure with the current delay: retry while the delay is
/// under the bound, doubling it up to the bound.
pub open spec fn reconnect_step_of(delay_ms: u64) -> ReconnectStep {
    if delay_ms < MAX_RECONNECT_DELAY_MS {
        ReconnectStep::Retry {
            sleep_ms: delay_ms,
            next_delay_ms: if 2 * delay_ms < MAX_RECONNECT_DELAY_MS {
                (2 * delay_ms) as u64
            } else {
                MAX_RECONNECT_DELAY_MS
            },
        }
    } else {
        ReconnectStep::GiveUp
    }
}

/// Decides what follows a failed connection attempt (`connect_with_backoff`).
pub fn after_connect_failure(delay_ms: u64) -> (r: ReconnectStep)
    ensures
        r == reconnect_step_of(delay_ms),
{
    if delay_ms < MAX_RECONNECT_DELAY_MS {
        let doubled = delay_ms * 2;
        let next_delay_ms = if doubled < MAX_RECONNECT_DELAY_MS {
            doubled
        } else {
            MAX_RECONNECT_DELAY_MS
        };
        ReconnectStep::Retry { sleep_ms: delay_ms, next_delay_ms }
    } else {
        ReconnectStep::GiveUp
    }
}

/// The delay after `n` failures from the initial delay.
pub open spec fn delay_after(n: nat) -> u64
    decreases n,
{
    if n == 0 {
        INITIAL_RECONNECT_DELAY_MS
    } else {
        match reconnect_step_of(delay_after((n - 1) as nat)) {
            ReconnectStep::Retry { next_delay_ms, .. } => next_delay_ms,
            ReconnectStep::GiveUp => delay_after((n - 1) as nat),
        }
    }
}

/// Backoff: from the initial delay, each retry waits twice as long as the one
/// before, never more than the bound; once the bound is reached the next
/// failure is reported, so a session is attempted at most eight times.
pub proof fn lemma_backoff_doubles_and_ends(n: nat)
    ensures
        delay_after(n) <= MAX_RECONNECT_DELAY_MS,
        n < 7 ==> delay_after(n) == 250 * vstd::arithmetic::power2::pow2(n),
        n >= 7 ==> delay_after(n) == MAX_RECONNECT_DELAY_MS,
        reconnect_step_of(delay_after(n)) is GiveUp <==> n >= 7,
    decreases n,
{
    vstd::arithmetic::power2::lemma2_to64();
    if n > 0 {
        lemma_backoff_doubles_and_ends((n - 1) as nat);
    }
}

// ------------------------------------------------------------- opening

/// How the agent reaches the server: in plaintext (development only), or
/// over TLS trusting the given certificate authority file.
#[derive(Clone, Debug, PartialEq, Eq)]
pub enum ChannelSecurity {
    Plaintext,
    Tls { ca_file: String },
}

/// The channel security of the server settings: TLS needs a CA file unless
/// development plaintext is enabled.
pub fn channel_security(config: &ServerConfig) -> (r: Result<ChannelSecurity, &'static str>)
    ensures
        config.development_plaintext ==> r == Ok::<ChannelSecurity, &'static str>(
            ChannelSecurity::Plaintext,
        ),
        !config.development_plaintext ==> match config.ca_file {
            Some(f) => r == Ok::<ChannelSecurity, &'static str>(ChannelSecurity::Tls { ca_file: f }),
            None => r is Err && r->Err_0@ == "caFile is required for TLS"@,
        },
{
    if config.development_plaintext {
        return Ok(ChannelSecurity::Plaintext);
    }
    match &config.ca_file {
        Some(f) => Ok(ChannelSecurity::Tls { ca_file: f.clone() }),
        None => {
            proof {
                reveal_strlit("caFile is required for TLS");
            }
            Err("caFile is required for TLS")
        },
    }
}

/// The first message of a session: the agent's hello.
pub fn hello_message(hello: AgentHello) -> (r: AgentMessage)
    ensures
        r == (AgentMessage {
            protocol_version: PROTOCOL_VERSION,
            message: Some(AgentMessageKind::Hello(hello)),
        }),
{
    AgentMessage { protocol_version: PROTOCOL_VERSION, message: Some(AgentMessageKind::Hello(hello)) }
}

/// The `authorization` metadata an agent presents its credential in.
pub fn authorization_value(credential: &str) -> (r: String)
    ensures
        r@ == "Bearer "@ + credential@,
{
    let mut value = String::from_str("Bearer ");
    append(&mut value, credential);
    value
}

} // verus!
