//! How the agent turns a kernel record into a runtime event: the workload it
//! belongs to, the payload its kind calls for, and the failures it counts.

use vstd::prelude::*;

use crate::attribution::{
    failure_counted, resolution, resolve_and_count, AttributionCache, AttributionError,
};
use crate::config::AgentConfig;
use crate::counters::Counters;
use crate::event_model::{
    EventPayload, KubernetesAttribution, ProcessExec, ProcessIdentity, RuntimeEvent,
    SyscallEvent, UtcTimestamp, EVENT_SCHEMA_VERSION,
};
use crate::kernel_abi::{
    KernelEvent, EVENT_KIND_EXEC, EVENT_KIND_NETWORK_CONNECT, EVENT_KIND_SYSCALL,
};
use crate::kernel_event::{
    before_nul, command, network_connect, network_connect_of, pid_and_tgid, spec_utf8_lossy,
};

verus! {

/// `chrono::Utc::now()`, read as whole seconds and the nanoseconds past
/// them. Nothing is stated of the instant.
#[verifier::external_body]
fn utc_now() -> (r: UtcTimestamp) {
    let now = chrono::Utc::now();
    UtcTimestamp { secs: now.timestamp(), nanos: now.timestamp_subsec_nanos() }
}

/// The payload a kernel record of a kind calls for, with the process's
/// command, its executable (where the process's link could be read) and the
/// name of its syscall (where the number is known for the architecture).
pub open spec fn payload_matches(
    kernel: KernelEvent,
    command: Seq<char>,
    executable: Option<Seq<char>>,
    syscall_name: Option<Seq<char>>,
    payload: EventPayload,
) -> bool {
    if kernel.event_kind == EVENT_KIND_EXEC {
        payload matches EventPayload::ProcessExec(p) && p.parent_command is None
            && p.executable@ == match executable {
            Some(e) => e,
            None => command,
        }
    } else if kernel.event_kind == EVENT_KIND_SYSCALL {
        payload matches EventPayload::Syscall(s) && Some(s.name@) == syscall_name
    } else {
        network_connect_of(kernel) matches Ok(n) && payload == EventPayload::NetworkConnect(n)
    }
}

/// Whether a kernel record of a kind yields a payload, and what its failure
/// counts: an unknown syscall number or kind is unsupported, a connect that
/// does not decode is a connect decoding failure.
pub open spec fn payload_failure(kernel: KernelEvent, syscall_known: bool, before: Counters) -> Option<
    Counters,
> {
    if kernel.event_kind == EVENT_KIND_EXEC {
        None
    } else if kernel.event_kind == EVENT_KIND_SYSCALL {
        if syscall_known {
            None
        } else {
            Some(Counters { unsupported: before.unsupported.wrapping_add(1), ..before })
        }
    } else if kernel.event_kind == EVENT_KIND_NETWORK_CONNECT {
        if network_connect_of(kernel) is Ok {
            None
        } else {
            Some(
                Counters {
                    connect_decode_failed: before.connect_decode_failed.wrapping_add(1),
                    ..before
                },
            )
        }
    } else {
        Some(Counters { unsupported: before.unsupported.wrapping_add(1), ..before })
    }
}

/// The payload of a kernel record, or none (counted) where it has none.
pub fn event_payload(
    kernel: &KernelEvent,
    command: &String,
    executable: Option<String>,
    syscall_name: Option<&str>,
    counters: &mut Counters,
) -> (r: Option<EventPayload>)
    ensures
        match payload_failure(*kernel, syscall_name is Some, *old(counters)) {
            Some(after) => r is None && *final(counters) == after,
            None => r matches Some(p) && *final(counters) == *old(counters) && payload_matches(
                *kernel,
                command@,
                match executable {
                    Some(e) => Some(e@),
                    None => None,
                },
                match syscall_name {
                    Some(n) => Some(n@),
                    None => None,
                },
                p,
            ),
        },
{
    if kernel.event_kind == EVENT_KIND_EXEC {
        let executable = match executable {
            Some(path) => path,
            None => command.clone(),
        };
        Some(EventPayload::ProcessExec(ProcessExec { executable, parent_command: None }))
    } else if kernel.event_kind == EVENT_KIND_SYSCALL {
        match syscall_name {
            Some(name) => Some(EventPayload::Syscall(SyscallEvent { name: String::from_str(name) })),
            None => {
                counters.unsupported = counters.unsupported.wrapping_add(1);
                None
            },
        }
    } else if kernel.event_kind == EVENT_KIND_NETWORK_CONNECT {
        match network_connect(kernel) {
            Ok(network) => Some(EventPayload::NetworkConnect(network)),
            Err(_) => {
                counters.connect_decode_failed = counters.connect_decode_failed.wrapping_add(1);
                None
            },
        }
    } else {
        counters.unsupported = counters.unsupported.wrapping_add(1);
        None
    }
}

/// The event of a kernel record at `now_ms` on the agent's monotonic clock,
/// given the container its cgroup belongs to (where that could be found),
/// the process's executable and the syscall's name. The record must belong
/// to a workload in scope (else the attribution failure is counted) and have
/// a payload (else that failure is counted). The event gets a fresh random
/// id and the current time.
pub fn runtime_event(
    kernel: &KernelEvent,
    container: Option<&str>,
    executable: Option<String>,
    syscall_name: Option<&str>,
    cache: &mut AttributionCache,
    counters: &mut Counters,
    config: &AgentConfig,
    now_ms: u64,
) -> (r: Option<RuntimeEvent>)
    ensures
        final(cache).replica_sets() == old(cache).replica_sets(),
        final(cache).deployments() == old(cache).deployments(),
        container is None ==> r is None && *final(counters) == failure_counted(
            *old(counters),
            AttributionError::UnknownContainer,
        ),
        container matches Some(id) ==> exists|res: Result<KubernetesAttribution, AttributionError>|
            #[trigger] resolution(
                final(cache).containers(),
                final(cache).replica_sets(),
                final(cache).deployments(),
                id@,
                config.identity.node_name@,
                config.scope.workloads@,
                res,
            ) && match res {
                Err(e) => r is None && *final(counters) == failure_counted(*old(counters), e),
                Ok(a) => match payload_failure(*kernel, syscall_name is Some, *old(counters)) {
                    Some(after) => r is None && *final(counters) == after,
                    None => r matches Some(event) && *final(counters) == *old(counters)
                        && event.schema_version == EVENT_SCHEMA_VERSION && event.attribution == a
                        && event.process.cgroup_id == kernel.cgroup_id && event.process.pid
                        == kernel.pid_tgid % 4294967296 && event.process.tgid == kernel.pid_tgid
                        / 4294967296 && event.process.command@ == spec_utf8_lossy(
                        before_nul(kernel.command@),
                    ) && payload_matches(
                        *kernel,
                        event.process.command@,
                        match executable {
                            Some(e) => Some(e@),
                            None => None,
                        },
                        match syscall_name {
                            Some(n) => Some(n@),
                            None => None,
                        },
                        event.payload,
                    ),
                },
            },
{
    let (pid, tgid) = pid_and_tgid(kernel.pid_tgid);
    let attribution = match resolve_and_count(
        cache,
        counters,
        container,
        config.identity.node_name.as_str(),
        config.scope.workloads.as_slice(),
        now_ms,
    ) {
        Some(a) => a,
        None => {
            return None;
        },
    };
    let command = command(&kernel.command);
    let payload = match event_payload(kernel, &command, executable, syscall_name, counters) {
        Some(p) => p,
        None => {
            return None;
        },
    };
    Some(
        RuntimeEvent {
            id: crate::ids::new_v4(),
            observed_at: utc_now(),
            schema_version: EVENT_SCHEMA_VERSION,
            attribution,
            process: ProcessIdentity { cgroup_id: kernel.cgroup_id, pid, tgid, command },
            payload,
        },
    )
}

} // verus!
