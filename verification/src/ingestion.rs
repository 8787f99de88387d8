//! What the server stores of an event an agent sent: the checks an event must
//! pass, the row it becomes, and the scope its occurrence is grouped in.

use vstd::prelude::*;

use crate::agent_gateway::SessionScope;
use crate::event_model::{payload_kind, ProcessIdentity, RuntimeEvent, EVENT_SCHEMA_VERSION};
use crate::grouping::TrustedGroupingScope;
use crate::text::{append, decimal, u64_text};

verus! {

/// Why an event was not stored.
#[derive(Clone, Debug, PartialEq, Eq)]
pub enum IngestionError {
    UnsupportedSchema(u32),
    InvalidOwnership,
    CgroupOverflow,
    RevokedCredential,
    Database(String),
    Serialization(String),
}

/// The text of an ingestion error, as its `Display` writes it.
pub open spec fn ingestion_error_text(e: IngestionError) -> Seq<char> {
    match e {
        IngestionError::UnsupportedSchema(v) => "unsupported event schema version "@ + decimal(
            v as nat,
        ),
        IngestionError::InvalidOwnership =>
            "event project/application is outside the authenticated tenant"@,
        IngestionError::CgroupOverflow =>
            "event cgroup ID exceeds PostgreSQL signed integer range"@,
        IngestionError::RevokedCredential => "application credential was revoked"@,
        IngestionError::Database(d) => "database error: "@ + d@,
        IngestionError::Serialization(d) => "event payload serialization failed: "@ + d@,
    }
}

impl IngestionError {
    /// Human-readable description of the error.
    pub fn message(&self) -> (r: String)
        ensures
            r@ == ingestion_error_text(*self),
    {
        let mut s = String::new();
        match self {
            IngestionError::UnsupportedSchema(v) => {
                proof {
                    reveal_strlit("unsupported event schema version ");
                }
                append(&mut s, "unsupported event schema version ");
                let d = u64_text(*v as u64);
                append(&mut s, d.as_str());
            },
            IngestionError::InvalidOwnership => {
                proof {
                    reveal_strlit("event project/application is outside the authenticated tenant");
                }
                append(&mut s, "event project/application is outside the authenticated tenant");
            },
            IngestionError::CgroupOverflow => {
                proof {
                    reveal_strlit("event cgroup ID exceeds PostgreSQL signed integer range");
                }
                append(&mut s, "event cgroup ID exceeds PostgreSQL signed integer range");
            },
            IngestionError::RevokedCredential => {
                proof {
                    reveal_strlit("application credential was revoked");
                }
                append(&mut s, "application credential was revoked");
            },
            IngestionError::Database(d) => {
                proof {
                    reveal_strlit("database error: ");
                }
                append(&mut s, "database error: ");
                append(&mut s, d.as_str());
            },
            IngestionError::Serialization(d) => {
                proof {
                    reveal_strlit("event payload serialization failed: ");
                }
                append(&mut s, "event payload serialization failed: ");
                append(&mut s, d.as_str());
            },
        }
        s
    }
}

/// The session an event arrived in.
#[derive(Clone, Copy, Debug, PartialEq, Eq, Structural)]
pub struct IngestionContext {
    pub scope: SessionScope,
    pub agent_id: u128,
}

/// The columns of a stored event, but for its serialized payload.
#[derive(Clone, Debug, PartialEq, Eq)]
pub struct EventRow {
    pub event_id: u128,
    pub organization_id: u128,
    pub project_id: u128,
    pub cluster_id: u128,
    pub application_id: u128,
    pub agent_id: u128,
    pub observed_at_secs: i64,
    pub observed_at_nanos: u32,
    pub node_name: String,
    pub namespace: String,
    pub pod_uid: String,
    pub pod_name: String,
    pub container_id: String,
    pub container_name: String,
    pub workload_uid: String,
    pub workload_kind: String,
    pub workload_name: String,
    pub cgroup_id: i64,
    pub pid: i64,
    pub tgid: i64,
    pub process_command: String,
    pub event_kind: String,
    pub event_schema_version: i32,
}

/// Why an event is refused before it is stored, in the order the checks run:
/// its schema, then whether its application belongs to the session's tenant,
/// then whether its cgroup fits a signed 64-bit column.
pub open spec fn admission_fault(event: RuntimeEvent, owned: bool) -> Option<IngestionError> {
    if event.schema_version != EVENT_SCHEMA_VERSION {
        Some(IngestionError::UnsupportedSchema(event.schema_version))
    } else if !owned {
        Some(IngestionError::InvalidOwnership)
    } else if event.process.cgroup_id > i64::MAX {
        Some(IngestionError::CgroupOverflow)
    } else {
        None
    }
}

/// The row of an admitted event.
pub open spec fn row_of(context: IngestionContext, event: RuntimeEvent, row: EventRow) -> bool {
    &&& row.event_id == event.id
    &&& row.organization_id == context.scope.organization_id
    &&& row.project_id == event.attribution.project_id
    &&& row.cluster_id == context.scope.cluster_id
    &&& row.application_id == event.attribution.application_id
    &&& row.agent_id == context.agent_id
    &&& row.observed_at_secs == event.observed_at.secs
    &&& row.observed_at_nanos == event.observed_at.nanos
    &&& row.node_name == event.attribution.node_name
    &&& row.namespace == event.attribution.namespace
    &&& row.pod_uid == event.attribution.pod_uid
    &&& row.pod_name == event.attribution.pod_name
    &&& row.container_id == event.attribution.container_id
    &&& row.container_name == event.attribution.container_name
    &&& row.workload_uid == event.attribution.workload_uid
    &&& row.workload_kind == event.attribution.workload_kind
    &&& row.workload_name == event.attribution.workload_name
    &&& row.cgroup_id == event.process.cgroup_id
    &&& row.pid == event.process.pid
    &&& row.tgid == event.process.tgid
    &&& row.process_command == event.process.command
    &&& row.event_kind@ == payload_kind(event.payload)
    &&& row.event_schema_version == event.schema_version
}

/// The row an event is stored as, once it passes the checks. `owned` is what
/// the store answered when asked whether the event's application belongs to
/// the session's organization.
pub fn event_row(context: IngestionContext, event: &RuntimeEvent, owned: bool) -> (r: Result<
    EventRow,
    IngestionError,
>)
    ensures
        admission_fault(*event, owned) matches Some(e) ==> r == Err::<EventRow, IngestionError>(e),
        admission_fault(*event, owned) is None ==> r is Ok && row_of(context, *event, r->Ok_0),
{
    if event.schema_version != EVENT_SCHEMA_VERSION {
        return Err(IngestionError::UnsupportedSchema(event.schema_version));
    }
    if !owned {
        return Err(IngestionError::InvalidOwnership);
    }
    if event.process.cgroup_id > 9_223_372_036_854_775_807u64 {
        return Err(IngestionError::CgroupOverflow);
    }
    let a = &event.attribution;
    Ok(
        EventRow {
            event_id: event.id,
            organization_id: context.scope.organization_id,
            project_id: a.project_id,
            cluster_id: context.scope.cluster_id,
            application_id: a.application_id,
            agent_id: context.agent_id,
            observed_at_secs: event.observed_at.secs,
            observed_at_nanos: event.observed_at.nanos,
            node_name: a.node_name.clone(),
            namespace: a.namespace.clone(),
            pod_uid: a.pod_uid.clone(),
            pod_name: a.pod_name.clone(),
            container_id: a.container_id.clone(),
            container_name: a.container_name.clone(),
            workload_uid: a.workload_uid.clone(),
            workload_kind: a.workload_kind.clone(),
            workload_name: a.workload_name.clone(),
            cgroup_id: event.process.cgroup_id as i64,
            pid: event.process.pid as i64,
            tgid: event.process.tgid as i64,
            process_command: event.process.command.clone(),
            event_kind: String::from_str(event.kind()),
            event_schema_version: event.schema_version as i32,
        },
    )
}

/// The process a stored row names: its cgroup, thread id, thread-group id
/// and command, read back from the row's columns.
pub open spec fn row_process(row: EventRow) -> ProcessIdentity {
    ProcessIdentity {
        cgroup_id: row.cgroup_id as u64,
        pid: row.pid as u32,
        tgid: row.tgid as u32,
        command: row.process_command,
    }
}

/// A stored row keeps the process that produced the event: reading the
/// process columns back gives the event's process identity exactly, the
/// thread id as the pid and the thread-group id as the tgid, so that events
/// of two threads of one process stay told apart by pid and joined by tgid.
pub proof fn lemma_row_keeps_process(
    context: IngestionContext,
    event: RuntimeEvent,
    row: EventRow,
    other: RuntimeEvent,
    other_row: EventRow,
)
    requires
        row_of(context, event, row),
        row_of(context, other, other_row),
    ensures
        row_process(row) == event.process,
        row.pid == event.process.pid as int,
        row.tgid == event.process.tgid as int,
        (row.pid == other_row.pid) == (event.process.pid == other.process.pid),
        (row.tgid == other_row.tgid) == (event.process.tgid == other.process.tgid),
{
}

/// The scope an event's occurrence is grouped in: the session's tenant and
/// cluster, and the event's project, application and workload.
pub fn grouping_scope<'a>(context: IngestionContext, event: &'a RuntimeEvent) -> (r:
    TrustedGroupingScope<'a>)
    ensures
        r.organization_id == context.scope.organization_id,
        r.project_id == event.attribution.project_id,
        r.application_id == event.attribution.application_id,
        r.cluster_id == context.scope.cluster_id,
        r.namespace@ == event.attribution.namespace@,
        r.workload_kind@ == event.attribution.workload_kind@,
        r.workload_name@ == event.attribution.workload_name@,
{
    TrustedGroupingScope {
        organization_id: context.scope.organization_id,
        project_id: event.attribution.project_id,
        application_id: event.attribution.application_id,
        cluster_id: context.scope.cluster_id,
        namespace: event.attribution.namespace.as_str(),
        workload_kind: event.attribution.workload_kind.as_str(),
        workload_name: event.attribution.workload_name.as_str(),
    }
}

/// The count of stored events after one more event: an event the store
/// already held (a replay) adds nothing; the count saturates.
pub fn count_stored(accepted: u32, inserted: bool) -> (r: u32)
    ensures
        r == (if inserted {
            if accepted == u32::MAX {
                u32::MAX
            } else {
                (accepted + 1) as u32
            }
        } else {
            accepted
        }),
{
    if inserted {
        accepted.saturating_add(1)
    } else {
        accepted
    }
}

} // verus!
