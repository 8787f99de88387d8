//! Kubernetes attribution: which workload a container belongs to, how the
//! watches that feed the cache retry, and when the cache is ready.

use vstd::prelude::*;

use dashmap::DashMap;

use crate::config::{
    lemma_label_value_present, selector_matches, Labels, WorkloadMetadata, WorkloadSelector,
};
use crate::counters::Counters;
use crate::event_model::KubernetesAttribution;
use crate::text::{chars_of, same_text, string_of};

verus! {

#[derive(Clone, Copy, Debug, PartialEq, Eq)]
pub enum AttributionError {
    UnknownContainer,
    IncompleteOwnerChain,
    NotSelected,
}

impl AttributionError {
    pub fn message(&self) -> (r: &'static str)
        ensures
            r@ == (match self {
                AttributionError::UnknownContainer => "container is not present in the attribution cache"@,
                AttributionError::IncompleteOwnerChain => "pod owner chain is incomplete"@,
                AttributionError::NotSelected => "resolved workload does not match configured scope"@,
            }),
    {
        match self {
            AttributionError::UnknownContainer => "container is not present in the attribution cache",
            AttributionError::IncompleteOwnerChain => "pod owner chain is incomplete",
            AttributionError::NotSelected => "resolved workload does not match configured scope",
        }
    }
}

// ------------------------------------------------------------- container ids

/// Whether `"://"` occurs in `s` at `i`.
pub open spec fn scheme_mark_at(s: Seq<char>, i: int) -> bool {
    0 <= i && i + 3 <= s.len() && s[i] == ':' && s[i + 1] == '/' && s[i + 2] == '/'
}

/// A container id without its runtime prefix: the text after the last
/// `"://"`, or all of it when there is none.
pub open spec fn container_id_of(s: Seq<char>) -> Seq<char> {
    if exists|i: int| scheme_mark_at(s, i) {
        let i = choose|i: int|
            scheme_mark_at(s, i) && forall|j: int| scheme_mark_at(s, j) ==> j <= i;
        s.skip(i + 3)
    } else {
        s
    }
}

pub fn normalize_container_id(value: &str) -> (r: String)
    ensures
        r@ == container_id_of(value@),
{
    let chars = chars_of(value);
    let n = chars.len();
    if n < 3 {
        proof {
            assert(!exists|i: int| scheme_mark_at(value@, i));
        }
        return String::from_str(value);
    }
    let mut k: usize = n - 2;
    while k > 0
        invariant
            chars@ == value@,
            n == value@.len(),
            n >= 3,
            k <= n - 2,
            forall|j: int| k <= j ==> !scheme_mark_at(value@, j),
        decreases k,
    {
        let i = k - 1;
        if chars[i] == ':' && chars[i + 1] == '/' && chars[i + 2] == '/' {
            let tail = vstd::slice::slice_subrange(chars.as_slice(), i + 3, n);
            proof {
                assert(scheme_mark_at(value@, i as int));
                let c = choose|c: int|
                    scheme_mark_at(value@, c) && forall|j: int| scheme_mark_at(value@, j) ==> j <= c;
                assert(c == i) by {
                    assert(c <= i || !scheme_mark_at(value@, c));
                    assert(i <= c);
                }
                assert(tail@ =~= value@.skip(i as int + 3));
            }
            return string_of(tail);
        }
        k = k - 1;
    }
    proof {
        assert(!exists|i: int| scheme_mark_at(value@, i));
    }
    String::from_str(value)
}

// ------------------------------------------------------------- watch retries

/// First wait before a failed watch is restarted, in seconds.
pub const WATCH_RETRY_MIN_SECS: u64 = 1;

/// Longest wait before a failed watch is restarted, in seconds.
pub const WATCH_RETRY_MAX_SECS: u64 = 30;

/// The next wait: twice the current one (saturating), at most the maximum.
pub open spec fn next_retry_of(current: u64) -> u64 {
    let doubled = current * 2;
    if doubled >= WATCH_RETRY_MAX_SECS {
        WATCH_RETRY_MAX_SECS
    } else {
        doubled as u64
    }
}

pub fn next_retry(current_secs: u64) -> (r: u64)
    ensures
        r == next_retry_of(current_secs),
{
    let doubled = match current_secs.checked_mul(2) {
        Some(d) => d,
        None => u64::MAX,
    };
    if doubled >= WATCH_RETRY_MAX_SECS {
        WATCH_RETRY_MAX_SECS
    } else {
        doubled
    }
}

/// How long a watch that just ended waits, and the wait for the next failure:
/// a watch that had initialized waits the minimum and starts over; another
/// waits its current delay and doubles it.
pub fn watch_retry_step(was_initialized: bool, retry_secs: u64) -> (r: (u64, u64))
    ensures
        was_initialized ==> r == (WATCH_RETRY_MIN_SECS, WATCH_RETRY_MIN_SECS),
        !was_initialized ==> r == (retry_secs, next_retry_of(retry_secs)),
{
    if was_initialized {
        (WATCH_RETRY_MIN_SECS, WATCH_RETRY_MIN_SECS)
    } else {
        (retry_secs, next_retry(retry_secs))
    }
}

/// Watch retries grow exponentially to their bound and stay there.
pub proof fn lemma_watch_retry_bounded(current: u64)
    requires
        1 <= current <= WATCH_RETRY_MAX_SECS,
    ensures
        current < next_retry_of(current) || next_retry_of(current) == WATCH_RETRY_MAX_SECS,
        1 <= next_retry_of(current) <= WATCH_RETRY_MAX_SECS,
{
}

// ----------------------------------------------------------------- readiness

/// Bit of the pod watch.
pub const SOURCE_PODS: u8 = 1;

/// Bit of the replica set watch.
pub const SOURCE_REPLICA_SETS: u8 = 2;

/// Bit of the deployment watch.
pub const SOURCE_DEPLOYMENTS: u8 = 4;

/// Every source.
pub const ALL_SOURCES: u8 = 7;

/// Which watches have finished their initial listing, and whether the cache
/// is announced as ready.
#[derive(Clone, Copy, Debug, Default, PartialEq, Eq)]
pub struct Readiness {
    pub initialized: u8,
    pub ready: bool,
}

/// A watch finished its initial listing; once every source has, the cache
/// is announced as ready.
pub fn source_initialized(state: &mut Readiness, bit: u8)
    ensures
        final(state).initialized == old(state).initialized | bit,
        final(state).ready == (if (old(state).initialized | bit) == ALL_SOURCES {
            true
        } else {
            old(state).ready
        }),
{
    let previous = state.initialized;
    state.initialized = previous | bit;
    if previous | bit == ALL_SOURCES {
        state.ready = true;
    }
}

/// A watch stopped or restarted its listing: its source is no longer
/// initialized and the cache is not ready. Reports whether the source had
/// been initialized.
pub fn source_unavailable(state: &mut Readiness, bit: u8) -> (was_initialized: bool)
    ensures
        final(state).initialized == old(state).initialized & !bit,
        final(state).ready == false,
        was_initialized == (old(state).initialized & bit != 0),
{
    let previous = state.initialized;
    state.initialized = previous & !bit;
    state.ready = false;
    previous & bit != 0
}

/// The cache is announced as ready only while every source is initialized.
pub open spec fn readiness_ok(s: Readiness) -> bool {
    s.ready ==> s.initialized == ALL_SOURCES
}

/// Readiness requires every source: the operations keep "ready implies all
/// three sources initialized" for the three source bits.
pub proof fn lemma_readiness_requires_every_source(s: Readiness, bit: u8)
    requires
        readiness_ok(s),
        bit == SOURCE_PODS || bit == SOURCE_REPLICA_SETS || bit == SOURCE_DEPLOYMENTS,
        s.initialized <= ALL_SOURCES,
    ensures
        readiness_ok(
            Readiness {
                initialized: s.initialized | bit,
                ready: if (s.initialized | bit) == ALL_SOURCES {
                    true
                } else {
                    s.ready
                },
            },
        ),
        readiness_ok(Readiness { initialized: s.initialized & !bit, ready: false }),
        (s.initialized | bit) <= ALL_SOURCES,
        (s.initialized & !bit) <= ALL_SOURCES,
{
    let i = s.initialized;
    assert((i | bit) <= 7u8 && (i & !bit) <= 7u8) by (bit_vector)
        requires
            i <= 7u8,
            bit == 1u8 || bit == 2u8 || bit == 4u8,
    ;
    if s.ready {
        assert((i | bit) == 7u8) by (bit_vector)
            requires
                i == 7u8,
                bit == 1u8 || bit == 2u8 || bit == 4u8,
        ;
    }
}

// ------------------------------------------------------------ counting misses

/// Counts an attribution that failed: a workload outside the configured scope
/// is filtered; a container that cannot be attributed is unattributed.
pub fn count_attribution_failure(counters: &mut Counters, error: AttributionError)
    ensures
        error == AttributionError::NotSelected ==> *final(counters) == (Counters {
            filtered: old(counters).filtered.wrapping_add(1),
            ..*old(counters)
        }),
        error != AttributionError::NotSelected ==> *final(counters) == (Counters {
            unattributed: old(counters).unattributed.wrapping_add(1),
            ..*old(counters)
        }),
{
    match error {
        AttributionError::NotSelected => {
            counters.filtered = counters.filtered.wrapping_add(1);
        },
        _ => {
            counters.unattributed = counters.unattributed.wrapping_add(1);
        },
    }
}

// --------------------------------------------------------------- the cache

/// `dashmap::DashMap`, the concurrent map the cache keeps its entries in; its
/// contents are known only through `container_entries` and
/// `controller_entries`.
#[verifier::external_type_specification]
#[verifier::external_body]
#[verifier::reject_recursive_types(K)]
#[verifier::reject_recursive_types(V)]
#[verifier::reject_recursive_types(S)]
pub struct ExDashMap<K, V, S>(DashMap<K, V, S>);

/// A controller that owns a Kubernetes object.
#[derive(Debug, PartialEq, Eq)]
pub struct Owner {
    pub uid: String,
    pub kind: String,
    pub name: String,
}

impl Clone for Owner {
    fn clone(&self) -> (r: Self)
        ensures
            r == *self,
    {
        Owner { uid: self.uid.clone(), kind: self.kind.clone(), name: self.name.clone() }
    }
}

/// A replica set or deployment, as the cache keeps it.
#[derive(Debug, PartialEq, Eq)]
pub struct Controller {
    pub uid: String,
    pub owner: Option<Owner>,
    pub labels: Labels,
}

impl Clone for Controller {
    fn clone(&self) -> (r: Self)
        ensures
            r.uid == self.uid,
            r.owner == self.owner,
            r.labels@ == self.labels@,
    {
        Controller {
            uid: self.uid.clone(),
            owner: match &self.owner {
                Some(o) => Some(o.clone()),
                None => None,
            },
            labels: crate::config::clone_labels(&self.labels),
        }
    }
}

/// A container the cache knows, with the pod that runs it. A container of a
/// deleted pod expires at a moment on the agent's monotonic clock.
#[derive(Debug, PartialEq, Eq)]
pub struct ContainerRecord {
    pub pod_uid: String,
    pub pod_name: String,
    pub namespace: String,
    pub container_name: String,
    pub owner: Owner,
    pub expires_at_ms: Option<u64>,
}

impl Clone for ContainerRecord {
    fn clone(&self) -> (r: Self)
        ensures
            r == *self,
    {
        ContainerRecord {
            pod_uid: self.pod_uid.clone(),
            pod_name: self.pod_name.clone(),
            namespace: self.namespace.clone(),
            container_name: self.container_name.clone(),
            owner: self.owner.clone(),
            expires_at_ms: self.expires_at_ms,
        }
    }
}

/// Containers by their normalized id.
pub type ContainerMap = DashMap<String, ContainerRecord>;

/// Replica sets or deployments by namespace and name.
pub type ControllerMap = DashMap<(String, String), Controller>;

/// The containers a map holds, by container id.
pub uninterp spec fn container_entries(m: ContainerMap) -> Map<
    Seq<char>,
    ContainerRecord,
>;

/// The controllers a map holds, by namespace and name.
pub uninterp spec fn controller_entries(m: ControllerMap) -> Map<
    (Seq<char>, Seq<char>),
    Controller,
>;

/// `DashMap::new` for containers: an empty map.
#[verifier::external_body]
fn new_container_map() -> (map: ContainerMap)
    ensures
        container_entries(map).dom().is_empty(),
{
    DashMap::new()
}

/// `DashMap::new` for controllers: an empty map.
#[verifier::external_body]
fn new_controller_map() -> (map: ControllerMap)
    ensures
        controller_entries(map).dom().is_empty(),
{
    DashMap::new()
}

/// `DashMap::insert` of a container: the id now maps to the record, any
/// earlier record under it replaced.
#[verifier::external_body]
fn insert_container(m: &mut ContainerMap, id: String, record: ContainerRecord)
    ensures
        container_entries(*final(m)) == container_entries(*old(m)).insert(id@, record),
{
    m.insert(id, record);
}

/// `DashMap::insert` of a controller under its namespace and name.
#[verifier::external_body]
fn insert_controller(
    m: &mut ControllerMap,
    key: (String, String),
    controller: Controller,
)
    ensures
        controller_entries(*final(m)) == controller_entries(*old(m)).insert(
            (key.0@, key.1@),
            controller,
        ),
{
    m.insert(key, controller);
}

/// `DashMap::get` of a container, read out as a copy of its record.
#[verifier::external_body]
fn get_container(m: &ContainerMap, id: &str) -> (r: Option<ContainerRecord>)
    ensures
        match r {
            Some(record) => container_entries(*m).contains_key(id@) && record == container_entries(
                *m,
            )[id@],
            None => !container_entries(*m).contains_key(id@),
        },
{
    m.get(id).map(|entry| entry.value().clone())
}

/// `DashMap::get` of a controller, read out as a copy.
#[verifier::external_body]
fn get_controller(m: &ControllerMap, key: &(String, String)) -> (r: Option<
    Controller,
>)
    ensures
        match r {
            Some(c) => controller_entries(*m).contains_key((key.0@, key.1@)) && c.uid
                == controller_entries(*m)[(key.0@, key.1@)].uid && c.owner == controller_entries(
                *m,
            )[(key.0@, key.1@)].owner && c.labels@ == controller_entries(*m)[(
                key.0@,
                key.1@,
            )].labels@,
            None => !controller_entries(*m).contains_key((key.0@, key.1@)),
        },
{
    m.get(key).map(|entry| entry.value().clone())
}

/// A record still counts at `now`: it has no expiry, or expires later.
pub open spec fn record_live(record: ContainerRecord, now_ms: u64) -> bool {
    match record.expires_at_ms {
        None => true,
        Some(expires) => expires > now_ms,
    }
}

fn is_live(record: &ContainerRecord, now_ms: u64) -> (r: bool)
    ensures
        r == record_live(*record, now_ms),
{
    match record.expires_at_ms {
        None => true,
        Some(expires) => expires > now_ms,
    }
}

/// `DashMap::retain`, keeping the records that are still live at `now`.
#[verifier::external_body]
fn retain_live(m: &mut ContainerMap, now_ms: u64)
    ensures
        container_entries(*final(m)) == container_entries(*old(m)).restrict(
            container_entries(*old(m)).dom().filter(
                |id: Seq<char>| record_live(container_entries(*old(m))[id], now_ms),
            ),
        ),
{
    m.retain(|_, record| is_live(record, now_ms));
}

/// A record of the given pod marked to expire; any other record as it was.
pub open spec fn expired_if_pod(record: ContainerRecord, pod_uid: Seq<char>, expires_ms: u64) -> ContainerRecord {
    if record.pod_uid@ == pod_uid {
        ContainerRecord { expires_at_ms: Some(expires_ms), ..record }
    } else {
        record
    }
}

fn expire_if_pod(record: ContainerRecord, pod_uid: &str, expires_ms: u64) -> (r: ContainerRecord)
    ensures
        r == expired_if_pod(record, pod_uid@, expires_ms),
{
    if same_text(record.pod_uid.as_str(), pod_uid) {
        ContainerRecord { expires_at_ms: Some(expires_ms), ..record }
    } else {
        record
    }
}

/// `DashMap::alter_all`, marking the records of a pod to expire.
#[verifier::external_body]
fn expire_pod_records(m: &mut ContainerMap, pod_uid: &str, expires_ms: u64)
    ensures
        container_entries(*final(m)) == container_entries(*old(m)).map_values(
            |r: ContainerRecord| expired_if_pod(r, pod_uid@, expires_ms),
        ),
{
    m.alter_all(|_, record| expire_if_pod(record, pod_uid, expires_ms));
}

/// An owner reference of a Kubernetes object.
#[derive(Clone, Debug, PartialEq, Eq)]
pub struct OwnerReference {
    pub uid: String,
    pub kind: String,
    pub name: String,
    pub controller: Option<bool>,
}

/// What the cache reads of a pod.
#[derive(Clone, Debug, PartialEq, Eq)]
pub struct PodInfo {
    pub uid: Option<String>,
    pub namespace: Option<String>,
    pub name: String,
    pub owner_references: Option<Vec<OwnerReference>>,
    /// Each container's name and runtime id, as its status reports them.
    pub container_statuses: Vec<(String, Option<String>)>,
}

/// What the cache reads of a replica set or deployment.
#[derive(Clone, Debug, PartialEq, Eq)]
pub struct ControllerInfo {
    pub uid: Option<String>,
    pub namespace: Option<String>,
    pub name: String,
    pub owner_references: Option<Vec<OwnerReference>>,
    pub labels: Option<Labels>,
}

/// The containers after recording, in order, the statuses of a pod with
/// this uid, name, namespace and controlling owner: each status with a
/// runtime id puts a record for its container under the normalized id, a
/// later status replacing an earlier one under the same id.
pub open spec fn statuses_applied(
    m: Map<Seq<char>, ContainerRecord>,
    statuses: Seq<(String, Option<String>)>,
    pod_uid: String,
    pod_name: String,
    namespace: String,
    owner: Owner,
) -> Map<Seq<char>, ContainerRecord>
    decreases statuses.len(),
{
    if statuses.len() == 0 {
        m
    } else {
        let before = statuses_applied(m, statuses.drop_last(), pod_uid, pod_name, namespace, owner);
        let status = statuses.last();
        match status.1 {
            Some(id) => before.insert(
                container_id_of(id@),
                ContainerRecord {
                    pod_uid,
                    pod_name,
                    namespace,
                    container_name: status.0,
                    owner,
                    expires_at_ms: None,
                },
            ),
            None => before,
        }
    }
}

/// The containers after a pod is recorded: unchanged unless the pod has a
/// uid, a namespace and a controlling owner; then every status with a
/// runtime id is recorded.
pub open spec fn pod_applied(m: Map<Seq<char>, ContainerRecord>, pod: PodInfo) -> Map<
    Seq<char>,
    ContainerRecord,
> {
    match (pod.uid, pod.namespace, controller_owner_of(pod.owner_references)) {
        (Some(uid), Some(namespace), Some(o)) => statuses_applied(
            m,
            pod.container_statuses@,
            uid,
            pod.name,
            namespace,
            Owner { uid: o.uid, kind: o.kind, name: o.name },
        ),
        _ => m,
    }
}

/// The first owner reference marked as the controller.
pub open spec fn controller_owner_of(owners: Option<Vec<OwnerReference>>) -> Option<OwnerReference> {
    match owners {
        None => None,
        Some(v) => first_controller(v@),
    }
}

pub open spec fn first_controller(s: Seq<OwnerReference>) -> Option<OwnerReference>
    decreases s.len(),
{
    if s.len() == 0 {
        None
    } else if s[0].controller == Some(true) {
        Some(s[0])
    } else {
        first_controller(s.drop_first())
    }
}

fn controller_owner(owners: &Option<Vec<OwnerReference>>) -> (r: Option<Owner>)
    ensures
        match controller_owner_of(*owners) {
            Some(o) => r == Some(Owner { uid: o.uid, kind: o.kind, name: o.name }),
            None => r is None,
        },
{
    match owners {
        None => None,
        Some(v) => {
            let mut i: usize = 0;
            assert(v@.skip(0) =~= v@);
            while i < v.len()
                invariant
                    i <= v@.len(),
                    controller_owner_of(*owners) == first_controller(v@),
                    first_controller(v@) == first_controller(v@.skip(i as int)),
                decreases v@.len() - i,
            {
                proof {
                    assert(v@.skip(i as int)[0] == v@[i as int]);
                    assert(v@.skip(i as int).drop_first() =~= v@.skip(i as int + 1));
                }
                let o = &v[i];
                match o.controller {
                    Some(true) => {
                        assert(v@.skip(i as int).len() > 0);
                        return Some(
                            Owner { uid: o.uid.clone(), kind: o.kind.clone(), name: o.name.clone() },
                        );
                    },
                    _ => {},
                }
                i = i + 1;
            }
            assert(v@.skip(i as int).len() == 0);
            None
        },
    }
}

/// What the cache knows of a container's workload, resolved from its owner
/// chain: a pod owned by a replica set belongs to the deployment that owns
/// that replica set; a pod owned by anything else belongs to that owner.
pub open spec fn workload_of(
    record: ContainerRecord,
    replica_sets: Map<(Seq<char>, Seq<char>), Controller>,
    deployments: Map<(Seq<char>, Seq<char>), Controller>,
) -> Result<(Seq<char>, Seq<char>, Seq<char>, Seq<(String, String)>), AttributionError> {
    if record.owner.kind@ == "ReplicaSet"@ {
        let rs_key = (record.namespace@, record.owner.name@);
        if !replica_sets.contains_key(rs_key) {
            Err(AttributionError::IncompleteOwnerChain)
        } else {
            match replica_sets[rs_key].owner {
                Some(owner) => if owner.kind@ != "Deployment"@ {
                    Err(AttributionError::IncompleteOwnerChain)
                } else {
                    let d_key = (record.namespace@, owner.name@);
                    if !deployments.contains_key(d_key) {
                        Err(AttributionError::IncompleteOwnerChain)
                    } else {
                        Ok(
                            (
                                deployments[d_key].uid@,
                                "Deployment"@,
                                owner.name@,
                                deployments[d_key].labels@,
                            ),
                        )
                    }
                },
                None => Err(AttributionError::IncompleteOwnerChain),
            }
        }
    } else {
        Ok((record.owner.uid@, record.owner.kind@, record.owner.name@, Seq::empty()))
    }
}

/// The attribution of a container that the cache resolved to a workload and
/// a selector.
pub open spec fn attribution_matches(
    a: KubernetesAttribution,
    container_id: Seq<char>,
    node_name: Seq<char>,
    record: ContainerRecord,
    workload: (Seq<char>, Seq<char>, Seq<char>, Seq<(String, String)>),
    selector: WorkloadSelector,
) -> bool {
    &&& a.project_id == 0
    &&& a.application_id == selector.application_id
    &&& a.node_name@ == node_name
    &&& a.namespace == record.namespace
    &&& a.pod_uid == record.pod_uid
    &&& a.pod_name == record.pod_name
    &&& a.container_id@ == container_id_of(container_id)
    &&& a.container_name == record.container_name
    &&& a.workload_uid@ == workload.0
    &&& a.workload_kind@ == workload.1
    &&& a.workload_name@ == workload.2
    &&& a.release == selector.release
}

/// `r` is what the cache answers for a container, given its containers,
/// replica sets and deployments: an unknown container, a broken owner chain,
/// a workload that no selector matches, or the attribution through the first
/// selector that matches.
pub open spec fn resolution(
    containers: Map<Seq<char>, ContainerRecord>,
    replica_sets: Map<(Seq<char>, Seq<char>), Controller>,
    deployments: Map<(Seq<char>, Seq<char>), Controller>,
    container_id: Seq<char>,
    node_name: Seq<char>,
    selectors: Seq<WorkloadSelector>,
    r: Result<KubernetesAttribution, AttributionError>,
) -> bool {
    let id = container_id_of(container_id);
    if !containers.contains_key(id) {
        r == Err::<KubernetesAttribution, AttributionError>(AttributionError::UnknownContainer)
    } else {
        let record = containers[id];
        match workload_of(record, replica_sets, deployments) {
            Err(e) => r == Err::<KubernetesAttribution, AttributionError>(e),
            Ok(w) => match first_match_view(selectors, record.namespace@, w) {
                None => r == Err::<KubernetesAttribution, AttributionError>(
                    AttributionError::NotSelected,
                ),
                Some(s) => r is Ok && attribution_matches(
                    r->Ok_0,
                    container_id,
                    node_name,
                    record,
                    w,
                    s,
                ),
            },
        }
    }
}

/// The counters after a failed attribution: a workload outside the scope is
/// filtered; any other failure is unattributed.
pub open spec fn failure_counted(before: Counters, error: AttributionError) -> Counters {
    if error == AttributionError::NotSelected {
        Counters { filtered: before.filtered.wrapping_add(1), ..before }
    } else {
        Counters { unattributed: before.unattributed.wrapping_add(1), ..before }
    }
}

/// Containers, replica sets and deployments seen by the Kubernetes watches.
#[derive(Debug)]
pub struct AttributionCache {
    containers: ContainerMap,
    replica_sets: ControllerMap,
    deployments: ControllerMap,
    terminated_ttl_ms: u64,
}

impl AttributionCache {
    pub closed spec fn containers(&self) -> Map<Seq<char>, ContainerRecord> {
        container_entries(self.containers)
    }

    pub closed spec fn replica_sets(&self) -> Map<(Seq<char>, Seq<char>), Controller> {
        controller_entries(self.replica_sets)
    }

    pub closed spec fn deployments(&self) -> Map<(Seq<char>, Seq<char>), Controller> {
        controller_entries(self.deployments)
    }

    pub closed spec fn terminated_ttl_ms(&self) -> u64 {
        self.terminated_ttl_ms
    }

    /// An empty cache that keeps the containers of a deleted pod for
    /// `terminated_ttl_ms` more milliseconds.
    pub fn new(terminated_ttl_ms: u64) -> (r: Self)
        ensures
            r.containers() == Map::<Seq<char>, ContainerRecord>::empty(),
            r.replica_sets() == Map::<(Seq<char>, Seq<char>), Controller>::empty(),
            r.deployments() == Map::<(Seq<char>, Seq<char>), Controller>::empty(),
            r.terminated_ttl_ms() == terminated_ttl_ms,
    {
        AttributionCache {
            containers: new_container_map(),
            replica_sets: new_controller_map(),
            deployments: new_controller_map(),
            terminated_ttl_ms,
        }
    }

    /// Records every container of a pod that has a uid, a namespace and a
    /// controlling owner, under its normalized container id.
    pub fn apply_pod(&mut self, pod: &PodInfo)
        ensures
            final(self).replica_sets() == old(self).replica_sets(),
            final(self).deployments() == old(self).deployments(),
            final(self).terminated_ttl_ms() == old(self).terminated_ttl_ms(),
            final(self).containers() == pod_applied(old(self).containers(), *pod),
    {
        let uid = match &pod.uid {
            Some(uid) => uid,
            None => {
                return;
            },
        };
        let namespace = match &pod.namespace {
            Some(ns) => ns,
            None => {
                return;
            },
        };
        let owner = match controller_owner(&pod.owner_references) {
            Some(owner) => owner,
            None => {
                return;
            },
        };
        let ghost statuses = pod.container_statuses@;
        let mut i: usize = 0;
        while i < pod.container_statuses.len()
            invariant
                i <= statuses.len(),
                statuses == pod.container_statuses@,
                self.replica_sets() == old(self).replica_sets(),
                self.deployments() == old(self).deployments(),
                self.terminated_ttl_ms() == old(self).terminated_ttl_ms(),
                self.containers() == statuses_applied(
                    old(self).containers(),
                    statuses.take(i as int),
                    *uid,
                    pod.name,
                    *namespace,
                    owner,
                ),
            decreases statuses.len() - i,
        {
            proof {
                let next = statuses.take(i + 1);
                assert(next.drop_last() =~= statuses.take(i as int));
                assert(next.last() == statuses[i as int]);
            }
            let (name, container_id) = (&pod.container_statuses[i].0, &pod.container_statuses[i].1);
            match container_id {
                Some(id) => {
                    let key = normalize_container_id(id.as_str());
                    let record = ContainerRecord {
                        pod_uid: uid.clone(),
                        pod_name: pod.name.clone(),
                        namespace: namespace.clone(),
                        container_name: name.clone(),
                        owner: owner.clone(),
                        expires_at_ms: None,
                    };
                    insert_container(&mut self.containers, key, record);
                },
                None => {},
            }
            i = i + 1;
        }
        assert(statuses.take(statuses.len() as int) =~= statuses);
    }

    /// Marks the containers of a deleted pod to expire `terminated_ttl_ms`
    /// after `now_ms` (saturating).
    pub fn delete_pod(&mut self, pod_uid: Option<&str>, now_ms: u64)
        ensures
            final(self).replica_sets() == old(self).replica_sets(),
            final(self).deployments() == old(self).deployments(),
            final(self).terminated_ttl_ms() == old(self).terminated_ttl_ms(),
            pod_uid is None ==> final(self).containers() == old(self).containers(),
            pod_uid matches Some(uid) ==> final(self).containers() == old(self).containers().map_values(
                |r: ContainerRecord| expired_if_pod(r, uid@, now_ms.saturating_add(old(self).terminated_ttl_ms())),
            ),
    {
        match pod_uid {
            None => {},
            Some(uid) => {
                let expires = now_ms.saturating_add(self.terminated_ttl_ms);
                expire_pod_records(&mut self.containers, uid, expires);
            },
        }
    }

    fn apply_controller(map: &mut ControllerMap, info: &ControllerInfo, owned: bool)
        ensures
            (info.namespace is None || info.uid is None) ==> controller_entries(*final(map))
                == controller_entries(*old(map)),
            (info.namespace is Some && info.uid is Some) ==> ({
                let ns = info.namespace->0;
                let uid = info.uid->0;
                let c = controller_entries(*final(map))[(ns@, info.name@)];
                &&& controller_entries(*final(map)) == controller_entries(*old(map)).insert(
                    (ns@, info.name@),
                    c,
                )
                &&& c.uid == uid
                &&& (owned ==> match controller_owner_of(info.owner_references) {
                    Some(o) => c.owner == Some(Owner { uid: o.uid, kind: o.kind, name: o.name }),
                    None => c.owner is None,
                })
                &&& (!owned ==> c.owner is None)
                &&& c.labels@ == (match info.labels {
                    Some(l) => l@,
                    None => Seq::empty(),
                })
            }),
    {
        let namespace = match &info.namespace {
            Some(ns) => ns,
            None => {
                return;
            },
        };
        let uid = match &info.uid {
            Some(uid) => uid,
            None => {
                return;
            },
        };
        let owner = if owned {
            controller_owner(&info.owner_references)
        } else {
            None
        };
        let labels = match &info.labels {
            Some(l) => crate::config::clone_labels(l),
            None => Vec::new(),
        };
        let key = (namespace.clone(), info.name.clone());
        let controller = Controller { uid: uid.clone(), owner, labels };
        insert_controller(map, key, controller);
    }

    /// Records a replica set, with the controller that owns it.
    pub fn apply_replica_set(&mut self, replica_set: &ControllerInfo)
        ensures
            final(self).containers() == old(self).containers(),
            final(self).deployments() == old(self).deployments(),
            final(self).terminated_ttl_ms() == old(self).terminated_ttl_ms(),
            (replica_set.namespace is None || replica_set.uid is None) ==> final(self).replica_sets()
                == old(self).replica_sets(),
            (replica_set.namespace is Some && replica_set.uid is Some) ==> ({
                let ns = replica_set.namespace->0;
                let uid = replica_set.uid->0;
                let c = final(self).replica_sets()[(ns@, replica_set.name@)];
                &&& final(self).replica_sets() == old(self).replica_sets().insert(
                    (ns@, replica_set.name@),
                    c,
                )
                &&& c.uid == uid
                &&& match controller_owner_of(replica_set.owner_references) {
                    Some(o) => c.owner == Some(Owner { uid: o.uid, kind: o.kind, name: o.name }),
                    None => c.owner is None,
                }
                &&& c.labels@ == (match replica_set.labels {
                    Some(l) => l@,
                    None => Seq::empty(),
                })
            }),
    {
        Self::apply_controller(&mut self.replica_sets, replica_set, true);
    }

    /// Records a deployment.
    pub fn apply_deployment(&mut self, deployment: &ControllerInfo)
        ensures
            final(self).containers() == old(self).containers(),
            final(self).replica_sets() == old(self).replica_sets(),
            final(self).terminated_ttl_ms() == old(self).terminated_ttl_ms(),
            (deployment.namespace is None || deployment.uid is None) ==> final(self).deployments()
                == old(self).deployments(),
            (deployment.namespace is Some && deployment.uid is Some) ==> ({
                let ns = deployment.namespace->0;
                let uid = deployment.uid->0;
                let c = final(self).deployments()[(ns@, deployment.name@)];
                &&& final(self).deployments() == old(self).deployments().insert(
                    (ns@, deployment.name@),
                    c,
                )
                &&& c.uid == uid
                &&& c.owner is None
                &&& c.labels@ == (match deployment.labels {
                    Some(l) => l@,
                    None => Seq::empty(),
                })
            }),
    {
        Self::apply_controller(&mut self.deployments, deployment, false);
    }

    /// Drops the containers that expired by `now_ms`.
    pub fn cleanup_expired(&mut self, now_ms: u64)
        ensures
            final(self).containers() == old(self).containers().restrict(
                old(self).containers().dom().filter(
                    |id: Seq<char>| record_live(old(self).containers()[id], now_ms),
                ),
            ),
            final(self).replica_sets() == old(self).replica_sets(),
            final(self).deployments() == old(self).deployments(),
            final(self).terminated_ttl_ms() == old(self).terminated_ttl_ms(),
    {
        retain_live(&mut self.containers, now_ms);
    }

    /// The attribution of a container at `now_ms`: its record (once expired
    /// records are dropped), its workload through the owner chain, and the
    /// first selector that matches that workload.
    pub fn resolve(
        &mut self,
        container_id: &str,
        node_name: &str,
        selectors: &[WorkloadSelector],
        now_ms: u64,
    ) -> (r: Result<KubernetesAttribution, AttributionError>)
        ensures
            final(self).containers() == old(self).containers().restrict(
                old(self).containers().dom().filter(
                    |id: Seq<char>| record_live(old(self).containers()[id], now_ms),
                ),
            ),
            final(self).replica_sets() == old(self).replica_sets(),
            final(self).deployments() == old(self).deployments(),
            final(self).terminated_ttl_ms() == old(self).terminated_ttl_ms(),
            resolution(
                final(self).containers(),
                final(self).replica_sets(),
                final(self).deployments(),
                container_id@,
                node_name@,
                selectors@,
                r,
            ),
    {
        self.cleanup_expired(now_ms);
        let id = normalize_container_id(container_id);
        let record = match get_container(&self.containers, id.as_str()) {
            Some(record) => record,
            None => {
                return Err(AttributionError::UnknownContainer);
            },
        };
        let (workload_uid, workload_kind, workload_name, workload_labels) = if same_text(
            record.owner.kind.as_str(),
            "ReplicaSet",
        ) {
            let rs_key = (record.namespace.clone(), record.owner.name.clone());
            let rs = match get_controller(&self.replica_sets, &rs_key) {
                Some(rs) => rs,
                None => {
                    return Err(AttributionError::IncompleteOwnerChain);
                },
            };
            let deployment_owner = match rs.owner {
                Some(owner) => owner,
                None => {
                    return Err(AttributionError::IncompleteOwnerChain);
                },
            };
            if !same_text(deployment_owner.kind.as_str(), "Deployment") {
                return Err(AttributionError::IncompleteOwnerChain);
            }
            let d_key = (record.namespace.clone(), deployment_owner.name.clone());
            let deployment = match get_controller(&self.deployments, &d_key) {
                Some(d) => d,
                None => {
                    return Err(AttributionError::IncompleteOwnerChain);
                },
            };
            (deployment.uid, String::from_str("Deployment"), deployment_owner.name, deployment.labels)
        } else {
            (
                record.owner.uid.clone(),
                record.owner.kind.clone(),
                record.owner.name.clone(),
                Vec::new(),
            )
        };
        let metadata = WorkloadMetadata {
            namespace: record.namespace.clone(),
            kind: workload_kind,
            name: workload_name,
            labels: workload_labels,
        };
        let ghost w = (workload_uid@, metadata.kind@, metadata.name@, metadata.labels@);
        proof {
            assert(workload_of(record, self.replica_sets(), self.deployments()) == Ok::<
                (Seq<char>, Seq<char>, Seq<char>, Seq<(String, String)>),
                AttributionError,
            >(w));
        }
        let mut i: usize = 0;
        assert(selectors@.skip(0) =~= selectors@);
        #[verifier::loop_isolation(false)]
        while i < selectors.len()
            invariant
                i <= selectors@.len(),
                first_match_view(selectors@, record.namespace@, w) == first_match_view(
                    selectors@.skip(i as int),
                    record.namespace@,
                    w,
                ),
                metadata.namespace@ == record.namespace@,
                metadata.kind@ == w.1,
                metadata.name@ == w.2,
                metadata.labels@ == w.3,
            decreases selectors@.len() - i,
        {
            proof {
                assert(selectors@.skip(i as int)[0] == selectors@[i as int]);
                assert(selectors@.skip(i as int).drop_first() =~= selectors@.skip(i as int + 1));
                lemma_matches_view(selectors@[i as int], metadata, record.namespace@, w);
            }
            let selector = &selectors[i];
            if selector.matches(&metadata) {
                return Ok(
                    KubernetesAttribution {
                        project_id: 0,
                        application_id: selector.application_id,
                        node_name: String::from_str(node_name),
                        namespace: record.namespace,
                        pod_uid: record.pod_uid,
                        pod_name: record.pod_name,
                        container_id: id,
                        container_name: record.container_name,
                        workload_uid,
                        workload_kind: metadata.kind,
                        workload_name: metadata.name,
                        release: match &selector.release {
                            Some(r) => Some(r.clone()),
                            None => None,
                        },
                    },
                );
            }
            i = i + 1;
        }
        proof {
            assert(selectors@.skip(i as int).len() == 0);
        }
        Err(AttributionError::NotSelected)
    }
}

/// The first selector matching a workload given by the views of its
/// namespace, kind, name and labels.
pub open spec fn first_match_view(
    selectors: Seq<WorkloadSelector>,
    namespace: Seq<char>,
    w: (Seq<char>, Seq<char>, Seq<char>, Seq<(String, String)>),
) -> Option<WorkloadSelector>
    decreases selectors.len(),
{
    if selectors.len() == 0 {
        None
    } else if selector_matches_view(selectors[0], namespace, w) {
        Some(selectors[0])
    } else {
        first_match_view(selectors.drop_first(), namespace, w)
    }
}

pub open spec fn selector_matches_view(
    s: WorkloadSelector,
    namespace: Seq<char>,
    w: (Seq<char>, Seq<char>, Seq<char>, Seq<(String, String)>),
) -> bool {
    &&& s.namespace@ == namespace
    &&& s.kind@ == w.1
    &&& s.name@ == w.2
    &&& forall|i: int|
        0 <= i < s.labels@.len() ==> crate::config::label_value(w.3, (#[trigger] s.labels@[i]).0@)
            == Some(s.labels@[i].1@)
}

/// The selector an attribution goes through is a configured selector that
/// chooses the workload: it names the workload's namespace, kind and name,
/// and the workload carries every one of its labels with the same value.
/// A selector with a label never chooses a workload without labels.
pub proof fn lemma_selected_workload_carries_labels(
    selectors: Seq<WorkloadSelector>,
    namespace: Seq<char>,
    w: (Seq<char>, Seq<char>, Seq<char>, Seq<(String, String)>),
)
    requires
        first_match_view(selectors, namespace, w) is Some,
    ensures
        ({
            let s = first_match_view(selectors, namespace, w)->0;
            &&& selectors.contains(s)
            &&& s.namespace@ == namespace && s.kind@ == w.1 && s.name@ == w.2
            &&& forall|i: int|
                0 <= i < s.labels@.len() ==> exists|j: int|
                    0 <= j < w.3.len() && (#[trigger] w.3[j]).0@ == (#[trigger] s.labels@[i]).0@
                        && w.3[j].1@ == s.labels@[i].1@
            &&& s.labels@.len() > 0 ==> w.3.len() > 0
        }),
    decreases selectors.len(),
{
    if selector_matches_view(selectors[0], namespace, w) {
        let s = selectors[0];
        assert(selectors.contains(s)) by {
            assert(selectors[0] == s);
        }
        assert forall|i: int| 0 <= i < s.labels@.len() implies exists|j: int|
            0 <= j < w.3.len() && (#[trigger] w.3[j]).0@ == (#[trigger] s.labels@[i]).0@
                && w.3[j].1@ == s.labels@[i].1@ by {
            lemma_label_value_present(w.3, s.labels@[i].0@);
        }
        if s.labels@.len() > 0 {
            assert(crate::config::label_value(w.3, s.labels@[0].0@) is Some);
        }
    } else {
        lemma_selected_workload_carries_labels(selectors.drop_first(), namespace, w);
        let s = first_match_view(selectors, namespace, w)->0;
        assert(selectors.drop_first().contains(s));
        let k = choose|k: int| 0 <= k < selectors.drop_first().len() && selectors.drop_first()[k] == s;
        assert(selectors[k + 1] == s);
    }
}

proof fn lemma_matches_view(
    s: WorkloadSelector,
    m: WorkloadMetadata,
    namespace: Seq<char>,
    w: (Seq<char>, Seq<char>, Seq<char>, Seq<(String, String)>),
)
    requires
        m.namespace@ == namespace,
        m.kind@ == w.1,
        m.name@ == w.2,
        m.labels@ == w.3,
    ensures
        selector_matches(s, m) == selector_matches_view(s, namespace, w),
{
}

/// Resolves a container's attribution and counts a failure: a container
/// outside the configured scope is filtered; one that cannot be attributed
/// (no id, unknown, broken owner chain) is unattributed.
pub fn resolve_and_count(
    cache: &mut AttributionCache,
    counters: &mut Counters,
    container_id: Option<&str>,
    node_name: &str,
    selectors: &[WorkloadSelector],
    now_ms: u64,
) -> (r: Option<KubernetesAttribution>)
    ensures
        container_id is None ==> r is None && *final(counters) == failure_counted(
            *old(counters),
            AttributionError::UnknownContainer,
        ) && final(cache).containers() == old(cache).containers(),
        container_id matches Some(id) ==> final(cache).containers() == old(cache).containers().restrict(
            old(cache).containers().dom().filter(
                |k: Seq<char>| record_live(old(cache).containers()[k], now_ms),
            ),
        ) && exists|res: Result<KubernetesAttribution, AttributionError>|
            #[trigger] resolution(
                final(cache).containers(),
                final(cache).replica_sets(),
                final(cache).deployments(),
                id@,
                node_name@,
                selectors@,
                res,
            ) && match res {
                Ok(a) => r == Some(a) && *final(counters) == *old(counters),
                Err(e) => r is None && *final(counters) == failure_counted(*old(counters), e),
            },
        final(cache).replica_sets() == old(cache).replica_sets(),
        final(cache).deployments() == old(cache).deployments(),
        final(cache).terminated_ttl_ms() == old(cache).terminated_ttl_ms(),
{
    let result = match container_id {
        None => Err(AttributionError::UnknownContainer),
        Some(id) => cache.resolve(id, node_name, selectors, now_ms),
    };
    match result {
        Ok(attribution) => Some(attribution),
        Err(error) => {
            count_attribution_failure(counters, error);
            None
        },
    }
}

/// A deleted pod's containers stay resolvable until their time to live has
/// passed and are dropped by the first cleanup after it; the containers of
/// other pods are kept as they were.
pub proof fn lemma_deleted_pod_expires(
    containers: Map<Seq<char>, ContainerRecord>,
    pod_uid: Seq<char>,
    deleted_at_ms: u64,
    ttl_ms: u64,
    now_ms: u64,
    id: Seq<char>,
)
    requires
        containers.contains_key(id),
        containers[id].expires_at_ms is None,
    ensures
        ({
            let expires = deleted_at_ms.saturating_add(ttl_ms);
            let marked = containers.map_values(
                |r: ContainerRecord| expired_if_pod(r, pod_uid, expires),
            );
            let kept = marked.restrict(
                marked.dom().filter(|k: Seq<char>| record_live(marked[k], now_ms)),
            );
            &&& containers[id].pod_uid@ == pod_uid ==> (kept.contains_key(id) <==> now_ms < expires)
            &&& containers[id].pod_uid@ != pod_uid ==> kept.contains_key(id) && kept[id]
                == containers[id]
        }),
{
}

} // verus!
