//! The agent's configuration: its shape, the rules it must meet, and how a
//! workload selector matches a workload.

use vstd::prelude::*;

use crate::text::{append, byte_len, same_text, trim_whitespace, trim_ws, utf8_len};
use crate::web_api::{debug_str, spec_debug_str};

verus! {

pub const API_VERSION: &'static str = "okoscope.io/v1alpha1";

pub const KIND: &'static str = "AgentConfiguration";

/// Longest release label, in bytes.
pub const MAX_RELEASE_BYTES: usize = 200;

#[derive(Clone, Debug, PartialEq, Eq)]
pub struct AgentConfig {
    pub api_version: String,
    pub kind: String,
    pub server: ServerConfig,
    pub identity: IdentityConfig,
    pub scope: ScopeConfig,
    pub observation: ObservationConfig,
    pub safety: SafetyLimits,
}

#[derive(Clone, Debug, PartialEq, Eq)]
pub struct ServerConfig {
    pub endpoint: String,
    pub credential_file: String,
    pub development_plaintext: bool,
    pub ca_file: Option<String>,
}

#[derive(Clone, Debug, PartialEq, Eq)]
pub struct IdentityConfig {
    pub node_name: String,
    pub cluster_name: String,
}

#[derive(Clone, Debug, PartialEq, Eq)]
pub struct ScopeConfig {
    pub workloads: Vec<WorkloadSelector>,
}

/// Labels of a workload or a selector, as key/value pairs.
pub type Labels = Vec<(String, String)>;

/// Which workloads an agent observes and the application their events go to.
#[derive(Clone, Debug, PartialEq, Eq)]
pub struct WorkloadSelector {
    pub project_id: u128,
    pub application_id: u128,
    pub namespace: String,
    pub kind: String,
    pub name: String,
    pub release: Option<String>,
    pub labels: Labels,
}

/// What the agent knows of a workload it saw.
#[derive(Clone, Debug, PartialEq, Eq)]
pub struct WorkloadMetadata {
    pub namespace: String,
    pub kind: String,
    pub name: String,
    pub labels: Labels,
}

#[derive(Clone, Debug, PartialEq, Eq)]
pub struct ObservationConfig {
    pub process_exec: bool,
    pub syscalls: Vec<String>,
}

#[derive(Clone, Copy, Debug, PartialEq, Eq)]
pub struct SafetyLimits {
    pub queue_capacity: usize,
    pub batch_size: usize,
    pub max_events_per_second: u32,
}

impl Default for SafetyLimits {
    fn default() -> (r: Self)
        ensures
            r == (SafetyLimits { queue_capacity: 4096, batch_size: 256, max_events_per_second: 10_000 }),
    {
        SafetyLimits { queue_capacity: 4096, batch_size: 256, max_events_per_second: 10_000 }
    }
}

/// Why a configuration is refused.
#[derive(Clone, Debug, PartialEq, Eq)]
pub enum ConfigError {
    ApiVersion(String),
    Kind(String),
    MissingWorkload,
    MissingObservation,
    InvalidSelector(&'static str),
    TlsRequired,
    /// An allowed syscall that the architecture's table does not resolve,
    /// with what the table reported.
    Syscall(String),
}

/// The text of a configuration error, as its `Display` writes it.
pub open spec fn config_error_text(e: ConfigError) -> Seq<char> {
    match e {
        ConfigError::ApiVersion(v) => "unsupported apiVersion "@ + spec_debug_str(v@),
        ConfigError::Kind(v) => "unsupported kind "@ + spec_debug_str(v@),
        ConfigError::MissingWorkload => "at least one workload selector is required"@,
        ConfigError::MissingObservation => "at least one observation capability is required"@,
        ConfigError::InvalidSelector(m) => "invalid workload selector: "@ + m@,
        ConfigError::TlsRequired =>
            "TLS is required unless developmentPlaintext is explicitly enabled"@,
        ConfigError::Syscall(m) => m@,
    }
}

impl ConfigError {
    /// Human-readable description of the error.
    pub fn message(&self) -> (r: String)
        ensures
            r@ == config_error_text(*self),
    {
        let mut s = String::new();
        match self {
            ConfigError::ApiVersion(v) => {
                append(&mut s, "unsupported apiVersion ");
                let d = debug_str(v.as_str());
                append(&mut s, d.as_str());
            },
            ConfigError::Kind(v) => {
                append(&mut s, "unsupported kind ");
                let d = debug_str(v.as_str());
                append(&mut s, d.as_str());
            },
            ConfigError::MissingWorkload => {
                append(&mut s, "at least one workload selector is required");
            },
            ConfigError::MissingObservation => {
                append(&mut s, "at least one observation capability is required");
            },
            ConfigError::InvalidSelector(m) => {
                append(&mut s, "invalid workload selector: ");
                append(&mut s, m);
            },
            ConfigError::TlsRequired => {
                append(&mut s, "TLS is required unless developmentPlaintext is explicitly enabled");
            },
            ConfigError::Syscall(m) => {
                append(&mut s, m.as_str());
            },
        }
        proof {
            reveal_strlit("");
        }
        s
    }
}

/// A copy of some labels.
pub fn clone_labels(labels: &Labels) -> (r: Labels)
    ensures
        r@ == labels@,
{
    let mut out: Labels = Vec::new();
    let mut i: usize = 0;
    while i < labels.len()
        invariant
            i <= labels@.len(),
            out@ == labels@.take(i as int),
        decreases labels@.len() - i,
    {
        out.push((labels[i].0.clone(), labels[i].1.clone()));
        i = i + 1;
        assert(out@ =~= labels@.take(i as int));
    }
    assert(labels@.take(i as int) =~= labels@);
    out
}

/// The value of the first label with the given key.
pub open spec fn label_value(labels: Seq<(String, String)>, key: Seq<char>) -> Option<Seq<char>>
    decreases labels.len(),
{
    if labels.len() == 0 {
        None
    } else if labels[0].0@ == key {
        Some(labels[0].1@)
    } else {
        label_value(labels.drop_first(), key)
    }
}

/// A selector matches a workload with its namespace, kind and name that
/// carries every label of the selector with the same value.
pub open spec fn selector_matches(s: WorkloadSelector, w: WorkloadMetadata) -> bool {
    &&& s.namespace@ == w.namespace@
    &&& s.kind@ == w.kind@
    &&& s.name@ == w.name@
    &&& forall|i: int|
        0 <= i < s.labels@.len() ==> label_value(w.labels@, (#[trigger] s.labels@[i]).0@) == Some(
            s.labels@[i].1@,
        )
}

fn lookup_label<'a>(labels: &'a Labels, key: &str) -> (r: Option<&'a String>)
    ensures
        match label_value(labels@, key@) {
            Some(v) => r is Some && r->0@ == v,
            None => r is None,
        },
{
    let mut i: usize = 0;
    assert(labels@.skip(0) =~= labels@);
    while i < labels.len()
        invariant
            i <= labels@.len(),
            label_value(labels@, key@) == label_value(labels@.skip(i as int), key@),
        decreases labels@.len() - i,
    {
        proof {
            assert(labels@.skip(i as int)[0] == labels@[i as int]);
            assert(labels@.skip(i as int).drop_first() =~= labels@.skip(i as int + 1));
        }
        if same_text(labels[i].0.as_str(), key) {
            return Some(&labels[i].1);
        }
        i = i + 1;
    }
    proof {
        assert(labels@.skip(i as int).len() == 0);
    }
    None
}

impl WorkloadSelector {
    /// Whether the selector chooses the workload: its labels must all be
    /// present (they are ANDed; selectors are ORed by their caller).
    pub fn matches(&self, workload: &WorkloadMetadata) -> (r: bool)
        ensures
            r == selector_matches(*self, *workload),
    {
        if !same_text(self.namespace.as_str(), workload.namespace.as_str()) || !same_text(
            self.kind.as_str(),
            workload.kind.as_str(),
        ) || !same_text(self.name.as_str(), workload.name.as_str()) {
            return false;
        }
        let mut i: usize = 0;
        while i < self.labels.len()
            invariant
                i <= self.labels@.len(),
                forall|j: int|
                    0 <= j < i ==> label_value(workload.labels@, (#[trigger] self.labels@[j]).0@)
                        == Some(self.labels@[j].1@),
            decreases self.labels@.len() - i,
        {
            let (key, value) = (&self.labels[i].0, &self.labels[i].1);
            match lookup_label(&workload.labels, key.as_str()) {
                Some(found) => {
                    if !same_text(found.as_str(), value.as_str()) {
                        return false;
                    }
                },
                None => {
                    return false;
                },
            }
            i = i + 1;
        }
        true
    }
}

/// The first allowed syscall that the architecture's table does not
/// resolve: `faults[i]` is what resolving the `i`th name reported, none when
/// it resolved.
pub open spec fn syscalls_fault(faults: Seq<Option<String>>) -> Option<ConfigError>
    decreases faults.len(),
{
    if faults.len() == 0 {
        None
    } else {
        match faults[0] {
            Some(m) => Some(ConfigError::Syscall(m)),
            None => syscalls_fault(faults.drop_first()),
        }
    }
}

/// The first rule a configuration breaks, given what resolving each allowed
/// syscall on the agent's architecture reported.
pub open spec fn config_fault(c: AgentConfig, syscall_faults: Seq<Option<String>>) -> Option<ConfigError> {
    if c.api_version@ != API_VERSION@ {
        Some(ConfigError::ApiVersion(c.api_version))
    } else if c.kind@ != KIND@ {
        Some(ConfigError::Kind(c.kind))
    } else if c.scope.workloads@.len() == 0 {
        Some(ConfigError::MissingWorkload)
    } else if !c.observation.process_exec && c.observation.syscalls@.len() == 0 {
        Some(ConfigError::MissingObservation)
    } else if !c.server.development_plaintext && (c.server.ca_file matches Some(f) ==> f@.len()
        == 0) {
        Some(ConfigError::TlsRequired)
    } else if c.safety.queue_capacity == 0 || c.safety.batch_size == 0 || c.safety.batch_size
        > c.safety.queue_capacity {
        Some(
            ConfigError::InvalidSelector(
                "safety limits must be non-zero and batchSize must not exceed queueCapacity",
            ),
        )
    } else {
        match selectors_fault(c.scope.workloads@) {
            Some(e) => Some(e),
            None => syscalls_fault(syscall_faults),
        }
    }
}

/// The first selector rule broken: a selector needs a namespace, kind and
/// name, and a release of 1 to 200 bytes when it has one.
pub open spec fn selectors_fault(s: Seq<WorkloadSelector>) -> Option<ConfigError>
    decreases s.len(),
{
    if s.len() == 0 {
        None
    } else if s[0].namespace@.len() == 0 || s[0].kind@.len() == 0 || s[0].name@.len() == 0 {
        Some(ConfigError::InvalidSelector("namespace, kind, and name are required"))
    } else if s[0].release matches Some(r) && (r@.len() == 0 || utf8_len(r@) > MAX_RELEASE_BYTES) {
        Some(ConfigError::InvalidSelector("release must be trimmed and contain 1..=200 bytes"))
    } else {
        selectors_fault(s.drop_first())
    }
}

impl AgentConfig {
    /// Checks the configuration's rules, in order, the allowed syscalls last:
    /// `syscall_faults` holds, for each allowed syscall in order, what
    /// resolving it on the agent's architecture reported (none when it
    /// resolved).
    pub fn validate(&self, syscall_faults: &Vec<Option<String>>) -> (r: Result<(), ConfigError>)
        requires
            syscall_faults@.len() == self.observation.syscalls@.len(),
        ensures
            r == (match config_fault(*self, syscall_faults@) {
                Some(e) => Err::<(), ConfigError>(e),
                None => Ok(()),
            }),
    {
        if !same_text(self.api_version.as_str(), API_VERSION) {
            return Err(ConfigError::ApiVersion(self.api_version.clone()));
        }
        if !same_text(self.kind.as_str(), KIND) {
            return Err(ConfigError::Kind(self.kind.clone()));
        }
        if self.scope.workloads.len() == 0 {
            return Err(ConfigError::MissingWorkload);
        }
        if !self.observation.process_exec && self.observation.syscalls.len() == 0 {
            return Err(ConfigError::MissingObservation);
        }
        let ca_missing = match &self.server.ca_file {
            Some(f) => f.as_str().is_empty(),
            None => true,
        };
        if !self.server.development_plaintext && ca_missing {
            return Err(ConfigError::TlsRequired);
        }
        if self.safety.queue_capacity == 0 || self.safety.batch_size == 0 || self.safety.batch_size
            > self.safety.queue_capacity {
            return Err(
                ConfigError::InvalidSelector(
                    "safety limits must be non-zero and batchSize must not exceed queueCapacity",
                ),
            );
        }
        let ghost all = self.scope.workloads@;
        let mut i: usize = 0;
        assert(all.skip(0) =~= all);
        while i < self.scope.workloads.len()
            invariant
                all == self.scope.workloads@,
                i <= all.len(),
                config_fault(*self, syscall_faults@) == match selectors_fault(all.skip(i as int)) {
                    Some(e) => Some(e),
                    None => syscalls_fault(syscall_faults@),
                },
            decreases all.len() - i,
        {
            proof {
                assert(all.skip(i as int)[0] == all[i as int]);
                assert(all.skip(i as int).drop_first() =~= all.skip(i as int + 1));
            }
            let selector = &self.scope.workloads[i];
            if selector.namespace.as_str().is_empty() || selector.kind.as_str().is_empty()
                || selector.name.as_str().is_empty() {
                return Err(ConfigError::InvalidSelector("namespace, kind, and name are required"));
            }
            match &selector.release {
                Some(release) => {
                    if release.as_str().is_empty() || byte_len(release.as_str())
                        > MAX_RELEASE_BYTES {
                        return Err(
                            ConfigError::InvalidSelector(
                                "release must be trimmed and contain 1..=200 bytes",
                            ),
                        );
                    }
                },
                None => {},
            }
            i = i + 1;
        }
        proof {
            assert(all.skip(i as int).len() == 0);
        }
        let ghost faults = syscall_faults@;
        let mut j: usize = 0;
        assert(faults.skip(0) =~= faults);
        while j < syscall_faults.len()
            invariant
                faults == syscall_faults@,
                j <= faults.len(),
                config_fault(*self, faults) == syscalls_fault(faults.skip(j as int)),
            decreases faults.len() - j,
        {
            proof {
                assert(faults.skip(j as int)[0] == faults[j as int]);
                assert(faults.skip(j as int).drop_first() =~= faults.skip(j as int + 1));
            }
            match &syscall_faults[j] {
                Some(m) => {
                    return Err(ConfigError::Syscall(m.clone()));
                },
                None => {},
            }
            j = j + 1;
        }
        proof {
            assert(faults.skip(j as int).len() == 0);
        }
        Ok(())
    }

    /// A configuration as read: each selector's release trimmed, then the
    /// rules checked, given what resolving each allowed syscall on the
    /// agent's architecture reported.
    pub fn from_parsed(config: AgentConfig, syscall_faults: &Vec<Option<String>>) -> (r: Result<AgentConfig, ConfigError>)
        requires
            syscall_faults@.len() == config.observation.syscalls@.len(),
        ensures
            r matches Ok(n) ==> releases_trimmed(n, config) && config_fault(n, syscall_faults@) is None,
            r matches Err(e) ==> exists|n: AgentConfig|
                releases_trimmed(n, config) && config_fault(n, syscall_faults@) == Some(e),
    {
        let ghost original = config;
        let mut config = config;
        let mut rest: Vec<WorkloadSelector> = Vec::new();
        std::mem::swap(&mut rest, &mut config.scope.workloads);
        assert(rest@ == original.scope.workloads@.skip(0));
        let mut workloads: Vec<WorkloadSelector> = Vec::new();
        while rest.len() > 0
            invariant
                workloads@.len() + rest@.len() == original.scope.workloads@.len(),
                rest@ == original.scope.workloads@.skip(workloads@.len() as int),
                forall|i: int|
                    0 <= i < workloads@.len() ==> selector_trimmed(
                        #[trigger] workloads@[i],
                        original.scope.workloads@[i],
                    ),
            decreases rest@.len(),
        {
            let ghost k = workloads@.len() as int;
            let s = rest.remove(0);
            proof {
                assert(s == original.scope.workloads@[k]);
                assert(rest@ =~= original.scope.workloads@.skip(k + 1));
            }
            let release = match &s.release {
                Some(r) => Some(trim_whitespace(r.as_str())),
                None => None,
            };
            let trimmed = WorkloadSelector { release, ..s };
            workloads.push(trimmed);
        }
        config.scope.workloads = workloads;
        proof {
            assert(config == (AgentConfig { scope: config.scope, ..original }));
        }
        proof {
            assert(releases_trimmed(config, original));
        }
        match config.validate(syscall_faults) {
            Ok(()) => Ok(config),
            Err(e) => Err(e),
        }
    }
}

/// The release after trimming: the trimmed text of the one given.
pub open spec fn release_trimmed(after: Option<String>, before: Option<String>) -> bool {
    match before {
        None => after is None,
        Some(b) => after matches Some(a) && a@ == trim_ws(b@),
    }
}

/// The selector with its release trimmed and all else kept.
pub open spec fn selector_trimmed(n: WorkloadSelector, c: WorkloadSelector) -> bool {
    &&& n == (WorkloadSelector { release: n.release, ..c })
    &&& release_trimmed(n.release, c.release)
}

/// The configuration with every selector's release trimmed and all else kept.
pub open spec fn releases_trimmed(n: AgentConfig, c: AgentConfig) -> bool {
    &&& n == (AgentConfig { scope: n.scope, ..c })
    &&& n.scope.workloads@.len() == c.scope.workloads@.len()
    &&& forall|i: int|
        0 <= i < c.scope.workloads@.len() ==> selector_trimmed(
            #[trigger] n.scope.workloads@[i],
            c.scope.workloads@[i],
        )
}

proof fn lemma_selectors_fault_determined(a: Seq<WorkloadSelector>, b: Seq<WorkloadSelector>)
    requires
        a.len() == b.len(),
        forall|i: int|
            0 <= i < a.len() ==> (#[trigger] a[i]).namespace@ == b[i].namespace@ && a[i].kind@
                == b[i].kind@ && a[i].name@ == b[i].name@ && (a[i].release is Some <==> b[i].release is Some)
                && (a[i].release is Some ==> a[i].release->0@ == b[i].release->0@),
    ensures
        selectors_fault(a) == selectors_fault(b),
    decreases a.len(),
{
    if a.len() > 0 {
        assert forall|i: int| 0 <= i < a.drop_first().len() implies (#[trigger] a.drop_first()[i]).namespace@
            == b.drop_first()[i].namespace@ && a.drop_first()[i].kind@ == b.drop_first()[i].kind@
            && a.drop_first()[i].name@ == b.drop_first()[i].name@ && (a.drop_first()[i].release is Some
            <==> b.drop_first()[i].release is Some) && (a.drop_first()[i].release is Some
            ==> a.drop_first()[i].release->0@ == b.drop_first()[i].release->0@) by {
            assert(a.drop_first()[i] == a[i + 1]);
            assert(b.drop_first()[i] == b[i + 1]);
        }
        lemma_selectors_fault_determined(a.drop_first(), b.drop_first());
    }
}

/// An accepted configuration is one the agent can run: it names the
/// supported API version and kind, selects at least one workload, observes
/// something (process execution or at least one syscall), uses TLS unless
/// plaintext is explicitly enabled, has workable safety limits, and every
/// allowed syscall resolved.
pub proof fn lemma_accepted_config_is_runnable(c: AgentConfig, syscall_faults: Seq<Option<String>>)
    requires
        config_fault(c, syscall_faults) is None,
    ensures
        c.api_version@ == API_VERSION@,
        c.kind@ == KIND@,
        c.scope.workloads@.len() > 0,
        c.observation.process_exec || c.observation.syscalls@.len() > 0,
        c.server.development_plaintext || (c.server.ca_file matches Some(f) && f@.len() > 0),
        0 < c.safety.batch_size <= c.safety.queue_capacity,
        forall|i: int| 0 <= i < syscall_faults.len() ==> (#[trigger] syscall_faults[i]) is None,
{
    lemma_no_syscall_fault(syscall_faults);
}

proof fn lemma_no_syscall_fault(faults: Seq<Option<String>>)
    requires
        syscalls_fault(faults) is None,
    ensures
        forall|i: int| 0 <= i < faults.len() ==> (#[trigger] faults[i]) is None,
    decreases faults.len(),
{
    if faults.len() > 0 {
        lemma_no_syscall_fault(faults.drop_first());
        assert forall|i: int| 0 <= i < faults.len() implies (#[trigger] faults[i]) is None by {
            if i > 0 {
                assert(faults[i] == faults.drop_first()[i - 1]);
            }
        }
    }
}

/// The value a key has among some labels is carried by one of them.
pub(crate) proof fn lemma_label_value_present(labels: Seq<(String, String)>, key: Seq<char>)
    requires
        label_value(labels, key) is Some,
    ensures
        exists|j: int|
            0 <= j < labels.len() && (#[trigger] labels[j]).0@ == key && labels[j].1@ == label_value(
                labels,
                key,
            )->0,
    decreases labels.len(),
{
    if labels[0].0@ != key {
        lemma_label_value_present(labels.drop_first(), key);
        let j = choose|j: int|
            0 <= j < labels.drop_first().len() && (#[trigger] labels.drop_first()[j]).0@ == key
                && labels.drop_first()[j].1@ == label_value(labels.drop_first(), key)->0;
        assert(labels[j + 1] == labels.drop_first()[j]);
    } else {
        assert(labels[0].0@ == key);
    }
}

/// A selector chooses only a workload of its namespace, kind and name that
/// carries every one of its labels with the same value; so a selector with a
/// label never chooses a workload without labels.
pub proof fn lemma_selector_requires_its_labels(s: WorkloadSelector, w: WorkloadMetadata)
    requires
        selector_matches(s, w),
    ensures
        s.namespace@ == w.namespace@ && s.kind@ == w.kind@ && s.name@ == w.name@,
        forall|i: int|
            0 <= i < s.labels@.len() ==> exists|j: int|
                0 <= j < w.labels@.len() && (#[trigger] w.labels@[j]).0@ == (#[trigger] s.labels@[i]).0@
                    && w.labels@[j].1@ == s.labels@[i].1@,
        s.labels@.len() > 0 ==> w.labels@.len() > 0,
{
    assert forall|i: int| 0 <= i < s.labels@.len() implies exists|j: int|
        0 <= j < w.labels@.len() && (#[trigger] w.labels@[j]).0@ == (#[trigger] s.labels@[i]).0@
            && w.labels@[j].1@ == s.labels@[i].1@ by {
        lemma_label_value_present(w.labels@, s.labels@[i].0@);
    }
    if s.labels@.len() > 0 {
        assert(label_value(w.labels@, s.labels@[0].0@) is Some);
    }
}

/// Trimming the releases settles whether a configuration is accepted and
/// why not: any two trimmings of the same configuration meet the same first
/// broken rule.
pub proof fn lemma_trimmed_fault_determined(
    n1: AgentConfig,
    n2: AgentConfig,
    c: AgentConfig,
    syscall_faults: Seq<Option<String>>,
)
    requires
        releases_trimmed(n1, c),
        releases_trimmed(n2, c),
    ensures
        config_fault(n1, syscall_faults) == config_fault(n2, syscall_faults),
{
    let a = n1.scope.workloads@;
    let b = n2.scope.workloads@;
    assert forall|i: int| 0 <= i < a.len() implies (#[trigger] a[i]).namespace@ == b[i].namespace@
        && a[i].kind@ == b[i].kind@ && a[i].name@ == b[i].name@ && (a[i].release is Some
        <==> b[i].release is Some) && (a[i].release is Some ==> a[i].release->0@
        == b[i].release->0@) by {
        assert(selector_trimmed(a[i], c.scope.workloads@[i]));
        assert(selector_trimmed(b[i], c.scope.workloads@[i]));
    }
    lemma_selectors_fault_determined(a, b);
}

} // verus!
