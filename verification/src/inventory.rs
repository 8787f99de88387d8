//! Query rules of the runtime inventory API: facets, page limits, item kinds,
//! search text, scope filters and evidence links.

use vstd::prelude::*;

use crate::event_model::{ts_le, UtcTimestamp};
use crate::ids::{spec_uuid_text, uuid_text};
use crate::grouping::{sha256, spec_sha256};
use crate::hex_text::{hex_decode, hex_decoded, hex_encode, hex_text};
use crate::grouping::utf8;
use crate::text::{append, char_count, same_text, trim_whitespace, trim_ws};

verus! {

/// A column the inventory can be faceted by.
#[derive(Clone, Copy, Debug, PartialEq, Eq)]
pub enum InventoryFacet {
    Cluster,
    Namespace,
    WorkloadKind,
    WorkloadName,
    ContainerName,
}

pub open spec fn facet_name(f: InventoryFacet) -> Seq<char> {
    match f {
        InventoryFacet::Cluster => "cluster"@,
        InventoryFacet::Namespace => "namespace"@,
        InventoryFacet::WorkloadKind => "workload_kind"@,
        InventoryFacet::WorkloadName => "workload_name"@,
        InventoryFacet::ContainerName => "container_name"@,
    }
}

impl InventoryFacet {
    /// Parses a facet by its name.
    pub fn parse(value: &str) -> (r: Result<InventoryFacet, &'static str>)
        ensures
            r matches Ok(f) ==> facet_name(f) == value@,
            r is Err ==> (forall|f: InventoryFacet| facet_name(f) != value@) && r->Err_0@
                == "unsupported inventory facet"@,
    {
        proof {
            reveal_strlit("cluster");
            reveal_strlit("namespace");
            reveal_strlit("workload_kind");
            reveal_strlit("workload_name");
            reveal_strlit("container_name");
        }
        if same_text(value, "cluster") {
            Ok(InventoryFacet::Cluster)
        } else if same_text(value, "namespace") {
            Ok(InventoryFacet::Namespace)
        } else if same_text(value, "workload_kind") {
            Ok(InventoryFacet::WorkloadKind)
        } else if same_text(value, "workload_name") {
            Ok(InventoryFacet::WorkloadName)
        } else if same_text(value, "container_name") {
            Ok(InventoryFacet::ContainerName)
        } else {
            Err("unsupported inventory facet")
        }
    }

    /// The facet's name.
    pub fn name(self) -> (r: &'static str)
        ensures
            r@ == facet_name(self),
    {
        match self {
            InventoryFacet::Cluster => "cluster",
            InventoryFacet::Namespace => "namespace",
            InventoryFacet::WorkloadKind => "workload_kind",
            InventoryFacet::WorkloadName => "workload_name",
            InventoryFacet::ContainerName => "container_name",
        }
    }
}

/// A page size: 50 unless given; refused outside `1..=200`.
pub fn limit(value: Option<i64>) -> (r: Result<i64, &'static str>)
    ensures
        ({
            let v = match value {
                Some(v) => v,
                None => 50,
            };
            &&& 1 <= v <= 200 ==> r == Ok::<i64, &'static str>(v)
            &&& !(1 <= v <= 200) ==> r is Err && r->Err_0@ == "limit must be between 1 and 200"@
        }),
{
    let v = match value {
        Some(v) => v,
        None => 50,
    };
    if 1 <= v && v <= 200 {
        Ok(v)
    } else {
        Err("limit must be between 1 and 200")
    }
}

/// The item kinds of the inventory.
pub open spec fn inventory_kind(s: Seq<char>) -> bool {
    s == "process"@ || s == "destination"@ || s == "domain"@ || s == "syscall"@
}

pub fn validate_kind(kind: Option<&str>) -> (r: Result<(), &'static str>)
    ensures
        (kind matches Some(k) ==> inventory_kind(k@)) ==> r is Ok,
        !(kind matches Some(k) ==> inventory_kind(k@)) ==> r is Err && r->Err_0@
            == "kind must be process, destination, domain, or syscall"@,
{
    match kind {
        None => Ok(()),
        Some(k) => {
            if same_text(k, "process") || same_text(k, "destination") || same_text(k, "domain")
                || same_text(k, "syscall") {
                Ok(())
            } else {
                Err("kind must be process, destination, domain, or syscall")
            }
        },
    }
}

/// A search text: 1 to 200 characters.
pub open spec fn search_ok(search: Option<&str>) -> bool {
    search matches Some(s) ==> 1 <= s@.len() <= 200
}

pub fn validate_search(search: Option<&str>) -> (r: Result<(), &'static str>)
    ensures
        search_ok(search) ==> r is Ok,
        !search_ok(search) ==> r is Err && r->Err_0@
            == "search must contain between 1 and 200 characters"@,
{
    match search {
        None => Ok(()),
        Some(s) => {
            let n = char_count(s);
            if 1 <= n && n <= 200 {
                Ok(())
            } else {
                Err("search must contain between 1 and 200 characters")
            }
        },
    }
}

/// The filters of an inventory query.
#[derive(Clone, Debug, Default, PartialEq, Eq)]
pub struct InventoryScope {
    pub release_id: Option<u128>,
    pub cluster_id: Option<u128>,
    pub namespace: Option<String>,
    pub workload_kind: Option<String>,
    pub workload_name: Option<String>,
    pub container_name: Option<String>,
    pub observed_from: Option<UtcTimestamp>,
    pub observed_to: Option<UtcTimestamp>,
    pub search: Option<String>,
}

/// A name filter once trimmed: 1 to 253 characters.
pub open spec fn filter_ok(value: Option<String>) -> bool {
    value matches Some(t) ==> 1 <= trim_ws(t@).len() <= 253
}

pub open spec fn filter_normalized(after: Option<String>, before: Option<String>) -> bool {
    match before {
        Some(t) => after matches Some(a) && a@ == trim_ws(t@),
        None => after is None,
    }
}

/// The first problem of a scope's filters, by the message that reports it.
pub open spec fn scope_fault(s: InventoryScope) -> Option<Seq<char>> {
    if !(s.search matches Some(t) ==> 1 <= t@.len() <= 200) {
        Some("search must contain between 1 and 200 characters"@)
    } else if s.observed_from matches Some(from) && s.observed_to matches Some(to) && !ts_le(
        from,
        to,
    ) {
        Some("observed_from must not be after observed_to"@)
    } else if !filter_ok(s.namespace) {
        Some("namespace must contain between 1 and 253 characters"@)
    } else if !filter_ok(s.workload_kind) {
        Some("workload_kind must contain between 1 and 253 characters"@)
    } else if !filter_ok(s.workload_name) {
        Some("workload_name must contain between 1 and 253 characters"@)
    } else if !filter_ok(s.container_name) {
        Some("container_name must contain between 1 and 253 characters"@)
    } else {
        None
    }
}

fn normalize_filter(value: Option<String>, message: &'static str) -> (r: Result<
    Option<String>,
    &'static str,
>)
    ensures
        filter_ok(value) ==> r is Ok && filter_normalized(r->Ok_0, value),
        !filter_ok(value) ==> r == Err::<Option<String>, &'static str>(message),
{
    match value {
        None => Ok(None),
        Some(text) => {
            let t = trim_whitespace(text.as_str());
            let n = char_count(t.as_str());
            if n < 1 || n > 253 {
                Err(message)
            } else {
                Ok(Some(t))
            }
        },
    }
}

impl InventoryScope {
    /// Validates the filters and trims the name filters.
    pub fn normalize(self) -> (r: Result<InventoryScope, &'static str>)
        ensures
            scope_fault(self) matches Some(m) ==> r is Err && r->Err_0@ == m,
            scope_fault(self) is None ==> (r matches Ok(s) && s.release_id == self.release_id
                && s.cluster_id == self.cluster_id && s.observed_from == self.observed_from
                && s.observed_to == self.observed_to && s.search == self.search
                && filter_normalized(s.namespace, self.namespace) && filter_normalized(
                s.workload_kind,
                self.workload_kind,
            ) && filter_normalized(s.workload_name, self.workload_name) && filter_normalized(
                s.container_name,
                self.container_name,
            )),
    {
        proof {
            reveal_strlit("search must contain between 1 and 200 characters");
            reveal_strlit("observed_from must not be after observed_to");
            reveal_strlit("namespace must contain between 1 and 253 characters");
            reveal_strlit("workload_kind must contain between 1 and 253 characters");
            reveal_strlit("workload_name must contain between 1 and 253 characters");
            reveal_strlit("container_name must contain between 1 and 253 characters");
        }
        match &self.search {
            Some(s) => {
                let n = char_count(s.as_str());
                if n < 1 || n > 200 {
                    return Err("search must contain between 1 and 200 characters");
                }
            },
            None => {},
        }
        match (&self.observed_from, &self.observed_to) {
            (Some(from), Some(to)) => {
                if !from.not_after(to) {
                    return Err("observed_from must not be after observed_to");
                }
            },
            _ => {},
        }
        let namespace = normalize_filter(
            self.namespace,
            "namespace must contain between 1 and 253 characters",
        )?;
        let workload_kind = normalize_filter(
            self.workload_kind,
            "workload_kind must contain between 1 and 253 characters",
        )?;
        let workload_name = normalize_filter(
            self.workload_name,
            "workload_name must contain between 1 and 253 characters",
        )?;
        let container_name = normalize_filter(
            self.container_name,
            "container_name must contain between 1 and 253 characters",
        )?;
        Ok(
            InventoryScope {
                release_id: self.release_id,
                cluster_id: self.cluster_id,
                namespace,
                workload_kind,
                workload_name,
                container_name,
                observed_from: self.observed_from,
                observed_to: self.observed_to,
                search: self.search,
            },
        )
    }
}

/// Links to the evidence of an inventory item.
#[derive(Clone, Debug, PartialEq, Eq)]
pub struct EvidenceLinks {
    pub releases: String,
    pub sightings: String,
    pub groups: String,
    pub occurrences: String,
}

/// The API path of an inventory item.
pub open spec fn item_path(project_id: u128, application_id: u128, item_id: u128) -> Seq<char> {
    "/api/v1/projects/"@ + spec_uuid_text(project_id) + "/applications/"@ + spec_uuid_text(
        application_id,
    ) + "/runtime-inventory/"@ + spec_uuid_text(item_id)
}

impl EvidenceLinks {
    /// The evidence links of an item, under its project and application.
    pub fn scoped(project_id: u128, application_id: u128, item_id: u128) -> (r: Self)
        ensures
            r.releases@ == item_path(project_id, application_id, item_id) + "/releases"@,
            r.sightings@ == item_path(project_id, application_id, item_id) + "/sightings"@,
            r.groups@ == item_path(project_id, application_id, item_id) + "/groups"@,
            r.occurrences@ == item_path(project_id, application_id, item_id) + "/occurrences"@,
    {
        let mut base = String::from_str("/api/v1/projects/");
        let p = uuid_text(project_id);
        append(&mut base, p.as_str());
        append(&mut base, "/applications/");
        let a = uuid_text(application_id);
        append(&mut base, a.as_str());
        append(&mut base, "/runtime-inventory/");
        let i = uuid_text(item_id);
        append(&mut base, i.as_str());
        assert(base@ =~= item_path(project_id, application_id, item_id));
        let mut releases = base.clone();
        append(&mut releases, "/releases");
        let mut sightings = base.clone();
        append(&mut sightings, "/sightings");
        let mut groups = base.clone();
        append(&mut groups, "/groups");
        let mut occurrences = base;
        append(&mut occurrences, "/occurrences");
        EvidenceLinks { releases, sightings, groups, occurrences }
    }
}

impl InventoryScope {
    /// The `LIKE` pattern of the search text: the text anywhere.
    pub fn search_pattern(&self) -> (r: Option<String>)
        ensures
            match self.search {
                Some(t) => r is Some && r->0@ == "%"@ + t@ + "%"@,
                None => r is None,
            },
    {
        match &self.search {
            Some(t) => {
                let mut pattern = String::from_str("%");
                append(&mut pattern, t.as_str());
                append(&mut pattern, "%");
                proof {
                    reveal_strlit("%");
                }
                Some(pattern)
            },
            None => None,
        }
    }
}

/// The fingerprint of a query's filters, from their serialized form (the
/// tenant, project and Application, the item kind and the normalized scope):
/// the hexadecimal SHA-256 digest of those bytes.
pub fn scope_fingerprint(serialized: &[u8]) -> (r: String)
    ensures
        r@ == hex_text(spec_sha256(serialized@)),
{
    let digest = sha256(serialized);
    hex_encode(digest.as_slice())
}

/// The text of a page cursor: its serialized bytes in hexadecimal.
pub fn encode_cursor(serialized: &[u8]) -> (r: String)
    ensures
        r@ == hex_text(serialized@),
{
    hex_encode(serialized)
}

/// The serialized bytes of a page cursor's text; a text that is not
/// hexadecimal is an invalid cursor.
pub fn decode_cursor(cursor: &str) -> (r: Result<Vec<u8>, &'static str>)
    ensures
        match hex_decoded(utf8(cursor@)) {
            Some(bytes) => r is Ok && r->Ok_0@ == bytes,
            None => r is Err && r->Err_0@ == "cursor is invalid"@,
        },
{
    proof {
        reveal_strlit("cursor is invalid");
    }
    match hex_decode(cursor) {
        Some(bytes) => Ok(bytes),
        None => Err("cursor is invalid"),
    }
}

// ------------------------------------------------------------------ facets

/// The value column, label column and join of a facet's query.
pub open spec fn facet_columns(f: InventoryFacet) -> (Seq<char>, Seq<char>, Seq<char>) {
    match f {
        InventoryFacet::Cluster => (
            "s.cluster_id::text"@,
            "c.name"@,
            "JOIN clusters c ON c.organization_id=s.organization_id AND c.id=s.cluster_id"@,
        ),
        InventoryFacet::Namespace => ("s.namespace"@, "s.namespace"@, ""@),
        InventoryFacet::WorkloadKind => ("s.workload_kind"@, "s.workload_kind"@, ""@),
        InventoryFacet::WorkloadName => ("s.workload_name"@, "s.workload_name"@, ""@),
        InventoryFacet::ContainerName => ("s.container_name"@, "s.container_name"@, ""@),
    }
}

impl InventoryFacet {
    /// The value column, label column and join of the facet's query.
    pub fn columns(self) -> (r: (&'static str, &'static str, &'static str))
        ensures
            (r.0@, r.1@, r.2@) == facet_columns(self),
    {
        match self {
            InventoryFacet::Cluster => (
                "s.cluster_id::text",
                "c.name",
                "JOIN clusters c ON c.organization_id=s.organization_id AND c.id=s.cluster_id",
            ),
            InventoryFacet::Namespace => ("s.namespace", "s.namespace", ""),
            InventoryFacet::WorkloadKind => ("s.workload_kind", "s.workload_kind", ""),
            InventoryFacet::WorkloadName => ("s.workload_name", "s.workload_name", ""),
            InventoryFacet::ContainerName => ("s.container_name", "s.container_name", ""),
        }
    }
}

/// The query of a facet's options: each value with its label, its distinct
/// items and its occurrences, under every filter but the facet's own, most
/// items first, from the keyset cursor on.
pub open spec fn facet_sql_text(value: Seq<char>, label: Seq<char>, join: Seq<char>) -> Seq<char> {
    "SELECT "@ + value + " value,"@ + label + " label,count(DISTINCT i.id)::bigint item_count,COALESCE(sum(s.occurrence_count),0)::bigint occurrence_count FROM runtime_inventory_sightings s JOIN runtime_inventory_items i ON i.id=s.item_id "@ + join + " WHERE i.organization_id=$1 AND i.project_id=$2 AND i.application_id=$3 AND i.identity_version=$4 AND ($5::text IS NULL OR i.inventory_kind=$5) AND ($6::uuid IS NULL OR EXISTS(SELECT 1 FROM runtime_inventory_releases r WHERE r.item_id=i.id AND r.release_id=$6)) AND ($7::uuid IS NULL OR s.cluster_id=$7) AND ($8::text IS NULL OR s.namespace=$8) AND ($9::text IS NULL OR s.workload_kind=$9) AND ($10::text IS NULL OR s.workload_name=$10) AND ($11::text IS NULL OR s.container_name=$11) AND ($12::timestamptz IS NULL OR s.last_seen_at >= $12) AND ($13::timestamptz IS NULL OR s.first_seen_at <= $13) AND ($14::text IS NULL OR concat_ws(' ',i.semantic_summary->>'executable',i.semantic_summary->>'process_command',i.semantic_summary->>'destination_address',i.semantic_summary->>'destination_port',i.semantic_summary->>'name',i.semantic_summary->>'query_type',i.semantic_summary->>'syscall') ILIKE $14) AND ($15::text IS NULL OR concat_ws(' ',"@ + label + ","@ + value + ") ILIKE $15) GROUP BY "@ + value + ","@ + label + " HAVING ($16::bigint IS NULL OR count(DISTINCT i.id)<$16 OR (count(DISTINCT i.id)=$16 AND ("@ + label + ">$17 OR ("@ + label + "=$17 AND "@ + value + ">$18)))) ORDER BY item_count DESC,label ASC,value ASC LIMIT $19"@
}

/// The query of a facet's options.
pub fn facet_sql(facet: InventoryFacet) -> (r: String)
    ensures
        r@ == facet_sql_text(facet_columns(facet).0, facet_columns(facet).1, facet_columns(facet).2),
{
    let (value, label, join) = facet.columns();
    let mut sql = String::new();
    append(&mut sql, "SELECT ");
    append(&mut sql, value);
    append(&mut sql, " value,");
    append(&mut sql, label);
    append(&mut sql, " label,count(DISTINCT i.id)::bigint item_count,COALESCE(sum(s.occurrence_count),0)::bigint occurrence_count FROM runtime_inventory_sightings s JOIN runtime_inventory_items i ON i.id=s.item_id ");
    append(&mut sql, join);
    append(&mut sql, " WHERE i.organization_id=$1 AND i.project_id=$2 AND i.application_id=$3 AND i.identity_version=$4 AND ($5::text IS NULL OR i.inventory_kind=$5) AND ($6::uuid IS NULL OR EXISTS(SELECT 1 FROM runtime_inventory_releases r WHERE r.item_id=i.id AND r.release_id=$6)) AND ($7::uuid IS NULL OR s.cluster_id=$7) AND ($8::text IS NULL OR s.namespace=$8) AND ($9::text IS NULL OR s.workload_kind=$9) AND ($10::text IS NULL OR s.workload_name=$10) AND ($11::text IS NULL OR s.container_name=$11) AND ($12::timestamptz IS NULL OR s.last_seen_at >= $12) AND ($13::timestamptz IS NULL OR s.first_seen_at <= $13) AND ($14::text IS NULL OR concat_ws(' ',i.semantic_summary->>'executable',i.semantic_summary->>'process_command',i.semantic_summary->>'destination_address',i.semantic_summary->>'destination_port',i.semantic_summary->>'name',i.semantic_summary->>'query_type',i.semantic_summary->>'syscall') ILIKE $14) AND ($15::text IS NULL OR concat_ws(' ',");
    append(&mut sql, label);
    append(&mut sql, ",");
    append(&mut sql, value);
    append(&mut sql, ") ILIKE $15) GROUP BY ");
    append(&mut sql, value);
    append(&mut sql, ",");
    append(&mut sql, label);
    append(&mut sql, " HAVING ($16::bigint IS NULL OR count(DISTINCT i.id)<$16 OR (count(DISTINCT i.id)=$16 AND (");
    append(&mut sql, label);
    append(&mut sql, ">$17 OR (");
    append(&mut sql, label);
    append(&mut sql, "=$17 AND ");
    append(&mut sql, value);
    append(&mut sql, ">$18)))) ORDER BY item_count DESC,label ASC,value ASC LIMIT $19");
    sql
}

/// The filters of a facet's query: those of the scope, but for the facet's
/// own column, which the options range over.
pub fn without_facet(scope: InventoryScope, facet: InventoryFacet) -> (r: InventoryScope)
    ensures
        r == (match facet {
            InventoryFacet::Cluster => InventoryScope { cluster_id: None, ..scope },
            InventoryFacet::Namespace => InventoryScope { namespace: None, ..scope },
            InventoryFacet::WorkloadKind => InventoryScope { workload_kind: None, ..scope },
            InventoryFacet::WorkloadName => InventoryScope { workload_name: None, ..scope },
            InventoryFacet::ContainerName => InventoryScope { container_name: None, ..scope },
        }),
{
    match facet {
        InventoryFacet::Cluster => InventoryScope { cluster_id: None, ..scope },
        InventoryFacet::Namespace => InventoryScope { namespace: None, ..scope },
        InventoryFacet::WorkloadKind => InventoryScope { workload_kind: None, ..scope },
        InventoryFacet::WorkloadName => InventoryScope { workload_name: None, ..scope },
        InventoryFacet::ContainerName => InventoryScope { container_name: None, ..scope },
    }
}

/// Where a page of facet options ends: the facet, the scope's fingerprint,
/// and the last option's item count, label and value.
#[derive(Clone, Debug, PartialEq, Eq)]
pub struct FacetCursor {
    pub facet: String,
    pub scope: String,
    pub item_count: i64,
    pub label: String,
    pub value: String,
}

/// A facet cursor belongs to the facet and scope being listed and counts
/// no fewer than zero items.
pub open spec fn facet_cursor_ok(c: FacetCursor, facet: InventoryFacet, fingerprint: Seq<char>) -> bool {
    c.facet@ == facet_name(facet) && c.scope@ == fingerprint && c.item_count >= 0
}

/// The cursor of a facet page request, checked against the facet and scope.
pub fn check_facet_cursor(cursor: Option<FacetCursor>, facet: InventoryFacet, fingerprint: &str) -> (r:
    Result<Option<FacetCursor>, &'static str>)
    ensures
        match cursor {
            None => r == Ok::<Option<FacetCursor>, &'static str>(None),
            Some(c) => if facet_cursor_ok(c, facet, fingerprint@) {
                r == Ok::<Option<FacetCursor>, &'static str>(Some(c))
            } else {
                r is Err && r->Err_0@ == "facet cursor is invalid for this scope"@
            },
        },
{
    proof {
        reveal_strlit("facet cursor is invalid for this scope");
    }
    match cursor {
        None => Ok(None),
        Some(c) => {
            if same_text(c.facet.as_str(), facet.name()) && same_text(c.scope.as_str(), fingerprint)
                && c.item_count >= 0 {
                Ok(Some(c))
            } else {
                Err("facet cursor is invalid for this scope")
            }
        },
    }
}

/// Cuts a page fetched with one row more than its limit back to the limit,
/// and says whether there was more.
pub fn close_page<T>(items: &mut Vec<T>, limit: usize) -> (more: bool)
    ensures
        more == (old(items)@.len() > limit),
        more ==> final(items)@ == old(items)@.take(old(items)@.len() - 1),
        !more ==> final(items)@ == old(items)@,
{
    if items.len() > limit {
        items.pop();
        true
    } else {
        false
    }
}

} // verus!
