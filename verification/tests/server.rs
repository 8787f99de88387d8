use okoscope::accounts::{
    authorize_admin, presented_credential, ProvisioningError,
    check_login, check_registration, registration_failure, verify_user_access, AuthError,
    expired_cookie, platform_value, session_cookie, valid_name, valid_slug,
    validate_credential_name, validate_name, validate_slug,
};
use okoscope::group_api::{check_group_query, ApiError};
use okoscope::inventory::{
    check_facet_cursor, close_page, facet_sql, without_facet, FacetCursor,
    decode_cursor, encode_cursor, limit, scope_fingerprint, validate_kind, validate_search,
    EvidenceLinks, InventoryFacet, InventoryScope,
};
use okoscope::mail::{
    escape_html, mail_locale, reject_header_injection, render, required, retry_delay_seconds,
    send_outcome, validate_bounds, CapturingSender, DeliveryFailure, Locale, MailArgs,
    MailOutcome, MailSender, SmtpTlsMode, TemplateData,
};
use okoscope::metrics::{
    exposition, record_api_request, record_backfill, record_grouping, record_release_attribution,
    DatabaseDepths, Metrics,
};
use okoscope::notification::{
    count_delivery, materialize_completion, plan_delivery, uuid_field, webhook_policy,
    DestinationSnapshot, MaterializeCompletion, MaterializeStats,
    classify, page_limit, retry_delay_with_jitter, retryable_status, settle_attempt,
    AttemptDisposition, AttemptResult, WebhookError, WebhookResponse,
};
use okoscope::web_api::{
    build_info_value, is_error_status, origin_denied, reason_code, reason_message, request_id_of,
    valid_request_id, RequestId, WebApiConfig,
};
use okoscope::event_model::UtcTimestamp;

#[test]
fn templates_escape_dynamic_html_and_cover_locales() {
    let data = TemplateData::ApplicationCreated {
        application_name: "<script>\r\n".into(),
        project_name: "A&B".into(),
    };
    for locale in [Locale::En, Locale::Ru] {
        let mail = render(locale, &data);
        assert!(!mail.subject.contains('\n'));
        assert!(!mail.html.contains("<script>"));
        assert!(mail.html.contains("&lt;script&gt;"));
        assert!(mail.html.contains("A&amp;B"));
        assert!(!mail.text.is_empty());
    }
}

#[test]
fn templates_render_exact_text() {
    let mail = render(
        Locale::En,
        &TemplateData::ResetPassword { action_url: "https://x/r?a=1&b=2".into(), expires_minutes: 30 },
    );
    assert_eq!(mail.subject, "Reset your Okoscope password");
    assert_eq!(
        mail.text,
        "Reset your password: https://x/r?a=1&b=2\nThis one-time link expires in 30 minutes. If you did not request it, ignore this message."
    );
    assert!(mail.html.contains("<a href=\"https://x/r?a=1&amp;b=2\">"));
    let ru = render(Locale::Ru, &TemplateData::PasswordChanged);
    assert_eq!(ru.subject, "Пароль Okoscope изменён");
}

#[test]
fn html_escaping_covers_all_markup_characters() {
    assert_eq!(escape_html("<a href=\"x\">'&'</a>"), "&lt;a href=&quot;x&quot;&gt;&#39;&amp;&#39;&lt;/a&gt;");
    assert_eq!(escape_html("plain"), "plain");
}

#[test]
fn locales_and_tls_modes_parse() {
    assert_eq!(Locale::parse("ru"), Ok(Locale::Ru));
    assert_eq!(Locale::parse("de"), Err("locale must be en or ru"));
    assert_eq!(Locale::En.as_str(), "en");
    assert_eq!(SmtpTlsMode::parse("implicit"), Ok(SmtpTlsMode::Implicit));
    assert!(SmtpTlsMode::parse("tls").is_err());
    assert_eq!(mail_locale("xx"), Locale::En);
    assert_eq!(mail_locale("ru"), Locale::Ru);
}

fn args() -> MailArgs {
    MailArgs {
        enabled: false,
        public_web_url: None,
        smtp_host: None,
        smtp_port: 587,
        smtp_tls: "starttls".into(),
        smtp_username: None,
        smtp_password: None,
        from_address: None,
        from_name: "Okoscope".into(),
        default_locale: "en".into(),
        encryption_key: None,
        poll_ms: 1000,
        claim_size: 25,
        concurrency: 4,
        lease_seconds: 60,
        timeout_seconds: 15,
        max_attempts: 8,
        retention_days: 30,
    }
}

#[test]
fn mail_settings_bounds_and_headers() {
    assert!(validate_bounds(&args()).is_ok());
    let mut wide = args();
    wide.claim_size = 101;
    assert_eq!(
        validate_bounds(&wide).unwrap_err(),
        "mail worker configuration is outside supported bounds"
    );
    assert!(reject_header_injection("Okoscope").is_ok());
    assert!(reject_header_injection("Oko\r\nBcc: x").is_err());
    assert!(reject_header_injection("  ").is_err());
    assert!(reject_header_injection(&"x".repeat(121)).is_err());
    assert_eq!(required(&Some(" smtp ".into()), "SMTP host").unwrap(), "smtp");
    assert_eq!(
        required(&Some("  ".into()), "SMTP host").unwrap_err(),
        "SMTP host is required when mail is enabled"
    );
    assert!(required(&None, "SMTP host").is_err());
}

#[test]
fn delivery_outcomes_and_retry_delays() {
    assert_eq!(send_outcome(Ok(()), 1, 8), MailOutcome::Delivered);
    assert_eq!(
        send_outcome(Err(DeliveryFailure::Permanent), 1, 8),
        MailOutcome::Terminal("permanent_rejection")
    );
    assert_eq!(
        send_outcome(Err(DeliveryFailure::Transient), 8, 8),
        MailOutcome::Terminal("attempts_exhausted")
    );
    assert_eq!(
        send_outcome(Err(DeliveryFailure::Transient), 2, 8),
        MailOutcome::Retry { delay_seconds: 20 }
    );
    assert_eq!(retry_delay_seconds(0), 10);
    assert_eq!(retry_delay_seconds(3), 40);
    assert_eq!(retry_delay_seconds(10), 3600);
    assert_eq!(retry_delay_seconds(50), 3600);
}

#[test]
fn capturing_sender_keeps_every_mail() {
    let mut sender = CapturingSender::new();
    let mail = render(Locale::En, &TemplateData::PasswordChanged);
    assert!(sender.send("a@example.com", &mail).is_ok());
    let captured = sender.messages();
    assert_eq!(captured.len(), 1);
    assert_eq!(captured[0].recipient, "a@example.com");
    assert_eq!(captured[0].subject, mail.subject);
}

#[test]
fn capturing_sender_keeps_mails_in_send_order() {
    let mut sender = CapturingSender::new();
    let first = render(Locale::En, &TemplateData::PasswordChanged);
    let second = render(Locale::Ru, &TemplateData::PasswordChanged);
    assert!(sender.send("a@example.com", &first).is_ok());
    assert!(sender.send("b@example.com", &second).is_ok());
    assert!(sender.send("a@example.com", &second).is_ok());
    let captured = sender.messages();
    assert_eq!(captured, sender.messages());
    let expected = [("a@example.com", &first), ("b@example.com", &second), ("a@example.com", &second)];
    assert_eq!(captured.len(), expected.len());
    for (mail, (recipient, rendered)) in captured.iter().zip(expected) {
        assert_eq!(mail.recipient, recipient);
        assert_eq!(mail.subject, rendered.subject);
        assert_eq!(mail.text, rendered.text);
        assert_eq!(mail.html, rendered.html);
    }
}

#[test]
fn escaping_keeps_every_character_recoverable() {
    assert_eq!(escape_html("Tom's <b>&"), "Tom&#39;s &lt;b&gt;&amp;");
    assert_eq!(escape_html("&amp;"), "&amp;amp;");
}

#[test]
fn validates_exact_origins() {
    assert_eq!(WebApiConfig::default().cors_origins, Vec::<String>::new());
    assert_eq!(
        WebApiConfig::new(vec!["https://ui.example.com".into()])
            .unwrap()
            .cors_origins,
        vec!["https://ui.example.com"]
    );
    for invalid in [
        "*",
        "null",
        "ftp://example.com",
        "https://user@example.com",
        "https://example.com/path",
        "https://example.com?q=1",
    ] {
        assert!(WebApiConfig::new(vec![invalid.into()]).is_err());
    }
}

#[test]
fn origins_are_trimmed_normalized_and_deduplicated() {
    let config = WebApiConfig::new(vec![
        " https://UI.example.com/ ".into(),
        "https://ui.example.com".into(),
        "http://localhost:3000".into(),
    ])
    .unwrap();
    assert_eq!(config.cors_origins, vec!["https://ui.example.com", "http://localhost:3000"]);
    assert_eq!(
        WebApiConfig::new(vec!["https://x".into(); 33]).unwrap_err(),
        "at most 32 CORS origins are allowed"
    );
    assert_eq!(
        WebApiConfig::new(vec!["*".into()]).unwrap_err(),
        "invalid CORS origin \"*\""
    );
    assert_eq!(
        WebApiConfig::new(vec!["https://example.com/path".into()]).unwrap_err(),
        "unsafe CORS origin \"https://example.com/path\""
    );
}

#[test]
fn validates_request_identifiers() {
    assert!(valid_request_id("request-123.test"));
    assert!(!valid_request_id(""));
    assert!(!valid_request_id("bad request"));
    assert!(!valid_request_id(&"x".repeat(129)));
    assert!(valid_request_id(&"x".repeat(128)));
}

#[test]
fn build_info_reports_unknown_commit() {
    assert_eq!(build_info_value(None).git_commit, "unknown");
    assert_eq!(build_info_value(Some("abc123")).git_commit, "abc123");
    assert_eq!(build_info_value(None).api_version, "v1");
}

#[test]
fn normalizes_platform_values() {
    assert_eq!(platform_value(" x86_64 ", 64).as_deref(), Some("x86_64"));
    assert_eq!(platform_value("", 64), None);
    assert_eq!(platform_value(" UNKNOWN ", 64), None);
    assert_eq!(platform_value(&"x".repeat(65), 64), None);
}

#[test]
fn slugs_and_names_are_validated() {
    assert!(valid_slug("payment-api"));
    assert!(valid_slug("a1"));
    assert!(!valid_slug("-api"));
    assert!(!valid_slug("api-"));
    assert!(!valid_slug("pay--api"));
    assert!(!valid_slug("Payments"));
    assert!(!valid_slug(""));
    assert!(!valid_slug(&"a".repeat(64)));
    assert!(validate_slug("acme").is_ok());
    assert_eq!(
        validate_slug("ACME").unwrap_err(),
        "slug must contain 1-63 lowercase letters, digits, or single hyphens"
    );
    assert!(valid_name("Payment API"));
    assert!(!valid_name(" Payment"));
    assert!(!valid_name(""));
    assert!(validate_name(&"x".repeat(120)).is_ok());
    assert!(validate_name(&"x".repeat(121)).is_err());
    assert!(validate_credential_name("rotation").is_ok());
    assert!(validate_credential_name(&"x".repeat(65)).is_err());
}

#[test]
fn production_and_development_cookie_attributes_are_explicit() {
    let production = session_cookie("opaque", true, 600);
    assert!(production.contains("HttpOnly"));
    assert!(production.contains("Secure"));
    assert!(production.contains("SameSite=Lax"));
    assert!(production.contains("Max-Age=600"));

    let development = session_cookie("opaque", false, 600);
    assert!(!development.contains("Secure"));
    assert!(expired_cookie(true).contains("Max-Age=0"));
    assert_eq!(
        development,
        "okoscope_session=opaque; HttpOnly; SameSite=Lax; Path=/; Max-Age=600"
    );
}

#[test]
fn inventory_query_rules() {
    assert_eq!(InventoryFacet::parse("namespace"), Ok(InventoryFacet::Namespace));
    assert!(InventoryFacet::parse("pod").is_err());
    assert_eq!(InventoryFacet::WorkloadKind.name(), "workload_kind");
    assert_eq!(limit(None), Ok(50));
    assert_eq!(limit(Some(200)), Ok(200));
    assert!(limit(Some(201)).is_err());
    assert!(limit(Some(0)).is_err());
    assert!(validate_kind(None).is_ok());
    assert!(validate_kind(Some("domain")).is_ok());
    assert!(validate_kind(Some("payload")).is_err());
    assert!(validate_search(Some("")).is_err());
    assert!(validate_search(Some(&"x".repeat(200))).is_ok());
}

#[test]
fn normalized_scope_rejects_invalid_bounds() {
    let scope = InventoryScope { search: Some(String::new()), ..Default::default() };
    assert!(scope.normalize().is_err());
    let scope = InventoryScope { namespace: Some(" ".into()), ..Default::default() };
    assert!(scope.normalize().is_err());
    let scope = InventoryScope { namespace: Some(" production ".into()), ..Default::default() };
    assert_eq!(scope.normalize().unwrap().namespace.as_deref(), Some("production"));
    let reversed = InventoryScope {
        observed_from: Some(UtcTimestamp { secs: 2, nanos: 0 }),
        observed_to: Some(UtcTimestamp { secs: 1, nanos: 0 }),
        ..Default::default()
    };
    assert_eq!(reversed.normalize().unwrap_err(), "observed_from must not be after observed_to");
}

#[test]
fn evidence_hints_are_exact_root_relative_paths() {
    let links = EvidenceLinks::scoped(1, 2, 3);
    let base = "/api/v1/projects/00000000-0000-0000-0000-000000000001/applications/00000000-0000-0000-0000-000000000002/runtime-inventory/00000000-0000-0000-0000-000000000003";
    assert_eq!(links.releases, format!("{base}/releases"));
    assert_eq!(links.sightings, format!("{base}/sightings"));
    assert_eq!(links.groups, format!("{base}/groups"));
    assert_eq!(links.occurrences, format!("{base}/occurrences"));
    assert!(!links.releases.contains("://"));
}

#[test]
fn evidence_paths_write_uuids_hyphenated_in_lower_case() {
    let links = EvidenceLinks::scoped(
        0xa1a2a3a4_b1b2_c1c2_d1d2_d3d4d5d6d7d8,
        0xFFFFFFFF_0000_ABCD_0123_456789ABCDEF,
        0,
    );
    assert_eq!(
        links.groups,
        "/api/v1/projects/a1a2a3a4-b1b2-c1c2-d1d2-d3d4d5d6d7d8/applications/ffffffff-0000-abcd-0123-456789abcdef/runtime-inventory/00000000-0000-0000-0000-000000000000/groups"
    );
}

#[test]
fn retry_classification_matches_contract() {
    for status in [408, 425, 429, 500, 503] {
        assert!(retryable_status(status));
    }
    for status in [301, 400, 401, 404, 422] {
        assert!(!retryable_status(status));
    }
}

#[test]
fn webhook_attempts_are_classified() {
    let ok = classify(
        Ok(WebhookResponse { status: 204, response_excerpt: "".into(), retry_after_secs: None, duration_micros: 5 }),
        9,
    );
    assert_eq!(ok.disposition, AttemptDisposition::Succeeded);
    let busy = classify(
        Ok(WebhookResponse { status: 503, response_excerpt: "busy".into(), retry_after_secs: Some(7), duration_micros: 5 }),
        9,
    );
    assert_eq!(busy.disposition, AttemptDisposition::Retryable);
    assert_eq!(busy.error_class, Some("http_retryable"));
    assert_eq!(busy.retry_after_secs, Some(7));
    let rejected = classify(
        Ok(WebhookResponse { status: 404, response_excerpt: "".into(), retry_after_secs: None, duration_micros: 5 }),
        9,
    );
    assert_eq!(rejected.error_class, Some("http_rejected"));
    let timeout = classify(Err(WebhookError::Timeout), 9);
    assert_eq!(timeout.error_class, Some("timeout"));
    assert_eq!(timeout.duration_micros, 9);
    assert_eq!(classify(Err(WebhookError::InvalidUrl), 1).disposition, AttemptDisposition::Failed);
    assert_eq!(
        AttemptResult::failed("unsafe_target", 3).error_class,
        Some("unsafe_target")
    );
    assert_eq!(settle_attempt(AttemptDisposition::Retryable, 2, 3), (3, AttemptDisposition::Failed));
    assert_eq!(settle_attempt(AttemptDisposition::Retryable, 1, 3), (2, AttemptDisposition::Retryable));
    assert_eq!(settle_attempt(AttemptDisposition::Succeeded, i32::MAX, 3), (i32::MAX, AttemptDisposition::Succeeded));
}

#[test]
fn webhook_retry_delays_double_and_respect_bounds() {
    assert_eq!(retry_delay_with_jitter(10, 3600, 1, None, 0), 10);
    assert_eq!(retry_delay_with_jitter(10, 3600, 3, None, 2), 42);
    assert_eq!(retry_delay_with_jitter(10, 3600, 40, None, 0), 3600);
    assert_eq!(retry_delay_with_jitter(10, 3600, 0, None, 0), 3600);
    assert_eq!(retry_delay_with_jitter(10, 3600, 2, Some(1), 0), 10);
    assert_eq!(retry_delay_with_jitter(10, 3600, 2, Some(9000), 0), 3600);
    assert_eq!(page_limit(None), 50);
    assert_eq!(page_limit(Some(0)), 1);
    assert_eq!(page_limit(Some(500)), 200);
}

#[test]
fn metrics_are_counted_and_exposed() {
    let mut metrics = Metrics::default();
    record_grouping(&mut metrics, 15, true);
    record_grouping(&mut metrics, 5, false);
    record_api_request(&mut metrics);
    record_backfill(&mut metrics, 10, 7);
    record_release_attribution(&mut metrics, true, false);
    assert_eq!(metrics.grouping_count, 2);
    assert_eq!(metrics.grouping_microseconds, 20);
    assert_eq!(metrics.groups_created, 1);
    assert_eq!(metrics.release_unknown, 1);
    let body = exposition(&metrics, &DatabaseDepths { outbox_pending: -3, ..Default::default() });
    assert!(body.starts_with("# TYPE okoscope_grouping_operations_total gauge\nokoscope_grouping_operations_total 2\n"));
    assert!(body.contains("okoscope_outbox_pending 0\n"));
    assert!(body.contains("okoscope_backfill_grouped 7\n"));
    assert_eq!(body.lines().count(), 50);
}

fn scope_bytes(scope: &InventoryScope, tenant: (u128, u128, u128), kind: Option<&str>) -> Vec<u8> {
    let ids = (
        uuid::Uuid::from_u128(tenant.0).to_string(),
        uuid::Uuid::from_u128(tenant.1).to_string(),
        uuid::Uuid::from_u128(tenant.2).to_string(),
    );
    let filters = (
        scope.namespace.clone(),
        scope.workload_kind.clone(),
        scope.workload_name.clone(),
        scope.container_name.clone(),
        scope.search.clone(),
    );
    serde_json::to_vec(&(ids, kind, filters)).unwrap()
}

#[test]
fn scope_fingerprint_is_stable_and_tenant_bound() {
    let scope = InventoryScope { namespace: Some(" production ".into()), ..Default::default() }
        .normalize()
        .unwrap();
    let first = scope_fingerprint(&scope_bytes(&scope, (1, 2, 3), Some("process")));
    assert_eq!(first, scope_fingerprint(&scope_bytes(&scope, (1, 2, 3), Some("process"))));
    assert_ne!(first, scope_fingerprint(&scope_bytes(&scope, (1, 2, 4), Some("process"))));
    assert_eq!(first.len(), 64);
    assert!(first.chars().all(|c| c.is_ascii_hexdigit() && !c.is_ascii_uppercase()));
}

#[test]
fn evidence_hints_are_exact_root_relative_allowlisted_paths() {
    let links = EvidenceLinks::scoped(1, 2, 3);
    for (path, suffix) in [
        (links.releases, "releases"),
        (links.sightings, "sightings"),
        (links.groups, "groups"),
        (links.occurrences, "occurrences"),
    ] {
        assert!(path.starts_with('/'));
        assert!(path.ends_with(suffix));
        assert!(!path.contains(['?', '#', '\\']));
        assert!(!path.contains(".."));
        assert!(!path.contains("://"));
    }
}

#[test]
fn cursors_travel_as_hexadecimal() {
    let text = encode_cursor(b"{\"id\":1}");
    assert_eq!(text, "7b226964223a317d");
    assert_eq!(decode_cursor(&text).unwrap(), b"{\"id\":1}".to_vec());
    assert_eq!(decode_cursor("7B22").unwrap(), b"{\"".to_vec());
    assert_eq!(decode_cursor("abc").unwrap_err(), "cursor is invalid");
    assert_eq!(decode_cursor("zz").unwrap_err(), "cursor is invalid");
    let scope = InventoryScope { search: Some("api".into()), ..Default::default() };
    assert_eq!(scope.search_pattern().as_deref(), Some("%api%"));
    assert_eq!(InventoryScope::default().search_pattern(), None);
}

#[test]
fn user_access_needs_an_owner_or_an_open_door() {
    assert!(verify_user_access(true, false, 0).is_ok());
    assert!(verify_user_access(false, true, 0).is_ok());
    assert!(verify_user_access(false, false, 1).is_ok());
    assert_eq!(
        verify_user_access(false, false, 0).unwrap_err(),
        "no Organization owner exists; configure setup authorization, run bootstrap-owner, or explicitly enable registration"
    );
}

#[test]
fn registration_and_login_refusals_are_explicit() {
    let id = RequestId("req-1".into());
    let disabled = check_registration(false, None, "acme", "Acme", &id).unwrap_err();
    assert_eq!((disabled.status, disabled.code), (404, "registration_disabled"));
    let weak = check_registration(true, Some("password is too short"), "acme", "Acme", &id).unwrap_err();
    assert_eq!((weak.status, weak.message), (400, "password is too short"));
    let slug = check_registration(true, None, "-acme", "Acme", &id).unwrap_err();
    assert_eq!(slug.message, "organization slug or name is invalid");
    assert!(check_registration(true, None, "acme", "Acme", &id).is_ok());
    let conflict = registration_failure(true, &id);
    assert_eq!((conflict.status, conflict.code), (409, "registration_conflict"));
    assert_eq!(registration_failure(false, &id), AuthError::internal(&id));
    assert!(check_login(true, false, true, true, &id).is_ok());
    for refused in [
        check_login(false, false, false, true, &id),
        check_login(true, true, true, true, &id),
        check_login(true, false, false, true, &id),
        check_login(true, false, true, false, &id),
    ] {
        let error = refused.unwrap_err();
        assert_eq!((error.status, error.code, error.message), (401, "invalid_credentials", "invalid email or password"));
        assert_eq!(error.request_id, id);
    }
}

#[test]
fn backfill_reaches_only_destinations_that_ask_for_it() {
    let wants = DestinationSnapshot { id: 1, deliver_backfill: true };
    let live_only = DestinationSnapshot { id: 2, deliver_backfill: false };
    let plan = plan_delivery("backfill", live_only);
    assert!(plan.suppressed);
    assert_eq!(plan.status(), "suppressed");
    assert_eq!(plan.suppression(), Some(("backfill_suppressed", "historical delivery is disabled")));
    assert!(!plan_delivery("backfill", wants).suppressed);
    let live = plan_delivery("live", live_only);
    assert!(!live.suppressed);
    assert_eq!(live.status(), "pending");
    assert_eq!(live.suppression(), None);

    let mut stats = MaterializeStats::default();
    let mut pending = 0;
    count_delivery(&mut stats, &mut pending, plan, true);
    count_delivery(&mut stats, &mut pending, live, true);
    count_delivery(&mut stats, &mut pending, live, false);
    assert_eq!((stats.deliveries, stats.suppressed, pending), (2, 1, 1));
    assert_eq!(materialize_completion(0, 0), MaterializeCompletion::NoDestinations);
    assert_eq!(materialize_completion(2, 0), MaterializeCompletion::Suppressed);
    assert_eq!(materialize_completion(2, 1), MaterializeCompletion::Pending);
    assert_eq!(MaterializeCompletion::NoDestinations.reason(), Some("no_destinations"));
    assert_eq!(MaterializeCompletion::Suppressed.reason(), Some("suppressed"));
    assert_eq!(MaterializeCompletion::Pending.reason(), None);
}

#[test]
fn payload_ids_and_webhook_limits() {
    assert_eq!(uuid_field(Some("00000000-0000-0000-0000-00000000002a")), Some(42));
    assert_eq!(uuid_field(Some("group")), None);
    assert_eq!(uuid_field(None), None);
    assert_eq!(webhook_policy(false, false, 10_000, 4096).connect_timeout_ms, 5000);
    assert_eq!(webhook_policy(true, false, 2000, 4096).connect_timeout_ms, 2000);
}

#[test]
fn facets_range_over_their_own_column() {
    let scope = InventoryScope {
        namespace: Some("production".into()),
        workload_name: Some("api".into()),
        cluster_id: Some(7),
        ..Default::default()
    };
    let namespaces = without_facet(scope.clone(), InventoryFacet::Namespace);
    assert_eq!(namespaces.namespace, None);
    assert_eq!(namespaces.workload_name.as_deref(), Some("api"));
    assert_eq!(without_facet(scope, InventoryFacet::Cluster).cluster_id, None);
    let sql = facet_sql(InventoryFacet::Cluster);
    assert!(sql.starts_with("SELECT s.cluster_id::text value,c.name label,count(DISTINCT i.id)::bigint item_count"));
    assert!(sql.contains("JOIN clusters c ON c.organization_id=s.organization_id AND c.id=s.cluster_id WHERE"));
    assert!(sql.contains("GROUP BY s.cluster_id::text,c.name HAVING"));
    assert!(sql.ends_with("ORDER BY item_count DESC,label ASC,value ASC LIMIT $19"));
    let names = facet_sql(InventoryFacet::Namespace);
    assert!(names.contains("concat_ws(' ',s.namespace,s.namespace) ILIKE $15"));
    assert!(names.contains("s.namespace>$17 OR (s.namespace=$17 AND s.namespace>$18)"));
}

#[test]
fn facet_cursors_belong_to_their_facet_and_scope() {
    let cursor = FacetCursor {
        facet: "namespace".into(),
        scope: "abc".into(),
        item_count: 3,
        label: "prod".into(),
        value: "prod".into(),
    };
    assert_eq!(check_facet_cursor(None, InventoryFacet::Namespace, "abc"), Ok(None));
    assert_eq!(
        check_facet_cursor(Some(cursor.clone()), InventoryFacet::Namespace, "abc"),
        Ok(Some(cursor.clone()))
    );
    assert_eq!(
        check_facet_cursor(Some(cursor.clone()), InventoryFacet::Cluster, "abc").unwrap_err(),
        "facet cursor is invalid for this scope"
    );
    assert!(check_facet_cursor(Some(cursor.clone()), InventoryFacet::Namespace, "other").is_err());
    let negative = FacetCursor { item_count: -1, ..cursor };
    assert!(check_facet_cursor(Some(negative), InventoryFacet::Namespace, "abc").is_err());
    let mut page = vec![1, 2, 3];
    assert!(close_page(&mut page, 2));
    assert_eq!(page, vec![1, 2]);
    assert!(!close_page(&mut page, 2));
    assert_eq!(page, vec![1, 2]);
}

#[test]
fn request_ids_are_supplied_or_generated() {
    assert_eq!(request_id_of(Some("req-1.a_B")).0, "req-1.a_B");
    let generated = request_id_of(Some("bad id"));
    assert_eq!(generated.0.len(), 36);
    assert!(uuid::Uuid::parse_str(&generated.0).is_ok());
    let other = request_id_of(None);
    assert_ne!(generated, other);
}

#[test]
fn failed_responses_are_correlated() {
    let origins = vec!["https://console.example".to_string()];
    assert!(!origin_denied(&origins, None));
    assert!(!origin_denied(&origins, Some("https://console.example")));
    assert!(origin_denied(&origins, Some("https://evil.example")));
    assert!(is_error_status(404));
    assert!(is_error_status(503));
    assert!(!is_error_status(302));
    assert_eq!(reason_code(Some("Not Found")), "not_found");
    assert_eq!(reason_code(Some("Too Many Requests")), "too_many_requests");
    assert_eq!(reason_code(None), "request_failed");
    assert_eq!(reason_message(Some("Not Found")), "Not Found");
    assert_eq!(reason_message(None), "request failed");
}

#[test]
fn provisioning_refusals_name_their_cause() {
    let id = RequestId("req-2".into());
    assert_eq!(presented_credential(Some("Bearer admin-secret")).as_deref(), Some("admin-secret"));
    assert_eq!(presented_credential(Some("Basic x")), None);
    assert_eq!(presented_credential(None), None);
    assert!(authorize_admin(Some(true), &id).is_ok());
    let refused = authorize_admin(None, &id).unwrap_err();
    assert_eq!((refused.status, refused.code), (401, "unauthorized"));
    assert_eq!(refused.message, "invalid or missing admin bearer credential");
    assert!(authorize_admin(Some(false), &id).is_err());
    let invalid = ProvisioningError::invalid(validate_slug("-x").unwrap_err(), &id);
    assert_eq!((invalid.status, invalid.code), (400, "invalid_request"));
    assert_eq!(invalid.message, "slug must contain 1-63 lowercase letters, digits, or single hyphens");
    assert_eq!(ProvisioningError::not_found(&id).status, 404);
    assert_eq!(ProvisioningError::database(true, &id), ProvisioningError::conflict(&id));
    let internal = ProvisioningError::database(false, &id);
    assert_eq!((internal.status, internal.code, internal.message.as_str()), (500, "internal_error", "internal server error"));
    assert_eq!(internal.request_id, id);
}

#[test]
fn group_listings_are_bounded_and_open_only() {
    assert_eq!(check_group_query(None, None), Ok(50));
    assert_eq!(check_group_query(Some(200), Some("open")), Ok(200));
    assert_eq!(
        check_group_query(Some(0), None),
        Err(ApiError::Invalid("limit must be between 1 and 200"))
    );
    assert_eq!(check_group_query(Some(201), None).unwrap_err().response().0, 400);
    assert_eq!(
        check_group_query(None, Some("resolved")),
        Err(ApiError::Invalid("unsupported status"))
    );
    assert_eq!(
        ApiError::Unauthorized.response(),
        (401, "unauthorized", "invalid or missing bearer credential")
    );
    assert_eq!(ApiError::NotFound.response(), (404, "not_found", "runtime group not found"));
    assert_eq!(ApiError::Database.response(), (500, "internal_error", "internal server error"));
}
