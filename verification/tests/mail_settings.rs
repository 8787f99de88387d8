use okoscope::mail::{Locale, MailArgs, SmtpTlsMode};
use okoscope::mail_settings::{
    deduplicate, enqueue_plan,
    decode_key, decrypt, encrypt_payload, validate_public_url, ClaimedMail, MailConfig, MailError,
};

fn args() -> MailArgs {
    MailArgs {
        enabled: false,
        public_web_url: None,
        smtp_host: None,
        smtp_port: 587,
        smtp_tls: "starttls".into(),
        smtp_username: None,
        smtp_password: None,
        from_address: None,
        from_name: "Okoscope".into(),
        default_locale: "en".into(),
        encryption_key: None,
        poll_ms: 1000,
        claim_size: 25,
        concurrency: 4,
        lease_seconds: 60,
        timeout_seconds: 15,
        max_attempts: 8,
        retention_days: 30,
    }
}

fn complete() -> MailArgs {
    MailArgs {
        enabled: true,
        public_web_url: Some("https://okoscope.example".into()),
        smtp_host: Some(" smtp.example ".into()),
        smtp_username: Some("mailer".into()),
        smtp_password: Some("secret".into()),
        from_address: Some("noreply@okoscope.example".into()),
        encryption_key: Some("01".repeat(32)),
        ..args()
    }
}

#[test]
fn config_rejects_missing_and_insecure_production_settings() {
    let args = args();
    assert!(args.build(false, true).is_err());
    let mut enabled = args;
    enabled.enabled = true;
    enabled.public_web_url = Some("http://example.com".into());
    assert!(enabled.build(false, true).is_err());
}

#[test]
fn disabled_mail_has_default_settings() {
    let config = args().build(false, false).unwrap();
    assert_eq!(config, MailConfig::default());
    assert!(!config.enabled);
    assert_eq!(config.smtp_port, 587);
    assert_eq!(config.from.email, "noreply@example.invalid");
    assert_eq!(config.from.name.as_deref(), Some("Okoscope"));
    assert_eq!(config.retention_secs, 30 * 86_400);
    assert_eq!(
        args().build(false, true).unwrap_err(),
        "public registration requires transactional mail"
    );
}

#[test]
fn enabled_mail_is_checked_in_order() {
    let config = complete().build(false, true).unwrap();
    assert!(config.enabled);
    assert_eq!(config.smtp_host, "smtp.example");
    assert_eq!(config.smtp_tls, SmtpTlsMode::StartTls);
    assert_eq!(config.from.email, "noreply@okoscope.example");
    assert_eq!(config.from.name.as_deref(), Some("Okoscope"));
    assert_eq!(config.default_locale, Locale::En);
    assert_eq!(config.encryption_key, [1; 32]);
    assert_eq!(config.retention_secs, 30 * 86_400);
    assert_eq!(config.public_web_url.origin, "https://okoscope.example");

    let insecure = MailArgs { public_web_url: Some("http://example.com".into()), ..complete() };
    assert_eq!(insecure.build(false, false).unwrap_err(), "public Web URL must be an HTTPS origin");
    assert!(insecure.build(true, false).is_ok());
    let plaintext = MailArgs { smtp_tls: "plaintext".into(), ..complete() };
    assert_eq!(
        plaintext.build(false, false).unwrap_err(),
        "plaintext SMTP is allowed only in development mode"
    );
    let tls = MailArgs { smtp_tls: "tls".into(), ..complete() };
    assert_eq!(
        tls.build(false, false).unwrap_err(),
        "SMTP TLS mode must be starttls, implicit, or plaintext"
    );
    let busy = MailArgs { concurrency: 33, ..complete() };
    assert_eq!(
        busy.build(false, false).unwrap_err(),
        "mail worker configuration is outside supported bounds"
    );
    let hostless = MailArgs { smtp_host: Some("  ".into()), ..complete() };
    assert_eq!(hostless.build(false, false).unwrap_err(), "SMTP host is required when mail is enabled");
    let injected = MailArgs { from_name: "Oko\r\nBcc: x".into(), ..complete() };
    assert_eq!(injected.build(false, false).unwrap_err(), "mail header value is invalid");
    let bad_sender = MailArgs { from_address: Some("not an address".into()), ..complete() };
    assert_eq!(bad_sender.build(false, false).unwrap_err(), "mail sender address is invalid");
    let locale = MailArgs { default_locale: "de".into(), ..complete() };
    assert_eq!(locale.build(false, false).unwrap_err(), "locale must be en or ru");
    let keyless = MailArgs { encryption_key: None, ..complete() };
    assert_eq!(keyless.build(false, false).unwrap_err(), "mail encryption key is required");
}

#[test]
fn keys_are_sixty_four_hex_digits() {
    assert_eq!(decode_key(Some(&"aB".repeat(32))).unwrap(), [0xab; 32]);
    assert_eq!(decode_key(None).unwrap_err(), "mail encryption key is required");
    let short = "ab".repeat(31);
    assert_eq!(
        decode_key(Some(&short)).unwrap_err(),
        "mail encryption key must be 64 hexadecimal characters"
    );
    let bad = format!("zz{}", "ab".repeat(31));
    assert!(decode_key(Some(&bad)).is_err());
    assert!(decode_key(Some(&"a".repeat(63))).is_err());
}

#[test]
fn public_urls_must_be_https_origins() {
    assert!(validate_public_url(Some("https://okoscope.example/app"), false).is_ok());
    assert_eq!(
        validate_public_url(None, false).unwrap_err(),
        "public Web URL is required when mail is enabled"
    );
    assert_eq!(validate_public_url(Some("not a url"), false).unwrap_err(), "public Web URL is invalid");
    assert!(validate_public_url(Some("https://user@okoscope.example"), false).is_err());
    assert!(validate_public_url(Some("https://okoscope.example/?q=1"), false).is_err());
    assert!(validate_public_url(Some("https://okoscope.example/#top"), false).is_err());
}

#[test]
fn encryption_uses_unique_nonces_and_binds_all_associated_data() {
    let id = uuid::Uuid::new_v4().as_u128();
    let (first, first_nonce) =
        encrypt_payload(&[1; 32], id, "reset_password", "a@example.com", b"secret").unwrap();
    let (second, second_nonce) =
        encrypt_payload(&[1; 32], id, "reset_password", "a@example.com", b"secret").unwrap();
    assert_ne!(first_nonce, second_nonce);
    assert_ne!(first, second);
    let mail = ClaimedMail {
        id,
        template_kind: "reset_password".into(),
        recipient_email: "a@example.com".into(),
        locale: "en".into(),
        payload_ciphertext: first.clone(),
        payload_nonce: first_nonce.to_vec(),
        attempt_count: 1,
        expires_at: None,
    };
    let mut config = MailConfig {
        encryption_key: [1; 32],
        ..MailConfig::default()
    };
    assert_eq!(decrypt(&config, &mail).unwrap().as_slice(), b"secret");
    config.encryption_key = [2; 32];
    assert!(decrypt(&config, &mail).is_err());
    config.encryption_key = [1; 32];
    let mut tampered = mail;
    tampered.payload_ciphertext[0] ^= 1;
    assert!(decrypt(&config, &tampered).is_err());
    tampered.payload_ciphertext = first;
    tampered.recipient_email = "b@example.com".into();
    assert!(decrypt(&config, &tampered).is_err());
    tampered.recipient_email = "a@example.com".into();
    tampered.payload_nonce.pop();
    assert_eq!(decrypt(&config, &tampered).unwrap_err(), MailError::InvalidPayload);
}

#[test]
fn recipients_are_queued_once_each() {
    let recipients = vec![
        (Some("a@example.com".to_string()), Locale::En),
        (Some("b@example.com".to_string()), Locale::Ru),
        (Some("a@example.com".to_string()), Locale::Ru),
    ];
    assert_eq!(
        deduplicate(&recipients).unwrap(),
        vec![("a@example.com".to_string(), Locale::En), ("b@example.com".to_string(), Locale::Ru)]
    );
    let invalid = vec![(Some("a@example.com".to_string()), Locale::En), (None, Locale::En)];
    assert_eq!(deduplicate(&invalid).unwrap_err(), MailError::InvalidPayload);
    let crowd: Vec<_> = (0..101).map(|i| (Some(format!("u{i}@example.com")), Locale::En)).collect();
    assert_eq!(deduplicate(&crowd).unwrap_err(), MailError::TooManyRecipients);
    assert!(enqueue_plan(false, &recipients, 10, "key").unwrap().is_empty());
    assert!(enqueue_plan(true, &Vec::new(), 10, "key").unwrap().is_empty());
    assert_eq!(enqueue_plan(true, &recipients, 10, "key").unwrap().len(), 2);
    assert_eq!(enqueue_plan(true, &recipients, 16_385, "key").unwrap_err(), MailError::InvalidPayload);
    assert_eq!(enqueue_plan(true, &recipients, 10, &"k".repeat(257)).unwrap_err(), MailError::InvalidPayload);
    assert!(enqueue_plan(true, &recipients, 16_384, &"k".repeat(256)).is_ok());
}
