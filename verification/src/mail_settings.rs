//! The settings of transactional mail, checked from what an operator gave,
//! and the sealing of mail payloads at rest.

use vstd::prelude::*;

use crate::grouping::utf8;
use crate::hex_text::{hex_decode, hex_decoded};
use crate::ids::{spec_uuid_text, uuid_text};
use crate::mail::{
    MAX_RECIPIENTS,
    bounds_ok, header_value_ok, reject_header_injection, required, validate_bounds, Locale,
    MailArgs, SmtpTlsMode,
};
use crate::event_model::UtcTimestamp;
use crate::text::{append, trim_ws};
use crate::web_api::{parse_url, spec_url_parse, UrlParts};

verus! {

// ---------------------------------------------------------------- mailboxes

/// A mailbox: an optional display name and an address.
#[derive(Clone, Debug, PartialEq, Eq)]
pub struct Mailbox {
    pub name: Option<String>,
    pub email: String,
}

/// What `lettre::message::Mailbox::from_str` makes of a text: its display name
/// and address, or none where the text is no mailbox.
pub uninterp spec fn spec_mailbox_parse(text: Seq<char>) -> Option<Mailbox>;

/// `lettre::message::Mailbox::from_str`, read into its name and address text;
/// the result is named by `spec_mailbox_parse`.
#[verifier::external_body]
fn parse_mailbox(text: &str) -> (r: Option<Mailbox>)
    ensures
        r == spec_mailbox_parse(text@),
{
    match text.parse::<lettre::message::Mailbox>() {
        Ok(m) => Some(Mailbox { name: m.name, email: m.email.to_string() }),
        Err(_) => None,
    }
}

// ---------------------------------------------------------------- hex keys

/// What a mail encryption key setting holds: the 32 bytes its 64 hexadecimal
/// digits stand for.
pub open spec fn key_of(value: Option<Seq<char>>) -> Result<Seq<u8>, Seq<char>> {
    match value {
        None => Err("mail encryption key is required"@),
        Some(v) => match hex_decoded(utf8(v)) {
            Some(bytes) => if bytes.len() == 32 {
                Ok(bytes)
            } else {
                Err("mail encryption key must be 64 hexadecimal characters"@)
            },
            None => Err("mail encryption key must be 64 hexadecimal characters"@),
        },
    }
}

fn key_error() -> (r: String)
    ensures
        r@ == "mail encryption key must be 64 hexadecimal characters"@,
{
    String::from_str("mail encryption key must be 64 hexadecimal characters")
}

fn key_array(v: &Vec<u8>) -> (key: [u8; 32])
    requires
        v@.len() == 32,
    ensures
        key@ == v@,
{
    let key: [u8; 32] = [
        v[0], v[1], v[2], v[3], v[4], v[5], v[6], v[7], v[8], v[9], v[10], v[11], v[12], v[13],
        v[14], v[15], v[16], v[17], v[18], v[19], v[20], v[21], v[22], v[23], v[24], v[25], v[26],
        v[27], v[28], v[29], v[30], v[31],
    ];
    assert(key@ =~= v@);
    key
}

/// The mail encryption key of a setting.
pub fn decode_key(value: Option<&str>) -> (r: Result<[u8; 32], String>)
    ensures
        match key_of(
            match value {
                Some(v) => Some(v@),
                None => None,
            },
        ) {
            Ok(bytes) => r is Ok && r->Ok_0@ == bytes,
            Err(msg) => r is Err && r->Err_0@ == msg,
        },
{
    let text = match value {
        None => {
            return Err(String::from_str("mail encryption key is required"));
        },
        Some(t) => t,
    };
    let v = match hex_decode(text) {
        None => {
            return Err(key_error());
        },
        Some(v) => v,
    };
    if v.len() != 32 {
        return Err(key_error());
    }
    Ok(key_array(&v))
}

// --------------------------------------------------------------- public URL

/// A public Web URL that mail may link to: a host, no credentials, query or
/// fragment, and HTTPS (or HTTP in development).
pub open spec fn public_url_ok(u: UrlParts, development: bool) -> bool {
    &&& u.host is Some
    &&& u.username@.len() == 0
    &&& u.password is None
    &&& u.query is None
    &&& u.fragment is None
    &&& (u.scheme@ == "https"@ || (development && u.scheme@ == "http"@))
}

/// What the public Web URL setting yields.
pub open spec fn public_url_of(value: Option<Seq<char>>, development: bool) -> Result<
    UrlParts,
    Seq<char>,
> {
    match value {
        None => Err("public Web URL is required when mail is enabled"@),
        Some(v) => match spec_url_parse(v) {
            None => Err("public Web URL is invalid"@),
            Some(u) => if public_url_ok(u, development) {
                Ok(u)
            } else {
                Err("public Web URL must be an HTTPS origin"@)
            },
        },
    }
}

/// The public Web URL of the settings.
pub fn validate_public_url(value: Option<&str>, development: bool) -> (r: Result<UrlParts, String>)
    ensures
        match public_url_of(
            match value {
                Some(v) => Some(v@),
                None => None,
            },
            development,
        ) {
            Ok(u) => r == Ok::<UrlParts, String>(u),
            Err(msg) => r is Err && r->Err_0@ == msg,
        },
{
    let text = match value {
        None => {
            return Err(String::from_str("public Web URL is required when mail is enabled"));
        },
        Some(t) => t,
    };
    let url = match parse_url(text) {
        None => {
            return Err(String::from_str("public Web URL is invalid"));
        },
        Some(u) => u,
    };
    proof {
        reveal_strlit("https");
        reveal_strlit("http");
    }
    let valid = url.host.is_some() && url.username.as_str().unicode_len() == 0
        && url.password.is_none() && url.query.is_none() && url.fragment.is_none() && (
    crate::text::same_text(url.scheme.as_str(), "https") || (development
        && crate::text::same_text(url.scheme.as_str(), "http")));
    if !valid {
        return Err(String::from_str("public Web URL must be an HTTPS origin"));
    }
    Ok(url)
}

// ------------------------------------------------------------------ config

/// Mail settings once checked.
#[derive(Clone, Debug, PartialEq, Eq)]
pub struct MailConfig {
    pub enabled: bool,
    pub public_web_url: UrlParts,
    pub smtp_host: String,
    pub smtp_port: u16,
    pub smtp_tls: SmtpTlsMode,
    pub smtp_username: String,
    pub smtp_password: String,
    pub from: Mailbox,
    pub default_locale: Locale,
    pub encryption_key: [u8; 32],
    pub poll_interval_ms: u64,
    pub claim_size: u32,
    pub concurrency: usize,
    pub lease_secs: u64,
    pub timeout_secs: u64,
    pub max_attempts: u32,
    pub retention_secs: u64,
}

/// The settings of disabled mail.
pub open spec fn is_default_config(c: MailConfig) -> bool {
    &&& !c.enabled
    &&& c.public_web_url.scheme@ == "http"@
    &&& c.public_web_url.host matches Some(h) && h@ == "localhost"@
    &&& c.public_web_url.username@ == ""@
    &&& c.public_web_url.password is None
    &&& c.public_web_url.path@ == "/"@
    &&& c.public_web_url.query is None
    &&& c.public_web_url.fragment is None
    &&& c.public_web_url.origin@ == "http://localhost"@
    &&& c.smtp_host@ == ""@
    &&& c.smtp_port == 587
    &&& c.smtp_tls == SmtpTlsMode::StartTls
    &&& c.smtp_username@ == ""@
    &&& c.smtp_password@ == ""@
    &&& c.from.name matches Some(n) && n@ == "Okoscope"@
    &&& c.from.email@ == "noreply@example.invalid"@
    &&& c.default_locale == Locale::En
    &&& c.encryption_key@ == Seq::new(32, |i: int| 0u8)
    &&& c.poll_interval_ms == 1000
    &&& c.claim_size == 25
    &&& c.concurrency == 4
    &&& c.lease_secs == 60
    &&& c.timeout_secs == 15
    &&& c.max_attempts == 8
    &&& c.retention_secs == 30 * 86_400
}

impl Default for MailConfig {
    fn default() -> (r: Self)
        ensures
            is_default_config(r),
    {
        let key: [u8; 32] = [0u8; 32];
        assert(key@ =~= Seq::new(32, |i: int| 0u8));
        proof {
            reveal_strlit("http");
            reveal_strlit("localhost");
            reveal_strlit("/");
            reveal_strlit("http://localhost");
            reveal_strlit("Okoscope");
            reveal_strlit("noreply@example.invalid");
            reveal_strlit("");
        }
        let r = MailConfig {
            enabled: false,
            public_web_url: UrlParts {
                scheme: String::from_str("http"),
                host: Some(String::from_str("localhost")),
                username: String::new(),
                password: None,
                path: String::from_str("/"),
                query: None,
                fragment: None,
                origin: String::from_str("http://localhost"),
            },
            smtp_host: String::new(),
            smtp_port: 587,
            smtp_tls: SmtpTlsMode::StartTls,
            smtp_username: String::new(),
            smtp_password: String::new(),
            from: Mailbox {
                name: Some(String::from_str("Okoscope")),
                email: String::from_str("noreply@example.invalid"),
            },
            default_locale: Locale::En,
            encryption_key: key,
            poll_interval_ms: 1000,
            claim_size: 25,
            concurrency: 4,
            lease_secs: 60,
            timeout_secs: 15,
            max_attempts: 8,
            retention_secs: 30 * 86_400,
        };
        assert(r.public_web_url.username@ == ""@);
        assert(r.smtp_host@ == ""@);
        assert(r.public_web_url.scheme@ == "http"@);
        assert(r.from.email@ == "noreply@example.invalid"@);
        assert(r.encryption_key@ == Seq::new(32, |i: int| 0u8));
        r
    }
}

/// The SMTP TLS mode a setting names.
pub open spec fn tls_mode_of(s: Seq<char>) -> Option<SmtpTlsMode> {
    if s == "starttls"@ {
        Some(SmtpTlsMode::StartTls)
    } else if s == "implicit"@ {
        Some(SmtpTlsMode::Implicit)
    } else if s == "plaintext"@ {
        Some(SmtpTlsMode::Plaintext)
    } else {
        None
    }
}

/// The locale a setting names.
pub open spec fn locale_of(s: Seq<char>) -> Option<Locale> {
    if s == "en"@ {
        Some(Locale::En)
    } else if s == "ru"@ {
        Some(Locale::Ru)
    } else {
        None
    }
}

/// A required setting is given with some non-blank text.
pub open spec fn given(value: Option<String>) -> bool {
    value matches Some(v) && trim_ws(v@).len() > 0
}

/// The mailbox text of the sender: `name <address>`.
pub open spec fn sender_text(args: MailArgs) -> Seq<char> {
    args.from_name@ + " <"@ + trim_ws(args.from_address->0@) + ">"@
}

/// Why enabled mail settings are refused, checked in order; none when they
/// are accepted.
pub open spec fn build_fault(args: MailArgs, development: bool) -> Option<Seq<char>> {
    let url = public_url_of(
        match args.public_web_url {
            Some(v) => Some(v@),
            None => None,
        },
        development,
    );
    if url is Err {
        Some(url->Err_0)
    } else if tls_mode_of(args.smtp_tls@) is None {
        Some("SMTP TLS mode must be starttls, implicit, or plaintext"@)
    } else if tls_mode_of(args.smtp_tls@) == Some(SmtpTlsMode::Plaintext) && !development {
        Some("plaintext SMTP is allowed only in development mode"@)
    } else if !bounds_ok(args) {
        Some("mail worker configuration is outside supported bounds"@)
    } else if !given(args.smtp_host) {
        Some("SMTP host is required when mail is enabled"@)
    } else if !given(args.smtp_username) {
        Some("SMTP username is required when mail is enabled"@)
    } else if !given(args.smtp_password) {
        Some("SMTP password is required when mail is enabled"@)
    } else if !given(args.from_address) {
        Some("mail sender address is required when mail is enabled"@)
    } else if !header_value_ok(args.from_name@) {
        Some("mail header value is invalid"@)
    } else if spec_mailbox_parse(sender_text(args)) is None {
        Some("mail sender address is invalid"@)
    } else if locale_of(args.default_locale@) is None {
        Some("locale must be en or ru"@)
    } else if key_of(
        match args.encryption_key {
            Some(v) => Some(v@),
            None => None,
        },
    ) is Err {
        Some(
            key_of(
                match args.encryption_key {
                    Some(v) => Some(v@),
                    None => None,
                },
            )->Err_0,
        )
    } else {
        None
    }
}

/// The settings that accepted mail arguments give.
pub open spec fn built_from(c: MailConfig, args: MailArgs, development: bool) -> bool {
    &&& c.enabled
    &&& public_url_of(Some(args.public_web_url->0@), development) == Ok::<UrlParts, Seq<char>>(
        c.public_web_url,
    )
    &&& c.smtp_host@ == trim_ws(args.smtp_host->0@)
    &&& c.smtp_port == args.smtp_port
    &&& Some(c.smtp_tls) == tls_mode_of(args.smtp_tls@)
    &&& c.smtp_username@ == trim_ws(args.smtp_username->0@)
    &&& c.smtp_password@ == trim_ws(args.smtp_password->0@)
    &&& Some(c.from) == spec_mailbox_parse(sender_text(args))
    &&& Some(c.default_locale) == locale_of(args.default_locale@)
    &&& key_of(Some(args.encryption_key->0@)) == Ok::<Seq<u8>, Seq<char>>(c.encryption_key@)
    &&& c.poll_interval_ms == args.poll_ms
    &&& c.claim_size == args.claim_size
    &&& c.concurrency == args.concurrency
    &&& c.lease_secs == args.lease_seconds
    &&& c.timeout_secs == args.timeout_seconds
    &&& c.max_attempts == args.max_attempts
    &&& c.retention_secs == args.retention_days * 86_400
}

fn owned_text(s: &'static str) -> (r: String)
    ensures
        r@ == s@,
{
    String::from_str(s)
}

fn as_option_str(value: &Option<String>) -> (r: Option<&str>)
    ensures
        match value {
            Some(v) => r is Some && r->0@ == v@,
            None => r is None,
        },
{
    match value {
        Some(v) => Some(v.as_str()),
        None => None,
    }
}

impl MailArgs {
    /// The mail settings these arguments give. Disabled mail has the default
    /// settings, unless public registration needs mail; enabled mail must
    /// pass every check of `build_fault`, in its order.
    pub fn build(&self, development: bool, registration: bool) -> (r: Result<MailConfig, String>)
        ensures
            !self.enabled && registration ==> r is Err && r->Err_0@
                == "public registration requires transactional mail"@,
            !self.enabled && !registration ==> r is Ok && is_default_config(r->Ok_0),
            self.enabled ==> match build_fault(*self, development) {
                Some(msg) => r is Err && r->Err_0@ == msg,
                None => r is Ok && built_from(r->Ok_0, *self, development),
            },
    {
        if !self.enabled {
            if registration {
                return Err(String::from_str("public registration requires transactional mail"));
            }
            return Ok(MailConfig::default());
        }
        proof {
            reveal_strlit("starttls");
            reveal_strlit("implicit");
            reveal_strlit("plaintext");
            reveal_strlit("en");
            reveal_strlit("ru");
        }
        let public_web_url = match validate_public_url(
            as_option_str(&self.public_web_url),
            development,
        ) {
            Ok(u) => u,
            Err(e) => {
                return Err(e);
            },
        };
        let smtp_tls = match SmtpTlsMode::parse(self.smtp_tls.as_str()) {
            Ok(m) => m,
            Err(e) => {
                return Err(owned_text(e));
            },
        };
        match smtp_tls {
            SmtpTlsMode::Plaintext => {
                if !development {
                    return Err(
                        String::from_str("plaintext SMTP is allowed only in development mode"),
                    );
                }
            },
            _ => {},
        }
        match validate_bounds(self) {
            Ok(()) => {},
            Err(e) => {
                return Err(e);
            },
        }
        let smtp_host = match required(&self.smtp_host, "SMTP host") {
            Ok(v) => v,
            Err(e) => {
                proof {
                    reveal_strlit("SMTP host");
                    reveal_strlit(" is required when mail is enabled");
                    reveal_strlit("SMTP host is required when mail is enabled");
                    assert("SMTP host"@ + " is required when mail is enabled"@
                        =~= "SMTP host is required when mail is enabled"@);
                }
                return Err(e);
            },
        };
        let smtp_username = match required(&self.smtp_username, "SMTP username") {
            Ok(v) => v,
            Err(e) => {
                proof {
                    reveal_strlit("SMTP username");
                    reveal_strlit(" is required when mail is enabled");
                    reveal_strlit("SMTP username is required when mail is enabled");
                    assert("SMTP username"@ + " is required when mail is enabled"@
                        =~= "SMTP username is required when mail is enabled"@);
                }
                return Err(e);
            },
        };
        let smtp_password = match required(&self.smtp_password, "SMTP password") {
            Ok(v) => v,
            Err(e) => {
                proof {
                    reveal_strlit("SMTP password");
                    reveal_strlit(" is required when mail is enabled");
                    reveal_strlit("SMTP password is required when mail is enabled");
                    assert("SMTP password"@ + " is required when mail is enabled"@
                        =~= "SMTP password is required when mail is enabled"@);
                }
                return Err(e);
            },
        };
        let from_address = match required(&self.from_address, "mail sender address") {
            Ok(v) => v,
            Err(e) => {
                proof {
                    reveal_strlit("mail sender address");
                    reveal_strlit(" is required when mail is enabled");
                    reveal_strlit("mail sender address is required when mail is enabled");
                    assert("mail sender address"@ + " is required when mail is enabled"@
                        =~= "mail sender address is required when mail is enabled"@);
                }
                return Err(e);
            },
        };
        match reject_header_injection(self.from_name.as_str()) {
            Ok(()) => {},
            Err(e) => {
                return Err(e);
            },
        }
        let mut sender = self.from_name.clone();
        append(&mut sender, " <");
        append(&mut sender, from_address.as_str());
        append(&mut sender, ">");
        let from = match parse_mailbox(sender.as_str()) {
            Some(m) => m,
            None => {
                return Err(String::from_str("mail sender address is invalid"));
            },
        };
        let default_locale = match Locale::parse(self.default_locale.as_str()) {
            Ok(l) => l,
            Err(e) => {
                return Err(owned_text(e));
            },
        };
        let encryption_key = match decode_key(as_option_str(&self.encryption_key)) {
            Ok(k) => k,
            Err(e) => {
                return Err(e);
            },
        };
        Ok(
            MailConfig {
                enabled: true,
                public_web_url,
                smtp_host,
                smtp_port: self.smtp_port,
                smtp_tls,
                smtp_username,
                smtp_password,
                from,
                default_locale,
                encryption_key,
                poll_interval_ms: self.poll_ms,
                claim_size: self.claim_size,
                concurrency: self.concurrency,
                lease_secs: self.lease_seconds,
                timeout_secs: self.timeout_seconds,
                max_attempts: self.max_attempts,
                retention_secs: self.retention_days * 86_400,
            },
        )
    }
}

// ------------------------------------------------------ sealed payloads

/// Why mail could not be queued or read back.
#[derive(Clone, Debug, PartialEq, Eq)]
pub enum MailError {
    TooManyRecipients,
    InvalidPayload,
    Database(String),
}

/// What `XChaCha20Poly1305::encrypt` gives for a key, a 24-byte nonce,
/// associated data and a message: the ciphertext with its tag, or none.
pub uninterp spec fn spec_seal(key: Seq<u8>, nonce: Seq<u8>, aad: Seq<u8>, msg: Seq<u8>) -> Option<
    Seq<u8>,
>;

/// What `XChaCha20Poly1305::decrypt` gives for a key, a 24-byte nonce,
/// associated data and a ciphertext: the message, or none where the tag
/// does not authenticate them.
pub uninterp spec fn spec_open(key: Seq<u8>, nonce: Seq<u8>, aad: Seq<u8>, ciphertext: Seq<u8>) -> Option<
    Seq<u8>,
>;

/// `XChaCha20Poly1305::new(key).encrypt(nonce, Payload { msg, aad })`; the
/// result is named by `spec_seal`.
#[verifier::external_body]
fn seal(key: &[u8; 32], nonce: &[u8; 24], aad: &[u8], msg: &[u8]) -> (r: Option<Vec<u8>>)
    ensures
        match r {
            Some(c) => spec_seal(key@, nonce@, aad@, msg@) == Some(c@),
            None => spec_seal(key@, nonce@, aad@, msg@) is None,
        },
{
    let cipher = <chacha20poly1305::XChaCha20Poly1305 as chacha20poly1305::KeyInit>::new(key.into());
    let payload = chacha20poly1305::aead::Payload { msg, aad };
    <chacha20poly1305::XChaCha20Poly1305 as chacha20poly1305::aead::Aead>::encrypt(
        &cipher,
        chacha20poly1305::XNonce::from_slice(nonce),
        payload,
    ).ok()
}

/// `XChaCha20Poly1305::new(key).decrypt(nonce, Payload { msg, aad })`; the
/// result is named by `spec_open`. A ciphertext that `encrypt` made of a
/// message under the same key, nonce and associated data decrypts to that
/// message.
#[verifier::external_body]
fn open(key: &[u8; 32], nonce: &[u8], aad: &[u8], ciphertext: &[u8]) -> (r: Option<Vec<u8>>)
    requires
        nonce@.len() == 24,
    ensures
        match r {
            Some(m) => spec_open(key@, nonce@, aad@, ciphertext@) == Some(m@),
            None => spec_open(key@, nonce@, aad@, ciphertext@) is None,
        },
        forall|m: Seq<u8>|
            #![trigger spec_seal(key@, nonce@, aad@, m)]
            spec_seal(key@, nonce@, aad@, m) == Some(ciphertext@) ==> r is Some && r->0@ == m,
{
    let cipher = <chacha20poly1305::XChaCha20Poly1305 as chacha20poly1305::KeyInit>::new(key.into());
    let payload = chacha20poly1305::aead::Payload { msg: ciphertext, aad };
    <chacha20poly1305::XChaCha20Poly1305 as chacha20poly1305::aead::Aead>::decrypt(
        &cipher,
        chacha20poly1305::XNonce::from_slice(nonce),
        payload,
    ).ok()
}

/// `rand::rng().fill_bytes`: 24 bytes from the thread's random generator.
/// Nothing is stated of them.
#[verifier::external_body]
fn random_nonce() -> (r: [u8; 24]) {
    let mut nonce = [0u8; 24];
    rand::RngCore::fill_bytes(&mut rand::rng(), &mut nonce);
    nonce
}

/// The associated data a mail payload is sealed with: the mail's id, its
/// template kind and its recipient, `id:kind:recipient`.
pub open spec fn mail_aad(id: u128, kind: Seq<char>, recipient: Seq<char>) -> Seq<char> {
    spec_uuid_text(id) + ":"@ + kind + ":"@ + recipient
}

fn aad_bytes(id: u128, kind: &str, recipient: &str) -> (r: Vec<u8>)
    ensures
        r@ == utf8(mail_aad(id, kind@, recipient@)),
{
    let mut text = uuid_text(id);
    proof {
        reveal_strlit(":");
    }
    append(&mut text, ":");
    append(&mut text, kind);
    append(&mut text, ":");
    append(&mut text, recipient);
    let s: &str = text.as_str();
    vstd::slice::slice_to_vec(s.as_bytes())
}

/// Seals a mail payload under a fresh random nonce, bound to the mail's id,
/// kind and recipient. The ciphertext and the nonce it was sealed with are
/// returned; sealing can only fail for a message too long for the cipher.
pub fn encrypt_payload(key: &[u8; 32], id: u128, kind: &str, recipient: &str, plaintext: &[u8]) -> (r:
    Result<(Vec<u8>, [u8; 24]), MailError>)
    ensures
        match r {
            Ok((c, n)) => spec_seal(key@, n@, utf8(mail_aad(id, kind@, recipient@)), plaintext@)
                == Some(c@),
            Err(e) => e == MailError::InvalidPayload && exists|n: Seq<u8>|
                n.len() == 24 && #[trigger] spec_seal(
                    key@,
                    n,
                    utf8(mail_aad(id, kind@, recipient@)),
                    plaintext@,
                ) is None,
        },
{
    let nonce = random_nonce();
    let aad = aad_bytes(id, kind, recipient);
    match seal(key, &nonce, aad.as_slice(), plaintext) {
        Some(c) => Ok((c, nonce)),
        None => {
            assert(nonce@.len() == 24);
            Err(MailError::InvalidPayload)
        },
    }
}

/// A queued mail, as a worker claims it.
#[derive(Clone, Debug, PartialEq, Eq)]
pub struct ClaimedMail {
    pub id: u128,
    pub template_kind: String,
    pub recipient_email: String,
    pub locale: String,
    pub payload_ciphertext: Vec<u8>,
    pub payload_nonce: Vec<u8>,
    pub attempt_count: i32,
    pub expires_at: Option<UtcTimestamp>,
}

/// Opens a claimed mail's payload with the configured key. A nonce that is
/// not 24 bytes long, a wrong key, or a ciphertext, id, kind or recipient
/// other than those it was sealed with, make the payload invalid; a payload
/// sealed by `encrypt_payload` with the same key, id, kind and recipient
/// opens to the message sealed.
pub fn decrypt(config: &MailConfig, mail: &ClaimedMail) -> (r: Result<Vec<u8>, MailError>)
    ensures
        mail.payload_nonce@.len() != 24 ==> r == Err::<Vec<u8>, MailError>(MailError::InvalidPayload),
        mail.payload_nonce@.len() == 24 ==> match spec_open(
            config.encryption_key@,
            mail.payload_nonce@,
            utf8(mail_aad(mail.id, mail.template_kind@, mail.recipient_email@)),
            mail.payload_ciphertext@,
        ) {
            Some(m) => r is Ok && r->Ok_0@ == m,
            None => r == Err::<Vec<u8>, MailError>(MailError::InvalidPayload),
        },
        forall|m: Seq<u8>|
            #![trigger spec_seal(
                config.encryption_key@,
                mail.payload_nonce@,
                utf8(mail_aad(mail.id, mail.template_kind@, mail.recipient_email@)),
                m,
            )]
            mail.payload_nonce@.len() == 24 && spec_seal(
                config.encryption_key@,
                mail.payload_nonce@,
                utf8(mail_aad(mail.id, mail.template_kind@, mail.recipient_email@)),
                m,
            ) == Some(mail.payload_ciphertext@) ==> r is Ok && r->Ok_0@ == m,
{
    if mail.payload_nonce.len() != 24 {
        return Err(MailError::InvalidPayload);
    }
    let aad = aad_bytes(mail.id, mail.template_kind.as_str(), mail.recipient_email.as_str());
    match open(
        &config.encryption_key,
        mail.payload_nonce.as_slice(),
        aad.as_slice(),
        mail.payload_ciphertext.as_slice(),
    ) {
        Some(m) => Ok(m),
        None => Err(MailError::InvalidPayload),
    }
}

// -------------------------------------------------------------- queueing

/// Whether an e-mail address occurs among the first entries of a list.
pub open spec fn listed(emails: Seq<(String, Locale)>, email: Seq<char>) -> bool {
    exists|j: int| 0 <= j < emails.len() && (#[trigger] emails[j]).0@ == email
}

/// The recipients with each address kept once, at its first occurrence, in
/// order.
pub open spec fn first_occurrences(recipients: Seq<(String, Locale)>) -> Seq<(String, Locale)>
    decreases recipients.len(),
{
    if recipients.len() == 0 {
        Seq::empty()
    } else {
        let rest = first_occurrences(recipients.drop_last());
        if listed(rest, recipients.last().0@) {
            rest
        } else {
            rest.push(recipients.last())
        }
    }
}

/// A mail reaches each address at most once: no two kept recipients share an
/// address.
pub proof fn lemma_recipients_distinct(recipients: Seq<(String, Locale)>)
    ensures
        forall|i: int, j: int|
            0 <= i < j < first_occurrences(recipients).len() ==> (#[trigger] first_occurrences(
                recipients,
            )[i]).0@ != (#[trigger] first_occurrences(recipients)[j]).0@,
    decreases recipients.len(),
{
    if recipients.len() > 0 {
        let init = recipients.drop_last();
        lemma_recipients_distinct(init);
        let rest = first_occurrences(init);
        if !listed(rest, recipients.last().0@) {
            let all = rest.push(recipients.last());
            assert forall|i: int, j: int| 0 <= i < j < all.len() implies (#[trigger] all[i]).0@
                != (#[trigger] all[j]).0@ by {
                if j == rest.len() {
                    assert(all[i] == rest[i]);
                    assert(all[j] == recipients.last());
                } else {
                    assert(all[i] == rest[i]);
                    assert(all[j] == rest[j]);
                }
            }
        }
    }
}

proof fn lemma_listed_push(s: Seq<(String, Locale)>, x: (String, Locale), e: Seq<char>)
    ensures
        listed(s.push(x), e) <==> (listed(s, e) || x.0@ == e),
{
    let p = s.push(x);
    if listed(p, e) {
        let k = choose|k: int| 0 <= k < p.len() && (#[trigger] p[k]).0@ == e;
        if k < s.len() {
            assert(p[k] == s[k]);
        }
    }
    if listed(s, e) {
        let k = choose|k: int| 0 <= k < s.len() && (#[trigger] s[k]).0@ == e;
        assert(p[k] == s[k]);
    }
    if x.0@ == e {
        assert(p[s.len() as int] == x);
    }
}

/// A mail reaches every address it was given: an address is kept exactly
/// when some recipient has it.
pub proof fn lemma_recipients_kept(recipients: Seq<(String, Locale)>, email: Seq<char>)
    ensures
        listed(first_occurrences(recipients), email) <==> listed(recipients, email),
    decreases recipients.len(),
{
    if recipients.len() > 0 {
        let init = recipients.drop_last();
        let x = recipients.last();
        lemma_recipients_kept(init, email);
        lemma_recipients_kept(init, x.0@);
        assert(recipients =~= init.push(x));
        lemma_listed_push(init, x, email);
        let rest = first_occurrences(init);
        if !listed(rest, x.0@) {
            lemma_listed_push(rest, x, email);
        }
    }
}

/// The recipients of a mail with their locales, each address (already
/// normalized; none where it is no valid address) kept once, at its first
/// occurrence. More than `MAX_RECIPIENTS` recipients, or an invalid address,
/// refuse the mail.
pub fn deduplicate(recipients: &Vec<(Option<String>, Locale)>) -> (r: Result<
    Vec<(String, Locale)>,
    MailError,
>)
    ensures
        recipients@.len() > MAX_RECIPIENTS ==> r == Err::<Vec<(String, Locale)>, MailError>(
            MailError::TooManyRecipients,
        ),
        recipients@.len() <= MAX_RECIPIENTS && (exists|i: int|
            0 <= i < recipients@.len() && (#[trigger] recipients@[i]).0 is None) ==> r == Err::<
            Vec<(String, Locale)>,
            MailError,
        >(MailError::InvalidPayload),
        recipients@.len() <= MAX_RECIPIENTS && (forall|i: int|
            0 <= i < recipients@.len() ==> (#[trigger] recipients@[i]).0 is Some) ==> r is Ok
            && r->Ok_0@ == first_occurrences(
            recipients@.map_values(|e: (Option<String>, Locale)| (e.0->0, e.1)),
        ),
{
    if recipients.len() > MAX_RECIPIENTS {
        return Err(MailError::TooManyRecipients);
    }
    let ghost given = recipients@.map_values(|e: (Option<String>, Locale)| (e.0->0, e.1));
    let mut result: Vec<(String, Locale)> = Vec::new();
    let mut i: usize = 0;
    while i < recipients.len()
        invariant
            i <= recipients@.len() <= MAX_RECIPIENTS,
            given == recipients@.map_values(|e: (Option<String>, Locale)| (e.0->0, e.1)),
            forall|j: int| 0 <= j < i ==> (#[trigger] recipients@[j]).0 is Some,
            result@ == first_occurrences(given.take(i as int)),
        decreases recipients@.len() - i,
    {
        let (email, locale) = &recipients[i];
        let email = match email {
            Some(e) => e,
            None => {
                return Err(MailError::InvalidPayload);
            },
        };
        let ghost before = result@;
        let mut seen = false;
        let mut k: usize = 0;
        while k < result.len()
            invariant
                k <= result@.len(),
                result@ == before,
                seen <==> exists|j: int| 0 <= j < k && (#[trigger] result@[j]).0@ == email@,
            decreases result@.len() - k,
        {
            if crate::text::same_text(result[k].0.as_str(), email.as_str()) {
                seen = true;
            }
            k = k + 1;
        }
        proof {
            assert(given.take(i as int + 1).drop_last() =~= given.take(i as int));
            assert(given.take(i as int + 1).last() == given[i as int]);
            assert(given[i as int].0 == *email);
        }
        if !seen {
            result.push((email.clone(), *locale));
        }
        i = i + 1;
    }
    proof {
        assert(given.take(i as int) =~= given);
    }
    Ok(result)
}

/// Longest serialized payload a queued mail may carry, in bytes.
pub const MAX_MAIL_PAYLOAD_BYTES: usize = 16_384;

/// Longest logical key of a queued mail, in bytes.
pub const MAX_LOGICAL_KEY_BYTES: usize = 256;

/// The recipients a mail is queued for: none when mail is disabled or there
/// is nobody to write to; otherwise each recipient once, provided the
/// serialized payload and the logical key are within their bounds.
pub fn enqueue_plan(
    enabled: bool,
    recipients: &Vec<(Option<String>, Locale)>,
    payload_len: usize,
    logical_key: &str,
) -> (r: Result<Vec<(String, Locale)>, MailError>)
    ensures
        (!enabled || recipients@.len() == 0) ==> r is Ok && r->Ok_0@.len() == 0,
        enabled && recipients@.len() > 0 && recipients@.len() > MAX_RECIPIENTS ==> r == Err::<
            Vec<(String, Locale)>,
            MailError,
        >(MailError::TooManyRecipients),
        enabled && 0 < recipients@.len() <= MAX_RECIPIENTS && (exists|i: int|
            0 <= i < recipients@.len() && (#[trigger] recipients@[i]).0 is None) ==> r == Err::<
            Vec<(String, Locale)>,
            MailError,
        >(MailError::InvalidPayload),
        enabled && 0 < recipients@.len() <= MAX_RECIPIENTS && (forall|i: int|
            0 <= i < recipients@.len() ==> (#[trigger] recipients@[i]).0 is Some) ==> (if payload_len
            > MAX_MAIL_PAYLOAD_BYTES || crate::text::utf8_len(logical_key@) > MAX_LOGICAL_KEY_BYTES {
            r == Err::<Vec<(String, Locale)>, MailError>(MailError::InvalidPayload)
        } else {
            r is Ok && r->Ok_0@ == first_occurrences(
                recipients@.map_values(|e: (Option<String>, Locale)| (e.0->0, e.1)),
            )
        }),
{
    if !enabled || recipients.len() == 0 {
        return Ok(Vec::new());
    }
    let unique = match deduplicate(recipients) {
        Ok(u) => u,
        Err(e) => {
            return Err(e);
        },
    };
    if payload_len > MAX_MAIL_PAYLOAD_BYTES || crate::text::byte_len(logical_key)
        > MAX_LOGICAL_KEY_BYTES {
        return Err(MailError::InvalidPayload);
    }
    Ok(unique)
}

} // verus!
