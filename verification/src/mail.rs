//! Transactional mail: locales, templates and their rendering, the checks on
//! mail settings, and what becomes of a mail after a delivery attempt.

use vstd::prelude::*;

use crate::text::{
    all_whitespace, append, chars_of, char_count, i64_text, is_blank, push_char, signed_decimal,
    trim_whitespace, trim_ws,
};

verus! {

/// Most recipients one mail may go to.
pub const MAX_RECIPIENTS: usize = 100;

#[derive(Clone, Copy, Debug, PartialEq, Eq)]
pub enum Locale {
    En,
    Ru,
}

impl Locale {
    /// The locale's tag.
    pub fn as_str(self) -> (r: &'static str)
        ensures
            r@ == locale_tag(self),
    {
        match self {
            Locale::En => "en",
            Locale::Ru => "ru",
        }
    }

    /// Parses a locale tag: `en` or `ru`.
    pub fn parse(value: &str) -> (r: Result<Locale, &'static str>)
        ensures
            value@ == "en"@ ==> r == Ok::<Locale, &'static str>(Locale::En),
            value@ == "ru"@ ==> r == Ok::<Locale, &'static str>(Locale::Ru),
            value@ != "en"@ && value@ != "ru"@ ==> r is Err && r->Err_0@
                == "locale must be en or ru"@,
    {
        proof {
            reveal_strlit("en");
            reveal_strlit("ru");
            assert("en"@[0] != "ru"@[0]);
        }
        if crate::text::same_text(value, "en") {
            Ok(Locale::En)
        } else if crate::text::same_text(value, "ru") {
            Ok(Locale::Ru)
        } else {
            Err("locale must be en or ru")
        }
    }
}

pub open spec fn locale_tag(l: Locale) -> Seq<char> {
    match l {
        Locale::En => "en"@,
        Locale::Ru => "ru"@,
    }
}

#[derive(Clone, Copy, Debug, PartialEq, Eq)]
pub enum SmtpTlsMode {
    StartTls,
    Implicit,
    Plaintext,
}

impl SmtpTlsMode {
    /// Parses an SMTP TLS mode: `starttls`, `implicit` or `plaintext`.
    pub fn parse(value: &str) -> (r: Result<SmtpTlsMode, &'static str>)
        ensures
            value@ == "starttls"@ ==> r == Ok::<SmtpTlsMode, &'static str>(SmtpTlsMode::StartTls),
            value@ == "implicit"@ ==> r == Ok::<SmtpTlsMode, &'static str>(SmtpTlsMode::Implicit),
            value@ == "plaintext"@ ==> r == Ok::<SmtpTlsMode, &'static str>(
                SmtpTlsMode::Plaintext,
            ),
            value@ != "starttls"@ && value@ != "implicit"@ && value@ != "plaintext"@ ==> r is Err
                && r->Err_0@ == "SMTP TLS mode must be starttls, implicit, or plaintext"@,
    {
        proof {
            reveal_strlit("starttls");
            reveal_strlit("implicit");
            reveal_strlit("plaintext");
            assert("starttls"@[0] != "implicit"@[0]);
            assert("starttls"@[0] != "plaintext"@[0]);
            assert("implicit"@[0] != "plaintext"@[0]);
        }
        if crate::text::same_text(value, "starttls") {
            Ok(SmtpTlsMode::StartTls)
        } else if crate::text::same_text(value, "implicit") {
            Ok(SmtpTlsMode::Implicit)
        } else if crate::text::same_text(value, "plaintext") {
            Ok(SmtpTlsMode::Plaintext)
        } else {
            Err("SMTP TLS mode must be starttls, implicit, or plaintext")
        }
    }
}

/// Mail settings as given on the command line or in the environment.
#[derive(Clone, Debug, PartialEq, Eq)]
pub struct MailArgs {
    pub enabled: bool,
    pub public_web_url: Option<String>,
    pub smtp_host: Option<String>,
    pub smtp_port: u16,
    pub smtp_tls: String,
    pub smtp_username: Option<String>,
    pub smtp_password: Option<String>,
    pub from_address: Option<String>,
    pub from_name: String,
    pub default_locale: String,
    pub encryption_key: Option<String>,
    pub poll_ms: u64,
    pub claim_size: u32,
    pub concurrency: usize,
    pub lease_seconds: u64,
    pub timeout_seconds: u64,
    pub max_attempts: u32,
    pub retention_days: u64,
}

/// The worker settings lie within their supported ranges.
pub open spec fn bounds_ok(args: MailArgs) -> bool {
    &&& args.smtp_port != 0
    &&& 100 <= args.poll_ms <= 60_000
    &&& 1 <= args.claim_size <= 100
    &&& 1 <= args.concurrency <= 32
    &&& 10 <= args.lease_seconds <= 600
    &&& 1 <= args.timeout_seconds <= 120
    &&& 1 <= args.max_attempts <= 20
    &&& 1 <= args.retention_days <= 365
}

pub fn validate_bounds(args: &MailArgs) -> (r: Result<(), String>)
    ensures
        bounds_ok(*args) ==> r is Ok,
        !bounds_ok(*args) ==> r is Err && r->Err_0@
            == "mail worker configuration is outside supported bounds"@,
{
    if args.smtp_port == 0 || !(100 <= args.poll_ms && args.poll_ms <= 60_000) || !(1
        <= args.claim_size && args.claim_size <= 100) || !(1 <= args.concurrency
        && args.concurrency <= 32) || !(10 <= args.lease_seconds && args.lease_seconds <= 600)
        || !(1 <= args.timeout_seconds && args.timeout_seconds <= 120) || !(1 <= args.max_attempts
        && args.max_attempts <= 20) || !(1 <= args.retention_days && args.retention_days <= 365) {
        return Err(String::from_str("mail worker configuration is outside supported bounds"));
    }
    Ok(())
}

/// A header value that is safe to place in a mail header: no line break,
/// not blank, at most 120 characters.
pub open spec fn header_value_ok(value: Seq<char>) -> bool {
    &&& !value.contains('\r')
    &&& !value.contains('\n')
    &&& !all_whitespace(value)
    &&& value.len() <= 120
}

fn has_line_break(value: &str) -> (r: bool)
    ensures
        r == (value@.contains('\r') || value@.contains('\n')),
{
    let chars = chars_of(value);
    let mut i: usize = 0;
    while i < chars.len()
        invariant
            chars@ == value@,
            i <= chars@.len(),
            forall|j: int| 0 <= j < i ==> chars@[j] != '\r' && chars@[j] != '\n',
        decreases chars@.len() - i,
    {
        if chars[i] == '\r' || chars[i] == '\n' {
            assert(value@[i as int] == chars@[i as int]);
            return true;
        }
        i = i + 1;
    }
    false
}

pub fn reject_header_injection(value: &str) -> (r: Result<(), String>)
    ensures
        header_value_ok(value@) ==> r is Ok,
        !header_value_ok(value@) ==> r is Err && r->Err_0@ == "mail header value is invalid"@,
{
    if has_line_break(value) || is_blank(value) || char_count(value) > 120 {
        return Err(String::from_str("mail header value is invalid"));
    }
    Ok(())
}

/// A required setting: its trimmed text, when that is not empty.
pub fn required(value: &Option<String>, name: &str) -> (r: Result<String, String>)
    ensures
        value matches Some(v) && trim_ws(v@).len() > 0 ==> r is Ok && r->Ok_0@ == trim_ws(
            value->0@,
        ),
        !(value matches Some(v) && trim_ws(v@).len() > 0) ==> r is Err && r->Err_0@ == name@
            + " is required when mail is enabled"@,
{
    match value {
        Some(v) => {
            let t = trim_whitespace(v.as_str());
            if !t.as_str().is_empty() {
                return Ok(t);
            }
        },
        None => {},
    }
    let mut message = String::from_str(name);
    append(&mut message, " is required when mail is enabled");
    Err(message)
}

/// What a mail is about, with the values its templates show.
#[derive(Clone, Debug, PartialEq, Eq)]
pub enum TemplateData {
    VerifyEmail { action_url: String, organization_name: String, expires_minutes: i64 },
    ResetPassword { action_url: String, expires_minutes: i64 },
    PasswordChanged,
    ApplicationCreated { application_name: String, project_name: String },
}

pub open spec fn template_kind(d: TemplateData) -> Seq<char> {
    match d {
        TemplateData::VerifyEmail { .. } => "verify_email"@,
        TemplateData::ResetPassword { .. } => "reset_password"@,
        TemplateData::PasswordChanged => "password_changed"@,
        TemplateData::ApplicationCreated { .. } => "application_created"@,
    }
}

impl TemplateData {
    /// The template's kind name, as stored with the mail.
    pub fn kind(&self) -> (r: &'static str)
        ensures
            r@ == template_kind(*self),
    {
        match self {
            TemplateData::VerifyEmail { .. } => "verify_email",
            TemplateData::ResetPassword { .. } => "reset_password",
            TemplateData::PasswordChanged => "password_changed",
            TemplateData::ApplicationCreated { .. } => "application_created",
        }
    }
}

/// A mail ready to send.
#[derive(Clone, Debug, PartialEq, Eq)]
pub struct RenderedMail {
    pub subject: String,
    pub text: String,
    pub html: String,
}

/// The HTML text of one character: the five markup characters become their
/// entities, any other stands for itself.
pub open spec fn escape_char(c: char) -> Seq<char> {
    if c == '&' {
        "&amp;"@
    } else if c == '<' {
        "&lt;"@
    } else if c == '>' {
        "&gt;"@
    } else if c == '"' {
        "&quot;"@
    } else if c == '\'' {
        "&#39;"@
    } else {
        seq![c]
    }
}

/// Text escaped for HTML, character by character.
pub open spec fn escaped(s: Seq<char>) -> Seq<char>
    decreases s.len(),
{
    if s.len() == 0 {
        Seq::empty()
    } else {
        escaped(s.drop_last()) + escape_char(s.last())
    }
}

/// Escapes the characters that HTML gives a meaning to.
pub fn escape_html(value: &str) -> (r: String)
    ensures
        r@ == escaped(value@),
{
    let chars = chars_of(value);
    let mut out = String::new();
    let mut i: usize = 0;
    proof {
        reveal_strlit("&amp;");
        reveal_strlit("&lt;");
        reveal_strlit("&gt;");
        reveal_strlit("&quot;");
        reveal_strlit("&#39;");
    }
    while i < chars.len()
        invariant
            chars@ == value@,
            i <= chars@.len(),
            out@ == escaped(value@.take(i as int)),
        decreases chars@.len() - i,
    {
        let c = chars[i];
        if c == '&' {
            append(&mut out, "&amp;");
        } else if c == '<' {
            append(&mut out, "&lt;");
        } else if c == '>' {
            append(&mut out, "&gt;");
        } else if c == '"' {
            append(&mut out, "&quot;");
        } else if c == '\'' {
            append(&mut out, "&#39;");
        } else {
            push_char(&mut out, c);
        }
        proof {
            assert(value@.take(i as int + 1).drop_last() =~= value@.take(i as int));
            assert(value@.take(i as int + 1).last() == c);
        }
        i = i + 1;
    }
    proof {
        assert(value@.take(i as int) =~= value@);
    }
    out
}

/// Escaped text holds no markup character other than the `&` of an entity.
pub proof fn lemma_escaped_has_no_markup(s: Seq<char>)
    ensures
        !escaped(s).contains('<'),
        !escaped(s).contains('>'),
        !escaped(s).contains('"'),
        !escaped(s).contains('\''),
    decreases s.len(),
{
    reveal_strlit("&amp;");
    reveal_strlit("&lt;");
    reveal_strlit("&gt;");
    reveal_strlit("&quot;");
    reveal_strlit("&#39;");
    if s.len() > 0 {
        lemma_escaped_has_no_markup(s.drop_last());
        let a = escaped(s.drop_last());
        let b = escape_char(s.last());
        assert forall|c: char| c == '<' || c == '>' || c == '"' || c == '\'' implies !(a
            + b).contains(c) by {
            if (a + b).contains(c) {
                let k = choose|k: int| 0 <= k < (a + b).len() && (a + b)[k] == c;
                if k < a.len() {
                    assert(a[k] == c);
                } else {
                    assert(b[k - a.len()] == c);
                }
            }
        }
    }
}

/// Escaped text read back: each entity of the five markup characters, read
/// from the left, stands for its character again; any other character stands
/// for itself.
pub open spec fn unescaped(s: Seq<char>) -> Seq<char>
    decreases s.len(),
{
    if s.len() == 0 {
        Seq::empty()
    } else if s.len() >= 5 && s.subrange(0, 5) == seq!['&', 'a', 'm', 'p', ';'] {
        seq!['&'] + unescaped(s.skip(5))
    } else if s.len() >= 4 && s.subrange(0, 4) == seq!['&', 'l', 't', ';'] {
        seq!['<'] + unescaped(s.skip(4))
    } else if s.len() >= 4 && s.subrange(0, 4) == seq!['&', 'g', 't', ';'] {
        seq!['>'] + unescaped(s.skip(4))
    } else if s.len() >= 6 && s.subrange(0, 6) == seq!['&', 'q', 'u', 'o', 't', ';'] {
        seq!['"'] + unescaped(s.skip(6))
    } else if s.len() >= 5 && s.subrange(0, 5) == seq!['&', '#', '3', '9', ';'] {
        seq!['\''] + unescaped(s.skip(5))
    } else {
        seq![s[0]] + unescaped(s.skip(1))
    }
}

proof fn lemma_escaped_front(s: Seq<char>)
    requires
        s.len() > 0,
    ensures
        escaped(s) == escape_char(s[0]) + escaped(s.drop_first()),
    decreases s.len(),
{
    if s.len() == 1 {
        assert(s.drop_last() =~= Seq::<char>::empty());
        assert(s.drop_first() =~= Seq::<char>::empty());
        assert(escaped(s.drop_last()) == Seq::<char>::empty());
        assert(s.last() == s[0]);
        assert(escaped(s) =~= escape_char(s[0]));
        assert(escape_char(s[0]) + escaped(s.drop_first()) =~= escape_char(s[0]));
    } else {
        lemma_escaped_front(s.drop_last());
        assert(s.drop_last().drop_first() =~= s.drop_first().drop_last());
        assert(s.drop_first().last() == s.last());
        assert(s.drop_last()[0] == s[0]);
        assert(escaped(s) =~= escape_char(s[0]) + escaped(s.drop_first()));
    }
}

proof fn lemma_unescape_char(c: char, t: Seq<char>)
    ensures
        unescaped(escape_char(c) + t) == seq![c] + unescaped(t),
{
    reveal_strlit("&amp;");
    reveal_strlit("&lt;");
    reveal_strlit("&gt;");
    reveal_strlit("&quot;");
    reveal_strlit("&#39;");
    let e = escape_char(c);
    let s = e + t;
    assert(s.skip(e.len() as int) =~= t);
    if c == '&' {
        assert(s.subrange(0, 5) =~= seq!['&', 'a', 'm', 'p', ';']);
    } else if c == '<' {
        assert(s.subrange(0, 4) =~= seq!['&', 'l', 't', ';']);
        if s.len() >= 5 {
            assert(s.subrange(0, 5)[1] == s[1]);
            assert(s.subrange(0, 5) != seq!['&', 'a', 'm', 'p', ';']);
        }
    } else if c == '>' {
        assert(s.subrange(0, 4) =~= seq!['&', 'g', 't', ';']);
        if s.len() >= 5 {
            assert(s.subrange(0, 5)[1] == s[1]);
            assert(s.subrange(0, 5) != seq!['&', 'a', 'm', 'p', ';']);
        }
        if s.len() >= 4 {
            assert(s.subrange(0, 4)[1] == s[1]);
            assert(s.subrange(0, 4) != seq!['&', 'l', 't', ';']);
        }
    } else if c == '"' {
        assert(s.subrange(0, 6) =~= seq!['&', 'q', 'u', 'o', 't', ';']);
        if s.len() >= 5 {
            assert(s.subrange(0, 5)[1] == s[1]);
            assert(s.subrange(0, 5) != seq!['&', 'a', 'm', 'p', ';']);
        }
        if s.len() >= 4 {
            assert(s.subrange(0, 4)[1] == s[1]);
            assert(s.subrange(0, 4) != seq!['&', 'l', 't', ';']);
        }
        if s.len() >= 4 {
            assert(s.subrange(0, 4)[1] == s[1]);
            assert(s.subrange(0, 4) != seq!['&', 'g', 't', ';']);
        }
    } else if c == '\'' {
        assert(s.subrange(0, 5) =~= seq!['&', '#', '3', '9', ';']);
        if s.len() >= 5 {
            assert(s.subrange(0, 5)[1] == s[1]);
            assert(s.subrange(0, 5) != seq!['&', 'a', 'm', 'p', ';']);
        }
        if s.len() >= 4 {
            assert(s.subrange(0, 4)[1] == s[1]);
            assert(s.subrange(0, 4) != seq!['&', 'l', 't', ';']);
        }
        if s.len() >= 4 {
            assert(s.subrange(0, 4)[1] == s[1]);
            assert(s.subrange(0, 4) != seq!['&', 'g', 't', ';']);
        }
        if s.len() >= 6 {
            assert(s.subrange(0, 6)[1] == s[1]);
            assert(s.subrange(0, 6) != seq!['&', 'q', 'u', 'o', 't', ';']);
        }
    } else {
        assert(s[0] == c);
        assert(s.len() >= 5 ==> s.subrange(0, 5)[0] == c);
        assert(s.len() >= 4 ==> s.subrange(0, 4)[0] == c);
        assert(s.len() >= 6 ==> s.subrange(0, 6)[0] == c);
    }
}

/// Escaping loses nothing: reading the entities back gives the text that was
/// escaped.
pub proof fn lemma_unescape_round_trip(s: Seq<char>)
    ensures
        unescaped(escaped(s)) == s,
    decreases s.len(),
{
    if s.len() == 0 {
        assert(escaped(s) =~= Seq::<char>::empty());
    } else {
        lemma_escaped_front(s);
        lemma_unescape_char(s[0], escaped(s.drop_first()));
        lemma_unescape_round_trip(s.drop_first());
        assert(seq![s[0]] + s.drop_first() =~= s);
    }
}

/// The text starts with one of the five entities that escaping writes.
pub open spec fn starts_entity(t: Seq<char>) -> bool {
    ||| t.len() >= 5 && t.subrange(0, 5) == seq!['&', 'a', 'm', 'p', ';']
    ||| t.len() >= 4 && t.subrange(0, 4) == seq!['&', 'l', 't', ';']
    ||| t.len() >= 4 && t.subrange(0, 4) == seq!['&', 'g', 't', ';']
    ||| t.len() >= 6 && t.subrange(0, 6) == seq!['&', 'q', 'u', 'o', 't', ';']
    ||| t.len() >= 5 && t.subrange(0, 5) == seq!['&', '#', '3', '9', ';']
}

proof fn lemma_char_ampersand(c: char, t: Seq<char>)
    ensures
        forall|i: int|
            0 <= i < escape_char(c).len() && (#[trigger] escape_char(c)[i]) == '&' ==> i == 0
                && starts_entity((escape_char(c) + t).skip(i)),
{
    reveal_strlit("&amp;");
    reveal_strlit("&lt;");
    reveal_strlit("&gt;");
    reveal_strlit("&quot;");
    reveal_strlit("&#39;");
    let e = escape_char(c);
    let u = e + t;
    assert(u.skip(0) =~= u);
    if c == '&' {
        assert(u.subrange(0, 5) =~= seq!['&', 'a', 'm', 'p', ';']);
    } else if c == '<' {
        assert(u.subrange(0, 4) =~= seq!['&', 'l', 't', ';']);
    } else if c == '>' {
        assert(u.subrange(0, 4) =~= seq!['&', 'g', 't', ';']);
    } else if c == '"' {
        assert(u.subrange(0, 6) =~= seq!['&', 'q', 'u', 'o', 't', ';']);
    } else if c == '\'' {
        assert(u.subrange(0, 5) =~= seq!['&', '#', '3', '9', ';']);
    }
}

/// Every `&` in escaped text begins one of the five entities.
pub proof fn lemma_escaped_ampersands_start_entities(s: Seq<char>)
    ensures
        forall|i: int|
            0 <= i < escaped(s).len() && (#[trigger] escaped(s)[i]) == '&' ==> starts_entity(
                escaped(s).skip(i),
            ),
    decreases s.len(),
{
    if s.len() == 0 {
        assert(escaped(s) =~= Seq::<char>::empty());
    } else {
        lemma_escaped_front(s);
        let head = escape_char(s[0]);
        let tail = escaped(s.drop_first());
        lemma_char_ampersand(s[0], tail);
        lemma_escaped_ampersands_start_entities(s.drop_first());
        assert forall|i: int|
            0 <= i < escaped(s).len() && (#[trigger] escaped(s)[i]) == '&' implies starts_entity(
            escaped(s).skip(i),
        ) by {
            if i < head.len() {
                assert(head[i] == '&');
            } else {
                let j = i - head.len();
                assert(tail[j] == '&');
                assert(escaped(s).skip(i) =~= tail.skip(j));
            }
        }
    }
}

fn append_escaped(out: &mut String, value: &str)
    ensures
        final(out)@ == old(out)@ + escaped(value@),
{
    let e = escape_html(value);
    append(out, e.as_str());
}

fn append_i64(out: &mut String, n: i64)
    ensures
        final(out)@ == old(out)@ + signed_decimal(n as int),
{
    let t = i64_text(n);
    append(out, t.as_str());
}

fn rendered(subject: &str, text: String, html: String) -> (r: RenderedMail)
    ensures
        r.subject@ == subject@,
        r.text == text,
        r.html == html,
{
    RenderedMail { subject: String::from_str(subject), text, html }
}

/// The subject, plain text and HTML of each template in English.
pub open spec fn mail_en(data: TemplateData) -> (Seq<char>, Seq<char>, Seq<char>) {
    match data {
        TemplateData::VerifyEmail { action_url, organization_name, expires_minutes } => (
            "Confirm your Okoscope email"@,
            "Welcome to Okoscope. Confirm your email for "@ + organization_name@ + ": "@ + action_url@ + "\nThis link expires in "@ + signed_decimal(expires_minutes as int) + " minutes. If you did not register, ignore this message."@,
            "<h1>Welcome to Okoscope</h1><p>Confirm your email for <strong>"@ + escaped(organization_name@) + "</strong>.</p><p><a href=\""@ + escaped(action_url@) + "\">Confirm email</a></p><p>This link expires in "@ + signed_decimal(expires_minutes as int) + " minutes. If you did not register, ignore this message.</p>"@,
        ),
        TemplateData::ResetPassword { action_url, expires_minutes } => (
            "Reset your Okoscope password"@,
            "Reset your password: "@ + action_url@ + "\nThis one-time link expires in "@ + signed_decimal(expires_minutes as int) + " minutes. If you did not request it, ignore this message."@,
            "<h1>Reset your password</h1><p><a href=\""@ + escaped(action_url@) + "\">Choose a new password</a></p><p>This one-time link expires in "@ + signed_decimal(expires_minutes as int) + " minutes. If you did not request it, ignore this message.</p>"@,
        ),
        TemplateData::PasswordChanged => (
            "Your Okoscope password changed"@,
            "Your Okoscope password was changed. If this was not you, contact your administrator."@,
            "<h1>Password changed</h1><p>Your Okoscope password was changed. If this was not you, contact your administrator.</p>"@,
        ),
        TemplateData::ApplicationCreated { application_name, project_name } => (
            "Okoscope Application created"@,
            "Application "@ + application_name@ + " was created in Project "@ + project_name@ + "."@,
            "<h1>Application created</h1><p><strong>"@ + escaped(application_name@) + "</strong> was created in Project <strong>"@ + escaped(project_name@) + "</strong>.</p>"@,
        ),
    }
}

fn render_en(data: &TemplateData) -> (r: RenderedMail)
    ensures
        r.subject@ == mail_en(*data).0,
        r.text@ == mail_en(*data).1,
        r.html@ == mail_en(*data).2,
{
    match data {
        TemplateData::VerifyEmail { action_url, organization_name, expires_minutes } => {
            let mut text = String::new();
            append(&mut text, "Welcome to Okoscope. Confirm your email for ");
            append(&mut text, organization_name.as_str());
            append(&mut text, ": ");
            append(&mut text, action_url.as_str());
            append(&mut text, "\nThis link expires in ");
            append_i64(&mut text, *expires_minutes);
            append(&mut text, " minutes. If you did not register, ignore this message.");
            let mut html = String::new();
            append(&mut html, "<h1>Welcome to Okoscope</h1><p>Confirm your email for <strong>");
            append_escaped(&mut html, organization_name.as_str());
            append(&mut html, "</strong>.</p><p><a href=\"");
            append_escaped(&mut html, action_url.as_str());
            append(&mut html, "\">Confirm email</a></p><p>This link expires in ");
            append_i64(&mut html, *expires_minutes);
            append(&mut html, " minutes. If you did not register, ignore this message.</p>");
            assert(text@ =~= mail_en(*data).1);
            assert(html@ =~= mail_en(*data).2);
            rendered("Confirm your Okoscope email", text, html)
        },
        TemplateData::ResetPassword { action_url, expires_minutes } => {
            let mut text = String::new();
            append(&mut text, "Reset your password: ");
            append(&mut text, action_url.as_str());
            append(&mut text, "\nThis one-time link expires in ");
            append_i64(&mut text, *expires_minutes);
            append(&mut text, " minutes. If you did not request it, ignore this message.");
            let mut html = String::new();
            append(&mut html, "<h1>Reset your password</h1><p><a href=\"");
            append_escaped(&mut html, action_url.as_str());
            append(&mut html, "\">Choose a new password</a></p><p>This one-time link expires in ");
            append_i64(&mut html, *expires_minutes);
            append(&mut html, " minutes. If you did not request it, ignore this message.</p>");
            assert(text@ =~= mail_en(*data).1);
            assert(html@ =~= mail_en(*data).2);
            rendered("Reset your Okoscope password", text, html)
        },
        TemplateData::PasswordChanged => {
            let mut text = String::new();
            append(&mut text, "Your Okoscope password was changed. If this was not you, contact your administrator.");
            let mut html = String::new();
            append(&mut html, "<h1>Password changed</h1><p>Your Okoscope password was changed. If this was not you, contact your administrator.</p>");
            assert(text@ =~= mail_en(*data).1);
            assert(html@ =~= mail_en(*data).2);
            rendered("Your Okoscope password changed", text, html)
        },
        TemplateData::ApplicationCreated { application_name, project_name } => {
            let mut text = String::new();
            append(&mut text, "Application ");
            append(&mut text, application_name.as_str());
            append(&mut text, " was created in Project ");
            append(&mut text, project_name.as_str());
            append(&mut text, ".");
            let mut html = String::new();
            append(&mut html, "<h1>Application created</h1><p><strong>");
            append_escaped(&mut html, application_name.as_str());
            append(&mut html, "</strong> was created in Project <strong>");
            append_escaped(&mut html, project_name.as_str());
            append(&mut html, "</strong>.</p>");
            assert(text@ =~= mail_en(*data).1);
            assert(html@ =~= mail_en(*data).2);
            rendered("Okoscope Application created", text, html)
        },
    }
}

/// The subject, plain text and HTML of each template in Russian.
pub open spec fn mail_ru(data: TemplateData) -> (Seq<char>, Seq<char>, Seq<char>) {
    match data {
        TemplateData::VerifyEmail { action_url, organization_name, expires_minutes } => (
            "Подтвердите почту Okoscope"@,
            "Добро пожаловать в Okoscope. Подтвердите почту для "@ + organization_name@ + ": "@ + action_url@ + "\nСсылка действует "@ + signed_decimal(expires_minutes as int) + " минут. Если вы не регистрировались, проигнорируйте письмо."@,
            "<h1>Добро пожаловать в Okoscope</h1><p>Подтвердите почту для <strong>"@ + escaped(organization_name@) + "</strong>.</p><p><a href=\""@ + escaped(action_url@) + "\">Подтвердить почту</a></p><p>Ссылка действует "@ + signed_decimal(expires_minutes as int) + " минут. Если вы не регистрировались, проигнорируйте письмо.</p>"@,
        ),
        TemplateData::ResetPassword { action_url, expires_minutes } => (
            "Сброс пароля Okoscope"@,
            "Задайте новый пароль: "@ + action_url@ + "\nОдноразовая ссылка действует "@ + signed_decimal(expires_minutes as int) + " минут. Если вы не запрашивали сброс, проигнорируйте письмо."@,
            "<h1>Сброс пароля</h1><p><a href=\""@ + escaped(action_url@) + "\">Задать новый пароль</a></p><p>Одноразовая ссылка действует "@ + signed_decimal(expires_minutes as int) + " минут. Если вы не запрашивали сброс, проигнорируйте письмо.</p>"@,
        ),
        TemplateData::PasswordChanged => (
            "Пароль Okoscope изменён"@,
            "Ваш пароль Okoscope изменён. Если это были не вы, обратитесь к администратору."@,
            "<h1>Пароль изменён</h1><p>Ваш пароль Okoscope изменён. Если это были не вы, обратитесь к администратору.</p>"@,
        ),
        TemplateData::ApplicationCreated { application_name, project_name } => (
            "Создано приложение Okoscope"@,
            "Приложение "@ + application_name@ + " создано в проекте "@ + project_name@ + "."@,
            "<h1>Создано приложение</h1><p><strong>"@ + escaped(application_name@) + "</strong> создано в проекте <strong>"@ + escaped(project_name@) + "</strong>.</p>"@,
        ),
    }
}

fn render_ru(data: &TemplateData) -> (r: RenderedMail)
    ensures
        r.subject@ == mail_ru(*data).0,
        r.text@ == mail_ru(*data).1,
        r.html@ == mail_ru(*data).2,
{
    match data {
        TemplateData::VerifyEmail { action_url, organization_name, expires_minutes } => {
            let mut text = String::new();
            append(&mut text, "Добро пожаловать в Okoscope. Подтвердите почту для ");
            append(&mut text, organization_name.as_str());
            append(&mut text, ": ");
            append(&mut text, action_url.as_str());
            append(&mut text, "\nСсылка действует ");
            append_i64(&mut text, *expires_minutes);
            append(&mut text, " минут. Если вы не регистрировались, проигнорируйте письмо.");
            let mut html = String::new();
            append(&mut html, "<h1>Добро пожаловать в Okoscope</h1><p>Подтвердите почту для <strong>");
            append_escaped(&mut html, organization_name.as_str());
            append(&mut html, "</strong>.</p><p><a href=\"");
            append_escaped(&mut html, action_url.as_str());
            append(&mut html, "\">Подтвердить почту</a></p><p>Ссылка действует ");
            append_i64(&mut html, *expires_minutes);
            append(&mut html, " минут. Если вы не регистрировались, проигнорируйте письмо.</p>");
            assert(text@ =~= mail_ru(*data).1);
            assert(html@ =~= mail_ru(*data).2);
            rendered("Подтвердите почту Okoscope", text, html)
        },
        TemplateData::ResetPassword { action_url, expires_minutes } => {
            let mut text = String::new();
            append(&mut text, "Задайте новый пароль: ");
            append(&mut text, action_url.as_str());
            append(&mut text, "\nОдноразовая ссылка действует ");
            append_i64(&mut text, *expires_minutes);
            append(&mut text, " минут. Если вы не запрашивали сброс, проигнорируйте письмо.");
            let mut html = String::new();
            append(&mut html, "<h1>Сброс пароля</h1><p><a href=\"");
            append_escaped(&mut html, action_url.as_str());
            append(&mut html, "\">Задать новый пароль</a></p><p>Одноразовая ссылка действует ");
            append_i64(&mut html, *expires_minutes);
            append(&mut html, " минут. Если вы не запрашивали сброс, проигнорируйте письмо.</p>");
            assert(text@ =~= mail_ru(*data).1);
            assert(html@ =~= mail_ru(*data).2);
            rendered("Сброс пароля Okoscope", text, html)
        },
        TemplateData::PasswordChanged => {
            let mut text = String::new();
            append(&mut text, "Ваш пароль Okoscope изменён. Если это были не вы, обратитесь к администратору.");
            let mut html = String::new();
            append(&mut html, "<h1>Пароль изменён</h1><p>Ваш пароль Okoscope изменён. Если это были не вы, обратитесь к администратору.</p>");
            assert(text@ =~= mail_ru(*data).1);
            assert(html@ =~= mail_ru(*data).2);
            rendered("Пароль Okoscope изменён", text, html)
        },
        TemplateData::ApplicationCreated { application_name, project_name } => {
            let mut text = String::new();
            append(&mut text, "Приложение ");
            append(&mut text, application_name.as_str());
            append(&mut text, " создано в проекте ");
            append(&mut text, project_name.as_str());
            append(&mut text, ".");
            let mut html = String::new();
            append(&mut html, "<h1>Создано приложение</h1><p><strong>");
            append_escaped(&mut html, application_name.as_str());
            append(&mut html, "</strong> создано в проекте <strong>");
            append_escaped(&mut html, project_name.as_str());
            append(&mut html, "</strong>.</p>");
            assert(text@ =~= mail_ru(*data).1);
            assert(html@ =~= mail_ru(*data).2);
            rendered("Создано приложение Okoscope", text, html)
        },
    }
}

/// The mail of a template in a locale.
pub open spec fn mail_of(locale: Locale, data: TemplateData) -> (Seq<char>, Seq<char>, Seq<char>) {
    match locale {
        Locale::En => mail_en(data),
        Locale::Ru => mail_ru(data),
    }
}

/// Renders a template in a locale; every value shown in the HTML part is
/// escaped.
pub fn render(locale: Locale, data: &TemplateData) -> (r: RenderedMail)
    ensures
        r.subject@ == mail_of(locale, *data).0,
        r.text@ == mail_of(locale, *data).1,
        r.html@ == mail_of(locale, *data).2,
{
    match locale {
        Locale::En => render_en(data),
        Locale::Ru => render_ru(data),
    }
}

/// How a delivery attempt failed.
#[derive(Clone, Copy, Debug, PartialEq, Eq)]
pub enum DeliveryFailure {
    Transient,
    Permanent,
}

/// Something that can deliver a rendered mail to one recipient.
pub trait MailSender {
    fn send(&mut self, recipient: &str, rendered: &RenderedMail) -> Result<(), DeliveryFailure>;
}

/// A mail as a capturing sender kept it.
#[derive(Debug, PartialEq, Eq)]
pub struct CapturedMail {
    pub recipient: String,
    pub subject: String,
    pub text: String,
    pub html: String,
}

impl Clone for CapturedMail {
    fn clone(&self) -> (r: Self)
        ensures
            r == *self,
    {
        CapturedMail {
            recipient: self.recipient.clone(),
            subject: self.subject.clone(),
            text: self.text.clone(),
            html: self.html.clone(),
        }
    }
}

/// The text values a template shows in its HTML, in the order they appear.
pub open spec fn html_values(data: TemplateData) -> Seq<Seq<char>> {
    match data {
        TemplateData::VerifyEmail { action_url, organization_name, .. } => seq![
            organization_name@,
            action_url@,
        ],
        TemplateData::ResetPassword { action_url, .. } => seq![action_url@],
        TemplateData::PasswordChanged => Seq::empty(),
        TemplateData::ApplicationCreated { application_name, project_name } => seq![
            application_name@,
            project_name@,
        ],
    }
}

/// The fixed markup of a template's HTML around its values: one piece more
/// than there are values. It depends on the locale, the kind of mail and its
/// expiry alone, never on a text value.
pub open spec fn html_frame(locale: Locale, data: TemplateData) -> Seq<Seq<char>> {
    match (locale, data) {
        (Locale::En, TemplateData::VerifyEmail { expires_minutes, .. }) => seq![
            "<h1>Welcome to Okoscope</h1><p>Confirm your email for <strong>"@,
            "</strong>.</p><p><a href=\""@,
            "\">Confirm email</a></p><p>This link expires in "@ + signed_decimal(expires_minutes as int)
                + " minutes. If you did not register, ignore this message.</p>"@,
        ],
        (Locale::En, TemplateData::ResetPassword { expires_minutes, .. }) => seq![
            "<h1>Reset your password</h1><p><a href=\""@,
            "\">Choose a new password</a></p><p>This one-time link expires in "@ + signed_decimal(
                expires_minutes as int,
            ) + " minutes. If you did not request it, ignore this message.</p>"@,
        ],
        (Locale::En, TemplateData::PasswordChanged) => seq![
            "<h1>Password changed</h1><p>Your Okoscope password was changed. If this was not you, contact your administrator.</p>"@,
        ],
        (Locale::En, TemplateData::ApplicationCreated { .. }) => seq![
            "<h1>Application created</h1><p><strong>"@,
            "</strong> was created in Project <strong>"@,
            "</strong>.</p>"@,
        ],
        (Locale::Ru, TemplateData::VerifyEmail { expires_minutes, .. }) => seq![
            "<h1>Добро пожаловать в Okoscope</h1><p>Подтвердите почту для <strong>"@,
            "</strong>.</p><p><a href=\""@,
            "\">Подтвердить почту</a></p><p>Ссылка действует "@ + signed_decimal(expires_minutes as int)
                + " минут. Если вы не регистрировались, проигнорируйте письмо.</p>"@,
        ],
        (Locale::Ru, TemplateData::ResetPassword { expires_minutes, .. }) => seq![
            "<h1>Сброс пароля</h1><p><a href=\""@,
            "\">Задать новый пароль</a></p><p>Одноразовая ссылка действует "@ + signed_decimal(
                expires_minutes as int,
            ) + " минут. Если вы не запрашивали сброс, проигнорируйте письмо.</p>"@,
        ],
        (Locale::Ru, TemplateData::PasswordChanged) => seq![
            "<h1>Пароль изменён</h1><p>Ваш пароль Okoscope изменён. Если это были не вы, обратитесь к администратору.</p>"@,
        ],
        (Locale::Ru, TemplateData::ApplicationCreated { .. }) => seq![
            "<h1>Создано приложение</h1><p><strong>"@,
            "</strong> создано в проекте <strong>"@,
            "</strong>.</p>"@,
        ],
    }
}

/// The markup pieces with each value escaped between them.
pub open spec fn filled(frame: Seq<Seq<char>>, values: Seq<Seq<char>>) -> Seq<char>
    decreases values.len(),
{
    if values.len() == 0 || frame.len() == 0 {
        if frame.len() == 0 {
            Seq::empty()
        } else {
            frame[0]
        }
    } else {
        filled(frame.drop_last(), values.drop_last()) + escaped(values.last()) + frame.last()
    }
}

/// Two mails of the same kind, with the same expiry: they differ at most in
/// the text values they show.
pub open spec fn same_shape(a: TemplateData, b: TemplateData) -> bool {
    match (a, b) {
        (
            TemplateData::VerifyEmail { expires_minutes: x, .. },
            TemplateData::VerifyEmail { expires_minutes: y, .. },
        ) => x == y,
        (
            TemplateData::ResetPassword { expires_minutes: x, .. },
            TemplateData::ResetPassword { expires_minutes: y, .. },
        ) => x == y,
        (TemplateData::PasswordChanged, TemplateData::PasswordChanged) => true,
        (TemplateData::ApplicationCreated { .. }, TemplateData::ApplicationCreated { .. }) => true,
        _ => false,
    }
}

/// A mail's HTML is its locale's fixed markup with every shown value escaped
/// in its slot: the markup does not depend on the values, and no value brings
/// a markup character of its own into the HTML.
pub proof fn lemma_html_escapes_every_value(locale: Locale, data: TemplateData, other: TemplateData)
    requires
        same_shape(data, other),
    ensures
        html_frame(locale, data).len() == html_values(data).len() + 1,
        mail_of(locale, data).2 == filled(html_frame(locale, data), html_values(data)),
        html_frame(locale, other) == html_frame(locale, data),
        forall|i: int|
            0 <= i < html_values(data).len() ==> !escaped(#[trigger] html_values(data)[i]).contains('<')
                && !escaped(html_values(data)[i]).contains('>') && !escaped(
                html_values(data)[i],
            ).contains('"') && !escaped(html_values(data)[i]).contains('\''),
{
    let frame = html_frame(locale, data);
    let values = html_values(data);
    assert forall|i: int| 0 <= i < values.len() implies !escaped(#[trigger] values[i]).contains('<')
        && !escaped(values[i]).contains('>') && !escaped(values[i]).contains('"') && !escaped(
        values[i],
    ).contains('\'') by {
        lemma_escaped_has_no_markup(values[i]);
    }
    if values.len() == 0 {
        assert(mail_of(locale, data).2 == filled(frame, values));
    } else if values.len() == 1 {
        assert(frame.drop_last().len() == 1);
        assert(values.drop_last().len() == 0);
        assert(filled(frame.drop_last(), values.drop_last()) == frame[0]);
        assert(mail_of(locale, data).2 =~= filled(frame, values));
    } else {
        let f1 = frame.drop_last();
        let v1 = values.drop_last();
        assert(f1.drop_last().len() == 1);
        assert(v1.drop_last().len() == 0);
        assert(filled(f1.drop_last(), v1.drop_last()) == frame[0]);
        assert(filled(f1, v1) == frame[0] + escaped(values[0]) + frame[1]);
        assert(mail_of(locale, data).2 =~= filled(frame, values));
    }
}

/// A captured mail is the mail sent to this recipient.
pub open spec fn captured_as(mail: CapturedMail, recipient: Seq<char>, rendered: RenderedMail) -> bool {
    &&& mail.recipient@ == recipient
    &&& mail.subject == rendered.subject
    &&& mail.text == rendered.text
    &&& mail.html == rendered.html
}

/// What one send does to a capturing sender's mails: the mail is kept after
/// those it already held.
pub open spec fn captured_send(
    before: Seq<CapturedMail>,
    after: Seq<CapturedMail>,
    recipient: Seq<char>,
    rendered: RenderedMail,
) -> bool {
    &&& after.len() == before.len() + 1
    &&& after.drop_last() == before
    &&& captured_as(after.last(), recipient, rendered)
}

/// A capturing sender keeps every mail in the order it was sent: after a
/// series of sends to an empty sender (`states[i]` its mails before the
/// `i`th send), it holds exactly one mail per send, the `i`th being the
/// `i`th sent.
pub proof fn lemma_captured_in_send_order(
    states: Seq<Seq<CapturedMail>>,
    recipients: Seq<Seq<char>>,
    mails: Seq<RenderedMail>,
)
    requires
        states.len() == recipients.len() + 1,
        mails.len() == recipients.len(),
        states[0].len() == 0,
        forall|i: int|
            0 <= i < recipients.len() ==> captured_send(
                states[i],
                states[i + 1],
                #[trigger] recipients[i],
                mails[i],
            ),
    ensures
        states.last().len() == recipients.len(),
        forall|i: int|
            0 <= i < recipients.len() ==> captured_as(
                states.last()[i],
                #[trigger] recipients[i],
                mails[i],
            ),
{
    lemma_captured_prefix(states, recipients, mails, recipients.len() as int);
}

proof fn lemma_captured_prefix(
    states: Seq<Seq<CapturedMail>>,
    recipients: Seq<Seq<char>>,
    mails: Seq<RenderedMail>,
    k: int,
)
    requires
        states.len() == recipients.len() + 1,
        mails.len() == recipients.len(),
        states[0].len() == 0,
        forall|i: int|
            0 <= i < recipients.len() ==> captured_send(
                states[i],
                states[i + 1],
                #[trigger] recipients[i],
                mails[i],
            ),
        0 <= k <= recipients.len(),
    ensures
        states[k].len() == k,
        forall|i: int| 0 <= i < k ==> captured_as(states[k][i], #[trigger] recipients[i], mails[i]),
    decreases k,
{
    if k > 0 {
        lemma_captured_prefix(states, recipients, mails, k - 1);
        assert(captured_send(states[k - 1], states[k], recipients[k - 1], mails[k - 1]));
        assert forall|i: int| 0 <= i < k implies captured_as(
            states[k][i],
            #[trigger] recipients[i],
            mails[i],
        ) by {
            if i < k - 1 {
                assert(states[k][i] == states[k].drop_last()[i]);
            }
        }
    }
}

/// A sender that keeps every mail instead of delivering it.
#[derive(Debug, Default)]
pub struct CapturingSender {
    messages: Vec<CapturedMail>,
}

impl View for CapturingSender {
    type V = Seq<CapturedMail>;

    closed spec fn view(&self) -> Seq<CapturedMail> {
        self.messages@
    }
}

impl CapturingSender {
    pub fn new() -> (r: Self)
        ensures
            r@ == Seq::<CapturedMail>::empty(),
    {
        CapturingSender { messages: Vec::new() }
    }

    /// The mails captured so far, in the order they were sent.
    pub fn messages(&self) -> (r: Vec<CapturedMail>)
        ensures
            r@ == self@,
    {
        self.messages.clone()
    }
}

impl MailSender for CapturingSender {
    /// Keeps the mail; sending always succeeds.
    fn send(&mut self, recipient: &str, rendered: &RenderedMail) -> (r: Result<(), DeliveryFailure>)
        ensures
            r is Ok,
            captured_send(old(self)@, final(self)@, recipient@, *rendered),
    {
        self.messages.push(
            CapturedMail {
                recipient: String::from_str(recipient),
                subject: rendered.subject.clone(),
                text: rendered.text.clone(),
                html: rendered.html.clone(),
            },
        );
        assert(self.messages@.drop_last() =~= old(self).messages@);
        Ok(())
    }
}

/// Seconds before a transiently failed mail is tried again: five seconds
/// doubled for each attempt (counted from one, at most ten), at most an hour.
pub open spec fn mail_retry_seconds(attempt: i32) -> i64 {
    let exponent: nat = if attempt < 1 {
        1
    } else if attempt > 10 {
        10
    } else {
        attempt as nat
    };
    let seconds = 5 * vstd::arithmetic::power2::pow2(exponent);
    if seconds > 3600 {
        3600
    } else {
        seconds as i64
    }
}

pub fn retry_delay_seconds(attempt: i32) -> (r: i64)
    ensures
        r == mail_retry_seconds(attempt),
{
    let exponent: u32 = if attempt < 1 {
        1
    } else if attempt > 10 {
        10
    } else {
        attempt as u32
    };
    let mut power: i64 = 1;
    let mut k: u32 = 0;
    proof {
        vstd::arithmetic::power2::lemma2_to64();
    }
    while k < exponent
        invariant
            k <= exponent <= 10,
            power == vstd::arithmetic::power2::pow2(k as nat),
        decreases exponent - k,
    {
        proof {
            vstd::arithmetic::power2::lemma2_to64();
        }
        power = power * 2;
        k = k + 1;
        proof {
            vstd::arithmetic::power2::lemma2_to64();
        }
    }
    let seconds = 5 * power;
    if seconds > 3600 {
        3600
    } else {
        seconds
    }
}

/// A failed mail waits longer after every attempt, from ten seconds up to an
/// hour at most.
pub proof fn lemma_mail_retry_backs_off(a: i32, b: i32)
    requires
        a <= b,
    ensures
        10 <= mail_retry_seconds(a) <= mail_retry_seconds(b) <= 3600,
{
    let ea: nat = if a < 1 {
        1
    } else if a > 10 {
        10
    } else {
        a as nat
    };
    let eb: nat = if b < 1 {
        1
    } else if b > 10 {
        10
    } else {
        b as nat
    };
    vstd::arithmetic::power2::lemma2_to64();
    if ea < eb {
        vstd::arithmetic::power2::lemma_pow2_strictly_increases(ea, eb);
    }
}

/// What becomes of a mail after a delivery attempt.
#[derive(Clone, Copy, Debug, PartialEq, Eq)]
pub enum MailOutcome {
    Delivered,
    /// No further attempt; the reason is stored with the mail.
    Terminal(&'static str),
    /// Tried again after the delay.
    Retry { delay_seconds: i64 },
}

pub open spec fn attempts_exhausted(attempt_count: i32, max_attempts: u32) -> bool {
    attempt_count < 0 || attempt_count as int >= max_attempts as int
}

/// The outcome of a sent mail: delivered, rejected for good, out of attempts,
/// or retried later.
pub fn send_outcome(result: Result<(), DeliveryFailure>, attempt_count: i32, max_attempts: u32) -> (r:
    MailOutcome)
    ensures
        result is Ok ==> r == MailOutcome::Delivered,
        result == Err::<(), DeliveryFailure>(DeliveryFailure::Permanent) ==> (r matches MailOutcome::Terminal(
            reason,
        ) && reason@ == "permanent_rejection"@),
        result == Err::<(), DeliveryFailure>(DeliveryFailure::Transient) && attempts_exhausted(
            attempt_count,
            max_attempts,
        ) ==> (r matches MailOutcome::Terminal(reason) && reason@ == "attempts_exhausted"@),
        result == Err::<(), DeliveryFailure>(DeliveryFailure::Transient) && !attempts_exhausted(
            attempt_count,
            max_attempts,
        ) ==> r == (MailOutcome::Retry { delay_seconds: mail_retry_seconds(attempt_count) }),
{
    match result {
        Ok(()) => MailOutcome::Delivered,
        Err(DeliveryFailure::Permanent) => MailOutcome::Terminal("permanent_rejection"),
        Err(DeliveryFailure::Transient) => {
            let attempts: u32 = if attempt_count < 0 {
                u32::MAX
            } else {
                attempt_count as u32
            };
            if attempts >= max_attempts {
                MailOutcome::Terminal("attempts_exhausted")
            } else {
                MailOutcome::Retry { delay_seconds: retry_delay_seconds(attempt_count) }
            }
        },
    }
}

/// The locale a claimed mail is rendered in: its stored tag, English when the
/// tag is unknown.
pub fn mail_locale(tag: &str) -> (r: Locale)
    ensures
        r == (if tag@ == "ru"@ {
            Locale::Ru
        } else {
            Locale::En
        }),
{
    match Locale::parse(tag) {
        Ok(locale) => locale,
        Err(_) => Locale::En,
    }
}

} // verus!
