//! E-mail settings and the sign-in message.
use vstd::prelude::*;
use lettre::message::Mailbox;
use crate::text::{all_digits, chars_of, digits_value, is_digit, push_str, same_text};

verus! {

/// Where messages go: an SMTP relay, or the console.
#[derive(Clone, Copy, Debug, PartialEq, Eq, Structural)]
pub enum EmailBackend {
    Smtp,
    Console,
}

/// How the SMTP connection uses TLS.
#[derive(Clone, Copy, Debug, PartialEq, Eq, Structural)]
pub enum TlsMode {
    Required,
    Opportunistic,
    Disabled,
}

/// The environment variables that configure e-mail, each where it is set to text:
/// `SMTP_FROM`, `EMAIL_BACKEND`, `SMTP_HOST`, `SMTP_USER`, `SMTP_PASSWORD`, `SMTP_PORT`
/// and `SMTP_TLS`.
pub struct EmailEnv {
    pub from: Option<String>,
    pub backend: Option<String>,
    pub host: Option<String>,
    pub user: Option<String>,
    pub password: Option<String>,
    pub port: Option<String>,
    pub tls: Option<String>,
}

/// How to reach the SMTP relay.
pub struct SmtpSettings {
    pub host: String,
    pub user: String,
    pub password: String,
    pub port: u16,
    pub tls: TlsMode,
}

/// The e-mail service's configuration: the sender, the backend, and for SMTP the relay.
pub struct EmailSettings {
    pub from_address: String,
    pub backend: EmailBackend,
    pub smtp: Option<SmtpSettings>,
}

/// The backend that `EMAIL_BACKEND` selects: the console for `console`, SMTP otherwise.
pub open spec fn backend_of(v: Option<Seq<char>>) -> EmailBackend {
    if v == Some("console"@) {
        EmailBackend::Console
    } else {
        EmailBackend::Smtp
    }
}

/// The TLS mode that `SMTP_TLS` selects; anything unknown requires TLS.
pub open spec fn tls_mode_of(s: Seq<char>) -> TlsMode {
    if s == "required"@ || s == "starttls"@ {
        TlsMode::Required
    } else if s == "opportunistic"@ {
        TlsMode::Opportunistic
    } else if s == "none"@ || s == "off"@ {
        TlsMode::Disabled
    } else {
        TlsMode::Required
    }
}

/// Decides `backend_of`.
pub fn email_backend(v: Option<&str>) -> (b: EmailBackend)
    ensures
        b == backend_of(match v {
            Some(s) => Some(s@),
            None => None,
        }),
{
    match v {
        Some(s) => if same_text(s, "console") {
            EmailBackend::Console
        } else {
            EmailBackend::Smtp
        },
        None => EmailBackend::Smtp,
    }
}

/// Decides `tls_mode_of`.
pub fn tls_mode(s: &str) -> (m: TlsMode)
    ensures
        m == tls_mode_of(s@),
{
    if same_text(s, "required") || same_text(s, "starttls") {
        TlsMode::Required
    } else if same_text(s, "opportunistic") {
        TlsMode::Opportunistic
    } else if same_text(s, "none") || same_text(s, "off") {
        TlsMode::Disabled
    } else {
        TlsMode::Required
    }
}

/// The text after an optional leading `+`.
pub open spec fn unsigned_digits(s: Seq<char>) -> Seq<char> {
    if s.len() > 0 && s[0] == '+' {
        s.drop_first()
    } else {
        s
    }
}

/// What `str::parse::<u16>` makes of a text: an optional `+`, then one or more decimal
/// digits denoting a number that fits in 16 bits.
pub open spec fn parsed_u16(s: Seq<char>) -> Option<u16> {
    let d = unsigned_digits(s);
    if d.len() > 0 && all_digits(d) && digits_value(d) <= u16::MAX {
        Some(digits_value(d) as u16)
    } else {
        None
    }
}

/// Parses a port number (`str::parse::<u16>`).
pub fn parse_port(s: &str) -> (r: Option<u16>)
    ensures
        r == parsed_u16(s@),
{
    let cs = chars_of(s);
    let start: usize = if cs.len() > 0 && cs[0] == '+' {
        1
    } else {
        0
    };
    let ghost d = cs@.skip(start as int);
    proof {
        if start == 1 {
            assert(d =~= s@.drop_first());
        } else {
            assert(d =~= s@);
        }
    }
    if start == cs.len() {
        return None;
    }
    let mut value: u32 = 0;
    let mut i: usize = start;
    while i < cs.len()
        invariant
            start <= i <= cs@.len(),
            cs@ == s@,
            d == cs@.skip(start as int),
            d == unsigned_digits(s@),
            d.len() > 0,
            forall|k: int| 0 <= k < i - start ==> is_digit(#[trigger] d[k]),
            value == if digits_value(d.take(i - start)) <= 65536 {
                digits_value(d.take(i - start))
            } else {
                65536
            },
        decreases cs.len() - i,
    {
        let c = cs[i];
        if !('0' <= c && c <= '9') {
            assert(d[i - start] == c);
            assert(!is_digit(d[i - start]));
            assert(0 <= i - start < d.len());
            assert(parsed_u16(s@) is None);
            return None;
        }
        proof {
            let t = d.take(i - start + 1);
            assert(t.drop_last() =~= d.take(i - start));
            assert(t.last() == c);
        }
        let dv: u32 = (c as u32) - 48;
        let next: u32 = value * 10 + dv;
        value = if next > 65536 {
            65536
        } else {
            next
        };
        proof {
            assert(d[i - start] == c);
        }
        i = i + 1;
    }
    assert(d.take(d.len() as int) =~= d);
    if value > 65535 {
        None
    } else {
        Some(value as u16)
    }
}

/// The configuration that the environment gives, as `EmailService::new` reads it: none
/// without a sender; for the console backend the sender alone; for SMTP also the relay's
/// host, user, password, a port that parses, and a TLS setting, none without any of them.
pub open spec fn settings_of(env: EmailEnv) -> Option<(Seq<char>, EmailBackend, Option<(Seq<char>, Seq<char>, Seq<char>, u16, TlsMode)>)> {
    match env.from {
        None => None,
        Some(from) => {
            let backend = backend_of(match env.backend {
                Some(b) => Some(b@),
                None => None,
            });
            if backend == EmailBackend::Console {
                Some((from@, backend, None))
            } else {
                match (env.host, env.user, env.password, env.port, env.tls) {
                    (Some(host), Some(user), Some(password), Some(port), Some(tls)) => match parsed_u16(port@) {
                        Some(p) => Some((from@, backend, Some((host@, user@, password@, p, tls_mode_of(tls@))))),
                        None => None,
                    },
                    _ => None,
                }
            }
        },
    }
}

/// The view of e-mail settings, as `settings_of` describes them.
pub open spec fn settings_view(s: EmailSettings) -> (Seq<char>, EmailBackend, Option<(Seq<char>, Seq<char>, Seq<char>, u16, TlsMode)>) {
    (s.from_address@, s.backend, match s.smtp {
        Some(m) => Some((m.host@, m.user@, m.password@, m.port, m.tls)),
        None => None,
    })
}

/// The e-mail configuration that the environment variables give (see `settings_of`).
pub fn email_settings(env: EmailEnv) -> (r: Option<EmailSettings>)
    ensures
        match r {
            Some(s) => settings_of(env) == Some(settings_view(s)),
            None => settings_of(env) is None,
        },
{
    let ghost e = env;
    let EmailEnv { from, backend, host, user, password, port, tls } = env;
    let from_address = match from {
        Some(f) => f,
        None => return None,
    };
    let backend = match &backend {
        Some(b) => email_backend(Some(b.as_str())),
        None => email_backend(None),
    };
    if backend == EmailBackend::Console {
        return Some(EmailSettings { from_address, backend, smtp: None });
    }
    let host = match host {
        Some(h) => h,
        None => return None,
    };
    let user = match user {
        Some(u) => u,
        None => return None,
    };
    let password = match password {
        Some(p) => p,
        None => return None,
    };
    let port = match &port {
        Some(p) => match parse_port(p.as_str()) {
            Some(n) => n,
            None => return None,
        },
        None => return None,
    };
    let tls = match &tls {
        Some(t) => tls_mode(t.as_str()),
        None => return None,
    };
    Some(EmailSettings { from_address, backend, smtp: Some(SmtpSettings { host, user, password, port, tls }) })
}

/// The subject of the sign-in message.
pub open spec fn sign_in_subject_text(code: Seq<char>) -> Seq<char> {
    code + " is your fogpub sign-in code"@
}

/// The body of the sign-in message.
pub open spec fn sign_in_body_text(code: Seq<char>) -> Seq<char> {
    "Your 6-digit sign-in code is: "@ + code + "\n\nThis code will expire in 15 minutes."@
}

/// The subject of the message that carries a sign-in code.
pub fn sign_in_subject(code: &str) -> (r: String)
    ensures
        r@ == sign_in_subject_text(code@),
{
    let mut r = String::new();
    push_str(&mut r, code);
    push_str(&mut r, " is your fogpub sign-in code");
    assert(r@ =~= sign_in_subject_text(code@));
    r
}

/// The body of the message that carries a sign-in code.
pub fn sign_in_body(code: &str) -> (r: String)
    ensures
        r@ == sign_in_body_text(code@),
{
    let mut r = String::new();
    push_str(&mut r, "Your 6-digit sign-in code is: ");
    push_str(&mut r, code);
    push_str(&mut r, "\n\nThis code will expire in 15 minutes.");
    assert(r@ =~= sign_in_body_text(code@));
    r
}

/// What the console backend prints for a message.
pub open spec fn console_text(to: Seq<char>, from: Seq<char>, subject: Seq<char>, body: Seq<char>) -> Seq<char> {
    "\n========== EMAIL ==========\n"@ + "To: "@ + to + "\n"@ + "From: "@ + from + "\n"@
        + "Subject: "@ + subject + "\n"@ + "Content-Type: text/plain\n"@
        + "\n---------- BODY ----------\n"@ + body + "\n"@ + "===========================\n\n"@
}

/// The text the console backend prints in place of sending a message.
pub fn console_message(to: &str, from: &str, subject: &str, body: &str) -> (r: String)
    ensures
        r@ == console_text(to@, from@, subject@, body@),
{
    let mut r = String::new();
    push_str(&mut r, "\n========== EMAIL ==========\n");
    push_str(&mut r, "To: ");
    push_str(&mut r, to);
    push_str(&mut r, "\n");
    push_str(&mut r, "From: ");
    push_str(&mut r, from);
    push_str(&mut r, "\n");
    push_str(&mut r, "Subject: ");
    push_str(&mut r, subject);
    push_str(&mut r, "\n");
    push_str(&mut r, "Content-Type: text/plain\n");
    push_str(&mut r, "\n---------- BODY ----------\n");
    push_str(&mut r, body);
    push_str(&mut r, "\n");
    push_str(&mut r, "===========================\n\n");
    assert(r@ =~= console_text(to@, from@, subject@, body@));
    r
}

/// How a built message leaves: printed, handed to the SMTP transport, or refused because
/// the SMTP backend has no transport.
#[derive(Clone, Copy, Debug, PartialEq, Eq, Structural)]
pub enum Delivery {
    Print,
    Send,
    NoTransport,
}

/// How a message leaves for `backend`: the console prints it; SMTP sends it where a
/// transport was built, and refuses it otherwise.
pub open spec fn delivery_of(backend: EmailBackend, has_transport: bool) -> Delivery {
    match backend {
        EmailBackend::Console => Delivery::Print,
        EmailBackend::Smtp => if has_transport {
            Delivery::Send
        } else {
            Delivery::NoTransport
        },
    }
}

/// How a message leaves, given the backend and whether an SMTP transport was built.
pub fn delivery(backend: EmailBackend, has_transport: bool) -> (d: Delivery)
    ensures
        d == delivery_of(backend, has_transport),
{
    match backend {
        EmailBackend::Console => Delivery::Print,
        EmailBackend::Smtp => if has_transport {
            Delivery::Send
        } else {
            Delivery::NoTransport
        },
    }
}

#[verifier::external_type_specification]
#[verifier::external_body]
pub struct ExMailbox(Mailbox);

/// Whether lettre's `Mailbox` parser (`<Mailbox as FromStr>::from_str`) accepts a text: an
/// address with an optional display name, as RFC 5322 writes it, whose parts are valid.
pub uninterp spec fn is_mailbox(s: Seq<char>) -> bool;

/// The mailbox that lettre's `Mailbox` parser makes of a text it accepts; it is a function
/// of the text alone.
pub uninterp spec fn mailbox_of(s: Seq<char>) -> Mailbox;

/// Parses a mailbox with `str::parse::<Mailbox>` (lettre), with the error dropped; the
/// contract claims that a mailbox comes back exactly when `is_mailbox` holds of the text,
/// and that it is `mailbox_of` the text.
#[verifier::external_body]
pub(crate) fn parse_mailbox(s: &str) -> (r: Option<Mailbox>)
    ensures
        r is Some <==> is_mailbox(s@),
        r matches Some(m) ==> m == mailbox_of(s@),
{
    s.parse().ok()
}

/// What sending a message needs: the sender's and the recipient's mailboxes, and how the
/// message leaves.
pub struct SendPlan {
    pub from: Mailbox,
    pub to: Mailbox,
    pub delivery: Delivery,
}

/// How a message from `from` to `to` is sent: an unparsable sender is refused first, then
/// an unparsable recipient; otherwise it leaves as `delivery_of` says.
pub fn send_plan(from: &str, to: &str, backend: EmailBackend, has_transport: bool) -> (r: Result<SendPlan, String>)
    ensures
        !is_mailbox(from@) ==> (r matches Err(e) && e@ == "Invalid from address"@),
        is_mailbox(from@) && !is_mailbox(to@) ==> (r matches Err(e) && e@ == "Invalid to address"@),
        is_mailbox(from@) && is_mailbox(to@) ==> (r matches Ok(p) && p.from == mailbox_of(from@)
            && p.to == mailbox_of(to@) && p.delivery == delivery_of(backend, has_transport)),
{
    let from = match parse_mailbox(from) {
        Some(m) => m,
        None => return Err("Invalid from address".to_owned()),
    };
    let to = match parse_mailbox(to) {
        Some(m) => m,
        None => return Err("Invalid to address".to_owned()),
    };
    Ok(SendPlan { from, to, delivery: delivery(backend, has_transport) })
}

/// The SMTP settings take their TLS mode from `SMTP_TLS` alone: `none` or `off` turn TLS
/// off, `opportunistic` makes it opportunistic, and any other text requires it; and the
/// port is the number `SMTP_PORT` spells.
pub proof fn lemma_smtp_settings_follow_environment(env: EmailEnv, r: Option<EmailSettings>)
    requires
        match r {
            Some(s) => settings_of(env) == Some(settings_view(s)),
            None => settings_of(env) is None,
        },
    ensures
        r matches Some(s) ==> (s.smtp matches Some(m) ==> (env.tls matches Some(t)
            && (m.tls == TlsMode::Disabled <==> (t@ == "none"@ || t@ == "off"@))
            && (m.tls == TlsMode::Opportunistic <==> t@ == "opportunistic"@)
            && (m.tls == TlsMode::Required <==> !(t@ == "none"@ || t@ == "off"@ || t@ == "opportunistic"@)))),
        r matches Some(s) ==> (s.smtp matches Some(m) ==> (env.port matches Some(p) && parsed_u16(p@) == Some(m.port))),
{
    reveal_strlit("required");
    reveal_strlit("starttls");
    reveal_strlit("opportunistic");
    reveal_strlit("none");
    reveal_strlit("off");
    if let Some(s) = r {
        if let Some(m) = s.smtp {
            let v = settings_view(s);
            assert(v.2 == Some((m.host@, m.user@, m.password@, m.port, m.tls)));
            assert(settings_of(env) == Some(v));
            let from = env.from.unwrap();
            let backend = backend_of(match env.backend {
                Some(b) => Some(b@),
                None => None,
            });
            assert(backend != EmailBackend::Console);
            let t = env.tls.unwrap();
            let p = env.port.unwrap();
            assert(env.host is Some && env.user is Some && env.password is Some);
            assert(parsed_u16(p@) == Some(m.port));
            assert(tls_mode_of(t@) == m.tls);
            let r1 = "required"@;
            let r2 = "starttls"@;
            let o = "opportunistic"@;
            let n1 = "none"@;
            let n2 = "off"@;
            assert(r1.len() == 8 && r2.len() == 8 && o.len() == 13 && n1.len() == 4 && n2.len() == 3);
            assert(r1 != n1 && r1 != n2 && r1 != o && r2 != n1 && r2 != n2 && r2 != o);
            assert(o != n1 && o != n2);
            if t@ == r1 || t@ == r2 {
                assert(m.tls == TlsMode::Required);
            } else if t@ == o {
                assert(m.tls == TlsMode::Opportunistic);
            } else if t@ == n1 || t@ == n2 {
                assert(m.tls == TlsMode::Disabled);
            } else {
                assert(m.tls == TlsMode::Required);
            }
        }
    }
}

/// SMTP settings are owed whenever the environment names a sender and is not set to the
/// console, and gives a host, a user, a password, a port that parses and a TLS setting.
pub proof fn lemma_smtp_settings_when_complete(env: EmailEnv, r: Option<EmailSettings>)
    requires
        match r {
            Some(s) => settings_of(env) == Some(settings_view(s)),
            None => settings_of(env) is None,
        },
        env.from is Some,
        !(env.backend matches Some(b) && b@ == "console"@),
        env.host is Some && env.user is Some && env.password is Some && env.tls is Some,
        env.port matches Some(p) && parsed_u16(p@) is Some,
    ensures
        r matches Some(s) && s.backend == EmailBackend::Smtp && s.smtp is Some,
{
}

} // verus!
