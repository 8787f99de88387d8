//! The server's side of an agent session: who may open one, what its hello
//! must hold, and what each later message asks the server to do.

use vstd::prelude::*;

use crate::accounts::{platform_value, platform_value_of};
use crate::event_model::{RuntimeEvent, PROTOCOL_VERSION};
use crate::grouping::{sha256, spec_sha256, utf8};
use crate::ids::{parse_uuid_text, spec_uuid_parse, spec_uuid_text, uuid_text};
use crate::protocol::{
    decode_event, event_decoded, event_fault, fault_text, validate_protocol, ProtocolError,
    ProtocolFault,
};
use crate::text::{has_prefix, same_text, strip_prefix};
use crate::wire::{
    AgentHello, AgentMessage, AgentMessageKind, BatchAcknowledgement, ControlResult,
    ServerMessage, ServerMessageKind, SessionAccepted,
};

verus! {

/// The gRPC status code a refusal is answered with.
#[derive(Clone, Copy, Debug, PartialEq, Eq, Structural)]
pub enum StatusCode {
    Unauthenticated,
    InvalidArgument,
    FailedPrecondition,
    Internal,
    Unavailable,
}

/// Why the server refuses or ends an agent session.
#[derive(Clone, Debug, PartialEq, Eq)]
pub enum SessionRefusal {
    MissingAuthorization,
    InvalidAuthorization,
    BearerRequired,
    InvalidCredential,
    HelloRequired,
    Protocol(ProtocolError),
    FirstMessageNotHello,
    ClusterUidNotUuid,
    ClusterUidNotCanonical,
    InvalidEvent(ProtocolError),
    RevisionEvidenceNotNegotiated,
    HelloRepeated,
    UnknownMessage,
    RevokedCredential,
    Internal,
    ChannelClosed,
}

/// The status code of a refusal.
pub open spec fn refusal_code(r: SessionRefusal) -> StatusCode {
    match r {
        SessionRefusal::MissingAuthorization => StatusCode::Unauthenticated,
        SessionRefusal::InvalidAuthorization => StatusCode::Unauthenticated,
        SessionRefusal::BearerRequired => StatusCode::Unauthenticated,
        SessionRefusal::InvalidCredential => StatusCode::Unauthenticated,
        SessionRefusal::RevokedCredential => StatusCode::Unauthenticated,
        SessionRefusal::Protocol(_) => StatusCode::FailedPrecondition,
        SessionRefusal::RevisionEvidenceNotNegotiated => StatusCode::FailedPrecondition,
        SessionRefusal::Internal => StatusCode::Internal,
        SessionRefusal::ChannelClosed => StatusCode::Unavailable,
        _ => StatusCode::InvalidArgument,
    }
}

/// The message a refusal carries.
pub open spec fn refusal_text(r: SessionRefusal) -> Seq<char> {
    match r {
        SessionRefusal::MissingAuthorization => "authorization metadata is required"@,
        SessionRefusal::InvalidAuthorization => "authorization metadata is invalid"@,
        SessionRefusal::BearerRequired => "Bearer credential is required"@,
        SessionRefusal::InvalidCredential => "invalid or revoked application credential"@,
        SessionRefusal::HelloRequired => "hello message is required"@,
        SessionRefusal::Protocol(e) => fault_text(e@),
        SessionRefusal::FirstMessageNotHello => "first message must be hello"@,
        SessionRefusal::ClusterUidNotUuid => "cluster_uid must be a UUID"@,
        SessionRefusal::ClusterUidNotCanonical => "cluster_uid must be canonical"@,
        SessionRefusal::InvalidEvent(e) => fault_text(e@),
        SessionRefusal::RevisionEvidenceNotNegotiated =>
            "revision evidence requires kubernetes.release-discovery/v1 capability"@,
        SessionRefusal::HelloRepeated => "hello can only be sent once"@,
        SessionRefusal::UnknownMessage => "unknown or missing typed agent message"@,
        SessionRefusal::RevokedCredential => "application credential was revoked"@,
        SessionRefusal::Internal => "internal server error"@,
        SessionRefusal::ChannelClosed => "session response channel closed"@,
    }
}

impl SessionRefusal {
    /// The status code the refusal is answered with.
    pub fn code(&self) -> (r: StatusCode)
        ensures
            r == refusal_code(*self),
    {
        match self {
            SessionRefusal::MissingAuthorization => StatusCode::Unauthenticated,
            SessionRefusal::InvalidAuthorization => StatusCode::Unauthenticated,
            SessionRefusal::BearerRequired => StatusCode::Unauthenticated,
            SessionRefusal::InvalidCredential => StatusCode::Unauthenticated,
            SessionRefusal::RevokedCredential => StatusCode::Unauthenticated,
            SessionRefusal::Protocol(_) => StatusCode::FailedPrecondition,
            SessionRefusal::RevisionEvidenceNotNegotiated => StatusCode::FailedPrecondition,
            SessionRefusal::Internal => StatusCode::Internal,
            SessionRefusal::ChannelClosed => StatusCode::Unavailable,
            _ => StatusCode::InvalidArgument,
        }
    }

    /// The message the refusal carries.
    pub fn message(&self) -> (r: String)
        ensures
            r@ == refusal_text(*self),
    {
        let text: &str = match self {
            SessionRefusal::Protocol(e) => {
                return e.message();
            },
            SessionRefusal::InvalidEvent(e) => {
                return e.message();
            },
            SessionRefusal::MissingAuthorization => "authorization metadata is required",
            SessionRefusal::InvalidAuthorization => "authorization metadata is invalid",
            SessionRefusal::BearerRequired => "Bearer credential is required",
            SessionRefusal::InvalidCredential => "invalid or revoked application credential",
            SessionRefusal::HelloRequired => "hello message is required",
            SessionRefusal::FirstMessageNotHello => "first message must be hello",
            SessionRefusal::ClusterUidNotUuid => "cluster_uid must be a UUID",
            SessionRefusal::ClusterUidNotCanonical => "cluster_uid must be canonical",
            SessionRefusal::RevisionEvidenceNotNegotiated =>
                "revision evidence requires kubernetes.release-discovery/v1 capability",
            SessionRefusal::HelloRepeated => "hello can only be sent once",
            SessionRefusal::UnknownMessage => "unknown or missing typed agent message",
            SessionRefusal::RevokedCredential => "application credential was revoked",
            SessionRefusal::Internal => "internal server error",
            SessionRefusal::ChannelClosed => "session response channel closed",
        };
        proof {
            reveal_strlit("authorization metadata is required");
            reveal_strlit("authorization metadata is invalid");
            reveal_strlit("Bearer credential is required");
            reveal_strlit("invalid or revoked application credential");
            reveal_strlit("hello message is required");
            reveal_strlit("first message must be hello");
            reveal_strlit("cluster_uid must be a UUID");
            reveal_strlit("cluster_uid must be canonical");
            reveal_strlit("revision evidence requires kubernetes.release-discovery/v1 capability");
            reveal_strlit("hello can only be sent once");
            reveal_strlit("unknown or missing typed agent message");
            reveal_strlit("application credential was revoked");
            reveal_strlit("internal server error");
            reveal_strlit("session response channel closed");
        }
        String::from_str(text)
    }
}

// ------------------------------------------------------------ credentials

/// What the `authorization` metadata of a session holds: nothing, a value
/// that is not visible ASCII, or a readable value.
pub open spec fn bearer_of(header: Option<Option<Seq<char>>>) -> Result<Seq<char>, SessionRefusal> {
    match header {
        None => Err(SessionRefusal::MissingAuthorization),
        Some(None) => Err(SessionRefusal::InvalidAuthorization),
        Some(Some(v)) => if has_prefix(v, "Bearer "@) && v.len() > 7 {
            Ok(v.skip(7))
        } else {
            Err(SessionRefusal::BearerRequired)
        },
    }
}

/// The credential of a `Bearer` authorization: the non-empty text after
/// `"Bearer "`.
pub fn bearer(header: Option<Option<&str>>) -> (r: Result<String, SessionRefusal>)
    ensures
        match bearer_of(
            match header {
                None => None,
                Some(None) => Some(None),
                Some(Some(v)) => Some(Some(v@)),
            },
        ) {
            Ok(t) => r is Ok && r->Ok_0@ == t,
            Err(e) => r == Err::<String, SessionRefusal>(e),
        },
{
    let value = match header {
        None => {
            return Err(SessionRefusal::MissingAuthorization);
        },
        Some(None) => {
            return Err(SessionRefusal::InvalidAuthorization);
        },
        Some(Some(v)) => v,
    };
    proof {
        reveal_strlit("Bearer ");
    }
    match strip_prefix(value, "Bearer ") {
        Some(rest) => {
            if rest.as_str().unicode_len() == 0 {
                Err(SessionRefusal::BearerRequired)
            } else {
                Ok(rest)
            }
        },
        None => Err(SessionRefusal::BearerRequired),
    }
}

/// The key under which a cluster credential is stored: the SHA-256 digest of
/// its UTF-8 bytes. An empty credential has none and matches no cluster.
pub fn credential_digest(credential: &str) -> (r: Option<Vec<u8>>)
    ensures
        credential@.len() == 0 ==> r is None,
        credential@.len() > 0 ==> r is Some && r->0@ == spec_sha256(utf8(credential@)),
{
    if credential.unicode_len() == 0 {
        return None;
    }
    let bytes = vstd::slice::slice_to_vec(credential.as_bytes());
    proof {
        assert(bytes@ == utf8(credential@));
    }
    let digest = sha256(bytes.as_slice());
    Some(vstd::slice::slice_to_vec(digest.as_slice()))
}

/// The application an ingestion credential belongs to.
#[derive(Clone, Copy, Debug, PartialEq, Eq, Structural)]
pub struct ApplicationScope {
    pub credential_id: u128,
    pub organization_id: u128,
    pub project_id: u128,
    pub application_id: u128,
}

/// What the credential store said of a presented credential.
#[derive(Clone, Copy, Debug, PartialEq, Eq, Structural)]
pub enum CredentialLookup {
    Found(ApplicationScope),
    NotFound,
    InvalidToken,
    StoreFailed,
}

/// A session may go on with the application a credential belongs to; an
/// unknown, malformed or revoked credential is unauthenticated, and a failing
/// store is an internal error.
pub fn application_of(lookup: CredentialLookup) -> (r: Result<ApplicationScope, SessionRefusal>)
    ensures
        r == (match lookup {
            CredentialLookup::Found(scope) => Ok(scope),
            CredentialLookup::NotFound => Err(SessionRefusal::InvalidCredential),
            CredentialLookup::InvalidToken => Err(SessionRefusal::InvalidCredential),
            CredentialLookup::StoreFailed => Err(SessionRefusal::Internal),
        }),
{
    match lookup {
        CredentialLookup::Found(scope) => Ok(scope),
        CredentialLookup::NotFound => Err(SessionRefusal::InvalidCredential),
        CredentialLookup::InvalidToken => Err(SessionRefusal::InvalidCredential),
        CredentialLookup::StoreFailed => Err(SessionRefusal::Internal),
    }
}

// ------------------------------------------------------------------ hello

/// What the first message of a session must be: present, of this protocol
/// version, and a hello.
pub open spec fn hello_of(first: Option<AgentMessage>) -> Result<AgentHello, SessionRefusal> {
    match first {
        None => Err(SessionRefusal::HelloRequired),
        Some(m) => if m.protocol_version != PROTOCOL_VERSION {
            Err(SessionRefusal::Protocol(ProtocolError::UnsupportedProtocol(m.protocol_version)))
        } else {
            match m.message {
                Some(AgentMessageKind::Hello(h)) => Ok(h),
                _ => Err(SessionRefusal::FirstMessageNotHello),
            }
        },
    }
}

/// The hello that opens a session.
pub fn accept_hello(first: Option<AgentMessage>) -> (r: Result<AgentHello, SessionRefusal>)
    ensures
        r == hello_of(first),
{
    let message = match first {
        None => {
            return Err(SessionRefusal::HelloRequired);
        },
        Some(m) => m,
    };
    match validate_protocol(message.protocol_version) {
        Err(e) => {
            return Err(SessionRefusal::Protocol(e));
        },
        Ok(()) => {},
    }
    match message.message {
        Some(AgentMessageKind::Hello(hello)) => Ok(hello),
        _ => Err(SessionRefusal::FirstMessageNotHello),
    }
}

/// The cluster an agent names must be a UUID in its canonical text form.
pub open spec fn cluster_uid_of(text: Seq<char>) -> Result<u128, SessionRefusal> {
    match spec_uuid_parse(text) {
        None => Err(SessionRefusal::ClusterUidNotUuid),
        Some(id) => if spec_uuid_text(id) == text {
            Ok(id)
        } else {
            Err(SessionRefusal::ClusterUidNotCanonical)
        },
    }
}

/// The cluster of a hello, as a UUID written canonically.
pub fn canonical_cluster_uid(text: &str) -> (r: Result<u128, SessionRefusal>)
    ensures
        r == cluster_uid_of(text@),
{
    let id = match parse_uuid_text(text) {
        None => {
            return Err(SessionRefusal::ClusterUidNotUuid);
        },
        Some(id) => id,
    };
    let canonical = uuid_text(id);
    if same_text(canonical.as_str(), text) {
        Ok(id)
    } else {
        Err(SessionRefusal::ClusterUidNotCanonical)
    }
}

/// Whether a capability list names a capability.
pub open spec fn names_capability(capabilities: Seq<String>, name: Seq<char>) -> bool {
    exists|i: int| 0 <= i < capabilities.len() && (#[trigger] capabilities[i])@ == name
}

/// Whether a hello's capabilities name `name`.
pub fn has_capability(capabilities: &Vec<String>, name: &str) -> (r: bool)
    ensures
        r == names_capability(capabilities@, name@),
{
    let mut i: usize = 0;
    while i < capabilities.len()
        invariant
            i <= capabilities@.len(),
            forall|j: int| 0 <= j < i ==> (#[trigger] capabilities@[j])@ != name@,
        decreases capabilities@.len() - i,
    {
        if same_text(capabilities[i].as_str(), name) {
            return true;
        }
        i = i + 1;
    }
    false
}

/// The tenant a session runs in.
#[derive(Clone, Copy, Debug, PartialEq, Eq, Structural)]
pub struct SessionScope {
    pub organization_id: u128,
    pub cluster_id: u128,
}

/// What the server records of an agent when it registers: platform values
/// that carry nothing are left out.
#[derive(Clone, Debug, PartialEq, Eq)]
pub struct AgentRegistration {
    pub node_name: String,
    pub agent_version: String,
    pub architecture: Option<String>,
    pub kernel_release: Option<String>,
    pub capabilities: Vec<String>,
}

/// Longest architecture name the server records.
pub const MAX_ARCHITECTURE_LEN: usize = 64;

/// Longest kernel release the server records.
pub const MAX_KERNEL_RELEASE_LEN: usize = 255;

/// The registration row of a hello.
pub fn registration(hello: &AgentHello) -> (r: AgentRegistration)
    ensures
        r.node_name == hello.node_name,
        r.agent_version == hello.agent_version,
        r.capabilities@ == hello.capabilities@,
        match platform_value_of(hello.architecture@, MAX_ARCHITECTURE_LEN as nat) {
            Some(t) => r.architecture is Some && r.architecture->0@ == t,
            None => r.architecture is None,
        },
        match platform_value_of(hello.kernel_release@, MAX_KERNEL_RELEASE_LEN as nat) {
            Some(t) => r.kernel_release is Some && r.kernel_release->0@ == t,
            None => r.kernel_release is None,
        },
{
    let mut capabilities: Vec<String> = Vec::new();
    let mut i: usize = 0;
    while i < hello.capabilities.len()
        invariant
            i <= hello.capabilities@.len(),
            capabilities@ == hello.capabilities@.take(i as int),
        decreases hello.capabilities@.len() - i,
    {
        capabilities.push(hello.capabilities[i].clone());
        i = i + 1;
        assert(capabilities@ =~= hello.capabilities@.take(i as int));
    }
    assert(hello.capabilities@.take(i as int) =~= hello.capabilities@);
    AgentRegistration {
        node_name: hello.node_name.clone(),
        agent_version: hello.agent_version.clone(),
        architecture: platform_value(hello.architecture.as_str(), MAX_ARCHITECTURE_LEN),
        kernel_release: platform_value(hello.kernel_release.as_str(), MAX_KERNEL_RELEASE_LEN),
        capabilities,
    }
}

/// The protocol version a session row records (the version, or `i32::MAX`
/// where it would not fit).
pub fn session_protocol_version() -> (r: i32)
    ensures
        r == (if PROTOCOL_VERSION <= i32::MAX {
            PROTOCOL_VERSION as i32
        } else {
            i32::MAX
        }),
{
    if PROTOCOL_VERSION <= 2147483647u32 {
        PROTOCOL_VERSION as i32
    } else {
        i32::MAX
    }
}

/// The message that accepts a session, naming its tenant, agent and
/// application by their canonical UUID texts.
pub fn session_accepted(scope: SessionScope, agent_id: u128, application: ApplicationScope) -> (r:
    ServerMessage)
    ensures
        r.protocol_version == PROTOCOL_VERSION,
        r.message matches Some(ServerMessageKind::SessionAccepted(a)) && {
            &&& a.organization_id@ == spec_uuid_text(scope.organization_id)
            &&& a.cluster_id@ == spec_uuid_text(scope.cluster_id)
            &&& a.agent_id@ == spec_uuid_text(agent_id)
            &&& a.negotiated_protocol_version == PROTOCOL_VERSION
            &&& a.project_id@ == spec_uuid_text(application.project_id)
            &&& a.application_id@ == spec_uuid_text(application.application_id)
        },
{
    ServerMessage {
        protocol_version: PROTOCOL_VERSION,
        message: Some(
            ServerMessageKind::SessionAccepted(
                SessionAccepted {
                    organization_id: uuid_text(scope.organization_id),
                    cluster_id: uuid_text(scope.cluster_id),
                    agent_id: uuid_text(agent_id),
                    negotiated_protocol_version: PROTOCOL_VERSION,
                    project_id: uuid_text(application.project_id),
                    application_id: uuid_text(application.application_id),
                },
            ),
        ),
    }
}

// --------------------------------------------------------- later messages

/// What the server does with a message of an open session.
#[derive(Clone, Debug, PartialEq, Eq)]
pub enum SessionAction {
    /// Persist the decoded events and acknowledge the batch's sequence.
    PersistBatch { sequence: u64, events: Vec<RuntimeEvent> },
    /// Record that the agent is alive.
    TouchAgent,
    /// Log the result of a control command.
    LogControlResult(ControlResult),
    /// Persist release evidence as it came.
    PersistRevisionEvidence(Vec<u8>),
    /// Persist a readiness snapshot as it came.
    PersistReadinessSnapshot(Vec<u8>),
}

/// The first wire event of a sequence that does not decode, with its fault.
pub open spec fn first_event_fault(events: Seq<crate::wire::RuntimeEvent>) -> Option<ProtocolFault>
    decreases events.len(),
{
    if events.len() == 0 {
        None
    } else {
        match event_fault(events[0]) {
            Some(f) => Some(f),
            None => first_event_fault(events.drop_first()),
        }
    }
}

/// Decodes every event of a batch, stopping at the first that does not decode.
pub fn decode_batch(events: Vec<crate::wire::RuntimeEvent>) -> (r: Result<
    Vec<RuntimeEvent>,
    ProtocolError,
>)
    ensures
        first_event_fault(events@) matches Some(f) ==> r is Err && r->Err_0@ == f,
        first_event_fault(events@) is None ==> r is Ok && r->Ok_0@.len() == events@.len() && (
        forall|i: int| 0 <= i < events@.len() ==> event_decoded(#[trigger] r->Ok_0@[i], events@[i])),
{
    let ghost all = events@;
    let mut rest = events;
    let mut decoded: Vec<RuntimeEvent> = Vec::new();
    assert(all.skip(0) =~= all);
    while rest.len() > 0
        invariant
            all == events@,
            decoded@.len() + rest@.len() == all.len(),
            rest@ == all.skip(decoded@.len() as int),
            forall|j: int| 0 <= j < decoded@.len() ==> event_fault(#[trigger] all[j]) is None,
            forall|j: int| 0 <= j < decoded@.len() ==> event_decoded(#[trigger] decoded@[j], all[j]),
            first_event_fault(all) == first_event_fault(rest@),
        decreases rest@.len(),
    {
        let ghost k = decoded@.len() as int;
        proof {
            assert(rest@[0] == all[k]);
            assert(rest@.drop_first() =~= all.skip(k + 1));
        }
        let ghost before = rest@;
        let event = rest.remove(0);
        assert(event == before[0]);
        match decode_event(event) {
            Ok(d) => {
                decoded.push(d);
            },
            Err(e) => {
                assert(first_event_fault(before) == event_fault(before[0]));
                return Err(e);
            },
        }
        assert(rest@ =~= all.skip(decoded@.len() as int));
    }
    Ok(decoded)
}

/// The action a message of an open session asks for, or why the session
/// ends. Release evidence needs its capability; a second hello, an unknown
/// message or an event that does not decode ends the session.
pub fn session_step(message: AgentMessage, release_discovery: bool) -> (r: Result<
    SessionAction,
    SessionRefusal,
>)
    ensures
        message.protocol_version != PROTOCOL_VERSION ==> r == Err::<SessionAction, SessionRefusal>(
            SessionRefusal::Protocol(ProtocolError::UnsupportedProtocol(message.protocol_version)),
        ),
        message.protocol_version == PROTOCOL_VERSION ==> match message.message {
            None => r == Err::<SessionAction, SessionRefusal>(SessionRefusal::UnknownMessage),
            Some(AgentMessageKind::Hello(_)) => r == Err::<SessionAction, SessionRefusal>(
                SessionRefusal::HelloRepeated,
            ),
            Some(AgentMessageKind::Heartbeat(_)) => r == Ok::<SessionAction, SessionRefusal>(
                SessionAction::TouchAgent,
            ),
            Some(AgentMessageKind::ControlResult(c)) => r == Ok::<SessionAction, SessionRefusal>(
                SessionAction::LogControlResult(c),
            ),
            Some(AgentMessageKind::RevisionEvidence(v)) => r == (if release_discovery {
                Ok::<SessionAction, SessionRefusal>(SessionAction::PersistRevisionEvidence(v))
            } else {
                Err(SessionRefusal::RevisionEvidenceNotNegotiated)
            }),
            Some(AgentMessageKind::ReadinessSnapshot(v)) => r == (if release_discovery {
                Ok::<SessionAction, SessionRefusal>(SessionAction::PersistReadinessSnapshot(v))
            } else {
                Err(SessionRefusal::RevisionEvidenceNotNegotiated)
            }),
            Some(AgentMessageKind::EventBatch(b)) => match first_event_fault(b.events@) {
                Some(f) => r is Err && r->Err_0 is InvalidEvent && r->Err_0->InvalidEvent_0@ == f,
                None => r matches Ok(SessionAction::PersistBatch { sequence, events }) && sequence
                    == b.sequence && events@.len() == b.events@.len() && forall|i: int|
                    0 <= i < b.events@.len() ==> event_decoded(
                        #[trigger] events@[i],
                        b.events@[i],
                    ),
            },
        },
{
    match validate_protocol(message.protocol_version) {
        Err(e) => {
            return Err(SessionRefusal::Protocol(e));
        },
        Ok(()) => {},
    }
    match message.message {
        None => Err(SessionRefusal::UnknownMessage),
        Some(AgentMessageKind::Hello(_)) => Err(SessionRefusal::HelloRepeated),
        Some(AgentMessageKind::Heartbeat(_)) => Ok(SessionAction::TouchAgent),
        Some(AgentMessageKind::ControlResult(c)) => Ok(SessionAction::LogControlResult(c)),
        Some(AgentMessageKind::RevisionEvidence(v)) => {
            if release_discovery {
                Ok(SessionAction::PersistRevisionEvidence(v))
            } else {
                Err(SessionRefusal::RevisionEvidenceNotNegotiated)
            }
        },
        Some(AgentMessageKind::ReadinessSnapshot(v)) => {
            if release_discovery {
                Ok(SessionAction::PersistReadinessSnapshot(v))
            } else {
                Err(SessionRefusal::RevisionEvidenceNotNegotiated)
            }
        },
        Some(AgentMessageKind::EventBatch(batch)) => match decode_batch(batch.events) {
            Ok(events) => Ok(SessionAction::PersistBatch { sequence: batch.sequence, events }),
            Err(e) => Err(SessionRefusal::InvalidEvent(e)),
        },
    }
}

/// The acknowledgement of a persisted batch.
pub fn acknowledgement(sequence: u64, accepted_events: u32, retention_expired_events: u32) -> (r:
    ServerMessage)
    ensures
        r == (ServerMessage {
            protocol_version: PROTOCOL_VERSION,
            message: Some(
                ServerMessageKind::BatchAcknowledgement(
                    BatchAcknowledgement { sequence, accepted_events, retention_expired_events },
                ),
            ),
        }),
{
    ServerMessage {
        protocol_version: PROTOCOL_VERSION,
        message: Some(
            ServerMessageKind::BatchAcknowledgement(
                BatchAcknowledgement { sequence, accepted_events, retention_expired_events },
            ),
        ),
    }
}

/// The credential an agent presents is the one the server reads back: the
/// `authorization` value an agent sends for a non-empty credential yields
/// that credential.
pub proof fn lemma_bearer_reads_presented_credential(credential: Seq<char>)
    requires
        credential.len() > 0,
    ensures
        bearer_of(Some(Some("Bearer "@ + credential))) == Ok::<Seq<char>, SessionRefusal>(
            credential,
        ),
{
    reveal_strlit("Bearer ");
    let v = "Bearer "@ + credential;
    assert(v.take(7) =~= "Bearer "@);
    assert(v.skip(7) =~= credential);
}

} // verus!
