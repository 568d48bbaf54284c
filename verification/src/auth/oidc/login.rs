//! Decisions of the interactive login: listener mode, pasted codes, state and
//! principal.

use vstd::prelude::*;
use crate::auth::model;
use crate::auth::pkce;
use crate::auth::pkce_loopback;
use crate::auth::pkce_loopback::Callback;
use crate::auth::pkce_loopback::CallbackResult;
use crate::auth::pkce_loopback::LoopbackPort;
use crate::text;

verus! {

/// Why a login failed.
#[derive(Debug, Clone, PartialEq, Eq)]
pub enum OidcError {
    NotConfigured,
    BindLoopback(String),
    InvalidPastedInput(String),
    CallbackAuthFailed(String),
    StateMismatch,
    /// The provider, or what it was asked for, failed.
    Provider(String),
    SaveAuth(String),
}

impl OidcError {
    /// The text that came with the error.
    pub open spec fn text(self) -> Seq<char> {
        match self {
            OidcError::NotConfigured => Seq::empty(),
            OidcError::BindLoopback(text) => text@,
            OidcError::InvalidPastedInput(text) => text@,
            OidcError::CallbackAuthFailed(text) => text@,
            OidcError::StateMismatch => Seq::empty(),
            OidcError::Provider(text) => text@,
            OidcError::SaveAuth(text) => text@,
        }
    }

    /// The text that came with the error.
    pub fn detail(&self) -> (r: String)
        ensures
            r@ == self.text(),
    {
        match self {
            OidcError::NotConfigured => String::new(),
            OidcError::BindLoopback(text) => text.clone(),
            OidcError::InvalidPastedInput(text) => text.clone(),
            OidcError::CallbackAuthFailed(text) => text.clone(),
            OidcError::StateMismatch => String::new(),
            OidcError::Provider(text) => text.clone(),
            OidcError::SaveAuth(text) => text.clone(),
        }
    }
}

/// An OpenID Connect provider and how this client is known to it.
#[derive(Debug, Clone, PartialEq, Eq)]
pub struct OidcAuthConfig {
    pub issuer: String,
    pub client_id: String,
    pub scopes: Vec<String>,
    pub audience: Option<String>,
}

/// Whether `error` is the one that a paste's message stands for: input that is
/// no callback, or the provider's own refusal.
pub open spec fn is_paste_error(message: Seq<char>, error: OidcError) -> bool {
    if message == "empty input"@ {
        error matches OidcError::InvalidPastedInput(text) && text@ == "empty input"@
    } else if text::find(message, "URL has no 'code'"@) is Some {
        error matches OidcError::InvalidPastedInput(text) && text@
            == "URL has no 'code' query parameter"@
    } else {
        error matches OidcError::CallbackAuthFailed(text) && text@ == message
    }
}

/// Sorts the message of a paste that could not be used.
pub fn classify_paste_error(message: String) -> (r: OidcError)
    ensures
        is_paste_error(message@, r),
{
    let hay: Vec<char> = text::chars_of(message.as_str());
    let needle: Vec<char> = text::chars_of("URL has no 'code'");
    if text::same_text(message.as_str(), "empty input") {
        OidcError::InvalidPastedInput("empty input".to_owned())
    } else if text::find_chars(&hay, &needle).is_some() {
        OidcError::InvalidPastedInput("URL has no 'code' query parameter".to_owned())
    } else {
        OidcError::CallbackAuthFailed(message)
    }
}

/// Parses user-pasted input into a code and a state.
pub fn parse_pasted_input(input: &str) -> (r: Result<Callback, OidcError>)
    ensures
        match pkce_loopback::pasted(input@) {
            Ok((code, state)) => r matches Ok(callback) && callback.code@ == code && callback.state@
                == state,
            Err(message) => r matches Err(error) && is_paste_error(message, error),
        },
{
    let result: CallbackResult = pkce_loopback::parse_pasted_input(input);
    match result {
        Ok(callback) => Ok(callback),
        Err(message) => Err(classify_paste_error(message)),
    }
}

/// Whether `mode` is the one to listen in.
pub open spec fn is_loopback_mode(mode: LoopbackPort, local_auth: bool) -> bool {
    if local_auth {
        mode matches LoopbackPort::Fixed { port, path, redirect_uri } && port == 56121 && path@
            == "/callback"@ && redirect_uri@ == "http://127.0.0.1:56121/callback"@
    } else {
        mode is Ephemeral
    }
}

/// Where to listen. Local development pre-registers a fixed port, so that the
/// redirect is stable; elsewhere the system picks one.
pub fn loopback_mode(local_auth: bool) -> (r: LoopbackPort)
    ensures
        is_loopback_mode(r, local_auth),
{
    if local_auth {
        LoopbackPort::Fixed {
            port: 56121,
            path: "/callback",
            redirect_uri: "http://127.0.0.1:56121/callback",
        }
    } else {
        LoopbackPort::Ephemeral
    }
}

/// The name to show for an issuer: `Grok` for the product's own.
pub open spec fn label_of(issuer: Seq<char>, own_issuer: Seq<char>) -> Seq<char> {
    if issuer == own_issuer {
        "Grok"@
    } else {
        issuer
    }
}

/// The name to show for an issuer: `Grok` for the product's own.
pub fn provider_label(issuer: &str, own_issuer: &str) -> (r: String)
    ensures
        r@ == label_of(issuer@, own_issuer@),
{
    if text::same_text(issuer, own_issuer) {
        "Grok".to_owned()
    } else {
        issuer.to_owned()
    }
}

/// Whether to read pasted codes from standard input: where no client shows
/// its own sign-in and a terminal is there to paste into.
pub fn reads_stdin(has_client_ui: bool, stdin_is_terminal: bool) -> (r: bool)
    ensures
        r == (!has_client_ui && stdin_is_terminal),
{
    !has_client_ui && stdin_is_terminal
}

/// A login under way.
#[derive(Debug)]
pub struct OidcSession {
    /// Where to listen for the redirect.
    pub mode: LoopbackPort,
    /// The state to send, and to expect back.
    pub state: String,
    /// The nonce that the identity token has to hold.
    pub nonce: String,
    /// The name to show for the provider, where no client shows its own
    /// sign-in.
    pub label: Option<String>,
    /// Whether to read pasted codes from standard input.
    pub reads_stdin: bool,
}

/// The login under way with `config`, with this state and this nonce.
pub fn session_with(
    config: &OidcAuthConfig,
    own_issuer: &str,
    local_auth: bool,
    has_client_ui: bool,
    stdin_is_terminal: bool,
    state: String,
    nonce: String,
) -> (r: OidcSession)
    ensures
        r.state@ == state@,
        r.nonce@ == nonce@,
        is_session(r, *config, own_issuer@, local_auth, has_client_ui, stdin_is_terminal),
{
    let label: Option<String> = if has_client_ui {
        None
    } else {
        Some(provider_label(config.issuer.as_str(), own_issuer))
    };
    OidcSession {
        mode: loopback_mode(local_auth),
        state,
        nonce,
        label,
        reads_stdin: reads_stdin(has_client_ui, stdin_is_terminal),
    }
}

/// Whether a session listens, shows and reads as it should.
pub open spec fn is_session(
    session: OidcSession,
    config: OidcAuthConfig,
    own_issuer: Seq<char>,
    local_auth: bool,
    has_client_ui: bool,
    stdin_is_terminal: bool,
) -> bool {
    &&& is_loopback_mode(session.mode, local_auth)
    &&& model::text_view(session.label) == (if has_client_ui {
        None
    } else {
        Some(label_of(config.issuer@, own_issuer))
    })
    &&& session.reads_stdin == (!has_client_ui && stdin_is_terminal)
}

/// Begins a login with the configured provider. The state and the nonce are two
/// different fresh UUIDs of version 7.
pub fn begin_login(
    oidc: Option<&OidcAuthConfig>,
    own_issuer: &str,
    local_auth: bool,
    has_client_ui: bool,
    stdin_is_terminal: bool,
) -> (r: Result<OidcSession, OidcError>)
    ensures
        match (oidc, r) {
            (None, Err(error)) => error == OidcError::NotConfigured,
            (Some(config), Ok(session)) => {
                &&& pkce::is_uuid_v7(session.state@)
                &&& pkce::is_uuid_v7(session.nonce@)
                &&& session.state@ != session.nonce@
                &&& is_session(
                    session,
                    *config,
                    own_issuer@,
                    local_auth,
                    has_client_ui,
                    stdin_is_terminal,
                )
            },
            _ => false,
        },
{
    match oidc {
        None => Err(OidcError::NotConfigured),
        Some(config) => {
            let (state, nonce) = pkce::new_uuid_v7_pair();
            Ok(
                session_with(
                    config,
                    own_issuer,
                    local_auth,
                    has_client_ui,
                    stdin_is_terminal,
                    state,
                    nonce,
                ),
            )
        },
    }
}

/// The code to exchange, unless the callback's state is not the one sent.
pub fn accept_callback(session: &OidcSession, callback: Callback) -> (r: Result<String, OidcError>)
    ensures
        match r {
            Ok(code) => (callback.state@.len() == 0 || callback.state@ == session.state@) && code
                == callback.code,
            Err(error) => error == OidcError::StateMismatch && callback.state@.len() > 0
                && callback.state@ != session.state@,
        },
{
    match check_state(session.state.as_str(), callback.state.as_str()) {
        Ok(()) => Ok(callback.code),
        Err(error) => Err(error),
    }
}

/// Checks the state that came back. A bare pasted code brings none.
pub fn check_state(sent: &str, received: &str) -> (r: Result<(), OidcError>)
    ensures
        r == (if received@.len() == 0 || received@ == sent@ {
            Ok::<(), OidcError>(())
        } else {
            Err(OidcError::StateMismatch)
        }),
{
    if !received.is_empty() && !text::same_text(received, sent) {
        return Err(OidcError::StateMismatch);
    }
    Ok(())
}

/// Who the user signed in as.
#[derive(Debug, Clone, PartialEq, Eq)]
pub struct Principal {
    pub principal_type: Option<String>,
    pub principal_id: Option<String>,
    pub team_id: Option<String>,
}

/// The principal that an access token names.
#[derive(Debug, Clone, PartialEq, Eq)]
pub struct TokenPrincipal {
    pub principal_type: String,
    pub principal_id: String,
    pub team_id: Option<String>,
}

/// Who the user signed in as: the principal that the configuration fixes, else
/// the one chosen on the consent screen, which the access token names.
pub open spec fn resolved_principal(
    configured_type: Option<String>,
    configured_id: Option<String>,
    token: Option<TokenPrincipal>,
) -> Principal {
    match (configured_type, token) {
        (None, Some(token)) => Principal {
            principal_type: Some(token.principal_type),
            principal_id: Some(token.principal_id),
            team_id: token.team_id,
        },
        _ => Principal {
            principal_type: configured_type,
            principal_id: configured_id,
            team_id: None,
        },
    }
}

/// Who the user signed in as: the principal that the configuration fixes, else
/// the one chosen on the consent screen, which the access token names.
pub fn resolve_principal(
    configured_type: Option<String>,
    configured_id: Option<String>,
    token: Option<TokenPrincipal>,
) -> (r: Principal)
    ensures
        r == resolved_principal(configured_type, configured_id, token),
        configured_type is Some || token is None ==> r == (Principal {
            principal_type: configured_type,
            principal_id: configured_id,
            team_id: None,
        }),
        configured_type is None && token is Some ==> r == (Principal {
            principal_type: Some(token->0.principal_type),
            principal_id: Some(token->0.principal_id),
            team_id: token->0.team_id,
        }),
{
    if configured_type.is_some() {
        return Principal {
            principal_type: configured_type,
            principal_id: configured_id,
            team_id: None,
        };
    }
    match token {
        Some(token) => Principal {
            principal_type: Some(token.principal_type),
            principal_id: Some(token.principal_id),
            team_id: token.team_id,
        },
        None => Principal {
            principal_type: configured_type,
            principal_id: configured_id,
            team_id: None,
        },
    }
}

/// What a login does next.
#[derive(Debug, Clone, PartialEq, Eq)]
pub enum OidcPhase {
    /// Ask the provider for its endpoints.
    Discover,
    /// Bind the listener.
    Bind,
    /// Open the browser and wait for the callback.
    AwaitCallback,
    /// Exchange the code for tokens.
    Exchange { code: String },
    /// Check that the tokens are for a principal that may sign in.
    EnforcePrincipal,
    /// Find out who signed in.
    Identify,
    /// Save the credential.
    Save,
    Finished,
}

/// What came of a phase.
#[derive(Debug)]
pub enum OidcEvent {
    Succeeded,
    /// The callback that was waited for.
    Received(Callback),
    Failed(String),
}

impl OidcPhase {
    /// How many phases come before this one.
    pub open spec fn rank(self) -> int {
        match self {
            OidcPhase::Discover => 0,
            OidcPhase::Bind => 1,
            OidcPhase::AwaitCallback => 2,
            OidcPhase::Exchange { .. } => 3,
            OidcPhase::EnforcePrincipal => 4,
            OidcPhase::Identify => 5,
            OidcPhase::Save => 6,
            OidcPhase::Finished => 7,
        }
    }

    /// Whether this is the phase that follows on success.
    pub open spec fn follows(self, phase: OidcPhase) -> bool {
        self.rank() == phase.rank() + 1
    }
}

/// Whether `next` is what a login with this session does once `event` came of
/// `phase`: the phase that follows, after the callback only with an accepted
/// state and then with its code; and nothing more after a failure.
pub open spec fn leads_to(
    session: OidcSession,
    phase: OidcPhase,
    event: OidcEvent,
    next: Result<OidcPhase, OidcError>,
) -> bool {
    match event {
        OidcEvent::Failed(text) => match phase {
            OidcPhase::Bind => next == Err::<OidcPhase, OidcError>(OidcError::BindLoopback(text)),
            OidcPhase::Save => next == Err::<OidcPhase, OidcError>(OidcError::SaveAuth(text)),
            _ => next == Err::<OidcPhase, OidcError>(OidcError::Provider(text)),
        },
        OidcEvent::Received(callback) => {
            if callback.state@.len() > 0 && callback.state@ != session.state@ {
                next == Err::<OidcPhase, OidcError>(OidcError::StateMismatch)
            } else {
                next == Ok::<OidcPhase, OidcError>(OidcPhase::Exchange { code: callback.code })
            }
        },
        OidcEvent::Succeeded => next matches Ok(after) && after.follows(phase),
    }
}

/// Whether `event` can come of `phase`: a callback comes of waiting for one, and
/// of nothing else.
pub open spec fn can_come_of(event: OidcEvent, phase: OidcPhase) -> bool {
    match event {
        OidcEvent::Failed(_) => !(phase is Finished),
        OidcEvent::Received(_) => phase is AwaitCallback,
        OidcEvent::Succeeded => !(phase is AwaitCallback) && !(phase is Finished),
    }
}

/// What a login does once `event` came of `phase`.
pub fn next_phase(session: &OidcSession, phase: OidcPhase, event: OidcEvent) -> (r: Result<
    OidcPhase,
    OidcError,
>)
    requires
        can_come_of(event, phase),
    ensures
        leads_to(*session, phase, event, r),
{
    match event {
        OidcEvent::Failed(text) => match phase {
            OidcPhase::Bind => Err(OidcError::BindLoopback(text)),
            OidcPhase::Save => Err(OidcError::SaveAuth(text)),
            _ => Err(OidcError::Provider(text)),
        },
        OidcEvent::Received(callback) => match accept_callback(session, callback) {
            Ok(code) => Ok(OidcPhase::Exchange { code }),
            Err(error) => Err(error),
        },
        OidcEvent::Succeeded => match phase {
            OidcPhase::Discover => Ok(OidcPhase::Bind),
            OidcPhase::Bind => Ok(OidcPhase::AwaitCallback),
            OidcPhase::Exchange { .. } => Ok(OidcPhase::EnforcePrincipal),
            OidcPhase::EnforcePrincipal => Ok(OidcPhase::Identify),
            OidcPhase::Identify => Ok(OidcPhase::Save),
            _ => Ok(OidcPhase::Finished),
        },
    }
}

/// Whether these phases are those of one login from its start, each the one that
/// the event of the phase before it led to.
pub open spec fn is_run(
    session: OidcSession,
    phases: Seq<OidcPhase>,
    events: Seq<OidcEvent>,
) -> bool {
    &&& phases.len() == events.len() + 1
    &&& phases[0] is Discover
    &&& forall|i: int|
        0 <= i < events.len() ==> can_come_of(#[trigger] events[i], phases[i]) && leads_to(
            session,
            phases[i],
            events[i],
            Ok::<OidcPhase, OidcError>(phases[i + 1]),
        )
}

proof fn lemma_rank_is_position(
    session: OidcSession,
    phases: Seq<OidcPhase>,
    events: Seq<OidcEvent>,
    i: int,
)
    requires
        is_run(session, phases, events),
        0 <= i < phases.len(),
    ensures
        phases[i].rank() == i,
    decreases i,
{
    if i > 0 {
        lemma_rank_is_position(session, phases, events, i - 1);
        assert(can_come_of(events[i - 1], phases[i - 1]));
    }
}

/// Nothing is saved unchecked: a login that comes to save its credential had its
/// callback accepted, exchanged that callback's code, and had the principal
/// enforced, in this order.
pub proof fn law_nothing_is_saved_unchecked(
    session: OidcSession,
    phases: Seq<OidcPhase>,
    events: Seq<OidcEvent>,
)
    requires
        is_run(session, phases, events),
        phases.last() is Save,
    ensures
        phases.len() == 7,
        (events[2] matches OidcEvent::Received(callback) && (callback.state@.len() == 0
            || callback.state@ == session.state@) && phases[3] == (OidcPhase::Exchange {
            code: callback.code,
        })),
        phases[4] is EnforcePrincipal && events[4] is Succeeded,
        phases[5] is Identify && events[5] is Succeeded,
{
    lemma_rank_is_position(session, phases, events, phases.len() - 1);
    lemma_rank_is_position(session, phases, events, 2);
    lemma_rank_is_position(session, phases, events, 3);
    lemma_rank_is_position(session, phases, events, 4);
    lemma_rank_is_position(session, phases, events, 5);
    assert(can_come_of(events[2], phases[2]));
    assert(can_come_of(events[4], phases[4]));
    assert(can_come_of(events[5], phases[5]));
}

/// In local development the redirect is the address that is listened on.
pub proof fn law_local_redirect_is_the_bound_address(mode: LoopbackPort)
    requires
        is_loopback_mode(mode, true),
    ensures
        mode->redirect_uri@ == pkce_loopback::redirect(mode->port, mode->path@, None),
{
    reveal_strlit("http://127.0.0.1:56121/callback");
    reveal_strlit("http://127.0.0.1:");
    reveal_strlit("/callback");
    reveal_with_fuel(text::decimal, 6);
    assert("http://127.0.0.1:56121/callback"@ =~= "http://127.0.0.1:"@ + text::decimal(56121)
        + "/callback"@);
}

/// What could not be used of a paste is the user's mistake where nothing was
/// pasted, or a URL without a code; every other message is the provider's and is
/// handed on as it is.
pub proof fn law_paste_errors_are_told_apart(
    before: Seq<char>,
    after: Seq<char>,
    other: Seq<char>,
    error: OidcError,
)
    requires
        other != "empty input"@,
        forall|j: int|
            0 <= j <= other.len() - "URL has no 'code'"@.len() ==> #[trigger] other.subrange(
                j,
                j + "URL has no 'code'"@.len(),
            ) != "URL has no 'code'"@,
    ensures
        is_paste_error("empty input"@, error) <==> error is InvalidPastedInput
            && error->InvalidPastedInput_0@ == "empty input"@,
        is_paste_error(before + "URL has no 'code'"@ + after, error) <==> error
            is InvalidPastedInput && error->InvalidPastedInput_0@
            == "URL has no 'code' query parameter"@,
        is_paste_error(other, error) <==> error is CallbackAuthFailed
            && error->CallbackAuthFailed_0@ == other,
{
    reveal_strlit("empty input");
    reveal_strlit("URL has no 'code'");
    let needle = "URL has no 'code'"@;
    let whole = before + needle + after;
    let at = before.len() as int;
    assert(whole.len() > "empty input"@.len());
    assert(whole.subrange(at, at + needle.len()) =~= needle);
    text::law_find_gives_the_first_place(whole, needle);
    if text::find(whole, needle) is None {
        assert(whole.subrange(at, at + needle.len()) != needle);
    }
    text::law_find_gives_the_first_place(other, needle);
    if text::find(other, needle) is Some {
        let i = text::find(other, needle)->0;
        assert(other.subrange(i, i + needle.len()) == needle);
    }
}

/// The product's own issuer is shown by the product's name, any other as it is.
pub proof fn law_only_the_own_issuer_has_a_name(issuer: Seq<char>, own_issuer: Seq<char>)
    ensures
        label_of(own_issuer, own_issuer) == "Grok"@,
        issuer != own_issuer ==> label_of(issuer, own_issuer) == issuer,
{
}

/// A login listens on the fixed port exactly in local development, shows a name
/// only where no client shows its own sign-in, and reads pastes only from a
/// terminal that no client stands in for.
pub proof fn law_session_follows_its_surroundings(
    session: OidcSession,
    config: OidcAuthConfig,
    own_issuer: Seq<char>,
    local_auth: bool,
    has_client_ui: bool,
    stdin_is_terminal: bool,
)
    requires
        is_session(session, config, own_issuer, local_auth, has_client_ui, stdin_is_terminal),
    ensures
        session.mode is Fixed <==> local_auth,
        session.mode is Ephemeral <==> !local_auth,
        session.mode matches LoopbackPort::Fixed { port, path, redirect_uri } ==> port == 56121
            && path@ == "/callback"@ && redirect_uri@ == "http://127.0.0.1:56121/callback"@,
        session.label is None <==> has_client_ui,
        session.label is Some && config.issuer@ == own_issuer ==> session.label->0@ == "Grok"@,
        session.label is Some && config.issuer@ != own_issuer ==> session.label->0@
            == config.issuer@,
        session.reads_stdin <==> !has_client_ui && stdin_is_terminal,
{
}

/// A failure ends a login with its own text, as a failed bind, a failed save or a
/// failure of the provider. A callback leads to the exchange of its own code
/// unless it brings a state other than the one sent.
pub proof fn law_failures_and_callbacks_decide(
    session: OidcSession,
    phase: OidcPhase,
    text: String,
    callback: Callback,
    next: Result<OidcPhase, OidcError>,
)
    ensures
        leads_to(session, phase, OidcEvent::Failed(text), next) ==> next is Err && (match phase {
            OidcPhase::Bind => next->Err_0 == OidcError::BindLoopback(text),
            OidcPhase::Save => next->Err_0 == OidcError::SaveAuth(text),
            _ => next->Err_0 == OidcError::Provider(text),
        }),
        leads_to(session, phase, OidcEvent::Received(callback), next) ==> {
            &&& next is Ok <==> callback.state@.len() == 0 || callback.state@ == session.state@
            &&& next is Ok ==> next->Ok_0 == (OidcPhase::Exchange { code: callback.code })
            &&& next is Err ==> next->Err_0 == OidcError::StateMismatch
        },
{
}

/// The phases of a login follow one another in one order and leave none out.
pub proof fn law_phases_follow_in_order(
    session: OidcSession,
    phase: OidcPhase,
    next: Result<OidcPhase, OidcError>,
)
    requires
        can_come_of(OidcEvent::Succeeded, phase),
        leads_to(session, phase, OidcEvent::Succeeded, next),
    ensures
        next is Ok,
        phase is Discover ==> next->Ok_0 is Bind,
        phase is Bind ==> next->Ok_0 is AwaitCallback,
        phase is Exchange ==> next->Ok_0 is EnforcePrincipal,
        phase is EnforcePrincipal ==> next->Ok_0 is Identify,
        phase is Identify ==> next->Ok_0 is Save,
        phase is Save ==> next->Ok_0 is Finished,
{
}

/// An error's text is the one that came with it; two errors come with none.
pub proof fn law_error_text_is_its_own(text: String)
    ensures
        OidcError::BindLoopback(text).text() == text@,
        OidcError::InvalidPastedInput(text).text() == text@,
        OidcError::CallbackAuthFailed(text).text() == text@,
        OidcError::Provider(text).text() == text@,
        OidcError::SaveAuth(text).text() == text@,
        OidcError::NotConfigured.text().len() == 0,
        OidcError::StateMismatch.text().len() == 0,
{
}

/// A configured principal stands whatever the token names, and has no team; without
/// one the token's principal stands, with its team, whatever id is configured.
pub proof fn law_configured_principal_stands(
    configured_type: String,
    configured_id: Option<String>,
    token: TokenPrincipal,
    any_token: Option<TokenPrincipal>,
)
    ensures
        ({
            let fixed = resolved_principal(Some(configured_type), configured_id, any_token);
            &&& fixed.principal_type == Some(configured_type)
            &&& fixed.principal_id == configured_id
            &&& fixed.team_id is None
        }),
        ({
            let chosen = resolved_principal(None, configured_id, Some(token));
            &&& chosen.principal_type == Some(token.principal_type)
            &&& chosen.principal_id == Some(token.principal_id)
            &&& chosen.team_id == token.team_id
        }),
        ({
            let none = resolved_principal(None, configured_id, None);
            &&& none.principal_type is None
            &&& none.principal_id == configured_id
            &&& none.team_id is None
        }),
{
}

} // verus!
