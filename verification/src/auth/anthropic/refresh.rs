//! Renewing a credential with its refresh token.

use vstd::prelude::*;
use crate::auth::anthropic::wire::AnthropicClient;
use crate::auth::model;
use crate::auth::model::AuthMode;
use crate::auth::model::GrokAuth;
use crate::auth::model::SubscriptionProvider;
use crate::auth::model::Timestamp;
use crate::json;
use crate::json::JsonValue;
use crate::json::JsonView;
use crate::json::Scalar;
use crate::json::ScalarView;
use crate::text;

verus! {

/// Tokens as the token endpoint grants them on a refresh.
#[derive(Debug)]
pub struct AnthropicRefreshResponse {
    pub access_token: String,
    pub refresh_token: Option<String>,
    pub expires_in: Option<u64>,
}

/// Why a refresh cannot succeed however often it is tried.
#[derive(Debug, Clone, Copy, PartialEq, Eq, Structural)]
pub enum RefreshTokenFailedReason {
    RefreshTokenRejected,
}

/// What came of a refresh.
#[derive(Debug)]
pub enum RefreshOutcome {
    Success(GrokAuth),
    PermanentFailure {
        error: RefreshTokenFailedReason,
        tried_key: Option<String>,
        tried_refresh_token: Option<String>,
    },
    TransientFailure { message: String },
}

/// The credentials a refresh may start from.
#[derive(Debug)]
pub struct AuthSnapshot {
    /// The expired credential held in memory.
    pub expired_auth: Option<GrokAuth>,
    /// The credential on disk, read where memory holds none.
    pub disk_auth: Option<GrokAuth>,
}

/// How a refresh begins.
#[derive(Debug)]
pub enum RefreshStart {
    /// There is nothing to send.
    Done(RefreshOutcome),
    /// Post `body`, then [`finish_refresh`].
    Send { current: GrokAuth, refresh_token: String, body: JsonValue },
}

/// Renews Anthropic credentials.
#[derive(Debug)]
pub struct AnthropicRefresher {
    auth: AuthSnapshot,
}

/// The credential that a refresh starts from.
pub open spec fn starting_auth(snapshot: AuthSnapshot) -> Option<GrokAuth> {
    match snapshot.expired_auth {
        Some(auth) => Some(auth),
        None => snapshot.disk_auth,
    }
}

/// Whether a credential has a refresh token to present.
pub open spec fn refreshable(auth: GrokAuth) -> bool {
    auth.refresh_token matches Some(token) && text::trim(token@).len() > 0
}

/// The body of the refresh request.
pub open spec fn refresh_members(client: AnthropicClient, refresh_token: Seq<char>) -> Seq<
    (Seq<char>, ScalarView),
> {
    seq![
        ("grant_type"@, ScalarView::Text("refresh_token"@)),
        ("client_id"@, ScalarView::Text(client.client_id@)),
        ("refresh_token"@, ScalarView::Text(refresh_token)),
    ]
}

fn refresh_body(client: &AnthropicClient, refresh_token: &str) -> (r: JsonValue)
    ensures
        r@ == JsonView::Object(refresh_members(*client, refresh_token@)),
{
    let mut members: Vec<(String, Scalar)> = Vec::new();
    json::push_member(&mut members, "grant_type", Scalar::Text("refresh_token".to_owned()));
    json::push_member(&mut members, "client_id", Scalar::Text(client.client_id.clone()));
    json::push_member(&mut members, "refresh_token", Scalar::Text(refresh_token.to_owned()));
    proof {
        assert(json::members_view(members@) =~= refresh_members(*client, refresh_token@));
    }
    JsonValue::Object(members)
}

impl AnthropicRefresher {
    /// What the refresher starts from.
    pub closed spec fn snapshot(self) -> AuthSnapshot {
        self.auth
    }

    /// A refresher that starts from `auth`.
    pub fn new(auth: AuthSnapshot) -> (r: Self)
        ensures
            r.snapshot() == auth,
    {
        AnthropicRefresher { auth }
    }

    /// A refresher for a manager that holds these credentials.
    pub fn for_manager(expired_auth: Option<GrokAuth>, disk_auth: Option<GrokAuth>) -> (r: Self)
        ensures
            r.snapshot() == (AuthSnapshot { expired_auth, disk_auth }),
    {
        AnthropicRefresher::new(AuthSnapshot { expired_auth, disk_auth })
    }

    /// Begins a refresh: the credential in memory, else the one on disk, has
    /// to exist and to hold a refresh token that is not blank.
    pub fn begin(self, client: &AnthropicClient) -> (r: RefreshStart)
        ensures
            match starting_auth(self.snapshot()) {
                None => r == RefreshStart::Done(
                    RefreshOutcome::PermanentFailure {
                        error: RefreshTokenFailedReason::RefreshTokenRejected,
                        tried_key: None,
                        tried_refresh_token: None,
                    },
                ),
                Some(auth) => if refreshable(auth) {
                    r matches RefreshStart::Send { current, refresh_token, body } && current == auth
                        && refresh_token@ == auth.refresh_token->0@ && body@ == JsonView::Object(
                        refresh_members(*client, auth.refresh_token->0@),
                    )
                } else {
                    r == RefreshStart::Done(
                        RefreshOutcome::PermanentFailure {
                            error: RefreshTokenFailedReason::RefreshTokenRejected,
                            tried_key: Some(auth.key),
                            tried_refresh_token: None,
                        },
                    )
                },
            },
    {
        let current: GrokAuth = match self.auth.expired_auth {
            Some(auth) => auth,
            None => match self.auth.disk_auth {
                Some(auth) => auth,
                None => {
                    return RefreshStart::Done(
                        RefreshOutcome::PermanentFailure {
                            error: RefreshTokenFailedReason::RefreshTokenRejected,
                            tried_key: None,
                            tried_refresh_token: None,
                        },
                    );
                },
            },
        };
        let presented: Option<String> = match &current.refresh_token {
            Some(token) => if text::trim_text(token.as_str()).is_empty() {
                None
            } else {
                Some(token.clone())
            },
            None => None,
        };
        match presented {
            Some(refresh_token) => {
                let body: JsonValue = refresh_body(client, refresh_token.as_str());
                RefreshStart::Send { current, refresh_token, body }
            },
            None => RefreshStart::Done(
                RefreshOutcome::PermanentFailure {
                    error: RefreshTokenFailedReason::RefreshTokenRejected,
                    tried_key: Some(current.key),
                    tried_refresh_token: None,
                },
            ),
        }
    }
}

/// What came of posting a refresh request.
#[derive(Debug)]
pub enum RefreshReply {
    /// No HTTP client could be built.
    NoClient(String),
    /// The request did not get through.
    NetworkError(String),
    /// The endpoint refused: status code, status line and body.
    Refused { code: u16, status: String, body: String },
    /// The endpoint agreed but its reply could not be read.
    Unreadable(String),
    /// The tokens, and when they came.
    Granted { tokens: AnthropicRefreshResponse, now: Timestamp },
}

/// The credential that a refresh leaves: the old one with the new tokens. The
/// old refresh token is kept where no new one came.
pub open spec fn renewed(
    client: AnthropicClient,
    old: GrokAuth,
    presented: Seq<char>,
    tokens: AnthropicRefreshResponse,
    now: Timestamp,
    new: GrokAuth,
) -> bool {
    &&& new.provider == SubscriptionProvider::Anthropic
    &&& new.key@ == tokens.access_token@
    &&& new.auth_mode == AuthMode::SubscriptionOauth
    &&& new.create_time == now
    &&& model::text_view(new.refresh_token) == Some(
        match tokens.refresh_token {
            Some(token) => token@,
            None => presented,
        },
    )
    &&& new.expires_at == Some(
        model::expiry(now, tokens.expires_in, client.expiry_margin_secs),
    )
    &&& new.user_id == old.user_id
    &&& new.account_id == old.account_id
    &&& new.email == old.email
    &&& new.principal_type == old.principal_type
    &&& new.principal_id == old.principal_id
    &&& new.oidc_issuer == old.oidc_issuer
    &&& new.subscription_tier == old.subscription_tier
    &&& new.other_fields == old.other_fields
}

/// Whether `outcome` is a transient failure with this message.
pub open spec fn fails_with(outcome: RefreshOutcome, text: Seq<char>) -> bool {
    outcome matches RefreshOutcome::TransientFailure { message } && message@ == text
}

fn transient(head: &str, rest: &str) -> (r: RefreshOutcome)
    ensures
        fails_with(r, head@ + rest@),
{
    let mut message: String = head.to_owned();
    message.append(rest);
    RefreshOutcome::TransientFailure { message }
}

/// Finishes a refresh of `current`, for which `refresh_token` was presented.
/// A refusal with status 400 or 401 is permanent; everything else that goes
/// wrong can be tried again.
pub fn finish_refresh(
    client: &AnthropicClient,
    current: GrokAuth,
    refresh_token: String,
    reply: RefreshReply,
) -> (r: RefreshOutcome)
    requires
        reply matches RefreshReply::Granted { tokens, now } ==> model::expiry_fits(
            now,
            tokens.expires_in,
            client.expiry_margin_secs,
        ),
    ensures
        match reply {
            RefreshReply::NoClient(error) => fails_with(
                r,
                "Failed to build HTTP client: "@ + error@,
            ),
            RefreshReply::NetworkError(error) => fails_with(
                r,
                "Anthropic refresh network error: "@ + error@,
            ),
            RefreshReply::Refused { code, status, body } => if code == 400 || code == 401 {
                r == (RefreshOutcome::PermanentFailure {
                    error: RefreshTokenFailedReason::RefreshTokenRejected,
                    tried_key: Some(current.key),
                    tried_refresh_token: Some(refresh_token),
                })
            } else {
                fails_with(
                    r,
                    "Anthropic refresh HTTP error ("@ + (status@ + "): "@ + body@),
                )
            },
            RefreshReply::Unreadable(error) => fails_with(
                r,
                "Failed to parse Anthropic refresh response: "@ + error@,
            ),
            RefreshReply::Granted { tokens, now } => r matches RefreshOutcome::Success(auth)
                && renewed(*client, current, refresh_token@, tokens, now, auth),
        },
{
    match reply {
        RefreshReply::NoClient(error) => transient("Failed to build HTTP client: ", error.as_str()),
        RefreshReply::NetworkError(error) => transient(
            "Anthropic refresh network error: ",
            error.as_str(),
        ),
        RefreshReply::Refused { code, status, body } => {
            if code == 400 || code == 401 {
                return RefreshOutcome::PermanentFailure {
                    error: RefreshTokenFailedReason::RefreshTokenRejected,
                    tried_key: Some(current.key),
                    tried_refresh_token: Some(refresh_token),
                };
            }
            let mut rest: String = status;
            rest.append("): ");
            rest.append(body.as_str());
            transient("Anthropic refresh HTTP error (", rest.as_str())
        },
        RefreshReply::Unreadable(error) => transient(
            "Failed to parse Anthropic refresh response: ",
            error.as_str(),
        ),
        RefreshReply::Granted { tokens, now } => {
            let expires: Timestamp = model::expires_at(
                now,
                tokens.expires_in,
                client.expiry_margin_secs,
            );
            let kept: String = match tokens.refresh_token {
                Some(token) => token,
                None => refresh_token,
            };
            RefreshOutcome::Success(
                GrokAuth {
                    provider: SubscriptionProvider::Anthropic,
                    key: tokens.access_token,
                    auth_mode: AuthMode::SubscriptionOauth,
                    create_time: now,
                    user_id: current.user_id,
                    account_id: current.account_id,
                    refresh_token: Some(kept),
                    expires_at: Some(expires),
                    email: current.email,
                    principal_type: current.principal_type,
                    principal_id: current.principal_id,
                    oidc_issuer: current.oidc_issuer,
                    subscription_tier: current.subscription_tier,
                    other_fields: current.other_fields,
                },
            )
        },
    }
}

/// The renewed credential, or a message that says why there is none;
/// `rejection` describes a permanent failure.
pub fn refresh_credential(outcome: RefreshOutcome, rejection: &str) -> (r: Result<GrokAuth, String>)
    ensures
        match outcome {
            RefreshOutcome::Success(auth) => r == Ok::<GrokAuth, String>(auth),
            RefreshOutcome::PermanentFailure { .. } => r matches Err(text) && text@
                == "Refresh failed: "@ + rejection@,
            RefreshOutcome::TransientFailure { message } => r matches Err(text) && text@
                == "Refresh failed: "@ + message@,
        },
{
    match outcome {
        RefreshOutcome::Success(auth) => Ok(auth),
        RefreshOutcome::PermanentFailure { .. } => {
            let mut text: String = "Refresh failed: ".to_owned();
            text.append(rejection);
            Err(text)
        },
        RefreshOutcome::TransientFailure { message } => {
            let mut text: String = "Refresh failed: ".to_owned();
            text.append(message.as_str());
            Err(text)
        },
    }
}

/// A refresh never loses the means to refresh again: where the reply's new
/// refresh token, if any, is not blank, the renewed credential can be
/// refreshed in turn.
pub proof fn law_renewed_stays_refreshable(
    client: AnthropicClient,
    old: GrokAuth,
    tokens: AnthropicRefreshResponse,
    now: Timestamp,
    new: GrokAuth,
)
    requires
        refreshable(old),
        renewed(client, old, old.refresh_token->0@, tokens, now, new),
        tokens.refresh_token matches Some(token) ==> text::trim(token@).len() > 0,
    ensures
        refreshable(new),
        tokens.refresh_token is None ==> new.refresh_token->0@ == old.refresh_token->0@,
{
}

/// A refresh starts from the credential in memory, whatever is on disk, and from
/// the one on disk only where memory holds none.
pub proof fn law_memory_goes_before_disk(held: GrokAuth, disk: Option<GrokAuth>)
    ensures
        starting_auth(AuthSnapshot { expired_auth: Some(held), disk_auth: disk }) == Some(held),
        starting_auth(AuthSnapshot { expired_auth: None, disk_auth: disk }) == disk,
{
}

/// A credential can be refreshed exactly where it has a refresh token with
/// something other than whitespace in it, whatever else it holds.
pub proof fn law_blank_refresh_token_is_none(auth: GrokAuth)
    ensures
        refreshable(auth) <==> auth.refresh_token is Some && exists|i: int|
            0 <= i < auth.refresh_token->0@.len() && !text::is_whitespace(
                #[trigger] auth.refresh_token->0@[i],
            ),
{
    if auth.refresh_token is Some {
        text::law_only_whitespace_trims_to_nothing(auth.refresh_token->0@);
    }
}

/// A refresh request presents the refresh token as it is stored.
pub proof fn law_refresh_presents_the_token(client: AnthropicClient, refresh_token: Seq<char>)
    ensures
        ({
            let sent = refresh_members(client, refresh_token);
            &&& sent.len() == 3
            &&& sent[0] == ("grant_type"@, ScalarView::Text("refresh_token"@))
            &&& sent[1] == ("client_id"@, ScalarView::Text(client.client_id@))
            &&& sent[2] == ("refresh_token"@, ScalarView::Text(refresh_token))
        }),
{
}

/// A renewed credential has the new tokens and the time they came, is good for as
/// long as was granted less the margin, and is otherwise the old one.
pub proof fn law_renewal_changes_tokens_and_times_only(
    client: AnthropicClient,
    old: GrokAuth,
    presented: Seq<char>,
    tokens: AnthropicRefreshResponse,
    now: Timestamp,
    new: GrokAuth,
)
    requires
        renewed(client, old, presented, tokens, now, new),
        model::expiry_fits(now, tokens.expires_in, client.expiry_margin_secs),
    ensures
        new.key@ == tokens.access_token@,
        new.refresh_token is Some,
        tokens.refresh_token matches Some(token) ==> new.refresh_token->0@ == token@,
        tokens.refresh_token is None ==> new.refresh_token->0@ == presented,
        new.create_time == now,
        new.expires_at is Some,
        tokens.expires_in is Some && tokens.expires_in->0 <= i64::MAX ==> new.expires_at->0.secs
            == now.secs + tokens.expires_in->0 - client.expiry_margin_secs,
        tokens.expires_in is None ==> new.expires_at->0.secs == now.secs + 3600
            - client.expiry_margin_secs,
        new.expires_at->0.nanos == now.nanos,
        new.provider == SubscriptionProvider::Anthropic,
        new.auth_mode == AuthMode::SubscriptionOauth,
        new.user_id == old.user_id && new.account_id == old.account_id && new.email == old.email,
        new.principal_type == old.principal_type && new.principal_id == old.principal_id,
        new.oidc_issuer == old.oidc_issuer && new.subscription_tier == old.subscription_tier,
        new.other_fields == old.other_fields,
{
}

/// A failure that can be tried again says no more than its message.
pub proof fn law_transient_failure_has_its_message(outcome: RefreshOutcome, message: Seq<char>)
    ensures
        fails_with(outcome, message) <==> outcome is TransientFailure && outcome->message@
            == message,
{
}

} // verus!
