//! Stored credentials and the time they are good for.

use vstd::prelude::*;
use crate::auth::anthropic;
use crate::auth::openai_codex;

verus! {

/// A point in time: whole seconds since the Unix epoch, and nanoseconds.
#[derive(Debug, Clone, Copy, PartialEq, Eq, Structural)]
pub struct Timestamp {
    pub secs: i64,
    pub nanos: u32,
}

/// First second of the calendar.
pub const MIN_TIMESTAMP_SECS: i64 = -8_334_601_228_800;

/// Last second of the calendar.
pub const MAX_TIMESTAMP_SECS: i64 = 8_210_266_876_799;

/// Longest span, in seconds, that can be added to a timestamp.
pub const MAX_SPAN_SECS: i64 = 9_223_372_036_854_775;

/// How long, in seconds, a token is taken to last when the reply does not say.
pub const DEFAULT_EXPIRES_IN_SECS: u64 = 3600;

/// Seconds that a token reply grants, as a signed number.
pub open spec fn granted_secs(expires_in: Option<u64>) -> int {
    match expires_in {
        Some(secs) => if secs <= i64::MAX {
            secs as int
        } else {
            secs - 0x1_0000_0000_0000_0000
        },
        None => DEFAULT_EXPIRES_IN_SECS as int,
    }
}

/// Whether the time at which a token is to be renewed is one the calendar has.
pub open spec fn expiry_fits(now: Timestamp, expires_in: Option<u64>, margin_secs: i64) -> bool {
    let span = granted_secs(expires_in) - margin_secs;
    &&& now.nanos < 1_000_000_000
    &&& -MAX_SPAN_SECS <= span <= MAX_SPAN_SECS
    &&& MIN_TIMESTAMP_SECS <= now.secs + span <= MAX_TIMESTAMP_SECS
}

/// The time at which a token is to be renewed: as long after `now` as the
/// reply grants, less the margin.
pub open spec fn expiry(now: Timestamp, expires_in: Option<u64>, margin_secs: i64) -> Timestamp {
    Timestamp {
        secs: (now.secs + granted_secs(expires_in) - margin_secs) as i64,
        nanos: now.nanos,
    }
}

fn granted(expires_in: Option<u64>) -> (r: i64)
    ensures
        r == granted_secs(expires_in),
{
    match expires_in {
        Some(secs) => if secs <= 0x7fff_ffff_ffff_ffff {
            secs as i64
        } else {
            -((u64::MAX - secs) as i64) - 1
        },
        None => DEFAULT_EXPIRES_IN_SECS as i64,
    }
}

/// Whether [`expires_at`] can be told for this reply.
pub fn expiry_is_representable(now: Timestamp, expires_in: Option<u64>, margin_secs: i64) -> (r:
    bool)
    ensures
        r == expiry_fits(now, expires_in, margin_secs),
{
    match granted(expires_in).checked_sub(margin_secs) {
        None => false,
        Some(span) => if now.nanos >= 1_000_000_000 || span > MAX_SPAN_SECS || span
            < -MAX_SPAN_SECS {
            false
        } else {
            match now.secs.checked_add(span) {
                None => false,
                Some(secs) => MIN_TIMESTAMP_SECS <= secs && secs <= MAX_TIMESTAMP_SECS,
            }
        },
    }
}

/// The time at which a token is to be renewed.
pub fn expires_at(now: Timestamp, expires_in: Option<u64>, margin_secs: i64) -> (r: Timestamp)
    requires
        expiry_fits(now, expires_in, margin_secs),
    ensures
        r == expiry(now, expires_in, margin_secs),
{
    let span: i64 = granted(expires_in) - margin_secs;
    Timestamp { secs: now.secs + span, nanos: now.nanos }
}

/// Where a subscription is held.
#[derive(Debug, Clone, Copy, PartialEq, Eq, Structural)]
pub enum SubscriptionProvider {
    Xai,
    Anthropic,
    OpenaiCodex,
}

impl SubscriptionProvider {
    /// The key under which a provider's credential is stored, where it is the
    /// same in every installation.
    pub open spec fn scope(self) -> Option<Seq<char>> {
        match self {
            SubscriptionProvider::Xai => None,
            SubscriptionProvider::Anthropic => Some(anthropic::wire::AUTH_SCOPE@),
            SubscriptionProvider::OpenaiCodex => Some(openai_codex::wire::AUTH_SCOPE@),
        }
    }

    /// The key under which a provider's credential is stored, where it is the
    /// same in every installation.
    pub fn static_auth_scope(self) -> (r: Option<&'static str>)
        ensures
            match r {
                Some(scope) => self.scope() == Some(scope@),
                None => self.scope() is None,
            },
    {
        match self {
            SubscriptionProvider::Xai => None,
            SubscriptionProvider::Anthropic => Some(anthropic::wire::AUTH_SCOPE),
            SubscriptionProvider::OpenaiCodex => Some(openai_codex::wire::AUTH_SCOPE),
        }
    }
}

/// How a credential was obtained.
#[derive(Debug, Clone, Copy, PartialEq, Eq, Structural)]
pub enum AuthMode {
    /// OAuth against a subscription.
    SubscriptionOauth,
    /// Any other way.
    Other,
}

/// A stored credential.
#[derive(Debug, Clone, PartialEq, Eq)]
pub struct GrokAuth {
    pub provider: SubscriptionProvider,
    pub key: String,
    pub auth_mode: AuthMode,
    pub create_time: Timestamp,
    pub user_id: String,
    pub account_id: Option<String>,
    pub refresh_token: Option<String>,
    pub expires_at: Option<Timestamp>,
    pub email: Option<String>,
    pub principal_type: Option<String>,
    pub principal_id: Option<String>,
    pub oidc_issuer: Option<String>,
    pub subscription_tier: Option<String>,
    /// What else is stored with the credential: the name and the JSON text of
    /// each field.
    pub other_fields: Vec<(String, String)>,
}

/// An optional text's characters.
pub open spec fn text_view(text: Option<String>) -> Option<Seq<char>> {
    match text {
        Some(text) => Some(text@),
        None => None,
    }
}

impl GrokAuth {
    /// Whether this is the credential of a sign-in at `now` that was granted
    /// these tokens.
    pub open spec fn signed_in(
        self,
        provider: SubscriptionProvider,
        access_token: Seq<char>,
        refresh_token: Option<Seq<char>>,
        expires_in: Option<u64>,
        now: Timestamp,
        margin_secs: i64,
    ) -> bool {
        &&& self.provider == provider
        &&& self.key@ == access_token
        &&& self.auth_mode == AuthMode::SubscriptionOauth
        &&& self.create_time == now
        &&& text_view(self.refresh_token) == refresh_token
        &&& self.expires_at == Some(expiry(now, expires_in, margin_secs))
        &&& self.email is None
        &&& self.principal_type is None
        &&& self.principal_id is None
        &&& self.oidc_issuer is None
        &&& self.subscription_tier is None
        &&& self.other_fields@.len() == 0
    }
}

/// The credential of a sign-in at `now`.
pub fn credential(
    provider: SubscriptionProvider,
    access_token: String,
    refresh_token: Option<String>,
    expires_in: Option<u64>,
    user_id: String,
    account_id: Option<String>,
    now: Timestamp,
    margin_secs: i64,
) -> (r: GrokAuth)
    requires
        expiry_fits(now, expires_in, margin_secs),
    ensures
        r.signed_in(
            provider,
            access_token@,
            text_view(refresh_token),
            expires_in,
            now,
            margin_secs,
        ),
        r.user_id@ == user_id@,
        text_view(r.account_id) == text_view(account_id),
{
    let expires: Timestamp = expires_at(now, expires_in, margin_secs);
    GrokAuth {
        provider,
        key: access_token,
        auth_mode: AuthMode::SubscriptionOauth,
        create_time: now,
        user_id,
        account_id,
        refresh_token,
        expires_at: Some(expires),
        email: None,
        principal_type: None,
        principal_id: None,
        oidc_issuer: None,
        subscription_tier: None,
        other_fields: Vec::new(),
    }
}

/// A token is renewed as many seconds after now as were granted, less the margin:
/// a second more for each second granted, and none for another. A reply that does
/// not say grants an hour.
pub proof fn law_expiry_counts_from_now(now: Timestamp, granted: u64, margin_secs: i64)
    requires
        expiry_fits(now, Some(granted), margin_secs),
        granted <= i64::MAX,
    ensures
        expiry(now, Some(granted), margin_secs).secs == now.secs + granted - margin_secs,
        expiry(now, Some(granted), margin_secs).nanos == now.nanos,
        expiry_fits(now, None, margin_secs) == expiry_fits(now, Some(3600), margin_secs),
        expiry(now, None, margin_secs) == expiry(now, Some(3600), margin_secs),
{
}

/// A grant beyond what a signed number of seconds can hold wraps round to a
/// negative one.
pub proof fn law_oversized_grant_wraps(now: Timestamp, granted: u64, margin_secs: i64)
    requires
        expiry_fits(now, Some(granted), margin_secs),
        granted > i64::MAX,
    ensures
        expiry(now, Some(granted), margin_secs).secs == now.secs - (u64::MAX - granted) - 1
            - margin_secs,
        expiry(now, Some(granted), margin_secs).nanos == now.nanos,
{
}

/// A grant can be counted exactly where the span and its end are within the
/// calendar's limits.
pub proof fn law_expiry_fits_within_the_calendar(now: Timestamp, granted: u64, margin_secs: i64)
    requires
        granted <= i64::MAX,
        now.nanos < 1_000_000_000,
    ensures
        expiry_fits(now, Some(granted), margin_secs) <==> {
            let end = now.secs + granted - margin_secs;
            &&& granted - margin_secs <= 9_223_372_036_854_775
            &&& margin_secs - granted <= 9_223_372_036_854_775
            &&& -8_334_601_228_800 <= end <= 8_210_266_876_799
        },
{
}

/// The credential of a sign-in holds what was granted and the time of the sign-in,
/// and nothing that was not said.
pub proof fn law_sign_in_keeps_what_was_granted(
    auth: GrokAuth,
    provider: SubscriptionProvider,
    access_token: Seq<char>,
    refresh_token: Option<Seq<char>>,
    granted: u64,
    now: Timestamp,
    margin_secs: i64,
)
    requires
        expiry_fits(now, Some(granted), margin_secs),
        granted <= i64::MAX,
        auth.signed_in(
            provider,
            access_token,
            refresh_token,
            Some(granted),
            now,
            margin_secs,
        ),
    ensures
        auth.provider == provider,
        auth.key@ == access_token,
        auth.auth_mode == AuthMode::SubscriptionOauth,
        auth.create_time == now,
        auth.refresh_token is Some == refresh_token is Some,
        auth.refresh_token is Some ==> auth.refresh_token->0@ == refresh_token->0,
        auth.expires_at is Some,
        auth.expires_at->0.secs - auth.create_time.secs == granted - margin_secs,
        auth.expires_at->0.nanos == auth.create_time.nanos,
        auth.email is None && auth.principal_type is None && auth.principal_id is None,
        auth.oidc_issuer is None && auth.subscription_tier is None,
        auth.other_fields@ == Seq::<(String, String)>::empty(),
{
}

/// The view of an optional text is that text's characters.
pub proof fn law_text_view_is_the_text(text: String)
    ensures
        text_view(Some(text)) == Some(text@),
        text_view(None) is None,
{
}

} // verus!
