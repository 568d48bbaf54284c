//! What the shell tells the pager about who is signed in.

use vstd::prelude::*;
use crate::auth::model;
use crate::auth::model::SubscriptionProvider;
use crate::text;

verus! {

/// Access gate: why the user is blocked and where to go.
#[derive(Debug, Clone)]
pub struct GateInfo {
    pub message: String,
    pub url: Option<String>,
    pub label: Option<String>,
}

/// One provider row for the usage pane.
#[derive(Debug, Clone, PartialEq, Eq)]
pub struct SubscriptionProviderStatus {
    /// Canonical id, also the argument of the login command.
    pub id: String,
    pub display_name: String,
    pub connected: bool,
    /// Plan name when the provider reports one.
    pub tier: Option<String>,
}

/// Typed auth metadata passed from the shell to the pager.
#[derive(Debug, Clone)]
pub struct AuthMeta {
    pub email: Option<String>,
    pub auth_mode: Option<String>,
    /// Team principal when the session is a team login (`None` for personal).
    pub team_id: Option<String>,
    pub team_name: Option<String>,
    pub is_zdr: bool,
    pub team_role: Option<String>,
    /// Defaults to opted-out (safer) until auth meta is populated.
    pub coding_data_retention_opt_out: bool,
    pub show_resolved_model: Option<bool>,
    /// `Some` = user is blocked; `None` = user has access.
    pub gate: Option<GateInfo>,
    /// User-friendly display name for the current subscription tier.
    pub subscription_tier: Option<String>,
    /// Whether feedback may offer a one-shot trace upload.
    pub feedback_trace_offer: bool,
    /// Third-party subscription providers and whether each is signed in.
    pub subscription_providers: Vec<SubscriptionProviderStatus>,
}

impl Default for AuthMeta {
    fn default() -> (r: Self)
        ensures
            r.email is None,
            r.auth_mode is None,
            r.team_id is None,
            r.team_name is None,
            !r.is_zdr,
            r.team_role is None,
            r.coding_data_retention_opt_out,
            r.show_resolved_model is None,
            r.gate is None,
            r.subscription_tier is None,
            !r.feedback_trace_offer,
            r.subscription_providers@.len() == 0,
    {
        AuthMeta {
            email: None,
            auth_mode: None,
            team_id: None,
            team_name: None,
            is_zdr: false,
            team_role: None,
            coding_data_retention_opt_out: true,
            show_resolved_model: None,
            gate: None,
            subscription_tier: None,
            feedback_trace_offer: false,
            subscription_providers: Vec::new(),
        }
    }
}

/// A provider that is enabled in this build.
#[derive(Debug, Clone, PartialEq, Eq)]
pub struct EnabledProvider {
    pub provider: SubscriptionProvider,
    pub id: String,
    pub display_name: String,
    /// Whether its credential is stored and live.
    pub live: bool,
}

/// What a [`SubscriptionProviderStatus`] shows.
pub struct StatusView {
    pub id: Seq<char>,
    pub display_name: Seq<char>,
    pub connected: bool,
    pub tier: Option<Seq<char>>,
}

impl View for SubscriptionProviderStatus {
    type V = StatusView;

    open spec fn view(&self) -> StatusView {
        StatusView {
            id: self.id@,
            display_name: self.display_name@,
            connected: self.connected,
            tier: match self.tier {
                Some(tier) => Some(tier@),
                None => None,
            },
        }
    }
}

/// Each scope that has a credential, with the plan name stored there.
pub open spec fn store_view(store: Seq<(String, Option<String>)>) -> Seq<
    (Seq<char>, Option<Seq<char>>),
> {
    store.map_values(|entry: (String, Option<String>)| (entry.0@, model::text_view(entry.1)))
}

/// The plan name stored under `scope`.
pub open spec fn stored_tier(
    store: Seq<(Seq<char>, Option<Seq<char>>)>,
    scope: Seq<char>,
) -> Option<Seq<char>>
    decreases store.len(),
{
    if store.len() == 0 {
        None
    } else if store[0].0 == scope {
        store[0].1
    } else {
        stored_tier(store.skip(1), scope)
    }
}

/// The row that a provider shows: its plan name is the one stored under its
/// static scope. A blank plan name is no plan name.
pub open spec fn shown(
    enabled: EnabledProvider,
    store: Seq<(Seq<char>, Option<Seq<char>>)>,
) -> StatusView {
    StatusView {
        id: enabled.id@,
        display_name: enabled.display_name@,
        connected: enabled.live,
        tier: match enabled.provider.scope() {
            Some(scope) => match stored_tier(store, scope) {
                Some(tier) => if text::trim(tier).len() > 0 {
                    Some(tier)
                } else {
                    None
                },
                None => None,
            },
            None => None,
        },
    }
}

/// The rows of the third-party providers among those enabled, in order.
pub open spec fn rows(
    enabled: Seq<EnabledProvider>,
    store: Seq<(Seq<char>, Option<Seq<char>>)>,
) -> Seq<StatusView>
    decreases enabled.len(),
{
    if enabled.len() == 0 {
        Seq::empty()
    } else {
        let last = enabled.last();
        if last.provider == SubscriptionProvider::Xai {
            rows(enabled.drop_last(), store)
        } else {
            rows(enabled.drop_last(), store).push(shown(last, store))
        }
    }
}

fn find_tier(store: &Vec<(String, Option<String>)>, scope: &str) -> (r: Option<String>)
    ensures
        model::text_view(r) == stored_tier(store_view(store@), scope@),
{
    let ghost all = store_view(store@);
    let mut i: usize = 0;
    proof {
        assert(all.skip(0) =~= all);
    }
    while i < store.len()
        invariant
            i <= store@.len(),
            all == store_view(store@),
            stored_tier(all, scope@) == stored_tier(all.skip(i as int), scope@),
        decreases store@.len() - i,
    {
        proof {
            assert(all.skip(i as int)[0] == (
                store@[i as int].0@,
                model::text_view(store@[i as int].1),
            ));
            assert(all.skip(i as int).skip(1) =~= all.skip(i + 1));
        }
        if text::same_text(store[i].0.as_str(), scope) {
            return match &store[i].1 {
                Some(tier) => Some(tier.clone()),
                None => None,
            };
        }
        i = i + 1;
    }
    None
}

impl SubscriptionProviderStatus {
    /// Status for each enabled third-party provider.
    ///
    /// Reports *stored credentials*, not remaining quota. `store` holds the plan
    /// name of each stored credential under its scope.
    pub fn detect_all(
        enabled: &Vec<EnabledProvider>,
        store: &Vec<(String, Option<String>)>,
    ) -> (r: Vec<Self>)
        ensures
            r@.map_values(|status: SubscriptionProviderStatus| status@) == rows(
                enabled@,
                store_view(store@),
            ),
    {
        let mut out: Vec<SubscriptionProviderStatus> = Vec::new();
        let n: usize = enabled.len();
        let mut i: usize = 0;
        proof {
            assert(enabled@.take(0) =~= Seq::<EnabledProvider>::empty());
            assert(out@.map_values(|status: SubscriptionProviderStatus| status@) =~= rows(
                enabled@.take(0),
                store_view(store@),
            ));
        }
        while i < n
            invariant
                i <= n,
                n == enabled@.len(),
                out@.map_values(|status: SubscriptionProviderStatus| status@) == rows(
                    enabled@.take(i as int),
                    store_view(store@),
                ),
            decreases n - i,
        {
            let record: &EnabledProvider = &enabled[i];
            let ghost before = out@;
            proof {
                assert(enabled@.take(i + 1).drop_last() =~= enabled@.take(i as int));
                assert(enabled@.take(i + 1).last() == record);
            }
            if record.provider != SubscriptionProvider::Xai {
                let stored: Option<String> = match record.provider.static_auth_scope() {
                    Some(scope) => find_tier(store, scope),
                    None => None,
                };
                let tier: Option<String> = match stored {
                    Some(tier) => if text::trim_text(tier.as_str()).is_empty() {
                        None
                    } else {
                        Some(tier)
                    },
                    None => None,
                };
                let status: SubscriptionProviderStatus = SubscriptionProviderStatus {
                    id: record.id.clone(),
                    display_name: record.display_name.clone(),
                    connected: record.live,
                    tier,
                };
                out.push(status);
                proof {
                    assert(out@.map_values(|status: SubscriptionProviderStatus| status@)
                        =~= before.map_values(
                        |status: SubscriptionProviderStatus| status@,
                    ).push(shown(*record, store_view(store@))));
                }
            }
            i = i + 1;
        }
        proof {
            assert(enabled@.take(n as int) =~= enabled@);
        }
        out
    }
}

/// The plan name under a scope is that of the first credential stored there; a
/// scope without a credential has none.
pub proof fn law_stored_tier_is_the_first_of_its_scope(
    store: Seq<(Seq<char>, Option<Seq<char>>)>,
    scope: Seq<char>,
    i: int,
)
    requires
        0 <= i <= store.len(),
        forall|j: int| 0 <= j < i ==> (#[trigger] store[j]).0 != scope,
        i < store.len() ==> store[i].0 == scope,
    ensures
        i < store.len() ==> stored_tier(store, scope) == store[i].1,
        i == store.len() ==> stored_tier(store, scope) is None,
    decreases i,
{
    if i > 0 {
        let rest = store.skip(1);
        assert(store[0].0 != scope);
        assert forall|j: int| 0 <= j < i - 1 implies (#[trigger] rest[j]).0 != scope by {
            assert(rest[j] == store[j + 1]);
        }
        law_stored_tier_is_the_first_of_its_scope(rest, scope, i - 1);
    }
}

/// Each enabled provider but the built-in one has a row of its own, in order.
pub proof fn law_each_third_party_provider_has_its_row(
    a: Seq<EnabledProvider>,
    b: Seq<EnabledProvider>,
    one: EnabledProvider,
    store: Seq<(Seq<char>, Option<Seq<char>>)>,
)
    ensures
        rows(a + b, store) == rows(a, store) + rows(b, store),
        one.provider == SubscriptionProvider::Xai ==> rows(seq![one], store).len() == 0,
        one.provider != SubscriptionProvider::Xai ==> rows(seq![one], store) == seq![
            shown(one, store),
        ],
    decreases b.len(),
{
    reveal_with_fuel(rows, 2);
    assert(seq![one].drop_last() =~= Seq::<EnabledProvider>::empty());
    if b.len() == 0 {
        assert(a + b =~= a);
        assert(rows(a, store) + rows(b, store) =~= rows(a, store));
    } else {
        law_each_third_party_provider_has_its_row(a, b.drop_last(), one, store);
        assert((a + b).drop_last() =~= a + b.drop_last());
        assert(rows(a + b, store) =~= rows(a, store) + rows(b, store));
    }
}

/// A row shows the provider's own id and name and whether its credential is live,
/// whatever is stored, and the plan name stored under the provider's scope unless
/// that is blank.
pub proof fn law_row_shows_provider_and_stored_plan(
    enabled: EnabledProvider,
    store: Seq<(Seq<char>, Option<Seq<char>>)>,
    i: int,
)
    requires
        enabled.provider.scope() is Some,
        0 <= i <= store.len(),
        forall|j: int| 0 <= j < i ==> (#[trigger] store[j]).0 != enabled.provider.scope()->0,
        i < store.len() ==> store[i].0 == enabled.provider.scope()->0,
    ensures
        ({
            let row = shown(enabled, store);
            &&& row.id == enabled.id@
            &&& row.display_name == enabled.display_name@
            &&& row.connected == enabled.live
            &&& i == store.len() || store[i].1 is None ==> row.tier is None
            &&& i < store.len() && store[i].1 is Some ==> row.tier == (if (forall|k: int|
                0 <= k < store[i].1->0.len() ==> text::is_whitespace(
                    #[trigger] store[i].1->0[k],
                )) {
                None
            } else {
                store[i].1
            })
        }),
{
    law_stored_tier_is_the_first_of_its_scope(store, enabled.provider.scope()->0, i);
    if i < store.len() && store[i].1 is Some {
        text::law_only_whitespace_trims_to_nothing(store[i].1->0);
    }
}

/// The credentials of the two third-party providers are kept apart, and that of
/// the built-in one has no fixed place.
pub proof fn law_scopes_are_apart()
    ensures
        SubscriptionProvider::Xai.scope() is None,
        SubscriptionProvider::Anthropic.scope() == Some("anthropic::oauth"@),
        SubscriptionProvider::OpenaiCodex.scope() == Some("openai-codex::oauth"@),
        SubscriptionProvider::Anthropic.scope() != SubscriptionProvider::OpenaiCodex.scope(),
{
    reveal_strlit("anthropic::oauth");
    reveal_strlit("openai-codex::oauth");
    assert("anthropic::oauth"@.len() != "openai-codex::oauth"@.len());
}

/// The view of a row shows all that it holds.
pub proof fn law_status_view_shows_everything(status: SubscriptionProviderStatus)
    ensures
        status@.id == status.id@,
        status@.display_name == status.display_name@,
        status@.connected == status.connected,
        status@.tier is Some == status.tier is Some,
        status.tier is Some ==> status@.tier->0 == status.tier->0@,
{
}

} // verus!
