//! Authorization-code login with PKCE.

use vstd::prelude::*;
use crate::auth::anthropic::wire::AnthropicClient;
use crate::auth::encoding;
use crate::auth::model;
use crate::auth::model::GrokAuth;
use crate::auth::model::SubscriptionProvider;
use crate::auth::model::Timestamp;
use crate::auth::pkce;
use crate::auth::pkce_loopback;
use crate::auth::pkce_loopback::Callback;
use crate::auth::pkce_loopback::LoopbackListener;
use crate::json::JsonValue;
use crate::json::JsonView;
use crate::json::Scalar;
use crate::json::ScalarView;
use crate::json;
use crate::radix64;
use crate::text;

verus! {

/// The secrets of one login.
#[derive(Debug)]
pub struct AnthropicPkce {
    pub code_verifier: String,
    pub code_challenge: String,
}

/// The secrets made of 32 random bytes.
pub fn pkce_from_bytes(bytes: &[u8; 32]) -> (r: AnthropicPkce)
    ensures
        r.code_verifier@ == radix64::base64_text(bytes@, true),
        pkce::is_pkce_pair(r.code_verifier@, r.code_challenge@),
{
    let (code_verifier, code_challenge) = pkce::pkce_pair(bytes);
    AnthropicPkce { code_verifier, code_challenge }
}

/// Fresh secrets for one login.
pub fn generate_pkce() -> (r: AnthropicPkce)
    ensures
        exists|bytes: Seq<u8>|
            bytes.len() == 32 && r.code_verifier@ == #[trigger] radix64::base64_text(bytes, true),
        pkce::is_pkce_pair(r.code_verifier@, r.code_challenge@),
{
    let bytes: [u8; 32] = pkce::random_bytes();
    pkce_from_bytes(&bytes)
}

/// The authorize URL up to the value of its redirect parameter.
pub open spec fn authorize_head(client: AnthropicClient) -> Seq<char> {
    client.authorize_url@ + "?code=true&response_type=code&client_id="@ + client.client_id@
        + "&redirect_uri="@
}

/// The authorize URL behind the value of its redirect parameter. The state is
/// the verifier itself.
pub open spec fn authorize_tail(client: AnthropicClient, pkce: AnthropicPkce) -> Seq<char> {
    "&scope="@ + encoding::url_encoded(client.scopes@) + "&code_challenge="@ + pkce.code_challenge@
        + "&code_challenge_method=S256&state="@ + pkce.code_verifier@
}

/// The URL at which the user grants access.
pub open spec fn authorize_text(
    client: AnthropicClient,
    redirect_uri: Seq<char>,
    pkce: AnthropicPkce,
) -> Seq<char> {
    authorize_head(client) + encoding::url_encoded(redirect_uri) + authorize_tail(client, pkce)
}

/// The URL at which the user grants access.
pub fn build_authorize_url(
    client: &AnthropicClient,
    redirect_uri: &str,
    pkce: &AnthropicPkce,
) -> (r: String)
    ensures
        r@ == authorize_text(*client, redirect_uri@, *pkce),
{
    let encoded_scopes: String = encoding::url_encode(client.scopes.as_str());
    let encoded_redirect: String = encoding::url_encode(redirect_uri);
    let mut r: String = client.authorize_url.clone();
    r.append("?code=true&response_type=code&client_id=");
    r.append(client.client_id.as_str());
    r.append("&redirect_uri=");
    r.append(encoded_redirect.as_str());
    r.append("&scope=");
    r.append(encoded_scopes.as_str());
    r.append("&code_challenge=");
    r.append(pkce.code_challenge.as_str());
    r.append("&code_challenge_method=S256&state=");
    r.append(pkce.code_verifier.as_str());
    proof {
        assert(r@ =~= authorize_text(*client, redirect_uri@, *pkce));
    }
    r
}

/// Tokens as the token endpoint grants them.
#[derive(Debug)]
pub struct AnthropicTokenResponse {
    pub access_token: String,
    pub refresh_token: Option<String>,
    pub expires_in: Option<u64>,
}

/// `code` up to its first `#`.
pub open spec fn without_state(code: Seq<char>) -> Seq<char> {
    match text::split_once(code, "#"@) {
        Some((head, _)) => head,
        None => code,
    }
}

/// The callback page can render the code as `code#state`; keep only the code.
pub fn strip_state_suffix(code: &str) -> (r: &str)
    ensures
        r@ == without_state(code@),
{
    match text::split_once_text(code, "#") {
        Some((head, _)) => head,
        None => code,
    }
}

/// The body of the token request: a JSON object in which `state` is always
/// present. A bare-code paste carries none; the verifier is the correct value.
pub open spec fn exchange_members(
    client: AnthropicClient,
    code: Seq<char>,
    verifier: Seq<char>,
    state: Seq<char>,
    redirect_uri: Seq<char>,
) -> Seq<(Seq<char>, ScalarView)> {
    seq![
        ("grant_type"@, ScalarView::Text("authorization_code"@)),
        ("client_id"@, ScalarView::Text(client.client_id@)),
        ("code"@, ScalarView::Text(without_state(code))),
        (
            "state"@,
            ScalarView::Text(
                if state.len() == 0 {
                    verifier
                } else {
                    state
                },
            ),
        ),
        ("redirect_uri"@, ScalarView::Text(redirect_uri)),
        ("code_verifier"@, ScalarView::Text(verifier)),
    ]
}

/// The body of the request that exchanges the authorization code for tokens.
///
/// `redirect_uri` must be byte-identical to the authorize call's.
pub fn exchange_code(
    client: &AnthropicClient,
    code: &str,
    verifier: &str,
    state: &str,
    redirect_uri: &str,
) -> (r: JsonValue)
    ensures
        r@ == JsonView::Object(
            exchange_members(*client, code@, verifier@, state@, redirect_uri@),
        ),
{
    let sent_state: &str = if state.is_empty() {
        verifier
    } else {
        state
    };
    let mut members: Vec<(String, Scalar)> = Vec::new();
    json::push_member(
        &mut members,
        "grant_type",
        Scalar::Text("authorization_code".to_owned()),
    );
    json::push_member(&mut members, "client_id", Scalar::Text(client.client_id.clone()));
    json::push_member(&mut members, "code", Scalar::Text(strip_state_suffix(code).to_owned()));
    json::push_member(&mut members, "state", Scalar::Text(sent_state.to_owned()));
    json::push_member(&mut members, "redirect_uri", Scalar::Text(redirect_uri.to_owned()));
    json::push_member(&mut members, "code_verifier", Scalar::Text(verifier.to_owned()));
    proof {
        assert(json::members_view(members@) =~= exchange_members(
            *client,
            code@,
            verifier@,
            state@,
            redirect_uri@,
        ));
    }
    JsonValue::Object(members)
}

/// The message for a token request that was refused.
pub fn exchange_failure(status: &str, body: &str) -> (r: String)
    ensures
        r@ == "Token exchange failed ("@ + status@ + "): "@ + body@,
{
    let mut r: String = "Token exchange failed (".to_owned();
    r.append(status);
    r.append("): ");
    r.append(body);
    r
}

/// Begins a login: the redirect that both calls send, and the URL at which the
/// user grants access.
pub fn begin_login(
    client: &AnthropicClient,
    listener: &LoopbackListener,
    pkce: &AnthropicPkce,
) -> (r: (String, String))
    ensures
        r.0@ == listener.redirect_text(),
        r.1@ == authorize_text(*client, listener.redirect_text(), *pkce),
{
    let redirect_uri: String = listener.redirect_uri();
    let auth_url: String = build_authorize_url(client, redirect_uri.as_str(), pkce);
    (redirect_uri, auth_url)
}

/// Whether a received state is acceptable: absent, or the expected one.
pub open spec fn state_accepted(received: Seq<char>, expected: Seq<char>) -> bool {
    received.len() == 0 || received == expected
}

/// The token request to send for a callback, unless its state is not the one
/// that was sent.
pub fn accept_callback(
    client: &AnthropicClient,
    pkce: &AnthropicPkce,
    redirect_uri: &str,
    callback: &Callback,
) -> (r: Result<JsonValue, String>)
    ensures
        match r {
            Ok(body) => state_accepted(callback.state@, pkce.code_verifier@) && body@
                == JsonView::Object(
                exchange_members(
                    *client,
                    callback.code@,
                    pkce.code_verifier@,
                    callback.state@,
                    redirect_uri@,
                ),
            ),
            Err(message) => !state_accepted(callback.state@, pkce.code_verifier@) && message@
                == "OAuth state mismatch: expected verifier, got "@ + callback.state@,
        },
{
    if !callback.state.as_str().is_empty() && !text::same_text(
        callback.state.as_str(),
        pkce.code_verifier.as_str(),
    ) {
        let mut message: String = "OAuth state mismatch: expected verifier, got ".to_owned();
        message.append(callback.state.as_str());
        return Err(message);
    }
    Ok(
        exchange_code(
            client,
            callback.code.as_str(),
            pkce.code_verifier.as_str(),
            callback.state.as_str(),
            redirect_uri,
        ),
    )
}

/// The credential of a login whose tokens were granted at `now`.
pub fn finish_login(
    client: &AnthropicClient,
    tokens: AnthropicTokenResponse,
    now: Timestamp,
) -> (r: GrokAuth)
    requires
        model::expiry_fits(now, tokens.expires_in, client.expiry_margin_secs),
    ensures
        r.signed_in(
            SubscriptionProvider::Anthropic,
            tokens.access_token@,
            model::text_view(tokens.refresh_token),
            tokens.expires_in,
            now,
            client.expiry_margin_secs,
        ),
        r.user_id@ == Seq::<char>::empty(),
        r.account_id is None,
{
    model::credential(
        SubscriptionProvider::Anthropic,
        tokens.access_token,
        tokens.refresh_token,
        tokens.expires_in,
        String::new(),
        None,
        now,
        client.expiry_margin_secs,
    )
}

/// The redirect reaches the provider as it is registered: the authorize URL
/// carries it as a parameter value that ends at the next `&` and decodes to
/// it, and the token request carries it unchanged.
pub proof fn law_redirect_reaches_both_calls(
    client: AnthropicClient,
    pkce: AnthropicPkce,
    redirect_uri: Seq<char>,
    code: Seq<char>,
    state: Seq<char>,
)
    ensures
        ({
            let value = encoding::url_encoded(redirect_uri);
            let tail = authorize_tail(client, pkce);
            &&& authorize_text(client, redirect_uri, pkce) == authorize_head(client) + value + tail
            &&& encoding::percent_decoded(value) == vstd::utf8::encode_utf8(redirect_uri)
            &&& !value.contains('&') && !value.contains('#') && !value.contains('=')
            &&& tail.len() > 0 && tail[0] == '&'
            &&& exchange_members(client, code, pkce.code_verifier@, state, redirect_uri)[4] == (
                "redirect_uri"@,
                ScalarView::Text(redirect_uri),
            )
        }),
{
    let bytes = vstd::utf8::encode_utf8(redirect_uri);
    encoding::law_decoding_undoes_encoding(bytes);
    encoding::law_encoded_value_is_inert(bytes);
    reveal_strlit("&scope=");
    assert(authorize_tail(client, pkce)[0] == "&scope="@[0]);
}

/// What stands before the first `#` of `code#state` is the code.
pub proof fn law_state_suffix_is_stripped(code: Seq<char>, state: Seq<char>)
    requires
        !code.contains('#'),
    ensures
        without_state(code + "#"@ + state) == code,
        without_state(code) == code,
{
    reveal_strlit("#");
    let whole = code + "#"@ + state;
    let n = code.len() as int;
    assert("#"@ =~= seq!['#']);
    assert(whole.subrange(n, n + 1) =~= "#"@);
    assert forall|j: int| 0 <= j < n implies !text::occurs_at(whole, "#"@, j) by {
        assert(whole.subrange(j, j + 1)[0] == code[j]);
    }
    text::lemma_find_is(whole, "#"@, 0, n);
    assert(whole.take(n) =~= code);
    assert forall|j: int| 0 <= j implies !text::occurs_at(code, "#"@, j) by {
        if j + 1 <= code.len() {
            assert(code.subrange(j, j + 1)[0] == code[j]);
        }
    }
    text::lemma_find_none(code, "#"@, 0);
}

/// The state is the verifier, so a callback that brings back the state that
/// the authorize URL sent is accepted, and one that brings another is not.
pub proof fn law_only_own_state_is_accepted(pkce: AnthropicPkce, received: Seq<char>)
    requires
        received.len() > 0,
    ensures
        state_accepted(received, pkce.code_verifier@) <==> received == pkce.code_verifier@,
{
}

/// The redirect that answers the authorize URL completes the login: its state is
/// the verifier, so it is accepted, and its code reaches the token request as it
/// came.
pub proof fn law_own_redirect_completes_the_login(
    client: AnthropicClient,
    pkce: AnthropicPkce,
    redirect_uri: Seq<char>,
    code: Seq<char>,
)
    requires
        encoding::all_unreserved(code),
    ensures
        ({
            let params = seq![("code"@, code), ("state"@, pkce.code_verifier@)];
            let received = pkce_loopback::callback_of_params(params);
            &&& received == Ok::<(Seq<char>, Seq<char>), Seq<char>>((code, pkce.code_verifier@))
            &&& state_accepted(pkce.code_verifier@, pkce.code_verifier@)
            &&& exchange_members(
                client,
                code,
                pkce.code_verifier@,
                pkce.code_verifier@,
                redirect_uri,
            ).contains(("code"@, ScalarView::Text(code)))
        }),
{
    pkce_loopback::law_redirect_gives_code_and_state(code, pkce.code_verifier@);
    assert(!code.contains('#')) by {
        if code.contains('#') {
            let i = choose|i: int| 0 <= i < code.len() && code[i] == '#';
            assert(encoding::is_unreserved(code[i]));
        }
    }
    law_state_suffix_is_stripped(code, Seq::empty());
    let members = exchange_members(
        client,
        code,
        pkce.code_verifier@,
        pkce.code_verifier@,
        redirect_uri,
    );
    assert(members[2] == ("code"@, ScalarView::Text(code)));
}

/// The authorize URL asks, in this order, for a code to show, for a code grant, for
/// this client, with the redirect and the scopes encoded, with the challenge of the
/// verifier, and with the verifier as its state.
pub proof fn law_authorize_url_asks_for_everything(
    client: AnthropicClient,
    redirect_uri: Seq<char>,
    pkce: AnthropicPkce,
)
    ensures
        authorize_text(client, redirect_uri, pkce) == client.authorize_url@
            + "?code=true&response_type=code&client_id="@ + client.client_id@ + "&redirect_uri="@
            + encoding::percent_encoded(vstd::utf8::encode_utf8(redirect_uri)) + "&scope="@
            + encoding::percent_encoded(vstd::utf8::encode_utf8(client.scopes@))
            + "&code_challenge="@ + pkce.code_challenge@ + "&code_challenge_method=S256&state="@
            + pkce.code_verifier@,
{
    assert(authorize_text(client, redirect_uri, pkce) =~= client.authorize_url@
        + "?code=true&response_type=code&client_id="@ + client.client_id@ + "&redirect_uri="@
        + encoding::percent_encoded(vstd::utf8::encode_utf8(redirect_uri)) + "&scope="@
        + encoding::percent_encoded(vstd::utf8::encode_utf8(client.scopes@)) + "&code_challenge="@
        + pkce.code_challenge@ + "&code_challenge_method=S256&state="@ + pkce.code_verifier@);
}

/// The token request presents the code without what was pasted behind it, the
/// verifier, the redirect of the authorize call, and the state that came back, or
/// the verifier where none did.
pub proof fn law_token_request_presents_everything(
    client: AnthropicClient,
    code: Seq<char>,
    pasted_state: Seq<char>,
    verifier: Seq<char>,
    state: Seq<char>,
    redirect_uri: Seq<char>,
)
    requires
        !code.contains('#'),
    ensures
        ({
            let sent = exchange_members(
                client,
                code + "#"@ + pasted_state,
                verifier,
                state,
                redirect_uri,
            );
            &&& sent == exchange_members(client, code, verifier, state, redirect_uri)
            &&& sent.len() == 6
            &&& sent[0] == ("grant_type"@, ScalarView::Text("authorization_code"@))
            &&& sent[1] == ("client_id"@, ScalarView::Text(client.client_id@))
            &&& sent[2] == ("code"@, ScalarView::Text(code))
            &&& state.len() > 0 ==> sent[3] == ("state"@, ScalarView::Text(state))
            &&& state.len() == 0 ==> sent[3] == ("state"@, ScalarView::Text(verifier))
            &&& sent[4] == ("redirect_uri"@, ScalarView::Text(redirect_uri))
            &&& sent[5] == ("code_verifier"@, ScalarView::Text(verifier))
        }),
{
    law_state_suffix_is_stripped(code, pasted_state);
}

/// A callback without a state, as a bare pasted code is, is accepted.
pub proof fn law_missing_state_is_accepted(pkce: AnthropicPkce)
    ensures
        state_accepted(seq![], pkce.code_verifier@),
{
}

} // verus!
