//! Authorization-code login with PKCE and a separate state.

use vstd::prelude::*;
use crate::auth::encoding;
use crate::auth::model;
use crate::auth::model::GrokAuth;
use crate::auth::model::SubscriptionProvider;
use crate::auth::model::Timestamp;
use crate::auth::openai_codex::wire::CodexClient;
use crate::auth::pkce;
use crate::auth::pkce_loopback;
use crate::auth::pkce_loopback::Callback;
use crate::auth::pkce_loopback::LoopbackListener;
use crate::radix64;
use crate::text;

verus! {

/// The secrets of one login.
#[derive(Debug)]
pub struct OpenAiPkce {
    pub code_verifier: String,
    pub code_challenge: String,
    pub state: String,
}

/// The secrets made of 32 random bytes and a state.
pub fn pkce_from_parts(bytes: &[u8; 32], state: String) -> (r: OpenAiPkce)
    ensures
        r.code_verifier@ == radix64::base64_text(bytes@, true),
        pkce::is_pkce_pair(r.code_verifier@, r.code_challenge@),
        r.state@ == state@,
{
    let (code_verifier, code_challenge) = pkce::pkce_pair(bytes);
    OpenAiPkce { code_verifier, code_challenge, state }
}

/// Fresh secrets for one login. The state is a UUID of version 7.
pub fn generate_pkce() -> (r: OpenAiPkce)
    ensures
        exists|bytes: Seq<u8>|
            bytes.len() == 32 && r.code_verifier@ == #[trigger] radix64::base64_text(bytes, true),
        pkce::is_pkce_pair(r.code_verifier@, r.code_challenge@),
        pkce::is_uuid_v7(r.state@),
{
    let bytes: [u8; 32] = pkce::random_bytes();
    let state: String = pkce::new_uuid_v7();
    pkce_from_parts(&bytes, state)
}

/// The authorize URL up to the value of its redirect parameter.
pub open spec fn authorize_head(client: CodexClient) -> Seq<char> {
    client.authorize_url@ + "?response_type=code&client_id="@ + client.client_id@
        + "&redirect_uri="@
}

/// The authorize URL behind the value of its redirect parameter.
pub open spec fn authorize_tail(client: CodexClient, pkce: OpenAiPkce) -> Seq<char> {
    "&scope="@ + encoding::url_encoded(client.scopes@) + "&code_challenge="@ + pkce.code_challenge@
        + "&code_challenge_method=S256&state="@ + pkce.state@
        + "&id_token_add_organizations=true&codex_cli_simplified_flow=true&originator="@
        + client.originator@
}

/// The URL at which the user grants access.
pub open spec fn authorize_text(
    client: CodexClient,
    redirect_uri: Seq<char>,
    pkce: OpenAiPkce,
) -> Seq<char> {
    authorize_head(client) + encoding::url_encoded(redirect_uri) + authorize_tail(client, pkce)
}

/// The URL at which the user grants access.
pub fn build_authorize_url(client: &CodexClient, redirect_uri: &str, pkce: &OpenAiPkce) -> (r:
    String)
    ensures
        r@ == authorize_text(*client, redirect_uri@, *pkce),
{
    let encoded_scopes: String = encoding::url_encode(client.scopes.as_str());
    let encoded_redirect: String = encoding::url_encode(redirect_uri);
    let mut r: String = client.authorize_url.clone();
    r.append("?response_type=code&client_id=");
    r.append(client.client_id.as_str());
    r.append("&redirect_uri=");
    r.append(encoded_redirect.as_str());
    r.append("&scope=");
    r.append(encoded_scopes.as_str());
    r.append("&code_challenge=");
    r.append(pkce.code_challenge.as_str());
    r.append("&code_challenge_method=S256&state=");
    r.append(pkce.state.as_str());
    r.append("&id_token_add_organizations=true&codex_cli_simplified_flow=true&originator=");
    r.append(client.originator.as_str());
    proof {
        assert(r@ =~= authorize_text(*client, redirect_uri@, *pkce));
    }
    r
}

/// Tokens as the token endpoint grants them.
#[derive(Debug)]
pub struct OpenAiTokenResponse {
    pub access_token: String,
    pub refresh_token: Option<String>,
    pub expires_in: Option<u64>,
}

/// The form fields of the token request.
pub open spec fn exchange_fields(
    client: CodexClient,
    code: Seq<char>,
    verifier: Seq<char>,
    redirect_uri: Seq<char>,
) -> Seq<(Seq<char>, Seq<char>)> {
    seq![
        ("grant_type"@, "authorization_code"@),
        ("client_id"@, client.client_id@),
        ("code"@, code),
        ("code_verifier"@, verifier),
        ("redirect_uri"@, redirect_uri),
    ]
}

fn push_field(fields: &mut Vec<(String, String)>, name: &str, value: &str)
    ensures
        pkce_loopback::params_view(final(fields)@) == pkce_loopback::params_view(old(fields)@).push(
            (name@, value@),
        ),
{
    fields.push((name.to_owned(), value.to_owned()));
    proof {
        assert(pkce_loopback::params_view(fields@) =~= pkce_loopback::params_view(
            old(fields)@,
        ).push((name@, value@)));
    }
}

/// The form fields of the request that exchanges the authorization code for
/// tokens.
pub fn exchange_code(client: &CodexClient, code: &str, verifier: &str, redirect_uri: &str) -> (r:
    Vec<(String, String)>)
    ensures
        pkce_loopback::params_view(r@) == exchange_fields(
            *client,
            code@,
            verifier@,
            redirect_uri@,
        ),
{
    let mut fields: Vec<(String, String)> = Vec::new();
    push_field(&mut fields, "grant_type", "authorization_code");
    push_field(&mut fields, "client_id", client.client_id.as_str());
    push_field(&mut fields, "code", code);
    push_field(&mut fields, "code_verifier", verifier);
    push_field(&mut fields, "redirect_uri", redirect_uri);
    proof {
        assert(pkce_loopback::params_view(fields@) =~= exchange_fields(
            *client,
            code@,
            verifier@,
            redirect_uri@,
        ));
    }
    fields
}

/// The message for a token request that was refused.
pub fn exchange_failure(status: &str, body: &str) -> (r: String)
    ensures
        r@ == "OpenAI token exchange failed ("@ + status@ + "): "@ + body@,
{
    let mut r: String = "OpenAI token exchange failed (".to_owned();
    r.append(status);
    r.append("): ");
    r.append(body);
    r
}

/// Begins a login: the redirect that both calls send, and the URL at which the
/// user grants access.
pub fn begin_login(client: &CodexClient, listener: &LoopbackListener, pkce: &OpenAiPkce) -> (r: (
    String,
    String,
))
    ensures
        r.0@ == listener.redirect_text(),
        r.1@ == authorize_text(*client, listener.redirect_text(), *pkce),
{
    let redirect_uri: String = listener.redirect_uri();
    let auth_url: String = build_authorize_url(client, redirect_uri.as_str(), pkce);
    (redirect_uri, auth_url)
}

/// Whether a received state is acceptable: absent, or the expected one.
pub open spec fn state_accepted(received: Seq<char>, expected: Seq<char>) -> bool {
    received.len() == 0 || received == expected
}

/// The token request to send for a callback, unless its state is not the one
/// that was sent.
pub fn accept_callback(
    client: &CodexClient,
    pkce: &OpenAiPkce,
    redirect_uri: &str,
    callback: &Callback,
) -> (r: Result<Vec<(String, String)>, String>)
    ensures
        match r {
            Ok(fields) => state_accepted(callback.state@, pkce.state@)
                && pkce_loopback::params_view(fields@) == exchange_fields(
                *client,
                callback.code@,
                pkce.code_verifier@,
                redirect_uri@,
            ),
            Err(message) => !state_accepted(callback.state@, pkce.state@) && message@
                == "OAuth state mismatch"@,
        },
{
    if !callback.state.as_str().is_empty() && !text::same_text(
        callback.state.as_str(),
        pkce.state.as_str(),
    ) {
        return Err("OAuth state mismatch".to_owned());
    }
    Ok(
        exchange_code(
            client,
            callback.code.as_str(),
            pkce.code_verifier.as_str(),
            redirect_uri,
        ),
    )
}

/// The credential of a login whose tokens were granted at `now`, given the
/// account that the access token names. Without one there is no subscription.
pub fn finish_login(
    client: &CodexClient,
    tokens: OpenAiTokenResponse,
    account_id: Option<String>,
    now: Timestamp,
) -> (r: Result<GrokAuth, String>)
    requires
        account_id is Some ==> model::expiry_fits(
            now,
            tokens.expires_in,
            client.expiry_margin_secs,
        ),
    ensures
        match r {
            Ok(auth) => {
                &&& account_id is Some
                &&& auth.signed_in(
                    SubscriptionProvider::OpenaiCodex,
                    tokens.access_token@,
                    model::text_view(tokens.refresh_token),
                    tokens.expires_in,
                    now,
                    client.expiry_margin_secs,
                )
                &&& auth.user_id@ == account_id->0@
                &&& model::text_view(auth.account_id) == Some(account_id->0@)
            },
            Err(message) => account_id is None && message@
                == "Missing chatgpt_account_id in OpenAI access token. Ensure your account has ChatGPT subscription access."@,
        },
{
    match account_id {
        Some(account_id) => {
            let user_id: String = account_id.clone();
            Ok(
                model::credential(
                    SubscriptionProvider::OpenaiCodex,
                    tokens.access_token,
                    tokens.refresh_token,
                    tokens.expires_in,
                    user_id,
                    Some(account_id),
                    now,
                    client.expiry_margin_secs,
                ),
            )
        },
        None => Err(
            "Missing chatgpt_account_id in OpenAI access token. Ensure your account has ChatGPT subscription access.".to_owned(),
        ),
    }
}

/// The redirect reaches the provider as it is registered: the authorize URL
/// carries it as a parameter value that ends at the next `&` and decodes to
/// it, and the token request carries it unchanged.
pub proof fn law_redirect_reaches_both_calls(
    client: CodexClient,
    pkce: OpenAiPkce,
    redirect_uri: Seq<char>,
    code: Seq<char>,
)
    ensures
        ({
            let value = encoding::url_encoded(redirect_uri);
            let tail = authorize_tail(client, pkce);
            &&& authorize_text(client, redirect_uri, pkce) == authorize_head(client) + value + tail
            &&& encoding::percent_decoded(value) == vstd::utf8::encode_utf8(redirect_uri)
            &&& !value.contains('&') && !value.contains('#') && !value.contains('=')
            &&& tail.len() > 0 && tail[0] == '&'
            &&& exchange_fields(client, code, pkce.code_verifier@, redirect_uri)[4] == (
                "redirect_uri"@,
                redirect_uri,
            )
        }),
{
    let bytes = vstd::utf8::encode_utf8(redirect_uri);
    encoding::law_decoding_undoes_encoding(bytes);
    encoding::law_encoded_value_is_inert(bytes);
    reveal_strlit("&scope=");
    assert(authorize_tail(client, pkce)[0] == "&scope="@[0]);
}

/// The redirect that answers the authorize URL completes the login: its state is
/// the one sent, so it is accepted, and its code reaches the token request as it
/// came.
pub proof fn law_own_redirect_completes_the_login(
    client: CodexClient,
    pkce: OpenAiPkce,
    redirect_uri: Seq<char>,
    code: Seq<char>,
)
    ensures
        ({
            let params = seq![("code"@, code), ("state"@, pkce.state@)];
            let received = pkce_loopback::callback_of_params(params);
            &&& received == Ok::<(Seq<char>, Seq<char>), Seq<char>>((code, pkce.state@))
            &&& state_accepted(pkce.state@, pkce.state@)
            &&& exchange_fields(client, code, pkce.code_verifier@, redirect_uri).contains(
                ("code"@, code),
            )
        }),
{
    pkce_loopback::law_redirect_gives_code_and_state(code, pkce.state@);
    assert(exchange_fields(client, code, pkce.code_verifier@, redirect_uri)[2] == ("code"@, code));
}

/// A state that came back and is not the one sent is refused.
pub proof fn law_only_own_state_is_accepted(pkce: OpenAiPkce, received: Seq<char>)
    requires
        received.len() > 0,
    ensures
        state_accepted(received, pkce.state@) <==> received == pkce.state@,
{
}

/// The authorize URL asks, in this order, for a code grant, for this client, with
/// the redirect and the scopes encoded, with the challenge of the verifier, with
/// the state, and for the simplified flow of this originator.
pub proof fn law_authorize_url_asks_for_everything(
    client: CodexClient,
    redirect_uri: Seq<char>,
    pkce: OpenAiPkce,
)
    ensures
        authorize_text(client, redirect_uri, pkce) == client.authorize_url@
            + "?response_type=code&client_id="@ + client.client_id@ + "&redirect_uri="@
            + encoding::percent_encoded(vstd::utf8::encode_utf8(redirect_uri)) + "&scope="@
            + encoding::percent_encoded(vstd::utf8::encode_utf8(client.scopes@))
            + "&code_challenge="@ + pkce.code_challenge@ + "&code_challenge_method=S256&state="@
            + pkce.state@
            + "&id_token_add_organizations=true&codex_cli_simplified_flow=true&originator="@
            + client.originator@,
{
    assert(authorize_text(client, redirect_uri, pkce) =~= client.authorize_url@
        + "?response_type=code&client_id="@ + client.client_id@ + "&redirect_uri="@
        + encoding::percent_encoded(vstd::utf8::encode_utf8(redirect_uri)) + "&scope="@
        + encoding::percent_encoded(vstd::utf8::encode_utf8(client.scopes@)) + "&code_challenge="@
        + pkce.code_challenge@ + "&code_challenge_method=S256&state="@ + pkce.state@
        + "&id_token_add_organizations=true&codex_cli_simplified_flow=true&originator="@
        + client.originator@);
}

/// The token request presents the code as it came, the verifier and the redirect
/// of the authorize call.
pub proof fn law_token_request_presents_everything(
    client: CodexClient,
    code: Seq<char>,
    verifier: Seq<char>,
    redirect_uri: Seq<char>,
)
    ensures
        ({
            let sent = exchange_fields(client, code, verifier, redirect_uri);
            &&& sent.len() == 5
            &&& sent[0] == ("grant_type"@, "authorization_code"@)
            &&& sent[1] == ("client_id"@, client.client_id@)
            &&& sent[2] == ("code"@, code)
            &&& sent[3] == ("code_verifier"@, verifier)
            &&& sent[4] == ("redirect_uri"@, redirect_uri)
        }),
{
}

/// A callback without a state, as a bare pasted code is, is accepted.
pub proof fn law_missing_state_is_accepted(pkce: OpenAiPkce)
    ensures
        state_accepted(seq![], pkce.state@),
{
}

} // verus!
