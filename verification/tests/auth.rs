use shuvgrok::auth::anthropic::login as anthropic;
use shuvgrok::auth::anthropic::refresh::{
    finish_refresh, refresh_credential, AnthropicRefreshResponse, AnthropicRefresher, AuthSnapshot,
    RefreshOutcome, RefreshReply, RefreshStart, RefreshTokenFailedReason,
};
use shuvgrok::auth::anthropic::wire as ant;
use shuvgrok::auth::anthropic::wire::AnthropicClient;
use shuvgrok::auth::meta::{AuthMeta, EnabledProvider, SubscriptionProviderStatus};
use shuvgrok::auth::model::{
    expires_at, expiry_is_representable, AuthMode, GrokAuth, SubscriptionProvider, Timestamp,
};
use shuvgrok::auth::oidc::login as oidc;
use shuvgrok::auth::oidc::login::{OidcError, OidcEvent, OidcPhase};
use shuvgrok::auth::openai_codex::login as openai;
use shuvgrok::auth::openai_codex::wire as codex;
use shuvgrok::auth::openai_codex::wire::CodexClient;
use shuvgrok::auth::pkce_loopback::{
    browser_open_likely_available_from_env, callback_page, callback_response, client_paste,
    next_wait, parse_callback_params, parse_paste_with, parse_pasted_input, race_outcome, stdin_line,
    BindPlan, Callback, LoopbackListener, LoopbackPort, PasteSource, PasteStep, RaceEvent, WaitStep,
    AUTH_CALLBACK_TIMEOUT_SECS, LOOPBACK_PORT_OVERRIDE_ENV,
};
use shuvgrok::json::{JsonValue, Scalar};

fn callback(code: &str, state: &str) -> Callback {
    Callback {
        code: code.into(),
        state: state.into(),
    }
}

fn pairs(list: &[(&str, &str)]) -> Vec<(String, String)> {
    list.iter()
        .map(|(name, value)| (name.to_string(), value.to_string()))
        .collect()
}

fn texts(list: &[(&str, &str)]) -> JsonValue {
    JsonValue::Object(
        list.iter()
            .map(|(name, value)| (name.to_string(), Scalar::Text(value.to_string())))
            .collect(),
    )
}

fn provider() -> AnthropicClient {
    AnthropicClient {
        authorize_url: "https://provider.example/authorize".into(),
        token_url: "https://provider.example/token".into(),
        client_id: "client-1".into(),
        scopes: "a:b c".into(),
        expiry_margin_secs: 300,
    }
}

fn chatgpt() -> CodexClient {
    CodexClient {
        authorize_url: "https://openai.example/authorize".into(),
        token_url: "https://openai.example/token".into(),
        client_id: "client-2".into(),
        scopes: "openid email".into(),
        originator: "cli".into(),
        expiry_margin_secs: 300,
    }
}

fn now() -> Timestamp {
    Timestamp {
        secs: 1_000_000,
        nanos: 7,
    }
}

#[test]
fn parse_pasted_input_matrix() {
    let ok_cases: &[(&str, &str, &str)] = &[
        (
            "http://127.0.0.1:54321/callback?code=abc123&state=xyz789",
            "abc123",
            "xyz789",
        ),
        ("abc123def456", "abc123def456", ""),
    ];
    for (input, code, state) in ok_cases {
        let cb = oidc::parse_pasted_input(input)
            .unwrap_or_else(|e| panic!("parse {input:?} failed: {e:?}"));
        assert_eq!(cb.code, *code, "code for {input:?}");
        assert_eq!(cb.state, *state, "state for {input:?}");
    }

    let err_cases: &[(&str, &str)] = &[
        (
            "http://127.0.0.1:54321/callback?error=access_denied&error_description=User+denied",
            "access_denied",
        ),
        ("", ""),
        ("   ", ""),
    ];
    for (input, expected_substr) in err_cases {
        let err = oidc::parse_pasted_input(input).unwrap_err();
        if !expected_substr.is_empty() {
            assert!(
                err.detail().contains(expected_substr),
                "input {input:?} -> unexpected err: {err:?}"
            );
        }
    }
}

#[test]
fn provider_callback_constants_match_registered_values() {
    assert_eq!(ant::CALLBACK_URL, "http://localhost:53692/callback");
    assert_eq!(ant::CALLBACK_PORT, 53692);
    assert_eq!(ant::CALLBACK_PATH, "/callback");

    assert_eq!(codex::CALLBACK_URL, "http://localhost:1455/auth/callback");
    assert_eq!(codex::CALLBACK_PORT, 1455);
    assert_eq!(codex::CALLBACK_PATH, "/auth/callback");

    assert_eq!(
        ant::CALLBACK_URL,
        format!(
            "http://localhost:{}{}",
            ant::CALLBACK_PORT,
            ant::CALLBACK_PATH
        )
    );
    assert_eq!(
        codex::CALLBACK_URL,
        format!(
            "http://localhost:{}{}",
            codex::CALLBACK_PORT,
            codex::CALLBACK_PATH
        )
    );
    assert_eq!(ant::AUTH_SCOPE, "anthropic::oauth");
    assert_eq!(codex::AUTH_SCOPE, "openai-codex::oauth");
}

#[test]
fn parse_pasted_input_full_url() {
    let input = "http://127.0.0.1:53692/callback?code=abc123code&state=verifier123";
    let res = parse_pasted_input(input).unwrap();
    assert_eq!(res.code, "abc123code");
    assert_eq!(res.state, "verifier123");
}

#[test]
fn parse_pasted_input_hash_format() {
    let input = "abc123code#verifier123";
    let res = parse_pasted_input(input).unwrap();
    assert_eq!(res.code, "abc123code");
    assert_eq!(res.state, "verifier123");
}

#[test]
fn parse_pasted_input_bare_code() {
    let input = "bare-code-12345";
    let res = parse_pasted_input(input).unwrap();
    assert_eq!(res.code, "bare-code-12345");
    assert_eq!(res.state, "");
}

#[test]
fn parse_pasted_input_openai_localhost_callback() {
    let input = "http://localhost:1455/auth/callback?code=abc123code&state=state-uuid";
    let res = parse_pasted_input(input).unwrap();
    assert_eq!(res.code, "abc123code");
    assert_eq!(res.state, "state-uuid");
}

#[test]
fn linux_without_display_is_headless() {
    assert!(browser_open_likely_available_from_env(true, None, None, None));
    assert!(!browser_open_likely_available_from_env(false, None, None, None));
    assert!(!browser_open_likely_available_from_env(
        false,
        Some(""),
        Some(""),
        Some("")
    ));
    assert!(browser_open_likely_available_from_env(
        false,
        None,
        Some(":0"),
        None
    ));
    assert!(browser_open_likely_available_from_env(
        false,
        None,
        None,
        Some("wayland-0")
    ));
    assert!(browser_open_likely_available_from_env(
        false,
        Some("firefox"),
        None,
        None
    ));
}

#[test]
fn fixed_loopback_sends_registered_redirect_verbatim() {
    let fixed = LoopbackPort::Fixed {
        port: 0,
        path: "/callback",
        redirect_uri: "http://localhost:53692/callback",
    };
    for attempt in [Ok(40000), Err("in use".to_string())] {
        let paste_only = attempt.is_err();
        let listener = LoopbackListener::bind(BindPlan::new(fixed, None), attempt).expect("bind");
        assert_eq!(listener.redirect_uri(), "http://localhost:53692/callback");
        assert_eq!(listener.is_paste_only(), paste_only);
    }
    let plan = BindPlan::new(LoopbackPort::Ephemeral, None);
    assert_eq!(plan.port, 0);
    let derived = LoopbackListener::bind(plan, Ok(40001)).expect("bind").redirect_uri();
    assert_eq!(derived, "http://127.0.0.1:40001/callback");
    assert_eq!(
        LoopbackListener::bind(plan, Err("no".into())).unwrap_err(),
        "no"
    );
}

#[test]
fn override_repoints_the_listener() {
    let fixed = LoopbackPort::Fixed {
        port: 1455,
        path: "/auth/callback",
        redirect_uri: "http://localhost:1455/auth/callback",
    };
    let plan = BindPlan::new(fixed, Some("9999"));
    assert_eq!(plan.port, 9999);
    let listener = LoopbackListener::bind(plan, Ok(9999)).unwrap();
    assert_eq!(listener.redirect_uri(), "http://127.0.0.1:9999/auth/callback");
    for ignored in ["", "x", "70000", "-1"] {
        assert_eq!(BindPlan::new(fixed, Some(ignored)).port, 1455);
    }
    assert_eq!(BindPlan::new(LoopbackPort::Ephemeral, Some("+80")).port, 80);
    assert_eq!(LOOPBACK_PORT_OVERRIDE_ENV, "GROK_OAUTH_LOOPBACK_PORT_OVERRIDE");
    assert_eq!(AUTH_CALLBACK_TIMEOUT_SECS, 600);
}

#[test]
fn pasted_urls_are_decoded_and_errors_described() {
    assert_eq!(
        parse_pasted_input("  http://localhost/cb?code=a%2Bb&state=c+d \n"),
        Ok(callback("a+b", "c d"))
    );
    assert_eq!(
        parse_pasted_input("http://localhost/cb?code=1&code=2"),
        Ok(callback("2", ""))
    );
    assert_eq!(
        parse_pasted_input("http://localhost/cb?error=denied"),
        Err("denied".into())
    );
    assert_eq!(
        parse_pasted_input("http://localhost/cb?error=denied&error_description=User+said+no"),
        Err("denied: User said no".into())
    );
    assert_eq!(
        parse_pasted_input("http://localhost/cb?x=1"),
        Err("URL has no 'code' query parameter".into())
    );
    assert_eq!(parse_pasted_input(" \t"), Err("empty input".into()));
    assert_eq!(parse_pasted_input("#state"), Ok(callback("#state", "")));
    assert_eq!(parse_pasted_input(" a # b "), Ok(callback("a", "b")));
    assert_eq!(
        parse_paste_with("ignored", Some(pairs(&[("code", "c"), ("state", "s")]))),
        Ok(callback("c", "s"))
    );
    assert_eq!(parse_paste_with("c#s#t", None), Ok(callback("c", "s#t")));
}

#[test]
fn callback_params() {
    assert_eq!(
        parse_callback_params(&pairs(&[("code", "c"), ("state", "s")])),
        Ok(callback("c", "s"))
    );
    assert_eq!(
        parse_callback_params(&pairs(&[("code", "c"), ("code", "d")])),
        Ok(callback("d", ""))
    );
    assert_eq!(parse_callback_params(&pairs(&[])), Err("".into()));
    assert_eq!(
        parse_callback_params(&pairs(&[("error", "e"), ("error_description", "d")])),
        Err("e: d".into())
    );
}

fn expected_page(title: &str, message: &str, icon: &str) -> String {
    format!(
        r#"<!DOCTYPE html>
<html lang="en">
<head>
<meta charset="utf-8"/>
<meta name="viewport" content="width=device-width,initial-scale=1"/>
<meta name="color-scheme" content="light dark"/>
<title>{title}</title>
<style>
  *{{margin:0;padding:0;box-sizing:border-box}}
  body{{font-family:-apple-system,BlinkMacSystemFont,"Segoe UI",Roboto,Helvetica,Arial,sans-serif;
    display:flex;align-items:center;justify-content:center;min-height:100vh;
    background:#0a0a0a;color:#e5e5e5}}
  .card{{text-align:center;display:flex;flex-direction:column;align-items:center;gap:16px;padding:48px}}
  h1{{font-size:18px;font-weight:600}}
  p{{font-size:14px;color:#a3a3a3}}
  @media(prefers-color-scheme:light){{
    body{{background:#fafafa;color:#171717}}
    p{{color:#525252}}
  }}
</style>
</head>
<body>
  <div class="card">
    {icon}
    <h1>{title}</h1>
    <p>{message}</p>
  </div>
</body>
</html>"#
    )
}

#[test]
fn paste_agrees_with_loopback() {
    for params in [
        pairs(&[("code", "c"), ("state", "s")]),
        pairs(&[("state", "s"), ("code", "c")]),
        pairs(&[("error", "e")]),
        pairs(&[("error", "e"), ("error_description", "d")]),
    ] {
        assert_eq!(
            parse_paste_with("x", Some(params.clone())),
            parse_callback_params(&params)
        );
    }
}

#[test]
fn callback_pages() {
    assert_eq!(
        callback_page("T", "M", true),
        expected_page(
            "T",
            "M",
            r#"<svg xmlns="http://www.w3.org/2000/svg" width="48" height="48" fill="none" viewBox="0 0 24 24" stroke="currentColor" stroke-width="2"><path stroke-linecap="round" stroke-linejoin="round" d="M5 13l4 4L19 7" /></svg>"#
        )
    );
    assert_eq!(
        callback_page("A", "B", false),
        expected_page(
            "A",
            "B",
            r#"<svg width="48" height="48" viewBox="0 0 24 24" fill="none" stroke="currentColor" stroke-width="1.5" stroke-linecap="round" stroke-linejoin="round" style="color:#ef4444"><circle cx="12" cy="12" r="10"/><line x1="15" y1="9" x2="9" y2="15"/><line x1="9" y1="9" x2="15" y2="15"/></svg>"#
        )
    );
    let (status, denied) = callback_response(&Err("x".into()));
    assert_eq!(status, 200);
    assert_eq!(
        denied,
        callback_page("Access denied", "Close this window and try again.", false)
    );
    assert!(denied.contains("<circle cx=\"12\" cy=\"12\" r=\"10\"/>"));
    let (status, signed_in) = callback_response(&Ok(callback("c", "")));
    assert_eq!(status, 200);
    assert_eq!(
        signed_in,
        callback_page(
            "Signed in",
            "You can close this window and return to the application.",
            true
        )
    );
}

#[test]
fn stdin_and_client_pastes() {
    assert_eq!(stdin_line("  \n"), PasteStep::Ignore);
    assert_eq!(stdin_line("abc\n"), PasteStep::Deliver(callback("abc", "")));
    assert_eq!(
        stdin_line("http://localhost/?x=1"),
        PasteStep::Retry(
            "  Invalid input: URL has no 'code' query parameter. Try again:".into()
        )
    );
    assert_eq!(client_paste("c#s"), Some(callback("c", "s")));
    assert_eq!(client_paste("http://localhost/?error=no"), None);
    assert_eq!(client_paste(""), None);
}

#[test]
fn no_wait_exceeds_ten_minutes() {
    let limit: u64 = AUTH_CALLBACK_TIMEOUT_SECS * 1_000_000_000;
    for pastes_open in [true, false] {
        for elapsed in [0, 1, limit / 2, limit - 1] {
            assert_eq!(
                next_wait(elapsed, pastes_open),
                WaitStep::Wait {
                    nanos: limit - elapsed,
                    for_pastes: pastes_open
                }
            );
        }
        for elapsed in [limit, u64::MAX] {
            assert_eq!(next_wait(elapsed, pastes_open), WaitStep::GiveUp);
        }
    }
}

#[test]
fn race_outcomes() {
    assert_eq!(
        race_outcome(PasteSource::ClientUi, RaceEvent::TimedOut),
        Err("Timed out waiting for authentication".into())
    );
    assert_eq!(
        race_outcome(PasteSource::Stdin, RaceEvent::TimedOut),
        Err("Timed out waiting for authentication code".into())
    );
    assert_eq!(
        race_outcome(PasteSource::Stdin, RaceEvent::ChannelClosed),
        Err("Authentication callback channel closed".into())
    );
    assert_eq!(
        race_outcome(PasteSource::Stdin, RaceEvent::Received(Err("e".into()))),
        Err("Authentication failed: e".into())
    );
    assert_eq!(
        race_outcome(PasteSource::ClientUi, RaceEvent::Received(Ok(callback("c", "s")))),
        Ok(callback("c", "s"))
    );
}

#[test]
fn known_challenge() {
    let pkce = anthropic::pkce_from_bytes(&[0u8; 32]);
    assert_eq!(pkce.code_verifier, "A".repeat(43));
    assert_eq!(
        pkce.code_challenge,
        base64::Engine::encode(
            &base64::engine::general_purpose::URL_SAFE_NO_PAD,
            <sha2::Sha256 as sha2::Digest>::digest("A".repeat(43).as_bytes())
        )
    );
    let pkce = openai::pkce_from_parts(&[255u8; 32], "s".into());
    assert_eq!(pkce.code_verifier, format!("{}8", "_".repeat(42)));
    assert_eq!(pkce.state, "s");
}

#[test]
fn challenge_of_the_published_example() {
    let bytes: [u8; 32] = [
        116, 24, 223, 180, 151, 153, 224, 37, 79, 250, 96, 125, 216, 173, 187, 186, 22, 212, 37,
        77, 105, 214, 191, 240, 91, 88, 5, 88, 83, 132, 141, 121,
    ];
    let pkce = anthropic::pkce_from_bytes(&bytes);
    assert_eq!(
        pkce.code_verifier,
        "dBjftJeZ4CVP-mB92K27uhbUJU1p1r_wW1gFWFOEjXk"
    );
    assert_eq!(
        pkce.code_challenge,
        "E9Melhoa2OwvFrEMTJguCHaoeK1t8URWbuGJSstw-cM"
    );
}

#[test]
fn fresh_secrets() {
    let a = anthropic::generate_pkce();
    let b = anthropic::generate_pkce();
    assert_ne!(a.code_verifier, b.code_verifier);
    assert_eq!(a.code_verifier.len(), 43);
    assert_eq!(a.code_challenge.len(), 43);
    let c = openai::generate_pkce();
    assert_eq!(c.state.len(), 36);
    assert_eq!(&c.state[14..15], "7");
    assert_ne!(c.state, openai::generate_pkce().state);
}

#[test]
fn anthropic_authorize_url() {
    let pkce = anthropic::AnthropicPkce {
        code_verifier: "ver".into(),
        code_challenge: "cha".into(),
    };
    assert_eq!(
        anthropic::build_authorize_url(&provider(), ant::CALLBACK_URL, &pkce),
        "https://provider.example/authorize?code=true&response_type=code&client_id=client-1\
         &redirect_uri=http%3A%2F%2Flocalhost%3A53692%2Fcallback&scope=a%3Ab%20c\
         &code_challenge=cha&code_challenge_method=S256&state=ver"
    );
    let listener = LoopbackListener::PasteOnly {
        port: ant::CALLBACK_PORT,
        path: ant::CALLBACK_PATH,
        registered_redirect: Some(ant::CALLBACK_URL),
        reason: "in use".into(),
    };
    let (redirect, url) = anthropic::begin_login(&provider(), &listener, &pkce);
    assert_eq!(redirect, ant::CALLBACK_URL);
    assert_eq!(
        url,
        anthropic::build_authorize_url(&provider(), ant::CALLBACK_URL, &pkce)
    );
}

#[test]
fn anthropic_token_request() {
    assert_eq!(anthropic::strip_state_suffix("code#state"), "code");
    assert_eq!(anthropic::strip_state_suffix("code"), "code");
    let body = |state: &str| {
        texts(&[
            ("grant_type", "authorization_code"),
            ("client_id", "client-1"),
            ("code", "code"),
            ("state", state),
            ("redirect_uri", "http://r"),
            ("code_verifier", "ver"),
        ])
    };
    assert_eq!(
        anthropic::exchange_code(&provider(), "code#x", "ver", "st", "http://r"),
        body("st")
    );
    assert_eq!(
        anthropic::exchange_code(&provider(), "code", "ver", "", "http://r"),
        body("ver")
    );
    let pkce = anthropic::AnthropicPkce {
        code_verifier: "ver".into(),
        code_challenge: "cha".into(),
    };
    assert_eq!(
        anthropic::accept_callback(&provider(), &pkce, "http://r", &callback("code", "ver")),
        Ok(body("ver"))
    );
    assert_eq!(
        anthropic::accept_callback(&provider(), &pkce, "http://r", &callback("code", "")),
        Ok(body("ver"))
    );
    assert_eq!(
        anthropic::accept_callback(&provider(), &pkce, "http://r", &callback("code", "other")),
        Err("OAuth state mismatch: expected verifier, got other".into())
    );
    assert_eq!(
        anthropic::exchange_failure("400 Bad Request", "no"),
        "Token exchange failed (400 Bad Request): no"
    );
}

#[test]
fn anthropic_credential() {
    let auth = anthropic::finish_login(
        &provider(),
        anthropic::AnthropicTokenResponse {
            access_token: "at".into(),
            refresh_token: Some("rt".into()),
            expires_in: Some(1000),
        },
        now(),
    );
    assert_eq!(auth.provider, SubscriptionProvider::Anthropic);
    assert_eq!(auth.key, "at");
    assert_eq!(auth.user_id, "");
    assert_eq!(auth.auth_mode, AuthMode::SubscriptionOauth);
    assert_eq!(
        auth.expires_at,
        Some(Timestamp {
            secs: 1_000_700,
            nanos: 7
        })
    );
    assert_eq!(auth.refresh_token.as_deref(), Some("rt"));
}

#[test]
fn openai_login() {
    let pkce = openai::OpenAiPkce {
        code_verifier: "ver".into(),
        code_challenge: "cha".into(),
        state: "st".into(),
    };
    assert_eq!(
        openai::build_authorize_url(&chatgpt(), codex::CALLBACK_URL, &pkce),
        "https://openai.example/authorize?response_type=code&client_id=client-2\
         &redirect_uri=http%3A%2F%2Flocalhost%3A1455%2Fauth%2Fcallback&scope=openid%20email\
         &code_challenge=cha&code_challenge_method=S256&state=st\
         &id_token_add_organizations=true&codex_cli_simplified_flow=true&originator=cli"
    );
    let listener = LoopbackListener::Bound {
        port: 1455,
        path: codex::CALLBACK_PATH,
        registered_redirect: None,
    };
    assert_eq!(
        openai::begin_login(&chatgpt(), &listener, &pkce).0,
        "http://127.0.0.1:1455/auth/callback"
    );
    let fields = pairs(&[
        ("grant_type", "authorization_code"),
        ("client_id", "client-2"),
        ("code", "c"),
        ("code_verifier", "ver"),
        ("redirect_uri", "http://r"),
    ]);
    for state in ["", "st"] {
        assert_eq!(
            openai::accept_callback(&chatgpt(), &pkce, "http://r", &callback("c", state)),
            Ok(fields.clone())
        );
    }
    assert_eq!(
        openai::accept_callback(&chatgpt(), &pkce, "http://r", &callback("c", "other")),
        Err("OAuth state mismatch".into())
    );
    assert_eq!(
        openai::exchange_failure("500", "b"),
        "OpenAI token exchange failed (500): b"
    );
}

#[test]
fn openai_credential_needs_an_account() {
    let tokens = || openai::OpenAiTokenResponse {
        access_token: "at".into(),
        refresh_token: None,
        expires_in: None,
    };
    let auth = openai::finish_login(&chatgpt(), tokens(), Some("acc".into()), now()).unwrap();
    assert_eq!(auth.provider, SubscriptionProvider::OpenaiCodex);
    assert_eq!(auth.user_id, "acc");
    assert_eq!(auth.account_id.as_deref(), Some("acc"));
    assert_eq!(auth.expires_at.unwrap().secs, 1_003_300);
    assert_eq!(
        openai::finish_login(&chatgpt(), tokens(), None, now()).unwrap_err(),
        "Missing chatgpt_account_id in OpenAI access token. Ensure your account has ChatGPT subscription access."
    );
}

fn stored(refresh_token: Option<&str>) -> GrokAuth {
    GrokAuth {
        provider: SubscriptionProvider::Anthropic,
        key: "old".into(),
        auth_mode: AuthMode::Other,
        create_time: now(),
        user_id: "u".into(),
        account_id: Some("acc".into()),
        refresh_token: refresh_token.map(str::to_owned),
        expires_at: None,
        email: Some("e".into()),
        principal_type: None,
        principal_id: None,
        oidc_issuer: None,
        subscription_tier: Some("pro".into()),
        other_fields: pairs(&[("team_id", "\"t\"")]),
    }
}

#[test]
fn refresh_needs_a_token() {
    let nothing = AnthropicRefresher::for_manager(None, None).begin(&provider());
    assert!(matches!(
        nothing,
        RefreshStart::Done(RefreshOutcome::PermanentFailure {
            error: RefreshTokenFailedReason::RefreshTokenRejected,
            tried_key: None,
            tried_refresh_token: None,
        })
    ));
    for token in [None, Some("  ")] {
        let blank = AnthropicRefresher::new(AuthSnapshot {
            expired_auth: Some(stored(token)),
            disk_auth: Some(stored(Some("rt"))),
        })
        .begin(&provider());
        match blank {
            RefreshStart::Done(RefreshOutcome::PermanentFailure { tried_key, .. }) => {
                assert_eq!(tried_key.as_deref(), Some("old"))
            }
            other => panic!("unexpected {other:?}"),
        }
    }
    match AnthropicRefresher::for_manager(None, Some(stored(Some("rt")))).begin(&provider()) {
        RefreshStart::Send {
            refresh_token,
            body,
            ..
        } => {
            assert_eq!(refresh_token, "rt");
            assert_eq!(
                body,
                texts(&[
                    ("grant_type", "refresh_token"),
                    ("client_id", "client-1"),
                    ("refresh_token", "rt"),
                ])
            );
        }
        other => panic!("unexpected {other:?}"),
    }
}

fn finish(reply: RefreshReply) -> RefreshOutcome {
    finish_refresh(&provider(), stored(Some("rt")), "rt".into(), reply)
}

fn transient(outcome: RefreshOutcome) -> String {
    match outcome {
        RefreshOutcome::TransientFailure { message } => message,
        other => panic!("unexpected {other:?}"),
    }
}

#[test]
fn refresh_failures() {
    assert_eq!(
        transient(finish(RefreshReply::NoClient("x".into()))),
        "Failed to build HTTP client: x"
    );
    assert_eq!(
        transient(finish(RefreshReply::NetworkError("x".into()))),
        "Anthropic refresh network error: x"
    );
    assert_eq!(
        transient(finish(RefreshReply::Unreadable("x".into()))),
        "Failed to parse Anthropic refresh response: x"
    );
    let refused = |code: u16| {
        finish(RefreshReply::Refused {
            code,
            status: format!("{code} Oops"),
            body: "b".into(),
        })
    };
    assert_eq!(
        transient(refused(503)),
        "Anthropic refresh HTTP error (503 Oops): b"
    );
    for code in [400, 401] {
        match refused(code) {
            RefreshOutcome::PermanentFailure {
                tried_key,
                tried_refresh_token,
                ..
            } => {
                assert_eq!(tried_key.as_deref(), Some("old"));
                assert_eq!(tried_refresh_token.as_deref(), Some("rt"));
            }
            other => panic!("unexpected {other:?}"),
        }
    }
    assert_eq!(
        refresh_credential(refused(401), "token rejected").unwrap_err(),
        "Refresh failed: token rejected"
    );
    assert_eq!(
        refresh_credential(refused(503), "").unwrap_err(),
        "Refresh failed: Anthropic refresh HTTP error (503 Oops): b"
    );
}

#[test]
fn refresh_keeps_what_it_can() {
    for (sent, kept) in [(None, "rt"), (Some("new"), "new")] {
        let outcome = finish(RefreshReply::Granted {
            tokens: AnthropicRefreshResponse {
                access_token: "fresh".into(),
                refresh_token: sent.map(str::to_owned),
                expires_in: Some(600),
            },
            now: now(),
        });
        let auth = refresh_credential(outcome, "").unwrap();
        assert_eq!(auth.key, "fresh");
        assert_eq!(auth.refresh_token.as_deref(), Some(kept));
        assert_eq!(auth.user_id, "u");
        assert_eq!(auth.account_id.as_deref(), Some("acc"));
        assert_eq!(auth.email.as_deref(), Some("e"));
        assert_eq!(auth.subscription_tier.as_deref(), Some("pro"));
        assert_eq!(auth.other_fields, pairs(&[("team_id", "\"t\"")]));
        assert_eq!(auth.auth_mode, AuthMode::SubscriptionOauth);
        assert_eq!(auth.expires_at.unwrap().secs, 1_000_300);
    }
}

#[test]
fn expiry_follows_the_calendar() {
    assert_eq!(expires_at(now(), None, 300).secs, 1_003_300);
    assert_eq!(expires_at(now(), Some(u64::MAX), 0).secs, 999_999);
    let max = chrono::DateTime::<chrono::Utc>::MAX_UTC.timestamp();
    let min = chrono::DateTime::<chrono::Utc>::MIN_UTC.timestamp();
    let at = |secs: i64| Timestamp { secs, nanos: 0 };
    assert!(expiry_is_representable(at(max), Some(0), 0));
    assert!(!expiry_is_representable(at(max), Some(1), 0));
    assert!(expiry_is_representable(at(min), Some(0), 0));
    assert!(!expiry_is_representable(at(min), Some(0), 1));
    assert!(!expiry_is_representable(now(), Some(i64::MAX as u64), 0));
    assert!(!expiry_is_representable(now(), Some(0), i64::MIN));
}

#[test]
fn oidc_decisions() {
    assert_eq!(
        oidc::parse_pasted_input(" "),
        Err(OidcError::InvalidPastedInput("empty input".into()))
    );
    assert_eq!(
        oidc::parse_pasted_input("http://localhost/?x=1"),
        Err(OidcError::InvalidPastedInput(
            "URL has no 'code' query parameter".into()
        ))
    );
    assert_eq!(
        oidc::parse_pasted_input("http://localhost/?error=e"),
        Err(OidcError::CallbackAuthFailed("e".into()))
    );
    match oidc::loopback_mode(true) {
        LoopbackPort::Fixed {
            port,
            path,
            redirect_uri,
        } => {
            assert_eq!(port, 56121);
            assert_eq!(path, "/callback");
            assert_eq!(redirect_uri, "http://127.0.0.1:56121/callback");
        }
        other => panic!("unexpected {other:?}"),
    }
    assert!(matches!(oidc::loopback_mode(false), LoopbackPort::Ephemeral));
    assert_eq!(oidc::provider_label("https://own", "https://own"), "Grok");
    assert_eq!(oidc::provider_label("https://idp", "https://own"), "https://idp");
    assert!(oidc::reads_stdin(false, true));
    assert!(!oidc::reads_stdin(true, true));
    assert!(!oidc::reads_stdin(false, false));
    assert_eq!(oidc::check_state("s", "s"), Ok(()));
    assert_eq!(oidc::check_state("s", ""), Ok(()));
    assert_eq!(oidc::check_state("s", "t"), Err(OidcError::StateMismatch));
    assert_eq!(OidcError::SaveAuth("disk".into()).detail(), "disk");
    assert_eq!(OidcError::BindLoopback("busy".into()).detail(), "busy");
    assert_eq!(OidcError::NotConfigured.detail(), "");
}

#[test]
fn oidc_session() {
    assert_eq!(
        oidc::begin_login(None, "https://own", false, false, true).unwrap_err(),
        OidcError::NotConfigured
    );
    let config = oidc::OidcAuthConfig {
        issuer: "https://idp".into(),
        client_id: "c".into(),
        scopes: vec!["openid".into()],
        audience: None,
    };
    let session = oidc::begin_login(Some(&config), "https://own", false, false, true).unwrap();
    assert!(matches!(session.mode, LoopbackPort::Ephemeral));
    assert_eq!(session.label.as_deref(), Some("https://idp"));
    assert!(session.reads_stdin);
    assert_eq!(session.state.len(), 36);
    assert_ne!(session.state, session.nonce);
    let quiet = oidc::begin_login(Some(&config), "https://idp", true, true, true).unwrap();
    assert_eq!(quiet.label, None);
    assert!(!quiet.reads_stdin);
    for state in ["", session.state.as_str()] {
        assert_eq!(
            oidc::accept_callback(&session, callback("code", state)),
            Ok("code".into())
        );
    }
    assert_eq!(
        oidc::accept_callback(&session, callback("code", "other")),
        Err(OidcError::StateMismatch)
    );
}

#[test]
fn oidc_session_keeps_its_state_and_nonce() {
    let config = oidc::OidcAuthConfig {
        issuer: "https://own".into(),
        client_id: "c".into(),
        scopes: vec![],
        audience: None,
    };
    let session = oidc::session_with(
        &config,
        "https://own",
        true,
        false,
        false,
        "s".into(),
        "n".into(),
    );
    assert_eq!(session.state, "s");
    assert_eq!(session.nonce, "n");
    assert_eq!(session.label.as_deref(), Some("Grok"));
    assert!(matches!(session.mode, LoopbackPort::Fixed { port: 56121, .. }));

    let next = |phase, event| oidc::next_phase(&session, phase, event);
    let done = || OidcEvent::Succeeded;
    assert_eq!(next(OidcPhase::Discover, done()), Ok(OidcPhase::Bind));
    assert_eq!(next(OidcPhase::Bind, done()), Ok(OidcPhase::AwaitCallback));
    let exchange = || OidcPhase::Exchange { code: "c".into() };
    for state in ["s", ""] {
        assert_eq!(
            next(
                OidcPhase::AwaitCallback,
                OidcEvent::Received(callback("c", state))
            ),
            Ok(exchange())
        );
    }
    assert_eq!(
        next(
            OidcPhase::AwaitCallback,
            OidcEvent::Received(callback("c", "x"))
        ),
        Err(OidcError::StateMismatch)
    );
    assert_eq!(next(exchange(), done()), Ok(OidcPhase::EnforcePrincipal));
    assert_eq!(next(OidcPhase::EnforcePrincipal, done()), Ok(OidcPhase::Identify));
    assert_eq!(next(OidcPhase::Identify, done()), Ok(OidcPhase::Save));
    assert_eq!(next(OidcPhase::Save, done()), Ok(OidcPhase::Finished));
    let failed = || OidcEvent::Failed("e".into());
    assert_eq!(
        next(OidcPhase::Bind, failed()),
        Err(OidcError::BindLoopback("e".into()))
    );
    assert_eq!(
        next(OidcPhase::Save, failed()),
        Err(OidcError::SaveAuth("e".into()))
    );
    assert_eq!(
        next(OidcPhase::EnforcePrincipal, failed()),
        Err(OidcError::Provider("e".into()))
    );
    assert_eq!(OidcError::Provider("e".into()).detail(), "e");
}

#[test]
fn principal_comes_from_config_or_token() {
    let token = oidc::TokenPrincipal {
        principal_type: "Team".into(),
        principal_id: "t1".into(),
        team_id: Some("team".into()),
    };
    let configured = oidc::resolve_principal(
        Some("User".into()),
        Some("u1".into()),
        Some(token.clone()),
    );
    assert_eq!(configured.principal_type.as_deref(), Some("User"));
    assert_eq!(configured.principal_id.as_deref(), Some("u1"));
    assert_eq!(configured.team_id, None);
    let chosen = oidc::resolve_principal(None, Some("u1".into()), Some(token));
    assert_eq!(chosen.principal_type.as_deref(), Some("Team"));
    assert_eq!(chosen.principal_id.as_deref(), Some("t1"));
    assert_eq!(chosen.team_id.as_deref(), Some("team"));
    let unknown = oidc::resolve_principal(None, Some("u1".into()), None);
    assert_eq!(unknown.principal_type, None);
    assert_eq!(unknown.principal_id.as_deref(), Some("u1"));
}

#[test]
fn provider_rows() {
    let enabled = |provider, id: &str, live| EnabledProvider {
        provider,
        id: id.into(),
        display_name: id.to_uppercase(),
        live,
    };
    let stored = |scope: &str, tier: Option<&str>| (scope.to_string(), tier.map(str::to_owned));
    let all = vec![
        enabled(SubscriptionProvider::Xai, "xai", true),
        enabled(SubscriptionProvider::Anthropic, "anthropic", true),
        enabled(SubscriptionProvider::OpenaiCodex, "openai-codex", false),
    ];
    let rows = SubscriptionProviderStatus::detect_all(
        &all,
        &vec![
            stored("https://auth.x.ai::1", Some("x")),
            stored(codex::AUTH_SCOPE, Some("  ")),
            stored(ant::AUTH_SCOPE, Some("max")),
        ],
    );
    let bare = SubscriptionProviderStatus::detect_all(&all, &vec![stored(ant::AUTH_SCOPE, None)]);
    assert!(bare.iter().all(|row| row.tier.is_none()));
    assert_eq!(bare.len(), 2);
    assert_eq!(
        rows,
        vec![
            SubscriptionProviderStatus {
                id: "anthropic".into(),
                display_name: "ANTHROPIC".into(),
                connected: true,
                tier: Some("max".into()),
            },
            SubscriptionProviderStatus {
                id: "openai-codex".into(),
                display_name: "OPENAI-CODEX".into(),
                connected: false,
                tier: None,
            },
        ]
    );
    assert_eq!(SubscriptionProvider::Xai.static_auth_scope(), None);
    assert_eq!(
        SubscriptionProvider::Anthropic.static_auth_scope(),
        Some("anthropic::oauth")
    );
    assert_eq!(
        SubscriptionProvider::OpenaiCodex.static_auth_scope(),
        Some("openai-codex::oauth")
    );
    let meta = AuthMeta::default();
    assert!(meta.coding_data_retention_opt_out);
    assert!(meta.gate.is_none() && meta.subscription_providers.is_empty());
}
