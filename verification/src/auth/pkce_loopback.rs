//! Loopback redirect capture, paste fallback, and the race between the two.

use vstd::prelude::*;
use crate::auth::encoding;
use crate::text;

verus! {

/// How long, in seconds, to wait for the browser callback or a pasted code.
pub const AUTH_CALLBACK_TIMEOUT_SECS: u64 = 600;

/// Environment variable that repoints the loopback listener.
pub const LOOPBACK_PORT_OVERRIDE_ENV: &'static str = "GROK_OAUTH_LOOPBACK_PORT_OVERRIDE";

/// Prompt shown when a paste is raced against the loopback callback.
///
/// Remote browsers land on `http://localhost/...` and fail; the address bar
/// still holds `?code=` (and usually `state=`). Pasting that full URL is the
/// supported recovery path.
pub const LOOPBACK_PASTE_STDIN_PROMPT: &'static str = "If localhost fails, paste the full callback URL from the address bar:";

/// An authorization code and the state that came with it.
#[derive(Clone, Debug, PartialEq, Eq)]
pub struct Callback {
    pub code: String,
    pub state: String,
}

/// A callback, or the provider's error.
pub type CallbackResult = Result<Callback, String>;

/// What a [`CallbackResult`] stands for: code and state, or the message.
pub open spec fn callback_view(result: CallbackResult) -> Result<
    (Seq<char>, Seq<char>),
    Seq<char>,
> {
    match result {
        Ok(callback) => Ok((callback.code@, callback.state@)),
        Err(message) => Err(message@),
    }
}

/// Name and value of each parameter, in order.
pub open spec fn params_view(params: Seq<(String, String)>) -> Seq<(Seq<char>, Seq<char>)> {
    params.map_values(|param: (String, String)| (param.0@, param.1@))
}

/// The value of the parameter `name`; the last one where it is repeated.
pub open spec fn param(params: Seq<(Seq<char>, Seq<char>)>, name: Seq<char>) -> Option<Seq<char>>
    decreases params.len(),
{
    if params.len() == 0 {
        None
    } else if params.last().0 == name {
        Some(params.last().1)
    } else {
        param(params.drop_last(), name)
    }
}

/// The value of the parameter `name`, or the empty text.
pub open spec fn param_or_empty(
    params: Seq<(Seq<char>, Seq<char>)>,
    name: Seq<char>,
) -> Seq<char> {
    match param(params, name) {
        Some(value) => value,
        None => Seq::empty(),
    }
}

/// The value of the parameter `name`; the last one where it is repeated.
fn find_param(params: &Vec<(String, String)>, name: &str) -> (r: Option<String>)
    ensures
        match r {
            Some(value) => param(params_view(params@), name@) == Some(value@),
            None => param(params_view(params@), name@) is None,
        },
{
    let mut n: usize = params.len();
    let ghost all = params_view(params@);
    proof {
        assert(all.take(n as int) =~= all);
    }
    while n > 0
        invariant
            n <= params@.len(),
            all == params_view(params@),
            param(all, name@) == param(all.take(n as int), name@),
        decreases n,
    {
        proof {
            assert(all.take(n as int).last() == (params@[n - 1].0@, params@[n - 1].1@));
            assert(all.take(n as int).drop_last() =~= all.take(n - 1));
        }
        if text::same_text(params[n - 1].0.as_str(), name) {
            return Some(params[n - 1].1.clone());
        }
        n = n - 1;
    }
    None
}

fn find_param_or_empty(params: &Vec<(String, String)>, name: &str) -> (r: String)
    ensures
        r@ == param_or_empty(params_view(params@), name@),
{
    match find_param(params, name) {
        Some(value) => value,
        None => String::new(),
    }
}

/// A provider's error with its description, where it has one.
pub open spec fn described_error(error: Seq<char>, description: Seq<char>) -> Seq<char> {
    if description.len() == 0 {
        error
    } else {
        error + ": "@ + description
    }
}

fn describe_error(error: String, description: String) -> (r: String)
    ensures
        r@ == described_error(error@, description@),
{
    if description.as_str().is_empty() {
        error
    } else {
        let mut r: String = error;
        r.append(": ");
        r.append(description.as_str());
        r
    }
}

/// What the query of a loopback callback says.
pub open spec fn callback_of_params(params: Seq<(Seq<char>, Seq<char>)>) -> Result<
    (Seq<char>, Seq<char>),
    Seq<char>,
> {
    match param(params, "code"@) {
        Some(code) => Ok((code, param_or_empty(params, "state"@))),
        None => Err(
            described_error(
                param_or_empty(params, "error"@),
                param_or_empty(params, "error_description"@),
            ),
        ),
    }
}

/// Reads the query of a loopback callback.
pub fn parse_callback_params(params: &Vec<(String, String)>) -> (r: CallbackResult)
    ensures
        callback_view(r) == callback_of_params(params_view(params@)),
{
    if let Some(code) = find_param(params, "code") {
        let state: String = find_param_or_empty(params, "state");
        return Ok(Callback { code, state });
    }
    let error: String = find_param_or_empty(params, "error");
    let description: String = find_param_or_empty(params, "error_description");
    Err(describe_error(error, description))
}

/// The query parameters of the URL that a text spells, decoded and in order;
/// none where it spells no absolute URL.
pub uninterp spec fn url_query_pairs(input: Seq<char>) -> Option<Seq<(Seq<char>, Seq<char>)>>;

/// Whether `path` is an absolute path of unreserved characters and slashes.
pub open spec fn is_plain_path(path: Seq<char>) -> bool {
    &&& path.len() > 0
    &&& path[0] == '/'
    &&& forall|i: int|
        0 <= i < path.len() ==> encoding::is_unreserved(#[trigger] path[i]) || path[i] == '/'
}

/// A redirect on the local host.
pub open spec fn local_redirect(host: Seq<char>, port: u16, path: Seq<char>) -> Seq<char> {
    "http://"@ + host + ":"@ + text::decimal(port as nat) + path
}

/// The URL that a browser is sent to with a code and a state.
pub open spec fn local_callback(
    host: Seq<char>,
    port: u16,
    path: Seq<char>,
    code: Seq<char>,
    state: Seq<char>,
) -> Seq<char> {
    local_redirect(host, port, path) + "?code="@ + code + "&state="@ + state
}

/// Whether this is a callback whose parts need no escaping.
pub open spec fn is_plain_callback(
    host: Seq<char>,
    path: Seq<char>,
    code: Seq<char>,
    state: Seq<char>,
) -> bool {
    &&& host == "127.0.0.1"@ || host == "localhost"@
    &&& is_plain_path(path)
    &&& encoding::all_unreserved(code)
    &&& encoding::all_unreserved(state)
}

/// Calls `url::Url::parse` and reads `url::Url::query_pairs` off the URL.
/// Beside the name of the result, the contract says that a text without a
/// colon, which can hold no scheme, is no URL, and that a callback on the
/// local host whose parts need no escaping, and whose length the parser can
/// count, has its code and state as its two parameters.
#[verifier::external_body]
fn url_params(input: &str) -> (r: Option<Vec<(String, String)>>)
    ensures
        match r {
            Some(params) => url_query_pairs(input@) == Some(params_view(params@)),
            None => url_query_pairs(input@) is None,
        },
        !input@.contains(':') ==> r is None,
        forall|host: Seq<char>, port: u16, path: Seq<char>, code: Seq<char>, state: Seq<char>|
            input@ == #[trigger] local_callback(host, port, path, code, state)
                && is_plain_callback(host, path, code, state) && input@.len() < u32::MAX
                ==> r is Some && params_view(r->0@)
                == seq![("code"@, code), ("state"@, state)],
{
    url::Url::parse(input).ok().map(|url| url.query_pairs().into_owned().collect())
}

/// What a pasted text says, given the query parameters of the URL it spells.
pub open spec fn callback_of_paste(
    input: Seq<char>,
    url_params: Option<Seq<(Seq<char>, Seq<char>)>>,
) -> Result<(Seq<char>, Seq<char>), Seq<char>> {
    match url_params {
        Some(params) => match param(params, "code"@) {
            Some(code) => Ok((code, param_or_empty(params, "state"@))),
            None => match param(params, "error"@) {
                Some(error) => Err(
                    described_error(error, param_or_empty(params, "error_description"@)),
                ),
                None => Err("URL has no 'code' query parameter"@),
            },
        },
        None => match text::split_once(input, "#"@) {
            Some((code, state)) => if text::trim(code).len() > 0 {
                Ok((text::trim(code), text::trim(state)))
            } else {
                Ok((input, Seq::empty()))
            },
            None => Ok((input, Seq::empty())),
        },
    }
}

/// Reads a trimmed, non-empty paste, given the query parameters of the URL it
/// spells: the parameters' code and state, else `code#state`, else a bare code.
pub fn parse_paste_with(input: &str, url_params: Option<Vec<(String, String)>>) -> (r:
    CallbackResult)
    ensures
        callback_view(r) == callback_of_paste(
            input@,
            match url_params {
                Some(params) => Some(params_view(params@)),
                None => None,
            },
        ),
{
    if let Some(params) = url_params {
        if let Some(code) = find_param(&params, "code") {
            let state: String = find_param_or_empty(&params, "state");
            return Ok(Callback { code, state });
        }
        if let Some(error) = find_param(&params, "error") {
            let description: String = find_param_or_empty(&params, "error_description");
            return Err(describe_error(error, description));
        }
        return Err("URL has no 'code' query parameter".to_owned());
    }
    if let Some((code, state)) = text::split_once_text(input, "#") {
        let code: &str = text::trim_text(code);
        let state: &str = text::trim_text(state);
        if !code.is_empty() {
            return Ok(Callback { code: code.to_owned(), state: state.to_owned() });
        }
    }
    Ok(Callback { code: input.to_owned(), state: String::new() })
}

/// What a pasted text says: trimmed, then read as a callback URL, `code#state`
/// or a bare code.
pub open spec fn pasted(input: Seq<char>) -> Result<(Seq<char>, Seq<char>), Seq<char>> {
    let input = text::trim(input);
    if input.len() == 0 {
        Err("empty input"@)
    } else {
        callback_of_paste(input, url_query_pairs(input))
    }
}

/// Parses user-pasted input into a code and a state.
///
/// Accepts:
///   1. Full callback URL (`http://127.0.0.1:...` or `http://localhost:...`)
///   2. Form `code#state`
///   3. Bare authorization code: `abc123`
pub fn parse_pasted_input(input: &str) -> (r: CallbackResult)
    ensures
        callback_view(r) == pasted(input@),
        !text::trim(input@).contains(':') && text::trim(input@).len() > 0 ==> callback_view(r)
            == callback_of_paste(text::trim(input@), None),
        forall|host: Seq<char>, port: u16, path: Seq<char>, code: Seq<char>, state: Seq<char>|
            text::trim(input@) == #[trigger] local_callback(host, port, path, code, state)
                && is_plain_callback(host, path, code, state) && text::trim(input@).len() < u32::MAX
                ==> callback_view(r) == Ok::<(Seq<char>, Seq<char>), Seq<char>>((code, state)),
{
    let input: &str = text::trim_text(input);
    if input.is_empty() {
        proof {
            reveal_strlit("http://");
            assert forall|
                host: Seq<char>,
                port: u16,
                path: Seq<char>,
                code: Seq<char>,
                state: Seq<char>,
            |
                true implies input@ != #[trigger] local_callback(
                host,
                port,
                path,
                code,
                state,
            ) by {
                assert(local_callback(host, port, path, code, state).len() > 0);
            }
        }
        return Err("empty input".to_owned());
    }
    let params: Option<Vec<(String, String)>> = url_params(input);
    proof {
        reveal_strlit("code");
        reveal_strlit("state");
        assert forall|
            host: Seq<char>,
            port: u16,
            path: Seq<char>,
            code: Seq<char>,
            state: Seq<char>,
        |
            input@ == #[trigger] local_callback(host, port, path, code, state)
                && is_plain_callback(host, path, code, state) && input@.len() < u32::MAX
                implies callback_of_paste(
            input@,
            url_query_pairs(input@),
        ) == Ok::<(Seq<char>, Seq<char>), Seq<char>>((code, state)) by {
            lemma_two_params(code, state);
            assert(url_query_pairs(input@) == Some(
                seq![("code"@, code), ("state"@, state)],
            ));
        }
    }
    parse_paste_with(input, params)
}

proof fn lemma_two_params(code: Seq<char>, state: Seq<char>)
    ensures
        param(seq![("code"@, code), ("state"@, state)], "code"@) == Some(code),
        param(seq![("code"@, code), ("state"@, state)], "state"@) == Some(state),
{
    reveal_strlit("code");
    reveal_strlit("state");
    let both = seq![("code"@, code), ("state"@, state)];
    assert("code"@.len() != "state"@.len());
    assert(both.drop_last() =~= seq![("code"@, code)]);
    assert(both.drop_last().last() == ("code"@, code));
    reveal_with_fuel(param, 3);
}

/// The first `#` ends a code that holds none.
proof fn lemma_split_at_hash(code: Seq<char>, rest: Seq<char>)
    requires
        !code.contains('#'),
    ensures
        text::split_once(code + "#"@ + rest, "#"@) == Some((code, rest)),
{
    reveal_strlit("#");
    let whole = code + "#"@ + rest;
    assert(whole.subrange(code.len() as int, (code.len() + 1) as int) =~= "#"@);
    assert forall|j: int| 0 <= j < code.len() implies !text::occurs_at(whole, "#"@, j) by {
        assert(whole.subrange(j, j + 1)[0] == code[j]);
        assert(code.contains(code[j]));
    }
    text::lemma_find_is(whole, "#"@, 0, code.len() as int);
    assert(whole.take(code.len() as int) =~= code);
    assert(whole.skip((code.len() + 1) as int) =~= rest);
}

/// A paste of the form `code#state` that is no URL gives the code and the
/// state, each without whitespace at its ends.
pub proof fn law_code_and_state_can_be_pasted(code: Seq<char>, state: Seq<char>)
    requires
        !code.contains('#'),
        text::trim(code).len() > 0,
    ensures
        callback_of_paste(code + "#"@ + state, None) == Ok::<(Seq<char>, Seq<char>), Seq<char>>(
            (text::trim(code), text::trim(state)),
        ),
{
    lemma_split_at_hash(code, state);
}

/// A paste that is no URL and holds no `#` is a code with no state.
pub proof fn law_bare_code_can_be_pasted(code: Seq<char>)
    requires
        !code.contains('#'),
    ensures
        callback_of_paste(code, None) == Ok::<(Seq<char>, Seq<char>), Seq<char>>(
            (code, Seq::empty()),
        ),
{
    reveal_strlit("#");
    assert forall|j: int| 0 <= j implies !text::occurs_at(code, "#"@, j) by {
        if j + 1 <= code.len() {
            assert(code.subrange(j, j + 1)[0] == code[j]);
            assert(code.contains(code[j]));
        }
    }
    text::lemma_find_none(code, "#"@, 0);
}

/// A callback URL says the same whether the browser delivers it or the user
/// pastes it, as long as it holds a code or an error.
pub proof fn law_paste_agrees_with_loopback(
    input: Seq<char>,
    params: Seq<(Seq<char>, Seq<char>)>,
)
    requires
        param(params, "code"@) is Some || param(params, "error"@) is Some,
    ensures
        callback_of_paste(input, Some(params)) == callback_of_params(params),
{
}

/// A redirect with a code and a state gives that code and that state.
pub proof fn law_redirect_gives_code_and_state(code: Seq<char>, state: Seq<char>)
    ensures
        callback_of_params(seq![("code"@, code), ("state"@, state)]) == Ok::<
            (Seq<char>, Seq<char>),
            Seq<char>,
        >((code, state)),
{
    lemma_two_params(code, state);
}

/// Where the loopback listener is to listen.
#[derive(Clone, Copy, Debug)]
pub enum LoopbackPort {
    /// OS-assigned port; the redirect URI is derived from the bound port.
    Ephemeral,
    /// Fixed, pre-registered redirect.
    ///
    /// `redirect_uri` MUST be byte-identical to the string the provider
    /// registered: OAuth servers compare it exactly, and `localhost` and
    /// `127.0.0.1` are *different strings* to them even though they resolve to
    /// the same host.
    Fixed { port: u16, path: &'static str, redirect_uri: &'static str },
}

/// The port that the override variable names, where it names one.
pub open spec fn override_port(setting: Option<Seq<char>>) -> Option<u16> {
    match setting {
        Some(value) => match text::parse_unsigned(value, u16::MAX as nat) {
            Some(port) => Some(port as u16),
            None => None,
        },
        None => None,
    }
}

/// How to bind the listener.
#[derive(Clone, Copy, Debug)]
pub struct BindPlan {
    /// Port to bind on `127.0.0.1`; zero lets the system choose.
    pub port: u16,
    pub path: &'static str,
    /// Pre-registered redirect to send verbatim.
    pub registered_redirect: Option<&'static str>,
    /// Whether the port was fixed, so that pasting can stand in for it.
    pub fixed: bool,
}

/// An optional text's characters.
pub open spec fn text_view(text: Option<&str>) -> Option<Seq<char>> {
    match text {
        Some(text) => Some(text@),
        None => None,
    }
}

impl BindPlan {
    /// The plan for `mode`. An override repoints the listener; the registered
    /// redirect then no longer describes it, so it is dropped.
    pub open spec fn planned(mode: LoopbackPort, setting: Option<Seq<char>>) -> BindPlan {
        match (mode, override_port(setting)) {
            (LoopbackPort::Ephemeral, chosen) => BindPlan {
                port: match chosen {
                    Some(port) => port,
                    None => 0,
                },
                path: "/callback",
                registered_redirect: None,
                fixed: false,
            },
            (LoopbackPort::Fixed { port, path, redirect_uri }, None) => BindPlan {
                port,
                path,
                registered_redirect: Some(redirect_uri),
                fixed: true,
            },
            (LoopbackPort::Fixed { port, path, redirect_uri }, Some(other)) => BindPlan {
                port: other,
                path,
                registered_redirect: None,
                fixed: true,
            },
        }
    }

    /// Plans the listener for `mode`, given the value of the override variable.
    pub fn new(mode: LoopbackPort, port_override: Option<&str>) -> (r: BindPlan)
        ensures
            r == BindPlan::planned(mode, text_view(port_override)),
    {
        let chosen: Option<u64> = match port_override {
            Some(value) => text::parse_unsigned_text(value, 65535),
            None => None,
        };
        match mode {
            LoopbackPort::Ephemeral => BindPlan {
                port: match chosen {
                    Some(port) => port as u16,
                    None => 0,
                },
                path: "/callback",
                registered_redirect: None,
                fixed: false,
            },
            LoopbackPort::Fixed { port, path, redirect_uri } => match chosen {
                Some(other) => BindPlan {
                    port: other as u16,
                    path,
                    registered_redirect: None,
                    fixed: true,
                },
                None => BindPlan {
                    port,
                    path,
                    registered_redirect: Some(redirect_uri),
                    fixed: true,
                },
            },
        }
    }
}

/// A listener for the browser's redirect, or the note that there is none and
/// the code has to be pasted.
#[derive(Clone, Debug)]
pub enum LoopbackListener {
    Bound {
        port: u16,
        path: &'static str,
        /// Pre-registered redirect to send verbatim; `None` derives it from
        /// the bound port.
        registered_redirect: Option<&'static str>,
    },
    PasteOnly {
        port: u16,
        path: &'static str,
        registered_redirect: Option<&'static str>,
        reason: String,
    },
}

/// The redirect that a listener on `port` derives where none is registered.
pub open spec fn redirect(
    port: u16,
    path: Seq<char>,
    registered_redirect: Option<&'static str>,
) -> Seq<char> {
    match registered_redirect {
        Some(registered) => registered@,
        None => "http://127.0.0.1:"@ + text::decimal(port as nat) + path,
    }
}

impl LoopbackListener {
    /// The listener that comes of following `plan`: `attempt` holds the port
    /// that was bound or why binding failed. A fixed port that cannot be bound
    /// leaves pasting; an ephemeral one fails.
    pub open spec fn listener(plan: BindPlan, attempt: Result<u16, String>) -> Result<
        LoopbackListener,
        String,
    > {
        match attempt {
            Ok(bound) => Ok(
                LoopbackListener::Bound {
                    port: if plan.fixed {
                        plan.port
                    } else {
                        bound
                    },
                    path: plan.path,
                    registered_redirect: plan.registered_redirect,
                },
            ),
            Err(reason) => if plan.fixed {
                Ok(
                    LoopbackListener::PasteOnly {
                        port: plan.port,
                        path: plan.path,
                        registered_redirect: plan.registered_redirect,
                        reason,
                    },
                )
            } else {
                Err(reason)
            },
        }
    }

    /// The listener that comes of following `plan`, given the port that was
    /// bound or why binding failed.
    pub fn bind(plan: BindPlan, attempt: Result<u16, String>) -> (r: Result<Self, String>)
        ensures
            r == LoopbackListener::listener(plan, attempt),
    {
        match attempt {
            Ok(bound) => Ok(
                LoopbackListener::Bound {
                    port: if plan.fixed {
                        plan.port
                    } else {
                        bound
                    },
                    path: plan.path,
                    registered_redirect: plan.registered_redirect,
                },
            ),
            Err(reason) => if plan.fixed {
                Ok(
                    LoopbackListener::PasteOnly {
                        port: plan.port,
                        path: plan.path,
                        registered_redirect: plan.registered_redirect,
                        reason,
                    },
                )
            } else {
                Err(reason)
            },
        }
    }

    /// The redirect to send on the authorize *and* token calls.
    pub open spec fn redirect_text(self) -> Seq<char> {
        match self {
            LoopbackListener::Bound { port, path, registered_redirect } => redirect(
                port,
                path@,
                registered_redirect,
            ),
            LoopbackListener::PasteOnly { port, path, registered_redirect, .. } => redirect(
                port,
                path@,
                registered_redirect,
            ),
        }
    }

    /// The `redirect_uri` to send on the authorize *and* token calls.
    ///
    /// For a pre-registered provider this is the registered constant verbatim,
    /// not a reconstruction: the provider string-matches it, so `localhost`
    /// must not silently become `127.0.0.1`.
    pub fn redirect_uri(&self) -> (r: String)
        ensures
            r@ == self.redirect_text(),
    {
        let (port, path, registered_redirect): (u16, &'static str, Option<&'static str>) =
            match self {
            LoopbackListener::Bound { port, path, registered_redirect } => (
                *port,
                *path,
                *registered_redirect,
            ),
            LoopbackListener::PasteOnly { port, path, registered_redirect, .. } => (
                *port,
                *path,
                *registered_redirect,
            ),
        };
        match registered_redirect {
            Some(registered) => registered.to_owned(),
            None => {
                let mut r: String = "http://127.0.0.1:".to_owned();
                r.append(text::decimal_text(port as u64).as_str());
                r.append(path);
                r
            },
        }
    }

    /// Whether no redirect can be received.
    pub fn is_paste_only(&self) -> (r: bool)
        ensures
            r == (self is PasteOnly),
    {
        match self {
            LoopbackListener::Bound { .. } => false,
            LoopbackListener::PasteOnly { .. } => true,
        }
    }
}

/// Without an override, a provider with a registered redirect always gets a
/// listener and is sent that redirect as registered, whether or not its port
/// could be bound.
pub proof fn law_registered_redirect_is_verbatim(
    port: u16,
    path: &'static str,
    redirect_uri: &'static str,
    setting: Option<Seq<char>>,
    attempt: Result<u16, String>,
)
    requires
        override_port(setting) is None,
    ensures
        ({
            let plan = BindPlan::planned(LoopbackPort::Fixed { port, path, redirect_uri }, setting);
            let listener = LoopbackListener::listener(plan, attempt);
            listener is Ok && listener->Ok_0.redirect_text() == redirect_uri@
        }),
{
}

/// A redirect that is not registered names the address that was bound.
pub proof fn law_ephemeral_redirect_is_derived(setting: Option<Seq<char>>, bound: u16)
    ensures
        ({
            let plan = BindPlan::planned(LoopbackPort::Ephemeral, setting);
            let listener = LoopbackListener::listener(plan, Ok::<u16, String>(bound));
            listener is Ok && listener->Ok_0.redirect_text() == local_redirect(
                "127.0.0.1"@,
                bound,
                "/callback"@,
            )
        }),
{
    reveal_strlit("http://127.0.0.1:");
    reveal_strlit("http://");
    reveal_strlit("127.0.0.1");
    reveal_strlit(":");
    assert("http://127.0.0.1:"@ =~= "http://"@ + "127.0.0.1"@ + ":"@);
}

/// Whether a variable is set to something.
pub open spec fn is_set(value: Option<&str>) -> bool {
    value is Some && value->0@.len() > 0
}

fn non_empty(value: Option<&str>) -> (r: bool)
    ensures
        r == is_set(value),
{
    match value {
        Some(value) => !value.is_empty(),
        None => false,
    }
}

/// Whether a process likely has a GUI browser: always on a platform that has
/// a desktop of its own (macOS, Windows), elsewhere when `BROWSER`, `DISPLAY`
/// or `WAYLAND_DISPLAY` is set to something.
pub fn browser_open_likely_available_from_env(
    desktop_platform: bool,
    browser: Option<&str>,
    display: Option<&str>,
    wayland_display: Option<&str>,
) -> (r: bool)
    ensures
        r == (desktop_platform || is_set(browser) || is_set(display) || is_set(wayland_display)),
        !r <==> {
            &&& !desktop_platform
            &&& browser is Some ==> browser->0@.len() == 0
            &&& display is Some ==> display->0@.len() == 0
            &&& wayland_display is Some ==> wayland_display->0@.len() == 0
        },
{
    if desktop_platform {
        return true;
    }
    if non_empty(browser) {
        return true;
    }
    non_empty(wayland_display) || non_empty(display)
}

/// Icon of a page that reports success.
pub const SUCCESS_ICON: &'static str = r#"<svg xmlns="http://www.w3.org/2000/svg" width="48" height="48" fill="none" viewBox="0 0 24 24" stroke="currentColor" stroke-width="2"><path stroke-linecap="round" stroke-linejoin="round" d="M5 13l4 4L19 7" /></svg>"#;

/// Icon of a page that reports failure.
pub const FAILURE_ICON: &'static str = r#"<svg width="48" height="48" viewBox="0 0 24 24" fill="none" stroke="currentColor" stroke-width="1.5" stroke-linecap="round" stroke-linejoin="round" style="color:#ef4444"><circle cx="12" cy="12" r="10"/><line x1="15" y1="9" x2="9" y2="15"/><line x1="9" y1="9" x2="15" y2="15"/></svg>"#;

/// The page before its title.
pub const PAGE_HEAD: &'static str = r#"<!DOCTYPE html>
<html lang="en">
<head>
<meta charset="utf-8"/>
<meta name="viewport" content="width=device-width,initial-scale=1"/>
<meta name="color-scheme" content="light dark"/>
<title>"#;

/// The page between its title and its icon.
pub const PAGE_STYLE: &'static str = r#"</title>
<style>
  *{margin:0;padding:0;box-sizing:border-box}
  body{font-family:-apple-system,BlinkMacSystemFont,"Segoe UI",Roboto,Helvetica,Arial,sans-serif;
    display:flex;align-items:center;justify-content:center;min-height:100vh;
    background:#0a0a0a;color:#e5e5e5}
  .card{text-align:center;display:flex;flex-direction:column;align-items:center;gap:16px;padding:48px}
  h1{font-size:18px;font-weight:600}
  p{font-size:14px;color:#a3a3a3}
  @media(prefers-color-scheme:light){
    body{background:#fafafa;color:#171717}
    p{color:#525252}
  }
</style>
</head>
<body>
  <div class="card">
    "#;

/// The page between its icon and its heading.
pub const PAGE_HEADING: &'static str = r#"
    <h1>"#;

/// The page between its heading and its message.
pub const PAGE_MESSAGE: &'static str = r#"</h1>
    <p>"#;

/// The page behind its message.
pub const PAGE_END: &'static str = r#"</p>
  </div>
</body>
</html>"#;

/// The page shown in the browser after the redirect.
pub open spec fn page(title: Seq<char>, message: Seq<char>, is_success: bool) -> Seq<char> {
    let icon = if is_success {
        SUCCESS_ICON@
    } else {
        FAILURE_ICON@
    };
    PAGE_HEAD@ + title + PAGE_STYLE@ + icon + PAGE_HEADING@ + title + PAGE_MESSAGE@ + message
        + PAGE_END@
}

/// Renders the page shown in the browser after the redirect.
pub fn callback_page(title: &str, message: &str, is_success: bool) -> (r: String)
    ensures
        r@ == page(title@, message@, is_success),
{
    let icon: &'static str = if is_success {
        SUCCESS_ICON
    } else {
        FAILURE_ICON
    };
    let mut r: String = PAGE_HEAD.to_owned();
    r.append(title);
    r.append(PAGE_STYLE);
    r.append(icon);
    r.append(PAGE_HEADING);
    r.append(title);
    r.append(PAGE_MESSAGE);
    r.append(message);
    r.append(PAGE_END);
    r
}

/// The status and page that answer a loopback callback.
pub fn callback_response(result: &CallbackResult) -> (r: (u16, String))
    ensures
        r.0 == 200,
        result is Ok ==> r.1@ == page(
            "Signed in"@,
            "You can close this window and return to the application."@,
            true,
        ),
        result is Err ==> r.1@ == page(
            "Access denied"@,
            "Close this window and try again."@,
            false,
        ),
{
    match result {
        Ok(_) => (
            200,
            callback_page(
                "Signed in",
                "You can close this window and return to the application.",
                true,
            ),
        ),
        Err(_) => (
            200,
            callback_page("Access denied", "Close this window and try again.", false),
        ),
    }
}

/// What to do with a line read from standard input.
#[derive(Clone, Debug, PartialEq, Eq)]
pub enum PasteStep {
    /// A blank line: read on.
    Ignore,
    /// A code: hand it over and stop reading.
    Deliver(Callback),
    /// Something else: show this and read on.
    Retry(String),
}

/// What to do with a line read from standard input.
pub fn stdin_line(line: &str) -> (r: PasteStep)
    ensures
        text::trim(line@).len() == 0 ==> r == PasteStep::Ignore,
        text::trim(line@).len() > 0 ==> match pasted(text::trim(line@)) {
            Ok((code, state)) => r matches PasteStep::Deliver(callback) && callback.code@ == code
                && callback.state@ == state,
            Err(message) => r matches PasteStep::Retry(shown) && shown@ == "  Invalid input: "@
                + message + ". Try again:"@,
        },
{
    let trimmed: &str = text::trim_text(line);
    if trimmed.is_empty() {
        return PasteStep::Ignore;
    }
    match parse_pasted_input(trimmed) {
        Ok(callback) => PasteStep::Deliver(callback),
        Err(message) => {
            let mut shown: String = "  Invalid input: ".to_owned();
            shown.append(message.as_str());
            shown.append(". Try again:");
            PasteStep::Retry(shown)
        },
    }
}

/// The code in what a client pasted, where there is one; anything else is
/// ignored and the next paste awaited.
pub fn client_paste(input: &str) -> (r: Option<Callback>)
    ensures
        match pasted(input@) {
            Ok((code, state)) => r matches Some(callback) && callback.code@ == code
                && callback.state@ == state,
            Err(_) => r is None,
        },
{
    match parse_pasted_input(input) {
        Ok(callback) => Some(callback),
        Err(_) => None,
    }
}

/// What the loopback callback is raced against.
#[derive(Clone, Copy, Debug, PartialEq, Eq, Structural)]
pub enum PasteSource {
    ClientUi,
    Stdin,
}

/// [`AUTH_CALLBACK_TIMEOUT_SECS`] in nanoseconds.
pub const AUTH_CALLBACK_TIMEOUT_NANOS: u64 = 600_000_000_000;

/// How to go on waiting for a code.
#[derive(Clone, Copy, Debug, PartialEq, Eq, Structural)]
pub enum WaitStep {
    /// Wait at most this long for the callback, and for pastes where they may
    /// still come.
    Wait { nanos: u64, for_pastes: bool },
    /// The time is used up.
    GiveUp,
}

/// How to go on waiting, `elapsed_nanos` after the wait began. Pastes that have
/// ended leave the callback, for as long as is left.
pub fn next_wait(elapsed_nanos: u64, pastes_open: bool) -> (r: WaitStep)
    ensures
        r == (if elapsed_nanos < AUTH_CALLBACK_TIMEOUT_NANOS {
            WaitStep::Wait {
                nanos: (AUTH_CALLBACK_TIMEOUT_NANOS - elapsed_nanos) as u64,
                for_pastes: pastes_open,
            }
        } else {
            WaitStep::GiveUp
        }),
        r matches WaitStep::Wait { nanos, for_pastes } ==> 0 < nanos && elapsed_nanos + nanos
            == AUTH_CALLBACK_TIMEOUT_SECS * 1_000_000_000,
        r is GiveUp <==> elapsed_nanos >= 600_000_000_000,
{
    if elapsed_nanos < AUTH_CALLBACK_TIMEOUT_NANOS {
        WaitStep::Wait {
            nanos: AUTH_CALLBACK_TIMEOUT_NANOS - elapsed_nanos,
            for_pastes: pastes_open,
        }
    } else {
        WaitStep::GiveUp
    }
}

/// How the wait for a code ended.
#[derive(Debug, PartialEq, Eq)]
pub enum RaceEvent {
    TimedOut,
    ChannelClosed,
    Received(CallbackResult),
}

/// What a finished wait comes to: the callback, or a message for the user.
pub open spec fn race_end(source: PasteSource, event: RaceEvent) -> Result<
    (Seq<char>, Seq<char>),
    Seq<char>,
> {
    match event {
        RaceEvent::TimedOut => Err(
            match source {
                PasteSource::ClientUi => "Timed out waiting for authentication"@,
                PasteSource::Stdin => "Timed out waiting for authentication code"@,
            },
        ),
        RaceEvent::ChannelClosed => Err("Authentication callback channel closed"@),
        RaceEvent::Received(Ok(callback)) => Ok((callback.code@, callback.state@)),
        RaceEvent::Received(Err(error)) => Err("Authentication failed: "@ + error@),
    }
}

/// The callback that a finished wait brought, or a message for the user.
pub fn race_outcome(source: PasteSource, event: RaceEvent) -> (r: CallbackResult)
    ensures
        callback_view(r) == race_end(source, event),
{
    match event {
        RaceEvent::TimedOut => match source {
            PasteSource::ClientUi => Err("Timed out waiting for authentication".to_owned()),
            PasteSource::Stdin => Err("Timed out waiting for authentication code".to_owned()),
        },
        RaceEvent::ChannelClosed => Err("Authentication callback channel closed".to_owned()),
        RaceEvent::Received(Ok(callback)) => Ok(callback),
        RaceEvent::Received(Err(error)) => {
            let mut message: String = "Authentication failed: ".to_owned();
            message.append(error.as_str());
            Err(message)
        },
    }
}

/// A parameter has the value of the last pair of its name, however many pairs
/// there are and wherever that one stands, and is missing only where no pair has
/// the name.
pub proof fn law_param_is_the_last_of_its_name(
    params: Seq<(Seq<char>, Seq<char>)>,
    name: Seq<char>,
)
    ensures
        match param(params, name) {
            Some(value) => exists|i: int|
                0 <= i < params.len() && #[trigger] params[i] == (name, value) && forall|j: int|
                    i < j < params.len() ==> (#[trigger] params[j]).0 != name,
            None => forall|j: int| 0 <= j < params.len() ==> (#[trigger] params[j]).0 != name,
        },
    decreases params.len(),
{
    if params.len() > 0 {
        let rest = params.drop_last();
        if params.last().0 == name {
            assert(params[params.len() - 1] == (name, params.last().1));
        } else {
            law_param_is_the_last_of_its_name(rest, name);
            match param(rest, name) {
                Some(value) => {
                    let i = choose|i: int|
                        0 <= i < rest.len() && #[trigger] rest[i] == (name, value) && forall|j: int|
                            i < j < rest.len() ==> (#[trigger] rest[j]).0 != name;
                    assert(params[i] == (name, value));
                    assert forall|j: int| i < j < params.len() implies (
                    #[trigger] params[j]).0 != name by {
                        if j < rest.len() {
                            assert(rest[j] == params[j]);
                        }
                    }
                },
                None => {
                    assert forall|j: int| 0 <= j < params.len() implies (
                    #[trigger] params[j]).0 != name by {
                        if j < rest.len() {
                            assert(rest[j] == params[j]);
                        }
                    }
                },
            }
        }
    }
}

proof fn lemma_param_at(params: Seq<(Seq<char>, Seq<char>)>, name: Seq<char>, i: int)
    requires
        0 <= i < params.len(),
        params[i].0 == name,
        forall|j: int| i < j < params.len() ==> (#[trigger] params[j]).0 != name,
    ensures
        param(params, name) == Some(params[i].1),
    decreases params.len(),
{
    if i < params.len() - 1 {
        let rest = params.drop_last();
        assert(params[params.len() - 1].0 != name);
        assert(rest[i] == params[i]);
        assert forall|j: int| i < j < rest.len() implies (#[trigger] rest[j]).0 != name by {
            assert(rest[j] == params[j]);
        }
        lemma_param_at(rest, name, i);
    }
}

proof fn lemma_param_missing(params: Seq<(Seq<char>, Seq<char>)>, name: Seq<char>)
    requires
        forall|j: int| 0 <= j < params.len() ==> (#[trigger] params[j]).0 != name,
    ensures
        param(params, name) is None,
{
    law_param_is_the_last_of_its_name(params, name);
}

/// A redirect with a code and a state among its parameters, in any order and with
/// any others, gives that code and that state; so does its URL when it is pasted.
pub proof fn law_code_and_state_are_found_in_any_place(
    params: Seq<(Seq<char>, Seq<char>)>,
    input: Seq<char>,
    i: int,
    k: int,
)
    requires
        0 <= i < params.len(),
        params[i].0 == "code"@,
        forall|j: int| i < j < params.len() ==> (#[trigger] params[j]).0 != "code"@,
        0 <= k < params.len(),
        params[k].0 == "state"@,
        forall|j: int| k < j < params.len() ==> (#[trigger] params[j]).0 != "state"@,
    ensures
        callback_of_params(params) == Ok::<(Seq<char>, Seq<char>), Seq<char>>(
            (params[i].1, params[k].1),
        ),
        callback_of_paste(input, Some(params)) == Ok::<(Seq<char>, Seq<char>), Seq<char>>(
            (params[i].1, params[k].1),
        ),
{
    lemma_param_at(params, "code"@, i);
    lemma_param_at(params, "state"@, k);
}

/// A code without a state comes with the empty state.
pub proof fn law_code_alone_has_the_empty_state(
    params: Seq<(Seq<char>, Seq<char>)>,
    input: Seq<char>,
    i: int,
)
    requires
        0 <= i < params.len(),
        params[i].0 == "code"@,
        forall|j: int| i < j < params.len() ==> (#[trigger] params[j]).0 != "code"@,
        forall|j: int| 0 <= j < params.len() ==> (#[trigger] params[j]).0 != "state"@,
    ensures
        callback_of_params(params) == Ok::<(Seq<char>, Seq<char>), Seq<char>>(
            (params[i].1, seq![]),
        ),
        callback_of_paste(input, Some(params)) == Ok::<(Seq<char>, Seq<char>), Seq<char>>(
            (params[i].1, seq![]),
        ),
{
    lemma_param_at(params, "code"@, i);
    lemma_param_missing(params, "state"@);
}

/// A redirect without a code is refused with the provider's error, and with its
/// description behind a colon where that says something.
pub proof fn law_error_is_reported_with_its_description(
    params: Seq<(Seq<char>, Seq<char>)>,
    input: Seq<char>,
    i: int,
    k: int,
)
    requires
        forall|j: int| 0 <= j < params.len() ==> (#[trigger] params[j]).0 != "code"@,
        0 <= i < params.len(),
        params[i].0 == "error"@,
        forall|j: int| i < j < params.len() ==> (#[trigger] params[j]).0 != "error"@,
        -1 <= k < params.len(),
        k >= 0 ==> params[k].0 == "error_description"@,
        forall|j: int| k < j < params.len() ==> (#[trigger] params[j]).0 != "error_description"@,
    ensures
        k >= 0 && params[k].1.len() > 0 ==> callback_of_params(params) == Err::<
            (Seq<char>, Seq<char>),
            Seq<char>,
        >(params[i].1 + ": "@ + params[k].1),
        k < 0 || params[k].1.len() == 0 ==> callback_of_params(params) == Err::<
            (Seq<char>, Seq<char>),
            Seq<char>,
        >(params[i].1),
        callback_of_paste(input, Some(params)) == callback_of_params(params),
{
    lemma_param_missing(params, "code"@);
    lemma_param_at(params, "error"@, i);
    if k >= 0 {
        lemma_param_at(params, "error_description"@, k);
    } else {
        lemma_param_missing(params, "error_description"@);
    }
}

/// A pasted URL with neither a code nor an error is refused for want of a code,
/// and a redirect with nothing at all is refused with nothing to say.
pub proof fn law_nothing_to_go_by_is_refused(
    params: Seq<(Seq<char>, Seq<char>)>,
    input: Seq<char>,
)
    requires
        forall|j: int|
            0 <= j < params.len() ==> (#[trigger] params[j]).0 != "code"@ && params[j].0
                != "error"@,
    ensures
        callback_of_paste(input, Some(params)) == Err::<(Seq<char>, Seq<char>), Seq<char>>(
            "URL has no 'code' query parameter"@,
        ),
        callback_of_params(params) is Err,
        params.len() == 0 ==> callback_of_params(params) == Err::<
            (Seq<char>, Seq<char>),
            Seq<char>,
        >(seq![]),
{
    lemma_param_missing(params, "code"@);
    lemma_param_missing(params, "error"@);
}

/// Whitespace round a paste makes no difference, and a paste of nothing else is
/// refused.
pub proof fn law_paste_is_read_without_outer_whitespace(
    before: Seq<char>,
    input: Seq<char>,
    after: Seq<char>,
)
    requires
        forall|i: int| 0 <= i < before.len() ==> text::is_whitespace(#[trigger] before[i]),
        forall|i: int| 0 <= i < after.len() ==> text::is_whitespace(#[trigger] after[i]),
        input.len() > 0 ==> !text::is_whitespace(input[0]) && !text::is_whitespace(input.last()),
    ensures
        pasted(before + input + after) == pasted(input),
        input.len() == 0 ==> pasted(before + input + after) == Err::<
            (Seq<char>, Seq<char>),
            Seq<char>,
        >("empty input"@),
        input.len() > 0 ==> pasted(input) == callback_of_paste(input, url_query_pairs(input)),
{
    text::law_trim_takes_only_outer_whitespace(before, input, after);
    let none = Seq::<char>::empty();
    assert(none + input + none =~= input);
    text::law_trim_takes_only_outer_whitespace(none, input, none);
}

/// A paste that is no URL and has nothing before its `#` is a code as it stands.
pub proof fn law_hash_without_a_code_is_part_of_the_code(blank: Seq<char>, rest: Seq<char>)
    requires
        forall|i: int| 0 <= i < blank.len() ==> text::is_whitespace(#[trigger] blank[i]),
    ensures
        callback_of_paste(blank + "#"@ + rest, None) == Ok::<(Seq<char>, Seq<char>), Seq<char>>(
            (blank + "#"@ + rest, seq![]),
        ),
{
    if blank.contains('#') {
        let i = choose|i: int| 0 <= i < blank.len() && blank[i] == '#';
        assert(text::is_whitespace(blank[i]));
        assert(false);
    }
    lemma_split_at_hash(blank, rest);
    let none = Seq::<char>::empty();
    assert(blank + none + none =~= blank);
    text::law_trim_takes_only_outer_whitespace(blank, none, none);
}

/// A port in the override variable, however it is written, is the one to bind, in
/// either mode. It takes a registered redirect away, and the listener then names
/// its own address.
pub proof fn law_override_repoints_the_listener(
    value: Seq<char>,
    chosen: u16,
    port: u16,
    path: &'static str,
    redirect_uri: &'static str,
    attempt: Result<u16, String>,
)
    requires
        text::parse_unsigned(value, 65535) == Some(chosen as nat),
    ensures
        ({
            let open = BindPlan::planned(LoopbackPort::Ephemeral, Some(value));
            let plan = BindPlan::planned(
                LoopbackPort::Fixed { port, path, redirect_uri },
                Some(value),
            );
            let listener = LoopbackListener::listener(plan, attempt);
            &&& open.port == chosen && open.path@ == "/callback"@
            &&& plan.port == chosen && plan.path@ == path@ && plan.registered_redirect is None
            &&& listener is Ok
            &&& listener->Ok_0.redirect_text() == "http://127.0.0.1:"@ + text::decimal(
                chosen as nat,
            ) + path@
        }),
        override_port(Some(text::decimal(port as nat))) == Some(port),
{
    text::law_decimal_reads_back(port as nat, u16::MAX as nat);
}

/// Without an override, or with one that is no port, a registered port is bound as
/// registered and any other is left to the system.
pub proof fn law_unusable_override_changes_nothing(
    setting: Option<Seq<char>>,
    port: u16,
    path: &'static str,
    redirect_uri: &'static str,
)
    requires
        setting is None || text::parse_unsigned(setting->0, 65535) is None,
    ensures
        ({
            let open = BindPlan::planned(LoopbackPort::Ephemeral, setting);
            let plan = BindPlan::planned(LoopbackPort::Fixed { port, path, redirect_uri }, setting);
            &&& open.port == 0 && open.path@ == "/callback"@ && open.registered_redirect is None
            &&& plan.port == port && plan.path@ == path@
            &&& plan.registered_redirect == Some(redirect_uri)
        }),
{
}

/// A port that could be bound gives a listener on it; one that could not leaves
/// pasting where the port was fixed, with the reason, and an error elsewhere.
pub proof fn law_failed_bind_leaves_pasting_on_a_fixed_port(
    mode: LoopbackPort,
    setting: Option<Seq<char>>,
    bound: u16,
    reason: String,
)
    ensures
        ({
            let plan = BindPlan::planned(mode, setting);
            let up = LoopbackListener::listener(plan, Ok::<u16, String>(bound));
            let down = LoopbackListener::listener(plan, Err::<u16, String>(reason));
            &&& up is Ok && up->Ok_0 is Bound
            &&& mode is Ephemeral ==> up->Ok_0->Bound_port == bound
            &&& mode is Ephemeral ==> down == Err::<LoopbackListener, String>(reason)
            &&& mode is Fixed ==> down is Ok && down->Ok_0 is PasteOnly && down->Ok_0->reason
                == reason
            &&& mode is Fixed ==> up->Ok_0->Bound_port == plan.port
                && down->Ok_0->PasteOnly_port == plan.port
            &&& up->Ok_0->Bound_path@ == plan.path@
            &&& mode is Fixed ==> down->Ok_0->PasteOnly_path@ == plan.path@
            &&& mode is Fixed ==> up->Ok_0.redirect_text() == down->Ok_0.redirect_text()
        }),
{
}

/// A page shows its title twice and its message behind both; success and failure
/// differ in nothing but the icon between the two titles.
pub proof fn law_page_shows_title_and_message(title: Seq<char>, message: Seq<char>)
    ensures
        ({
            let good = page(title, message, true);
            let bad = page(title, message, false);
            let before = PAGE_HEAD@ + title + PAGE_STYLE@;
            let behind = PAGE_HEADING@ + title + PAGE_MESSAGE@ + message + PAGE_END@;
            &&& good == before + SUCCESS_ICON@ + behind
            &&& bad == before + FAILURE_ICON@ + behind
        }),
{
    let before = PAGE_HEAD@ + title + PAGE_STYLE@;
    let behind = PAGE_HEADING@ + title + PAGE_MESSAGE@ + message + PAGE_END@;
    assert(page(title, message, true) =~= before + SUCCESS_ICON@ + behind);
    assert(page(title, message, false) =~= before + FAILURE_ICON@ + behind);
}

/// A code that arrives is handed on with its state, wherever pastes come from; a
/// provider's error is shown behind the words that say what failed.
pub proof fn law_race_hands_on_what_arrives(source: PasteSource, callback: Callback, error: String)
    ensures
        race_end(source, RaceEvent::Received(Ok(callback))) == Ok::<
            (Seq<char>, Seq<char>),
            Seq<char>,
        >((callback.code@, callback.state@)),
        race_end(source, RaceEvent::Received(Err(error))) == Err::<
            (Seq<char>, Seq<char>),
            Seq<char>,
        >("Authentication failed: "@ + error@),
        race_end(source, RaceEvent::TimedOut) == Err::<(Seq<char>, Seq<char>), Seq<char>>(
            if source == PasteSource::Stdin {
                "Timed out waiting for authentication code"@
            } else {
                "Timed out waiting for authentication"@
            },
        ),
        race_end(source, RaceEvent::ChannelClosed) == Err::<(Seq<char>, Seq<char>), Seq<char>>(
            "Authentication callback channel closed"@,
        ),
{
}

/// The views show a callback's code and state, and each parameter's name and
/// value, in their places.
pub proof fn law_callback_views_show_everything(
    result: CallbackResult,
    params: Seq<(String, String)>,
    i: int,
)
    ensures
        result matches Ok(callback) ==> callback_view(result) == Ok::<
            (Seq<char>, Seq<char>),
            Seq<char>,
        >((callback.code@, callback.state@)),
        result matches Err(message) ==> callback_view(result) == Err::<
            (Seq<char>, Seq<char>),
            Seq<char>,
        >(message@),
        params_view(params).len() == params.len(),
        0 <= i < params.len() ==> params_view(params)[i] == (params[i].0@, params[i].1@),
{
}

} // verus!
