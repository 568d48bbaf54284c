//! Values registered with the provider.

use vstd::prelude::*;
use crate::text;

verus! {

/// Port of the registered redirect.
pub const CALLBACK_PORT: u16 = 53692;

/// Path of the registered redirect.
pub const CALLBACK_PATH: &'static str = "/callback";

/// The registered redirect.
pub const CALLBACK_URL: &'static str = "http://localhost:53692/callback";

/// Key under which the credential is stored.
pub const AUTH_SCOPE: &'static str = "anthropic::oauth";

/// How this client is known to the provider.
#[derive(Debug, Clone)]
pub struct AnthropicClient {
    pub authorize_url: String,
    pub token_url: String,
    pub client_id: String,
    pub scopes: String,
    /// Seconds before its expiry at which a token is renewed.
    pub expiry_margin_secs: i64,
}

/// The registered redirect agrees with its own port and path.
pub proof fn law_callback_url_agrees()
    ensures
        CALLBACK_URL@ == "http://localhost:"@ + text::decimal(CALLBACK_PORT as nat)
            + CALLBACK_PATH@,
{
    reveal_strlit("http://localhost:53692/callback");
    reveal_strlit("http://localhost:");
    reveal_strlit("/callback");
    reveal_with_fuel(text::decimal, 6);
    assert(CALLBACK_URL@ =~= "http://localhost:"@ + text::decimal(53692) + CALLBACK_PATH@);
}

} // verus!
