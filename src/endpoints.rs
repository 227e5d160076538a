//! Addresses of the chat platform's Bot API.
use vstd::prelude::*;
use vstd::string::StringExecFns;

verus! {

pub open spec fn api_base_spec(token: Seq<char>) -> Seq<char> {
    "https://api.telegram.org/bot"@ + token + "/"@
}

/// The Bot API base address for the bot with `token`; method names are
/// joined onto it.
pub fn telegram_api_base(token: &str) -> (r: String)
    ensures
        r@ == api_base_spec(token@),
{
    let mut url = String::from_str("https://api.telegram.org/bot");
    url.append(token);
    url.append("/");
    url
}

} // verus!
