//! Where the informational routes point.
use vstd::prelude::*;
use crate::hn::{endpoint_name, LiveDataKey, HN_BASE_URL};
use crate::tools::{decimal, decimal_spec, text_eq};

verus! {

/// The message of a refused item route.
pub const ITEM_ROUTE_ONLY: &'static str = "Only forward/item/<number> is allowed";

/// The feed URL that a category's route redirects to.
pub fn forward_key_target(key: LiveDataKey) -> (r: String)
    ensures
        r@ == HN_BASE_URL@ + endpoint_name(key) + ".json"@,
{
    let mut u = String::from_str(HN_BASE_URL);
    u.append(key.endpoint());
    u.append(".json");
    u
}

/// The feed URL that an item route redirects to; only the kind `item` is
/// served, any other is refused with a message.
pub fn forward_item_target(item: &str, id: u64) -> (r: Result<String, String>)
    ensures
        match r {
            Ok(u) => item@ == "item"@ && u@ == HN_BASE_URL@ + "item/"@ + decimal_spec(id as nat)
                + ".json"@,
            Err(msg) => item@ != "item"@ && msg@ == ITEM_ROUTE_ONLY@,
        },
{
    if !text_eq(item, "item") {
        return Err(String::from_str(ITEM_ROUTE_ONLY));
    }
    let mut u = String::from_str(HN_BASE_URL);
    u.append("item/");
    u.append(decimal(id).as_str());
    u.append(".json");
    Ok(u)
}

/// Base URL of the messaging API.
pub const TG_BASE_URL: &'static str = "https://api.telegram.org/";

/// The URL that sends a message as the bot with credential `token`.
pub fn send_message_url(token: &str) -> (r: String)
    ensures
        r@ == TG_BASE_URL@ + "bot"@ + token@ + "/sendMessage"@,
{
    let mut u = String::from_str(TG_BASE_URL);
    u.append("bot");
    u.append(token);
    u.append("/sendMessage");
    u
}

} // verus!
