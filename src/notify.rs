//! The notification formatter: message text and the two link buttons of one
//! feed item.
use vstd::prelude::*;
use vstd::string::*;
use crate::hn::{opt_view, HackerNewsItem};
use crate::tools::{base56_spec, decimal, decimal_spec, encode_base56};

verus! {

/// The feed's item page; the item's identifier goes in its `id` query pair.
pub const HN_ITEM_URL: &'static str = "https://news.ycombinator.com/item/";

/// Base of the shortened links.
pub const SHORT_LINK_BASE: &'static str = "https://readhacker.news";

/// One inline button of a notification.
#[derive(Debug, Clone)]
pub struct Button {
    pub label: String,
    pub url: String,
}

/// A formatted notification: markup text and its buttons, in order.
#[derive(Debug, Clone)]
pub struct Notification {
    pub text: String,
    pub buttons: Vec<Button>,
}

/// A button as a pair of label and target.
pub open spec fn button_view(b: Button) -> (Seq<char>, Seq<char>) {
    (b.label@, b.url@)
}

impl View for Notification {
    type V = (Seq<char>, Seq<(Seq<char>, Seq<char>)>);

    open spec fn view(&self) -> Self::V {
        (self.text@, self.buttons@.map_values(|b: Button| button_view(b)))
    }
}

/// The serialised URL of `base` with the single query pair `key=value`, or
/// nothing where `base` does not parse.
pub uninterp spec fn url_with_query_of(base: Seq<char>, key: Seq<char>, value: Seq<char>) -> Option<
    Seq<char>,
>;

/// Relies on `url::Url::parse_with_params` (re-exported by `worker`): it
/// parses `base`, appends the query pair, and the result depends on the
/// three strings alone.
#[verifier::external_body]
pub(crate) fn url_with_query(base: &str, key: &str, value: &str) -> (r: Option<String>)
    ensures
        opt_view(r) == url_with_query_of(base@, key@, value@),
{
    match worker::Url::parse_with_params(base, &[(key, value)]) {
        Ok(u) => Some(String::from(u)),
        Err(_) => None,
    }
}

/// Markup escape of one character.
pub open spec fn escape_char(c: char) -> Seq<char> {
    if c == '&' {
        "&amp;"@
    } else if c == '<' {
        "&lt;"@
    } else if c == '>' {
        "&gt;"@
    } else if c == '"' {
        "&quot;"@
    } else if c == '\'' {
        "&#39;"@
    } else {
        seq![c]
    }
}

/// Markup escape of a string, character by character.
pub open spec fn escape_spec(s: Seq<char>) -> Seq<char>
    decreases s.len(),
{
    if s.len() == 0 {
        Seq::empty()
    } else {
        escape_spec(s.drop_last()) + escape_char(s.last())
    }
}

/// Escapes `&`, `<`, `>`, `"` and `'` for embedding in simple markup.
pub fn escape_html(s: &str) -> (r: String)
    ensures
        r@ == escape_spec(s@),
{
    let n = s.unicode_len();
    let mut out = String::new();
    let mut i: usize = 0;
    while i < n
        invariant
            n == s@.len(),
            i <= n,
            out@ == escape_spec(s@.subrange(0, i as int)),
        decreases n - i,
    {
        let c = s.get_char(i);
        assert(s@.subrange(0, i + 1).drop_last() =~= s@.subrange(0, i as int));
        if c == '&' {
            out.append("&amp;");
        } else if c == '<' {
            out.append("&lt;");
        } else if c == '>' {
            out.append("&gt;");
        } else if c == '"' {
            out.append("&quot;");
        } else if c == '\'' {
            out.append("&#39;");
        } else {
            let one = s.substring_char(i, i + 1);
            assert(one@ =~= seq![c]);
            out.append(one);
        }
        i = i + 1;
    }
    assert(s@.subrange(0, n as int) =~= s@);
    out
}

/// The short discussion link of an item with short code `code`.
pub open spec fn short_discussion_spec(code: Seq<char>) -> Seq<char> {
    SHORT_LINK_BASE@ + "/c/"@ + code
}

/// The short story link: its own where the item links out, else the short
/// discussion link.
pub open spec fn short_story_spec(item: HackerNewsItem, code: Seq<char>) -> Seq<char> {
    if item.url.is_some() {
        SHORT_LINK_BASE@ + "/s/"@ + code
    } else {
        short_discussion_spec(code)
    }
}

/// The message body: bold escaped title and status marker, the score and
/// author line, a blank line, then the story and discussion links.
pub open spec fn message_spec(
    item: HackerNewsItem,
    status: Seq<char>,
    short_story_url: Seq<char>,
    short_hn_url: Seq<char>,
) -> Seq<char> {
    let title = match item.title {
        Some(t) => t@,
        None => "Untitled"@,
    };
    let credit = match item.score {
        Some(s) => "Score: "@ + decimal_spec(s as nat) + "+ · "@ + "by "@ + item.by@,
        None => "by "@ + item.by@,
    };
    "<b>"@ + escape_spec(title) + "</b> "@ + status + "\n("@ + credit + ")"@
        + "\n\n<b>Link:</b> "@ + short_story_url + "\n<b>Comments:</b> "@ + short_hn_url
}

/// Label of the first button.
pub open spec fn read_label(item: HackerNewsItem) -> Seq<char> {
    if item.url.is_some() {
        "Read HN"@
    } else {
        "Read"@
    }
}

/// Label of the second button.
pub open spec fn comments_label(item: HackerNewsItem) -> Seq<char> {
    match item.decendants {
        Some(n) => "Comments "@ + decimal_spec(n as nat) + "+"@,
        None => "Comments"@,
    }
}

/// The whole notification of `item`, given its full discussion link.
pub open spec fn notification_spec(item: HackerNewsItem, status: Seq<char>, hn_url: Seq<char>) -> (
    Seq<char>,
    Seq<(Seq<char>, Seq<char>)>,
) {
    let code = base56_spec(item.item_id as nat);
    let story_url = match item.url {
        Some(u) => u@,
        None => hn_url,
    };
    (
        message_spec(
            item,
            status,
            short_story_spec(item, code),
            short_discussion_spec(code),
        ),
        seq![
            (read_label(item), story_url),
            (comments_label(item), short_discussion_spec(code)),
        ],
    )
}

/// Builds the message body of a notification.
pub fn build_tg_message(
    payload: &HackerNewsItem,
    status_emoji: &str,
    short_story_url: &str,
    short_hn_url: &str,
) -> (r: String)
    ensures
        r@ == message_spec(*payload, status_emoji@, short_story_url@, short_hn_url@),
{
    let title = match &payload.title {
        Some(t) => escape_html(t.as_str()),
        None => escape_html("Untitled"),
    };
    let mut msg = String::from_str("<b>");
    msg.append(title.as_str());
    msg.append("</b> ");
    msg.append(status_emoji);
    msg.append("\n(");
    match payload.score {
        Some(s) => {
            msg.append("Score: ");
            msg.append(decimal(s).as_str());
            msg.append("+ · ");
        },
        None => {},
    }
    msg.append("by ");
    msg.append(payload.by.as_str());
    msg.append(")");
    msg.append("\n\n<b>Link:</b> ");
    msg.append(short_story_url);
    msg.append("\n<b>Comments:</b> ");
    msg.append(short_hn_url);
    assert(msg@ =~= message_spec(*payload, status_emoji@, short_story_url@, short_hn_url@));
    msg
}

/// Builds the notification of `payload`, given its full discussion link.
pub fn build_notification(payload: &HackerNewsItem, status_emoji: &str, hn_url: &str) -> (r:
    Notification)
    ensures
        r@ == notification_spec(*payload, status_emoji@, hn_url@),
{
    let code = encode_base56(payload.item_id);
    let mut short_hn_url = String::from_str(SHORT_LINK_BASE);
    short_hn_url.append("/c/");
    short_hn_url.append(code.as_str());
    let (story_url, short_story_url, read) = match &payload.url {
        Some(u) => {
            let mut s = String::from_str(SHORT_LINK_BASE);
            s.append("/s/");
            s.append(code.as_str());
            (String::from_str(u.as_str()), s, "Read HN")
        },
        None => (String::from_str(hn_url), String::from_str(short_hn_url.as_str()), "Read"),
    };
    let comments = match payload.decendants {
        Some(n) => {
            let mut c = String::from_str("Comments ");
            c.append(decimal(n).as_str());
            c.append("+");
            c
        },
        None => String::from_str("Comments"),
    };
    let text = build_tg_message(payload, status_emoji, short_story_url.as_str(), short_hn_url.as_str());
    let first = Button { label: String::from_str(read), url: story_url };
    let second = Button { label: comments, url: short_hn_url };
    let buttons: Vec<Button> = vec![first, second];
    let r = Notification { text, buttons };
    assert(r@.1 =~= notification_spec(*payload, status_emoji@, hn_url@).1);
    r
}

/// The full discussion link of item `id`, as the item page with the
/// identifier in its query.
pub open spec fn discussion_url_spec(id: u64) -> Option<Seq<char>> {
    url_with_query_of(HN_ITEM_URL@, "id"@, decimal_spec(id as nat))
}

/// Formats the notification of `payload`: nothing where the item page's URL
/// cannot be formed.
pub fn format_notification(payload: &HackerNewsItem, status_emoji: &str) -> (r: Option<
    Notification,
>)
    ensures
        match discussion_url_spec(payload.item_id) {
            Some(u) => r matches Some(n) && n@ == notification_spec(*payload, status_emoji@, u),
            None => r.is_none(),
        },
{
    let id = decimal(payload.item_id);
    match url_with_query(HN_ITEM_URL, "id", id.as_str()) {
        Some(hn_url) => Some(build_notification(payload, status_emoji, hn_url.as_str())),
        None => None,
    }
}

} // verus!
