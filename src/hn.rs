//! The feed's data: one content item, the feed categories and their wire
//! names.
use vstd::prelude::*;
use crate::notify::{url_with_query, url_with_query_of};
use crate::tools::{decimal, decimal_spec, text_eq};

verus! {

/// One entry of the upstream feed, as it is fetched.
#[derive(Debug, Clone)]
pub struct HackerNewsItem {
    pub item_id: u64,
    pub item_deleted: Option<bool>,
    pub item_dead: Option<bool>,
    pub item_type: Option<String>,
    pub by: String,
    pub timestamp: u64,
    pub text: Option<String>,
    pub parent: Option<u64>,
    pub poll: Option<u64>,
    pub kids: Option<Vec<u64>>,
    pub url: Option<String>,
    pub score: Option<u64>,
    pub title: Option<String>,
    pub parts: Option<Vec<u64>>,
    pub decendants: Option<u64>,
}

/// The view of an optional string.
pub open spec fn opt_view(s: Option<String>) -> Option<Seq<char>> {
    match s {
        Some(t) => Some(t@),
        None => None,
    }
}

impl HackerNewsItem {
    /// A fixed story for trying the pipeline without the feed.
    pub fn mock() -> (r: Self)
        ensures
            r.item_id == 1,
            r.item_deleted == Some(false),
            r.item_dead == Some(false),
            opt_view(r.item_type) == Some("story"@),
            r.by@ == "tester"@,
            r.timestamp == 1_700_000_000,
            opt_view(r.text) == Some("Test text"@),
            r.parent.is_none(),
            r.poll.is_none(),
            r.kids matches Some(k) && k@ == seq![2u64, 3u64],
            opt_view(r.url) == Some("https://example.com"@),
            r.score == Some(200u64),
            opt_view(r.title) == Some("Test Title"@),
            r.parts.is_none(),
            r.decendants == Some(10u64),
    {
        let kids: Vec<u64> = vec![2, 3];
        HackerNewsItem {
            item_id: 1,
            item_deleted: Some(false),
            item_dead: Some(false),
            item_type: Some(String::from_str("story")),
            by: String::from_str("tester"),
            timestamp: 1_700_000_000,
            text: Some(String::from_str("Test text")),
            parent: None,
            poll: None,
            kids: Some(kids),
            url: Some(String::from_str("https://example.com")),
            score: Some(200),
            title: Some(String::from_str("Test Title")),
            parts: None,
            decendants: Some(10),
        }
    }
}

/// The feed's categories of live data.
#[derive(Debug, Clone, Copy, PartialEq, Eq, Hash, Structural)]
pub enum LiveDataTypes {
    MaxItem,
    TopHn,
    NewHn,
    BestHn,
    AskHn,
    ShowHn,
    JobHn,
    Updates,
}

/// A feed category used as a key.
pub type LiveDataKey = LiveDataTypes;

/// Wire name of each category.
pub open spec fn wire_name(k: LiveDataKey) -> Seq<char> {
    match k {
        LiveDataTypes::MaxItem => "max_item"@,
        LiveDataTypes::TopHn => "top_hn"@,
        LiveDataTypes::NewHn => "new_hn"@,
        LiveDataTypes::BestHn => "best_hn"@,
        LiveDataTypes::AskHn => "ask_hn"@,
        LiveDataTypes::ShowHn => "show_hn"@,
        LiveDataTypes::JobHn => "job_hn"@,
        LiveDataTypes::Updates => "updates"@,
    }
}

/// Name of the feed's endpoint that serves each category.
pub open spec fn endpoint_name(k: LiveDataKey) -> Seq<char> {
    match k {
        LiveDataTypes::MaxItem => "maxitem"@,
        LiveDataTypes::TopHn => "topstories"@,
        LiveDataTypes::NewHn => "newstories"@,
        LiveDataTypes::BestHn => "beststories"@,
        LiveDataTypes::AskHn => "askstories"@,
        LiveDataTypes::ShowHn => "showstories"@,
        LiveDataTypes::JobHn => "jobstories"@,
        LiveDataTypes::Updates => "updates"@,
    }
}

impl LiveDataTypes {
    /// The wire name of this category.
    pub fn as_str(&self) -> (r: &'static str)
        ensures
            r@ == wire_name(*self),
    {
        match self {
            LiveDataTypes::MaxItem => "max_item",
            LiveDataTypes::TopHn => "top_hn",
            LiveDataTypes::NewHn => "new_hn",
            LiveDataTypes::BestHn => "best_hn",
            LiveDataTypes::AskHn => "ask_hn",
            LiveDataTypes::ShowHn => "show_hn",
            LiveDataTypes::JobHn => "job_hn",
            LiveDataTypes::Updates => "updates",
        }
    }

    /// The feed endpoint that serves this category.
    pub fn endpoint(&self) -> (r: &'static str)
        ensures
            r@ == endpoint_name(*self),
    {
        match self {
            LiveDataTypes::MaxItem => "maxitem",
            LiveDataTypes::TopHn => "topstories",
            LiveDataTypes::NewHn => "newstories",
            LiveDataTypes::BestHn => "beststories",
            LiveDataTypes::AskHn => "askstories",
            LiveDataTypes::ShowHn => "showstories",
            LiveDataTypes::JobHn => "jobstories",
            LiveDataTypes::Updates => "updates",
        }
    }

    /// The category whose wire name is `s`; an unknown name is an error
    /// that holds it.
    pub fn parse(s: &str) -> (r: Result<LiveDataKey, UnknownLiveDataKey>)
        ensures
            match r {
                Ok(k) => wire_name(k) == s@,
                Err(e) => (forall|k: LiveDataKey| wire_name(k) != s@) && e.name@ == s@,
            },
    {
        if text_eq(s, "max_item") {
            return Ok(LiveDataTypes::MaxItem);
        }
        if text_eq(s, "top_hn") {
            return Ok(LiveDataTypes::TopHn);
        }
        if text_eq(s, "new_hn") {
            return Ok(LiveDataTypes::NewHn);
        }
        if text_eq(s, "best_hn") {
            return Ok(LiveDataTypes::BestHn);
        }
        if text_eq(s, "ask_hn") {
            return Ok(LiveDataTypes::AskHn);
        }
        if text_eq(s, "show_hn") {
            return Ok(LiveDataTypes::ShowHn);
        }
        if text_eq(s, "job_hn") {
            return Ok(LiveDataTypes::JobHn);
        }
        if text_eq(s, "updates") {
            return Ok(LiveDataTypes::Updates);
        }
        assert forall|k: LiveDataKey| wire_name(k) != s@ by {
            match k {
                LiveDataTypes::MaxItem => assert(s@ != "max_item"@),
                LiveDataTypes::TopHn => assert(s@ != "top_hn"@),
                LiveDataTypes::NewHn => assert(s@ != "new_hn"@),
                LiveDataTypes::BestHn => assert(s@ != "best_hn"@),
                LiveDataTypes::AskHn => assert(s@ != "ask_hn"@),
                LiveDataTypes::ShowHn => assert(s@ != "show_hn"@),
                LiveDataTypes::JobHn => assert(s@ != "job_hn"@),
                LiveDataTypes::Updates => assert(s@ != "updates"@),
            }
        }
        Err(UnknownLiveDataKey { name: String::from_str(s) })
    }
}

/// A name that is the wire name of no feed category.
#[derive(Debug, Clone, PartialEq, Eq)]
pub struct UnknownLiveDataKey {
    pub name: String,
}

impl UnknownLiveDataKey {
    /// The error's message, quoting the name.
    pub fn message(&self) -> (r: String)
        ensures
            r@ == "Unknown LiveDataKey: "@ + self.name@,
    {
        let mut msg = String::from_str("Unknown LiveDataKey: ");
        msg.append(self.name.as_str());
        msg
    }
}

impl std::str::FromStr for LiveDataTypes {
    type Err = UnknownLiveDataKey;

    fn from_str(s: &str) -> Result<LiveDataKey, UnknownLiveDataKey> {
        LiveDataTypes::parse(s)
    }
}

/// Base URL of the feed's API.
pub const HN_BASE_URL: &'static str = "https://hacker-news.firebaseio.com/v0/";

/// Number of top identifiers kept when no limit is given.
pub const TOP_STORIES_LIMIT: u16 = 20;

/// The URL of a feed endpoint: the API base, the endpoint, and the query
/// pair `print=pretty`; nothing where that URL does not parse.
pub fn feed_url(endpoint: &str) -> (r: Option<String>)
    ensures
        opt_view(r) == url_with_query_of(HN_BASE_URL@ + endpoint@, "print"@, "pretty"@),
{
    let mut base = String::from_str(HN_BASE_URL);
    base.append(endpoint);
    url_with_query(base.as_str(), "print", "pretty")
}

/// The endpoint of item `id`.
pub fn item_endpoint(id: u64) -> (r: String)
    ensures
        r@ == "item/"@ + decimal_spec(id as nat) + ".json"@,
{
    let mut e = String::from_str("item/");
    e.append(decimal(id).as_str());
    e.append(".json");
    e
}

/// Whether an HTTP status counts as success: 200 to 299.
pub fn is_success(status: u16) -> (r: bool)
    ensures
        r == (200 <= status < 300),
{
    200 <= status && status < 300
}

/// The first `limit` top identifiers (twenty where none is given), in the
/// feed's order.
pub fn take_top(ids: Vec<u64>, limit: Option<u16>) -> (r: Vec<u64>)
    ensures
        r@ == ids@.take(
            if ids@.len() < limit.unwrap_or(TOP_STORIES_LIMIT) {
                ids@.len() as int
            } else {
                limit.unwrap_or(TOP_STORIES_LIMIT) as int
            },
        ),
{
    let mut ids = ids;
    let n = match limit {
        Some(l) => l,
        None => TOP_STORIES_LIMIT,
    };
    ids.truncate(n as usize);
    ids
}

/// Presentation settings of one feed category.
#[derive(Debug, Clone)]
pub struct LiveDataConfig {
    pub endpoint: String,
    pub label: String,
    pub description: Option<String>,
    pub default_limit: Option<u16>,
    pub default_score: Option<u16>,
}

/// The settings of a feed category.
pub type LiveDataValue = LiveDataConfig;

} // verus!
