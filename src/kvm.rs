//! The dedup cache over a key-value store: the manager's settings, the
//! writes it asks the store for, and the listing of cached keys.
use vstd::prelude::*;
use vstd::utf8::encode_utf8;
use crate::tools::{decimal, decimal_spec};

verus! {

/// Largest serialised metadata, in bytes, that a record may carry.
pub const METADATA_LIMIT: usize = 1024;

/// The metadata that replaces one over [`METADATA_LIMIT`].
pub const EMPTY_METADATA: &'static str = "{}";

/// The views of a sequence of strings.
pub open spec fn strings_view(v: Seq<String>) -> Seq<Seq<char>> {
    v.map_values(|s: String| s@)
}

/// One write to the store: key, value, time to live in seconds (none: the
/// record does not expire) and serialised metadata.
#[derive(Debug, Clone)]
pub struct PutRequest {
    pub key: String,
    pub value: String,
    pub expiration_ttl: Option<u64>,
    pub metadata: Option<String>,
}

/// What the store holds under one key.
pub struct StoredRecord {
    pub value: Seq<char>,
    pub expiration_ttl: Option<u64>,
    pub metadata: Option<Seq<char>>,
}

/// The record that a write leaves.
pub open spec fn record_of(req: PutRequest) -> StoredRecord {
    StoredRecord {
        value: req.value@,
        expiration_ttl: req.expiration_ttl,
        metadata: match req.metadata {
            Some(m) => Some(m@),
            None => None,
        },
    }
}

/// The store after a write: the key holds the new record, whatever it held.
pub open spec fn apply_put(store: Map<Seq<char>, StoredRecord>, req: PutRequest) -> Map<
    Seq<char>,
    StoredRecord,
> {
    store.insert(req.key@, record_of(req))
}

/// The key of the cache record of item `id`.
pub open spec fn cache_key_spec(prefix: Seq<char>, id: u64) -> Seq<char> {
    prefix + decimal_spec(id as nat)
}

/// The metadata a write carries: the given one, or the empty object where
/// it is larger than the limit.
pub open spec fn guarded_metadata(meta: Option<Seq<char>>) -> Option<Seq<char>> {
    match meta {
        Some(m) => if encode_utf8(m).len() <= METADATA_LIMIT {
            Some(m)
        } else {
            Some(EMPTY_METADATA@)
        },
        None => None,
    }
}

/// The dedup cache's settings: key namespace, retention marker key and
/// default time to live.
#[derive(Debug, Clone)]
pub struct KVManager {
    prefix: String,
    ttl_key: String,
    ttl_val: u64,
}

/// Whether `r` is the write of `value` under `key` that
/// [`KVManager::create`] forms.
pub open spec fn create_spec(
    r: PutRequest,
    kvm: KVManager,
    key: Seq<char>,
    value: Seq<char>,
    meta: Option<Seq<char>>,
    ttl: Option<u64>,
) -> bool {
    r.key@ == key && r.value@ == value && r.expiration_ttl == Some(
            match ttl {
                Some(t) => t,
                None => kvm.ttl_val_spec(),
            },
        ) && (match r.metadata {
            Some(m) => Some(m@),
            None => None,
        }) == guarded_metadata(meta)
}

impl KVManager {
    /// The settings' key namespace.
    pub closed spec fn prefix_spec(&self) -> Seq<char> {
        self.prefix@
    }

    /// The retention marker's key.
    pub closed spec fn ttl_key_spec(&self) -> Seq<char> {
        self.ttl_key@
    }

    /// The default time to live.
    pub closed spec fn ttl_val_spec(&self) -> u64 {
        self.ttl_val
    }

    fn new(prefix: String, ttl_key: String, ttl_val: u64) -> (r: Self)
        ensures
            r.prefix@ == prefix@,
            r.ttl_key@ == ttl_key@,
            r.ttl_val == ttl_val,
    {
        KVManager { prefix, ttl_key, ttl_val }
    }

    /// Sets up the cache, with the write that records the retention marker:
    /// the default time to live in decimal under `ttl_key`, without expiry.
    /// The write overwrites any earlier marker.
    pub fn init(prefix: String, ttl_key: String, ttl_val: u64) -> (r: (Self, PutRequest))
        ensures
            r.0.prefix_spec() == prefix@,
            r.0.ttl_key_spec() == ttl_key@,
            r.0.ttl_val_spec() == ttl_val,
            r.1.key@ == ttl_key@,
            r.1.value@ == decimal_spec(ttl_val as nat),
            r.1.expiration_ttl.is_none(),
            r.1.metadata.is_none(),
    {
        let marker = PutRequest {
            key: String::from_str(ttl_key.as_str()),
            value: decimal(ttl_val),
            expiration_ttl: None,
            metadata: None,
        };
        (KVManager::new(prefix, ttl_key, ttl_val), marker)
    }

    /// The key namespace.
    pub fn prefix(&self) -> (r: &str)
        ensures
            r@ == self.prefix_spec(),
    {
        self.prefix.as_str()
    }

    /// The retention marker's key.
    pub fn ttl_key(&self) -> (r: &str)
        ensures
            r@ == self.ttl_key_spec(),
    {
        self.ttl_key.as_str()
    }

    /// The default time to live, in seconds.
    pub fn ttl_val(&self) -> (r: u64)
        ensures
            r == self.ttl_val_spec(),
    {
        self.ttl_val
    }

    /// The key of the cache record of item `id`: the namespace, then the
    /// identifier in decimal.
    pub fn cache_key(&self, id: u64) -> (r: String)
        ensures
            r@ == cache_key_spec(self.prefix_spec(), id),
    {
        let mut k = String::from_str(self.prefix.as_str());
        k.append(decimal(id).as_str());
        k
    }

    /// Starts a listing of the keys under `prefix` (the namespace where none
    /// is given): one bounded page when `if_once`, else every page.
    pub fn list_keys(&self, prefix: Option<&str>, if_once: bool) -> (r: KeyListing)
        ensures
            r.prefix_spec() == match prefix {
                Some(p) => p@,
                None => self.prefix_spec(),
            },
            r.is_exhaustive() == !if_once,
            r.start_spec().is_none(),
            r.collected() == Seq::<Seq<char>>::empty(),
    {
        if if_once {
            self.list_once(prefix)
        } else {
            self.list_all(prefix, None)
        }
    }

    /// Starts a bounded listing: a single page of the keys under `prefix`
    /// (the namespace where none is given).
    pub fn list_once(&self, prefix: Option<&str>) -> (r: KeyListing)
        ensures
            r.prefix_spec() == match prefix {
                Some(p) => p@,
                None => self.prefix_spec(),
            },
            !r.is_exhaustive(),
            r.start_spec().is_none(),
            r.collected() == Seq::<Seq<char>>::empty(),
    {
        let p = match prefix {
            Some(p) => p,
            None => self.prefix.as_str(),
        };
        KeyListing::new(p, false, None)
    }

    /// Starts an exhaustive listing of the keys under `prefix` (the
    /// namespace where none is given), from `cursor` on.
    pub fn list_all(&self, prefix: Option<&str>, cursor: Option<&str>) -> (r: KeyListing)
        ensures
            r.prefix_spec() == match prefix {
                Some(p) => p@,
                None => self.prefix_spec(),
            },
            r.is_exhaustive(),
            r.start_spec() == opt_str_view(cursor),
            r.collected() == Seq::<Seq<char>>::empty(),
    {
        let p = match prefix {
            Some(p) => p,
            None => self.prefix.as_str(),
        };
        KeyListing::new(p, true, cursor)
    }

    /// Whether serialised metadata fits in a record.
    fn check_meta_limit(&self, meta: &str) -> (r: bool)
        ensures
            r == (encode_utf8(meta@).len() <= METADATA_LIMIT),
    {
        meta.as_bytes().len() <= METADATA_LIMIT
    }

    /// The write of a cache record: `ttl` seconds to live, the default where
    /// none is given; metadata larger than the limit is replaced by the empty
    /// object, so that the record is written all the same.
    pub fn create(&self, key: &str, value: &str, meta: Option<&str>, ttl: Option<u64>) -> (r:
        PutRequest)
        ensures
            create_spec(r, *self, key@, value@, opt_str_view(meta), ttl),
    {
        let expiration = match ttl {
            Some(t) => t,
            None => self.ttl_val,
        };
        let metadata = match meta {
            Some(m) => if self.check_meta_limit(m) {
                Some(String::from_str(m))
            } else {
                Some(String::from_str(EMPTY_METADATA))
            },
            None => None,
        };
        PutRequest {
            key: String::from_str(key),
            value: String::from_str(value),
            expiration_ttl: Some(expiration),
            metadata,
        }
    }
}

/// Relies on `uuid::Uuid::new_v4`, written in the hyphenated form, which
/// is 36 characters long; the identifier is random.
#[verifier::external_body]
fn new_correlation_id() -> (r: String)
    ensures
        r@.len() == 36,
{
    uuid::Uuid::new_v4().hyphenated().to_string()
}

/// Metadata of a cache record: a correlation identifier and two enrichment
/// fields.
#[derive(Debug, Clone)]
pub struct KVMeta {
    pub uuid: String,
    pub llm_summary: Option<String>,
    pub llm_score: Option<String>,
}

impl KVMeta {
    /// Metadata with correlation identifier `uuid` and no enrichment.
    pub fn new(uuid: String) -> (r: Self)
        ensures
            r.uuid@ == uuid@,
            r.llm_summary.is_none(),
            r.llm_score.is_none(),
    {
        KVMeta { uuid, llm_summary: None, llm_score: None }
    }

    /// Metadata with a freshly generated correlation identifier and no
    /// enrichment.
    pub fn fresh() -> (r: Self)
        ensures
            r.uuid@.len() == 36,
            r.llm_summary.is_none(),
            r.llm_score.is_none(),
    {
        KVMeta::new(new_correlation_id())
    }

    /// The same metadata with the summary set to `summary`.
    pub fn with_llm_summary(self, summary: Option<String>) -> (r: Self)
        ensures
            r.uuid == self.uuid,
            r.llm_summary == summary,
            r.llm_score == self.llm_score,
    {
        KVMeta { llm_summary: summary, ..self }
    }

    /// The same metadata with the score set to `score`.
    pub fn with_llm_score(self, score: Option<String>) -> (r: Self)
        ensures
            r.uuid == self.uuid,
            r.llm_summary == self.llm_summary,
            r.llm_score == score,
    {
        KVMeta { llm_score: score, ..self }
    }
}

/// A request for one page of keys under `prefix`, from `cursor` on (none:
/// from the start).
#[derive(Debug, Clone)]
pub struct ListRequest {
    pub prefix: String,
    pub cursor: Option<String>,
}

/// One page of keys as the store answered it: whether the listing is
/// complete, and where the next page starts.
#[derive(Debug, Clone)]
pub struct ListPage {
    pub keys: Vec<String>,
    pub list_complete: bool,
    pub cursor: Option<String>,
}

/// What a listing asks for next: another page, or nothing more, with the
/// keys gathered and whether the store reported them incomplete.
#[derive(Debug, Clone)]
pub enum ListStep {
    Fetch(ListRequest),
    Done { keys: Vec<String>, truncated: bool },
}

/// A listing of the keys under a prefix: bounded (one page) or exhaustive
/// (following the store's cursor to the end).
#[derive(Debug)]
pub struct KeyListing {
    prefix: String,
    exhaustive: bool,
    start: Option<String>,
    keys: Vec<String>,
}

/// Whether a listing asks for the page after `page`.
pub open spec fn wants_next_page(exhaustive: bool, page: ListPage) -> bool {
    exhaustive && !page.list_complete && page.cursor.is_some()
}

impl KeyListing {
    /// The prefix listed.
    pub closed spec fn prefix_spec(&self) -> Seq<char> {
        self.prefix@
    }

    /// Whether the listing follows the cursor to the end.
    pub closed spec fn is_exhaustive(&self) -> bool {
        self.exhaustive
    }

    /// Where the first page starts.
    pub closed spec fn start_spec(&self) -> Option<Seq<char>> {
        opt_string_view(self.start)
    }

    /// The keys of the pages received so far and not yet handed out.
    pub closed spec fn collected(&self) -> Seq<Seq<char>> {
        strings_view(self.keys@)
    }

    fn new(prefix: &str, exhaustive: bool, start: Option<&str>) -> (r: Self)
        ensures
            r.prefix_spec() == prefix@,
            r.is_exhaustive() == exhaustive,
            r.start_spec() == opt_str_view(start),
            r.collected() == Seq::<Seq<char>>::empty(),
    {
        let start = match start {
            Some(c) => Some(String::from_str(c)),
            None => None,
        };
        let r = KeyListing { prefix: String::from_str(prefix), exhaustive, start, keys: Vec::new() };
        assert(r.collected() =~= Seq::<Seq<char>>::empty());
        r
    }

    /// The request for the first page.
    pub fn first_request(&self) -> (r: ListRequest)
        ensures
            r.prefix@ == self.prefix_spec(),
            opt_string_view(r.cursor) == self.start_spec(),
    {
        let cursor = match &self.start {
            Some(c) => Some(String::from_str(c.as_str())),
            None => None,
        };
        ListRequest { prefix: String::from_str(self.prefix.as_str()), cursor }
    }

    /// Takes in the page that the store answered. An exhaustive listing asks
    /// for the next page while the store reports more and gives a cursor; a
    /// bounded one stops after its page. When it stops it hands out every
    /// key received, in order, and whether the store reported them
    /// incomplete.
    pub fn on_page(&mut self, page: ListPage) -> (r: ListStep)
        ensures
            final(self).prefix_spec() == old(self).prefix_spec(),
            final(self).is_exhaustive() == old(self).is_exhaustive(),
            final(self).start_spec() == old(self).start_spec(),
            match r {
                ListStep::Fetch(req) => {
                    &&& wants_next_page(old(self).is_exhaustive(), page)
                    &&& req.prefix@ == old(self).prefix_spec()
                    &&& opt_string_view(req.cursor) == opt_string_view(page.cursor)
                    &&& final(self).collected() == old(self).collected() + strings_view(page.keys@)
                },
                ListStep::Done { keys, truncated } => {
                    &&& !wants_next_page(old(self).is_exhaustive(), page)
                    &&& strings_view(keys@) == old(self).collected() + strings_view(page.keys@)
                    &&& truncated == !page.list_complete
                    &&& final(self).collected() == Seq::<Seq<char>>::empty()
                },
            },
    {
        let ghost before = self.keys@;
        let ListPage { keys, list_complete, cursor } = page;
        let mut keys = keys;
        let ghost page_keys = keys@;
        self.keys.append(&mut keys);
        assert(strings_view(self.keys@) =~= strings_view(before) + strings_view(page_keys));
        if self.exhaustive && !list_complete && cursor.is_some() {
            ListStep::Fetch(ListRequest { prefix: String::from_str(self.prefix.as_str()), cursor })
        } else {
            let mut out: Vec<String> = Vec::new();
            std::mem::swap(&mut out, &mut self.keys);
            assert(strings_view(self.keys@) =~= Seq::<Seq<char>>::empty());
            ListStep::Done { keys: out, truncated: !list_complete }
        }
    }
}

/// The view of an optional string.
pub open spec fn opt_string_view(s: Option<String>) -> Option<Seq<char>> {
    match s {
        Some(t) => Some(t@),
        None => None,
    }
}

/// The view of an optional string slice.
pub open spec fn opt_str_view(s: Option<&str>) -> Option<Seq<char>> {
    match s {
        Some(t) => Some(t@),
        None => None,
    }
}

/// Writing the cache record of one item twice leaves one record under its
/// key: the second write's.
pub proof fn lemma_create_twice_keeps_last(
    kvm: KVManager,
    store: Map<Seq<char>, StoredRecord>,
    id: u64,
    first: PutRequest,
    second: PutRequest,
    v1: Seq<char>,
    v2: Seq<char>,
    m1: Option<Seq<char>>,
    m2: Option<Seq<char>>,
    t1: Option<u64>,
    t2: Option<u64>,
)
    requires
        create_spec(first, kvm, cache_key_spec(kvm.prefix_spec(), id), v1, m1, t1),
        create_spec(second, kvm, cache_key_spec(kvm.prefix_spec(), id), v2, m2, t2),
    ensures
        apply_put(apply_put(store, first), second) == apply_put(store, second),
        apply_put(apply_put(store, first), second).dom().contains(
            cache_key_spec(kvm.prefix_spec(), id),
        ),
        apply_put(apply_put(store, first), second)[cache_key_spec(kvm.prefix_spec(), id)].value
            == v2,
{
    assert(apply_put(apply_put(store, first), second) =~= apply_put(store, second));
}

/// A write whose metadata is larger than the limit still stores its value,
/// with the empty object as metadata.
pub proof fn lemma_oversized_metadata_still_written(
    kvm: KVManager,
    store: Map<Seq<char>, StoredRecord>,
    req: PutRequest,
    key: Seq<char>,
    value: Seq<char>,
    meta: Seq<char>,
    ttl: Option<u64>,
)
    requires
        create_spec(req, kvm, key, value, Some(meta), ttl),
        encode_utf8(meta).len() > METADATA_LIMIT,
    ensures
        apply_put(store, req).dom().contains(key),
        apply_put(store, req)[key].value == value,
        apply_put(store, req)[key].metadata == Some(EMPTY_METADATA@),
{
}

} // verus!
