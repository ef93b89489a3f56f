//! The scheduled job: the dedup index, the selection policy, and the
//! state machine that runs one pass from cache set-up to notification.
use vstd::prelude::*;
use crate::config::{
    HN_PREFIX, KV_TTL_KEY, KV_TTL_VAL, LIMIT_DEFAULT, MIN_SCORE_DEFAULT, STATUS_MARKER,
    UNIX_TIME_DEFAULT,
};
use crate::hn::HackerNewsItem;
use crate::kvm::{cache_key_spec, strings_view, KVManager, KeyListing, PutRequest};
use crate::notify::{discussion_url_spec, format_notification, notification_spec, Notification};
use crate::tools::{decimal_spec, decimal_value, parse_decimal, starts_with, strip_prefix};

verus! {

/// The identifier that a cache key stands for: what follows the namespace,
/// read as a decimal number.
pub open spec fn key_id(key: Seq<char>, prefix: Seq<char>) -> Option<u64> {
    if starts_with(key, prefix) {
        decimal_value(key.skip(prefix.len() as int))
    } else {
        None
    }
}

/// The identifiers of the keys that stand for one, in order.
pub open spec fn index_spec(keys: Seq<Seq<char>>, prefix: Seq<char>) -> Seq<u64>
    decreases keys.len(),
{
    if keys.len() == 0 {
        Seq::empty()
    } else {
        let rest = index_spec(keys.drop_last(), prefix);
        match key_id(keys.last(), prefix) {
            Some(id) => rest.push(id),
            None => rest,
        }
    }
}

/// The keys that stand for no identifier, in order.
pub open spec fn skipped_spec(keys: Seq<Seq<char>>, prefix: Seq<char>) -> Seq<Seq<char>>
    decreases keys.len(),
{
    if keys.len() == 0 {
        Seq::empty()
    } else {
        let rest = skipped_spec(keys.drop_last(), prefix);
        match key_id(keys.last(), prefix) {
            Some(id) => rest,
            None => rest.push(keys.last()),
        }
    }
}

/// The identifiers already cached in this run, and the listed keys that do
/// not have the form namespace-then-digits.
#[derive(Debug, Clone)]
pub struct DedupIndex {
    pub ids: Vec<u64>,
    pub skipped: Vec<String>,
}

/// Whether `v` holds `id`.
pub fn contains_id(v: &Vec<u64>, id: u64) -> (r: bool)
    ensures
        r == v@.contains(id),
{
    let mut i: usize = 0;
    while i < v.len()
        invariant
            i <= v@.len(),
            forall|j: int| 0 <= j < i ==> v@[j] != id,
        decreases v@.len() - i,
    {
        if v[i] == id {
            return true;
        }
        i = i + 1;
    }
    false
}

impl DedupIndex {
    /// Builds the index from the listed keys: each key made of `prefix` and
    /// a decimal number gives that number; any other key is set aside.
    pub fn build(keys: &Vec<String>, prefix: &str) -> (r: Self)
        ensures
            r.ids@ == index_spec(strings_view(keys@), prefix@),
            strings_view(r.skipped@) == skipped_spec(strings_view(keys@), prefix@),
    {
        let mut ids: Vec<u64> = Vec::new();
        let mut skipped: Vec<String> = Vec::new();
        let mut i: usize = 0;
        while i < keys.len()
            invariant
                i <= keys@.len(),
                ids@ == index_spec(strings_view(keys@.subrange(0, i as int)), prefix@),
                strings_view(skipped@) == skipped_spec(
                    strings_view(keys@.subrange(0, i as int)),
                    prefix@,
                ),
            decreases keys@.len() - i,
        {
            let key = keys[i].as_str();
            let ghost before = strings_view(keys@.subrange(0, i as int));
            let ghost now = strings_view(keys@.subrange(0, i + 1));
            assert(now.drop_last() =~= before);
            assert(now.last() == key@);
            let parsed = match strip_prefix(key, prefix) {
                Some(rest) => parse_decimal(rest),
                None => None,
            };
            match parsed {
                Some(id) => ids.push(id),
                None => {
                    let ghost old_skipped = skipped@;
                    skipped.push(String::from_str(key));
                    assert(strings_view(skipped@) =~= strings_view(old_skipped).push(key@));
                },
            }
            i = i + 1;
        }
        assert(keys@.subrange(0, keys@.len() as int) =~= keys@);
        DedupIndex { ids, skipped }
    }

    /// Whether item `id` is already cached.
    pub fn contains(&self, id: u64) -> (r: bool)
        ensures
            r == self.ids@.contains(id),
    {
        contains_id(&self.ids, id)
    }
}

/// The score that the policy reads: none counts as zero.
pub open spec fn effective_score(item: HackerNewsItem) -> u64 {
    match item.score {
        Some(s) => s,
        None => 0,
    }
}

/// The selection policy: score and creation time at least the thresholds
/// (inclusive), and not cached yet.
pub open spec fn is_selected(
    item: HackerNewsItem,
    cached: Seq<u64>,
    min_score: u64,
    min_timestamp: u64,
) -> bool {
    &&& effective_score(item) >= min_score
    &&& item.timestamp >= min_timestamp
    &&& !cached.contains(item.item_id)
}

/// The items that the policy accepts, in feed order.
pub open spec fn selection_spec(
    items: Seq<HackerNewsItem>,
    cached: Seq<u64>,
    min_score: u64,
    min_timestamp: u64,
) -> Seq<HackerNewsItem>
    decreases items.len(),
{
    if items.len() == 0 {
        Seq::empty()
    } else {
        let rest = selection_spec(items.drop_last(), cached, min_score, min_timestamp);
        if is_selected(items.last(), cached, min_score, min_timestamp) {
            rest.push(items.last())
        } else {
            rest
        }
    }
}

/// Keeps the items that the policy accepts, in feed order.
pub fn select_items(
    items: Vec<HackerNewsItem>,
    cached: &Vec<u64>,
    min_score: u64,
    min_timestamp: u64,
) -> (r: Vec<HackerNewsItem>)
    ensures
        r@ == selection_spec(items@, cached@, min_score, min_timestamp),
{
    let ghost all = items@;
    let mut items = items;
    let mut out: Vec<HackerNewsItem> = Vec::new();
    let ghost mut i: int = 0;
    while items.len() > 0
        invariant
            0 <= i <= all.len(),
            items@ == all.skip(i),
            out@ == selection_spec(all.take(i), cached@, min_score, min_timestamp),
        decreases items@.len(),
    {
        let item = items.remove(0);
        proof {
            assert(all.take(i + 1).drop_last() =~= all.take(i));
            assert(all.take(i + 1).last() == item);
            assert(items@ =~= all.skip(i + 1));
            i = i + 1;
        }
        let score = match item.score {
            Some(s) => s,
            None => 0,
        };
        if score >= min_score && item.timestamp >= min_timestamp && !contains_id(cached, item.item_id) {
            out.push(item);
        }
    }
    assert(all.take(i) =~= all);
    out
}

/// Every item kept passes the policy and comes from the feed.
pub proof fn lemma_selection_sound(
    items: Seq<HackerNewsItem>,
    cached: Seq<u64>,
    min_score: u64,
    min_timestamp: u64,
)
    ensures
        forall|i: int|
            0 <= i < selection_spec(items, cached, min_score, min_timestamp).len() ==> {
                let x = #[trigger] selection_spec(items, cached, min_score, min_timestamp)[i];
                is_selected(x, cached, min_score, min_timestamp) && items.contains(x)
            },
    decreases items.len(),
{
    if items.len() > 0 {
        let d = items.drop_last();
        lemma_selection_sound(d, cached, min_score, min_timestamp);
        assert forall|i: int|
            0 <= i < selection_spec(items, cached, min_score, min_timestamp).len() implies {
                let x = #[trigger] selection_spec(items, cached, min_score, min_timestamp)[i];
                is_selected(x, cached, min_score, min_timestamp) && items.contains(x)
            } by {
            let x = selection_spec(items, cached, min_score, min_timestamp)[i];
            if i < selection_spec(d, cached, min_score, min_timestamp).len() {
                let j = choose|j: int| 0 <= j < d.len() && d[j] == x;
                assert(items[j] == x);
            } else {
                assert(items[items.len() - 1] == x);
            }
        }
    }
}

/// At the thresholds an item not yet cached is accepted; one point of score
/// below, it is rejected; once cached, it is rejected whatever its score and
/// time.
pub proof fn lemma_selection_boundary(
    item: HackerNewsItem,
    cached: Seq<u64>,
    min_score: u64,
    min_timestamp: u64,
)
    ensures
        item.score == Some(min_score) && item.timestamp == min_timestamp && !cached.contains(
            item.item_id,
        ) ==> is_selected(item, cached, min_score, min_timestamp),
        min_score > 0 && item.score == Some((min_score - 1) as u64) ==> !is_selected(
            item,
            cached,
            min_score,
            min_timestamp,
        ),
        cached.contains(item.item_id) ==> !is_selected(item, cached, min_score, min_timestamp),
{
}

/// Why a step of the job failed.
#[derive(Debug, Clone, Copy, PartialEq, Eq, Structural)]
pub enum JobError {
    /// The key-value store could not be reached.
    StoreUnavailable,
    /// The feed could not be read, or answered with a failure.
    FeedUnavailable,
    /// A record value could not be encoded or decoded.
    SerializationError,
    /// A secret or variable that notifying needs is not set.
    MissingConfig,
    /// The notification transport could not be reached, or refused.
    TransportError,
    /// The item's discussion link could not be formed.
    InvalidLink,
}

/// What the job waits for.
#[derive(Debug, Clone, Copy, PartialEq, Eq, Structural)]
pub enum Phase {
    /// The retention marker's write.
    Init,
    /// The feed's items.
    Fetch,
    /// The listing of cached keys.
    Index,
    /// The write of the current item's record.
    Persist,
    /// The notification secrets.
    Secrets,
    /// The delivery of the current item's notification.
    Notify,
    /// Nothing: the run is over.
    Done,
    /// Nothing: the run was aborted.
    Failed,
}

/// The settings of a run.
#[derive(Debug, Clone)]
pub struct JobConfig {
    pub prefix: String,
    pub ttl_key: String,
    pub ttl_val: u64,
    pub min_score: u64,
    pub min_timestamp: u64,
    pub limit: u16,
    pub status_marker: String,
}

impl JobConfig {
    /// The deployment's settings.
    pub fn standard() -> (r: Self)
        ensures
            r.prefix@ == HN_PREFIX@,
            r.ttl_key@ == KV_TTL_KEY@,
            r.ttl_val == KV_TTL_VAL,
            r.min_score == MIN_SCORE_DEFAULT,
            r.min_timestamp == UNIX_TIME_DEFAULT,
            r.limit == LIMIT_DEFAULT,
            r.status_marker@ == STATUS_MARKER@,
    {
        JobConfig {
            prefix: String::from_str(HN_PREFIX),
            ttl_key: String::from_str(KV_TTL_KEY),
            ttl_val: KV_TTL_VAL,
            min_score: MIN_SCORE_DEFAULT,
            min_timestamp: UNIX_TIME_DEFAULT,
            limit: LIMIT_DEFAULT,
            status_marker: String::from_str(STATUS_MARKER),
        }
    }
}

/// The outcome of a run: the identifiers whose records were written and
/// whose notifications were delivered, in feed order, and each failure with
/// its item.
#[derive(Debug, Clone)]
pub struct JobReport {
    pub persisted: Vec<u64>,
    pub notified: Vec<u64>,
    pub failures: Vec<(u64, JobError)>,
}

/// What the job asks its runner to do next.
#[derive(Debug)]
pub enum JobAction {
    /// Perform this write (the retention marker) and report with
    /// [`Job::on_cache_ready`].
    InitCache(PutRequest),
    /// Fetch up to `limit` top items and report with [`Job::on_fetched`].
    FetchItems { limit: u16 },
    /// Run this listing and report its keys with [`Job::on_listed`].
    ListKeys(KeyListing),
    /// Write the record of selected item `index` under `key` (built with
    /// [`Job::cache`]'s `create`) and report with [`Job::on_persisted`].
    Persist { index: usize, key: String },
    /// Resolve the notification secrets and report with [`Job::on_secrets`].
    ResolveSecrets,
    /// Deliver this notification of selected item `index` and report with
    /// [`Job::on_sent`].
    Send { index: usize, notification: Notification },
    /// The run is over.
    Finish(JobReport),
    /// The run is aborted.
    Abort(JobError),
}

/// The state of a run, as its contracts see it.
pub struct JobView {
    pub phase: Phase,
    pub prefix: Seq<char>,
    pub min_score: u64,
    pub min_timestamp: u64,
    pub limit: u16,
    pub status: Seq<char>,
    pub fetched: Seq<HackerNewsItem>,
    pub selected: Seq<HackerNewsItem>,
    pub next: int,
    pub stored: Seq<int>,
    pub notified: Seq<u64>,
    pub failures: Seq<(u64, JobError)>,
}

/// One run of the job.
pub struct Job {
    config: JobConfig,
    kvm: KVManager,
    phase: Phase,
    fetched: Vec<HackerNewsItem>,
    selected: Vec<HackerNewsItem>,
    next: usize,
    stored: Vec<usize>,
    notified: Vec<u64>,
    failures: Vec<(u64, JobError)>,
}

impl View for Job {
    type V = JobView;

    closed spec fn view(&self) -> JobView {
        JobView {
            phase: self.phase,
            prefix: self.config.prefix@,
            min_score: self.config.min_score,
            min_timestamp: self.config.min_timestamp,
            limit: self.config.limit,
            status: self.config.status_marker@,
            fetched: self.fetched@,
            selected: self.selected@,
            next: self.next as int,
            stored: self.stored@.map_values(|i: usize| i as int),
            notified: self.notified@,
            failures: self.failures@,
        }
    }
}

/// The identifiers of the stored items.
pub open spec fn stored_ids(v: JobView) -> Seq<u64> {
    v.stored.map_values(|i: int| v.selected[i].item_id)
}

/// Whether `r` reports the run `v`.
pub open spec fn reports(r: JobReport, v: JobView) -> bool {
    &&& r.persisted@ == stored_ids(v)
    &&& r.notified@ == v.notified
    &&& r.failures@ == v.failures
}

/// The state and request after the records of the first `v.next` selected
/// items were handled: the next write, else the secrets where anything was
/// stored, else the end.
pub open spec fn persist_step(v: JobView, a: JobAction) -> bool {
    if v.next < v.selected.len() {
        &&& v.phase == Phase::Persist
        &&& a matches JobAction::Persist { index, key } && index == v.next && key@
            == cache_key_spec(v.prefix, v.selected[v.next].item_id)
    } else if v.stored.len() == 0 {
        &&& v.phase == Phase::Done
        &&& a matches JobAction::Finish(r) && reports(r, v)
    } else {
        &&& v.phase == Phase::Secrets
        &&& a matches JobAction::ResolveSecrets
    }
}

/// The identifier of the `k`-th stored item.
pub open spec fn stored_id(v: JobView, k: int) -> u64 {
    v.selected[v.stored[k]].item_id
}

/// The position of the first stored item from `k` on whose discussion link
/// can be formed, or the number of stored items where there is none.
pub open spec fn next_linkable(v: JobView, k: int) -> int
    decreases v.stored.len() - k,
{
    if k >= v.stored.len() {
        v.stored.len() as int
    } else if discussion_url_spec(stored_id(v, k)).is_some() {
        k
    } else {
        next_linkable(v, k + 1)
    }
}

/// One link failure for each stored item in `[k, m)`.
pub open spec fn link_failures(v: JobView, k: int, m: int) -> Seq<(u64, JobError)>
    decreases m - k,
{
    if m <= k {
        Seq::empty()
    } else {
        link_failures(v, k, m - 1).push((stored_id(v, m - 1), JobError::InvalidLink))
    }
}

/// The state `w` and request `a` once notifying goes on from stored item
/// `k` of state `v`: the items up to the next one with a link are recorded
/// as failures; that one is delivered, or the run ends where none is left.
pub open spec fn notify_step(v: JobView, k: int, w: JobView, a: JobAction) -> bool {
    let m = next_linkable(v, k);
    &&& w == (JobView {
        phase: w.phase,
        next: m,
        failures: v.failures + link_failures(v, k, m),
        ..v
    })
    &&& if m < v.stored.len() {
        &&& w.phase == Phase::Notify
        &&& discussion_url_spec(stored_id(v, m)) is Some
        &&& a matches JobAction::Send { index, notification } && index as int == v.stored[m]
            && notification@ == notification_spec(
            v.selected[v.stored[m]],
            v.status,
            discussion_url_spec(stored_id(v, m)).unwrap(),
        )
    } else {
        &&& w.phase == Phase::Done
        &&& a matches JobAction::Finish(r) && reports(r, w)
    }
}

/// Whether the transport's answer counts as delivered.
pub open spec fn delivered(res: Result<u16, JobError>) -> bool {
    res matches Ok(code) && 200 <= code < 300
}

/// The state once the answer for the current notification is recorded.
pub open spec fn after_send(v: JobView, res: Result<u16, JobError>) -> JobView {
    let id = stored_id(v, v.next);
    if delivered(res) {
        JobView { notified: v.notified.push(id), ..v }
    } else {
        JobView {
            failures: v.failures.push(
                (
                    id,
                    match res {
                        Err(e) => e,
                        Ok(_) => JobError::TransportError,
                    },
                ),
            ),
            ..v
        }
    }
}

impl Job {
    /// The consistency of the state's parts, whatever the phase.
    closed spec fn wf_parts(&self) -> bool {
        &&& self.kvm.prefix_spec() == self.config.prefix@
        &&& self.kvm.ttl_val_spec() == self.config.ttl_val
        &&& forall|i: int| 0 <= i < self.stored@.len() ==> self.stored@[i] < self.selected@.len()
    }

    /// The state's inner consistency.
    pub closed spec fn wf(&self) -> bool {
        &&& self.wf_parts()
        &&& (self.phase == Phase::Persist ==> self.next < self.selected@.len())
        &&& (self.phase == Phase::Notify ==> self.next < self.stored@.len())
    }

    /// The cache manager of this run.
    pub fn cache(&self) -> (r: &KVManager)
        requires
            self.wf(),
        ensures
            r.prefix_spec() == self@.prefix,
    {
        &self.kvm
    }

    /// The items selected for this run, in feed order.
    pub fn selected(&self) -> (r: &Vec<HackerNewsItem>)
        ensures
            r@ == self@.selected,
    {
        &self.selected
    }

    /// What the job waits for.
    pub fn phase(&self) -> (r: Phase)
        ensures
            r == self@.phase,
    {
        self.phase
    }

    /// Starts a run: the first request writes the retention marker.
    pub fn start(config: JobConfig) -> (r: (Job, JobAction))
        ensures
            r.0.wf(),
            r.0@ == (JobView {
                phase: Phase::Init,
                prefix: config.prefix@,
                min_score: config.min_score,
                min_timestamp: config.min_timestamp,
                limit: config.limit,
                status: config.status_marker@,
                fetched: Seq::empty(),
                selected: Seq::empty(),
                next: 0,
                stored: Seq::empty(),
                notified: Seq::empty(),
                failures: Seq::empty(),
            }),
            r.1 matches JobAction::InitCache(put) && put.key@ == config.ttl_key@ && put.value@
                == decimal_spec(config.ttl_val as nat) && put.expiration_ttl.is_none()
                && put.metadata.is_none(),
    {
        let (kvm, marker) = KVManager::init(
            String::from_str(config.prefix.as_str()),
            String::from_str(config.ttl_key.as_str()),
            config.ttl_val,
        );
        let job = Job {
            config,
            kvm,
            phase: Phase::Init,
            fetched: Vec::new(),
            selected: Vec::new(),
            next: 0,
            stored: Vec::new(),
            notified: Vec::new(),
            failures: Vec::new(),
        };
        assert(job@.stored =~= Seq::<int>::empty());
        (job, JobAction::InitCache(marker))
    }

    /// Takes in the outcome of the marker's write: fetch next, or abort.
    pub fn on_cache_ready(&mut self, res: Result<(), JobError>) -> (r: JobAction)
        requires
            old(self).wf(),
            old(self)@.phase == Phase::Init,
        ensures
            final(self).wf(),
            match res {
                Ok(()) => {
                    &&& final(self)@ == (JobView { phase: Phase::Fetch, ..old(self)@ })
                    &&& r matches JobAction::FetchItems { limit } && limit == old(self)@.limit
                },
                Err(e) => final(self)@ == (JobView { phase: Phase::Failed, ..old(self)@ })
                    && r == JobAction::Abort(e),
            },
    {
        match res {
            Ok(()) => {
                self.phase = Phase::Fetch;
                JobAction::FetchItems { limit: self.config.limit }
            },
            Err(e) => {
                self.phase = Phase::Failed;
                JobAction::Abort(e)
            },
        }
    }

    /// Takes in the fetched items: list the cached keys next (one bounded
    /// page under the namespace), or abort.
    pub fn on_fetched(&mut self, res: Result<Vec<HackerNewsItem>, JobError>) -> (r: JobAction)
        requires
            old(self).wf(),
            old(self)@.phase == Phase::Fetch,
        ensures
            final(self).wf(),
            match res {
                Ok(items) => {
                    &&& final(self)@ == (JobView { phase: Phase::Index, fetched: items@, ..old(self)@ })
                    &&& r matches JobAction::ListKeys(l) && l.prefix_spec() == old(self)@.prefix
                        && !l.is_exhaustive() && l.start_spec().is_none() && l.collected()
                        == Seq::<Seq<char>>::empty()
                },
                Err(e) => final(self)@ == (JobView { phase: Phase::Failed, ..old(self)@ })
                    && r == JobAction::Abort(e),
            },
    {
        match res {
            Ok(items) => {
                self.fetched = items;
                self.phase = Phase::Index;
                JobAction::ListKeys(self.kvm.list_keys(None, true))
            },
            Err(e) => {
                self.phase = Phase::Failed;
                JobAction::Abort(e)
            },
        }
    }

    /// Collects the identifiers of the stored items.
    fn stored_ids(&self) -> (r: Vec<u64>)
        requires
            self.wf_parts(),
        ensures
            r@ == stored_ids(self@),
    {
        let mut ids: Vec<u64> = Vec::new();
        let mut i: usize = 0;
        while i < self.stored.len()
            invariant
                self.wf_parts(),
                i <= self.stored@.len(),
                ids@ == stored_ids(self@).take(i as int),
            decreases self.stored@.len() - i,
        {
            ids.push(self.selected[self.stored[i]].item_id);
            assert(ids@ =~= stored_ids(self@).take(i + 1));
            i = i + 1;
        }
        assert(ids@ =~= stored_ids(self@));
        ids
    }

    /// Ends the run and hands out its report.
    fn finish(&mut self) -> (r: JobReport)
        requires
            old(self).wf_parts(),
        ensures
            final(self).wf(),
            final(self)@ == (JobView { phase: Phase::Done, ..old(self)@ }),
            reports(r, old(self)@),
    {
        let persisted = self.stored_ids();
        let mut notified: Vec<u64> = Vec::new();
        let mut failures: Vec<(u64, JobError)> = Vec::new();
        let mut i: usize = 0;
        while i < self.notified.len()
            invariant
                i <= self.notified@.len(),
                notified@ == self.notified@.take(i as int),
            decreases self.notified@.len() - i,
        {
            notified.push(self.notified[i]);
            assert(notified@ =~= self.notified@.take(i + 1));
            i = i + 1;
        }
        let mut j: usize = 0;
        while j < self.failures.len()
            invariant
                j <= self.failures@.len(),
                failures@ == self.failures@.take(j as int),
            decreases self.failures@.len() - j,
        {
            failures.push(self.failures[j]);
            assert(failures@ =~= self.failures@.take(j + 1));
            j = j + 1;
        }
        assert(notified@ =~= self.notified@);
        assert(failures@ =~= self.failures@);
        self.phase = Phase::Done;
        JobReport { persisted, notified, failures }
    }

    /// Requests the next record's write, the secrets, or the end.
    fn persist_next(&mut self) -> (r: JobAction)
        requires
            old(self).wf_parts(),
        ensures
            final(self).wf(),
            persist_step(final(self)@, r),
            final(self)@ == (JobView { phase: final(self)@.phase, ..old(self)@ }),
    {
        if self.next < self.selected.len() {
            self.phase = Phase::Persist;
            let key = self.kvm.cache_key(self.selected[self.next].item_id);
            JobAction::Persist { index: self.next, key }
        } else if self.stored.len() == 0 {
            let report = self.finish();
            JobAction::Finish(report)
        } else {
            self.phase = Phase::Secrets;
            JobAction::ResolveSecrets
        }
    }

    /// Takes in the listed keys: selects the fetched items that are new and
    /// pass the policy, then requests the first record's write (or what
    /// follows when none is selected); aborts where the listing failed.
    pub fn on_listed(&mut self, res: Result<Vec<String>, JobError>) -> (r: JobAction)
        requires
            old(self).wf(),
            old(self)@.phase == Phase::Index,
        ensures
            final(self).wf(),
            match res {
                Ok(keys) => {
                    &&& final(self)@ == (JobView {
                        phase: final(self)@.phase,
                        selected: selection_spec(
                            old(self)@.fetched,
                            index_spec(strings_view(keys@), old(self)@.prefix),
                            old(self)@.min_score,
                            old(self)@.min_timestamp,
                        ),
                        fetched: Seq::empty(),
                        next: 0,
                        stored: Seq::empty(),
                        ..old(self)@
                    })
                    &&& persist_step(final(self)@, r)
                },
                Err(e) => final(self)@ == (JobView { phase: Phase::Failed, ..old(self)@ })
                    && r == JobAction::Abort(e),
            },
    {
        match res {
            Ok(keys) => {
                let index = DedupIndex::build(&keys, self.config.prefix.as_str());
                let mut fetched: Vec<HackerNewsItem> = Vec::new();
                std::mem::swap(&mut fetched, &mut self.fetched);
                self.selected = select_items(
                    fetched,
                    &index.ids,
                    self.config.min_score,
                    self.config.min_timestamp,
                );
                self.next = 0;
                self.stored = Vec::new();
                assert(self@.stored =~= Seq::<int>::empty());
                self.persist_next()
            },
            Err(e) => {
                self.phase = Phase::Failed;
                JobAction::Abort(e)
            },
        }
    }

    /// Requests the delivery of the first stored item from `k` on whose
    /// link can be formed, recording the others as failures; ends the run
    /// where none is left.
    fn notify_from(&mut self, k: usize) -> (r: JobAction)
        requires
            old(self).wf_parts(),
            k <= old(self).stored@.len(),
        ensures
            final(self).wf(),
            notify_step(old(self)@, k as int, final(self)@, r),
    {
        let ghost v = self@;
        let mut i = k;
        while i < self.stored.len()
            invariant
                v == old(self)@,
                self.wf_parts(),
                k <= i <= self.stored@.len(),
                self@ == (JobView { failures: v.failures + link_failures(v, k as int, i as int), ..v }),
                next_linkable(v, k as int) == next_linkable(v, i as int),
            decreases self.stored@.len() - i,
        {
            let index = self.stored[i];
            match format_notification(&self.selected[index], self.config.status_marker.as_str()) {
                Some(notification) => {
                    assert(v.stored[i as int] == index as int);
                    self.next = i;
                    self.phase = Phase::Notify;
                    return JobAction::Send { index, notification };
                },
                None => {
                    let ghost before = self.failures@;
                    self.failures.push((self.selected[index].item_id, JobError::InvalidLink));
                    assert(v.failures + link_failures(v, k as int, i + 1) =~= before.push(
                        (stored_id(v, i as int), JobError::InvalidLink),
                    ));
                    i = i + 1;
                },
            }
        }
        self.next = i;
        let report = self.finish();
        JobAction::Finish(report)
    }

    /// Takes in whether the notification secrets are set: without them the
    /// run is aborted (the records written stand); with them the first
    /// notification is requested.
    pub fn on_secrets(&mut self, present: bool) -> (r: JobAction)
        requires
            old(self).wf(),
            old(self)@.phase == Phase::Secrets,
        ensures
            final(self).wf(),
            present ==> notify_step(old(self)@, 0, final(self)@, r),
            !present ==> final(self)@ == (JobView { phase: Phase::Failed, ..old(self)@ })
                && r == JobAction::Abort(JobError::MissingConfig),
    {
        if present {
            self.notify_from(0)
        } else {
            self.phase = Phase::Failed;
            JobAction::Abort(JobError::MissingConfig)
        }
    }

    /// Takes in the transport's answer for the current notification: a
    /// status from 200 to 299 counts as delivered, anything else is recorded
    /// as a failure and does not stop the items after it. Then the next
    /// notification is requested, or the run ends.
    pub fn on_sent(&mut self, res: Result<u16, JobError>) -> (r: JobAction)
        requires
            old(self).wf(),
            old(self)@.phase == Phase::Notify,
        ensures
            final(self).wf(),
            notify_step(after_send(old(self)@, res), old(self)@.next + 1, final(self)@, r),
    {
        let n = self.stored.len();
        let id = self.selected[self.stored[self.next]].item_id;
        let ok = match res {
            Ok(code) => 200 <= code && code < 300,
            Err(_) => false,
        };
        if ok {
            self.notified.push(id);
        } else {
            let e = match res {
                Err(e) => e,
                Ok(_) => JobError::TransportError,
            };
            self.failures.push((id, e));
        }
        assert(self@ == after_send(old(self)@, res));
        self.notify_from(self.next + 1)
    }

    /// Takes in the outcome of the current record's write, then requests
    /// the next one, the secrets, or the end. A failed write is recorded and
    /// does not stop the items after it.
    pub fn on_persisted(&mut self, res: Result<(), JobError>) -> (r: JobAction)
        requires
            old(self).wf(),
            old(self)@.phase == Phase::Persist,
        ensures
            final(self).wf(),
            final(self)@ == (JobView {
                phase: final(self)@.phase,
                next: old(self)@.next + 1,
                stored: match res {
                    Ok(()) => old(self)@.stored.push(old(self)@.next),
                    Err(_) => old(self)@.stored,
                },
                failures: match res {
                    Ok(()) => old(self)@.failures,
                    Err(e) => old(self)@.failures.push(
                        (old(self)@.selected[old(self)@.next].item_id, e),
                    ),
                },
                ..old(self)@
            }),
            persist_step(final(self)@, r),
    {
        let n = self.selected.len();
        assert(self.next < n);
        match res {
            Ok(()) => {
                self.stored.push(self.next);
                assert(self@.stored =~= old(self)@.stored.push(old(self)@.next));
            },
            Err(e) => {
                self.failures.push((self.selected[self.next].item_id, e));
            },
        }
        self.next = self.next + 1;
        self.persist_next()
    }
}

} // verus!
