use hacker_news_worker::hn::HackerNewsItem;
use hacker_news_worker::job::{
    select_items, DedupIndex, Job, JobAction, JobConfig, JobError, JobReport, Phase,
};
use hacker_news_worker::kvm::ListStep;

fn item(id: u64, score: Option<u64>, timestamp: u64) -> HackerNewsItem {
    let mut it = HackerNewsItem::mock();
    it.item_id = id;
    it.score = score;
    it.timestamp = timestamp;
    it
}

fn ids(items: &[HackerNewsItem]) -> Vec<u64> {
    items.iter().map(|i| i.item_id).collect()
}

#[test]
fn selection_boundary() {
    let items = vec![item(1, Some(150), 100), item(2, Some(149), 100), item(3, Some(500), 99)];
    assert_eq!(ids(&select_items(items, &vec![], 150, 100)), vec![1]);
}

#[test]
fn selection_rejects_cached() {
    let items = vec![item(1, Some(1000), 100), item(2, Some(1000), 100)];
    assert_eq!(ids(&select_items(items, &vec![1], 0, 0)), vec![2]);
}

#[test]
fn selection_missing_score_counts_as_zero() {
    let items = vec![item(1, None, 0), item(2, None, 0)];
    assert_eq!(ids(&select_items(items.clone(), &vec![], 1, 0)), Vec::<u64>::new());
    assert_eq!(ids(&select_items(items, &vec![], 0, 0)), vec![1, 2]);
}

#[test]
fn selection_keeps_feed_order() {
    let items = vec![item(9, Some(200), 0), item(3, Some(10), 0), item(5, Some(300), 0), item(1, Some(200), 0)];
    assert_eq!(ids(&select_items(items, &vec![], 150, 0)), vec![9, 5, 1]);
}

#[test]
fn dedup_index_parses_and_skips() {
    let keys: Vec<String> = ["HN-1", "HN-22", "XX-3", "HN-abc", "HN-", "HN-18446744073709551616", "TTL_TEST"]
        .iter()
        .map(|s| s.to_string())
        .collect();
    let index = DedupIndex::build(&keys, "HN-");
    assert_eq!(index.ids, vec![1, 22]);
    assert_eq!(
        index.skipped,
        vec!["XX-3", "HN-abc", "HN-", "HN-18446744073709551616", "TTL_TEST"]
    );
    assert!(index.contains(22));
    assert!(!index.contains(3));
}

fn config() -> JobConfig {
    JobConfig::standard()
}

fn story() -> HackerNewsItem {
    item(46103532, Some(200), 1_700_000_000)
}

/// Runs the job up to its first request after the listing.
fn run_to_persist(items: Vec<HackerNewsItem>, cached: &[&str]) -> (Job, JobAction) {
    let (mut job, a) = Job::start(config());
    match a {
        JobAction::InitCache(put) => {
            assert_eq!(put.key, "TTL_TEST");
            assert_eq!(put.value, "3600");
        }
        other => panic!("unexpected {:?}", other),
    }
    match job.on_cache_ready(Ok(())) {
        JobAction::FetchItems { limit } => assert_eq!(limit, 30),
        other => panic!("unexpected {:?}", other),
    }
    let mut listing = match job.on_fetched(Ok(items)) {
        JobAction::ListKeys(l) => l,
        other => panic!("unexpected {:?}", other),
    };
    assert_eq!(listing.first_request().prefix, "HN-");
    let keys = match listing.on_page(hacker_news_worker::kvm::ListPage {
        keys: cached.iter().map(|k| k.to_string()).collect(),
        list_complete: true,
        cursor: None,
    }) {
        ListStep::Done { keys, .. } => keys,
        other => panic!("unexpected {:?}", other),
    };
    let a = job.on_listed(Ok(keys));
    (job, a)
}

#[test]
fn end_to_end_new_item_is_cached_and_notified() {
    let (mut job, a) = run_to_persist(vec![story()], &[]);
    match a {
        JobAction::Persist { index, key } => {
            assert_eq!(index, 0);
            assert_eq!(key, "HN-46103532");
            let put = job.cache().create(&key, "{}", Some("{\"uuid\":\"u\"}"), None);
            assert_eq!(put.key, "HN-46103532");
            assert_eq!(put.expiration_ttl, Some(3600));
        }
        other => panic!("unexpected {:?}", other),
    }
    assert!(matches!(job.on_persisted(Ok(())), JobAction::ResolveSecrets));
    match job.on_secrets(true) {
        JobAction::Send { index, notification } => {
            assert_eq!(index, 0);
            assert_eq!(notification.buttons[0].label, "Read HN");
            assert_eq!(notification.buttons[0].url, "https://example.com");
            assert_eq!(notification.buttons[1].label, "Comments 10+");
            assert_eq!(notification.buttons[1].url, "https://readhacker.news/c/6Gxpn");
        }
        other => panic!("unexpected {:?}", other),
    }
    assert_eq!(job.phase(), Phase::Notify);
    match job.on_sent(Ok(200)) {
        JobAction::Finish(JobReport { persisted, notified, failures }) => {
            assert_eq!(persisted, vec![46103532]);
            assert_eq!(notified, vec![46103532]);
            assert!(failures.is_empty());
        }
        other => panic!("unexpected {:?}", other),
    }
    assert_eq!(job.phase(), Phase::Done);
}

#[test]
fn end_to_end_cached_item_is_skipped() {
    let (job, a) = run_to_persist(vec![story()], &["HN-46103532"]);
    match a {
        JobAction::Finish(report) => {
            assert!(report.persisted.is_empty());
            assert!(report.notified.is_empty());
            assert!(report.failures.is_empty());
        }
        other => panic!("unexpected {:?}", other),
    }
    assert!(job.selected().is_empty());
    assert_eq!(job.phase(), Phase::Done);
}

#[test]
fn end_to_end_item_without_url() {
    let mut it = story();
    it.url = None;
    let (mut job, a) = run_to_persist(vec![it], &[]);
    assert!(matches!(a, JobAction::Persist { index: 0, .. }));
    assert!(matches!(job.on_persisted(Ok(())), JobAction::ResolveSecrets));
    match job.on_secrets(true) {
        JobAction::Send { notification, .. } => {
            assert_eq!(notification.buttons[0].label, "Read");
            assert_eq!(
                notification.buttons[0].url,
                "https://news.ycombinator.com/item/?id=46103532"
            );
            assert_eq!(notification.buttons[1].url, "https://readhacker.news/c/6Gxpn");
        }
        other => panic!("unexpected {:?}", other),
    }
}

#[test]
fn failed_write_does_not_stop_the_batch() {
    let (mut job, a) = run_to_persist(vec![item(1, Some(500), 1), item(2, Some(500), 1)], &[]);
    assert!(matches!(a, JobAction::Persist { index: 0, .. }));
    match job.on_persisted(Err(JobError::StoreUnavailable)) {
        JobAction::Persist { index, key } => {
            assert_eq!(index, 1);
            assert_eq!(key, "HN-2");
        }
        other => panic!("unexpected {:?}", other),
    }
    assert!(matches!(job.on_persisted(Ok(())), JobAction::ResolveSecrets));
    match job.on_secrets(true) {
        JobAction::Send { index, .. } => assert_eq!(index, 1),
        other => panic!("unexpected {:?}", other),
    }
    match job.on_sent(Ok(500)) {
        JobAction::Finish(r) => {
            assert_eq!(r.persisted, vec![2]);
            assert!(r.notified.is_empty());
            assert_eq!(
                r.failures,
                vec![(1, JobError::StoreUnavailable), (2, JobError::TransportError)]
            );
        }
        other => panic!("unexpected {:?}", other),
    }
}

#[test]
fn failed_send_does_not_stop_the_batch() {
    let (mut job, _) = run_to_persist(vec![item(1, Some(500), 1), item(2, Some(500), 1)], &[]);
    job.on_persisted(Ok(()));
    job.on_persisted(Ok(()));
    assert!(matches!(job.on_secrets(true), JobAction::Send { index: 0, .. }));
    assert!(matches!(
        job.on_sent(Err(JobError::TransportError)),
        JobAction::Send { index: 1, .. }
    ));
    match job.on_sent(Ok(204)) {
        JobAction::Finish(r) => {
            assert_eq!(r.persisted, vec![1, 2]);
            assert_eq!(r.notified, vec![2]);
            assert_eq!(r.failures, vec![(1, JobError::TransportError)]);
        }
        other => panic!("unexpected {:?}", other),
    }
}

#[test]
fn missing_secrets_abort_notifying() {
    let (mut job, _) = run_to_persist(vec![story()], &[]);
    job.on_persisted(Ok(()));
    assert!(matches!(
        job.on_secrets(false),
        JobAction::Abort(JobError::MissingConfig)
    ));
    assert_eq!(job.phase(), Phase::Failed);
}

#[test]
fn early_failures_abort_the_run() {
    let (mut job, _) = Job::start(config());
    assert!(matches!(
        job.on_cache_ready(Err(JobError::StoreUnavailable)),
        JobAction::Abort(JobError::StoreUnavailable)
    ));
    assert_eq!(job.phase(), Phase::Failed);

    let (mut job, _) = Job::start(config());
    job.on_cache_ready(Ok(()));
    assert!(matches!(
        job.on_fetched(Err(JobError::FeedUnavailable)),
        JobAction::Abort(JobError::FeedUnavailable)
    ));

    let (mut job, _) = Job::start(config());
    job.on_cache_ready(Ok(()));
    job.on_fetched(Ok(vec![story()]));
    assert!(matches!(
        job.on_listed(Err(JobError::StoreUnavailable)),
        JobAction::Abort(JobError::StoreUnavailable)
    ));
}

#[test]
fn low_score_item_is_not_persisted() {
    let (_, a) = run_to_persist(vec![item(5, Some(149), 1)], &[]);
    assert!(matches!(a, JobAction::Finish(_)));
}
