use hacker_news_worker::hn::{
    feed_url, is_success, item_endpoint, take_top, HackerNewsItem, LiveDataKey, LiveDataTypes,
};

#[test]
fn mock_item_fields() {
    let m = HackerNewsItem::mock();
    assert_eq!(m.item_id, 1);
    assert_eq!(m.by, "tester");
    assert_eq!(m.timestamp, 1_700_000_000);
    assert_eq!(m.url.as_deref(), Some("https://example.com"));
    assert_eq!(m.score, Some(200));
    assert_eq!(m.title.as_deref(), Some("Test Title"));
    assert_eq!(m.decendants, Some(10));
    assert_eq!(m.kids, Some(vec![2, 3]));
    assert_eq!(m.item_type.as_deref(), Some("story"));
}

#[test]
fn live_data_key_round_trip() {
    let all = [
        LiveDataTypes::MaxItem,
        LiveDataTypes::TopHn,
        LiveDataTypes::NewHn,
        LiveDataTypes::BestHn,
        LiveDataTypes::AskHn,
        LiveDataTypes::ShowHn,
        LiveDataTypes::JobHn,
        LiveDataTypes::Updates,
    ];
    for k in all {
        assert_eq!(LiveDataKey::parse(k.as_str()), Ok(k));
        assert_eq!(k.as_str().parse::<LiveDataKey>(), Ok(k));
    }
    assert_eq!(LiveDataTypes::TopHn.as_str(), "top_hn");
    assert_eq!(LiveDataTypes::MaxItem.as_str(), "max_item");
}

#[test]
fn live_data_key_unknown() {
    let e = LiveDataKey::parse("top").unwrap_err();
    assert_eq!(e.name, "top");
    assert_eq!(e.message(), "Unknown LiveDataKey: top");
    assert_eq!("".parse::<LiveDataKey>().unwrap_err().message(), "Unknown LiveDataKey: ");
    assert!(LiveDataKey::parse("TOP_HN").is_err());
}

#[test]
fn live_data_key_endpoints() {
    assert_eq!(LiveDataTypes::TopHn.endpoint(), "topstories");
    assert_eq!(LiveDataTypes::MaxItem.endpoint(), "maxitem");
    assert_eq!(LiveDataTypes::Updates.endpoint(), "updates");
}

#[test]
fn feed_url_adds_query() {
    assert_eq!(
        feed_url("topstories.json"),
        Some("https://hacker-news.firebaseio.com/v0/topstories.json?print=pretty".to_string())
    );
    assert_eq!(item_endpoint(46103532), "item/46103532.json");
}

#[test]
fn take_top_limits() {
    let ids: Vec<u64> = (1..=40).collect();
    assert_eq!(take_top(ids.clone(), None).len(), 20);
    assert_eq!(take_top(ids.clone(), Some(3)), vec![1, 2, 3]);
    assert_eq!(take_top(vec![5, 6], Some(30)), vec![5, 6]);
    assert_eq!(take_top(ids, Some(0)), Vec::<u64>::new());
}

#[test]
fn success_statuses() {
    assert!(is_success(200));
    assert!(is_success(299));
    assert!(!is_success(199));
    assert!(!is_success(300));
    assert!(!is_success(404));
}
