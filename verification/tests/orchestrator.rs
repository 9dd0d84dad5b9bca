use yandere_bot::config::{Config, Core, Database, Telegram, Yandere};
use yandere_bot::dedup::CacheModel;
use yandere_bot::dispatch::SendOutcome;
use yandere_bot::post::Post;
use yandere_bot::tick::{
    EntryAction, EntryEvent, EntryMachine, EntryOutcome, TickAction, TickEvent, TickMachine,
};

fn tpost(id: i32, score: i32, updated_at: i64, parent_id: Option<i32>, has_children: bool) -> Post {
    Post::new(
        id,
        String::from("tag"),
        0,
        updated_at,
        String::new(),
        score,
        String::from("md5"),
        1,
        String::from("png"),
        String::from("f"),
        format!("https://files.example/{}.png", id),
        1,
        String::from("q"),
        has_children,
        parent_id,
        false,
    )
}

fn tconfig(score_threshold: i32, updated_resend: bool, expire: usize) -> Config {
    Config {
        core: Core::default(),
        db: Database { database_url: String::from("redis://localhost/"), expire },
        telegram: Telegram { token: String::new(), channel_id: String::from("@channel") },
        yandere: Yandere {
            rss_url: String::from("https://yande.re/post/popular_recent"),
            score_threshold,
            updated_resend,
        },
    }
}

#[test]
fn a_filtered_entry_is_over_before_any_request() {
    let (m, a) = EntryMachine::start(tpost(1, -1, 0, None, false), 0, false, 60);
    assert!(matches!(a, EntryAction::Done { outcome: EntryOutcome::Filtered }));
    drop(m);
}

#[test]
fn an_entry_with_a_parent_resolves_through_it() {
    let (mut m, a) = EntryMachine::start(tpost(10, 5, 0, Some(3), false), 0, false, 60);
    assert!(matches!(a, EntryAction::FetchPost { id: 3 }));
    let parent = tpost(3, 9, 0, None, true);
    let a = m.step(EntryEvent::PostFetched { result: Some(parent) });
    assert!(matches!(a, EntryAction::FetchChildren { id: 3 }));
    let children = vec![tpost(11, 1, 5, Some(3), false), tpost(12, 1, 6, Some(3), false)];
    let a = m.step(EntryEvent::ChildrenFetched { children });
    assert!(matches!(a, EntryAction::CacheGet { id: 11 }));
    // First member already delivered, second not: the whole unit is resent.
    let a = m.step(EntryEvent::CacheRead { read: Ok(Some(5)) });
    assert!(matches!(a, EntryAction::CacheGet { id: 12 }));
    let a = m.step(EntryEvent::CacheRead { read: Ok(None) });
    match a {
        EntryAction::SendGroup { items } => {
            assert_eq!(items.len(), 2);
            assert_eq!(items[0].url, "https://files.example/11.png");
        },
        _ => panic!("expected the group send"),
    }
    let a = m.step(EntryEvent::SendResult { outcome: SendOutcome::Accepted });
    assert!(matches!(a, EntryAction::CacheSet { id: 11, updated_at: 5, ttl: 60 }));
    let a = m.step(EntryEvent::CacheWritten { write: Ok(()) });
    assert!(matches!(a, EntryAction::CacheSet { id: 12, updated_at: 6, ttl: 60 }));
    let a = m.step(EntryEvent::CacheWritten { write: Ok(()) });
    assert!(matches!(a, EntryAction::Done { outcome: EntryOutcome::Published }));
}

#[test]
fn a_failed_parent_fetch_publishes_the_post_alone() {
    let (mut m, a) = EntryMachine::start(tpost(10, 5, 7, Some(3), false), 0, false, 60);
    assert!(matches!(a, EntryAction::FetchPost { id: 3 }));
    let a = m.step(EntryEvent::PostFetched { result: None });
    assert!(matches!(a, EntryAction::CacheGet { id: 10 }));
}

#[test]
fn empty_children_publish_the_post_alone() {
    let (mut m, a) = EntryMachine::start(tpost(10, 5, 7, None, true), 0, false, 60);
    assert!(matches!(a, EntryAction::FetchChildren { id: 10 }));
    let a = m.step(EntryEvent::ChildrenFetched { children: vec![] });
    assert!(matches!(a, EntryAction::CacheGet { id: 10 }));
}

#[test]
fn a_large_unit_is_sent_in_three_group_calls() {
    let children: Vec<Post> =
        (0..23).map(|k| tpost(1000 + k, 1, 5, Some(10), false)).collect();
    let (mut m, a) = EntryMachine::start(tpost(10, 5, 7, None, true), 0, false, 60);
    assert!(matches!(a, EntryAction::FetchChildren { id: 10 }));
    let a = m.step(EntryEvent::ChildrenFetched { children });
    assert!(matches!(a, EntryAction::CacheGet { id: 1000 }));
    // The first member is undelivered: the whole unit goes out, capped at
    // ten items per call, in order.
    let mut a = m.step(EntryEvent::CacheRead { read: Ok(None) });
    let mut sizes = vec![];
    let mut first_urls = vec![];
    loop {
        match a {
            EntryAction::SendGroup { items } => {
                sizes.push(items.len());
                first_urls.push(items[0].url.clone());
                a = m.step(EntryEvent::SendResult { outcome: SendOutcome::Accepted });
            },
            EntryAction::CacheSet { id, .. } => {
                assert_eq!(id, 1000);
                break;
            },
            _ => panic!("expected only group sends, then the commit"),
        }
    }
    assert_eq!(sizes, vec![10, 10, 3]);
    assert_eq!(first_urls[0], "https://files.example/1000.png");
    assert_eq!(first_urls[1], "https://files.example/1010.png");
    assert_eq!(first_urls[2], "https://files.example/1020.png");
}

#[test]
fn a_delivered_unit_is_skipped_without_sending() {
    let (mut m, a) = EntryMachine::start(tpost(10, 5, 7, None, false), 0, true, 60);
    assert!(matches!(a, EntryAction::CacheGet { id: 10 }));
    let a = m.step(EntryEvent::CacheRead { read: Ok(Some(7)) });
    assert!(matches!(a, EntryAction::Done { outcome: EntryOutcome::AlreadyDelivered }));
}

#[test]
fn a_failed_send_never_touches_the_cache() {
    let (mut m, _) = EntryMachine::start(tpost(10, 5, 7, None, false), 0, false, 60);
    let a = m.step(EntryEvent::CacheRead { read: Ok(None) });
    assert!(matches!(a, EntryAction::SendGroup { .. }));
    let a = m.step(EntryEvent::SendResult { outcome: SendOutcome::Failed });
    match a {
        EntryAction::Done { outcome: EntryOutcome::SendFailed { .. } } => {},
        _ => panic!("expected a terminal entry failure"),
    }
}

#[test]
fn a_commit_failure_ends_the_entry_without_the_rest() {
    let (mut m, _) = EntryMachine::start(tpost(10, 5, 7, None, false), 0, false, 60);
    let _ = m.step(EntryEvent::CacheRead { read: Ok(None) });
    let _ = m.step(EntryEvent::SendResult { outcome: SendOutcome::Accepted });
    let a = m.step(EntryEvent::CacheWritten { write: Err(yandere_bot::errors::ErrorKind::CacheWriteFailed) });
    assert!(matches!(a, EntryAction::Done { outcome: EntryOutcome::CommitIncomplete }));
}

#[test]
fn a_failed_feed_fetch_aborts_the_tick() {
    let cfg = tconfig(0, false, 60);
    let (mut t, a) = TickMachine::start(&cfg);
    match a {
        TickAction::FetchFeed { url } => assert_eq!(url, "https://yande.re/post/popular_recent"),
        _ => panic!("expected the feed fetch"),
    }
    let a = t.step(TickEvent::Feed { result: None });
    assert!(matches!(a, TickAction::TickDone { aborted: true }));
}

#[test]
fn an_empty_batch_ends_the_tick_quietly() {
    let cfg = tconfig(0, false, 60);
    let (mut t, _) = TickMachine::start(&cfg);
    let a = t.step(TickEvent::Feed { result: Some(vec![]) });
    assert!(matches!(a, TickAction::TickDone { aborted: false }));
}

#[test]
fn a_whole_tick_filters_publishes_and_commits() {
    // The end-to-end scenario: the feed returns A (score 5, no parent, no
    // children) and B (score -1); the threshold is 0. B is filtered, A is
    // resolved alone, found undelivered, published, and committed; the final
    // cache state maps A's id to A's update time.
    let post_a = tpost(100, 5, 4242, None, false);
    let post_b = tpost(200, -1, 1, None, false);
    let cfg = tconfig(0, false, 3600);
    let now: i64 = 50_000;
    let mut cache = CacheModel::new();

    let (mut t, a) = TickMachine::start(&cfg);
    assert!(matches!(a, TickAction::FetchFeed { .. }));
    // Entry A begins with its dedup read; B never produces any request.
    let a = t.step(TickEvent::Feed { result: Some(vec![post_a, post_b]) });
    let a = match a {
        TickAction::Entry { action: EntryAction::CacheGet { id } } => {
            assert_eq!(id, 100);
            let read = cache.get(id, now);
            assert_eq!(read, None);
            t.step(TickEvent::Entry { event: EntryEvent::CacheRead { read: Ok(read) } })
        },
        _ => panic!("expected the dedup read for A"),
    };
    let a = match a {
        TickAction::Entry { action: EntryAction::SendGroup { items } } => {
            assert_eq!(items.len(), 1);
            assert_eq!(items[0].url, "https://files.example/100.png");
            t.step(TickEvent::Entry {
                event: EntryEvent::SendResult { outcome: SendOutcome::Accepted },
            })
        },
        _ => panic!("expected the send for A"),
    };
    let a = match a {
        TickAction::Entry { action: EntryAction::CacheSet { id, updated_at, ttl } } => {
            assert_eq!((id, updated_at, ttl), (100, 4242, 3600));
            cache.set_with_expiry(id, updated_at, now, ttl);
            t.step(TickEvent::Entry { event: EntryEvent::CacheWritten { write: Ok(()) } })
        },
        _ => panic!("expected the commit for A"),
    };
    assert!(matches!(
        a,
        TickAction::Entry { action: EntryAction::Done { outcome: EntryOutcome::Published } }
    ));
    // B is below the threshold: the tick is over without another request.
    let a = t.step(TickEvent::Next);
    assert!(matches!(a, TickAction::TickDone { aborted: false }));
    // The cache now records A as delivered at its update time.
    assert_eq!(cache.get(100, now), Some(4242));
    assert_eq!(cache.get(200, now), None);
}
