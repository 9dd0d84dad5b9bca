use yandere_bot::config::{
    expire_default, log_level_default, rss_url_default, scheduler_default, score_threshold_default,
    updated_resend_default, Core, Yandere,
};
use yandere_bot::errors::ErrorKind;
use yandere_bot::post::{Post, RawPost};

fn rpost(id: i32, score: i32, updated_at: i64, parent_id: Option<i32>, has_children: bool) -> Post {
    Post::new(
        id,
        String::from("tag"),
        1_695_000_000,
        updated_at,
        String::new(),
        score,
        String::from("d41d8cd98f00b204e9800998ecf8427e"),
        1000,
        String::from("png"),
        String::from("https://files.example/full.png"),
        String::from("https://files.example/sample.png"),
        500,
        String::from("s"),
        has_children,
        parent_id,
        false,
    )
}

fn raw_full() -> RawPost {
    RawPost {
        id: Some(42),
        tags: Some(String::from("tag")),
        created_at: Some(1),
        updated_at: Some(2),
        source: Some(String::new()),
        score: Some(3),
        md5: Some(String::from("md5")),
        file_size: Some(4),
        file_ext: Some(String::from("png")),
        file_url: Some(String::from("f")),
        sample_url: Some(String::from("s")),
        sample_file_size: Some(5),
        rating: Some(String::from("q")),
        has_children: Some(false),
        parent_id: None,
        is_held: Some(false),
    }
}

#[test]
fn getters_read_the_fields() {
    let p = rpost(7, 5, 123, Some(3), true);
    assert_eq!(p.get_id(), 7);
    assert_eq!(p.get_updated_at(), 123);
    assert_eq!(p.get_parent(), Ok(3));
    assert_eq!(p.get_sample_url(), "https://files.example/sample.png");
}

#[test]
fn get_parent_of_parentless_post_fails() {
    let p = rpost(7, 5, 123, None, false);
    assert_eq!(p.get_parent(), Err(()));
}

#[test]
fn score_filter_is_strictly_below_threshold() {
    let p = rpost(1, 0, 0, None, false);
    assert!(p.score_filter(1));
    assert!(!p.score_filter(0));
    assert!(!p.score_filter(-1));
}

#[test]
fn from_raw_accepts_a_full_record() {
    let p = Post::from_raw(raw_full()).unwrap();
    assert_eq!(p.get_id(), 42);
    assert_eq!(p.get_updated_at(), 2);
    assert_eq!(p.get_parent(), Err(()));
}

#[test]
fn from_raw_rejects_a_missing_field() {
    let mut raw = raw_full();
    raw.updated_at = None;
    assert!(matches!(Post::from_raw(raw), Err(ErrorKind::MalformedRecord)));
}

#[test]
fn from_raw_rejects_an_out_of_range_id() {
    let mut raw = raw_full();
    raw.id = Some(1 << 40);
    assert!(matches!(Post::from_raw(raw), Err(ErrorKind::MalformedRecord)));
}

#[test]
fn from_raw_keeps_an_absent_parent() {
    let mut raw = raw_full();
    raw.parent_id = Some(9);
    let p = Post::from_raw(raw).unwrap();
    assert_eq!(p.get_parent(), Ok(9));
}

#[test]
fn config_defaults_match_the_documented_values() {
    assert_eq!(log_level_default(), "info");
    assert_eq!(scheduler_default(), "0 0 0,9,12,15,18,21 * * *");
    assert_eq!(expire_default(), 7776000);
    assert_eq!(rss_url_default(), "https://yande.re/post/popular_recent");
    assert_eq!(score_threshold_default(), 0);
    assert!(!updated_resend_default());
    let core = Core::default();
    assert_eq!(core.log_level, "info");
    assert_eq!(core.scheduler, "0 0 0,9,12,15,18,21 * * *");
    let y = Yandere::default();
    assert_eq!(y.rss_url, "https://yande.re/post/popular_recent");
    assert_eq!(y.score_threshold, 0);
    assert!(!y.updated_resend);
}
