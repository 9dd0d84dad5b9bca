use yandere_bot::dedup::{already_sent_post, already_sent_posts, set_redis_posts, CacheModel};
use yandere_bot::errors::ErrorKind;
use yandere_bot::post::Post;

fn dpost(id: i32, updated_at: i64) -> Post {
    Post::new(
        id,
        String::from("tag"),
        0,
        updated_at,
        String::new(),
        10,
        String::from("md5"),
        1,
        String::from("png"),
        String::from("f"),
        String::from("s"),
        1,
        String::from("q"),
        false,
        None,
        false,
    )
}

#[test]
fn an_unknown_id_is_not_delivered() {
    let p = dpost(1, 100);
    assert!(!already_sent_post(&p, Ok(None), false));
    assert!(!already_sent_post(&p, Ok(None), true));
}

#[test]
fn a_failed_read_counts_as_not_delivered() {
    let p = dpost(1, 100);
    assert!(!already_sent_post(&p, Err(ErrorKind::CacheReadFailed), false));
    assert!(!already_sent_post(&p, Err(ErrorKind::CacheReadFailed), true));
}

#[test]
fn resend_off_keeps_a_recorded_id_delivered() {
    // Delivered at updated_at = 100, refetched with updated_at = 200.
    let p = dpost(1, 200);
    assert!(already_sent_post(&p, Ok(Some(100)), false));
}

#[test]
fn resend_on_redelivers_once_the_update_time_moves() {
    let newer = dpost(1, 200);
    assert!(!already_sent_post(&newer, Ok(Some(100)), true));
    let same = dpost(1, 100);
    assert!(already_sent_post(&same, Ok(Some(100)), true));
    let older = dpost(1, 50);
    assert!(already_sent_post(&older, Ok(Some(100)), true));
}

#[test]
fn cache_records_lapse_after_their_ttl() {
    let mut cache = CacheModel::new();
    cache.set_with_expiry(1, 777, 100, 50);
    assert_eq!(cache.get(1, 100), Some(777));
    assert_eq!(cache.get(1, 149), Some(777));
    assert_eq!(cache.get(1, 150), None);
    assert_eq!(cache.get(2, 100), None);
}

#[test]
fn overwriting_an_id_keeps_other_ids() {
    let mut cache = CacheModel::new();
    cache.set_with_expiry(1, 10, 0, 1000);
    cache.set_with_expiry(2, 20, 0, 1000);
    cache.set_with_expiry(1, 11, 0, 1000);
    assert_eq!(cache.get(1, 5), Some(11));
    assert_eq!(cache.get(2, 5), Some(20));
}

#[test]
fn one_undelivered_member_makes_the_unit_eligible() {
    let mut cache = CacheModel::new();
    cache.set_with_expiry(1, 100, 0, 1000);
    let unit = vec![dpost(1, 100), dpost(2, 100)];
    assert!(!already_sent_posts(&unit, &cache, 10, false));
    cache.set_with_expiry(2, 100, 0, 1000);
    assert!(already_sent_posts(&unit, &cache, 10, false));
}

#[test]
fn is_delivered_twice_without_commit_agrees() {
    let mut cache = CacheModel::new();
    cache.set_with_expiry(1, 100, 0, 1000);
    let unit = vec![dpost(1, 100), dpost(2, 100)];
    let first = already_sent_posts(&unit, &cache, 10, false);
    let second = already_sent_posts(&unit, &cache, 10, false);
    assert_eq!(first, second);
}

#[test]
fn commit_round_trip_holds_for_the_whole_ttl() {
    let mut cache = CacheModel::new();
    let unit = vec![dpost(1, 100), dpost(2, 200), dpost(3, 300)];
    set_redis_posts(&unit, &mut cache, 1000, 60);
    assert!(already_sent_posts(&unit, &cache, 1000, false));
    assert!(already_sent_posts(&unit, &cache, 1000, true));
    assert!(already_sent_posts(&unit, &cache, 1059, true));
    // After the ttl the records lapse and the unit is eligible again.
    assert!(!already_sent_posts(&unit, &cache, 1060, false));
    assert_eq!(cache.get(2, 1010), Some(200));
}

#[test]
fn commit_overwrites_resent_members() {
    let mut cache = CacheModel::new();
    let old_unit = vec![dpost(1, 100)];
    set_redis_posts(&old_unit, &mut cache, 0, 10_000);
    let new_unit = vec![dpost(1, 500)];
    assert!(!already_sent_posts(&new_unit, &cache, 5, true));
    set_redis_posts(&new_unit, &mut cache, 5, 10_000);
    assert_eq!(cache.get(1, 6), Some(500));
    assert!(already_sent_posts(&new_unit, &cache, 6, true));
}
