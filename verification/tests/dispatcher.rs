use yandere_bot::dispatch::{
    build_media_group, split_groups, DispatchAction, DispatchMachine, MediaItem, SendOutcome,
};
use yandere_bot::errors::ErrorKind;
use yandere_bot::post::Post;

fn spost(id: i32) -> Post {
    Post::new(
        id,
        String::from("tag"),
        0,
        1,
        String::new(),
        10,
        String::from("md5"),
        1,
        String::from("png"),
        String::from("f"),
        format!("https://files.example/{}.png", id),
        1,
        String::from("q"),
        false,
        None,
        false,
    )
}

fn item(n: usize) -> MediaItem {
    MediaItem { url: format!("u{}", n), caption: format!("c{}", n) }
}

fn items(n: usize) -> Vec<MediaItem> {
    (0..n).map(item).collect()
}

#[test]
fn media_group_carries_the_unit_in_order() {
    let unit = vec![spost(1), spost(2)];
    let built = build_media_group(&unit);
    assert_eq!(built.len(), 2);
    assert_eq!(built[0].url, "https://files.example/1.png");
    assert_eq!(built[1].url, "https://files.example/2.png");
    assert_eq!(built[0].caption, "https://yande\\.re/post/show/1");
}

#[test]
fn a_unit_of_23_splits_into_10_10_3_in_order() {
    let groups = split_groups(&items(23), 10);
    assert_eq!(groups.len(), 3);
    assert_eq!(groups[0].len(), 10);
    assert_eq!(groups[1].len(), 10);
    assert_eq!(groups[2].len(), 3);
    assert_eq!(groups[0][0].url, "u0");
    assert_eq!(groups[1][0].url, "u10");
    assert_eq!(groups[2][2].url, "u22");
}

#[test]
fn a_small_unit_stays_one_group() {
    let groups = split_groups(&items(3), 10);
    assert_eq!(groups.len(), 1);
    assert_eq!(groups[0].len(), 3);
}

#[test]
fn an_exact_multiple_splits_into_full_groups() {
    let groups = split_groups(&items(20), 10);
    assert_eq!(groups.len(), 2);
    assert_eq!(groups[0].len(), 10);
    assert_eq!(groups[1].len(), 10);
}

#[test]
fn a_23_member_unit_takes_exactly_three_transport_calls() {
    // Drive the dispatcher with every call accepted and count the sends.
    let groups = split_groups(&items(23), 10);
    let (mut m, first) = DispatchMachine::start(groups);
    let mut sends = vec![];
    match first {
        DispatchAction::Send { items } => sends.push(items.len()),
        _ => panic!("expected an immediate send"),
    }
    loop {
        match m.on_send_outcome(SendOutcome::Accepted) {
            DispatchAction::Send { items } => sends.push(items.len()),
            DispatchAction::Succeeded => break,
            _ => panic!("expected only sends and success"),
        }
    }
    assert_eq!(sends, vec![10, 10, 3]);
}

#[test]
fn a_rate_limit_is_retried_once_after_the_given_wait() {
    let (mut m, first) = DispatchMachine::start(split_groups(&items(2), 10));
    assert!(matches!(first, DispatchAction::Send { .. }));
    // First rate limit: suspend for exactly the transport's 2 seconds.
    match m.on_send_outcome(SendOutcome::RateLimited { seconds: 2 }) {
        DispatchAction::Sleep { seconds } => assert_eq!(seconds, 2),
        _ => panic!("expected a suspension"),
    }
    // The suspension ends: the same group goes out once more.
    match m.on_slept() {
        DispatchAction::Send { items } => assert_eq!(items.len(), 2),
        _ => panic!("expected the resend"),
    }
    // A second rate limit on the retry is terminal, not retried again.
    match m.on_send_outcome(SendOutcome::RateLimited { seconds: 9 }) {
        DispatchAction::Failed { error } => assert_eq!(error, ErrorKind::RateLimited),
        _ => panic!("expected a terminal failure"),
    }
}

#[test]
fn a_retry_that_succeeds_completes_the_attempt() {
    let (mut m, _) = DispatchMachine::start(split_groups(&items(1), 10));
    assert!(matches!(
        m.on_send_outcome(SendOutcome::RateLimited { seconds: 1 }),
        DispatchAction::Sleep { seconds: 1 }
    ));
    assert!(matches!(m.on_slept(), DispatchAction::Send { .. }));
    assert!(matches!(m.on_send_outcome(SendOutcome::Accepted), DispatchAction::Succeeded));
}

#[test]
fn any_other_transport_error_is_terminal_at_once() {
    let (mut m, _) = DispatchMachine::start(split_groups(&items(1), 10));
    match m.on_send_outcome(SendOutcome::Failed) {
        DispatchAction::Failed { error } => assert_eq!(error, ErrorKind::TransportError),
        _ => panic!("expected a terminal failure"),
    }
}
