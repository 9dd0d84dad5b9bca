use yandere_bot::grouping::{resolve_on_children, resolve_on_parent, resolve_start, ResolveStep};
use yandere_bot::post::Post;

fn gpost(id: i32, parent_id: Option<i32>, has_children: bool) -> Post {
    Post::new(
        id,
        String::from("tag"),
        0,
        1,
        String::new(),
        10,
        String::from("md5"),
        1,
        String::from("png"),
        String::from("f"),
        String::from("s"),
        1,
        String::from("q"),
        has_children,
        parent_id,
        false,
    )
}

#[test]
fn a_post_with_a_parent_asks_for_the_parent() {
    let p = gpost(10, Some(3), false);
    assert!(matches!(resolve_start(&p), ResolveStep::FetchParent { id: 3 }));
}

#[test]
fn a_parentless_post_with_children_asks_for_its_children() {
    let p = gpost(10, None, true);
    assert!(matches!(resolve_start(&p), ResolveStep::FetchChildren { id: 10 }));
}

#[test]
fn a_lone_post_is_its_own_unit() {
    let p = gpost(10, None, false);
    match resolve_start(&p) {
        ResolveStep::Resolved { unit } => {
            assert_eq!(unit.len(), 1);
            assert_eq!(unit[0].get_id(), 10);
        },
        _ => panic!("expected a settled unit"),
    }
}

#[test]
fn a_fetched_parent_directs_to_its_children() {
    let p = gpost(10, Some(3), false);
    let parent = gpost(3, None, true);
    assert!(matches!(resolve_on_parent(&p, Some(parent)), ResolveStep::FetchChildren { id: 3 }));
}

#[test]
fn a_failed_parent_fetch_degrades_to_the_post_alone() {
    let p = gpost(10, Some(3), false);
    match resolve_on_parent(&p, None) {
        ResolveStep::Resolved { unit } => {
            assert_eq!(unit.len(), 1);
            assert_eq!(unit[0].get_id(), 10);
        },
        _ => panic!("expected a settled unit"),
    }
}

#[test]
fn empty_children_fall_back_to_the_post_alone() {
    // The grouping fallback: a children lookup that returns nothing
    // resolves to the post itself.
    let p = gpost(10, None, true);
    let unit = resolve_on_children(&p, vec![]);
    assert_eq!(unit.len(), 1);
    assert_eq!(unit[0].get_id(), 10);
}

#[test]
fn nonempty_children_are_the_unit_in_lookup_order() {
    let p = gpost(10, None, true);
    let unit = resolve_on_children(&p, vec![gpost(11, Some(10), false), gpost(12, Some(10), false)]);
    assert_eq!(unit.len(), 2);
    assert_eq!(unit[0].get_id(), 11);
    assert_eq!(unit[1].get_id(), 12);
}
