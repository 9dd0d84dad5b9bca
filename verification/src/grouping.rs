use vstd::prelude::*;

use crate::post::Post;

verus! {

/// The next move in resolving a post's publish unit. Resolution needs up to
/// two secondary lookups, which the caller performs; each step here is a
/// decision between two lookups, and the unit once it is settled.
pub enum ResolveStep {
    /// Fetch the post with this id (the current post's parent).
    FetchParent { id: i32 },
    /// Fetch the children of the post with this id.
    FetchChildren { id: i32 },
    /// The unit is settled.
    Resolved { unit: Vec<Post> },
}

/// A unit of the post alone: the smallest safe unit, used whenever a
/// secondary lookup fails or returns nothing.
pub fn singleton_unit(post: &Post) -> (unit: Vec<Post>)
    ensures
        unit@ == seq![*post],
{
    let mut unit: Vec<Post> = Vec::new();
    unit.push(post.clone());
    proof {
        assert(unit@ =~= seq![*post]);
    }
    unit
}

/// Begin resolving: a post with a parent needs the parent fetched; a
/// parentless post with children needs its own children fetched; anything
/// else is published alone.
pub fn resolve_start(post: &Post) -> (r: ResolveStep)
    ensures
        match post.parent_id {
            Some(pid) => r == (ResolveStep::FetchParent { id: pid }),
            None => {
                if post.has_children {
                    r == (ResolveStep::FetchChildren { id: post.id })
                } else {
                    r matches ResolveStep::Resolved { unit } && unit@ == seq![*post]
                }
            },
        },
{
    match post.get_parent() {
        Ok(pid) => ResolveStep::FetchParent { id: pid },
        Err(_) => {
            if post.has_children {
                ResolveStep::FetchChildren { id: post.id }
            } else {
                ResolveStep::Resolved { unit: singleton_unit(post) }
            }
        },
    }
}

/// Continue after the parent lookup: a fetched parent directs the unit to
/// its children; a failed fetch degrades to the post alone rather than
/// aborting the entry.
pub fn resolve_on_parent(post: &Post, fetched: Option<Post>) -> (r: ResolveStep)
    ensures
        match fetched {
            Some(parent) => r == (ResolveStep::FetchChildren { id: parent.id }),
            None => r matches ResolveStep::Resolved { unit } && unit@ == seq![*post],
        },
{
    match fetched {
        Some(parent) => ResolveStep::FetchChildren { id: parent.id },
        None => ResolveStep::Resolved { unit: singleton_unit(post) },
    }
}

/// Finish after the children lookup. The grouping fallback law: a lookup
/// that returns no children resolves to the post alone, for every post;
/// otherwise the children are the unit, in lookup order.
pub fn resolve_on_children(post: &Post, children: Vec<Post>) -> (unit: Vec<Post>)
    ensures
        children@.len() > 0 ==> unit@ == children@,
        children@.len() == 0 ==> unit@ == seq![*post],
{
    if children.len() > 0 {
        children
    } else {
        singleton_unit(post)
    }
}

} // verus!
