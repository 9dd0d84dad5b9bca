use vstd::prelude::*;

use crate::dedup::{already_sent_post, member_delivered_spec};
use crate::dispatch::{
    build_media_group, flat_items, items_match_unit, split_groups, DispatchAction, DispatchMachine,
    DispatchState, MediaItem, SendOutcome, MAX_GROUP_SIZE,
};
use crate::errors::ErrorKind;
use crate::grouping::{resolve_on_children, resolve_on_parent, resolve_start, ResolveStep};
use crate::post::Post;
use crate::config::Config;

verus! {

/// How one feed entry ended.
#[derive(Clone, Copy, PartialEq, Eq, Structural, Debug)]
pub enum EntryOutcome {
    /// Below the score threshold; skipped before any cache or transport work.
    Filtered,
    /// Every member of the unit was already delivered; nothing sent.
    AlreadyDelivered,
    /// Sent, and every member's dedup record written.
    Published,
    /// Sent, but a dedup write failed midway; the unit may be resent later.
    CommitIncomplete,
    /// The publish attempt failed; the cache was not touched.
    SendFailed { error: ErrorKind },
}

/// What the entry machine asks its caller to do next.
pub enum EntryAction {
    /// Fetch the post with this id.
    FetchPost { id: i32 },
    /// Fetch the children of the post with this id.
    FetchChildren { id: i32 },
    /// Read this id's dedup record.
    CacheGet { id: i32 },
    /// Send these items as one group call.
    SendGroup { items: Vec<MediaItem> },
    /// Suspend for exactly this long, then report back.
    Sleep { seconds: u64 },
    /// Write this id's dedup record, valid for `ttl` seconds.
    CacheSet { id: i32, updated_at: i64, ttl: usize },
    /// This entry is over.
    Done { outcome: EntryOutcome },
}

/// What the caller reports back.
pub enum EntryEvent {
    /// The post lookup came back, or failed.
    PostFetched { result: Option<Post> },
    /// The children lookup came back; a failed lookup reports no children.
    ChildrenFetched { children: Vec<Post> },
    /// The dedup read came back, or failed.
    CacheRead { read: Result<Option<i64>, ErrorKind> },
    /// The transport answered the group call.
    SendResult { outcome: SendOutcome },
    /// The suspension is over.
    Slept,
    /// The dedup write came back, or failed.
    CacheWritten { write: Result<(), ErrorKind> },
}

/// Where one entry stands.
pub enum EntryPhase {
    /// The parent lookup is out.
    AwaitParent,
    /// The children lookup is out.
    AwaitChildren,
    /// Dedup reads are under way, one member at a time.
    AwaitCacheRead { unit: Vec<Post>, next: usize },
    /// The unit is being sent.
    Dispatching { unit: Vec<Post>, dm: DispatchMachine },
    /// Dedup writes are under way, one member at a time.
    AwaitCacheWrite { unit: Vec<Post>, next: usize },
    /// The entry is over.
    Done { outcome: EntryOutcome },
}

/// These groups carry exactly this unit, in order, split within the
/// transport's cap, full groups first.
pub open spec fn groups_of_unit(groups: Seq<Vec<MediaItem>>, unit: Seq<Post>) -> bool {
    &&& items_match_unit(flat_items(groups), unit)
    &&& forall|g: int|
        0 <= g < groups.len() ==> 1 <= (#[trigger] groups[g])@.len() <= MAX_GROUP_SIZE
    &&& forall|g: int|
        0 <= g < groups.len() - 1 ==> (#[trigger] groups[g])@.len() == MAX_GROUP_SIZE
}

/// One feed entry's walk through the core: score filter, grouping
/// resolution, the dedup check, the publish attempt, and the commit. It asks
/// for one outside step at a time and never performs one itself.
pub struct EntryMachine {
    /// The feed entry being processed.
    pub post: Post,
    /// Entries scoring below this are filtered outright.
    pub score_threshold: i32,
    /// Whether a delivered post is resent once its update time moves on.
    pub updated_resend: bool,
    /// Time to live of a dedup record, in seconds.
    pub ttl: usize,
    /// Where the entry stands.
    pub phase: EntryPhase,
}

/// The machine begins its dedup reads: the unit is `u`, the first member's
/// record is asked for.
pub open spec fn read_start(u: Seq<Post>, m: EntryMachine, a: EntryAction) -> bool {
    &&& m.phase matches EntryPhase::AwaitCacheRead { unit, next } && unit@ == u && next == 0
    &&& a == (EntryAction::CacheGet { id: u[0].id })
}

/// The machine begins its commit: the first member's record is written.
pub open spec fn commit_start(u: Seq<Post>, ttl: usize, m: EntryMachine, a: EntryAction) -> bool {
    &&& m.phase matches EntryPhase::AwaitCacheWrite { unit, next } && unit@ == u && next == 0
    &&& a == (EntryAction::CacheSet { id: u[0].id, updated_at: u[0].updated_at, ttl })
}

/// The entry is over with this outcome.
pub open spec fn entry_done(outcome: EntryOutcome, m: EntryMachine, a: EntryAction) -> bool {
    &&& m.phase == (EntryPhase::Done { outcome })
    &&& a == (EntryAction::Done { outcome })
}

/// The exact transition relation of one entry step: what the machine's new
/// state and its next request are, for each phase and event.
pub open spec fn entry_step_spec(
    pre: EntryMachine,
    event: EntryEvent,
    m: EntryMachine,
    a: EntryAction,
) -> bool {
    match (pre.phase, event) {
        (EntryPhase::AwaitParent, EntryEvent::PostFetched { result }) => {
            match result {
                Some(parent) => {
                    &&& m.phase is AwaitChildren
                    &&& a == (EntryAction::FetchChildren { id: parent.id })
                },
                None => read_start(seq![pre.post], m, a),
            }
        },
        (EntryPhase::AwaitChildren, EntryEvent::ChildrenFetched { children }) => {
            if children@.len() > 0 {
                read_start(children@, m, a)
            } else {
                read_start(seq![pre.post], m, a)
            }
        },
        (EntryPhase::AwaitCacheRead { unit, next }, EntryEvent::CacheRead { read }) => {
            let delivered = member_delivered_spec(
                read,
                unit@[next as int].updated_at,
                pre.updated_resend,
            );
            if delivered {
                if next + 1 < unit@.len() {
                    &&& m.phase matches EntryPhase::AwaitCacheRead { unit: u2, next: n2 } && u2@
                        == unit@ && n2 == next + 1
                    &&& a == (EntryAction::CacheGet { id: unit@[next + 1].id })
                } else {
                    entry_done(EntryOutcome::AlreadyDelivered, m, a)
                }
            } else {
                &&& m.phase matches EntryPhase::Dispatching { unit: u2, dm } && u2@ == unit@
                    && groups_of_unit(dm.groups@, unit@) && dm.gi == 0 && dm.retried == false
                    && dm.state is AwaitSend && (a matches EntryAction::SendGroup { items }
                    && items@ == dm.groups@[0]@)
            }
        },
        (EntryPhase::Dispatching { unit, dm }, EntryEvent::SendResult { outcome }) => {
            match outcome {
                SendOutcome::Accepted => {
                    if dm.gi + 1 < dm.groups@.len() {
                        &&& m.phase matches EntryPhase::Dispatching { unit: u2, dm: dm2 } && u2@
                            == unit@ && dm2.groups == dm.groups && dm2.gi == dm.gi + 1
                            && dm2.retried == false && dm2.state is AwaitSend
                        &&& a matches EntryAction::SendGroup { items } && items@ == dm.groups@[
                        dm.gi + 1]@
                    } else {
                        commit_start(unit@, pre.ttl, m, a)
                    }
                },
                SendOutcome::RateLimited { seconds } => {
                    if !dm.retried {
                        &&& m.phase matches EntryPhase::Dispatching { unit: u2, dm: dm2 } && u2@
                            == unit@ && dm2.groups == dm.groups && dm2.gi == dm.gi && dm2.retried
                            == false && dm2.state == (DispatchState::AwaitSleep { seconds })
                        &&& a == (EntryAction::Sleep { seconds })
                    } else {
                        entry_done(
                            EntryOutcome::SendFailed { error: ErrorKind::RateLimited },
                            m,
                            a,
                        )
                    }
                },
                SendOutcome::Failed => {
                    entry_done(
                        EntryOutcome::SendFailed { error: ErrorKind::TransportError },
                        m,
                        a,
                    )
                },
            }
        },
        (EntryPhase::Dispatching { unit, dm }, EntryEvent::Slept) => {
            &&& m.phase matches EntryPhase::Dispatching { unit: u2, dm: dm2 } && u2@ == unit@
                && dm2.groups == dm.groups && dm2.gi == dm.gi && dm2.retried == true && dm2.state
                is AwaitSend
            &&& a matches EntryAction::SendGroup { items } && items@ == dm.groups@[dm.gi as int]@
        },
        (EntryPhase::AwaitCacheWrite { unit, next }, EntryEvent::CacheWritten { write }) => {
            match write {
                Ok(_) => {
                    if next + 1 < unit@.len() {
                        &&& m.phase matches EntryPhase::AwaitCacheWrite { unit: u2, next: n2 }
                            && u2@ == unit@ && n2 == next + 1
                        &&& a == (EntryAction::CacheSet {
                            id: unit@[next + 1].id,
                            updated_at: unit@[next + 1].updated_at,
                            ttl: pre.ttl,
                        })
                    } else {
                        entry_done(EntryOutcome::Published, m, a)
                    }
                },
                Err(_) => entry_done(EntryOutcome::CommitIncomplete, m, a),
            }
        },
        _ => false,
    }
}

impl EntryMachine {
    /// The machine's bookkeeping is sound in every phase.
    pub open spec fn wf(self) -> bool {
        match self.phase {
            EntryPhase::AwaitParent => self.post.parent_id is Some,
            EntryPhase::AwaitChildren => true,
            EntryPhase::AwaitCacheRead { unit, next } => unit@.len() > 0 && (next as int)
                < unit@.len(),
            EntryPhase::Dispatching { unit, dm } => unit@.len() > 0 && dm.wf() && !(dm.state
                is Done) && groups_of_unit(dm.groups@, unit@),
            EntryPhase::AwaitCacheWrite { unit, next } => unit@.len() > 0 && (next as int)
                < unit@.len(),
            EntryPhase::Done { .. } => true,
        }
    }

    /// Which event the machine awaits; its caller reports exactly that one.
    pub open spec fn expects(self, event: EntryEvent) -> bool {
        match (self.phase, event) {
            (EntryPhase::AwaitParent, EntryEvent::PostFetched { .. }) => true,
            (EntryPhase::AwaitChildren, EntryEvent::ChildrenFetched { .. }) => true,
            (EntryPhase::AwaitCacheRead { .. }, EntryEvent::CacheRead { .. }) => true,
            (EntryPhase::Dispatching { unit: _, dm }, EntryEvent::SendResult { .. }) => dm.state
                is AwaitSend,
            (EntryPhase::Dispatching { unit: _, dm }, EntryEvent::Slept) => dm.state
                is AwaitSleep,
            (EntryPhase::AwaitCacheWrite { .. }, EntryEvent::CacheWritten { .. }) => true,
            _ => false,
        }
    }

    /// The entry is over.
    pub open spec fn is_done(self) -> bool {
        self.phase is Done
    }

    /// Begin one feed entry. The score filter comes first: a post below the
    /// threshold is over at once, before any cache or transport request.
    /// Otherwise resolution starts, per the post's parent and children.
    pub fn start(post: Post, score_threshold: i32, updated_resend: bool, ttl: usize) -> (r: (
        EntryMachine,
        EntryAction,
    ))
        ensures
            r.0.wf(),
            r.0.post == post,
            r.0.score_threshold == score_threshold,
            r.0.updated_resend == updated_resend,
            r.0.ttl == ttl,
            post.score < score_threshold ==> entry_done(EntryOutcome::Filtered, r.0, r.1),
            post.score >= score_threshold ==> match post.parent_id {
                Some(pid) => {
                    &&& r.0.phase is AwaitParent
                    &&& r.1 == (EntryAction::FetchPost { id: pid })
                },
                None => {
                    if post.has_children {
                        &&& r.0.phase is AwaitChildren
                        &&& r.1 == (EntryAction::FetchChildren { id: post.id })
                    } else {
                        read_start(seq![post], r.0, r.1)
                    }
                },
            },
    {
        if post.score_filter(score_threshold) {
            let m = EntryMachine {
                post,
                score_threshold,
                updated_resend,
                ttl,
                phase: EntryPhase::Done { outcome: EntryOutcome::Filtered },
            };
            return (m, EntryAction::Done { outcome: EntryOutcome::Filtered });
        }
        let step = resolve_start(&post);
        match step {
            ResolveStep::FetchParent { id } => {
                let m = EntryMachine {
                    post,
                    score_threshold,
                    updated_resend,
                    ttl,
                    phase: EntryPhase::AwaitParent,
                };
                (m, EntryAction::FetchPost { id })
            },
            ResolveStep::FetchChildren { id } => {
                let m = EntryMachine {
                    post,
                    score_threshold,
                    updated_resend,
                    ttl,
                    phase: EntryPhase::AwaitChildren,
                };
                (m, EntryAction::FetchChildren { id })
            },
            ResolveStep::Resolved { unit } => {
                let id = unit[0].get_id();
                let m = EntryMachine {
                    post,
                    score_threshold,
                    updated_resend,
                    ttl,
                    phase: EntryPhase::AwaitCacheRead { unit, next: 0 },
                };
                (m, EntryAction::CacheGet { id })
            },
        }
    }

    /// Take the answer to the machine's outstanding request and move one
    /// step: exactly the transition `entry_step_spec` names.
    pub fn step(&mut self, event: EntryEvent) -> (a: EntryAction)
        requires
            old(self).wf(),
            old(self).expects(event),
        ensures
            final(self).wf(),
            final(self).post == old(self).post,
            final(self).score_threshold == old(self).score_threshold,
            final(self).updated_resend == old(self).updated_resend,
            final(self).ttl == old(self).ttl,
            entry_step_spec(*old(self), event, *final(self), a),
    {
        let mut phase = EntryPhase::Done { outcome: EntryOutcome::Filtered };
        core::mem::swap(&mut phase, &mut self.phase);
        match (phase, event) {
            (EntryPhase::AwaitParent, EntryEvent::PostFetched { result }) => {
                let step = resolve_on_parent(&self.post, result);
                match step {
                    ResolveStep::FetchChildren { id } => {
                        self.phase = EntryPhase::AwaitChildren;
                        EntryAction::FetchChildren { id }
                    },
                    ResolveStep::Resolved { unit } => {
                        let id = unit[0].get_id();
                        self.phase = EntryPhase::AwaitCacheRead { unit, next: 0 };
                        EntryAction::CacheGet { id }
                    },
                    ResolveStep::FetchParent { .. } => vstd::pervasive::unreached(),
                }
            },
            (EntryPhase::AwaitChildren, EntryEvent::ChildrenFetched { children }) => {
                let unit = resolve_on_children(&self.post, children);
                let id = unit[0].get_id();
                self.phase = EntryPhase::AwaitCacheRead { unit, next: 0 };
                EntryAction::CacheGet { id }
            },
            (EntryPhase::AwaitCacheRead { unit, next }, EntryEvent::CacheRead { read }) => {
                let n = unit.len();
                let delivered = already_sent_post(&unit[next], read, self.updated_resend);
                if delivered {
                    if next + 1 < n {
                        let id = unit[next + 1].get_id();
                        self.phase = EntryPhase::AwaitCacheRead { unit, next: next + 1 };
                        EntryAction::CacheGet { id }
                    } else {
                        self.phase = EntryPhase::Done {
                            outcome: EntryOutcome::AlreadyDelivered,
                        };
                        EntryAction::Done { outcome: EntryOutcome::AlreadyDelivered }
                    }
                } else {
                    let items = build_media_group(&unit);
                    let groups = split_groups(&items, MAX_GROUP_SIZE);
                    let (dm, da) = DispatchMachine::start(groups);
                    let a = match da {
                        DispatchAction::Send { items } => EntryAction::SendGroup { items },
                        _ => vstd::pervasive::unreached(),
                    };
                    self.phase = EntryPhase::Dispatching { unit, dm };
                    a
                }
            },
            (EntryPhase::Dispatching { unit, mut dm }, EntryEvent::SendResult { outcome }) => {
                let da = dm.on_send_outcome(outcome);
                match da {
                    DispatchAction::Send { items } => {
                        self.phase = EntryPhase::Dispatching { unit, dm };
                        EntryAction::SendGroup { items }
                    },
                    DispatchAction::Sleep { seconds } => {
                        self.phase = EntryPhase::Dispatching { unit, dm };
                        EntryAction::Sleep { seconds }
                    },
                    DispatchAction::Succeeded => {
                        let id = unit[0].get_id();
                        let updated_at = unit[0].get_updated_at();
                        self.phase = EntryPhase::AwaitCacheWrite { unit, next: 0 };
                        EntryAction::CacheSet { id, updated_at, ttl: self.ttl }
                    },
                    DispatchAction::Failed { error } => {
                        let outcome = EntryOutcome::SendFailed { error };
                        self.phase = EntryPhase::Done { outcome };
                        EntryAction::Done { outcome }
                    },
                }
            },
            (EntryPhase::Dispatching { unit, mut dm }, EntryEvent::Slept) => {
                let da = dm.on_slept();
                match da {
                    DispatchAction::Send { items } => {
                        self.phase = EntryPhase::Dispatching { unit, dm };
                        EntryAction::SendGroup { items }
                    },
                    _ => vstd::pervasive::unreached(),
                }
            },
            (EntryPhase::AwaitCacheWrite { unit, next }, EntryEvent::CacheWritten { write }) => {
                let n = unit.len();
                match write {
                    Ok(_) => {
                        if next + 1 < n {
                            let id = unit[next + 1].get_id();
                            let updated_at = unit[next + 1].get_updated_at();
                            self.phase = EntryPhase::AwaitCacheWrite { unit, next: next + 1 };
                            EntryAction::CacheSet { id, updated_at, ttl: self.ttl }
                        } else {
                            self.phase = EntryPhase::Done { outcome: EntryOutcome::Published };
                            EntryAction::Done { outcome: EntryOutcome::Published }
                        }
                    },
                    Err(_) => {
                        self.phase = EntryPhase::Done {
                            outcome: EntryOutcome::CommitIncomplete,
                        };
                        EntryAction::Done { outcome: EntryOutcome::CommitIncomplete }
                    },
                }
            },
            _ => vstd::pervasive::unreached(),
        }
    }
}


/// What the tick orchestrator asks its caller to do next.
pub enum TickAction {
    /// Fetch the feed at this URL and parse it into post records.
    FetchFeed { url: String },
    /// Perform this step for the current entry.
    Entry { action: EntryAction },
    /// The tick is over; `aborted` says the feed fetch failed.
    TickDone { aborted: bool },
}

/// What the caller reports back to the tick orchestrator.
pub enum TickEvent {
    /// The feed came back parsed, or the fetch failed.
    Feed { result: Option<Vec<Post>> },
    /// The answer to the current entry's outstanding request.
    Entry { event: EntryEvent },
    /// The current entry's outcome is taken; move to the next entry.
    Next,
}

/// Where the tick stands.
pub enum TickPhase {
    /// The feed fetch is out.
    Fetching,
    /// Entry `idx` of the batch is being processed.
    Processing { posts: Vec<Post>, idx: usize, entry: EntryMachine },
    /// The tick is over.
    Idle { aborted: bool },
}

/// The index of the first entry at or past `from` that passes the score
/// filter; the batch length when none does.
pub open spec fn first_active(posts: Seq<Post>, from: int, threshold: i32) -> int
    decreases posts.len() - from,
{
    if from < 0 || from >= posts.len() {
        posts.len() as int
    } else if posts[from].score >= threshold {
        from
    } else {
        first_active(posts, from + 1, threshold)
    }
}

/// A freshly started entry: the machine stands at the request its post's
/// shape calls for, and the post passed the score filter.
pub open spec fn entry_started(
    m: EntryMachine,
    a: EntryAction,
    post: Post,
    threshold: i32,
    updated_resend: bool,
    ttl: usize,
) -> bool {
    &&& m.wf()
    &&& m.post == post
    &&& m.score_threshold == threshold
    &&& m.updated_resend == updated_resend
    &&& m.ttl == ttl
    &&& post.score >= threshold
    &&& match post.parent_id {
        Some(pid) => m.phase is AwaitParent && a == (EntryAction::FetchPost { id: pid }),
        None => {
            if post.has_children {
                m.phase is AwaitChildren && a == (EntryAction::FetchChildren { id: post.id })
            } else {
                read_start(seq![post], m, a)
            }
        },
    }
}

/// The tick moved past every filtered entry from `from` on: it stands at the
/// first entry that passes the filter, freshly started, or the tick is over
/// when none is left. No request is ever made for a passed-over entry.
pub open spec fn advanced(
    threshold: i32,
    updated_resend: bool,
    ttl: usize,
    posts_v: Seq<Post>,
    from: int,
    ph: TickPhase,
    a: TickAction,
) -> bool {
    let j = first_active(posts_v, from, threshold);
    if j == posts_v.len() {
        &&& ph == (TickPhase::Idle { aborted: false })
        &&& a == (TickAction::TickDone { aborted: false })
    } else {
        &&& ph matches TickPhase::Processing { posts, idx, entry } && posts@ == posts_v && idx == j
            && (a matches TickAction::Entry { action } && entry_started(
            entry,
            action,
            posts_v[j],
            threshold,
            updated_resend,
            ttl,
        ))
    }
}

/// The exact transition relation of one tick step.
pub open spec fn tick_step_spec(
    pre: TickMachine,
    event: TickEvent,
    m: TickMachine,
    a: TickAction,
) -> bool {
    match (pre.phase, event) {
        (TickPhase::Fetching, TickEvent::Feed { result }) => {
            match result {
                None => {
                    &&& m.phase == (TickPhase::Idle { aborted: true })
                    &&& a == (TickAction::TickDone { aborted: true })
                },
                Some(posts) => advanced(
                    pre.score_threshold,
                    pre.updated_resend,
                    pre.ttl,
                    posts@,
                    0,
                    m.phase,
                    a,
                ),
            }
        },
        (TickPhase::Processing { posts, idx, entry }, TickEvent::Entry { event: ee }) => {
            &&& m.phase matches TickPhase::Processing { posts: p2, idx: i2, entry: e2 } && p2@
                == posts@ && i2 == idx && (a matches TickAction::Entry { action } && entry_step_spec(
                entry,
                ee,
                e2,
                action,
            ))
        },
        (TickPhase::Processing { posts, idx, entry }, TickEvent::Next) => advanced(
            pre.score_threshold,
            pre.updated_resend,
            pre.ttl,
            posts@,
            idx + 1,
            m.phase,
            a,
        ),
        _ => false,
    }
}

/// One scheduled tick of the orchestrator: fetch the batch, then walk its
/// entries in feed order, one entry machine at a time. Filtered entries are
/// passed over without any request; a failed feed fetch aborts the whole
/// tick; an entry's failure never halts the batch.
pub struct TickMachine {
    /// Entries scoring below this are filtered outright.
    pub score_threshold: i32,
    /// Whether a delivered post is resent once its update time moves on.
    pub updated_resend: bool,
    /// Time to live of a dedup record, in seconds.
    pub ttl: usize,
    /// Where the tick stands.
    pub phase: TickPhase,
}

impl TickMachine {
    /// The machine's bookkeeping is sound: mid-batch, the current entry is
    /// in range, belongs to the current post, carries the tick's own
    /// settings, and its post passed the score filter.
    pub open spec fn wf(self) -> bool {
        match self.phase {
            TickPhase::Fetching => true,
            TickPhase::Processing { posts, idx, entry } => {
                &&& (idx as int) < posts@.len()
                &&& entry.wf()
                &&& entry.post == posts@[idx as int]
                &&& entry.score_threshold == self.score_threshold
                &&& entry.updated_resend == self.updated_resend
                &&& entry.ttl == self.ttl
                &&& posts@[idx as int].score >= self.score_threshold
            },
            TickPhase::Idle { .. } => true,
        }
    }

    /// Which event the machine awaits.
    pub open spec fn expects(self, event: TickEvent) -> bool {
        match (self.phase, event) {
            (TickPhase::Fetching, TickEvent::Feed { .. }) => true,
            (TickPhase::Processing { entry, .. }, TickEvent::Entry { event: ee }) => !entry.is_done()
                && entry.expects(ee),
            (TickPhase::Processing { entry, .. }, TickEvent::Next) => entry.is_done(),
            _ => false,
        }
    }

    /// The tick is over.
    pub open spec fn is_done(self) -> bool {
        self.phase is Idle
    }

    /// Begin one tick: the feed fetch goes out first.
    pub fn start(cfg: &Config) -> (r: (TickMachine, TickAction))
        ensures
            r.0.wf(),
            r.0.score_threshold == cfg.yandere.score_threshold,
            r.0.updated_resend == cfg.yandere.updated_resend,
            r.0.ttl == cfg.db.expire,
            r.0.phase is Fetching,
            r.1 matches TickAction::FetchFeed { url } && url@ == cfg.yandere.rss_url@,
    {
        let m = TickMachine {
            score_threshold: cfg.yandere.score_threshold,
            updated_resend: cfg.yandere.updated_resend,
            ttl: cfg.db.expire,
            phase: TickPhase::Fetching,
        };
        (m, TickAction::FetchFeed { url: cfg.yandere.rss_url.clone() })
    }

    /// Take the answer to the tick's outstanding request and move one step:
    /// exactly the transition `tick_step_spec` names.
    pub fn step(&mut self, event: TickEvent) -> (a: TickAction)
        requires
            old(self).wf(),
            old(self).expects(event),
        ensures
            final(self).wf(),
            final(self).score_threshold == old(self).score_threshold,
            final(self).updated_resend == old(self).updated_resend,
            final(self).ttl == old(self).ttl,
            tick_step_spec(*old(self), event, *final(self), a),
    {
        let mut phase = TickPhase::Idle { aborted: false };
        core::mem::swap(&mut phase, &mut self.phase);
        match (phase, event) {
            (TickPhase::Fetching, TickEvent::Feed { result }) => {
                match result {
                    None => {
                        self.phase = TickPhase::Idle { aborted: true };
                        TickAction::TickDone { aborted: true }
                    },
                    Some(posts) => {
                        let (ph, a) = advance_entries(
                            posts,
                            0,
                            self.score_threshold,
                            self.updated_resend,
                            self.ttl,
                        );
                        self.phase = ph;
                        a
                    },
                }
            },
            (TickPhase::Processing { posts, idx, mut entry }, TickEvent::Entry { event: ee }) => {
                let a = entry.step(ee);
                self.phase = TickPhase::Processing { posts, idx, entry };
                TickAction::Entry { action: a }
            },
            (TickPhase::Processing { posts, idx, entry: _ }, TickEvent::Next) => {
                let n = posts.len();
                proof {
                    assert((idx as int) < n as int);
                }
                let (ph, a) = advance_entries(
                    posts,
                    idx + 1,
                    self.score_threshold,
                    self.updated_resend,
                    self.ttl,
                );
                self.phase = ph;
                a
            },
            _ => vstd::pervasive::unreached(),
        }
    }
}

/// Walk the batch from `from` to the first entry that passes the score
/// filter and start it; end the tick when none is left. Filtered entries get
/// no request of any kind.
fn advance_entries(posts: Vec<Post>, from: usize, threshold: i32, updated_resend: bool, ttl: usize) -> (r: (
    TickPhase,
    TickAction,
))
    ensures
        advanced(threshold, updated_resend, ttl, posts@, from as int, r.0, r.1),
        r.0 matches TickPhase::Processing { posts: p2, idx, entry } ==> {
            &&& (idx as int) < p2@.len()
            &&& entry.wf()
            &&& entry.post == p2@[idx as int]
            &&& entry.score_threshold == threshold
            &&& entry.updated_resend == updated_resend
            &&& entry.ttl == ttl
            &&& p2@[idx as int].score >= threshold
        },
{
    let n = posts.len();
    let mut i = from;
    if i > n {
        proof {
            assert(first_active(posts@, from as int, threshold) == posts@.len());
        }
        return (
            TickPhase::Idle { aborted: false },
            TickAction::TickDone { aborted: false },
        );
    }
    while i < n
        invariant
            n == posts@.len(),
            from <= i <= n,
            first_active(posts@, from as int, threshold) == first_active(
                posts@,
                i as int,
                threshold,
            ),
        decreases n - i,
    {
        if !posts[i].score_filter(threshold) {
            proof {
                assert(first_active(posts@, i as int, threshold) == i);
            }
            let p = posts[i].clone();
            let (entry, ea) = EntryMachine::start(p, threshold, updated_resend, ttl);
            return (
                TickPhase::Processing { posts, idx: i, entry },
                TickAction::Entry { action: ea },
            );
        }
        i += 1;
    }
    proof {
        assert(first_active(posts@, i as int, threshold) == posts@.len());
    }
    (TickPhase::Idle { aborted: false }, TickAction::TickDone { aborted: false })
}

/// The score filter law, at the tick level: a post below the threshold is
/// never the entry a well-formed tick is working on, so the orchestrator
/// never asks for a cache read, a transport call or a secondary lookup on
/// its behalf; with `EntryMachine::start`, which finishes a filtered entry
/// before its first request, no filtered post ever reaches the cache or the
/// transport.
pub proof fn lemma_filtered_post_never_processed(m: TickMachine)
    requires
        m.wf(),
    ensures
        m.phase matches TickPhase::Processing { posts, idx, entry } ==> {
            &&& posts@[idx as int].score >= m.score_threshold
            &&& entry.post == posts@[idx as int]
        },
{
}

} // verus!
