use vstd::prelude::*;

use crate::caption::caption_of;
use crate::errors::ErrorKind;
use crate::post::Post;

verus! {

/// One entry of a photo-group message: the medium to show and the caption
/// under it.
pub struct MediaItem {
    pub url: String,
    pub caption: String,
}

impl Clone for MediaItem {
    /// A clone is the same item.
    fn clone(&self) -> (r: Self)
        ensures
            r == *self,
    {
        MediaItem { url: self.url.clone(), caption: self.caption.clone() }
    }
}

/// The transport accepts at most this many items in one group call.
pub const MAX_GROUP_SIZE: usize = 10;

/// This item carries this post: its sample medium and its caption.
pub open spec fn item_matches(m: MediaItem, p: Post) -> bool {
    &&& m.url@ == p.sample_url@
    &&& m.caption@ == caption_of(p)
}

/// These items carry these posts, in the same order.
pub open spec fn items_match_unit(items: Seq<MediaItem>, unit: Seq<Post>) -> bool {
    &&& items.len() == unit.len()
    &&& forall|i: int| 0 <= i < unit.len() ==> item_matches(#[trigger] items[i], unit[i])
}

/// Build the ordered photo-group message of a unit: one item per member, in
/// the unit's order.
pub fn build_media_group(unit: &Vec<Post>) -> (items: Vec<MediaItem>)
    ensures
        items_match_unit(items@, unit@),
{
    let n = unit.len();
    let mut items: Vec<MediaItem> = Vec::new();
    let mut i: usize = 0;
    while i < n
        invariant
            n == unit@.len(),
            0 <= i <= n,
            items@.len() == i,
            forall|j: int| 0 <= j < i ==> item_matches(#[trigger] items@[j], unit@[j]),
        decreases n - i,
    {
        let url = String::from_str(unit[i].get_sample_url());
        let caption = unit[i].get_caption();
        items.push(MediaItem { url, caption });
        i += 1;
    }
    items
}

/// All the groups' items, in order.
pub open spec fn flat_items(groups: Seq<Vec<MediaItem>>) -> Seq<MediaItem> {
    groups.flat_map(|g: Vec<MediaItem>| g@)
}

/// A proper split of `items` into consecutive sub-groups: nothing lost,
/// nothing reordered, every sub-group within the transport's cap, and every
/// sub-group but the last one full.
pub open spec fn well_split(items: Seq<MediaItem>, groups: Seq<Vec<MediaItem>>, max: int) -> bool {
    &&& flat_items(groups) == items
    &&& forall|g: int| 0 <= g < groups.len() ==> 1 <= (#[trigger] groups[g])@.len() <= max
    &&& forall|g: int| 0 <= g < groups.len() - 1 ==> (#[trigger] groups[g])@.len() == max
}

/// Split a message into consecutive sub-groups of at most `max` items, in
/// the original order: full groups first, the remainder last.
pub fn split_groups(items: &Vec<MediaItem>, max: usize) -> (groups: Vec<Vec<MediaItem>>)
    requires
        max >= 1,
    ensures
        well_split(items@, groups@, max as int),
        items@.len() > 0 ==> groups@.len() > 0,
{
    let n = items.len();
    let mut groups: Vec<Vec<MediaItem>> = Vec::new();
    let mut pos: usize = 0;
    proof {
        assert(flat_items(groups@) =~= items@.take(0));
    }
    while pos < n
        invariant
            n == items@.len(),
            max >= 1,
            0 <= pos <= n,
            flat_items(groups@) == items@.take(pos as int),
            forall|g: int| 0 <= g < groups@.len() ==> 1 <= (#[trigger] groups@[g])@.len() <= max,
            forall|g: int|
                0 <= g < groups@.len() - 1 ==> (#[trigger] groups@[g])@.len() == max,
            pos < n && groups@.len() > 0 ==> groups@.last()@.len() == max,
            groups@.len() > 0 ==> pos > 0,
        decreases n - pos,
    {
        let take = if n - pos < max {
            n - pos
        } else {
            max
        };
        let mut group: Vec<MediaItem> = Vec::new();
        let mut k: usize = 0;
        while k < take
            invariant
                n == items@.len(),
                0 <= pos,
                pos + take <= n,
                0 <= k <= take,
                group@ == items@.subrange(pos as int, pos + k),
            decreases take - k,
        {
            group.push(items[pos + k].clone());
            proof {
                assert(items@.subrange(pos as int, pos + k + 1) =~= items@.subrange(
                    pos as int,
                    pos + k,
                ).push(items@[pos + k]));
            }
            k += 1;
        }
        let ghost old_groups = groups@;
        groups.push(group);
        proof {
            assert(groups@ =~= old_groups.push(group));
            old_groups.lemma_flat_map_push(|g: Vec<MediaItem>| g@, group);
            assert(flat_items(groups@) =~= items@.take(pos + take as int)) by {
                assert(items@.take(pos as int) + items@.subrange(pos as int, pos + take as int)
                    =~= items@.take(pos + take as int));
            }
        }
        pos += take;
    }
    proof {
        assert(items@.take(n as int) =~= items@);
    }
    groups
}

/// What the transport answered one group call with.
pub enum SendOutcome {
    /// All items of the group were accepted.
    Accepted,
    /// The transport asks to wait this many seconds before trying again.
    RateLimited { seconds: u64 },
    /// Any other transport failure.
    Failed,
}

/// What the dispatcher asks its caller to do next.
pub enum DispatchAction {
    /// Send these items as one group call.
    Send { items: Vec<MediaItem> },
    /// Suspend for exactly this long, then report back; the same group is
    /// then sent again.
    Sleep { seconds: u64 },
    /// Every group of the unit was accepted.
    Succeeded,
    /// The attempt is over, unsuccessfully; already-sent groups stay sent.
    Failed { error: ErrorKind },
}

/// Where the dispatcher stands.
pub enum DispatchState {
    /// A group call is out; the transport's outcome is awaited.
    AwaitSend,
    /// A rate-limit suspension is under way.
    AwaitSleep { seconds: u64 },
    /// The attempt is over.
    Done { result: Result<(), ErrorKind> },
}

/// The publish dispatcher of one unit: sends the unit's sub-groups in order,
/// and on a rate-limited answer suspends once, for exactly the time the
/// transport asked, before retrying that group; a second rate-limited answer
/// in a row, or any other failure, ends the attempt. It never touches the
/// dedup cache.
pub struct DispatchMachine {
    /// The unit's sub-groups, in send order.
    pub groups: Vec<Vec<MediaItem>>,
    /// The group a call is out for.
    pub gi: usize,
    /// Whether that group has already been retried after a rate limit.
    pub retried: bool,
    /// Where the attempt stands.
    pub state: DispatchState,
}

/// Clone a group for handing it out.
fn clone_items(v: &Vec<MediaItem>) -> (r: Vec<MediaItem>)
    ensures
        r@ == v@,
{
    let n = v.len();
    let mut r: Vec<MediaItem> = Vec::new();
    let mut i: usize = 0;
    while i < n
        invariant
            n == v@.len(),
            0 <= i <= n,
            r@ == v@.take(i as int),
        decreases n - i,
    {
        r.push(v[i].clone());
        proof {
            assert(v@.take(i + 1) =~= v@.take(i as int).push(v@[i as int]));
        }
        i += 1;
    }
    proof {
        assert(v@.take(n as int) =~= v@);
    }
    r
}

impl DispatchMachine {
    /// The machine's bookkeeping is sound: the current group index stays in
    /// range while the attempt runs.
    pub open spec fn wf(self) -> bool {
        match self.state {
            DispatchState::AwaitSend => self.gi < self.groups@.len(),
            DispatchState::AwaitSleep { .. } => self.gi < self.groups@.len(),
            DispatchState::Done { .. } => true,
        }
    }

    /// Begin the attempt: the first group call goes out at once.
    pub fn start(groups: Vec<Vec<MediaItem>>) -> (r: (DispatchMachine, DispatchAction))
        requires
            groups@.len() > 0,
        ensures
            r.0.wf(),
            r.0.groups == groups,
            r.0.gi == 0,
            r.0.retried == false,
            r.0.state is AwaitSend,
            r.1 matches DispatchAction::Send { items } && items@ == groups@[0]@,
    {
        let items = clone_items(&groups[0]);
        let m = DispatchMachine { groups, gi: 0, retried: false, state: DispatchState::AwaitSend };
        (m, DispatchAction::Send { items })
    }

    /// Take the transport's answer to the current group call. An accepted
    /// group moves on to the next one (or ends the attempt well); the first
    /// rate limit on a group asks for a suspension of exactly the time the
    /// transport gave; a rate limit on a retried group, or any other
    /// failure, ends the attempt, without cancelling what was already sent.
    pub fn on_send_outcome(&mut self, outcome: SendOutcome) -> (a: DispatchAction)
        requires
            old(self).wf(),
            old(self).state is AwaitSend,
        ensures
            final(self).wf(),
            final(self).groups == old(self).groups,
            match outcome {
                SendOutcome::Accepted => {
                    if old(self).gi + 1 < old(self).groups@.len() {
                        &&& final(self).gi == old(self).gi + 1
                        &&& final(self).retried == false
                        &&& final(self).state is AwaitSend
                        &&& a matches DispatchAction::Send { items } && items@ == old(
                            self,
                        ).groups@[old(self).gi + 1]@
                    } else {
                        &&& final(self).state == (DispatchState::Done {
                            result: Result::<(), ErrorKind>::Ok(()),
                        })
                        &&& a is Succeeded
                    }
                },
                SendOutcome::RateLimited { seconds } => {
                    if !old(self).retried {
                        &&& final(self).gi == old(self).gi
                        &&& final(self).retried == false
                        &&& final(self).state == (DispatchState::AwaitSleep { seconds })
                        &&& a == (DispatchAction::Sleep { seconds })
                    } else {
                        &&& final(self).state == (DispatchState::Done {
                            result: Result::<(), ErrorKind>::Err(ErrorKind::RateLimited),
                        })
                        &&& a == (DispatchAction::Failed { error: ErrorKind::RateLimited })
                    }
                },
                SendOutcome::Failed => {
                    &&& final(self).state == (DispatchState::Done {
                        result: Result::<(), ErrorKind>::Err(ErrorKind::TransportError),
                    })
                    &&& a == (DispatchAction::Failed { error: ErrorKind::TransportError })
                },
            },
    {
        let glen = self.groups.len();
        match outcome {
            SendOutcome::Accepted => {
                if self.gi + 1 < glen {
                    self.gi = self.gi + 1;
                    self.retried = false;
                    self.state = DispatchState::AwaitSend;
                    let items = clone_items(&self.groups[self.gi]);
                    DispatchAction::Send { items }
                } else {
                    self.state = DispatchState::Done { result: Ok(()) };
                    DispatchAction::Succeeded
                }
            },
            SendOutcome::RateLimited { seconds } => {
                if !self.retried {
                    self.state = DispatchState::AwaitSleep { seconds };
                    DispatchAction::Sleep { seconds }
                } else {
                    self.state = DispatchState::Done { result: Err(ErrorKind::RateLimited) };
                    DispatchAction::Failed { error: ErrorKind::RateLimited }
                }
            },
            SendOutcome::Failed => {
                self.state = DispatchState::Done { result: Err(ErrorKind::TransportError) };
                DispatchAction::Failed { error: ErrorKind::TransportError }
            },
        }
    }

    /// The suspension is over: the rate-limited group goes out once more,
    /// now marked as retried.
    pub fn on_slept(&mut self) -> (a: DispatchAction)
        requires
            old(self).wf(),
            old(self).state is AwaitSleep,
        ensures
            final(self).wf(),
            final(self).groups == old(self).groups,
            final(self).gi == old(self).gi,
            final(self).retried == true,
            final(self).state is AwaitSend,
            a matches DispatchAction::Send { items } && items@ == old(self).groups@[old(
                self,
            ).gi as int]@,
    {
        self.retried = true;
        self.state = DispatchState::AwaitSend;
        let items = clone_items(&self.groups[self.gi]);
        DispatchAction::Send { items }
    }
}

} // verus!
