//! Stopping every enabled network with a TUN device.

use crate::effect::{fail, out_of_turn, succeed, Effect, EffectView, Reply};
use crate::error::GuiError;
use crate::storage::{
    disabling_the_listed_leaves_none, lemma_take_set, tun_listings_are_complete,
};
use crate::world::{World, WorldView};
use vstd::prelude::*;

verus! {

/// Stops the enabled networks with a TUN device, one after the other; with
/// `web_only`, those that the configuration server manages.
#[derive(Debug)]
pub enum DisableTun {
    Start { web_only: bool },
    /// The network `ids[next]` is being stopped.
    Stopping { ids: Vec<u128>, next: usize },
    Over,
}

/// What a [`DisableTun`] holds.
pub enum DisableTunView {
    Start { web_only: bool },
    Stopping { ids: Seq<u128>, next: int },
    Over,
}

impl View for DisableTun {
    type V = DisableTunView;

    open spec fn view(&self) -> DisableTunView {
        match *self {
            DisableTun::Start { web_only } => DisableTunView::Start { web_only },
            DisableTun::Stopping { ids, next } => DisableTunView::Stopping {
                ids: ids@,
                next: next as int,
            },
            DisableTun::Over => DisableTunView::Over,
        }
    }
}

impl DisableTunView {
    /// Stops the network `ids[next]`, if there is one.
    pub open spec fn stop(ids: Seq<u128>, next: int) -> (DisableTunView, EffectView) {
        if next < ids.len() {
            (
                DisableTunView::Stopping { ids, next },
                EffectView::Perform(Effect::SetNetworkState { id: ids[next], disabled: true }),
            )
        } else {
            (DisableTunView::Over, succeed())
        }
    }

    /// The first step: the networks are listed, and the first of them is stopped.
    pub open spec fn begins(
        self,
        world: WorldView,
        after: DisableTunView,
        effect: EffectView,
    ) -> bool {
        exists|ids: Seq<u128>| #[trigger]
            world.storage.lists_tun(self->web_only, ids) && (after, effect)
                == DisableTunView::stop(ids, 0)
    }

    /// Every later step: the next network is stopped; one that cannot be stopped
    /// ends the request.
    pub open spec fn next(self, reply: Reply) -> (DisableTunView, EffectView) {
        match (self, reply) {
            (
                DisableTunView::Stopping { ids, next },
                Reply::Outcome(Ok(())),
            ) => DisableTunView::stop(ids, next + 1),
            (DisableTunView::Stopping { .. }, Reply::Outcome(Err(words))) => (
                DisableTunView::Over,
                EffectView::Finish(Err(words@)),
            ),
            _ => (DisableTunView::Over, out_of_turn()),
        }
    }
}

impl DisableTun {
    pub fn new(web_only: bool) -> (r: DisableTun)
        ensures
            r@ == (DisableTunView::Start { web_only }),
    {
        DisableTun::Start { web_only }
    }

    /// Takes the next step.
    pub fn step(self, world: &World, reply: Reply) -> (r: (DisableTun, Effect))
        ensures
            self@ is Start && reply is Done ==> self@.begins(world@, r.0@, r.1@),
            !(self@ is Start && reply is Done) ==> (r.0@, r.1@) == self@.next(reply),
    {
        match (self, reply) {
            (DisableTun::Start { web_only }, Reply::Done) => {
                let ids = if web_only {
                    world.manager.get_enabled_instances_with_web_like_tun_ids()
                } else {
                    world.manager.get_enabled_instances_with_tun_ids()
                };
                let ghost listed = ids@;
                assert(world@.storage.lists_tun(self@->web_only, listed));
                if ids.len() > 0 {
                    let id = ids[0];
                    let r = (
                        DisableTun::Stopping { ids, next: 0 },
                        Effect::SetNetworkState { id, disabled: true },
                    );
                    assert((r.0@, r.1@) == DisableTunView::stop(listed, 0));
                    r
                } else {
                    let r = (DisableTun::Over, Effect::Finish(Ok(())));
                    assert((r.0@, r.1@) == DisableTunView::stop(listed, 0));
                    r
                }
            },
            (DisableTun::Stopping { ids, next }, Reply::Outcome(Ok(()))) => {
                if next < ids.len() && next + 1 < ids.len() {
                    let id = ids[next + 1];
                    (
                        DisableTun::Stopping { ids, next: next + 1 },
                        Effect::SetNetworkState { id, disabled: true },
                    )
                } else {
                    (DisableTun::Over, Effect::Finish(Ok(())))
                }
            },
            (DisableTun::Stopping { .. }, Reply::Outcome(Err(words))) => (
                DisableTun::Over,
                fail(words),
            ),
            _ => (DisableTun::Over, Effect::Finish(Err(GuiError::UnexpectedReply))),
        }
    }
}

/// A run of a [`DisableTun`], step by step: the flow before step `i`, the state
/// that the step finds, the reply that it gets and the effect that it asks for.
/// Between two steps other requests may change the state in any way.
pub struct DisableTunTrace {
    pub flows: Seq<DisableTunView>,
    pub worlds: Seq<WorldView>,
    pub replies: Seq<Reply>,
    pub effects: Seq<EffectView>,
}

impl DisableTunTrace {
    /// Whether step `i` is one that the flow can take.
    pub open spec fn steps(self, i: int) -> bool {
        if self.flows[i] is Start && self.replies[i] is Done {
            self.flows[i].begins(self.worlds[i], self.flows[i + 1], self.effects[i])
        } else {
            (self.flows[i + 1], self.effects[i]) == self.flows[i].next(self.replies[i])
        }
    }

    /// Whether these are the first steps of stopping networks.
    pub open spec fn stops(self, web_only: bool) -> bool {
        &&& self.worlds.len() == self.effects.len()
        &&& self.replies.len() == self.effects.len()
        &&& self.flows.len() == self.effects.len() + 1
        &&& self.flows[0] == (DisableTunView::Start { web_only })
        &&& forall|i: int| 0 <= i < self.effects.len() ==> #[trigger] self.steps(i)
    }

    /// Whether step `j` asks for the network `id` to be stopped.
    pub open spec fn asks_to_stop(self, j: int, id: u128) -> bool {
        self.effects[j] == EffectView::Perform(Effect::SetNetworkState { id, disabled: true })
    }

    /// Whether a step before step `i` learns that the network `id` has been stopped.
    pub open spec fn has_stopped(self, i: int, id: u128) -> bool {
        exists|j: int|
            0 <= j && j + 1 < i && #[trigger] self.asks_to_stop(j, id) && (self.replies[j + 1]
                matches Reply::Outcome(Ok(())))
    }

    /// What is known before step `i`, where `ids` are the networks to be stopped.
    spec fn on_the_way(self, i: int, ids: Seq<u128>) -> bool {
        match self.flows[i] {
            DisableTunView::Start { .. } => false,
            DisableTunView::Stopping { ids: listed, next } => {
                &&& listed == ids
                &&& 0 <= next < ids.len()
                &&& self.asks_to_stop(i - 1, ids[next])
                &&& forall|k: int| 0 <= k < next ==> #[trigger] self.has_stopped(i, ids[k])
            },
            DisableTunView::Over => self.effects[i - 1] == succeed() ==> forall|k: int|
                0 <= k < ids.len() ==> #[trigger] self.has_stopped(i, ids[k]),
        }
    }
}

/// The flow stays on the way.
proof fn lemma_on_the_way(t: DisableTunTrace, web_only: bool, ids: Seq<u128>, i: int)
    requires
        t.stops(web_only),
        1 <= i <= t.effects.len(),
        t.on_the_way(1, ids),
    ensures
        t.on_the_way(i, ids),
    decreases i,
{
    if i > 1 {
        lemma_on_the_way(t, web_only, ids, i - 1);
        assert(t.steps(i - 1));
        assert forall|id: u128| t.has_stopped(i - 1, id) implies #[trigger] t.has_stopped(
            i,
            id,
        ) by {
            let j = choose|j: int|
                0 <= j && j + 1 < i - 1 && #[trigger] t.asks_to_stop(j, id) && (t.replies[j + 1]
                    matches Reply::Outcome(Ok(())));
            assert(t.asks_to_stop(j, id));
        }
        if t.flows[i - 1] is Stopping && (t.replies[i - 1] matches Reply::Outcome(Ok(()))) {
            let next = t.flows[i - 1]->next;
            assert(t.asks_to_stop(i - 2, ids[next]));
            assert(t.has_stopped(i, ids[next]));
            assert forall|k: int| 0 <= k < next + 1 implies #[trigger] t.has_stopped(
                i,
                ids[k],
            ) by {
                if k < next {
                    assert(t.has_stopped(i - 1, ids[k]));
                }
            }
        }
    }
}

/// The request succeeds only after every network with a TUN device that was
/// enabled when it began has been stopped, whatever other requests do meanwhile.
pub proof fn every_tun_network_is_stopped(t: DisableTunTrace, web_only: bool, k: int, id: u128)
    requires
        t.stops(web_only),
        0 <= k < t.effects.len(),
        t.replies[0] is Done,
        t.effects[k] == succeed(),
        t.worlds[0].storage.is_tun(web_only, id),
    ensures
        t.has_stopped(k + 1, id),
{
    assert(t.steps(0));
    let ids = choose|ids: Seq<u128>| #[trigger]
        t.worlds[0].storage.lists_tun(web_only, ids) && (t.flows[1], t.effects[0])
            == DisableTunView::stop(ids, 0);
    tun_listings_are_complete(t.worlds[0].storage, web_only, ids);
    assert(ids.contains(id));
    let at = choose|at: int| 0 <= at < ids.len() && ids[at] == id;
    assert(t.on_the_way(1, ids));
    lemma_on_the_way(t, web_only, ids, k + 1);
    assert(t.steps(k));
    assert(t.has_stopped(k + 1, ids[at]));
}

impl DisableTunTrace {
    /// Whether a network that is stopped is recorded as disabled, and nothing else
    /// is stored meanwhile.
    pub open spec fn undisturbed(self) -> bool {
        forall|j: int, id: u128|
            0 <= j && j + 1 < self.effects.len() && #[trigger] self.asks_to_stop(j, id) && (
            self.replies[j + 1] matches Reply::Outcome(Ok(()))) ==> self.worlds[j + 1].storage
                == self.worlds[j].storage.switched(id, true)
    }
}

/// What is stored when the network `ids[next]` is asked to be stopped: those
/// before it are disabled.
proof fn lemma_disabled_so_far(t: DisableTunTrace, web_only: bool, ids: Seq<u128>, i: int)
    requires
        t.stops(web_only),
        t.undisturbed(),
        1 <= i <= t.effects.len(),
        t.on_the_way(1, ids),
        t.flows[1] matches DisableTunView::Stopping { next, .. } ==> next == 0,
        t.flows[i] is Stopping,
    ensures
        t.worlds[i - 1].storage == t.worlds[0].storage.disabled(
            ids.take(t.flows[i]->next).to_set(),
        ),
    decreases i,
{
    lemma_on_the_way(t, web_only, ids, i);
    let next = t.flows[i]->next;
    let start = t.worlds[0].storage;
    if i == 1 {
        assert(start.disabled(ids.take(0).to_set()) =~= start);
    } else {
        assert(t.steps(i - 1));
        lemma_on_the_way(t, web_only, ids, i - 1);
        lemma_disabled_so_far(t, web_only, ids, i - 1);
        assert(t.asks_to_stop(i - 2, ids[next - 1]));
        lemma_take_set(ids, next - 1);
        assert(start.disabled(ids.take(next - 1).to_set()).switched(ids[next - 1], true)
            =~= start.disabled(ids.take(next).to_set()));
    }
}

/// Where nothing else is stored meanwhile, and every network is stored under the
/// id that it spells, no enabled network with a TUN device is left when the
/// request succeeds.
pub proof fn no_tun_network_is_left(t: DisableTunTrace, web_only: bool, k: int)
    requires
        t.stops(web_only),
        t.undisturbed(),
        0 <= k < t.effects.len(),
        t.replies[0] is Done,
        t.worlds[0].storage.spells_its_ids(),
        t.effects[k] == succeed(),
    ensures
        !t.worlds[k].storage.has_tun(web_only),
{
    let start = t.worlds[0].storage;
    assert(t.steps(0));
    let ids = choose|ids: Seq<u128>| #[trigger]
        start.lists_tun(web_only, ids) && (t.flows[1], t.effects[0]) == DisableTunView::stop(
            ids,
            0,
        );
    assert(t.on_the_way(1, ids));
    disabling_the_listed_leaves_none(start, web_only, ids);
    if k == 0 {
        tun_listings_are_complete(start, web_only, ids);
    } else {
        assert(t.steps(k));
        lemma_on_the_way(t, web_only, ids, k);
        let next = t.flows[k]->next;
        lemma_disabled_so_far(t, web_only, ids, k);
        assert(t.asks_to_stop(k - 1, ids[next]));
        lemma_take_set(ids, next);
        assert(start.disabled(ids.take(next).to_set()).switched(ids[next], true)
            =~= start.disabled(ids.take(next + 1).to_set()));
        assert(ids.take(ids.len() as int) =~= ids);
    }
}

/// How the request begins: it succeeds at once where no enabled network with a TUN
/// device is meant, and otherwise has one that is stopped. It ends with the words of
/// what fails.
pub proof fn stopping_begins_with_a_network_that_is_meant(
    web_only: bool,
    world: WorldView,
    after: DisableTunView,
    effect: EffectView,
    words: String,
)
    requires
        (DisableTunView::Start { web_only }).begins(world, after, effect),
    ensures
        !(exists|id: u128| world.storage.is_tun(web_only, id)) ==> effect == succeed(),
        (exists|id: u128| world.storage.is_tun(web_only, id)) ==> {
            &&& (effect matches EffectView::Perform(Effect::SetNetworkState { id, disabled })
                && disabled && world.storage.is_tun(web_only, id))
            &&& after.next(Reply::Outcome(Err(words))).1 == EffectView::Finish(Err(words@))
        },
{
    let ids = choose|ids: Seq<u128>| #[trigger]
        world.storage.lists_tun(web_only, ids) && (after, effect) == DisableTunView::stop(ids, 0);
    tun_listings_are_complete(world.storage, web_only, ids);
    if ids.len() > 0 {
        assert(ids.contains(ids[0]));
    }
    assert forall|id: u128| #[trigger] world.storage.is_tun(web_only, id) implies ids.len()
        > 0 by {
        assert(ids.contains(id));
    }
}

/// Nothing is asked for but that networks are stopped that were enabled with a TUN
/// device when the request began, and were meant by it. This holds whatever other
/// requests do meanwhile.
pub proof fn only_networks_that_are_meant_are_stopped(t: DisableTunTrace, web_only: bool, k: int)
    requires
        t.stops(web_only),
        0 <= k < t.effects.len(),
        t.replies[0] is Done,
    ensures
        match t.effects[k] {
            EffectView::Perform(Effect::SetNetworkState { id, disabled }) => disabled
                && t.worlds[0].storage.is_tun(web_only, id),
            EffectView::Finish(_) => true,
            _ => false,
        },
{
    assert(t.steps(0));
    let ids = choose|ids: Seq<u128>| #[trigger]
        t.worlds[0].storage.lists_tun(web_only, ids) && (t.flows[1], t.effects[0])
            == DisableTunView::stop(ids, 0);
    tun_listings_are_complete(t.worlds[0].storage, web_only, ids);
    assert(t.on_the_way(1, ids));
    lemma_on_the_way(t, web_only, ids, k + 1);
    assert(t.steps(k));
    if k > 0 {
        lemma_on_the_way(t, web_only, ids, k);
    }
    if t.flows[k + 1] is Stopping {
        assert(ids.contains(ids[t.flows[k + 1]->next]));
    }
}

/// Once a network has been stopped, the request goes on: to the next one of its list,
/// or, after the last, to success.
pub proof fn the_list_is_gone_through(ids: Seq<u128>, next: int)
    requires
        0 <= next < ids.len(),
    ensures
        ({
            let s = (DisableTunView::Stopping { ids, next }).next(Reply::Outcome(Ok(())));
            &&& next + 1 == ids.len() ==> s.1 == succeed()
            &&& next + 1 < ids.len() ==> {
                &&& s.0 == (DisableTunView::Stopping { ids, next: next + 1 })
                &&& s.1 == EffectView::Perform(
                    Effect::SetNetworkState { id: ids[next + 1], disabled: true },
                )
            }
        }),
{
}

} // verus!
