//! Opening a connection to the configuration server.

use crate::connection_intent::wants_connection;
use crate::effect::{out_of_turn, refuse, succeed, Effect, EffectView, Reply};
use crate::error::GuiError;
use crate::world::{
    epoch_after, epochs_return_after_a_full_turn, next_epoch, GuiHooks, World, WorldView,
};
use vstd::prelude::*;

verus! {

/// The request to connect to the configuration server at `url`, or to none.
#[derive(Debug)]
pub enum InitWebClient {
    Start { url: Option<String> },
    /// The connection before this one is being closed.
    Closing { url: Option<String>, epoch: u64 },
    Finding { server: String, epoch: u64 },
    Resolving { server: String, hooks: GuiHooks },
    Starting { epoch: u64 },
    Keeping,
    Over,
}

/// Whether a connection that was opened as number `epoch` is still wanted: no
/// other has been opened or closed since and, on Android, the user has not
/// decided to stop.
pub open spec fn still_wanted(world: WorldView, epoch: u64) -> bool {
    epoch == world.epoch && (world.platform is Android ==> wants_connection(world.intent))
}

impl InitWebClient {
    /// The next step. The old connection is closed in any case. The new one is
    /// kept only where it is still wanted once it has been opened.
    pub open spec fn next(self, world: WorldView, reply: Reply) -> (
        InitWebClient,
        WorldView,
        EffectView,
    ) {
        match (self, reply) {
            (InitWebClient::Start { url }, Reply::Done) => {
                let epoch = next_epoch(world.epoch);
                (
                    InitWebClient::Closing { url, epoch },
                    WorldView { epoch, ..world },
                    EffectView::Perform(Effect::CloseWebClient),
                )
            },
            (InitWebClient::Closing { url, epoch }, Reply::Done) => match url {
                Some(server) => if world.platform is Android && !wants_connection(world.intent) {
                    (InitWebClient::Over, world, succeed())
                } else {
                    (
                        InitWebClient::Finding { server, epoch },
                        world,
                        EffectView::Perform(Effect::TryFindInstances),
                    )
                },
                None => (InitWebClient::Over, world, succeed()),
            },
            (InitWebClient::Finding { server, epoch }, Reply::TryFound(found)) => match found {
                None => (InitWebClient::Over, world, refuse(GuiError::InstancesBusy)),
                Some(false) => (InitWebClient::Over, world, refuse(GuiError::InstancesMissing)),
                Some(true) => (
                    InitWebClient::Resolving {
                        server,
                        hooks: GuiHooks { epoch, intent: world.intent },
                    },
                    world,
                    EffectView::Perform(Effect::ResolveStateDirectory),
                ),
            },
            (InitWebClient::Resolving { server, hooks }, Reply::Outcome(Ok(()))) => (
                InitWebClient::Starting { epoch: hooks.epoch },
                world,
                EffectView::Perform(Effect::StartWebClient { url: server, hooks }),
            ),
            (InitWebClient::Resolving { .. }, Reply::Outcome(Err(words))) => (
                InitWebClient::Over,
                world,
                refuse(GuiError::StateDirectory(words)),
            ),
            (InitWebClient::Starting { epoch }, Reply::Outcome(Ok(()))) => if still_wanted(
                world,
                epoch,
            ) {
                (InitWebClient::Keeping, world, EffectView::Perform(Effect::KeepWebClient))
            } else {
                (InitWebClient::Over, world, succeed())
            },
            (InitWebClient::Starting { .. }, Reply::Outcome(Err(words))) => (
                InitWebClient::Over,
                world,
                refuse(GuiError::WebClientFailed(words)),
            ),
            (InitWebClient::Keeping, Reply::Done) => (InitWebClient::Over, world, succeed()),
            _ => (InitWebClient::Over, world, out_of_turn()),
        }
    }

    pub fn new(url: Option<String>) -> (r: InitWebClient)
        ensures
            r == (InitWebClient::Start { url }),
    {
        InitWebClient::Start { url }
    }

    /// Takes the next step.
    pub fn step(self, world: &mut World, reply: Reply) -> (r: (InitWebClient, Effect))
        ensures
            (r.0, final(world)@, r.1@) == self.next(old(world)@, reply),
    {
        match (self, reply) {
            (InitWebClient::Start { url }, Reply::Done) => {
                let epoch = world.epoch.advance();
                (InitWebClient::Closing { url, epoch }, Effect::CloseWebClient)
            },
            (InitWebClient::Closing { url, epoch }, Reply::Done) => match url {
                Some(server) => if world.platform.is_android() && !world.intent.enabled() {
                    (InitWebClient::Over, Effect::Finish(Ok(())))
                } else {
                    (InitWebClient::Finding { server, epoch }, Effect::TryFindInstances)
                },
                None => (InitWebClient::Over, Effect::Finish(Ok(()))),
            },
            (InitWebClient::Finding { server, epoch }, Reply::TryFound(found)) => match found {
                None => (InitWebClient::Over, Effect::Finish(Err(GuiError::InstancesBusy))),
                Some(false) => (
                    InitWebClient::Over,
                    Effect::Finish(Err(GuiError::InstancesMissing)),
                ),
                Some(true) => {
                    let hooks = GuiHooks { epoch, intent: world.intent.token() };
                    (InitWebClient::Resolving { server, hooks }, Effect::ResolveStateDirectory)
                },
            },
            (InitWebClient::Resolving { server, hooks }, Reply::Outcome(Ok(()))) => (
                InitWebClient::Starting { epoch: hooks.epoch },
                Effect::StartWebClient { url: server, hooks },
            ),
            (InitWebClient::Resolving { .. }, Reply::Outcome(Err(words))) => (
                InitWebClient::Over,
                Effect::Finish(Err(GuiError::StateDirectory(words))),
            ),
            (InitWebClient::Starting { epoch }, Reply::Outcome(Ok(()))) => {
                if epoch == world.epoch.current() && (!world.platform.is_android()
                    || world.intent.enabled()) {
                    (InitWebClient::Keeping, Effect::KeepWebClient)
                } else {
                    (InitWebClient::Over, Effect::Finish(Ok(())))
                }
            },
            (InitWebClient::Starting { .. }, Reply::Outcome(Err(words))) => (
                InitWebClient::Over,
                Effect::Finish(Err(GuiError::WebClientFailed(words))),
            ),
            (InitWebClient::Keeping, Reply::Done) => (
                InitWebClient::Over,
                Effect::Finish(Ok(())),
            ),
            _ => (InitWebClient::Over, Effect::Finish(Err(GuiError::UnexpectedReply))),
        }
    }
}

/// A run of a request to connect, step by step: the flow before step `i`, the
/// state that the step finds, the reply that it gets and the effect that it asks
/// for. Between two steps other requests may change the state in any way.
pub struct InitWebClientTrace {
    pub flows: Seq<InitWebClient>,
    pub worlds: Seq<WorldView>,
    pub replies: Seq<Reply>,
    pub effects: Seq<EffectView>,
}

impl InitWebClientTrace {
    /// Whether step `i` is one that the request can take.
    pub open spec fn steps(self, i: int) -> bool {
        let (after, _, effect) = self.flows[i].next(self.worlds[i], self.replies[i]);
        self.flows[i + 1] == after && self.effects[i] == effect
    }

    /// Whether these are the first steps of a request to connect.
    pub open spec fn connects(self) -> bool {
        &&& self.worlds.len() == self.effects.len()
        &&& self.replies.len() == self.effects.len()
        &&& self.flows.len() == self.effects.len() + 1
        &&& self.flows[0] is Start
        &&& forall|i: int| 0 <= i < self.effects.len() ==> #[trigger] self.steps(i)
    }

    /// The number that the connection gets.
    pub open spec fn number(self) -> u64 {
        next_epoch(self.worlds[0].epoch)
    }

    /// What is known before step `i`.
    spec fn on_the_way(self, i: int) -> bool {
        match self.flows[i] {
            InitWebClient::Start { .. } => i == 0,
            InitWebClient::Closing { epoch, .. }
            | InitWebClient::Finding { epoch, .. }
            | InitWebClient::Starting { epoch } => i > 0 && epoch == self.number()
                && self.effects[0] == EffectView::Perform(Effect::CloseWebClient),
            InitWebClient::Resolving { hooks, .. } => i > 0 && hooks.epoch == self.number()
                && self.effects[0] == EffectView::Perform(Effect::CloseWebClient),
            InitWebClient::Keeping | InitWebClient::Over => i > 0,
        }
    }
}

/// The request stays on the way.
proof fn lemma_on_the_way(t: InitWebClientTrace, i: int)
    requires
        t.connects(),
        0 <= i <= t.effects.len(),
        t.effects.len() > 0,
    ensures
        t.on_the_way(i),
    decreases i,
{
    if i > 0 {
        lemma_on_the_way(t, i - 1);
        assert(t.steps(i - 1));
    }
}

/// The connection before is closed before a new one is opened, and the callbacks
/// of the new one remember its own number.
pub proof fn the_old_connection_is_closed_first(
    t: InitWebClientTrace,
    k: int,
    url: String,
    hooks: GuiHooks,
)
    requires
        t.connects(),
        0 <= k < t.effects.len(),
        t.effects[k] == EffectView::Perform(Effect::StartWebClient { url, hooks }),
    ensures
        k > 0 && t.effects[0] == EffectView::Perform(Effect::CloseWebClient),
        hooks.epoch == t.number(),
{
    lemma_on_the_way(t, k);
    assert(t.steps(k));
}

/// A connection is kept only if no other has been opened or closed since it was
/// asked for and, on Android, the user has not decided to stop.
pub proof fn only_a_wanted_connection_is_kept(t: InitWebClientTrace, k: int)
    requires
        t.connects(),
        0 <= k < t.effects.len(),
        t.effects[k] == EffectView::Perform(Effect::KeepWebClient),
    ensures
        still_wanted(t.worlds[k], t.number()),
{
    lemma_on_the_way(t, k);
    assert(t.steps(k));
}

/// A connection is not kept once another has been opened or closed since. (The
/// number of times is below that after which the counter starts over.)
pub proof fn a_replaced_connection_is_not_kept(t: InitWebClientTrace, k: int, n: nat)
    requires
        t.connects(),
        0 <= k < t.effects.len(),
        t.worlds[k].epoch == epoch_after(t.number(), n),
        0 < n < 0x1_0000_0000_0000_0000,
    ensures
        t.effects[k] != EffectView::Perform(Effect::KeepWebClient),
{
    epochs_return_after_a_full_turn(t.number(), n);
    if t.effects[k] == EffectView::Perform(Effect::KeepWebClient) {
        only_a_wanted_connection_is_kept(t, k);
    }
}

/// What the request does with each answer. It always closes the old connection, and
/// moves the count of connections on. Without a URL that is all. With one it goes
/// on to open a connection to it in every state but one: on Android it is skipped
/// where the user has stopped the mobile connection. The new connection gets
/// callbacks that remember its number and the decision of the moment, and is kept
/// exactly where no other has been opened or closed since and, on Android, the user
/// wants to be connected. What fails on the way is told with what was being done.
pub proof fn a_connection_goes_through(
    url: Option<String>,
    words: String,
    w: Seq<WorldView>,
)
    requires
        w.len() == 6,
    ensures
        ({
            let s0 = (InitWebClient::Start { url }).next(w[0], Reply::Done);
            let s1 = s0.0.next(w[1], Reply::Done);
            let s2 = s1.0.next(w[2], Reply::TryFound(Some(true)));
            let s3 = s2.0.next(w[3], Reply::Outcome(Ok(())));
            let s4 = s3.0.next(w[4], Reply::Outcome(Ok(())));
            let s5 = s4.0.next(w[5], Reply::Done);
            let failed = Reply::Outcome(Err(words));
            let number = s0.1.epoch;
            &&& s0.2 == EffectView::Perform(Effect::CloseWebClient)
            &&& number != w[0].epoch && s0.1 == (WorldView { epoch: number, ..w[0] })
            &&& s1.1 == w[1] && s2.1 == w[2] && s3.1 == w[3] && s4.1 == w[4] && s5.1 == w[5]
            &&& url is None ==> s1.2 == succeed()
            &&& url matches Some(server) ==> {
                let skipped = w[1].platform is Android && !wants_connection(w[1].intent);
                let kept = w[4].epoch == number && (w[4].platform is Android ==> wants_connection(
                    w[4].intent,
                ));
                &&& s1.2 == succeed() <==> skipped
                &&& s1.2 == EffectView::Perform(Effect::TryFindInstances) <==> !skipped
                &&& !skipped ==> {
                    &&& s1.0.next(w[2], Reply::TryFound(None)).2 == refuse(GuiError::InstancesBusy)
                    &&& s1.0.next(w[2], Reply::TryFound(Some(false))).2 == refuse(
                        GuiError::InstancesMissing,
                    )
                    &&& s2.2 == EffectView::Perform(Effect::ResolveStateDirectory)
                    &&& s2.0.next(w[3], failed).2 == refuse(GuiError::StateDirectory(words))
                    &&& s3.2 == EffectView::Perform(
                        Effect::StartWebClient {
                            url: server,
                            hooks: GuiHooks { epoch: number, intent: w[2].intent },
                        },
                    )
                    &&& s3.0.next(w[4], failed).2 == refuse(GuiError::WebClientFailed(words))
                    &&& s4.2 == EffectView::Perform(Effect::KeepWebClient) <==> kept
                    &&& s4.2 == succeed() <==> !kept
                    &&& kept ==> s5.2 == succeed()
                }
            }
        }),
{
}

impl InitWebClientTrace {
    /// Whether step `j` asks for a connection to `url` to be opened.
    pub open spec fn opens(self, j: int, url: String) -> bool {
        self.effects[j] matches EffectView::Perform(Effect::StartWebClient { url: asked, .. })
            && asked == url
    }

    /// Whether a step before step `i` asks for a connection to `url` to be opened.
    pub open spec fn has_opened(self, i: int, url: String) -> bool {
        exists|j: int| 0 <= j < i && #[trigger] self.opens(j, url)
    }

    /// What is known before step `i` of a request for `url`.
    spec fn reaches(self, i: int, url: String) -> bool {
        match self.flows[i] {
            InitWebClient::Start { url: asked } | InitWebClient::Closing { url: asked, .. } => asked
                == Some(url),
            InitWebClient::Finding { server, .. } | InitWebClient::Resolving { server, .. } => {
                server == url
            },
            InitWebClient::Starting { .. } | InitWebClient::Keeping => self.has_opened(i, url),
            InitWebClient::Over => true,
        }
    }
}

/// The request keeps to its URL.
proof fn lemma_reaches(t: InitWebClientTrace, url: String, i: int)
    requires
        t.connects(),
        t.flows[0] == (InitWebClient::Start { url: Some(url) }),
        0 <= i <= t.effects.len(),
    ensures
        t.reaches(i, url),
    decreases i,
{
    if i > 0 {
        lemma_reaches(t, url, i - 1);
        assert(t.steps(i - 1));
        if t.has_opened(i - 1, url) {
            let j = choose|j: int| 0 <= j < i - 1 && #[trigger] t.opens(j, url);
            assert(t.opens(j, url));
        }
        if t.flows[i] is Starting {
            assert(t.opens(i - 1, url));
        }
    }
}

/// A request to connect to a URL succeeds only after it has asked for a connection
/// to that very URL, but for one case: on Android, where the user has stopped the
/// mobile connection.
pub proof fn success_means_a_connection(t: InitWebClientTrace, url: String, k: int)
    requires
        t.connects(),
        t.flows[0] == (InitWebClient::Start { url: Some(url) }),
        0 <= k < t.effects.len(),
        t.effects[k] == succeed(),
    ensures
        t.has_opened(k, url) || (t.worlds[k].platform is Android && !wants_connection(
            t.worlds[k].intent,
        )),
{
    lemma_reaches(t, url, k);
    assert(t.steps(k));
}

} // verus!
