//! Whole runs of loading what was saved.

use crate::config::{runtime, NetworkConfig, PersistedConfigSource, StoredGuiConfig, TomlConfig};
use crate::effect::{succeed, Effect, EffectView, Reply, RunOrigin};
use crate::flows::load_configs::{
    first_to_be_run, first_without_id, loaded, loading_stops_at_the_first_without_id,
    the_next_network_is_the_first_to_be_run, to_be_run, LoadConfigsView,
};
use crate::flows::post_run::PostRun;
use crate::flows::pre_run::{a_prepared_network_is_stored, PreRunTrace};
use crate::instance_id::parsed_uuid;
use crate::storage::StorageView;
use crate::world::WorldView;
use vstd::prelude::*;

verus! {

/// Whether `text` spells the id `id`.
pub open spec fn spells_id(text: String, id: u128) -> bool {
    parsed_uuid(text@) == Ok::<u128, Seq<char>>(id)
}

/// Whether one of the first `n` of `texts` names the network `id`, and it is among
/// `configs`.
pub open spec fn wanted(
    configs: Seq<StoredGuiConfig>,
    texts: Seq<String>,
    n: int,
    id: u128,
) -> bool {
    loaded(configs).dom().contains(id) && exists|j: int|
        0 <= j < n && #[trigger] spells_id(texts[j], id)
}

/// Whether a successful preparation of `toml` leads from the state `before` to the
/// storage `after`, with nothing else stored meanwhile.
pub open spec fn prepared(
    before: WorldView,
    toml: TomlConfig,
    source: PersistedConfigSource,
    after: StorageView,
) -> bool {
    exists|run: PreRunTrace, k: int| #[trigger] prepared_by(run, k, before, toml, source, after)
}

/// Whether `run` is such a preparation, and succeeds with step `k`.
pub open spec fn prepared_by(
    run: PreRunTrace,
    k: int,
    before: WorldView,
    toml: TomlConfig,
    source: PersistedConfigSource,
    after: StorageView,
) -> bool {
    &&& run.prepares(toml, source, RunOrigin::Local)
    &&& run.undisturbed()
    &&& 0 <= k < run.effects.len()
    &&& run.replies[0] is Done
    &&& run.worlds[0] == before
    &&& run.effects[k] == succeed()
    &&& run.worlds[k].storage == after
}

/// A run of loading, step by step: the flow before step `i`, the state that the
/// step finds, the reply that it gets and the effect that it asks for.
pub struct LoadTrace {
    pub flows: Seq<LoadConfigsView>,
    pub worlds: Seq<WorldView>,
    pub replies: Seq<Reply>,
    pub effects: Seq<EffectView>,
}

impl LoadTrace {
    /// The state that step `i` leaves.
    pub open spec fn leaves(self, i: int) -> WorldView {
        self.flows[i].next(self.worlds[i], self.replies[i]).1
    }

    /// Whether step `i` is one that loading can take.
    pub open spec fn steps(self, i: int) -> bool {
        let (after, _, effect) = self.flows[i].next(self.worlds[i], self.replies[i]);
        self.flows[i + 1] == after && self.effects[i] == effect
    }

    /// Whether step `i + 1` finds stored what step `i` left, and what the preparation
    /// and the completion of the run of a network between them add to it.
    pub open spec fn hands_on(self, i: int) -> bool {
        let done = self.replies[i + 1] matches Reply::Outcome(Ok(()));
        match self.effects[i] {
            EffectView::Perform(Effect::PreRun { toml, source, .. }) => done ==> prepared(
                self.leaves(i),
                toml,
                source,
                self.worlds[i + 1].storage,
            ),
            EffectView::Perform(Effect::PostRun(id)) => done ==> self.worlds[i + 1].storage == (
            PostRun::Start { id }).next(self.leaves(i), Reply::Done).1.storage,
            _ => self.worlds[i + 1].storage == self.leaves(i).storage,
        }
    }

    /// Whether the configuration that is generated for a network in step `i`, if one
    /// is, has the id of the network.
    pub open spec fn keeps_its_id(self, i: int) -> bool {
        self.flows[i] matches LoadConfigsView::Generating { id, .. } ==> (
        self.replies[i] matches Reply::Generated(Ok(toml)) ==> toml.id == id)
    }

    /// Whether these are the first steps of loading `configs` and running those that
    /// `texts` names, off Android, with nothing else stored meanwhile and with each
    /// configuration generated for the network's own id.
    pub open spec fn loads(self, configs: Seq<StoredGuiConfig>, texts: Seq<String>) -> bool {
        &&& self.worlds.len() == self.effects.len()
        &&& self.replies.len() == self.effects.len()
        &&& self.flows.len() == self.effects.len() + 1
        &&& self.flows[0] == (LoadConfigsView::Start { configs, enabled_networks: texts })
        &&& forall|i: int| 0 <= i < self.effects.len() ==> #[trigger] self.steps(i)
        &&& forall|i: int| 0 <= i < self.effects.len() ==> #[trigger] self.keeps_its_id(i)
        &&& forall|i: int| 0 <= i && i + 1 < self.effects.len() ==> #[trigger] self.hands_on(i)
        &&& forall|i: int|
            0 <= i < self.effects.len() ==> !((#[trigger] self.worlds[i]).platform is Android)
    }

    /// Whether step `j` asks for the network `id` to be run.
    pub open spec fn runs(self, j: int, id: u128) -> bool {
        self.flows[j + 1] matches LoadConfigsView::Running { id: running, .. } && running == id
    }

    /// Whether a step before step `i` asks for the network `id` to be run.
    pub open spec fn has_run(self, i: int, id: u128) -> bool {
        exists|j: int| 0 <= j < i && #[trigger] self.runs(j, id)
    }

    /// Whether step `j`, if it asks for a network to be run, asks for one that was
    /// loaded, as it was loaded.
    pub open spec fn runs_as_loaded(self, j: int, configs: Seq<StoredGuiConfig>, id: u128) -> bool {
        self.runs(j, id) ==> {
            let stored = loaded(configs)[id];
            &&& loaded(configs).dom().contains(id)
            &&& self.effects[j] == EffectView::Perform(
                Effect::RunStored {
                    config: stored.config,
                    reported: runtime(stored.source),
                    inst_id: None,
                    overwrite: false,
                },
            )
        }
    }

    /// What is known of the runs before step `i`, where those asked for are the ones
    /// that the first `n` texts name: each is asked for once, as it was loaded.
    spec fn ran(
        self,
        i: int,
        configs: Seq<StoredGuiConfig>,
        texts: Seq<String>,
        n: int,
    ) -> bool {
        &&& forall|id: u128| #[trigger] self.has_run(i, id) <==> wanted(configs, texts, n, id)
        &&& forall|j: int, l: int, id: u128|
            0 <= j < i && 0 <= l < i && #[trigger] self.runs(j, id) && #[trigger] self.runs(l, id)
                ==> j == l
        &&& forall|j: int, id: u128|
            0 <= j < i && #[trigger] self.runs(j, id) ==> self.runs_as_loaded(j, configs, id)
    }

    /// What step `i` finds stored: the networks that were loaded, with their sources;
    /// the first `n` texts name those that are enabled, and those whose configuration
    /// may differ from what was loaded are among the first `m`.
    spec fn holds(
        self,
        i: int,
        configs: Seq<StoredGuiConfig>,
        texts: Seq<String>,
        n: int,
        m: int,
    ) -> bool {
        let now = self.worlds[i].storage;
        &&& first_without_id(configs, 0) >= configs.len()
        &&& now.configs.dom() == loaded(configs).dom()
        &&& forall|id: u128| #[trigger] now.enabled.contains(id) <==> wanted(configs, texts, n, id)
        &&& forall|id: u128| #[trigger]
            now.configs.dom().contains(id) ==> now.configs[id].source
                == loaded(configs)[id].source && (!wanted(configs, texts, m, id)
                ==> now.configs[id].config == loaded(configs)[id].config)
    }

    /// Whether `texts[at]` names the network `id`, which is wanted and is not among
    /// those that the texts before it name; `config` and `source` are its own.
    spec fn takes(
        self,
        configs: Seq<StoredGuiConfig>,
        texts: Seq<String>,
        at: int,
        id: u128,
        config: NetworkConfig,
        source: PersistedConfigSource,
    ) -> bool {
        &&& 0 <= at < texts.len()
        &&& spells_id(texts[at], id)
        &&& loaded(configs).dom().contains(id)
        &&& !wanted(configs, texts, at, id)
        &&& config == loaded(configs)[id].config
        &&& source == loaded(configs)[id].source
    }

    /// What is known before step `i`.
    spec fn on_the_way(self, i: int, configs: Seq<StoredGuiConfig>, texts: Seq<String>) -> bool {
        let done = self.replies[i] matches Reply::Outcome(Ok(()));
        match self.flows[i] {
            LoadConfigsView::Start { .. } => i == 0,
            LoadConfigsView::Opening { configs: c, enabled_networks: e } => {
                &&& i > 0 && c == configs && e == texts
                &&& forall|id: u128| !#[trigger] self.has_run(i, id)
            },
            LoadConfigsView::Connecting { enabled_networks: e } => {
                &&& i > 0 && e == texts
                &&& self.ran(i, configs, texts, 0)
                &&& self.holds(i, configs, texts, 0, 0)
            },
            LoadConfigsView::Generating { enabled_networks: e, next, id, config, source } => {
                &&& i > 0 && e == texts
                &&& self.takes(configs, texts, next - 1, id, config, source)
                &&& self.ran(i, configs, texts, next - 1)
                &&& self.holds(i, configs, texts, next - 1, next - 1)
            },
            LoadConfigsView::Preparing { enabled_networks: e, next, id, config, source } => {
                &&& i > 0 && e == texts
                &&& self.takes(configs, texts, next - 1, id, config, source)
                &&& self.ran(i, configs, texts, next - 1)
                &&& done ==> self.holds(i, configs, texts, next - 1, next)
            },
            LoadConfigsView::Running { enabled_networks: e, next, id } => {
                &&& i > 0 && e == texts
                &&& 0 < next <= texts.len() && spells_id(texts[next - 1], id)
                &&& loaded(configs).dom().contains(id)
                &&& self.ran(i, configs, texts, next)
                &&& self.holds(i, configs, texts, next - 1, next)
            },
            LoadConfigsView::Completing { enabled_networks: e, next } => {
                &&& i > 0 && e == texts
                &&& 0 < next <= texts.len()
                &&& self.ran(i, configs, texts, next)
                &&& done ==> self.holds(i, configs, texts, next, next)
            },
            LoadConfigsView::Over => i > 0,
        }
    }
}

/// The networks that one text more names.
proof fn lemma_one_text_more(
    configs: Seq<StoredGuiConfig>,
    texts: Seq<String>,
    n: int,
    id: u128,
    other: u128,
)
    requires
        0 <= n < texts.len(),
        spells_id(texts[n], id),
        loaded(configs).dom().contains(id),
    ensures
        wanted(configs, texts, n + 1, other) <==> wanted(configs, texts, n, other) || other == id,
{
    if wanted(configs, texts, n + 1, other) && other != id {
        let j = choose|j: int| 0 <= j < n + 1 && #[trigger] spells_id(texts[j], other);
        assert(spells_id(texts[j], other));
    }
    if wanted(configs, texts, n, other) {
        let j = choose|j: int| 0 <= j < n && #[trigger] spells_id(texts[j], other);
        assert(spells_id(texts[j], other));
    }
}

/// The texts that are passed over name no network that is not enabled already.
proof fn lemma_passed_over(
    t: LoadTrace,
    i: int,
    configs: Seq<StoredGuiConfig>,
    texts: Seq<String>,
    n: int,
    at: int,
    other: u128,
)
    requires
        0 <= n <= at <= texts.len(),
        t.holds(i, configs, texts, n, n),
        forall|j: int|
            n <= j < at ==> !to_be_run(t.worlds[i].storage, (#[trigger] texts[j])@),
    ensures
        wanted(configs, texts, at, other) <==> wanted(configs, texts, n, other),
{
    if wanted(configs, texts, at, other) {
        let j = choose|j: int| 0 <= j < at && #[trigger] spells_id(texts[j], other);
        if j >= n {
            assert(!to_be_run(t.worlds[i].storage, texts[j]@));
            assert(t.worlds[i].storage.configs.dom().contains(other));
            assert(t.worlds[i].storage.enabled.contains(other));
        }
    }
    if wanted(configs, texts, n, other) {
        let j = choose|j: int| 0 <= j < n && #[trigger] spells_id(texts[j], other);
        assert(spells_id(texts[j], other));
    }
}

/// A step that runs nothing leaves what has been run.
proof fn lemma_no_run(
    t: LoadTrace,
    i: int,
    configs: Seq<StoredGuiConfig>,
    texts: Seq<String>,
    n: int,
)
    requires
        0 <= i,
        t.ran(i, configs, texts, n),
        !(t.flows[i + 1] is Running),
    ensures
        t.ran(i + 1, configs, texts, n),
{
    assert forall|id: u128| #[trigger] t.has_run(i + 1, id) <==> t.has_run(i, id) by {
        if t.has_run(i + 1, id) {
            let j = choose|j: int| 0 <= j < i + 1 && #[trigger] t.runs(j, id);
            assert(t.runs(j, id));
        }
        if t.has_run(i, id) {
            let j = choose|j: int| 0 <= j < i && #[trigger] t.runs(j, id);
            assert(t.runs(j, id));
        }
    }
    assert forall|id: u128| #[trigger] t.has_run(i + 1, id) <==> wanted(
        configs,
        texts,
        n,
        id,
    ) by {
        assert(t.has_run(i, id) <==> wanted(configs, texts, n, id));
    }
}

/// What has been run is the same where the same networks are named.
proof fn lemma_same_run(
    t: LoadTrace,
    i: int,
    configs: Seq<StoredGuiConfig>,
    texts: Seq<String>,
    n: int,
    m: int,
)
    requires
        t.ran(i, configs, texts, n),
        forall|id: u128| #[trigger]
            wanted(configs, texts, m, id) <==> wanted(configs, texts, n, id),
    ensures
        t.ran(i, configs, texts, m),
{
    assert forall|id: u128| #[trigger] t.has_run(i, id) <==> wanted(configs, texts, m, id) by {
        assert(wanted(configs, texts, m, id) <==> wanted(configs, texts, n, id));
    }
}

/// Goes on from `texts[n]` to the next network that is to be run.
proof fn lemma_advance(
    t: LoadTrace,
    i: int,
    configs: Seq<StoredGuiConfig>,
    texts: Seq<String>,
    n: int,
)
    requires
        0 < i,
        i + 1 < t.effects.len(),
        0 <= n <= texts.len(),
        t.ran(i, configs, texts, n),
        t.holds(i, configs, texts, n, n),
        (t.flows[i + 1], t.effects[i]) == LoadConfigsView::advance(
            t.worlds[i].storage,
            texts,
            n,
        ),
        t.worlds[i + 1].storage == t.worlds[i].storage,
    ensures
        t.on_the_way(i + 1, configs, texts),
{
    let storage = t.worlds[i].storage;
    the_next_network_is_the_first_to_be_run(storage, texts, n);
    let at = first_to_be_run(storage, texts, n);
    assert forall|id: u128| #[trigger] wanted(configs, texts, at, id) <==> wanted(
        configs,
        texts,
        n,
        id,
    ) by {
        lemma_passed_over(t, i, configs, texts, n, at, id);
    }
    if at < texts.len() {
        let id = parsed_uuid(texts[at]@)->Ok_0;
        assert(spells_id(texts[at], id));
        assert(storage.configs.dom().contains(id));
        assert(!storage.enabled.contains(id));
        lemma_no_run(t, i, configs, texts, n);
        lemma_same_run(t, i + 1, configs, texts, n, at);
        assert(t.holds(i + 1, configs, texts, at, at)) by {
            assert forall|other: u128| #[trigger] t.worlds[i + 1].storage.enabled.contains(
                other,
            ) <==> wanted(configs, texts, at, other) by {
                assert(storage.enabled.contains(other) <==> wanted(configs, texts, n, other));
                assert(wanted(configs, texts, at, other) <==> wanted(configs, texts, n, other));
            }
        }
        assert(!wanted(configs, texts, at, id)) by {
            assert(storage.enabled.contains(id) <==> wanted(configs, texts, n, id));
        }
    }
}

/// What is stored once a network has been prepared.
proof fn lemma_prepared(
    t: LoadTrace,
    i: int,
    configs: Seq<StoredGuiConfig>,
    texts: Seq<String>,
    next: int,
    id: u128,
    toml: TomlConfig,
    source: PersistedConfigSource,
)
    requires
        0 < i,
        i + 1 < t.effects.len(),
        0 < next <= texts.len(),
        spells_id(texts[next - 1], id),
        loaded(configs).dom().contains(id),
        source == loaded(configs)[id].source,
        toml.id == id,
        t.holds(i, configs, texts, next - 1, next - 1),
        t.leaves(i) == t.worlds[i],
        !(t.worlds[i].platform is Android),
        prepared(t.worlds[i], toml, source, t.worlds[i + 1].storage),
    ensures
        t.holds(i + 1, configs, texts, next - 1, next),
{
    let before = t.worlds[i].storage;
    let after = t.worlds[i + 1].storage;
    let (run, k) = choose|run: PreRunTrace, k: int| #[trigger]
        prepared_by(run, k, t.worlds[i], toml, source, after);
    a_prepared_network_is_stored(run, toml, source, RunOrigin::Local, k);
    let read = choose|read: NetworkConfig| #[trigger]
        run.has_read(k, read) && run.worlds[k].storage == run.worlds[0].storage.saved(
            toml.id,
            read,
            source,
        );
    assert(after == before.saved(id, read, source));
    assert(before.configs.dom().contains(id));
    assert(after.configs.dom() =~= before.configs.dom());
    assert forall|other: u128| #[trigger]
        after.configs.dom().contains(other) implies after.configs[other].source
        == loaded(configs)[other].source && (!wanted(configs, texts, next, other)
        ==> after.configs[other].config == loaded(configs)[other].config) by {
        assert(before.configs.dom().contains(other));
        lemma_one_text_more(configs, texts, next - 1, id, other);
    }
    assert forall|other: u128| #[trigger] after.enabled.contains(other) <==> wanted(
        configs,
        texts,
        next - 1,
        other,
    ) by {
        assert(before.enabled.contains(other) <==> wanted(configs, texts, next - 1, other));
    }
}

/// What has been run once a network has been asked to run.
proof fn lemma_one_run_more(
    t: LoadTrace,
    i: int,
    configs: Seq<StoredGuiConfig>,
    texts: Seq<String>,
    next: int,
    id: u128,
)
    requires
        0 < i,
        0 < next <= texts.len(),
        spells_id(texts[next - 1], id),
        loaded(configs).dom().contains(id),
        !wanted(configs, texts, next - 1, id),
        t.ran(i, configs, texts, next - 1),
        t.runs(i, id),
        t.runs_as_loaded(i, configs, id),
    ensures
        t.ran(i + 1, configs, texts, next),
{
    assert(!t.has_run(i, id)) by {
        assert(t.has_run(i, id) <==> wanted(configs, texts, next - 1, id));
    }
    assert forall|other: u128| #[trigger] t.has_run(i + 1, other) <==> wanted(
        configs,
        texts,
        next,
        other,
    ) by {
        lemma_one_text_more(configs, texts, next - 1, id, other);
        assert(t.has_run(i, other) <==> wanted(configs, texts, next - 1, other));
        if t.has_run(i + 1, other) {
            let j = choose|j: int| 0 <= j < i + 1 && #[trigger] t.runs(j, other);
            if j < i {
                assert(t.has_run(i, other));
            }
        }
        if t.has_run(i, other) {
            let j = choose|j: int| 0 <= j < i && #[trigger] t.runs(j, other);
            assert(t.runs(j, other));
        }
        if other == id {
            assert(t.runs(i, other));
        }
    }
    assert forall|j: int, l: int, other: u128|
        0 <= j < i + 1 && 0 <= l < i + 1 && #[trigger] t.runs(j, other) && #[trigger] t.runs(
            l,
            other,
        ) implies j == l by {
        if j == i && l < i {
            assert(t.has_run(i, other));
        }
        if l == i && j < i {
            assert(t.has_run(i, other));
        }
    }
}

/// Loading stays on the way.
proof fn lemma_on_the_way(
    t: LoadTrace,
    configs: Seq<StoredGuiConfig>,
    texts: Seq<String>,
    i: int,
)
    requires
        t.loads(configs, texts),
        0 <= i < t.effects.len(),
    ensures
        t.on_the_way(i, configs, texts),
    decreases i,
{
    if i > 0 {
        let before = i - 1;
        lemma_on_the_way(t, configs, texts, before);
        assert(t.steps(before));
        assert(t.hands_on(before));
        assert(t.keeps_its_id(before));
        assert(!(t.worlds[before].platform is Android));
        lemma_next_step(t, configs, texts, before);
    }
}

/// One step further on the way.
proof fn lemma_next_step(
    t: LoadTrace,
    configs: Seq<StoredGuiConfig>,
    texts: Seq<String>,
    i: int,
)
    requires
        t.loads(configs, texts),
        0 <= i,
        i + 1 < t.effects.len(),
        t.steps(i),
        t.hands_on(i),
        t.keeps_its_id(i),
        !(t.worlds[i].platform is Android),
        t.on_the_way(i, configs, texts),
    ensures
        t.on_the_way(i + 1, configs, texts),
{
    match (t.flows[i], t.replies[i]) {
        (LoadConfigsView::Start { .. }, Reply::Done) => {
            assert forall|id: u128| !#[trigger] t.has_run(1, id) by {
                assert(!t.runs(0, id));
            }
        },
        (LoadConfigsView::Opening { .. }, Reply::Answer(_)) => {
            if t.flows[i + 1] is Connecting {
                lemma_opened(t, configs, texts, i);
            }
        },
        (LoadConfigsView::Connecting { .. }, Reply::Answer(found)) => {
            if found {
                lemma_advance(t, i, configs, texts, 0);
            }
        },
        (
            LoadConfigsView::Generating { next, id, source, .. },
            Reply::Generated(Ok(toml)),
        ) => {
            lemma_no_run(t, i, configs, texts, next - 1);
            if t.replies[i + 1] matches Reply::Outcome(Ok(())) {
                lemma_prepared(t, i, configs, texts, next, id, toml, source);
            }
        },
        (LoadConfigsView::Preparing { next, id, .. }, Reply::Outcome(Ok(()))) => {
            assert(t.runs(i, id));
            lemma_one_run_more(t, i, configs, texts, next, id);
            assert(t.worlds[i + 1].storage == t.worlds[i].storage);
        },
        (LoadConfigsView::Running { next, id, .. }, Reply::Outcome(Ok(()))) => {
            lemma_no_run(t, i, configs, texts, next);
            if t.replies[i + 1] matches Reply::Outcome(Ok(())) {
                lemma_completed(t, configs, texts, i, next, id);
            }
        },
        (LoadConfigsView::Completing { next, .. }, Reply::Outcome(Ok(()))) => {
            lemma_advance(t, i, configs, texts, next);
        },
        _ => {},
    }
}

/// What is stored once the configurations have been loaded.
proof fn lemma_opened(t: LoadTrace, configs: Seq<StoredGuiConfig>, texts: Seq<String>, i: int)
    requires
        0 < i,
        i + 1 < t.effects.len(),
        t.steps(i),
        t.hands_on(i),
        t.flows[i] is Opening,
        t.flows[i + 1] is Connecting,
        t.on_the_way(i, configs, texts),
    ensures
        t.on_the_way(i + 1, configs, texts),
{
    assert forall|id: u128| !#[trigger] t.has_run(i + 1, id) by {
        assert(!t.has_run(i, id));
        if t.has_run(i + 1, id) {
            let j = choose|j: int| 0 <= j < i + 1 && #[trigger] t.runs(j, id);
            assert(t.runs(j, id));
        }
    }
    assert forall|j: int, id: u128| 0 <= j < i + 1 implies !#[trigger] t.runs(j, id) by {
        assert(!t.has_run(i + 1, id));
    }
    assert forall|id: u128| !#[trigger] wanted(configs, texts, 0, id) by {}
}

/// What is stored once the run of a network has been completed.
proof fn lemma_completed(
    t: LoadTrace,
    configs: Seq<StoredGuiConfig>,
    texts: Seq<String>,
    i: int,
    next: int,
    id: u128,
)
    requires
        0 < i,
        i + 1 < t.effects.len(),
        0 < next <= texts.len(),
        spells_id(texts[next - 1], id),
        loaded(configs).dom().contains(id),
        t.holds(i, configs, texts, next - 1, next),
        t.worlds[i + 1].storage == t.worlds[i].storage.switched(id, false),
    ensures
        t.holds(i + 1, configs, texts, next, next),
{
    let before = t.worlds[i].storage;
    let after = t.worlds[i + 1].storage;
    assert forall|other: u128| #[trigger] after.enabled.contains(other) <==> wanted(
        configs,
        texts,
        next,
        other,
    ) by {
        lemma_one_text_more(configs, texts, next - 1, id, other);
        assert(before.enabled.contains(other) <==> wanted(configs, texts, next - 1, other));
    }
}

/// What a whole run of loading that succeeds comes to, off Android, with nothing
/// else stored meanwhile and with each configuration generated for the network's
/// own id. All configurations spell an id. The networks that are stored are those
/// that were loaded, with their sources. Those that are enabled are those that the
/// texts name and that were loaded; each of them was asked to run exactly once, as
/// it was loaded; nothing else was asked to run, and the other texts were passed
/// over.
pub proof fn loading_runs_what_was_enabled(
    t: LoadTrace,
    configs: Seq<StoredGuiConfig>,
    texts: Seq<String>,
    k: int,
)
    requires
        t.loads(configs, texts),
        0 <= k < t.effects.len(),
        t.effects[k] == succeed(),
    ensures
        first_without_id(configs, 0) == configs.len(),
        t.worlds[k].storage.configs.dom() == loaded(configs).dom(),
        forall|id: u128| #[trigger]
            t.worlds[k].storage.configs.dom().contains(id)
                ==> t.worlds[k].storage.configs[id].source == loaded(configs)[id].source,
        forall|id: u128| #[trigger]
            t.worlds[k].storage.enabled.contains(id) <==> wanted(
                configs,
                texts,
                texts.len() as int,
                id,
            ),
        forall|id: u128| #[trigger]
            t.has_run(k, id) <==> wanted(configs, texts, texts.len() as int, id),
        forall|j: int, l: int, id: u128|
            0 <= j < k && 0 <= l < k && #[trigger] t.runs(j, id) && #[trigger] t.runs(l, id) ==> j
                == l,
        forall|j: int, id: u128|
            0 <= j < k && #[trigger] t.runs(j, id) ==> t.runs_as_loaded(j, configs, id),
        forall|j: int|
            0 <= j < k && (#[trigger] t.effects[j] matches EffectView::Perform(
                Effect::RunStored { .. },
            )) ==> t.flows[j + 1] is Running,
{
    assert forall|j: int|
        0 <= j < k && (#[trigger] t.effects[j] matches EffectView::Perform(
            Effect::RunStored { .. },
        )) implies t.flows[j + 1] is Running by {
        assert(t.steps(j));
    }
    lemma_on_the_way(t, configs, texts, k);
    assert(t.steps(k));
    loading_stops_at_the_first_without_id(configs);
    let n = match t.flows[k] {
        LoadConfigsView::Completing { next, .. } => next,
        _ => 0,
    };
    let storage = t.worlds[k].storage;
    the_next_network_is_the_first_to_be_run(storage, texts, n);
    assert forall|id: u128| #[trigger]
        wanted(configs, texts, texts.len() as int, id) <==> wanted(configs, texts, n, id) by {
        lemma_passed_over(t, k, configs, texts, n, texts.len() as int, id);
    }
    lemma_same_run(t, k, configs, texts, n, texts.len() as int);
}

} // verus!
