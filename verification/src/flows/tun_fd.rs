//! Handing the TUN device of the VPN service to the core.

use crate::effect::{
    check_manager, fail, manager_refusal, out_of_turn, refuse, succeed, Effect, EffectView,
    Reply, TunEvent,
};
use crate::error::{parse_instance_id, GuiError};
use crate::instance_id::parsed_uuid;
use crate::storage::a_tun_network_is_any_that_is_one;
use crate::text::{decimal, decimals_are_read_back, join, same_text, write_decimal};
use crate::world::{World, WorldView};
use vstd::prelude::*;

verus! {

/// The request to hand the device `fd` to the instance whose id is written
/// `instance_id`, or to any that needs one.
#[derive(Debug)]
pub enum SetTunFd {
    Start { fd: i32, instance_id: Option<String> },
    Finding { fd: i32, instance_id: Option<String> },
    Opening { fd: i32, instance_id: Option<String> },
    /// The events of the instance are being subscribed to.
    Subscribing { fd: i32, id: u128 },
    Attaching { fd: i32 },
    /// The core is opening the device.
    Waiting { fd: i32 },
    Over,
}

/// Whether `choice` is a right choice of the instance to get the device: the one
/// asked for, if it is an enabled network with a TUN device; any such network, if
/// none is asked for. A failure is told by its words.
pub open spec fn chooses(
    world: WorldView,
    instance_id: Option<String>,
    choice: Result<u128, Seq<char>>,
) -> bool {
    match instance_id {
        Some(text) => match parsed_uuid(text@) {
            Ok(id) => if world.storage.is_tun(false, id) {
                choice == Ok::<u128, Seq<char>>(id)
            } else {
                choice == Err::<u128, Seq<char>>(GuiError::VpnNotEnabled.words())
            },
            Err(words) => choice == Err::<u128, Seq<char>>(words),
        },
        None => match choice {
            Ok(id) => world.storage.is_tun(false, id),
            Err(words) => !world.storage.has_tun(false) && words == GuiError::NoEnabledVpn.words(),
        },
    }
}

/// A choice, with a failure told by its words.
pub open spec fn choice_view(choice: Result<u128, GuiError>) -> Result<u128, Seq<char>> {
    match choice {
        Ok(id) => Ok(id),
        Err(error) => Err(error.words()),
    }
}

/// Chooses the instance that gets the device.
fn choose_instance(world: &World, instance_id: &Option<String>) -> (r: Result<u128, GuiError>)
    ensures
        chooses(world@, *instance_id, choice_view(r)),
{
    match instance_id {
        Some(text) => {
            let id = match parse_instance_id(text.as_str()) {
                Ok(id) => id,
                Err(error) => return Err(error),
            };
            if world.manager.is_tun_instance(id) {
                Ok(id)
            } else {
                Err(GuiError::VpnNotEnabled)
            }
        },
        None => match world.manager.first_tun_instance() {
            Some(id) => Ok(id),
            None => Err(GuiError::NoEnabledVpn),
        },
    }
}

/// The name under which the core reports the device `fd`.
pub open spec fn device_name(fd: i32) -> Seq<char> {
    "tunfd_"@ + decimal(fd as nat)
}

/// Whether `name` is the name under which the core reports the device `fd`.
fn is_device(name: &str, fd: i32) -> (r: bool)
    requires
        fd >= 0,
    ensures
        r == (name@ == device_name(fd)),
{
    same_text(name, join("tunfd_", write_decimal(fd as u32).as_str()).as_str())
}

impl SetTunFd {
    /// Goes on once the instance is chosen. On Android the events of the instance
    /// are listened to from before the device is handed over.
    pub open spec fn attach(world: WorldView, fd: i32, choice: Result<u128, Seq<char>>) -> (
        SetTunFd,
        EffectView,
    ) {
        match choice {
            Err(words) => (SetTunFd::Over, EffectView::Finish(Err(words))),
            Ok(id) => if fd < 0 {
                (SetTunFd::Over, refuse(GuiError::InvalidTunFd))
            } else if world.platform is Android {
                (
                    SetTunFd::Subscribing { fd, id },
                    EffectView::Perform(Effect::SubscribeEvents(id)),
                )
            } else {
                (SetTunFd::Attaching { fd }, EffectView::Perform(Effect::AttachTun { id, fd }))
            },
        }
    }

    /// The step in which the instance is chosen.
    pub open spec fn chooses_in(self, world: WorldView, after: SetTunFd, effect: EffectView) -> bool
        recommends
            self is Opening,
    {
        exists|choice: Result<u128, Seq<char>>| #[trigger]
            chooses(world, self->Opening_instance_id, choice) && (after, effect)
                == SetTunFd::attach(world, self->Opening_fd, choice)
    }

    /// Every other step. On Android the request succeeds only once the core
    /// reports that it has opened the device.
    pub open spec fn next(self, world: WorldView, reply: Reply) -> (SetTunFd, EffectView) {
        match (self, reply) {
            (SetTunFd::Start { fd, instance_id }, Reply::Done) => (
                SetTunFd::Finding { fd, instance_id },
                EffectView::Perform(Effect::FindInstances),
            ),
            (SetTunFd::Finding { fd, instance_id }, Reply::Answer(found)) => if found {
                (
                    SetTunFd::Opening { fd, instance_id },
                    EffectView::Perform(Effect::OpenManager),
                )
            } else {
                (SetTunFd::Over, refuse(GuiError::RemoteMode))
            },
            (SetTunFd::Opening { .. }, Reply::Answer(locked)) => match manager_refusal(
                world,
                locked,
            ) {
                Some(error) => (SetTunFd::Over, refuse(error)),
                None => (SetTunFd::Over, out_of_turn()),
            },
            (SetTunFd::Subscribing { fd, id }, Reply::Answer(subscribed)) => if subscribed {
                (SetTunFd::Attaching { fd }, EffectView::Perform(Effect::AttachTun { id, fd }))
            } else {
                (SetTunFd::Over, refuse(GuiError::EventStreamUnavailable))
            },
            (SetTunFd::Attaching { fd }, Reply::Outcome(Ok(()))) => if world.platform is Android {
                (SetTunFd::Waiting { fd }, EffectView::Perform(Effect::AwaitTunEvent))
            } else {
                (SetTunFd::Over, succeed())
            },
            (SetTunFd::Attaching { .. }, Reply::Outcome(Err(words))) => (
                SetTunFd::Over,
                EffectView::Finish(Err(words@)),
            ),
            (SetTunFd::Waiting { fd }, Reply::Tun(event)) => match event {
                TunEvent::Ready(name) => if fd >= 0 && name@ == device_name(fd) {
                    (SetTunFd::Over, succeed())
                } else {
                    (SetTunFd::Waiting { fd }, EffectView::Perform(Effect::AwaitTunEvent))
                },
                TunEvent::Other => (
                    SetTunFd::Waiting { fd },
                    EffectView::Perform(Effect::AwaitTunEvent),
                ),
                TunEvent::Failed(words) | TunEvent::Closed(words) => (
                    SetTunFd::Over,
                    EffectView::Finish(Err(words@)),
                ),
                TunEvent::TimedOut => (SetTunFd::Over, refuse(GuiError::TunTimedOut)),
            },
            _ => (SetTunFd::Over, out_of_turn()),
        }
    }

    /// Whether the next step is the one in which the instance is chosen.
    pub open spec fn is_choosing(self, world: WorldView, reply: Reply) -> bool {
        self is Opening && (reply matches Reply::Answer(locked) && manager_refusal(world, locked)
            is None)
    }

    pub fn new(fd: i32, instance_id: Option<String>) -> (r: SetTunFd)
        ensures
            r == (SetTunFd::Start { fd, instance_id }),
    {
        SetTunFd::Start { fd, instance_id }
    }

    /// Takes the next step.
    pub fn step(self, world: &World, reply: Reply) -> (r: (SetTunFd, Effect))
        ensures
            self.is_choosing(world@, reply) ==> self.chooses_in(world@, r.0, r.1@),
            !self.is_choosing(world@, reply) ==> (r.0, r.1@) == self.next(world@, reply),
    {
        match (self, reply) {
            (SetTunFd::Start { fd, instance_id }, Reply::Done) => (
                SetTunFd::Finding { fd, instance_id },
                Effect::FindInstances,
            ),
            (SetTunFd::Finding { fd, instance_id }, Reply::Answer(found)) => if found {
                (SetTunFd::Opening { fd, instance_id }, Effect::OpenManager)
            } else {
                (SetTunFd::Over, Effect::Finish(Err(GuiError::RemoteMode)))
            },
            (SetTunFd::Opening { fd, instance_id }, Reply::Answer(locked)) => {
                if let Some(error) = check_manager(world, locked) {
                    return (SetTunFd::Over, Effect::Finish(Err(error)));
                }
                let choice = choose_instance(world, &instance_id);
                let ghost chosen = choice_view(choice);
                let r = match choice {
                    Err(error) => (SetTunFd::Over, Effect::Finish(Err(error))),
                    Ok(id) => if fd < 0 {
                        (SetTunFd::Over, Effect::Finish(Err(GuiError::InvalidTunFd)))
                    } else if world.platform.is_android() {
                        (SetTunFd::Subscribing { fd, id }, Effect::SubscribeEvents(id))
                    } else {
                        (SetTunFd::Attaching { fd }, Effect::AttachTun { id, fd })
                    },
                };
                assert((r.0, r.1@) == SetTunFd::attach(world@, fd, chosen));
                r
            },
            (SetTunFd::Subscribing { fd, id }, Reply::Answer(subscribed)) => if subscribed {
                (SetTunFd::Attaching { fd }, Effect::AttachTun { id, fd })
            } else {
                (SetTunFd::Over, Effect::Finish(Err(GuiError::EventStreamUnavailable)))
            },
            (SetTunFd::Attaching { fd }, Reply::Outcome(Ok(()))) => if world.platform.is_android() {
                (SetTunFd::Waiting { fd }, Effect::AwaitTunEvent)
            } else {
                (SetTunFd::Over, Effect::Finish(Ok(())))
            },
            (SetTunFd::Attaching { .. }, Reply::Outcome(Err(words))) => (
                SetTunFd::Over,
                fail(words),
            ),
            (SetTunFd::Waiting { fd }, Reply::Tun(event)) => match event {
                TunEvent::Ready(name) => if fd >= 0 && is_device(name.as_str(), fd) {
                    (SetTunFd::Over, Effect::Finish(Ok(())))
                } else {
                    (SetTunFd::Waiting { fd }, Effect::AwaitTunEvent)
                },
                TunEvent::Other => (SetTunFd::Waiting { fd }, Effect::AwaitTunEvent),
                TunEvent::Failed(words) | TunEvent::Closed(words) => (
                    SetTunFd::Over,
                    fail(words),
                ),
                TunEvent::TimedOut => (
                    SetTunFd::Over,
                    Effect::Finish(Err(GuiError::TunTimedOut)),
                ),
            },
            _ => (SetTunFd::Over, Effect::Finish(Err(GuiError::UnexpectedReply))),
        }
    }
}

/// A run of a request to hand over a device, step by step: the flow before step
/// `i`, the state that the step finds, the reply that it gets and the effect that
/// it asks for. Between two steps other requests may change the state in any way.
pub struct SetTunFdTrace {
    pub flows: Seq<SetTunFd>,
    pub worlds: Seq<WorldView>,
    pub replies: Seq<Reply>,
    pub effects: Seq<EffectView>,
}

impl SetTunFdTrace {
    /// Whether step `i` is one that the request can take.
    pub open spec fn steps(self, i: int) -> bool {
        if self.flows[i].is_choosing(self.worlds[i], self.replies[i]) {
            self.flows[i].chooses_in(self.worlds[i], self.flows[i + 1], self.effects[i])
        } else {
            (self.flows[i + 1], self.effects[i]) == self.flows[i].next(
                self.worlds[i],
                self.replies[i],
            )
        }
    }

    /// Whether these are the first steps of a request to hand over the device `fd`.
    pub open spec fn attaches(self, fd: i32, instance_id: Option<String>) -> bool {
        &&& self.worlds.len() == self.effects.len()
        &&& self.replies.len() == self.effects.len()
        &&& self.flows.len() == self.effects.len() + 1
        &&& self.flows[0] == (SetTunFd::Start { fd, instance_id })
        &&& forall|i: int| 0 <= i < self.effects.len() ==> #[trigger] self.steps(i)
    }

    /// Whether a step before step `i` finds that `id` may get the device: it is an
    /// enabled network with a TUN device, and the one asked for if one is.
    pub open spec fn has_chosen(self, i: int, instance_id: Option<String>, id: u128) -> bool {
        exists|j: int|
            0 <= j < i && #[trigger] chooses(
                self.worlds[j],
                instance_id,
                Ok::<u128, Seq<char>>(id),
            )
    }

    /// Whether step `j` hands the device `fd` to the network `id`.
    pub open spec fn hands_over(self, j: int, fd: i32, id: u128) -> bool {
        self.effects[j] == EffectView::Perform(Effect::AttachTun { id, fd })
    }

    /// Whether a step up to step `i` hands the device to a network that was rightly
    /// chosen for it.
    pub open spec fn has_handed_over(self, i: int, fd: i32, instance_id: Option<String>) -> bool {
        exists|j: int, id: u128|
            0 <= j < i && #[trigger] self.hands_over(j, fd, id) && self.has_chosen(
                j + 1,
                instance_id,
                id,
            )
    }

    /// What is known before step `i`.
    spec fn on_the_way(self, i: int, fd: i32, instance_id: Option<String>) -> bool {
        match self.flows[i] {
            SetTunFd::Start { fd: f, instance_id: a }
            | SetTunFd::Finding { fd: f, instance_id: a }
            | SetTunFd::Opening { fd: f, instance_id: a } => f == fd && a == instance_id,
            SetTunFd::Subscribing { fd: f, id } => {
                &&& f == fd
                &&& fd >= 0
                &&& self.has_chosen(i, instance_id, id)
            },
            SetTunFd::Attaching { fd: f } | SetTunFd::Waiting { fd: f } => {
                &&& f == fd
                &&& fd >= 0
                &&& self.has_handed_over(i, fd, instance_id)
            },
            SetTunFd::Over => true,
        }
    }
}

/// The request stays on the way, and no step hands the device to a network that
/// was not chosen.
proof fn lemma_on_the_way(t: SetTunFdTrace, fd: i32, instance_id: Option<String>, i: int)
    requires
        t.attaches(fd, instance_id),
        0 <= i <= t.effects.len(),
    ensures
        t.on_the_way(i, fd, instance_id),
        forall|f: i32, id: u128|
            i > 0 && #[trigger] t.hands_over(i - 1, f, id) ==> f == fd && fd >= 0 && t.has_chosen(
                i,
                instance_id,
                id,
            ),
    decreases i,
{
    if i > 0 {
        lemma_on_the_way(t, fd, instance_id, i - 1);
        assert(t.steps(i - 1));
        assert forall|id: u128|
            t.has_chosen(i - 1, instance_id, id) implies #[trigger] t.has_chosen(
            i,
            instance_id,
            id,
        ) by {
            let j = choose|j: int|
                0 <= j < i - 1 && #[trigger] chooses(
                    t.worlds[j],
                    instance_id,
                    Ok::<u128, Seq<char>>(id),
                );
            assert(chooses(t.worlds[j], instance_id, Ok::<u128, Seq<char>>(id)));
        }
        if t.has_handed_over(i - 1, fd, instance_id) {
            let (j, id) = choose|j: int, id: u128|
                0 <= j < i - 1 && #[trigger] t.hands_over(j, fd, id) && t.has_chosen(
                    j + 1,
                    instance_id,
                    id,
                );
            assert(t.hands_over(j, fd, id));
            assert(t.has_handed_over(i, fd, instance_id));
        }
        if t.flows[i - 1].is_choosing(t.worlds[i - 1], t.replies[i - 1]) {
            let choice = choose|choice: Result<u128, Seq<char>>| #[trigger]
                chooses(t.worlds[i - 1], instance_id, choice) && (t.flows[i], t.effects[i - 1])
                    == SetTunFd::attach(t.worlds[i - 1], fd, choice);
            if choice is Ok {
                let id = choice->Ok_0;
                assert(choice == Ok::<u128, Seq<char>>(id));
                assert(t.has_chosen(i, instance_id, id));
                if t.flows[i] is Attaching {
                    assert(t.hands_over(i - 1, fd, id));
                }
            }
        } else if t.flows[i - 1] is Subscribing && t.flows[i] is Attaching {
            assert(t.hands_over(i - 1, fd, t.flows[i - 1]->id));
        }
    }
}

/// A device is handed only to an enabled network with a TUN device, the one that
/// was asked for if one was, and only if it can be a device.
pub proof fn devices_go_to_enabled_networks(
    t: SetTunFdTrace,
    fd: i32,
    instance_id: Option<String>,
    k: int,
    handed: i32,
    id: u128,
)
    requires
        t.attaches(fd, instance_id),
        0 <= k < t.effects.len(),
        t.effects[k] == EffectView::Perform(Effect::AttachTun { id, fd: handed }),
    ensures
        handed == fd && fd >= 0,
        t.has_chosen(k + 1, instance_id, id),
{
    lemma_on_the_way(t, fd, instance_id, k + 1);
    assert(t.hands_over((k + 1) - 1, handed, id));
}

/// The request succeeds only after the device has been handed over and, on
/// Android, only when the core reports that it has opened this very device: a
/// failed attachment does not pass for a success.
pub proof fn a_device_is_ready_before_success(
    t: SetTunFdTrace,
    fd: i32,
    instance_id: Option<String>,
    k: int,
)
    requires
        t.attaches(fd, instance_id),
        0 <= k < t.effects.len(),
        t.effects[k] == succeed(),
    ensures
        t.has_handed_over(k, fd, instance_id),
        t.worlds[k].platform is Android ==> (t.replies[k] matches Reply::Tun(TunEvent::Ready(name))
            && name@ == device_name(fd)),
{
    lemma_on_the_way(t, fd, instance_id, k);
    assert(t.steps(k));
}

/// Which network gets the device. The one that is asked for is refused exactly where
/// its id cannot be read or it is no enabled network with a TUN device. Where none
/// is asked for, any such network gets it, and the request is refused exactly where
/// there is none. Then a negative device is refused, and no other. On Android the
/// events of the network are listened to before it gets the device.
pub proof fn the_device_goes_to_this_network(
    fd: i32,
    instance_id: Option<String>,
    world: WorldView,
    after: SetTunFd,
    effect: EffectView,
)
    requires
        (SetTunFd::Opening { fd, instance_id }).chooses_in(world, after, effect),
    ensures
        ({
            let goes_on = |id: u128|
                if fd < 0 {
                    effect == refuse(GuiError::InvalidTunFd)
                } else if world.platform is Android {
                    effect == EffectView::Perform(Effect::SubscribeEvents(id)) && after == (
                    SetTunFd::Subscribing { fd, id })
                } else {
                    effect == EffectView::Perform(Effect::AttachTun { id, fd }) && after == (
                    SetTunFd::Attaching { fd })
                };
            match instance_id {
                Some(text) => match parsed_uuid(text@) {
                    Err(words) => effect == EffectView::Finish(Err(words)),
                    Ok(id) => {
                        &&& !world.storage.is_tun(false, id) ==> effect == refuse(
                            GuiError::VpnNotEnabled,
                        )
                        &&& world.storage.is_tun(false, id) ==> goes_on(id)
                    },
                },
                None => {
                    &&& !(exists|id: u128| world.storage.is_tun(false, id)) ==> effect == refuse(
                        GuiError::NoEnabledVpn,
                    )
                    &&& (exists|id: u128| world.storage.is_tun(false, id)) ==> exists|id: u128|
                        #[trigger] world.storage.is_tun(false, id) && goes_on(id)
                },
            }
        }),
{
    a_tun_network_is_any_that_is_one(world.storage, false);
    let choice = choose|choice: Result<u128, Seq<char>>| #[trigger]
        chooses(world, instance_id, choice) && (after, effect) == SetTunFd::attach(
            world,
            fd,
            choice,
        );
    if instance_id is None && choice is Ok {
        assert(world.storage.is_tun(false, choice->Ok_0));
    }
}

/// How the request begins, and how it ends once the network is chosen: on Android
/// the device is handed over once the events are listened to, and the request then
/// waits until the core reports this device as ready, and only that; elsewhere it
/// succeeds as soon as the device is handed over. What fails ends it with its words.
pub proof fn a_device_is_handed_over_like_this(
    fd: i32,
    instance_id: Option<String>,
    id: u128,
    name: String,
    words: String,
    w: Seq<WorldView>,
)
    requires
        w.len() == 5,
        fd >= 0,
    ensures
        ({
            let s0 = (SetTunFd::Start { fd, instance_id }).next(w[0], Reply::Done);
            let s1 = s0.0.next(w[1], Reply::Answer(true));
            let failed = Reply::Outcome(Err(words));
            let over = EffectView::Finish(Err(words@));
            let wait = EffectView::Perform(Effect::AwaitTunEvent);
            let listening = SetTunFd::Subscribing { fd, id };
            let attach = listening.next(w[2], Reply::Answer(true));
            let waiting = attach.0.next(w[3], Reply::Outcome(Ok(())));
            &&& s0.1 == EffectView::Perform(Effect::FindInstances)
            &&& s0.0.next(w[1], Reply::Answer(false)).1 == refuse(GuiError::RemoteMode)
            &&& s1.1 == EffectView::Perform(Effect::OpenManager)
            &&& s1.0 == (SetTunFd::Opening { fd, instance_id })
            &&& s1.0.next(w[2], Reply::Answer(false)).1 == refuse(GuiError::ManagerBusy)
            &&& !w[2].connected ==> s1.0.next(w[2], Reply::Answer(true)).1 == refuse(
                GuiError::ManagerMissing,
            )
            &&& s1.0.is_choosing(w[2], Reply::Answer(true)) <==> w[2].connected
            &&& listening.next(w[2], Reply::Answer(false)).1 == refuse(
                GuiError::EventStreamUnavailable,
            )
            &&& attach.1 == EffectView::Perform(Effect::AttachTun { id, fd })
            &&& attach.0 == (SetTunFd::Attaching { fd })
            &&& attach.0.next(w[3], failed).1 == over
            &&& !(w[3].platform is Android) ==> waiting.1 == succeed()
            &&& w[3].platform is Android ==> {
                let ready = waiting.0.next(w[4], Reply::Tun(TunEvent::Ready(name)));
                let other = waiting.0.next(w[4], Reply::Tun(TunEvent::Other));
                &&& waiting.1 == wait
                &&& ready.1 == succeed() <==> name@ == "tunfd_"@ + decimal(fd as nat)
                &&& ready.1 == wait <==> name@ != "tunfd_"@ + decimal(fd as nat)
                &&& ready.1 == wait ==> ready.0 == waiting.0
                &&& other.1 == wait && other.0 == waiting.0
                &&& waiting.0.next(w[4], Reply::Tun(TunEvent::Failed(words))).1 == over
                &&& waiting.0.next(w[4], Reply::Tun(TunEvent::Closed(words))).1 == over
                &&& waiting.0.next(w[4], Reply::Tun(TunEvent::TimedOut)).1 == refuse(
                    GuiError::TunTimedOut,
                )
            }
        }),
{
}

/// Two devices never go by the same name.
pub proof fn device_names_tell_devices_apart(one: i32, other: i32)
    requires
        one >= 0 && other >= 0,
        device_name(one) == device_name(other),
    ensures
        one == other,
{
    let prefix = "tunfd_"@;
    assert(device_name(one).skip(prefix.len() as int) =~= decimal(one as nat));
    assert(device_name(other).skip(prefix.len() as int) =~= decimal(other as nat));
    decimals_are_read_back(one as nat);
    decimals_are_read_back(other as nat);
}

} // verus!
