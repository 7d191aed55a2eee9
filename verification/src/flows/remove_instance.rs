//! Removing a network.

use crate::effect::{
    check_manager, fail, finish, finish_as, manager_refusal, notify_vpn_stop_if_no_tun,
    out_of_turn, refuse, stop_vpn_or_succeed, succeed, Effect, EffectView, GuiEvent, InstanceCall,
    Reply,
};
use crate::error::{parse_instance_id, GuiError};
use crate::instance_id::parsed_uuid;
use crate::storage::a_tun_network_is_any_that_is_one;
use crate::world::{World, WorldView};
use vstd::prelude::*;

verus! {

/// The request to remove the network whose id is written `instance_id`.
#[derive(Debug)]
pub enum RemoveNetworkInstance {
    Start { instance_id: String },
    Opening { id: u128 },
    Removing,
    /// The VPN service is being told to stop.
    Notifying,
    Over,
}

impl RemoveNetworkInstance {
    /// The next step.
    pub open spec fn next(self, world: WorldView, reply: Reply) -> (
        RemoveNetworkInstance,
        EffectView,
    ) {
        match (self, reply) {
            (RemoveNetworkInstance::Start { instance_id }, Reply::Done) => match parsed_uuid(
                instance_id@,
            ) {
                Ok(id) => (
                    RemoveNetworkInstance::Opening { id },
                    EffectView::Perform(Effect::OpenManager),
                ),
                Err(words) => (RemoveNetworkInstance::Over, EffectView::Finish(Err(words))),
            },
            (
                RemoveNetworkInstance::Opening { id },
                Reply::Answer(locked),
            ) => match manager_refusal(world, locked) {
                Some(error) => (RemoveNetworkInstance::Over, refuse(error)),
                None => (
                    RemoveNetworkInstance::Removing,
                    EffectView::Instances(InstanceCall::Remove, seq![id]),
                ),
            },
            (RemoveNetworkInstance::Removing, Reply::Outcome(Ok(()))) => (
                if world.storage.has_tun(false) {
                    RemoveNetworkInstance::Over
                } else {
                    RemoveNetworkInstance::Notifying
                },
                stop_vpn_or_succeed(world),
            ),
            (RemoveNetworkInstance::Removing, Reply::Outcome(Err(words))) => (
                RemoveNetworkInstance::Over,
                EffectView::Finish(Err(words@)),
            ),
            (RemoveNetworkInstance::Notifying, Reply::Outcome(outcome)) => (
                RemoveNetworkInstance::Over,
                finish_as(outcome),
            ),
            _ => (RemoveNetworkInstance::Over, out_of_turn()),
        }
    }

    pub fn new(instance_id: String) -> (r: RemoveNetworkInstance)
        ensures
            r == (RemoveNetworkInstance::Start { instance_id }),
    {
        RemoveNetworkInstance::Start { instance_id }
    }

    /// Takes the next step.
    pub fn step(self, world: &World, reply: Reply) -> (r: (RemoveNetworkInstance, Effect))
        ensures
            (r.0, r.1@) == self.next(world@, reply),
    {
        match (self, reply) {
            (RemoveNetworkInstance::Start { instance_id }, Reply::Done) => {
                match parse_instance_id(instance_id.as_str()) {
                    Ok(id) => (RemoveNetworkInstance::Opening { id }, Effect::OpenManager),
                    Err(error) => (RemoveNetworkInstance::Over, Effect::Finish(Err(error))),
                }
            },
            (RemoveNetworkInstance::Opening { id }, Reply::Answer(locked)) => {
                match check_manager(world, locked) {
                    Some(error) => (RemoveNetworkInstance::Over, Effect::Finish(Err(error))),
                    None => {
                        let ids: Vec<u128> = vec![id];
                        assert(ids@ =~= seq![id]);
                        (
                            RemoveNetworkInstance::Removing,
                            Effect::Instances { call: InstanceCall::Remove, ids },
                        )
                    },
                }
            },
            (RemoveNetworkInstance::Removing, Reply::Outcome(Ok(()))) => {
                let effect = notify_vpn_stop_if_no_tun(world);
                if let Effect::Finish(_) = effect {
                    (RemoveNetworkInstance::Over, effect)
                } else {
                    (RemoveNetworkInstance::Notifying, effect)
                }
            },
            (RemoveNetworkInstance::Removing, Reply::Outcome(Err(words))) => (
                RemoveNetworkInstance::Over,
                fail(words),
            ),
            (RemoveNetworkInstance::Notifying, Reply::Outcome(outcome)) => (
                RemoveNetworkInstance::Over,
                finish(outcome),
            ),
            _ => (RemoveNetworkInstance::Over, Effect::Finish(Err(GuiError::UnexpectedReply))),
        }
    }
}

/// A network is removed by the id that was written, and the VPN service is told to
/// stop exactly where no enabled network with a TUN device is left. What fails on
/// the way ends the request with its words.
pub proof fn a_removal_goes_through(instance_id: String, words: String, w: Seq<WorldView>)
    requires
        w.len() == 4,
    ensures
        ({
            let s0 = (RemoveNetworkInstance::Start { instance_id }).next(w[0], Reply::Done);
            let s1 = s0.0.next(w[1], Reply::Answer(true));
            let s2 = s1.0.next(w[2], Reply::Outcome(Ok(())));
            let s3 = s2.0.next(w[3], Reply::Outcome(Ok(())));
            let failed = Reply::Outcome(Err(words));
            let stop = EffectView::Perform(Effect::Emit(GuiEvent::VpnServiceStop));
            match parsed_uuid(instance_id@) {
                Err(said) => s0.1 == EffectView::Finish(Err(said)),
                Ok(id) => {
                    &&& s0.1 == EffectView::Perform(Effect::OpenManager)
                    &&& s0.0.next(w[1], Reply::Answer(false)).1 == refuse(GuiError::ManagerBusy)
                    &&& !w[1].connected ==> s1.1 == refuse(GuiError::ManagerMissing)
                    &&& w[1].connected ==> {
                        &&& s1.1 == EffectView::Instances(InstanceCall::Remove, seq![id])
                        &&& s1.0.next(w[2], failed).1 == EffectView::Finish(Err(words@))
                        &&& (exists|tun: u128| w[2].storage.is_tun(false, tun)) ==> s2.1
                            == succeed()
                        &&& !(exists|tun: u128| w[2].storage.is_tun(false, tun)) ==> {
                            &&& s2.1 == stop
                            &&& s3.1 == succeed()
                            &&& s2.0.next(w[3], failed).1 == EffectView::Finish(Err(words@))
                        }
                    }
                },
            }
        }),
{
    a_tun_network_is_any_that_is_one(w[2].storage, false);
}

} // verus!
