//! What holds of all requests: who changes the user's decision and the count of
//! connections, and how a request ends.

use crate::effect::{out_of_turn, Reply};
use crate::flows::disable_tun::DisableTunView;
use crate::flows::hooks::{PostRemoveHookView, PostRunHook, PreRunHook};
use crate::flows::load_configs::LoadConfigsView;
use crate::flows::mobile_connection::SetMobileConnection;
use crate::flows::post_run::PostRun;
use crate::flows::pre_run::PreRunView;
use crate::flows::remove_instance::RemoveNetworkInstance;
use crate::flows::restart::RestartMobileNetwork;
use crate::flows::rpc_connection::InitRpcConnectionView;
use crate::flows::run_instance::RunNetworkInstance;
use crate::flows::save_config::SaveNetworkConfig;
use crate::flows::storage_writes::{
    DeleteNetworkConfigsView, InsertOrUpdateUserNetworkConfig, RecordNetworkConfigState,
};
use crate::flows::tun_fd::SetTunFd;
use crate::flows::update_state::UpdateNetworkConfigState;
use crate::flows::web_client::InitWebClient;
use crate::world::WorldView;
use vstd::prelude::*;

verus! {

/// What the configuration server, the core or the start of the client brings about
/// changes neither the user's decision nor the platform: preparing and completing
/// the run of a network, what the management has stored or removed, loading what
/// was saved, and connecting to the core or to the configuration server.
pub proof fn only_the_user_decides(
    world: WorldView,
    reply: Reply,
    pre: PreRunView,
    post: PostRun,
    removal: PostRemoveHookView,
    loading: LoadConfigsView,
    insertion: InsertOrUpdateUserNetworkConfig,
    deletion: DeleteNetworkConfigsView,
    recording: RecordNetworkConfigState,
    core: InitRpcConnectionView,
    server: InitWebClient,
)
    ensures
        pre.next(world, reply).1.intent == world.intent,
        post.next(world, reply).1.intent == world.intent,
        removal.next(world, reply).1.intent == world.intent,
        loading.next(world, reply).1.intent == world.intent,
        insertion.next(world, reply).1.intent == world.intent,
        deletion.next(world, reply).1.intent == world.intent,
        recording.next(world, reply).1.intent == world.intent,
        core.next(world, reply).1.intent == world.intent,
        server.next(world, reply).1.intent == world.intent,
        pre.next(world, reply).1.platform == world.platform,
        post.next(world, reply).1.platform == world.platform,
        removal.next(world, reply).1.platform == world.platform,
        loading.next(world, reply).1.platform == world.platform,
        insertion.next(world, reply).1.platform == world.platform,
        deletion.next(world, reply).1.platform == world.platform,
        recording.next(world, reply).1.platform == world.platform,
        core.next(world, reply).1.platform == world.platform,
        server.next(world, reply).1.platform == world.platform,
{
}

/// Of these, only a request to connect to the configuration server changes the
/// count of connections, and only with its first step.
pub proof fn only_connecting_is_counted(
    world: WorldView,
    reply: Reply,
    pre: PreRunView,
    post: PostRun,
    removal: PostRemoveHookView,
    loading: LoadConfigsView,
    core: InitRpcConnectionView,
    server: InitWebClient,
)
    ensures
        pre.next(world, reply).1.epoch == world.epoch,
        post.next(world, reply).1.epoch == world.epoch,
        removal.next(world, reply).1.epoch == world.epoch,
        loading.next(world, reply).1.epoch == world.epoch,
        core.next(world, reply).1.epoch == world.epoch,
        !(server is Start) ==> server.next(world, reply).1.epoch == world.epoch,
{
}

/// A request of any kind that has ended changes nothing any more, and asks for
/// nothing but to be over.
pub proof fn an_ended_request_stays_ended(world: WorldView, reply: Reply)
    ensures
        ({
            let over = out_of_turn();
            &&& DisableTunView::Over.next(reply).1 == over
            &&& PreRunHook::Over.next(world, reply).1 == over
            &&& PostRunHook::Over.next(world, reply).1 == over
            &&& RemoveNetworkInstance::Over.next(world, reply).1 == over
            &&& RestartMobileNetwork::Over.next(world, reply).1 == over
            &&& RunNetworkInstance::Over.next(world, reply).1 == over
            &&& SetTunFd::Over.next(world, reply).1 == over
            &&& PostRemoveHookView::Over.next(world, reply) == (
                PostRemoveHookView::Over,
                world,
                over,
            )
            &&& LoadConfigsView::Over.next(world, reply) == (LoadConfigsView::Over, world, over)
            &&& SetMobileConnection::Over.next(world, reply) == (
                SetMobileConnection::Over,
                world,
                over,
            )
            &&& PostRun::Over.next(world, reply) == (PostRun::Over, world, over)
            &&& PreRunView::Over.next(world, reply) == (PreRunView::Over, world, over)
            &&& InitRpcConnectionView::Over.next(world, reply) == (
                InitRpcConnectionView::Over,
                world,
                over,
            )
            &&& SaveNetworkConfig::Over.next(world, reply) == (
                SaveNetworkConfig::Over,
                world,
                over,
            )
            &&& InsertOrUpdateUserNetworkConfig::Over.next(world, reply) == (
                InsertOrUpdateUserNetworkConfig::Over,
                world,
                over,
            )
            &&& DeleteNetworkConfigsView::Over.next(world, reply) == (
                DeleteNetworkConfigsView::Over,
                world,
                over,
            )
            &&& RecordNetworkConfigState::Over.next(world, reply) == (
                RecordNetworkConfigState::Over,
                world,
                over,
            )
            &&& UpdateNetworkConfigState::Over.next(world, reply) == (
                UpdateNetworkConfigState::Over,
                world,
                over,
            )
            &&& InitWebClient::Over.next(world, reply) == (InitWebClient::Over, world, over)
        }),
{
}

/// A request that is told to be over is over: no step that ends one leads anywhere
/// else.
pub proof fn the_end_is_final(
    world: WorldView,
    reply: Reply,
    stopping: DisableTunView,
    preparing: PreRunHook,
    completing: PostRunHook,
    removal: PostRemoveHookView,
    removing: RemoveNetworkInstance,
    recovery: RestartMobileNetwork,
    running: RunNetworkInstance,
    device: SetTunFd,
    loading: LoadConfigsView,
    decision: SetMobileConnection,
)
    ensures
        stopping.next(reply).1 is Finish ==> stopping.next(reply).0 is Over,
        preparing.next(world, reply).1 is Finish ==> preparing.next(world, reply).0 is Over,
        completing.next(world, reply).1 is Finish ==> completing.next(world, reply).0 is Over,
        removal.next(world, reply).2 is Finish ==> removal.next(world, reply).0 is Over,
        removing.next(world, reply).1 is Finish ==> removing.next(world, reply).0 is Over,
        recovery.next(world, reply).1 is Finish ==> recovery.next(world, reply).0 is Over,
        running.next(world, reply).1 is Finish ==> running.next(world, reply).0 is Over,
        device.next(world, reply).1 is Finish ==> device.next(world, reply).0 is Over,
        loading.next(world, reply).2 is Finish ==> loading.next(world, reply).0 is Over,
        decision.next(world, reply).2 is Finish ==> decision.next(world, reply).0 is Over,
{
}

/// The same of the other requests.
pub proof fn the_end_of_the_others_is_final(
    world: WorldView,
    reply: Reply,
    pre: PreRunView,
    post: PostRun,
    core: InitRpcConnectionView,
    server: InitWebClient,
    saving: SaveNetworkConfig,
    insertion: InsertOrUpdateUserNetworkConfig,
    deletion: DeleteNetworkConfigsView,
    recording: RecordNetworkConfigState,
    update: UpdateNetworkConfigState,
)
    ensures
        pre.next(world, reply).2 is Finish ==> pre.next(world, reply).0 is Over,
        post.next(world, reply).2 is Finish ==> post.next(world, reply).0 is Over,
        core.next(world, reply).2 is Finish ==> core.next(world, reply).0 is Over,
        server.next(world, reply).2 is Finish ==> server.next(world, reply).0 is Over,
        saving.next(world, reply).2 is Finish ==> saving.next(world, reply).0 is Over,
        insertion.next(world, reply).2 is Finish ==> insertion.next(world, reply).0 is Over,
        deletion.next(world, reply).2 is Finish ==> deletion.next(world, reply).0 is Over,
        recording.next(world, reply).2 is Finish ==> recording.next(world, reply).0 is Over,
        update.next(world, reply).2 is Finish ==> update.next(world, reply).0 is Over,
{
}

} // verus!
