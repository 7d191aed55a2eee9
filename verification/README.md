# easytier_gui

The decisions behind the EasyTier desktop and mobile client, verified with Verus.

A request of the user interface, or a callback of the configuration server, is a
*flow*: a value with a `step` function. Each step gets the reply to the previous
effect and the shared state, changes the state, and asks for the next effect. The
contract of a flow is a function from flow, state and reply to the next flow, state
and effect; what holds of whole runs, whatever other requests do between two steps,
is proved about sequences of such steps.

- `src/connection_intent.rs`: the user's standing decision, and which work it outdates.
- `src/config.rs`, `src/storage.rs`, `src/manager.rs`: the stored networks, who owns
  them, and which of them need the VPN service.
- `src/world.rs`, `src/effect.rs`: the shared state, and what is asked of the outside.
- `src/flows/`: the requests.
- `src/rpc_portal.rs`, `src/vpn_portal.rs`, `src/service.rs`, `src/desktop.rs`,
  `src/events.rs`, `src/requests.rs`, `src/models.rs`: the rest of the client.
- `app/`: the commands of the user interface, the core and the operating system. It
  performs the effects.
- `tests/`: the library from outside.
