//! Session and host authority: one peer binds a listening transport and
//! becomes the authoritative host; others join it. The game state tracks
//! the peer registry and the lobby's visibility, turns every transport and
//! lobby event into a new state plus a list of actions for the engine to
//! perform, and bootstraps the round.
//!
//! A mid-round disconnect (any peer lost while the lobby is hidden) is
//! fatal: the transport is dropped, the registry cleared, and the lobby
//! shown again with the error.

use crate::registry::{entries_wf, has_peer, peer_index, PeerRegistry, RegistryModel};
use crate::score::{has_row, rows_wf, Score};
use crate::world::{build_world_random, world_built_from, Pos, WorldEntity, SPAWN_POINT_COUNT};
use crate::{DEFAULT_PORT, HOST_ID, MAX_PEERS};
use vstd::prelude::*;

verus! {

/// The peer's current relation to the session transport.
#[derive(Clone, Copy, PartialEq, Eq, Structural, Debug)]
pub enum Role {
    /// No transport: the pre-connection lobby state.
    Disconnected,
    /// Listening transport bound; this peer is the authoritative host.
    Hosting,
    /// Connecting transport bound; the connection is not established yet.
    Connecting,
    /// Connected to a remote host as a client.
    Connected,
}

/// An instruction the session hands back to its surroundings: the transport
/// carries the replicated calls, the lobby collaborator renders.
#[derive(Debug)]
pub enum SessionAction {
    /// Bind the listening transport on the well-known port.
    BindHostTransport { port: u16, max_peers: u8 },
    /// Bind a connecting transport towards a remote host.
    ConnectTransport { address: String, port: u16 },
    /// Send a registration message, the sender's id and display name, to
    /// one peer only.
    SendRegisterTo { target: u64, id: u64, name: String },
    /// Run the world-build operation locally.
    BuildWorld,
    /// Broadcast the parameterless world-build operation to the other peers.
    BroadcastBuildWorld,
    /// Have the lobby collaborator re-render the peer list.
    RefreshLobby,
    /// Have the lobby collaborator switch to the players panel.
    ShowPlayersLobby,
    /// Hide the lobby: the round is on.
    HideLobby,
    /// Show the lobby again with a fatal session error.
    ShowError { message: String },
    /// Show the lobby again after a finished round.
    ShowGameEnded,
    /// Drop the transport peer.
    ClearTransport,
}

/// `a` is the directed registration message carrying `id` and `name` to
/// `target` only.
pub open spec fn is_register_to(a: SessionAction, target: u64, id: u64, name: Seq<char>) -> bool {
    &&& a matches SessionAction::SendRegisterTo { target: t, id: i, name: n }
    &&& t == target
    &&& i == id
    &&& n@ == name
}

/// `a` shows the lobby with the fatal error `message`.
pub open spec fn is_show_error(a: SessionAction, message: Seq<char>) -> bool {
    &&& a matches SessionAction::ShowError { message: m }
    &&& m@ == message
}

/// `a` binds the listening transport with the fixed port and peer limit.
pub open spec fn is_bind_host(a: SessionAction) -> bool {
    &&& a matches SessionAction::BindHostTransport { port, max_peers }
    &&& port == DEFAULT_PORT
    &&& max_peers == MAX_PEERS
}

/// `a` binds a connecting transport towards `address` on the fixed port.
pub open spec fn is_connect_to(a: SessionAction, address: Seq<char>) -> bool {
    &&& a matches SessionAction::ConnectTransport { address: ad, port }
    &&& ad@ == address
    &&& port == DEFAULT_PORT
}

/// One peer's session component.
pub struct GameState {
    role: Role,
    my_id: u64,
    my_name: String,
    registry: PeerRegistry,
    lobby_visible: bool,
}

impl GameState {
    pub closed spec fn role(self) -> Role {
        self.role
    }

    /// This peer's transport-assigned id (the host's is `HOST_ID`).
    pub closed spec fn my_id(self) -> u64 {
        self.my_id
    }

    /// This peer's own display name.
    pub closed spec fn my_name(self) -> Seq<char> {
        self.my_name@
    }

    /// The peer registry, in announcement order.
    pub closed spec fn reg(self) -> RegistryModel {
        self.registry@
    }

    /// Whether the lobby UI is shown (it is hidden while a round runs).
    pub closed spec fn lobby_visible(self) -> bool {
        self.lobby_visible
    }

    /// Ids unique; the host is peer `HOST_ID`; no peers are registered
    /// before a transport is established.
    pub closed spec fn wf(self) -> bool {
        &&& entries_wf(self.registry@)
        &&& (self.role == Role::Hosting ==> self.my_id == HOST_ID)
        &&& ((self.role == Role::Disconnected || self.role == Role::Connecting)
            ==> self.registry@.len() == 0)
    }

    /// A fresh session: disconnected, empty registry, lobby shown, the
    /// default display name.
    pub fn new() -> (s: GameState)
        ensures
            s.wf(),
            s.role() == Role::Disconnected,
            s.reg().len() == 0,
            s.lobby_visible(),
            s.my_name() == "The Warrior"@,
    {
        GameState {
            role: Role::Disconnected,
            my_id: 0,
            my_name: "The Warrior".to_owned(),
            registry: PeerRegistry::new(),
            lobby_visible: true,
        }
    }

    pub fn get_role(&self) -> (r: Role)
        ensures
            r == self.role(),
    {
        self.role
    }

    pub fn get_my_id(&self) -> (r: u64)
        ensures
            r == self.my_id(),
    {
        self.my_id
    }

    pub fn get_lobby_visible(&self) -> (r: bool)
        ensures
            r == self.lobby_visible(),
    {
        self.lobby_visible
    }

    /// Read access to the registry, for the lobby display.
    pub fn registry_ref(&self) -> (r: &PeerRegistry)
        ensures
            r@ == self.reg(),
    {
        &self.registry
    }

    /// Become the authoritative host: bind the listening transport, record
    /// the display name, self-register as peer `HOST_ID`.
    pub fn host_game(&mut self, player_name: String) -> (acts: Vec<SessionAction>)
        requires
            old(self).wf(),
            old(self).role() == Role::Disconnected,
        ensures
            final(self).wf(),
            final(self).role() == Role::Hosting,
            final(self).my_id() == HOST_ID,
            final(self).my_name() == player_name@,
            final(self).lobby_visible() == old(self).lobby_visible(),
            final(self).reg().len() == 1,
            final(self).reg()[0] == (HOST_ID, player_name@),
            acts@.len() == 3,
            is_bind_host(acts@[0]),
            acts@[1] is ShowPlayersLobby,
            acts@[2] is RefreshLobby,
    {
        self.role = Role::Hosting;
        self.my_id = HOST_ID;
        self.my_name = player_name.clone();
        let mut acts: Vec<SessionAction> = Vec::new();
        acts.push(SessionAction::BindHostTransport { port: DEFAULT_PORT, max_peers: MAX_PEERS });
        acts.push(SessionAction::ShowPlayersLobby);
        self.registry.insert(HOST_ID, player_name);
        acts.push(SessionAction::RefreshLobby);
        acts
    }

    /// Bind a connecting transport towards a remote host and record the
    /// display name; registration happens once the connection succeeds.
    pub fn join_game(&mut self, address: String, player_name: String) -> (acts: Vec<
        SessionAction,
    >)
        requires
            old(self).wf(),
            old(self).role() == Role::Disconnected,
        ensures
            final(self).wf(),
            final(self).role() == Role::Connecting,
            final(self).my_name() == player_name@,
            final(self).lobby_visible() == old(self).lobby_visible(),
            final(self).reg().len() == 0,
            acts@.len() == 1,
            is_connect_to(acts@[0], address@),
    {
        self.role = Role::Connecting;
        self.my_name = player_name;
        let mut acts: Vec<SessionAction> = Vec::new();
        acts.push(SessionAction::ConnectTransport { address, port: DEFAULT_PORT });
        acts
    }

    /// Client-only: the connection to the host succeeded and the transport
    /// assigned this peer its id. Self-register locally; every other peer
    /// learns of us through its own attach notification.
    pub fn connected_ok(&mut self, assigned_id: u64) -> (acts: Vec<SessionAction>)
        requires
            old(self).wf(),
            old(self).role() == Role::Connecting,
        ensures
            final(self).wf(),
            final(self).role() == Role::Connected,
            final(self).my_id() == assigned_id,
            final(self).my_name() == old(self).my_name(),
            final(self).lobby_visible() == old(self).lobby_visible(),
            final(self).reg().len() == 1,
            final(self).reg()[0] == (assigned_id, old(self).my_name()),
            acts@.len() == 2,
            acts@[0] is ShowPlayersLobby,
            acts@[1] is RefreshLobby,
    {
        self.role = Role::Connected;
        self.my_id = assigned_id;
        let mut acts: Vec<SessionAction> = Vec::new();
        acts.push(SessionAction::ShowPlayersLobby);
        self.registry.insert(assigned_id, self.my_name.clone());
        acts.push(SessionAction::RefreshLobby);
        acts
    }

    /// Transport notification: a new peer attached. The observing peer
    /// announces itself to the newcomer only, with a registration message
    /// directed at that peer id; nothing is sent the other way around.
    pub fn player_connected(&self, id: u64) -> (acts: Vec<SessionAction>)
        requires
            self.role() == Role::Hosting || self.role() == Role::Connected,
        ensures
            acts@.len() == 1,
            is_register_to(acts@[0], id, self.my_id(), self.my_name()),
    {
        let mut acts: Vec<SessionAction> = Vec::new();
        acts.push(
            SessionAction::SendRegisterTo {
                target: id,
                id: self.my_id,
                name: self.my_name.clone(),
            },
        );
        acts
    }

    /// The replicated registration operation, executable by any peer:
    /// record `name` for `id` and refresh the lobby list.
    pub fn register_player(&mut self, id: u64, name: String) -> (acts: Vec<SessionAction>)
        requires
            old(self).wf(),
            old(self).role() == Role::Hosting || old(self).role() == Role::Connected,
        ensures
            final(self).wf(),
            final(self).role() == old(self).role(),
            final(self).my_id() == old(self).my_id(),
            final(self).my_name() == old(self).my_name(),
            final(self).lobby_visible() == old(self).lobby_visible(),
            has_peer(final(self).reg(), id),
            has_peer(old(self).reg(), id) ==> final(self).reg() == old(self).reg().update(
                peer_index(old(self).reg(), id),
                (id, name@),
            ),
            !has_peer(old(self).reg(), id) ==> final(self).reg() == old(self).reg().push(
                (id, name@),
            ),
            acts@.len() == 1,
            acts@[0] is RefreshLobby,
    {
        self.registry.insert(id, name);
        let mut acts: Vec<SessionAction> = Vec::new();
        acts.push(SessionAction::RefreshLobby);
        acts
    }

    /// Drop `id` from the registry and refresh the lobby list.
    pub fn unregister_player(&mut self, id: u64) -> (acts: Vec<SessionAction>)
        requires
            old(self).wf(),
        ensures
            final(self).wf(),
            final(self).role() == old(self).role(),
            final(self).my_id() == old(self).my_id(),
            final(self).my_name() == old(self).my_name(),
            final(self).lobby_visible() == old(self).lobby_visible(),
            !has_peer(final(self).reg(), id),
            has_peer(old(self).reg(), id) ==> final(self).reg() == old(self).reg().remove(
                peer_index(old(self).reg(), id),
            ),
            !has_peer(old(self).reg(), id) ==> final(self).reg() == old(self).reg(),
            acts@.len() == 1,
            acts@[0] is RefreshLobby,
    {
        proof {
            if self.registry@.len() == 0 {
                assert(!has_peer(self.registry@, id));
            }
        }
        self.registry.erase(id);
        let mut acts: Vec<SessionAction> = Vec::new();
        acts.push(SessionAction::RefreshLobby);
        acts
    }

    /// Fatal session error: drop the transport, clear the registry and
    /// return to the pre-connection lobby showing `message`.
    fn game_error(&mut self, message: String) -> (acts: Vec<SessionAction>)
        ensures
            final(self).wf(),
            final(self).role() == Role::Disconnected,
            final(self).reg().len() == 0,
            final(self).lobby_visible(),
            final(self).my_id() == old(self).my_id(),
            final(self).my_name() == old(self).my_name(),
            acts@.len() == 2,
            acts@[0] is ClearTransport,
            is_show_error(acts@[1], message@),
    {
        self.role = Role::Disconnected;
        self.registry.clear();
        self.lobby_visible = true;
        let mut acts: Vec<SessionAction> = Vec::new();
        acts.push(SessionAction::ClearTransport);
        acts.push(SessionAction::ShowError { message });
        acts
    }

    /// Transport notification: peer `id` detached. If the lobby is hidden a
    /// round is in progress, so this is a fatal round-ending error; either
    /// way `id` is no longer registered afterwards.
    pub fn player_disconnected(&mut self, id: u64) -> (acts: Vec<SessionAction>)
        requires
            old(self).wf(),
        ensures
            final(self).wf(),
            final(self).my_id() == old(self).my_id(),
            final(self).my_name() == old(self).my_name(),
            !has_peer(final(self).reg(), id),
            final(self).lobby_visible(),
            old(self).lobby_visible() ==> {
                &&& final(self).role() == old(self).role()
                &&& (has_peer(old(self).reg(), id) ==> final(self).reg() == old(
                    self,
                ).reg().remove(peer_index(old(self).reg(), id)))
                &&& (!has_peer(old(self).reg(), id) ==> final(self).reg() == old(self).reg())
                &&& acts@.len() == 1
                &&& acts@[0] is RefreshLobby
            },
            !old(self).lobby_visible() ==> {
                &&& final(self).role() == Role::Disconnected
                &&& final(self).reg().len() == 0
                &&& acts@.len() == 3
                &&& acts@[0] is ClearTransport
                &&& is_show_error(acts@[1], "Player disconnected"@)
                &&& acts@[2] is RefreshLobby
            },
    {
        if !self.lobby_visible {
            let mut acts = self.game_error("Player disconnected".to_owned());
            self.registry.erase(id);
            acts.push(SessionAction::RefreshLobby);
            acts
        } else {
            self.registry.erase(id);
            let mut acts: Vec<SessionAction> = Vec::new();
            acts.push(SessionAction::RefreshLobby);
            acts
        }
    }

    /// Client-only: the host dropped the connection. Fatal.
    pub fn server_disconnected(&mut self) -> (acts: Vec<SessionAction>)
        requires
            old(self).wf(),
        ensures
            final(self).wf(),
            final(self).role() == Role::Disconnected,
            final(self).reg().len() == 0,
            final(self).lobby_visible(),
            acts@.len() == 2,
            acts@[0] is ClearTransport,
            is_show_error(acts@[1], "Server disconnected"@),
    {
        self.game_error("Server disconnected".to_owned())
    }

    /// Client-only: the connection attempt failed. Fatal.
    pub fn connected_fail(&mut self) -> (acts: Vec<SessionAction>)
        requires
            old(self).wf(),
        ensures
            final(self).wf(),
            final(self).role() == Role::Disconnected,
            final(self).reg().len() == 0,
            final(self).lobby_visible(),
            acts@.len() == 2,
            acts@[0] is ClearTransport,
            is_show_error(acts@[1], "User connected to the server failure"@),
    {
        self.game_error("User connected to the server failure".to_owned())
    }

    /// Start the round: only the host builds and broadcasts the world.
    /// On any other peer the request does nothing.
    pub fn start_game(&self) -> (acts: Vec<SessionAction>)
        ensures
            self.role() == Role::Hosting ==> acts@.len() == 2 && acts@[0] is BuildWorld
                && acts@[1] is BroadcastBuildWorld,
            self.role() != Role::Hosting ==> acts@.len() == 0,
    {
        let mut acts: Vec<SessionAction> = Vec::new();
        if matches!(self.role, Role::Hosting) {
            acts.push(SessionAction::BuildWorld);
            acts.push(SessionAction::BroadcastBuildWorld);
        }
        acts
    }

    /// The replicated world-build operation, run once per round on every
    /// peer: one entity per registry entry, owned by its entry's peer, the
    /// local peer's own entity placed at a random spawn point; one fresh
    /// score row per entry; then the lobby hides.
    pub fn create_world(
        &mut self,
        score: &mut Score,
        spawn_points: &Vec<Pos>,
        rng: &mut rand::rngs::ThreadRng,
    ) -> (r: (Vec<WorldEntity>, Vec<SessionAction>))
        requires
            old(self).wf(),
            old(self).role() == Role::Hosting || old(self).role() == Role::Connected,
            old(score)@.len() == 0,
            spawn_points@.len() == SPAWN_POINT_COUNT,
        ensures
            final(self).wf(),
            final(self).role() == old(self).role(),
            final(self).my_id() == old(self).my_id(),
            final(self).my_name() == old(self).my_name(),
            final(self).reg() == old(self).reg(),
            !final(self).lobby_visible(),
            exists|si: int|
                0 <= si < spawn_points@.len() && world_built_from(
                    r.0@,
                    old(self).reg(),
                    old(self).my_id(),
                    #[trigger] spawn_points@[si],
                ),
            rows_wf(final(score)@),
            final(score)@.len() == old(self).reg().len(),
            forall|i: int|
                0 <= i < final(score)@.len() ==> {
                    &&& (#[trigger] final(score)@[i]).0 == old(self).reg()[i].0
                    &&& final(score)@[i].1 == old(self).reg()[i].1
                    &&& final(score)@[i].2 == 0
                },
            final(score).last_rocks() == old(score).last_rocks(),
            r.1@.len() == 1,
            r.1@[0] is HideLobby,
    {
        let w = build_world_random(&self.registry, self.my_id, spawn_points, rng);
        let n = self.registry.len();
        let mut k: usize = 0;
        while k < n
            invariant
                n == self.registry@.len(),
                k <= n,
                entries_wf(self.registry@),
                rows_wf(score@),
                score@.len() == k,
                score.last_rocks() == old(score).last_rocks(),
                forall|i: int|
                    0 <= i < k ==> {
                        &&& (#[trigger] score@[i]).0 == self.registry@[i].0
                        &&& score@[i].1 == self.registry@[i].1
                        &&& score@[i].2 == 0
                    },
            decreases n - k,
        {
            let id = self.registry.id_at(k);
            let name = self.registry.name_at(k).clone();
            proof {
                if has_row(score@, id) {
                    let j = choose|j: int| 0 <= j < score@.len() && #[trigger] score@[j].0 == id;
                    assert(self.registry@[j].0 == id);
                    assert(self.registry@[j].0 != self.registry@[k as int].0);
                    assert(false);
                }
            }
            score.add_player(id, name);
            k += 1;
        }
        self.lobby_visible = false;
        let mut acts: Vec<SessionAction> = Vec::new();
        acts.push(SessionAction::HideLobby);
        (w, acts)
    }

    /// End the round deliberately: drop the transport, clear the registry,
    /// return to the pre-connection lobby.
    pub fn end_game(&mut self) -> (acts: Vec<SessionAction>)
        requires
            old(self).wf(),
        ensures
            final(self).wf(),
            final(self).role() == Role::Disconnected,
            final(self).reg().len() == 0,
            final(self).lobby_visible(),
            final(self).my_id() == old(self).my_id(),
            final(self).my_name() == old(self).my_name(),
            acts@.len() == 2,
            acts@[0] is ClearTransport,
            acts@[1] is ShowGameEnded,
    {
        self.role = Role::Disconnected;
        self.registry.clear();
        self.lobby_visible = true;
        let mut acts: Vec<SessionAction> = Vec::new();
        acts.push(SessionAction::ClearTransport);
        acts.push(SessionAction::ShowGameEnded);
        acts
    }
}

} // verus!
