use arena_core::lobby::{lobby_roster, validate_host_request, validate_join_request, LobbyError};
use arena_core::gamestate::{Role, GameState, SessionAction};
use arena_core::{DEFAULT_PORT, HOST_ID, MAX_PEERS};

/// Host "Alice" starts a transport; client "Bob" joins. After the exchange
/// of registration messages both registries read {1: "Alice", 7: "Bob"},
/// in that insertion order, whichever peer is asked.
#[test]
fn host_and_join_registries_agree() {
    let bob_id: u64 = 7;

    // Alice hosts.
    let mut alice = GameState::new();
    let acts = alice.host_game("Alice".to_string());
    assert_eq!(acts.len(), 3);
    match &acts[0] {
        SessionAction::BindHostTransport { port, max_peers } => {
            assert_eq!(*port, DEFAULT_PORT);
            assert_eq!(*max_peers, MAX_PEERS);
        }
        other => panic!("expected BindHostTransport, got {:?}", other),
    }
    assert!(matches!(acts[1], SessionAction::ShowPlayersLobby));
    assert!(matches!(acts[2], SessionAction::RefreshLobby));
    assert_eq!(alice.get_role(), Role::Hosting);
    assert_eq!(alice.get_my_id(), HOST_ID);

    // Bob binds a connecting transport.
    let mut bob = GameState::new();
    let acts = bob.join_game("198.51.100.4".to_string(), "Bob".to_string());
    assert_eq!(acts.len(), 1);
    match &acts[0] {
        SessionAction::ConnectTransport { address, port } => {
            assert_eq!(address, "198.51.100.4");
            assert_eq!(*port, DEFAULT_PORT);
        }
        other => panic!("expected ConnectTransport, got {:?}", other),
    }
    assert_eq!(bob.get_role(), Role::Connecting);

    // The host observes the new peer attach and announces itself to the
    // newcomer only -- not the other way around.
    let acts = alice.player_connected(bob_id);
    assert_eq!(acts.len(), 1);
    let (target, id, name) = match &acts[0] {
        SessionAction::SendRegisterTo { target, id, name } => (*target, *id, name.clone()),
        other => panic!("expected SendRegisterTo, got {:?}", other),
    };
    assert_eq!(target, bob_id);
    assert_eq!(id, HOST_ID);
    assert_eq!(name, "Alice");

    // That registration reaches Bob before his own connection callback.
    bob.register_player(id, name);

    // Bob's connection is established; he self-registers locally...
    let acts = bob.connected_ok(bob_id);
    assert!(matches!(acts[0], SessionAction::ShowPlayersLobby));

    // ...and his own attach notification for the host peer makes him
    // announce himself to the host.
    let acts = bob.player_connected(HOST_ID);
    let (target, id, name) = match &acts[0] {
        SessionAction::SendRegisterTo { target, id, name } => (*target, *id, name.clone()),
        other => panic!("expected SendRegisterTo, got {:?}", other),
    };
    assert_eq!(target, HOST_ID);
    assert_eq!(id, bob_id);
    assert_eq!(name, "Bob");
    alice.register_player(id, name);

    // Both peers hold {1: "Alice", 7: "Bob"}, in that insertion order.
    for session in [&alice, &bob] {
        let reg = session.registry_ref();
        assert_eq!(reg.len(), 2);
        assert_eq!(reg.id_at(0), HOST_ID);
        assert_eq!(reg.name_at(0), "Alice");
        assert_eq!(reg.id_at(1), bob_id);
        assert_eq!(reg.name_at(1), "Bob");
    }

    // The lobby list marks each peer's own line.
    let lines = lobby_roster(alice.registry_ref(), alice.get_my_id());
    assert_eq!(lines.len(), 2);
    assert_eq!(lines[0].name, "Alice");
    assert!(lines[0].is_you);
    assert_eq!(lines[1].name, "Bob");
    assert!(!lines[1].is_you);
    let lines = lobby_roster(bob.registry_ref(), bob.get_my_id());
    assert!(!lines[0].is_you);
    assert!(lines[1].is_you);
}

/// A peer disconnecting while the lobby is hidden (a round in progress) is
/// fatal: the session drops the transport, clears the registry and shows
/// the lobby again with the disconnect message.
#[test]
fn mid_round_disconnect_is_fatal() {
    let mut host = GameState::new();
    host.host_game("Alice".to_string());
    host.register_player(5, "Eve".to_string());
    assert_eq!(host.registry_ref().len(), 2);

    let mut score = arena_core::score::Score::new();
    let spawn_points = twelve_spawn_points();
    let mut rng = arena_core::world::new_rng();
    let (_world, acts) = host.create_world(&mut score, &spawn_points, &mut rng);
    assert_eq!(acts.len(), 1);
    assert!(matches!(acts[0], SessionAction::HideLobby));
    assert!(!host.get_lobby_visible());

    let acts = host.player_disconnected(5);
    assert_eq!(acts.len(), 3);
    assert!(matches!(acts[0], SessionAction::ClearTransport));
    match &acts[1] {
        SessionAction::ShowError { message } => assert_eq!(message, "Player disconnected"),
        other => panic!("expected ShowError, got {:?}", other),
    }
    assert!(matches!(acts[2], SessionAction::RefreshLobby));
    assert_eq!(host.get_role(), Role::Disconnected);
    assert!(host.get_lobby_visible());
    assert_eq!(host.registry_ref().len(), 0);
    assert!(!host.registry_ref().contains(5));
}

/// A disconnect while the lobby is still shown only unregisters the peer.
#[test]
fn lobby_disconnect_only_unregisters() {
    let mut host = GameState::new();
    host.host_game("Alice".to_string());
    host.register_player(5, "Eve".to_string());
    host.register_player(9, "Mallory".to_string());

    let acts = host.player_disconnected(5);
    assert_eq!(acts.len(), 1);
    assert!(matches!(acts[0], SessionAction::RefreshLobby));
    assert_eq!(host.get_role(), Role::Hosting);
    let reg = host.registry_ref();
    assert_eq!(reg.len(), 2);
    assert_eq!(reg.id_at(0), HOST_ID);
    assert_eq!(reg.id_at(1), 9);
}

/// Re-announcing an id replaces the name in place, keeping the order.
#[test]
fn reregistration_keeps_position() {
    let mut host = GameState::new();
    host.host_game("Alice".to_string());
    host.register_player(5, "Eve".to_string());
    host.register_player(9, "Mallory".to_string());
    host.register_player(5, "Eve II".to_string());
    let reg = host.registry_ref();
    assert_eq!(reg.len(), 3);
    assert_eq!(reg.id_at(1), 5);
    assert_eq!(reg.name_at(1), "Eve II");
    assert_eq!(reg.id_at(2), 9);
}

/// Only the host starts the round: it builds the world locally and
/// broadcasts the build to every peer.
#[test]
fn only_host_starts_round() {
    let mut host = GameState::new();
    host.host_game("Alice".to_string());
    let acts = host.start_game();
    assert_eq!(acts.len(), 2);
    assert!(matches!(acts[0], SessionAction::BuildWorld));
    assert!(matches!(acts[1], SessionAction::BroadcastBuildWorld));

    let client = GameState::new();
    assert_eq!(client.start_game().len(), 0);
}

/// A failed connection attempt and a server-initiated disconnect are both
/// fatal session errors with their own messages.
#[test]
fn client_failure_paths() {
    let mut bob = GameState::new();
    bob.join_game("198.51.100.4".to_string(), "Bob".to_string());
    let acts = bob.connected_fail();
    assert!(matches!(acts[0], SessionAction::ClearTransport));
    match &acts[1] {
        SessionAction::ShowError { message } => {
            assert_eq!(message, "User connected to the server failure")
        }
        other => panic!("expected ShowError, got {:?}", other),
    }
    assert_eq!(bob.get_role(), Role::Disconnected);

    let mut bob = GameState::new();
    bob.join_game("198.51.100.4".to_string(), "Bob".to_string());
    bob.connected_ok(7);
    let acts = bob.server_disconnected();
    match &acts[1] {
        SessionAction::ShowError { message } => assert_eq!(message, "Server disconnected"),
        other => panic!("expected ShowError, got {:?}", other),
    }
    assert_eq!(bob.registry_ref().len(), 0);
}

/// Ending the game returns to the pre-connection lobby.
#[test]
fn end_game_returns_to_lobby() {
    let mut host = GameState::new();
    host.host_game("Alice".to_string());
    let acts = host.end_game();
    assert_eq!(acts.len(), 2);
    assert!(matches!(acts[0], SessionAction::ClearTransport));
    assert!(matches!(acts[1], SessionAction::ShowGameEnded));
    assert_eq!(host.get_role(), Role::Disconnected);
    assert_eq!(host.registry_ref().len(), 0);
    assert!(host.get_lobby_visible());
}

/// The lobby gates: empty names and bad addresses are rejected with their
/// error labels.
#[test]
fn lobby_validation() {
    assert_eq!(validate_host_request(""), Err(LobbyError::EmptyName));
    assert_eq!(validate_host_request("Alice"), Ok(()));
    assert_eq!(validate_join_request("", true), Err(LobbyError::EmptyName));
    assert_eq!(validate_join_request("Bob", false), Err(LobbyError::InvalidAddress));
    assert_eq!(validate_join_request("", false), Err(LobbyError::EmptyName));
    assert_eq!(validate_join_request("Bob", true), Ok(()));
    assert_eq!(LobbyError::EmptyName.message(), "Invalid name!");
    assert_eq!(LobbyError::InvalidAddress.message(), "Invalid IP address!");
}

fn twelve_spawn_points() -> Vec<arena_core::world::Pos> {
    let mut pts = Vec::new();
    for k in 0..12i64 {
        pts.push(arena_core::world::Pos { x: 16 * (k % 4) + 8, y: 16 * (k / 4) + 8 });
    }
    pts
}
