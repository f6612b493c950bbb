use arena_core::bomb::{Body, BodyKind};
use arena_core::player::{setup_bomb, InputState, Player};
use arena_core::rock::Rock;
use arena_core::score::Score;
use arena_core::gamestate::GameState;
use arena_core::world::{new_rng, EntityName, Pos};
use arena_core::HOST_ID;

/// One whole round on the host's copy of the world: build it for two
/// registered peers, let the client's player place a bomb, explode it over
/// the last rock, credit the attacker, and detect the win when the rock
/// count reaches zero.
#[test]
fn full_round_on_the_host() {
    let bob_id: u64 = 7;

    let mut host = GameState::new();
    host.host_game("Alice".to_string());
    host.register_player(bob_id, "Bob".to_string());

    let mut score = Score::new();
    let mut spawn_points = Vec::new();
    for k in 0..12i64 {
        spawn_points.push(Pos { x: 10 * k, y: 20 * k });
    }
    let mut rng = new_rng();
    let (world, _acts) = host.create_world(&mut score, &spawn_points, &mut rng);

    assert_eq!(world.len(), 2);
    assert_eq!(world[0].owner, HOST_ID);
    assert_eq!(world[1].owner, bob_id);
    assert_eq!(score.len(), 2);

    // Bob's player (on Bob's peer this copy would be the owner; here we
    // replay his owner tick) places a bomb at his position.
    let mut bob_player = Player::new(bob_id, world[1].pos);
    let press = InputState { left: false, right: false, up: false, down: false, place_bomb: true };
    let fx = bob_player.tick(true, press, world[1].pos);
    let sp = fx.spawn.expect("rising edge places a bomb");
    assert_eq!(sp.name, EntityName::BombOf(bob_id, 0));

    // The replicated spawn creates the bomb on every peer; under the shared
    // world its area's authority defaults to the host.
    let (mut bomb, bomb_entity) = setup_bomb(&sp);
    assert_eq!(bomb_entity.owner, HOST_ID);

    // The last rock and Alice's player overlap the bomb when it goes off.
    let mut rock = Rock::new();
    bomb.body_entered(Body { id: 100, kind: BodyKind::Rock });
    bomb.body_entered(Body { id: 1, kind: BodyKind::Player });

    // The host executes the owner-restricted explode.
    let hits = bomb.explode(true);
    assert_eq!(hits.len(), 2);
    for hit in &hits {
        assert_eq!(hit.attacker, bob_id);
    }

    // The rock's hit: it relays the explosion and credits Bob.
    let fx = rock.exploded(true, hits[0].attacker);
    let credited = fx.score_for.expect("owner-side rock credits the attacker");
    score.increase_score(credited);

    // Alice's player takes the other hit on her own peer.
    let mut alice_player = Player::new(HOST_ID, world[0].pos);
    assert!(alice_player.exploded(true, hits[1].attacker));
    assert!(alice_player.get_stunned());

    // The rock is gone: the next detection tick ends the round, and Bob,
    // holding the only point, wins.
    assert_eq!(score.tick(1), None);
    let winner = score.tick(0).expect("count reached zero");
    assert_eq!(score.id_at(winner), bob_id);
    assert_eq!(score.name_at(winner), "Bob");
    assert_eq!(score.score_at(winner), 1);
    assert_eq!(score.tick(0), None);
}
