use arena_core::player::{setup_bomb, Anim, InputState, NetUpdate, Player};
use arena_core::rock::Rock;
use arena_core::rpc::DeliveryPolicy;
use arena_core::world::{EntityName, Pos};
use arena_core::HOST_ID;

fn no_input() -> InputState {
    InputState { left: false, right: false, up: false, down: false, place_bomb: false }
}

fn at(x: i64, y: i64) -> Pos {
    Pos { x, y }
}

/// The decision table: vertical motion beats horizontal, idle comes last.
#[test]
fn animation_priorities() {
    let mut p = Player::new(7, at(0, 0));
    let fx = p.tick(true, InputState { up: true, right: true, ..no_input() }, at(0, 0));
    assert_eq!(fx.motion_x, 1);
    assert_eq!(fx.motion_y, -1);
    assert_eq!(fx.play_anim, Some(Anim::WalkUp));

    let fx = p.tick(true, InputState { down: true, left: true, ..no_input() }, at(0, 0));
    assert_eq!(fx.play_anim, Some(Anim::WalkDown));

    let fx = p.tick(true, InputState { left: true, ..no_input() }, at(0, 0));
    assert_eq!(fx.play_anim, Some(Anim::WalkLeft));

    let fx = p.tick(true, no_input(), at(0, 0));
    assert_eq!(fx.play_anim, Some(Anim::Standing));
}

/// The animation is only re-played when the tag changes.
#[test]
fn animation_plays_on_change_only() {
    let mut p = Player::new(7, at(0, 0));
    let walk = InputState { right: true, ..no_input() };
    let fx = p.tick(true, walk, at(0, 0));
    assert_eq!(fx.play_anim, Some(Anim::WalkRight));
    let fx = p.tick(true, walk, at(1, 0));
    assert_eq!(fx.play_anim, None);
    let fx = p.tick(true, no_input(), at(2, 0));
    assert_eq!(fx.play_anim, Some(Anim::Standing));
}

/// Every owner tick broadcasts the mirrored position and animation tag; a
/// non-owner tick does nothing at all.
#[test]
fn owner_broadcasts_non_owner_idles() {
    let mut p = Player::new(7, at(0, 0));
    let fx = p.tick(true, InputState { right: true, ..no_input() }, at(5, 6));
    assert_eq!(fx.update, Some(NetUpdate { pos: at(5, 6), anim: Anim::WalkRight }));

    let mut q = Player::new(7, at(0, 0));
    let fx = q.tick(false, InputState { right: true, ..no_input() }, at(5, 6));
    assert_eq!(fx.update, None);
    assert_eq!(fx.play_anim, None);
    assert_eq!(fx.spawn, None);
    assert_eq!((fx.motion_x, fx.motion_y), (0, 0));
    assert_eq!(q.get_pos(), at(0, 0));
}

/// Bombs spawn on the rising edge of the bomb input only, named by the
/// owner and its strictly increasing bomb index.
#[test]
fn bomb_spawns_on_rising_edge() {
    let mut p = Player::new(7, at(0, 0));
    let press = InputState { place_bomb: true, ..no_input() };

    let fx = p.tick(true, press, at(3, 4));
    let sp = fx.spawn.expect("first press spawns");
    assert_eq!(sp.name, EntityName::BombOf(7, 0));
    assert_eq!(sp.pos, at(3, 4));
    assert_eq!(sp.from_player_id, 7);
    assert_eq!(p.get_bomb_index(), 1);

    // Held down: no second spawn.
    let fx = p.tick(true, press, at(3, 4));
    assert!(fx.spawn.is_none());
    assert_eq!(p.get_bomb_index(), 1);

    // Released, then pressed again: the next index.
    p.tick(true, no_input(), at(3, 4));
    let fx = p.tick(true, press, at(8, 9));
    assert_eq!(fx.spawn.unwrap().name, EntityName::BombOf(7, 1));
    assert_eq!(p.get_bomb_index(), 2);
}

/// A stunned player neither moves nor bombs, and shows the stunned tag.
#[test]
fn stun_freezes_the_player() {
    let mut p = Player::new(7, at(0, 0));
    let everything =
        InputState { left: false, right: true, up: true, down: false, place_bomb: true };

    // The owner-restricted hit stuns and asks to broadcast the stun once.
    assert!(p.exploded(true, 3));
    assert!(p.get_stunned());
    assert!(!p.exploded(true, 3));

    let fx = p.tick(true, everything, at(0, 0));
    assert_eq!((fx.motion_x, fx.motion_y), (0, 0));
    assert!(fx.spawn.is_none());
    assert_eq!(fx.play_anim, Some(Anim::Stunned));
    assert_eq!(fx.update, Some(NetUpdate { pos: at(0, 0), anim: Anim::Stunned }));
}

/// The "exploded" hit is owner-restricted; the mirrored stun applies only
/// on non-owning replicas.
#[test]
fn stun_policies() {
    let mut p = Player::new(7, at(0, 0));
    assert!(!p.exploded(false, 3));
    assert!(!p.get_stunned());

    // Mirror-only stun ignored on the owner's copy...
    p.stun(true);
    assert!(!p.get_stunned());
    // ...and applied on a replica.
    p.stun(false);
    assert!(p.get_stunned());
}

/// Mirror-only updates move replicas and never the owner's own copy.
#[test]
fn network_update_applies_to_replicas() {
    let mut replica = Player::new(7, at(0, 0));
    replica.update_network(false, at(11, 12), Anim::WalkLeft);
    assert_eq!(replica.get_pos(), at(11, 12));
    assert_eq!(replica.get_anim(), Some(Anim::WalkLeft));

    let mut own = Player::new(7, at(0, 0));
    own.update_network(true, at(11, 12), Anim::WalkLeft);
    assert_eq!(own.get_pos(), at(0, 0));
    assert_eq!(own.get_anim(), None);
}

/// The replicated bomb-spawn creates the bomb under the shared world, which
/// keeps the world's default authority: the host.
#[test]
fn setup_bomb_defaults_to_host_authority() {
    let mut p = Player::new(7, at(0, 0));
    let press = InputState { place_bomb: true, ..no_input() };
    let sp = p.tick(true, press, at(3, 4)).spawn.unwrap();
    let (bomb, entity) = setup_bomb(&sp);
    assert_eq!(bomb.get_owner_peer(), 7);
    assert_eq!(entity.owner, HOST_ID);
    assert_eq!(entity.name, EntityName::BombOf(7, 0));
    assert_eq!(entity.pos, at(3, 4));
}

/// An exploding rock relays the explosion to its replicas and credits the
/// attacker, only where the executing peer is its authority.
#[test]
fn rock_relays_and_credits() {
    let mut rock = Rock::new();
    let fx = rock.exploded(false, 3);
    assert!(!fx.broadcast_explosion);
    assert_eq!(fx.score_for, None);
    assert!(!rock.get_exploding());

    let fx = rock.exploded(true, 3);
    assert!(fx.broadcast_explosion);
    assert_eq!(fx.score_for, Some(3));
    assert!(rock.get_exploding());

    let mut replica = Rock::new();
    replica.do_explosion(false);
    assert!(replica.get_exploding());
    let mut owner_copy = Rock::new();
    owner_copy.do_explosion(true);
    assert!(!owner_copy.get_exploding());
}

/// The central authority check, policy by policy.
#[test]
fn delivery_policies() {
    assert!(DeliveryPolicy::OwnerOnly.applies(true));
    assert!(!DeliveryPolicy::OwnerOnly.applies(false));
    assert!(DeliveryPolicy::AnyPeer.applies(true));
    assert!(DeliveryPolicy::AnyPeer.applies(false));
    assert!(!DeliveryPolicy::MirrorOnly.applies(true));
    assert!(DeliveryPolicy::MirrorOnly.applies(false));
}
