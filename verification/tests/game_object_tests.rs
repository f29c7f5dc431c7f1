use rusty_pew_pew::game_object::EntityState;
use rusty_pew_pew::game_object::GameObject;
use rusty_pew_pew::scene::Scene;
use rusty_pew_pew::states::BulletState;
use rusty_pew_pew::states::EnemyState;
use rusty_pew_pew::states::PlayerState;
use rusty_pew_pew::types::IdAllocator;
use rusty_pew_pew::types::ObjectType;
use rusty_pew_pew::types::Position;
use rusty_pew_pew::types::Velocity;

fn player_object(id: usize, x: i32, y: i32) -> GameObject {
    GameObject::new(id, Position::new(x, y), ObjectType::Player, 32, 32)
}

fn enemy_object(id: usize, x: i32, y: i32) -> GameObject {
    GameObject::new(id, Position::new(x, y), ObjectType::Enemy, 32, 32)
}

#[test]
fn test_destroy_is_permanent_and_idempotent() {
    let mut obj = enemy_object(1, 10, 10);
    assert!(!obj.is_destroyed());

    obj.destroy();
    assert!(obj.is_destroyed());

    obj.destroy();
    assert!(obj.is_destroyed());
}

#[test]
fn test_destroy_of_a_stateless_entity_is_a_no_op() {
    let mut obj = GameObject { id: 9, object_type: ObjectType::Unknown, state: None };
    obj.destroy();
    assert!(!obj.is_destroyed());
}

#[test]
fn test_bullet_hits_enemy_and_both_are_destroyed() {
    let mut enemy = enemy_object(1, 100, 100);
    let mut bullet = GameObject::new_bullet(2, Position::new(100, 135), ObjectType::Player, 7);

    let collided = bullet.check_collision(&mut enemy);

    assert!(collided);
    assert!(bullet.is_destroyed());
    assert!(enemy.is_destroyed());
}

#[test]
fn test_bullet_never_damages_its_own_shooter() {
    //given: a bullet overlapping the very player that fired it
    let mut player = player_object(7, 100, 100);
    let mut bullet = GameObject::new_bullet(2, Position::new(100, 135), ObjectType::Player, 7);

    //when
    let collided = bullet.check_collision(&mut player);

    //then: the geometric overlap is reported, but nothing is destroyed
    assert!(collided);
    assert!(!bullet.is_destroyed());
    assert!(!player.is_destroyed());
}

#[test]
fn test_bullets_pass_through_each_other() {
    let mut a = GameObject::new_bullet(1, Position::new(50, 85), ObjectType::Player, 10);
    let mut b = GameObject::new_bullet(2, Position::new(50, 85), ObjectType::Enemy, 11);

    let collided = a.check_collision(&mut b);

    assert!(collided);
    assert!(!a.is_destroyed());
    assert!(!b.is_destroyed());
}

#[test]
fn test_body_contact_destroys_both() {
    //the configured policy: two non-bullets colliding destroy each other
    let mut player = player_object(1, 100, 100);
    let mut enemy = enemy_object(2, 110, 110);

    let collided = player.check_collision(&mut enemy);

    assert!(collided);
    assert!(player.is_destroyed());
    assert!(enemy.is_destroyed());
}

#[test]
fn test_no_collision_without_overlap() {
    let mut player = player_object(1, 0, 0);
    let mut enemy = enemy_object(2, 500, 500);

    let collided = player.check_collision(&mut enemy);

    assert!(collided == false);
    assert!(!player.is_destroyed());
    assert!(!enemy.is_destroyed());
}

#[test]
fn test_new_bullet_from_player_flies_up() {
    let bullet = GameObject::new_bullet(3, Position::new(40, 50), ObjectType::Player, 1);
    assert_eq!(bullet.object_type, ObjectType::Bullet);
    match bullet.state {
        Some(EntityState::Bullet(b)) => {
            assert_eq!(b.position, Position::new(40, 15));
            assert_eq!(b.velocity, Velocity::new(0, -4));
            assert_eq!(b.shooter_type, ObjectType::Player);
            assert_eq!(b.shooter_id, 1);
        }
        _ => panic!(),
    }
}

#[test]
fn test_new_bullet_from_enemy_flies_down() {
    let bullet = GameObject::new_bullet(3, Position::new(40, 50), ObjectType::Enemy, 2);
    match bullet.state {
        Some(EntityState::Bullet(b)) => {
            assert_eq!(b.velocity, Velocity::new(0, 4));
        }
        _ => panic!(),
    }
}

#[test]
fn test_is_fired_by_compares_the_shooter_id() {
    let player = player_object(7, 0, 0);
    let other = player_object(8, 0, 0);
    let bullet = BulletState {
        position: Position::new(0, 0),
        velocity: Velocity::new(0, -4),
        shooter_type: ObjectType::Player,
        shooter_id: 7,
        is_destroyed: false,
    };
    assert!(bullet.is_fired_by(&player));
    assert!(!bullet.is_fired_by(&other));
}

#[test]
fn test_enemy_bullet_constructor() {
    let enemy = EnemyState::new(4, Position::new(30, 40), 32, 32);
    let bullet = BulletState::_enemy_bullet(&enemy);
    assert_eq!(bullet.shooter_type, ObjectType::Enemy);
    assert_eq!(bullet.shooter_id, 4);
    assert_eq!(bullet.position, Position::new(30, 40));
    assert_eq!(bullet.velocity, Velocity::new(0, 8));
    assert!(!bullet.is_destroyed);
}

#[test]
fn test_update_destroys_an_entity_above_the_scene() {
    let scene = Scene::new(1000, 1000, vec![]);
    //an enemy far above the camera: destroyed after its move
    let mut enemy = enemy_object(1, 100, 200);
    let mut spawned: Vec<Option<GameObject>> = Vec::new();
    let mut alloc = IdAllocator::starting_at(10);

    enemy.update(&mut spawned, &scene, &mut alloc, 0);

    assert!(enemy.is_destroyed());
    assert!(spawned.is_empty());
}

#[test]
fn test_player_update_moves_by_the_clamped_velocity() {
    let scene = Scene::new(1000, 1000, vec![]);
    let mut player = PlayerState::new(1, Position::new(400, 31500), 32, 32);
    player.input(&vec![], 0);
    let mut alloc = IdAllocator::starting_at(10);
    let mut obj = GameObject {
        id: 1,
        object_type: ObjectType::Player,
        state: Some(EntityState::Player(player)),
    };
    let mut spawned: Vec<Option<GameObject>> = Vec::new();

    obj.update(&mut spawned, &scene, &mut alloc, 0);

    match obj.state {
        Some(EntityState::Player(p)) => {
            //the idle drift: one pixel up, the x position untouched
            assert_eq!(p.position, Position::new(400, 31499));
            assert_eq!(p.frame, 1);
        }
        _ => panic!(),
    }
    assert!(spawned.is_empty());
}
