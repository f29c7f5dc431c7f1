use rusty_pew_pew::map_file::end_element;
use rusty_pew_pew::map_file::start_element;
use rusty_pew_pew::map_file::XmlReadingState;
use rusty_pew_pew::scene::Scene;
use rusty_pew_pew::states::EnemyState;
use rusty_pew_pew::states::BulletState;
use rusty_pew_pew::states::PlayerState;
use rusty_pew_pew::textures::TextureWrapper;
use rusty_pew_pew::types::IdAllocator;
use rusty_pew_pew::types::InputState;
use rusty_pew_pew::types::ObjectType;
use rusty_pew_pew::types::Position;
use rusty_pew_pew::types::Velocity;

#[test]
fn test_player_input_sums_direction_intents() {
    let mut player = PlayerState::new(1, Position::new(100, 100), 32, 32);
    player.input(&vec![InputState::Up, InputState::Left], 0);
    //the base drift (0, -1) plus up (0, -2) plus left (-2, 0)
    assert_eq!(player.velocity, Velocity::new(-2, -3));

    player.input(&vec![InputState::Down, InputState::Down, InputState::Right], 0);
    assert_eq!(player.velocity, Velocity::new(2, 3));

    player.input(&vec![], 0);
    assert_eq!(player.velocity, Velocity::new(0, -1));
}

#[test]
fn test_player_shoots_only_after_the_cooldown() {
    let mut player = PlayerState::new(1, Position::new(100, 100), 32, 32);

    //too early: the initial shot time is 0 and the delay is 200 ms
    player.input(&vec![InputState::Shoot], 150);
    assert!(!player.is_shooting);

    player.input(&vec![InputState::Shoot], 200);
    assert!(player.is_shooting);
}

#[test]
fn test_player_update_spends_the_shot_and_spawns_a_bullet() {
    let scene = Scene::new(1000, 1000, vec![]);
    let mut player = PlayerState::new(5, Position::new(400, 31500), 32, 32);
    player.input(&vec![InputState::Shoot], 1_000);
    assert!(player.is_shooting);
    let mut alloc = IdAllocator::starting_at(42);

    let spawned = player.update(&scene, &mut alloc, 1_000).unwrap();

    assert!(!player.is_shooting);
    assert_eq!(player.last_shot_millis, 1_000);
    assert_eq!(spawned.id, 42);
    assert_eq!(spawned.object_type, ObjectType::Bullet);
    assert_eq!(alloc.counter, 43);

    //and no second bullet before the cooldown elapses again
    player.input(&vec![InputState::Shoot], 1_100);
    assert!(!player.is_shooting);
    assert!(player.update(&scene, &mut alloc, 1_100).is_none());
}

#[test]
fn test_player_is_clamped_at_the_left_edge() {
    let scene = Scene::new(1000, 1000, vec![]);
    let mut player = PlayerState::new(1, Position::new(1, 31500), 32, 32);
    player.input(&vec![InputState::Left], 0);
    assert_eq!(player.velocity, Velocity::new(-2, -1));

    player.update(&scene, &mut alloc_any(), 0);

    //the move would cross x = 0, so the horizontal component is zeroed
    assert_eq!(player.position, Position::new(1, 31499));
}

fn alloc_any() -> IdAllocator {
    IdAllocator::new()
}

#[test]
fn test_enemy_patrol_reverses_at_the_edges() {
    let mut enemy = EnemyState::new(1, Position::new(0, 31500), 32, 32);
    assert_eq!(enemy.velocity, Velocity::new(1, -1));

    enemy.update();
    assert_eq!(enemy.position, Position::new(1, 31499));
    assert_eq!(enemy.velocity, Velocity::new(1, -1));

    //exactly at the right edge: 768 + 32 == 800
    let mut at_right = EnemyState::new(2, Position::new(768, 31500), 32, 32);
    at_right.update();
    assert_eq!(at_right.velocity, Velocity::new(-1, -1));
    assert_eq!(at_right.position, Position::new(767, 31499));
}

#[test]
fn test_bullet_update_adds_the_velocity() {
    let mut bullet = BulletState {
        position: Position::new(10, 100),
        velocity: Velocity::new(0, -4),
        shooter_type: ObjectType::Player,
        shooter_id: 1,
        is_destroyed: false,
    };
    assert!(bullet.update().is_none());
    assert_eq!(bullet.position, Position::new(10, 96));
}

#[test]
fn test_texture_wrapper_src_rect() {
    let wrapper = TextureWrapper::new(String::from("tiles"), 32, 32, 1, 3);
    let rect = wrapper.src_rect(2);
    //frame 2 of 32-wide frames with 1 pixel padding: x = 2 * 33 + 1
    assert_eq!(rect.x, 67);
    assert_eq!(rect.y, 1);
    assert_eq!(rect.width, 32);
    assert_eq!(rect.height, 32);
}

#[test]
fn test_map_reading_states_follow_the_document() {
    let mut state = XmlReadingState::Root;
    state = start_element(state, "MAP");
    assert_eq!(state, XmlReadingState::InMap);
    state = start_element(state, "layer");
    assert_eq!(state, XmlReadingState::InMapLayer);
    state = start_element(state, "data");
    assert_eq!(state, XmlReadingState::InMapLayerData);
    state = end_element(state, "data");
    assert_eq!(state, XmlReadingState::InMapLayer);
    state = end_element(state, "layer");
    assert_eq!(state, XmlReadingState::InMap);
    state = start_element(state, "objectgroup");
    assert_eq!(state, XmlReadingState::InMapObjectgroup);
    state = start_element(state, "object");
    assert_eq!(state, XmlReadingState::InMapObjectgroupObject);
    //property elements keep the reader inside the object
    state = start_element(state, "properties");
    assert_eq!(state, XmlReadingState::InMapObjectgroupObject);
    state = end_element(state, "properties");
    assert_eq!(state, XmlReadingState::InMapObjectgroupObject);
    state = end_element(state, "object");
    assert_eq!(state, XmlReadingState::InMapObjectgroup);
    state = end_element(state, "objectgroup");
    assert_eq!(state, XmlReadingState::InMap);
    state = end_element(state, "map");
    assert_eq!(state, XmlReadingState::Root);
    //an element that means nothing here leaves the state alone
    assert_eq!(start_element(state, "bogus"), XmlReadingState::Root);
}
