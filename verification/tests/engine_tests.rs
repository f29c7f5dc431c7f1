use rusty_pew_pew::engine::Engine;
use rusty_pew_pew::engine::InputHandler;
use rusty_pew_pew::engine::Renderer;
use rusty_pew_pew::game_object::EntityState;
use rusty_pew_pew::game_object::GameObject;
use rusty_pew_pew::scene::Scene;
use rusty_pew_pew::states::PlayerState;
use rusty_pew_pew::types::Id;
use rusty_pew_pew::types::InputState;
use rusty_pew_pew::types::ObjectType;
use rusty_pew_pew::types::Position;

struct MockRenderer {}

struct MockInputHandler {}

impl Renderer for MockRenderer {
    fn clear_scene(&mut self) {
        panic!();
    }

    fn draw_scene(&mut self) {
        panic!();
    }

    fn render(&mut self, _game_objects: &mut Vec<Option<GameObject>>, _scene: &Scene) {
        panic!();
    }

    fn draw_texture(&mut self, _texture_id: &str, _position: Position, _scene: &Scene) {
        panic!();
    }

    fn draw_frame(&mut self, _texture_id: &str, _position: Position, _frame: u8, _scene: &Scene) {
        panic!();
    }

    fn draw_tile(&mut self, _texture_id: &str, _position: Position, _tile_id: u8) {
        panic!();
    }
}

impl InputHandler for MockInputHandler {
    fn capture(&mut self) -> Vec<InputState> {
        panic!();
    }
}

fn create_fake_object(id: Id) -> GameObject {
    GameObject { id, object_type: ObjectType::Unknown, state: None }
}

fn create_fake_scene() -> Scene {
    Scene::new(1000, 1000, vec![])
}

#[test]
fn test_removal_of_empty_list() {
    //given
    let game_objects = vec![];
    let scene = create_fake_scene();
    let mut engine = Engine::new(game_objects, scene, MockRenderer {}, MockInputHandler {});

    //when
    engine.remove_destroyed_objects();

    //then
    assert_eq!(engine.game_objects.len(), 0);
}

#[test]
fn test_removal_of_list_of_none() {
    //given
    let game_objects = vec![None];
    let scene = create_fake_scene();
    let mut engine = Engine::new(game_objects, scene, MockRenderer {}, MockInputHandler {});

    //when
    engine.remove_destroyed_objects();

    //then
    assert_eq!(engine.game_objects[0], None);
}

#[test]
fn test_removal_of_list_of_some_non_removable_objects() {
    //given
    let obj = Some(create_fake_object(1));
    let game_objects = vec![obj];
    let scene = create_fake_scene();
    let mut engine = Engine::new(game_objects, scene, MockRenderer {}, MockInputHandler {});

    //when
    engine.remove_destroyed_objects();

    //then
    assert_eq!(engine.game_objects[0], Some(create_fake_object(1)));
}

#[test]
fn test_removal_of_list_of_some_removable_objects() {
    //given
    let mut player_state = PlayerState::new(1, Position::new(0, 0), 0, 0);
    player_state.is_destroyed = true;

    let obj = Some(GameObject {
        id: 1,
        object_type: ObjectType::Player,
        state: Some(EntityState::Player(player_state)),
    });
    let game_objects = vec![obj];
    let scene = create_fake_scene();
    let mut engine = Engine::new(game_objects, scene, MockRenderer {}, MockInputHandler {});

    //when
    engine.remove_destroyed_objects();

    //then
    assert_eq!(engine.game_objects[0], None);
}

#[test]
fn test_collisions() {
    //given
    let game_objects = vec![
        Some(create_fake_object(1)),
        Some(create_fake_object(2)),
        Some(create_fake_object(3)),
        Some(create_fake_object(4)),
        Some(create_fake_object(5)),
        Some(create_fake_object(6)),
        Some(create_fake_object(7)),
    ];
    let scene = create_fake_scene();
    let mut engine = Engine::new(game_objects, scene, MockRenderer {}, MockInputHandler {});

    //when
    engine.check_collisions();
}

#[test]
fn test_collisions_with_empty_cells() {
    //given
    let game_objects = vec![
        Some(create_fake_object(1)),
        Some(create_fake_object(2)),
        Some(create_fake_object(3)),
        None,
        Some(create_fake_object(4)),
        Some(create_fake_object(5)),
        None,
        Some(create_fake_object(6)),
        None,
        Some(create_fake_object(7)),
    ];
    let scene = create_fake_scene();
    let mut engine = Engine::new(game_objects, scene, MockRenderer {}, MockInputHandler {});

    //when
    engine.check_collisions();
}

#[test]
fn test_updating_objects() {
    //given
    let game_objects = vec![None];
    let new_objects = vec![Some(create_fake_object(1))];
    let scene = create_fake_scene();
    let mut engine = Engine::new(game_objects, scene, MockRenderer {}, MockInputHandler {});

    //when
    engine.add_new_objects(new_objects);

    assert_eq!(engine.game_objects, vec![Some(create_fake_object(1))]);
}

#[test]
fn test_updating_objects_with_expand() {
    //given
    let game_objects = vec![Some(create_fake_object(0))];
    let new_objects = vec![Some(create_fake_object(1)), Some(create_fake_object(2))];
    let scene = create_fake_scene();
    let mut engine = Engine::new(game_objects, scene, MockRenderer {}, MockInputHandler {});

    //when
    engine.add_new_objects(new_objects);

    assert_eq!(
        engine.game_objects,
        vec![
            Some(create_fake_object(0)),
            Some(create_fake_object(1)),
            Some(create_fake_object(2)),
        ]
    );
}

#[test]
fn test_updating_objects_with_none_and_expand() {
    //given
    let game_objects = vec![None, Some(create_fake_object(1))];
    let new_objects = vec![Some(create_fake_object(2)), Some(create_fake_object(3))];
    let scene = create_fake_scene();
    let mut engine = Engine::new(game_objects, scene, MockRenderer {}, MockInputHandler {});

    //when
    engine.add_new_objects(new_objects);

    assert_eq!(
        engine.game_objects,
        vec![
            Some(create_fake_object(2)),
            Some(create_fake_object(1)),
            Some(create_fake_object(3)),
        ]
    );
}

#[test]
fn test_updating_objects_with_none_in_new_objects_and_expand() {
    //given
    let game_objects = vec![None, Some(create_fake_object(1))];

    let new_objects = vec![Some(create_fake_object(2)), None];
    let scene = create_fake_scene();
    let mut engine = Engine::new(game_objects, scene, MockRenderer {}, MockInputHandler {});

    //when
    engine.add_new_objects(new_objects);

    assert_eq!(
        engine.game_objects,
        vec![Some(create_fake_object(2)), Some(create_fake_object(1))]
    );
}

#[test]
fn test_quit_intent_stops_the_engine() {
    let scene = create_fake_scene();
    let mut engine = Engine::new(vec![], scene, MockRenderer {}, MockInputHandler {});
    assert!(engine.is_running);

    engine.handle_input_with(&vec![InputState::Up, InputState::Quit], 0);

    assert!(!engine.is_running);
}

#[test]
fn test_new_engine_allocates_above_pool_ids() {
    let scene = create_fake_scene();
    let game_objects = vec![Some(create_fake_object(7)), None, Some(create_fake_object(3))];
    let engine = Engine::new(game_objects, scene, MockRenderer {}, MockInputHandler {});
    assert_eq!(engine.id_alloc.counter, 8);
}

#[test]
fn test_one_tick_spawns_a_bullet_into_an_empty_slot() {
    //given: a shooting player in slot 1, an empty slot 0 for the bullet
    let mut player = PlayerState::new(5, Position::new(400, 31500), 32, 32);
    player.is_shooting = true;
    let game_objects = vec![
        None,
        Some(GameObject {
            id: 5,
            object_type: ObjectType::Player,
            state: Some(EntityState::Player(player)),
        }),
    ];
    let scene = create_fake_scene();
    let mut engine = Engine::new(game_objects, scene, MockRenderer {}, MockInputHandler {});
    assert!(engine.is_well_formed());

    //when
    engine.update_at(1_000);

    //then: the bullet fills slot 0, 35 pixels above the player, flying up
    assert_eq!(engine.game_objects.len(), 2);
    let bullet = engine.game_objects[0].expect("bullet expected in the empty slot");
    assert_eq!(bullet.id, 6);
    assert_eq!(bullet.object_type, ObjectType::Bullet);
    match bullet.state {
        Some(EntityState::Bullet(b)) => {
            assert_eq!(b.position, Position::new(400, 31465));
            assert_eq!(b.velocity, Position::new(0, -4));
            assert_eq!(b.shooter_id, 5);
            assert!(!b.is_destroyed);
        }
        _ => panic!(),
    }
    //and the player stops shooting, stamps the shot time, and stays put
    assert_eq!(engine.game_objects[1].unwrap().id, 5);
    match engine.game_objects[1].unwrap().state {
        Some(EntityState::Player(p)) => {
            assert!(!p.is_shooting);
            assert_eq!(p.last_shot_millis, 1_000);
            assert_eq!(p.position, Position::new(400, 31500));
        }
        _ => panic!(),
    }
    //and the scene scrolled up one pixel
    assert_eq!(engine.scene.position.y, 31399);
}
