use rusty_pew_pew::engine::Renderer;
use rusty_pew_pew::game_object::GameObject;
use rusty_pew_pew::scene::Level;
use rusty_pew_pew::scene::Scene;
use rusty_pew_pew::types::Position;

struct MockRenderer {
    pub interactions: Vec<String>,
}

impl MockRenderer {
    fn new() -> MockRenderer {
        MockRenderer { interactions: vec![] }
    }
}

impl Renderer for MockRenderer {
    fn clear_scene(&mut self) {
        self.interactions.push(String::from("clear_scene"));
    }

    fn draw_scene(&mut self) {
        self.interactions.push(String::from("draw_scene"));
    }

    fn render(&mut self, _game_objects: &mut Vec<Option<GameObject>>, _scene: &Scene) {
        self.interactions.push(String::from("render"));
    }

    fn draw_texture(&mut self, _texture_id: &str, _position: Position, _scene: &Scene) {
        self.interactions.push(String::from("draw_texture"));
    }

    fn draw_frame(&mut self, _texture_id: &str, _position: Position, _frame: u8, _scene: &Scene) {
        self.interactions.push(String::from("draw_frame"));
    }

    fn draw_tile(&mut self, _texture_id: &str, _position: Position, _tile_id: u8) {
        self.interactions.push(String::from("draw_tile"));
    }
}

#[test]
fn test_one_tick_of_update_if_not_allowed() {
    //given
    let mut scene = Level { position: Position::new(0, 0), width: 0, height: 0, tiles: Vec::new() };

    //when
    scene.update();

    //then
    assert_eq!(scene.position, Position::new(0, 0))
}

#[test]
fn test_one_tick_of_update() {
    //given
    let mut scene = Level {
        position: Position::new(0, 10),
        width: 0,
        height: 0,
        tiles: Vec::new(),
    };

    //when
    scene.update();

    //then
    assert_eq!(scene.position, Position::new(0, 9))
}

#[test]
fn test_draw() {
    //given
    let mut renderer = MockRenderer::new();
    let mut tiles = vec![0; 100];
    tiles[0] = 1;
    tiles[10] = 1;
    tiles[30] = 2;
    tiles[40] = 3;
    tiles[50] = 4;
    tiles[60] = 5;

    let scene = Level { position: Position::new(0, 0), width: 10, height: 10, tiles };

    //when
    scene.draw(&mut renderer);

    //then
    assert_eq!(renderer.interactions.len(), 6);
}

#[test]
fn test_scene_starts_at_the_bottom_of_the_map() {
    let scene = Scene::new(20, 60, vec![3; 1200]);
    assert_eq!(scene.position, Position::new(0, 60 * 32 - 600));
    assert_eq!(scene.width, 20);
    assert_eq!(scene.height, 60);
}
