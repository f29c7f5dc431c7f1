use rusty_pew_pew::attributes::find_attribute;
use rusty_pew_pew::attributes::element_is;
use rusty_pew_pew::attributes::Attribute;
use rusty_pew_pew::factory::create_game_object;
use rusty_pew_pew::factory::parse_int;
use rusty_pew_pew::factory::parse_u32;
use rusty_pew_pew::game_object::EntityState;
use rusty_pew_pew::types::IdAllocator;
use rusty_pew_pew::types::ObjectType;
use rusty_pew_pew::types::Position;

fn attr(name: &str, value: &str) -> Attribute {
    Attribute { name: String::from(name), value: String::from(value) }
}

fn enemy_properties() -> Vec<Attribute> {
    vec![
        attr("type", "Enemy"),
        attr("x", "20"),
        attr("y", "60"),
        attr("width", "45"),
        attr("height", "155"),
    ]
}

#[test]
fn test_create_enemy_from_attributes() {
    let mut alloc = IdAllocator::new();
    let obj = create_game_object(&enemy_properties(), &mut alloc).unwrap();

    assert_eq!(obj.id, 1);
    assert_eq!(obj.object_type, ObjectType::Enemy);
    match obj.state {
        Some(EntityState::Enemy(e)) => {
            assert_eq!(e.position, Position::new(20, 60));
            //the level reader has always fed height into width and width into height
            assert_eq!(e.width, 155);
            assert_eq!(e.height, 45);
            assert!(!e.is_destroyed);
        }
        _ => panic!(),
    }
    assert_eq!(alloc.counter, 2);
}

#[test]
fn test_create_player_from_attributes() {
    let mut alloc = IdAllocator::new();
    let properties = vec![
        attr("type", "Player"),
        attr("x", "7"),
        attr("y", "9"),
        attr("width", "32"),
        attr("height", "32"),
    ];
    let obj = create_game_object(&properties, &mut alloc).unwrap();

    assert_eq!(obj.object_type, ObjectType::Player);
    match obj.state {
        Some(EntityState::Player(p)) => {
            assert_eq!(p.position, Position::new(7, 9));
            assert!(!p.is_shooting);
            assert!(!p.is_destroyed);
        }
        _ => panic!(),
    }
}

#[test]
fn test_create_rejects_a_missing_type() {
    let mut alloc = IdAllocator::new();
    let properties = vec![attr("x", "1"), attr("y", "2")];
    assert!(create_game_object(&properties, &mut alloc).is_err());
    assert_eq!(alloc.counter, 1);
}

#[test]
fn test_create_rejects_an_unknown_type() {
    let mut alloc = IdAllocator::new();
    let mut properties = enemy_properties();
    properties[0] = attr("type", "Boss");
    assert!(create_game_object(&properties, &mut alloc).is_err());
    assert_eq!(alloc.counter, 1);
}

#[test]
fn test_create_rejects_a_missing_numeric_attribute() {
    let mut alloc = IdAllocator::new();
    let properties = vec![attr("type", "Enemy"), attr("x", "1"), attr("y", "2")];
    assert!(create_game_object(&properties, &mut alloc).is_err());
}

#[test]
fn test_create_rejects_a_malformed_numeric_attribute() {
    let mut alloc = IdAllocator::new();
    let mut properties = enemy_properties();
    properties[1] = attr("x", "12a");
    assert!(create_game_object(&properties, &mut alloc).is_err());
}

#[test]
fn test_parse_int_reads_the_named_attribute() {
    assert_eq!(parse_int(&enemy_properties(), "height"), Ok(155));
    assert_eq!(
        parse_int(&enemy_properties(), "depth"),
        Err(String::from("missing attribute"))
    );
}

#[test]
fn test_parse_u32_accepts_plain_and_signed_digits() {
    assert_eq!(parse_u32("0"), Some(0));
    assert_eq!(parse_u32("155"), Some(155));
    assert_eq!(parse_u32("+42"), Some(42));
    assert_eq!(parse_u32("4294967295"), Some(u32::MAX));
}

#[test]
fn test_parse_u32_rejects_malformed_and_oversized_text() {
    assert_eq!(parse_u32(""), None);
    assert_eq!(parse_u32("+"), None);
    assert_eq!(parse_u32("-1"), None);
    assert_eq!(parse_u32("12 "), None);
    assert_eq!(parse_u32("4294967296"), None);
    assert_eq!(parse_u32("99999999999999999999"), None);
}

#[test]
fn test_find_attribute_ignores_ascii_case_and_takes_the_first_match() {
    let attributes = vec![attr("Width", "45"), attr("width", "99")];
    assert_eq!(find_attribute(&attributes, "WIDTH"), Some(String::from("45")));
    assert_eq!(find_attribute(&attributes, "height"), None);
}

#[test]
fn test_element_is_compares_names_without_ascii_case() {
    assert!(element_is("ObjectGroup", "objectgroup"));
    assert!(element_is("map", "MAP"));
    assert!(!element_is("mapp", "map"));
    assert!(!element_is("ma", "map"));
}
