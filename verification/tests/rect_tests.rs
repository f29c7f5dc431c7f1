use rusty_pew_pew::geometry::Rect;

#[test]
fn test_intersection() {
    //given
    let a = Rect::new(0, 0, 10, 10);
    let b = Rect::new(5, 5, 10, 10);

    //when
    let intersecting = a.has_intersection(&b);

    //then
    assert!(intersecting);
}

#[test]
fn test_no_intersection() {
    //given
    let a = Rect::new(0, 0, 1, 1);
    let b = Rect::new(5, 5, 1, 1);

    //when
    let intersecting = a.has_intersection(&b);

    //then
    assert!(!intersecting);
}

#[test]
fn test_border_intersection() {
    //given
    let a = Rect::new(0, 0, 5, 5);
    let b = Rect::new(5, 5, 5, 5);

    //when
    let intersecting = a.has_intersection(&b);

    //then
    assert!(!intersecting);
}

#[test]
fn test_intersection_is_symmetric() {
    let a = Rect::new(-3, 2, 8, 4);
    let b = Rect::new(1, 1, 8, 4);
    assert_eq!(a.has_intersection(&b), b.has_intersection(&a));
    let c = Rect::new(100, 100, 2, 2);
    assert_eq!(a.has_intersection(&c), c.has_intersection(&a));
}

#[test]
fn test_zero_size_rect_intersects_nothing() {
    let a = Rect::new(0, 0, 0, 10);
    let b = Rect::new(-5, -5, 20, 20);
    assert!(!a.has_intersection(&b));
    assert!(!b.has_intersection(&a));
}
