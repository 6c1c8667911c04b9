use scratch_vm::sprite_runtime::{Coordinate, HideStatus, Rectangle, SpriteRuntime, Text};
use scratch_vm::error::Error;

#[test]
fn sprite_runtime_test_contains() {
    struct Test {
        rect: Rectangle,
        coordinate: Coordinate,
        expected: bool,
    }

    let tests = vec![
        Test {
            rect: Rectangle::new(Coordinate::new(0, 0), Coordinate::new(0, 0)),
            coordinate: Coordinate::new(0, 0),
            expected: true,
        },
        Test {
            rect: Rectangle::new(Coordinate::new(0, 0), Coordinate::new(1, 1)),
            coordinate: Coordinate::new(0, 0),
            expected: true,
        },
        Test {
            rect: Rectangle::new(Coordinate::new(0, 0), Coordinate::new(1, 1)),
            coordinate: Coordinate::new(1, 1),
            expected: true,
        },
        Test {
            rect: Rectangle::new(Coordinate::new(1, 1), Coordinate::new(1, 1)),
            coordinate: Coordinate::new(0, 0),
            expected: false,
        },
        Test {
            rect: Rectangle::new(Coordinate::new(1, 1), Coordinate::new(1, 1)),
            coordinate: Coordinate::new(1, 0),
            expected: false,
        },
        Test {
            rect: Rectangle::new(Coordinate::new(0, 0), Coordinate::new(1, 1)),
            coordinate: Coordinate::new(1, 2),
            expected: false,
        },
    ];

    for (i, test) in tests.iter().enumerate() {
        assert_eq!(test.rect.contains(&test.coordinate), test.expected, "{}", i);
    }
}

#[test]
fn contains_near_the_integer_limit() {
    let r = Rectangle::new(Coordinate::new(i16::MAX - 1, 0), Coordinate::new(10, 10));
    assert!(r.contains(&Coordinate::new(i16::MAX, 5)));
}

#[test]
fn coordinate_add() {
    let c = Coordinate::new(3, -4).add(&Coordinate::new(-10, 6));
    assert_eq!(c, Coordinate::new(-7, 2));
    assert_eq!(c.x(), -7);
    assert_eq!(c.y(), 2);
}

#[test]
fn sprite_rectangle_is_centered() {
    let mut s = SpriteRuntime::new(0, false, vec![Coordinate::new(10, 6), Coordinate::new(4, 4)]);
    s.set_position(&Coordinate::new(100, -50));
    assert_eq!(s.rectangle(), Rectangle::new(Coordinate::new(95, -53), Coordinate::new(10, 6)));
    assert_eq!(s.set_costume_index(1), Ok(()));
    assert_eq!(s.rectangle(), Rectangle::new(Coordinate::new(98, -52), Coordinate::new(4, 4)));
    assert_eq!(s.set_costume_index(2), Err(Error::CostumeOutOfRange { index: 2 }));
}

#[test]
fn redraw_flag() {
    let mut s = SpriteRuntime::new(3, true, vec![Coordinate::new(1, 1)]);
    assert!(s.need_redraw());
    s.mark_drawn();
    assert!(!s.need_redraw());
    s.set_hide(HideStatus::Hide);
    assert!(s.need_redraw());
    assert!(s.hidden());
    assert!(s.is_a_clone());
    assert_eq!(s.sprite_id(), 3);
}

#[test]
fn text_is_hidden_only_by_its_poster() {
    let mut t = Text { id: "a".to_string(), text: Some("hi".to_string()) };
    t.replace(Text { id: "b".to_string(), text: None });
    assert_eq!(t.text, Some("hi".to_string()));
    t.replace(Text { id: "a".to_string(), text: None });
    assert_eq!(t.text, None);
    t.replace(Text { id: "b".to_string(), text: Some("yo".to_string()) });
    assert_eq!(t.id, "b");
    assert_eq!(t.text, Some("yo".to_string()));

    let mut s = SpriteRuntime::new(0, false, vec![Coordinate::new(1, 1)]);
    s.say(Text { id: "x".to_string(), text: Some("hello".to_string()) });
    s.say(Text { id: "y".to_string(), text: None });
    assert_eq!(s.text(), Some("hello".to_string()));
}
