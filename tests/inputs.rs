use scratch_vm::block::{Kind, KeyOptions, TouchingObjectMenu, WhenBroadcastReceived};
use scratch_vm::savefile::{image_of, Image};
use scratch_vm::sensing::{key_pressed, TouchingObjectOption};

#[test]
fn touching_option_fields() {
    assert!(matches!(TouchingObjectOption::from_field("_mouse_"), TouchingObjectOption::MousePointer));
    assert!(matches!(TouchingObjectOption::from_field("_edge_"), TouchingObjectOption::Edge));
    match TouchingObjectOption::from_field("Cat") {
        TouchingObjectOption::Sprite(n) => assert_eq!(n, "Cat"),
        other => panic!("unexpected {:?}", other),
    }
    assert_eq!(TouchingObjectOption::Edge.field(), "_edge_");
    assert_eq!(TouchingObjectOption::Sprite("Dog".to_string()).field(), "Dog");
}

#[test]
fn key_pressed_answers() {
    let keys = vec!["a".to_string(), "space".to_string()];
    assert!(key_pressed("any", &Vec::new()));
    assert!(key_pressed("space", &keys));
    assert!(!key_pressed("b", &keys));
    assert!(!key_pressed("space", &Vec::new()));
}

#[test]
fn menu_blocks_start_with_defaults() {
    let k = KeyOptions::new("k".to_string());
    assert_eq!(k.kind, Kind::KeyOptions);
    assert_eq!(k.field, "space");
    let m = TouchingObjectMenu::new("m".to_string());
    assert_eq!(m.field, "_mouse_");
    let w = WhenBroadcastReceived::new("w".to_string());
    assert_eq!(w.id, "w");
    assert_eq!(w.field, "");
    assert!(!w.started);
}

#[test]
fn archive_entries_by_name() {
    assert_eq!(image_of("a.svg", vec![1]), Some(Image::SVG(vec![1])));
    assert_eq!(image_of("b.png", vec![2]), Some(Image::PNG(vec![2])));
    assert_eq!(image_of("project.json", vec![3]), None);
    assert_eq!(image_of("svg", vec![]), None);
}
