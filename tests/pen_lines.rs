use scratch_vm::number::Number;
use scratch_vm::pen::Pen;
use scratch_vm::sprite_runtime::Coordinate;

#[test]
fn strokes_follow_the_pen() {
    let mut p = Pen::new();
    assert!(!p.is_down());
    assert_eq!(p.color(), (255, 0, 0));
    assert_eq!(p.size(), Number { mantissa: 1, scale: 0 });
    p.set_position(&Coordinate::new(5, 5));
    p.pen_down(&Coordinate::new(0, 0));
    p.set_position(&Coordinate::new(1, 2));
    p.set_color((1, 2, 3));
    p.set_position(&Coordinate::new(3, 4));
    assert_eq!(p.color(), (1, 2, 3));
    let lines = p.lines();
    assert_eq!(lines.len(), 2);
    assert_eq!(lines[0].points, vec![Coordinate::new(0, 0), Coordinate::new(1, 2)]);
    assert_eq!(lines[0].color, (255, 0, 0));
    assert_eq!(lines[1].points, vec![Coordinate::new(1, 2), Coordinate::new(3, 4)]);
    p.pen_up();
    p.set_position(&Coordinate::new(9, 9));
    assert_eq!(p.lines().len(), 3);
    assert_eq!(p.lines()[2].points, vec![Coordinate::new(3, 4)]);
    p.clear();
    assert_eq!(p.lines().len(), 1);
    assert_eq!(p.color(), (255, 0, 0));
    assert!(!p.is_down());
}
