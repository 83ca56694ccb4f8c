use wymrs::{Color, Direction, NewWyrmParams, Point, Wyrm};

#[test]
fn new_wyrm_has_one_segment() {
    let color = Color { r: 9, g: 8, b: 7 };
    let wyrm = Wyrm::new(&NewWyrmParams {
        id: 12,
        color,
        direction: Direction::Left,
        position: Point::new(4, 5),
    });
    assert_eq!(wyrm.id, 12);
    assert_eq!(wyrm.color, color);
    assert_eq!(wyrm.direction, Direction::Left);
    assert_eq!(wyrm.size(), 1);
    assert_eq!(wyrm.head(), Point::new(4, 5));
    assert_eq!(wyrm.segments.len(), 1);
}

#[test]
fn head_is_the_front_segment() {
    let mut wyrm = Wyrm::new(&NewWyrmParams {
        id: 3,
        color: Color { r: 0, g: 0, b: 0 },
        direction: Direction::Up,
        position: Point::new(4, 5),
    });
    wyrm.segments.push_front(Point::new(4, 4));
    wyrm.segments.push_front(Point::new(4, 3));
    assert_eq!(wyrm.size(), 3);
    assert_eq!(wyrm.head(), Point::new(4, 3));
}
