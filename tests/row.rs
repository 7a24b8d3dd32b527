use alliumd::row::{Alignment, Block, Point, Row};

fn block(w: u32) -> Block {
    Block { position: Point { x: 0, y: 0 }, w }
}

#[test]
fn row_container_operations() {
    let mut row = Row::new(Point { x: 0, y: 0 }, vec![block(1), block(2)], Alignment::Left, 4);
    assert_eq!(row.len(), 2);
    assert!(!row.is_empty());
    row.push(block(3));
    row.insert(0, block(9));
    assert_eq!(row.get(0).map(|b| b.w), Some(9));
    assert_eq!(row.get(3).map(|b| b.w), Some(3));
    assert!(row.get(4).is_none());
    if let Some(b) = row.get_mut(1) {
        b.w = 7;
    }
    assert_eq!(row.get(1).map(|b| b.w), Some(7));
    assert!(row.get_mut(10).is_none());
    assert_eq!(row.remove(1).map(|b| b.w), Some(7));
    assert!(row.remove(5).is_none());
    assert_eq!(row.pop().map(|b| b.w), Some(3));
    assert_eq!(row.pop().map(|b| b.w), Some(2));
    assert_eq!(row.pop().map(|b| b.w), Some(9));
    assert!(row.pop().is_none());
    assert!(row.is_empty());
}

#[test]
fn layout_left_places_children_rightwards() {
    let mut row = Row::new(Point { x: 10, y: 5 }, vec![block(20), block(30), block(5)], Alignment::Left, 4);
    row.layout();
    let xs: Vec<i32> = (0..3).map(|i| row.get(i).unwrap().position.x).collect();
    assert_eq!(xs, vec![10, 34, 68]);
    assert!((0..3).all(|i| row.get(i).unwrap().position.y == 5));
}

#[test]
fn layout_right_places_children_leftwards() {
    let mut row = Row::new(Point { x: 600, y: 440 }, vec![block(100), block(80), block(60)], Alignment::Right, 12);
    row.layout();
    let xs: Vec<i32> = (0..3).map(|i| row.get(i).unwrap().position.x).collect();
    assert_eq!(xs, vec![600, 488, 396]);
}

#[test]
fn moved_row_lays_out_from_new_point() {
    let mut row = Row::new(Point { x: 0, y: 0 }, vec![block(10), block(10)], Alignment::Left, 2);
    row.set_position(Point { x: 100, y: 7 });
    row.layout();
    assert_eq!(row.get(1).unwrap().position, Point { x: 112, y: 7 });
}
