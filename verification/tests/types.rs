use rsbwapi::{Rectangle, ScaledPosition, TilePosition, WalkPosition};

#[test]
fn should_return_all_positions_of_rectangle() {
    let rec: Rectangle<TilePosition> = Rectangle::new((0, 0), (2, 2));
    let mut iter = rec.into_iter();
    assert_eq!(Some(TilePosition { x: 0, y: 0 }), iter.next());
    assert_eq!(Some(TilePosition { x: 1, y: 0 }), iter.next());
    assert_eq!(Some(TilePosition { x: 2, y: 0 }), iter.next());
    assert_eq!(Some(TilePosition { x: 0, y: 1 }), iter.next());
    assert_eq!(Some(TilePosition { x: 1, y: 1 }), iter.next());
    assert_eq!(Some(TilePosition { x: 2, y: 1 }), iter.next());
    assert_eq!(Some(TilePosition { x: 0, y: 2 }), iter.next());
    assert_eq!(Some(TilePosition { x: 1, y: 2 }), iter.next());
    assert_eq!(Some(TilePosition { x: 2, y: 2 }), iter.next());
}

#[test]
fn should_return_border() {
    let rec: Rectangle<WalkPosition> = Rectangle::new((3, 4), (5, 6));
    assert_eq!(
        rec.border(),
        [
            ScaledPosition { x: 3, y: 4 },
            ScaledPosition { x: 4, y: 4 },
            ScaledPosition { x: 5, y: 4 },
            ScaledPosition { x: 5, y: 5 },
            ScaledPosition { x: 5, y: 6 },
            ScaledPosition { x: 4, y: 6 },
            ScaledPosition { x: 3, y: 6 },
            ScaledPosition { x: 3, y: 5 },
        ]
    );
}
