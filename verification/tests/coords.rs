use dispair::coords::{Position, SquareArea};
use dispair::entities::{EntityCharacters, Style};
use dispair::map::Layer;

#[test]
fn position_above_0() {
    let result = Position::new(4, 4);
    assert_eq!(result.get(), (4, 4));
}

#[test]
fn position_of_0() {
    let result = Position::new(0, 0);
    assert_eq!(result.get(), (0, 0));
}

#[test]
fn position_below_0() {
    let result = Position::new(-1, -1);
    assert_eq!(result.get(), (0, 0));
}

#[test]
fn position_constrain() {
    let mut position = Position(50, 50);
    let layer: Layer = Vec::from([Vec::from([
        EntityCharacters::Empty(Style::new()),
        EntityCharacters::Empty(Style::new()),
        EntityCharacters::Empty(Style::new()),
        EntityCharacters::Empty(Style::new()),
    ])]);
    position.constrain(&layer);
    assert_eq!(position.get(), (3, 0));
}

#[test]
fn area_iter() {
    let area = SquareArea::new(Position(3, 2), Position(6, 5));

    assert_eq!(area.get_positions().iter().fold(0, |acc, _| acc + 1), 16);
    assert_eq!(area.get_positions().into_iter().max(), Some(Position(6, 5)));
}
