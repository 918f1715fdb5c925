use notty_core::datatypes::{Direction, MediaAlignment, MediaPosition, Region};
use notty_core::key::Key;

#[test]
fn direction_reverses() {
    assert_eq!(Direction::Up.rev(), Direction::Down);
    assert_eq!(Direction::Down.rev(), Direction::Up);
    assert_eq!(Direction::Left.rev(), Direction::Right);
    assert_eq!(Direction::Right.rev(), Direction::Left);
}

#[test]
fn modifier_keys() {
    assert!(Key::ShiftLeft.is_modifier());
    assert!(Key::AltGr.is_modifier());
    assert!(Key::CapsLock.is_modifier());
    assert!(!Key::Char('a').is_modifier());
    assert!(!Key::Meta.is_modifier());
    assert!(!Key::Function(3).is_modifier());
}

#[test]
fn media_position_default() {
    assert_eq!(
        MediaPosition::default(),
        MediaPosition::Display(MediaAlignment::LeftTop, MediaAlignment::LeftTop)
    );
}

#[test]
fn region_orders_its_corners() {
    assert_eq!(Region::new(5, 1, 2, 7), Region { left: 2, top: 1, right: 5, bottom: 7 });
    assert_eq!(Region::new(0, 9, 3, 4), Region { left: 0, top: 4, right: 3, bottom: 9 });
}
