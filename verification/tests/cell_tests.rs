use game_of_life::GolCell;

#[test]
fn dead_and_alive_are_opposites() {
    assert!(GolCell::Dead.is_dead());
    assert!(!GolCell::Dead.is_alive());
    assert!(GolCell::Alive.is_alive());
    assert!(!GolCell::Alive.is_dead());
}

#[test]
fn flip_toggles_the_state() {
    let mut c = GolCell::Dead;
    c.flip();
    assert_eq!(c, GolCell::Alive);
    c.flip();
    assert_eq!(c, GolCell::Dead);
}

#[test]
fn cells_convert_from_bool() {
    assert_eq!(GolCell::from(true), GolCell::Alive);
    assert_eq!(GolCell::from(false), GolCell::Dead);
}

#[test]
fn cells_convert_from_integers_zero_is_dead() {
    assert_eq!(GolCell::from(0u8), GolCell::Dead);
    assert_eq!(GolCell::from(1u8), GolCell::Alive);
    assert_eq!(GolCell::from(255u8), GolCell::Alive);
    assert_eq!(GolCell::from(0u16), GolCell::Dead);
    assert_eq!(GolCell::from(7u32), GolCell::Alive);
    assert_eq!(GolCell::from(0u64), GolCell::Dead);
    assert_eq!(GolCell::from(9u128), GolCell::Alive);
    assert_eq!(GolCell::from(3usize), GolCell::Alive);
    assert_eq!(GolCell::from(-1i8), GolCell::Alive);
    assert_eq!(GolCell::from(0i16), GolCell::Dead);
    assert_eq!(GolCell::from(-5i32), GolCell::Alive);
    assert_eq!(GolCell::from(0i64), GolCell::Dead);
    assert_eq!(GolCell::from(2i128), GolCell::Alive);
    assert_eq!(GolCell::from(0isize), GolCell::Dead);
}
