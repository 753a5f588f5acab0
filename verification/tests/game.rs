use libretro_backend::GameData;

#[test]
fn empty_game_has_neither_path_nor_data() {
    let game = GameData::empty();
    assert!(game.is_empty());
    assert_eq!(game.path(), None);
    assert_eq!(game.data(), None);
}

#[test]
fn game_with_path_and_data() {
    let bytes = [1u8, 2, 3];
    let game = GameData::new(Some(String::from("/roms/game.nes")), Some(&bytes));
    assert!(!game.is_empty());
    assert_eq!(game.path(), Some("/roms/game.nes"));
    assert_eq!(game.data(), Some(&bytes[..]));
}

#[test]
fn game_with_only_a_path_or_only_data() {
    let game = GameData::new(Some(String::from("a")), None);
    assert!(!game.is_empty());
    assert_eq!(game.data(), None);
    let bytes = [9u8];
    let game = GameData::new(None, Some(&bytes));
    assert!(!game.is_empty());
    assert_eq!(game.path(), None);
    assert_eq!(game.data(), Some(&bytes[..]));
}

#[test]
fn nothing_from_the_host_is_an_empty_game() {
    let game = GameData::from_host(None, None);
    assert!(game.is_empty());
}

#[test]
fn data_of_no_length_is_absent() {
    let game = GameData::from_host(None, Some(&[]));
    assert!(game.is_empty());
    assert_eq!(game.data(), None);
    let game = GameData::from_host(Some("game.bin"), Some(&[]));
    assert_eq!(game.path(), Some("game.bin"));
    assert_eq!(game.data(), None);
    assert!(!game.is_empty());
}

#[test]
fn data_from_the_host_is_handed_on() {
    let bytes = [7u8; 32];
    let game = GameData::from_host(Some("game.bin"), Some(&bytes));
    assert_eq!(game.path(), Some("game.bin"));
    assert_eq!(game.data(), Some(&bytes[..]));
}
