use libretro_backend::environment::get_system_directory;

#[test]
fn answered_directory_is_handed_on() {
    assert_eq!(get_system_directory(true, Some("/home/user/system")), Some(String::from("/home/user/system")));
    assert_eq!(get_system_directory(true, Some("")), Some(String::new()));
}

#[test]
fn unanswered_question_gives_no_directory() {
    assert_eq!(get_system_directory(false, None), None);
    assert_eq!(get_system_directory(false, Some("/stale")), None);
}

#[test]
fn answer_without_a_directory_gives_none() {
    assert_eq!(get_system_directory(true, None), None);
}
