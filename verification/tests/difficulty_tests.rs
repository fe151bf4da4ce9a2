use zellinotes_recipes::model::difficulty::Difficulty;

#[test]
fn from_string_to_difficulty_test() {
    assert_eq!(Difficulty::try_from("Easy").unwrap(), Difficulty::Easy);
    assert_eq!(Difficulty::try_from("Medium").unwrap(), Difficulty::Medium);
    assert_eq!(Difficulty::try_from("Hard").unwrap(), Difficulty::Hard);
}

#[test]
fn from_difficulty_to_string_test() {
    assert_eq!(Difficulty::Easy.to_string(), "Easy".to_string());
    assert_eq!(Difficulty::Medium.to_string(), "Medium".to_string());
    assert_eq!(Difficulty::Hard.to_string(), "Hard".to_string());
}

#[test]
fn difficulty_is_case_sensitive() {
    assert!(Difficulty::try_from("easy").is_err());
    assert!(Difficulty::try_from("EASY").is_err());
    assert!(Difficulty::try_from(" Easy").is_err());
    assert!(Difficulty::try_from("").is_err());
    assert_eq!(Difficulty::try_from("Easy").unwrap(), Difficulty::Easy);
}

#[test]
fn difficulty_error_names_the_offending_string() {
    let err = Difficulty::try_from("Super Hard").unwrap_err();
    assert_eq!(
        err.error,
        "Difficulty 'Super Hard' does not match one predefined value".to_string()
    );
}
