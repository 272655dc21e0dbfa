use zero2prod::secret::SecretText;

#[test]
fn a_secret_gives_its_text_only_when_exposed() {
    let secret = SecretText::new("hunter2".to_string());
    assert_eq!(secret.expose(), "hunter2");
    let shown = format!("{:?}", secret);
    assert!(!shown.contains("hunter2"));
    assert!(shown.contains("REDACTED"));
}

#[test]
fn a_duplicated_secret_holds_the_same_text() {
    let secret = SecretText::new("hunter2".to_string());
    let copy = secret.duplicate();
    assert_eq!(copy.expose(), "hunter2");
    assert_eq!(secret.expose(), "hunter2");
}

#[test]
fn an_empty_secret_is_a_secret_too() {
    let secret = SecretText::new(String::new());
    assert_eq!(secret.expose(), "");
}
