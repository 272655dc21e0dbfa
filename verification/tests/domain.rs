use zero2prod::domain::looks_like_email;
use zero2prod::domain::looks_like_name;
use zero2prod::domain::NewSubscriber;
use zero2prod::domain::SubscriberEmail;
use zero2prod::domain::SubscriberError;
use zero2prod::domain::SubscriberName;
use zero2prod::routes::FormData;

#[test]
fn an_address_with_both_parts_is_accepted() {
    let email = SubscriberEmail::parse("ursula_le_guin@gmail.com".to_string()).unwrap();
    assert_eq!(email.as_ref(), "ursula_le_guin@gmail.com");
    assert!(looks_like_email("a@b"));
}

#[test]
fn an_address_without_at_is_rejected() {
    assert!(matches!(
        SubscriberEmail::parse("definitely-not-an-email".to_string()),
        Err(SubscriberError::InvalidEmail)
    ));
    assert!(!looks_like_email("ursuladomain.com"));
}

#[test]
fn an_empty_address_is_rejected() {
    assert!(matches!(
        SubscriberEmail::parse(String::new()),
        Err(SubscriberError::InvalidEmail)
    ));
}

#[test]
fn an_address_without_local_part_is_rejected() {
    assert!(!looks_like_email("@domain.com"));
    assert!(matches!(
        SubscriberEmail::parse("@domain.com".to_string()),
        Err(SubscriberError::InvalidEmail)
    ));
}

#[test]
fn an_address_without_domain_is_rejected() {
    assert!(!looks_like_email("ursula@"));
    assert!(!looks_like_email("@"));
    assert!(!looks_like_email("a@b@"));
}

#[test]
fn the_last_at_separates_the_parts() {
    assert!(looks_like_email("\"a@b\"@example.com"));
    assert!(looks_like_email("@a@b"));
}

#[test]
fn a_non_ascii_address_is_judged_by_characters() {
    assert!(looks_like_email("ürsula@exämple.com"));
    assert!(!looks_like_email("ürsula@"));
}

#[test]
fn a_duplicated_address_is_the_same_text() {
    let email = SubscriberEmail::parse("a@b.c".to_string()).unwrap();
    assert_eq!(email.duplicate().as_ref(), "a@b.c");
}

#[test]
fn a_name_with_something_in_it_is_accepted() {
    let name = SubscriberName::parse("le guin".to_string()).unwrap();
    assert_eq!(name.as_ref(), "le guin");
    assert!(looks_like_name(" x "));
}

#[test]
fn a_blank_name_is_rejected() {
    assert!(matches!(SubscriberName::parse(String::new()), Err(SubscriberError::InvalidName)));
    assert!(matches!(
        SubscriberName::parse("  \t\n".to_string()),
        Err(SubscriberError::InvalidName)
    ));
    assert!(!looks_like_name("\u{a0}\u{2003}\u{3000}"));
}

#[test]
fn a_new_subscriber_keeps_both_fields() {
    let subscriber =
        NewSubscriber::new("le guin".to_string(), "ursula_le_guin@gmail.com".to_string()).unwrap();
    assert_eq!(subscriber.name.as_ref(), "le guin");
    assert_eq!(subscriber.email.as_ref(), "ursula_le_guin@gmail.com");
}

#[test]
fn the_name_is_judged_before_the_address() {
    assert!(matches!(
        NewSubscriber::new(String::new(), "not-an-email".to_string()),
        Err(SubscriberError::InvalidName)
    ));
    assert!(matches!(
        NewSubscriber::new("Ursula".to_string(), "not-an-email".to_string()),
        Err(SubscriberError::InvalidEmail)
    ));
    assert!(matches!(
        NewSubscriber::new(String::new(), "ursula@gmail.com".to_string()),
        Err(SubscriberError::InvalidName)
    ));
}

#[test]
fn a_form_is_judged_like_its_fields() {
    let form = FormData { name: "le guin".to_string(), email: "ursula_le_guin@gmail.com".to_string() };
    let subscriber = NewSubscriber::try_from(form).unwrap();
    assert_eq!(subscriber.name.as_ref(), "le guin");
    let form = FormData { name: "Ursula".to_string(), email: String::new() };
    assert!(matches!(NewSubscriber::try_from(form), Err(SubscriberError::InvalidEmail)));
}
