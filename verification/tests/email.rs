use auth_service::models::email::{Email, EmailError};

#[test]
fn accepts_a_short_ordinary_address() {
    let email = Email::new("a@b.co".to_string()).unwrap();
    assert_eq!(email.as_str(), "a@b.co");
}

#[test]
fn validate_answers_true_for_a_valid_address() {
    assert_eq!(Email::validate("test@example.com"), Ok(true));
    assert_eq!(Email::validate_string("test@example.com".to_string()), Ok(true));
}

#[test]
fn rejects_the_empty_address() {
    assert_eq!(Email::validate(""), Err(EmailError::InvalidEmail));
    assert!(Email::new(String::new()).is_err());
}

#[test]
fn rejects_an_address_without_at_sign() {
    assert_eq!(Email::validate("invalid-email-format"), Err(EmailError::InvalidEmail));
}

#[test]
fn rejects_an_address_with_a_character_outside_ascii() {
    assert_eq!(Email::validate("usuário@example.com"), Err(EmailError::InvalidEmail));
}

#[test]
fn length_limits_are_five_and_two_hundred_fifty_four() {
    assert_eq!(Email::validate("a@bc"), Err(EmailError::InvalidEmail));
    assert_eq!(Email::validate("a@b.c"), Ok(true));
    let local = "a".repeat(254 - "@example.com".len());
    let longest = format!("{}@example.com", local);
    assert_eq!(longest.len(), 254);
    assert_eq!(Email::validate(&longest), Ok(true));
    let too_long = format!("a{}", longest);
    assert_eq!(too_long.len(), 255);
    assert_eq!(Email::validate(&too_long), Err(EmailError::InvalidEmail));
}

#[test]
fn at_sign_may_stand_anywhere() {
    assert_eq!(Email::validate("@abcd"), Ok(true));
    assert_eq!(Email::validate("abcd@"), Ok(true));
}

#[test]
fn equality_goes_by_the_address() {
    let a = Email::new("test@example.com".to_string()).unwrap();
    let b = Email::new("test@example.com".to_string()).unwrap();
    let c = Email::new("other@example.com".to_string()).unwrap();
    assert!(a == b);
    assert!(a != c);
    assert!(a.clone() == a);
}

#[test]
fn email_error_text() {
    assert_eq!(EmailError::InvalidEmail.to_string(), "Formato de email inválido");
    assert_eq!(EmailError::InvalidEmail.to_str(), "Formato de email inválido");
}
