use argon2::password_hash::rand_core::OsRng;
use argon2::password_hash::SaltString;
use argon2::{Algorithm, Argon2, Params, PasswordHasher, Version};
use auth_service::models::password::{HashedPassword, PasswordError};

#[test]
fn empty_string_is_rejected() {
    let result = HashedPassword::parse("".to_string());
    assert!(result.is_err());
}

#[test]
fn string_less_than_8_characters_is_rejected() {
    let result = HashedPassword::parse("short".to_string());
    assert!(result.is_err());
}

#[test]
fn can_parse_valid_argon2_hash() {
    let raw_password = "validPassword123";
    let salt = SaltString::generate(&mut OsRng);
    let argon2 = Argon2::new(
        Algorithm::Argon2id,
        Version::V0x13,
        Params::new(15000, 2, 1, None).unwrap(),
    );
    let hash_string = argon2.hash_password(raw_password.as_bytes(), &salt).unwrap().to_string();
    let hash_password = match HashedPassword::parse_password_hash(hash_string.clone()) {
        Ok(hash) => hash,
        Err(e) => panic!("{}", e.to_string()),
    };
    assert_eq!(hash_password.as_ref(), hash_string.as_str());
    assert!(hash_password.as_ref().starts_with("$argon2id$v=19$"));
}

#[test]
fn valid_passwords_are_parsed_successfully() {
    for password in ["12345678", "validPassword123", "a much longer passphrase, with spaces"] {
        let parsed = HashedPassword::parse(password.to_string());
        assert_eq!(parsed, Ok(password.to_string()));
    }
}

#[test]
fn can_verify_raw_password() {
    let raw_password = "validPassword123";
    let salt = SaltString::generate(&mut OsRng);
    let argon2 = Argon2::new(
        Algorithm::Argon2id,
        Version::V0x13,
        Params::new(15000, 2, 1, None).unwrap(),
    );
    let hash_string = argon2.hash_password(raw_password.as_bytes(), &salt).unwrap().to_string();
    let hash_password = match HashedPassword::parse_password_hash(hash_string.clone()) {
        Ok(hash) => hash,
        Err(e) => panic!("{}", e.to_string()),
    };
    assert_eq!(hash_password.as_ref(), hash_string.as_str());
    assert!(hash_password.as_ref().starts_with("$argon2id$v=19$"));
    let result = hash_password.verify_raw_password(raw_password);
    assert_eq!(result, Ok(true));
}

#[test]
fn validate_counts_bytes() {
    assert_eq!(HashedPassword::validate("1234567"), Err(PasswordError::InvalidPassword));
    assert_eq!(HashedPassword::validate("12345678"), Ok(true));
    // Four characters of two bytes each make eight bytes.
    assert_eq!(HashedPassword::validate("ãéíõ"), Ok(true));
    assert_eq!(HashedPassword::validate("ãéí"), Err(PasswordError::InvalidPassword));
}

#[test]
fn new_refuses_a_short_secret() {
    match HashedPassword::new("short".to_string()) {
        Ok(_) => panic!("a short secret was hashed"),
        Err(e) => assert_eq!(e, PasswordError::InvalidPassword),
    }
}

#[test]
fn hash_then_verify_round_trip() {
    let hash = match HashedPassword::new("password1".to_string()) {
        Ok(hash) => hash,
        Err(e) => panic!("{}", e.to_string()),
    };
    assert!(hash.as_str().starts_with("$argon2id$v=19$m=15000,t=2,p=1$"));
    assert!(hash.as_str() != "password1");
    assert_eq!(hash.verify_raw_password("password1"), Ok(true));
    assert_eq!(hash.verify_raw_password("password2"), Ok(false));
    assert_eq!(hash.verify_raw_password(""), Ok(false));
}

#[test]
fn compute_password_hash_salts_each_call() {
    let first = HashedPassword::compute_password_hash("password1").unwrap();
    let second = HashedPassword::compute_password_hash("password1").unwrap();
    assert!(first != second);
    let first = HashedPassword::parse_password_hash(first).unwrap_or_else(|e| panic!("{}", e.to_string()));
    let second = HashedPassword::parse_password_hash(second).unwrap_or_else(|e| panic!("{}", e.to_string()));
    assert!(first != second);
    assert_eq!(first.verify_raw_password("password1"), Ok(true));
    assert_eq!(second.verify_raw_password("password1"), Ok(true));
}

#[test]
fn parse_password_hash_refuses_what_is_no_hash() {
    for text in ["", "password1", "hashed_password1", "argon2id$v=19$"] {
        match HashedPassword::parse_password_hash(text.to_string()) {
            Ok(_) => panic!("{:?} was taken for a hash", text),
            Err(e) => assert_eq!(e, PasswordError::MalformedHash),
        }
    }
}

#[test]
fn parse_password_hash_refuses_a_hash_without_usable_costs() {
    let refused = [
        // More lanes than the hasher takes.
        "$argon2id$v=19$m=8,t=1,p=536870912$c29tZXNhbHQ$RdescudvJCsgt3ub+b+dWRWJTmaaJObG",
        "$argon2id$v=19$m=15000,t=2,p=16777216$c29tZXNhbHQ$RdescudvJCsgt3ub+b+dWRWJTmaaJObG",
        // A cost is named twice: the first is within bounds, the last is not.
        "$argon2id$v=19$m=8,t=1,p=1,p=536870912$c29tZXNhbHQ$RdescudvJCsgt3ub+b+dWRWJTmaaJObG",
        "$argon2id$v=19$m=8,t=1,p=536870912,p=1$c29tZXNhbHQ$RdescudvJCsgt3ub+b+dWRWJTmaaJObG",
        "$argon2id$v=19$m=15000,t=2,p=1,p=1$c29tZXNhbHQ$RdescudvJCsgt3ub+b+dWRWJTmaaJObG",
        "$argon2id$v=19$m=15000,m=8,t=2,p=1$c29tZXNhbHQ$RdescudvJCsgt3ub+b+dWRWJTmaaJObG",
        "$argon2id$v=19$m=15000,t=2,t=2,p=1$c29tZXNhbHQ$RdescudvJCsgt3ub+b+dWRWJTmaaJObG",
        // A cost is missing, or is no number.
        "$argon2id$v=19$m=15000,t=2$c29tZXNhbHQ$RdescudvJCsgt3ub+b+dWRWJTmaaJObG",
        "$argon2id$v=19$c29tZXNhbHQ$RdescudvJCsgt3ub+b+dWRWJTmaaJObG",
        "$argon2id$v=19$m=15000,t=2,p=x$c29tZXNhbHQ$RdescudvJCsgt3ub+b+dWRWJTmaaJObG",
    ];
    for text in refused {
        match HashedPassword::parse_password_hash(text.to_string()) {
            Ok(_) => panic!("{:?} was taken in", text),
            Err(e) => assert_eq!(e, PasswordError::MalformedHash),
        }
    }
    // The most lanes that the hasher takes are taken in; the check then
    // answers without a panic.
    let most = "$argon2id$v=19$m=8,t=1,p=16777215$c29tZXNhbHQ$RdescudvJCsgt3ub+b+dWRWJTmaaJObG";
    let hash = match HashedPassword::parse_password_hash(most.to_string()) {
        Ok(hash) => hash,
        Err(e) => panic!("{}", e.to_string()),
    };
    assert_eq!(hash.verify_raw_password("password1"), Err(PasswordError::MalformedHash));
}

#[test]
fn parse_password_hash_takes_costs_in_any_order() {
    let text = "$argon2id$v=19$p=1,t=2,m=15000$c29tZXNhbHRzb21lc2FsdA$aGFzaGhhc2hoYXNoaGFzaA";
    let hash = match HashedPassword::parse_password_hash(text.to_string()) {
        Ok(hash) => hash,
        Err(e) => panic!("{}", e.to_string()),
    };
    assert_eq!(hash.as_str(), text);
    // Another parameter beside the three costs does not stand in the way.
    let text = "$argon2id$v=19$m=15000,t=2,p=1,keyid=YWJj$c29tZXNhbHRzb21lc2FsdA$aGFzaGhhc2hoYXNoaGFzaA";
    assert!(HashedPassword::parse_password_hash(text.to_string()).is_ok());
}

#[test]
fn a_hash_always_comes_out() {
    for password in ["", "short", "password1", "a much longer passphrase, with spaces"] {
        assert!(HashedPassword::compute_password_hash(password).is_ok());
    }
    assert!(HashedPassword::new("password1".to_string()).is_ok());
}

#[test]
fn computed_hash_carries_the_fixed_costs() {
    let encoded = HashedPassword::compute_password_hash("password1").unwrap();
    assert!(encoded.starts_with("$argon2id$v=19$m=15000,t=2,p=1$"));
    assert!(!encoded.contains("password1"));
    // What the hasher made is taken back in.
    assert!(HashedPassword::parse_password_hash(encoded).is_ok());
}

#[test]
fn verify_reports_a_hash_it_cannot_use() {
    // Reads as a PHC string, but names an algorithm that the hasher does not have.
    let text = "$unknown$v=19$m=15000,t=2,p=1$c29tZXNhbHRzb21lc2FsdA$aGFzaGhhc2hoYXNoaGFzaA";
    let hash = match HashedPassword::parse_password_hash(text.to_string()) {
        Ok(hash) => hash,
        Err(e) => panic!("{}", e.to_string()),
    };
    assert_eq!(hash.verify_raw_password("password1"), Err(PasswordError::MalformedHash));
}

#[test]
fn hashed_passwords_are_equal_by_their_encoded_form() {
    let hash = HashedPassword::new("password1".to_string()).unwrap_or_else(|e| panic!("{}", e.to_string()));
    let same = HashedPassword::parse_password_hash(hash.as_str().to_string())
        .unwrap_or_else(|e| panic!("{}", e.to_string()));
    assert!(hash == same);
    assert!(hash.clone() == hash);
}

#[test]
fn password_error_text() {
    assert_eq!(PasswordError::InvalidPassword.to_string(), "Senha inválida");
    assert_eq!(PasswordError::InvalidPassword.to_str(), "Senha inválida");
    assert_eq!(PasswordError::InvalidPassword.as_ref(), "Senha inválida");
    assert_eq!(PasswordError::MalformedHash.to_str(), "Hash de senha malformado");
    assert_eq!(PasswordError::HashingFailed.to_str(), "Falha ao computar hash da senha");
}
