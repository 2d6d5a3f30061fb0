use auth_core::auth::AuthError;
use auth_core::signup::signup_user;
use auth_core::signup::SignupError;
use auth_core::auth::AuthStep;
use auth_core::user::LimitedString;
use auth_core::user::PasswordHash;
use auth_core::user::User;
use auth_core::user::UserCredentials;
use auth_core::user::Verification;
use auth_core::user::NAME_LIMIT;

const CURRENT_HASH: &str =
    "$argon2id$v=19$m=19456,t=2,p=1$QAAI3EMU1eTLT9NzzBhQjg$khq4zuHsEyk9trGjuqMBFYnTbpqkmn0wXGxFn1nkPBc";

const LEGACY_HASH: &str =
    "$argon2i$v=19$m=65536,t=1,p=1$c29tZXNhbHQAAAAAAAAAAA$+r0d29hqEB0yasKr55ZgICsQGSkl0v0kgwhd+U3wyRo";

fn name(text: &str) -> LimitedString {
    LimitedString::new(text.to_string()).unwrap()
}

fn stored(hash: &str) -> User {
    User::from_stored(
        Some(3),
        name("bob"),
        PasswordHash::from_stored(hash.to_string()),
        "bob@example.com".to_string(),
        name("Bob"),
    )
}

fn credentials(username: &str, password: &str) -> UserCredentials {
    UserCredentials::new(username.to_string(), password.to_string())
}

#[test]
fn limited_string_keeps_the_limit() {
    assert_eq!(NAME_LIMIT, 254);
    assert_eq!(LimitedString::new("a".repeat(254)).unwrap().as_str(), "a".repeat(254));
    assert_eq!(LimitedString::new(String::new()).unwrap().as_str(), "");
    assert!(matches!(LimitedString::new("a".repeat(255)), Err(255)));
    assert!(matches!(LimitedString::new("\u{e9}".repeat(128)), Err(256)));
    assert_eq!(name("bob").clone().as_str(), "bob");
}

#[test]
fn user_getters_give_the_fields() {
    let user = stored(CURRENT_HASH);
    assert!(user.has_id());
    assert_eq!(user.id(), 3);
    assert_eq!(user.username(), "bob");
    assert_eq!(user.name(), "Bob");
    assert_eq!(user.email(), "bob@example.com");
    assert_eq!(user.password_hash().as_str(), CURRENT_HASH);
    assert_eq!(user.clone().password_hash().clone().into_string(), CURRENT_HASH);
    let fresh = User::new(None, name("eve"), "pw", "eve@example.com".to_string(), name("Eve"));
    assert!(!fresh.has_id());
    assert_eq!(fresh.username(), "eve");
    assert_eq!(fresh.name(), "Eve");
    assert_eq!(fresh.email(), "eve@example.com");
}

#[test]
fn credentials_give_the_fields() {
    let entered = credentials("bob", "password");
    assert_eq!(entered.username(), "bob");
    assert_eq!(entered.password(), "password");
    assert_eq!(entered.clone().username(), "bob");
}

#[test]
fn new_hash_verifies_its_password() {
    let hash = PasswordHash::from_password("correct-horse");
    assert!(matches!(hash.verify("correct-horse"), Verification::Valid));
    assert!(matches!(hash.verify("correct-horsf"), Verification::Invalid));
    assert_ne!(hash.as_str(), "correct-horse");
    assert_ne!(hash.as_str(), PasswordHash::from_password("correct-horse").as_str());
}

#[test]
fn stored_hash_verifies_its_password() {
    let hash = PasswordHash::from_stored(CURRENT_HASH.to_string());
    assert!(matches!(hash.verify("password"), Verification::Valid));
    assert!(matches!(hash.verify("wrongpassword"), Verification::Invalid));
}

#[test]
fn malformed_hash_is_invalid() {
    assert!(matches!(PasswordHash::from_stored(String::new()).verify(""), Verification::Invalid));
    assert!(matches!(
        PasswordHash::from_stored("password".to_string()).verify("password"),
        Verification::Invalid
    ));
    assert!(matches!(
        PasswordHash::from_stored("$argon2id$".repeat(20)).verify("password"),
        Verification::Invalid
    ));
}

#[test]
fn legacy_hash_is_valid_but_obsolete() {
    let hash = PasswordHash::from_stored(LEGACY_HASH.to_string());
    match hash.verify("password") {
        Verification::ValidButObsolete(fresh) => {
            assert_ne!(fresh.as_str(), LEGACY_HASH);
            assert!(matches!(fresh.verify("password"), Verification::Valid));
        },
        _ => panic!("the legacy hash should verify as obsolete"),
    }
    assert!(matches!(hash.verify("wrongpassword"), Verification::Invalid));
}

#[test]
fn lookup_key_is_the_username() {
    assert_eq!(User::lookup_key(&credentials("bob", "x")).unwrap().as_str(), "bob");
    assert_eq!(
        User::lookup_key(&credentials(&"u".repeat(254), "x")).unwrap().as_str(),
        "u".repeat(254)
    );
}

#[test]
fn lookup_key_refuses_an_oversized_username() {
    assert!(matches!(
        User::lookup_key(&credentials(&"u".repeat(255), "x")),
        Err(AuthError::InvalidCredentialsFormat)
    ));
    assert!(matches!(
        User::lookup_key(&credentials(&"u".repeat(100_000), "x")),
        Err(AuthError::InvalidCredentialsFormat)
    ));
}

#[test]
fn authenticate_with_the_right_password() {
    match User::authenticate(Some(stored(CURRENT_HASH)), &credentials("bob", "password")) {
        AuthStep::Done(Some(user)) => {
            assert_eq!(user.id(), 3);
            assert_eq!(user.username(), "bob");
            assert_eq!(user.password_hash().as_str(), CURRENT_HASH);
        },
        _ => panic!("the right password should authenticate"),
    }
}

#[test]
fn authenticate_with_wrong_password_or_unknown_user() {
    let wrong = User::authenticate(Some(stored(CURRENT_HASH)), &credentials("bob", "nope"));
    let unknown = User::authenticate(None, &credentials("nobody", "password"));
    assert!(matches!(wrong, AuthStep::Done(None)));
    assert!(matches!(unknown, AuthStep::Done(None)));
}

#[test]
fn authenticate_upgrades_a_legacy_hash() {
    let step = User::authenticate(Some(stored(LEGACY_HASH)), &credentials("bob", "password"));
    let upgraded = match step {
        AuthStep::Save(user) => user,
        _ => panic!("a legacy hash should be saved anew"),
    };
    assert_eq!(upgraded.id(), 3);
    assert_eq!(upgraded.username(), "bob");
    assert_eq!(upgraded.name(), "Bob");
    assert_eq!(upgraded.email(), "bob@example.com");
    assert_ne!(upgraded.password_hash().as_str(), LEGACY_HASH);
    assert!(upgraded.password_hash().as_str().starts_with("$argon2id$"));
    let record = upgraded.clone();
    match User::conclude(upgraded, Ok(())) {
        Ok(Some(user)) => assert_eq!(user.password_hash().as_str(), record.password_hash().as_str()),
        _ => panic!("a saved record should authenticate"),
    }
    let again = User::authenticate(Some(record), &credentials("bob", "password"));
    assert!(matches!(again, AuthStep::Done(Some(_))));
}

#[test]
fn resolve_follows_the_outcome() {
    assert!(matches!(
        User::resolve(stored(CURRENT_HASH), Verification::Valid),
        AuthStep::Done(Some(_))
    ));
    assert!(matches!(
        User::resolve(stored(CURRENT_HASH), Verification::Invalid),
        AuthStep::Done(None)
    ));
    let fresh = PasswordHash::from_stored("new-hash".to_string());
    match User::resolve(stored(CURRENT_HASH), Verification::ValidButObsolete(fresh)) {
        AuthStep::Save(user) => {
            assert_eq!(user.password_hash().as_str(), "new-hash");
            assert_eq!(user.username(), "bob");
            assert_eq!(user.id(), 3);
        },
        _ => panic!("an obsolete hash should be replaced"),
    }
}

#[test]
fn conclude_reports_a_failed_save() {
    match User::conclude(stored(CURRENT_HASH), Err("disk full".to_string())) {
        Err(AuthError::BackendError(cause)) => assert_eq!(cause, "disk full"),
        _ => panic!("a failed save should be reported"),
    }
}

#[test]
fn get_by_id_passes_the_answer_through() {
    assert!(matches!(User::get_by_id(Ok(None)), Ok(None)));
    match User::get_by_id(Ok(Some(stored(CURRENT_HASH)))) {
        Ok(Some(user)) => assert_eq!(user.id(), 3),
        _ => panic!("a found record should be passed on"),
    }
    match User::get_by_id(Err("no connection".to_string())) {
        Err(AuthError::BackendError(cause)) => assert_eq!(cause, "no connection"),
        _ => panic!("a failed lookup should be reported"),
    }
}

#[test]
fn set_password_replaces_the_hash_only() {
    let mut user = stored(CURRENT_HASH);
    user.set_password("battery-staple");
    assert_eq!(user.id(), 3);
    assert_eq!(user.username(), "bob");
    assert_ne!(user.password_hash().as_str(), CURRENT_HASH);
    assert!(matches!(user.password_hash().verify("battery-staple"), Verification::Valid));
    assert!(matches!(user.password_hash().verify("password"), Verification::Invalid));
}

#[test]
fn with_password_hash_replaces_the_hash_only() {
    let user = stored(CURRENT_HASH).with_password_hash(PasswordHash::from_stored("h".to_string()));
    assert_eq!(user.password_hash().as_str(), "h");
    assert_eq!(user.name(), "Bob");
}

#[test]
fn session_auth_hash_is_the_keyed_digest_of_the_hash() {
    let user = stored("stored-hash");
    let binding = user.session_auth_hash(b"s3cret").unwrap();
    let hex: String = binding.iter().map(|b| format!("{:02x}", b)).collect();
    assert_eq!(
        hex,
        "890d963a73884ae7195220a8c855555ca4fdf922533ca55d92744d78930a1887f47a2eccdae64d9c39562ba37c106c8f958e31aceff4facb5cdd452ee592ea97"
    );
}

#[test]
fn session_auth_hash_follows_the_password_hash() {
    let before = stored("stored-hash");
    let after = stored("other-hash");
    assert_eq!(before.session_auth_hash(b"k"), stored("stored-hash").session_auth_hash(b"k"));
    assert_ne!(before.session_auth_hash(b"k"), after.session_auth_hash(b"k"));
    assert_ne!(before.session_auth_hash(b"k"), before.session_auth_hash(b"l"));
}

#[test]
fn signup_makes_a_record_without_id() {
    let user = signup_user(
        "Carol C".to_string(),
        "carol@example.com".to_string(),
        "carol".to_string(),
        "pw-one",
        "pw-one",
    )
    .unwrap();
    assert!(!user.has_id());
    assert_eq!(user.username(), "carol");
    assert_eq!(user.name(), "Carol C");
    assert_eq!(user.email(), "carol@example.com");
    assert!(matches!(user.password_hash().verify("pw-one"), Verification::Valid));
}

#[test]
fn signup_refuses_in_order() {
    let long = "n".repeat(300);
    assert_eq!(
        signup_user(long.clone(), String::new(), long.clone(), "a", "b").err(),
        Some(SignupError::PasswordMismatch)
    );
    assert_eq!(
        signup_user(long.clone(), String::new(), long.clone(), "a", "a").err(),
        Some(SignupError::UsernameTooLong(300))
    );
    assert_eq!(
        signup_user(long.clone(), String::new(), "carol".to_string(), "a", "a").err(),
        Some(SignupError::NameTooLong(300))
    );
}

#[test]
fn verification_clone_keeps_the_outcome() {
    assert!(matches!(Verification::Valid.clone(), Verification::Valid));
    assert!(matches!(Verification::Invalid.clone(), Verification::Invalid));
    let fresh = Verification::ValidButObsolete(PasswordHash::from_stored("h".to_string()));
    match fresh.clone() {
        Verification::ValidButObsolete(hash) => assert_eq!(hash.as_str(), "h"),
        _ => panic!("the clone should carry the hash"),
    }
}
