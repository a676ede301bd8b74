use thread_tracker::{hash_password, hash_password_to_string};

#[test]
fn hashing_is_deterministic() {
    let d1 = hash_password("opensesame");
    let d2 = hash_password("opensesame");
    assert_eq!(d1, d2);
    assert_eq!(d1.len(), 32);
    let s1 = hash_password_to_string("opensesame");
    let s2 = hash_password_to_string("opensesame");
    assert_eq!(s1, s2);
    assert_eq!(s1.len(), 64);
}

#[test]
fn digest_differs_without_salt_suffix() {
    // The digest of "opensesame" under the derived salt "opensesame_salt_lol"
    // must differ from Argon2 of "opensesame" salted with the bare password.
    let salted = hash_password("opensesame");
    let mut unsalted = [0u8; 32];
    argon2::Argon2::default()
        .hash_password_into(b"opensesame", b"opensesame", &mut unsalted)
        .expect("unable to hash password");
    assert_ne!(salted.as_slice(), unsalted.as_slice());
}

#[test]
fn hex_form_matches_raw_digest() {
    let raw = hash_password("correct horse");
    let hexed = hash_password_to_string("correct horse");
    assert_eq!(hex::encode(&raw), hexed);
    assert!(hexed.chars().all(|c| c.is_ascii_hexdigit() && !c.is_ascii_uppercase()));
}

#[test]
fn different_passwords_hash_differently() {
    assert_ne!(hash_password_to_string("alpha"), hash_password_to_string("beta"));
}
