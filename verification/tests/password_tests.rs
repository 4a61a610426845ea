use authbase::password::{Argon2Hash, Password};

#[test]
fn test_hash_and_verify() {
    let hasher = Argon2Hash::new();
    let password = "test_password";
    let password_hash = hasher.hash(password).unwrap();

    assert!(hasher.verify(password, &password_hash).unwrap());
}

#[test]
fn wrong_password_does_not_verify() {
    let hasher = Argon2Hash::new();
    let password_hash = hasher.hash("right horse").unwrap();
    assert!(!hasher.verify("wrong horse", &password_hash).unwrap());
}

#[test]
fn two_hashes_of_one_password_differ_by_salt() {
    let hasher = Argon2Hash::new();
    let first = hasher.hash("pw").unwrap();
    let second = hasher.hash("pw").unwrap();
    assert_ne!(first, second);
    assert!(hasher.verify("pw", &first).unwrap());
    assert!(hasher.verify("pw", &second).unwrap());
}

#[test]
fn unparseable_hash_is_an_error() {
    let hasher = Argon2Hash::new();
    assert!(hasher.verify("pw", "not a phc string").is_err());
}
