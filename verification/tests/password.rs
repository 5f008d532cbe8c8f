use copycat_code::password::hash_password;
use copycat_code::password::password_matches;

#[test]
fn hash_of_documented_whirlpool_vector() {
    // Whirlpool("Hello Whirlpool") from the whirlpool crate's documentation, in Base64.
    assert_eq!(
        hash_password("Hello Whirlpool"),
        "jqzNwTaQPEWOoLE3a+Kl/J3FuM6IkqO09DNm4mEMIGyjc4FkleY9sP/y/yX3WqcWLzMsn1GMMDZFZQKoQU0wCg=="
    );
}

#[test]
fn hash_of_empty_password() {
    assert_eq!(
        hash_password(""),
        "Gfph11UipGabROOcHS4XJsUwIyEw1Af4mv7glkmX96c+g75piyiP68+I4+A8TwdX6olk5Ztj2TcIsTjMQqZusw=="
    );
}

#[test]
fn hash_is_eighty_eight_symbols_ending_in_padding() {
    for password in ["", "a", "correct horse battery staple", "пароль"] {
        let hashed = hash_password(password);
        assert_eq!(hashed.len(), 88);
        assert!(hashed.ends_with("=="));
    }
}

#[test]
fn hash_differs_from_password_and_is_deterministic() {
    let first = hash_password("secret");
    let second = hash_password("secret");
    assert_eq!(first, second);
    assert_ne!(first, "secret");
    assert_ne!(first, hash_password("Secret"));
}

#[test]
fn password_matches_only_its_own_hash() {
    let stored = hash_password("secret");
    assert!(password_matches(&stored, "secret"));
    assert!(!password_matches(&stored, "secret "));
    assert!(!password_matches(&"secret".to_string(), "secret"));
}
