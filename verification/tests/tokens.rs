use questarch::token::{
    token_char, well_formed_token, CHALLENGE_REGCODE_LEN, MAX_ATTEMPTS, RESPONSE_LEN,
    SESSION_ID_LEN,
};

#[test]
fn lengths_of_the_secrets() {
    assert_eq!(SESSION_ID_LEN, 16);
    assert_eq!(CHALLENGE_REGCODE_LEN, 16);
    assert_eq!(RESPONSE_LEN, 8);
    assert_eq!(MAX_ATTEMPTS, 10);
}

#[test]
fn letters_and_digits_are_token_characters() {
    for c in "0123456789ABCDEFGHIJKLMNOPQRSTUVWXYZabcdefghijklmnopqrstuvwxyz".chars() {
        assert!(token_char(c), "{c}");
    }
}

#[test]
fn neighbours_of_the_alphabet_are_not_token_characters() {
    for c in ['/', ':', '@', '[', '`', '{', ' ', '-', '_', '\n', '\0', 'é', 'ß', '٣', '藏'] {
        assert!(!token_char(c), "{c:?}");
    }
}

#[test]
fn token_of_the_right_length_and_alphabet_is_well_formed() {
    assert!(well_formed_token("AbCd1234", 8));
    assert!(well_formed_token("0123456789abcdef", 16));
    assert!(well_formed_token("", 0));
}

#[test]
fn token_of_the_wrong_length_is_malformed() {
    assert!(!well_formed_token("AbCd123", 8));
    assert!(!well_formed_token("AbCd12345", 8));
    assert!(!well_formed_token("", 8));
    assert!(!well_formed_token("0123456789abcdef0", 16));
}

#[test]
fn token_with_a_foreign_character_is_malformed() {
    assert!(!well_formed_token("AbCd-234", 8));
    assert!(!well_formed_token("AbCd 234", 8));
    assert!(!well_formed_token("0123456789abcde!", 16));
}

#[test]
fn length_is_counted_in_characters() {
    // Eight two-byte letters are sixteen bytes, but neither sixteen
    // characters nor from the alphabet.
    assert!(!well_formed_token("éééééééé", 16));
    assert!(!well_formed_token("éééééééé", 8));
    assert!(!well_formed_token("abcdefghijklmnoé", 16));
}
