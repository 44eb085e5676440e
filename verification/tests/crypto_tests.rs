use ghpc::crypto::{
    base64_to_pem, choose_public_key, default_public_key_text, encrypt_password,
    encrypt_password_with_public_key, extract_public_key, fallback_warning, pem_convertible_key,
    public_key_from_script,
};
use ghpc::errors::GhpcError;

#[test]
fn public_key_is_found_in_script() {
    assert_eq!(extract_public_key("a; var key = 'ABC+/='; b").as_deref(), Some("ABC+/="));
    assert_eq!(extract_public_key("var key = ''"), None);
    assert_eq!(extract_public_key("var key = \"X\""), None);
    assert_eq!(
        public_key_from_script("nothing").unwrap_err(),
        "Failed to extract public key from login.js"
    );
    assert_eq!(public_key_from_script("var key = 'K'").unwrap(), "K");
}

#[test]
fn fallback_key_and_warning() {
    assert_eq!(choose_public_key(Some("K".into())), "K");
    assert_eq!(choose_public_key(None), default_public_key_text());
    assert_eq!(
        fallback_warning("timeout", false).as_deref(),
        Some("Warning: Failed to fetch public key: timeout. Using fallback public key")
    );
    assert_eq!(fallback_warning("timeout", true), None);
}

#[test]
fn pem_has_64_character_lines() {
    let key: String = "A".repeat(130);
    assert!(pem_convertible_key(&key));
    let pem = base64_to_pem(&key);
    let lines: Vec<&str> = pem.split('\n').collect();
    assert_eq!(lines[0], "-----BEGIN PUBLIC KEY-----");
    assert_eq!(lines[1].len(), 64);
    assert_eq!(lines[2].len(), 64);
    assert_eq!(lines[3], "AA");
    assert_eq!(lines[4], "-----END PUBLIC KEY-----");
    assert_eq!(base64_to_pem(""), "-----BEGIN PUBLIC KEY-----\n\n-----END PUBLIC KEY-----");
    let mut split = "A".repeat(63);
    split.push('\u{e9}');
    assert!(!pem_convertible_key(&split));
}

#[test]
fn password_is_encrypted_with_the_default_key() {
    let out = encrypt_password_with_public_key("secret", default_public_key_text()).unwrap();
    // A 512-bit modulus gives 64 bytes of ciphertext, 88 characters of Base64.
    assert_eq!(out.len(), 88);
    let again = encrypt_password_with_public_key("secret", default_public_key_text()).unwrap();
    assert_ne!(out, again);
    let (warning, result) = encrypt_password("secret", Err("offline".into()), false);
    assert!(warning.unwrap().contains("offline"));
    assert_eq!(result.unwrap().len(), 88);
}

#[test]
fn bad_keys_and_long_passwords_fail() {
    assert!(matches!(
        encrypt_password_with_public_key("secret", "not a key"),
        Err(GhpcError::PublicKey(_))
    ));
    let long = "x".repeat(60);
    match encrypt_password_with_public_key(&long, default_public_key_text()) {
        Err(GhpcError::Encryption(reason)) => assert_eq!(reason, "message too long"),
        other => panic!("unexpected {:?}", other),
    }
}

#[test]
fn key_that_cannot_be_wrapped_is_an_error() {
    let mut split = "A".repeat(63);
    split.push('\u{e9}');
    match encrypt_password_with_public_key("secret", &split) {
        Err(GhpcError::PublicKey(reason)) => {
            assert_eq!(reason, "Invalid public key: its PEM lines are not valid UTF-8")
        }
        other => panic!("unexpected {:?}", other),
    }
    let (warning, result) = encrypt_password("secret", Ok(split), false);
    assert_eq!(warning, None);
    assert!(matches!(result, Err(GhpcError::PublicKey(_))));
}

#[test]
fn longest_password_for_the_default_key() {
    // A 64-byte modulus takes messages of at most 53 bytes.
    let fits = "x".repeat(53);
    assert_eq!(encrypt_password_with_public_key(&fits, default_public_key_text()).unwrap().len(), 88);
    let over = "x".repeat(54);
    assert!(matches!(
        encrypt_password_with_public_key(&over, default_public_key_text()),
        Err(GhpcError::Encryption(_))
    ));
    // UTF-8 bytes count, not characters: 27 two-byte characters are 54 bytes.
    let wide = "\u{e9}".repeat(27);
    assert!(matches!(
        encrypt_password_with_public_key(&wide, default_public_key_text()),
        Err(GhpcError::Encryption(_))
    ));
}
