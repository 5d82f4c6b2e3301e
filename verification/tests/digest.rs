use auth_extension::digest::{hash_password, to_hex};

#[test]
fn hash_of_secret() {
    assert_eq!(hash_password("secret"), "5ebe2294ecd0e0f08eab7690d2a6ee69");
}

#[test]
fn hash_of_wrong() {
    assert_eq!(hash_password("wrong"), "2bda2998d9b0ee197da142a0447f6725");
}

#[test]
fn hash_of_empty_password() {
    assert_eq!(hash_password(""), "d41d8cd98f00b204e9800998ecf8427e");
}

#[test]
fn hash_of_alphabet() {
    assert_eq!(
        hash_password("abcdefghijklmnopqrstuvwxyz"),
        "c3fcd3d76192e4007dfb496cca67e13b"
    );
}

#[test]
fn hash_takes_the_utf8_bytes() {
    assert_eq!(hash_password("pässwörd"), "12841e4ba5e37d2fbfc78458c6714ade");
}

#[test]
fn hash_is_not_the_password() {
    assert_ne!(hash_password("secret"), "secret");
}

#[test]
fn hash_is_the_same_each_time() {
    let first = hash_password("hunter2");
    let second = hash_password("hunter2");
    assert_eq!(first, second);
    assert_eq!(first, "2ab96390c7dbe3439de74d0c9b0b1767");
}

#[test]
fn hash_has_thirty_two_hex_digits() {
    for password in ["", "a", "secret", "correct horse", "pässwörd"] {
        let hash = hash_password(password);
        assert_eq!(hash.len(), 32);
        assert!(hash.chars().all(|c| matches!(c, '0'..='9' | 'a'..='f')));
    }
}

#[test]
fn different_passwords_have_different_hashes() {
    assert_ne!(hash_password("secret"), hash_password("wrong"));
}

#[test]
fn hex_of_no_bytes_is_empty() {
    assert_eq!(to_hex(&[]), "");
}

#[test]
fn hex_writes_two_digits_per_byte() {
    assert_eq!(to_hex(&[0x00, 0x0f, 0xa0, 0xff]), "000fa0ff");
}

#[test]
fn hex_puts_the_high_half_first() {
    assert_eq!(to_hex(&[0x1e]), "1e");
    assert_eq!(to_hex(&[0xe1]), "e1");
}

#[test]
fn hex_covers_every_digit() {
    assert_eq!(
        to_hex(&[0x01, 0x23, 0x45, 0x67, 0x89, 0xab, 0xcd, 0xef]),
        "0123456789abcdef"
    );
}

#[test]
fn hex_of_every_byte() {
    for byte in 0..=255u8 {
        assert_eq!(to_hex(&[byte]), format!("{:02x}", byte));
    }
}
