use base64ct::{Base64, Encoding};
use md5::Digest as Md5Digest;
use sha1::Digest as Sha1Digest;

use miai::signing::{client_sign, hash_password};

#[test]
fn hash_password_known_vector() {
    assert_eq!(hash_password("password"), "5F4DCC3B5AA765D61D8327DEB882CF99");
}

#[test]
fn hash_password_empty_input() {
    assert_eq!(hash_password(""), "D41D8CD98F00B204E9800998ECF8427E");
}

#[test]
fn hash_password_deterministic_fixed_length_upper_hex() {
    let a = hash_password("hunter2");
    let b = hash_password("hunter2");
    assert_eq!(a, b);
    assert_eq!(a.len(), 32);
    assert!(a.chars().all(|c| c.is_ascii_digit() || ('A'..='F').contains(&c)));
}

#[test]
fn hash_password_matches_direct_digest() {
    let digest = md5::Md5::digest("sw0rdf1sh".as_bytes());
    let expected: String = digest.iter().map(|b| format!("{:02X}", b)).collect();
    assert_eq!(hash_password("sw0rdf1sh"), expected);
}

#[test]
fn client_sign_matches_direct_computation() {
    let nonce: i64 = 1234567890123;
    let ssecurity = "c2VjcmV0c3RyaW5n";
    let input = format!("nonce={}&{}", nonce, ssecurity);
    let expected = Base64::encode_string(&sha1::Sha1::digest(input.as_bytes()));
    let got = client_sign(nonce, ssecurity);
    assert_eq!(got, expected);
    assert_eq!(got.len(), 28);
    assert!(got.ends_with('='));
}

#[test]
fn client_sign_negative_nonce() {
    let input = "nonce=-42&s3c";
    let expected = Base64::encode_string(&sha1::Sha1::digest(input.as_bytes()));
    assert_eq!(client_sign(-42, "s3c"), expected);
}

#[test]
fn client_sign_deterministic() {
    assert_eq!(client_sign(7, "abc"), client_sign(7, "abc"));
}

#[test]
fn client_sign_input_sensitive() {
    let base = client_sign(7, "abc");
    assert_ne!(base, client_sign(8, "abc"));
    assert_ne!(base, client_sign(7, "abd"));
}

#[test]
fn client_sign_no_collisions_in_nonce_sample() {
    let mut seen: Vec<String> = Vec::new();
    for nonce in 0..64i64 {
        let s = client_sign(nonce, "fixed");
        assert!(!seen.contains(&s));
        seen.push(s);
    }
}
