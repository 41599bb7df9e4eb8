use biscuit_token::crypto::KeyPair;
use biscuit_token::crypto::PrivateKey;
use biscuit_token::crypto::PublicKey;
use biscuit_token::datalog::Term;
use biscuit_token::errors::BiscuitError;
use biscuit_token::errors::FormatError;

#[test]
fn private_key_bytes_roundtrip() {
    let sk = PrivateKey::from_bytes(&[1u8; 32]).unwrap();
    let mut out = vec![0u8; 32];
    sk.to_bytes(&mut out).unwrap();
    assert_eq!(out, vec![1u8; 32]);
}

#[test]
fn private_key_wrong_length_rejected() {
    let r = PrivateKey::from_bytes(&[1u8; 31]);
    assert_eq!(
        r.unwrap_err(),
        BiscuitError::Format(FormatError::InvalidKeySize(31))
    );
}

#[test]
fn private_key_to_hex_exact() {
    let sk = PrivateKey::from_bytes(&[1u8; 32]).unwrap();
    assert_eq!(sk.to_hex(), "01".repeat(32));
    let sk2 = PrivateKey::from_bytes(&[0xabu8; 32]).unwrap();
    assert_eq!(sk2.to_hex(), "ab".repeat(32));
}

#[test]
fn private_key_hex_roundtrip() {
    let sk = PrivateKey::from_bytes(&[7u8; 32]).unwrap();
    let hex = sk.to_hex();
    let sk2 = PrivateKey::from_hex(&hex).unwrap();
    let mut out = vec![0u8; 32];
    sk2.to_bytes(&mut out).unwrap();
    assert_eq!(out, vec![7u8; 32]);
}

#[test]
fn private_key_from_hex_uppercase_accepted() {
    let sk = PrivateKey::from_hex(&"AB".repeat(32)).unwrap();
    assert_eq!(sk.to_hex(), "ab".repeat(32));
}

#[test]
fn private_key_from_hex_malformed_rejected() {
    match PrivateKey::from_hex("zz") {
        Err(BiscuitError::Format(FormatError::InvalidKey(_))) => {}
        other => panic!("unexpected result: {:?}", other.map(|_| ())),
    }
    // odd length
    assert!(PrivateKey::from_hex("abc").is_err());
    // even hex digits but not 32 bytes
    assert!(PrivateKey::from_hex("abcd").is_err());
}

#[test]
fn public_key_bytes_roundtrip() {
    let kp = KeyPair::new();
    let pk = kp.public();
    let mut out = vec![0u8; 32];
    pk.to_bytes(&mut out).unwrap();
    let pk2 = PublicKey::from_bytes(&out).unwrap();
    assert_eq!(pk2.to_hex(), pk.to_hex());
}

#[test]
fn public_key_buffer_size_checked() {
    let kp = KeyPair::new();
    let pk = kp.public();
    let mut small = vec![0u8; 5];
    assert_eq!(
        pk.to_bytes(&mut small).unwrap_err(),
        BiscuitError::Format(FormatError::InvalidKeySize(5))
    );
    // the buffer is left unchanged on failure
    assert_eq!(small, vec![0u8; 5]);
    let mut big = vec![0u8; 33];
    assert_eq!(
        pk.to_bytes(&mut big).unwrap_err(),
        BiscuitError::Format(FormatError::InvalidKeySize(33))
    );
}

#[test]
fn public_key_hex_roundtrip() {
    let kp = KeyPair::new();
    let pk = kp.public();
    let hex = pk.to_hex();
    assert_eq!(hex.len(), 64);
    let pk2 = PublicKey::from_hex(&hex).unwrap();
    assert_eq!(pk2.to_hex(), hex);
}

#[test]
fn public_key_textual_form() {
    let kp = KeyPair::new();
    let pk = kp.public();
    let text = format!("ed25519/{}", pk.to_hex());
    let pk2 = PublicKey::from_text(&text).unwrap();
    assert_eq!(pk2.to_hex(), pk.to_hex());
}

#[test]
fn public_key_textual_form_wrong_prefix_rejected() {
    let kp = KeyPair::new();
    let hex = kp.public().to_hex();
    match PublicKey::from_text(&format!("p256/{}", hex)) {
        Err(BiscuitError::Format(FormatError::InvalidKey(_))) => {}
        other => panic!("unexpected result: {:?}", other.map(|_| ())),
    }
    assert!(PublicKey::from_text(&hex).is_err());
    assert!(PublicKey::from_text("").is_err());
}

#[test]
fn keypair_from_private_derives_same_public() {
    let kp = KeyPair::new();
    let sk_hex = kp.private().to_hex();
    let pk_hex = kp.public().to_hex();
    let kp2 = KeyPair::from(PrivateKey::from_hex(&sk_hex).unwrap());
    assert_eq!(kp2.public().to_hex(), pk_hex);
    assert_eq!(kp2.private().to_hex(), sk_hex);
}

#[test]
fn generated_keys_differ() {
    let a = KeyPair::new();
    let b = KeyPair::new();
    assert_ne!(a.private().to_hex(), b.private().to_hex());
}

#[test]
fn term_equality_by_kind_and_value() {
    let a = Term::Str(String::from("alice"));
    let b = Term::Str(String::from("alice"));
    let c = Term::Str(String::from("bob"));
    assert!(a.same(&b));
    assert!(!a.same(&c));
    assert!(!a.same(&Term::Bool(true)));
    assert!(Term::Integer(3).same(&Term::Integer(3)));
    assert!(!Term::Integer(3).same(&Term::Integer(4)));
    assert!(!Term::Integer(3).same(&Term::Date(3)));
    assert!(Term::Bytes(vec![1, 2]).same(&Term::Bytes(vec![1, 2])));
    assert!(!Term::Bytes(vec![1, 2]).same(&Term::Bytes(vec![1, 3])));
    assert!(Term::Variable(String::from("v")).same(&Term::Variable(String::from("v"))));
}
