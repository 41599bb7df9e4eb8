use biscuit_token::builder::BiscuitBuilder;
use biscuit_token::builder::BlockBuilder;
use biscuit_token::crypto::KeyPair;
use biscuit_token::crypto::PublicKey;
use biscuit_token::errors::BiscuitError;
use biscuit_token::errors::FormatError;
use biscuit_token::token::Biscuit;

fn root() -> (KeyPair, PublicKey) {
    let kp = KeyPair::new();
    let pk = kp.public();
    (kp, pk)
}

fn basic_token(kp: &KeyPair) -> Biscuit {
    let mut builder = Biscuit::builder();
    builder.add_code("right(\"read\");").unwrap();
    builder.build(&kp.private()).unwrap()
}

fn pk_bytes(pk: &PublicKey) -> Vec<u8> {
    let mut out = vec![0u8; 32];
    pk.to_bytes(&mut out).unwrap();
    out
}

#[test]
fn build_then_verify_one_block() {
    let (kp, pk) = root();
    let token = basic_token(&kp);
    assert_eq!(token.block_count(), 1);
    let bytes = token.to_bytes().unwrap();
    let parsed = Biscuit::from_bytes(&bytes, &pk).unwrap();
    assert_eq!(parsed.block_count(), 1);
}

#[test]
fn append_increases_count_and_verifies() {
    let (kp, pk) = root();
    let token = basic_token(&kp);
    let mut block = BlockBuilder::new();
    block.add_code("check if right(\"read\");").unwrap();
    let attenuated = token.append(block).unwrap();
    assert_eq!(attenuated.block_count(), 2);
    // the original token is unaffected
    assert_eq!(token.block_count(), 1);
    let bytes = attenuated.to_bytes().unwrap();
    let parsed = Biscuit::from_bytes(&bytes, &pk).unwrap();
    assert_eq!(parsed.block_count(), 2);
}

#[test]
fn append_to_sealed_fails() {
    let (kp, _) = root();
    let token = basic_token(&kp);
    let sealed = token.seal().unwrap();
    let mut block = BlockBuilder::new();
    block.add_code("check if right(\"read\");").unwrap();
    assert_eq!(
        sealed.append(block).unwrap_err(),
        BiscuitError::AlreadySealed
    );
}

#[test]
fn sealed_token_still_verifies() {
    let (kp, pk) = root();
    let token = basic_token(&kp);
    let sealed = token.seal().unwrap();
    let bytes = sealed.to_bytes().unwrap();
    let parsed = Biscuit::from_bytes(&bytes, &pk).unwrap();
    assert_eq!(parsed.block_count(), 1);
}

#[test]
fn roundtrip_preserves_observable_content() {
    let (kp, pk) = root();
    let token = basic_token(&kp);
    let mut block = BlockBuilder::new();
    block.add_code("check if right(\"read\");").unwrap();
    let attenuated = token.append(block).unwrap();

    let bytes = attenuated.to_bytes().unwrap();
    let parsed = Biscuit::from_bytes(&bytes, &pk).unwrap();

    assert_eq!(parsed.block_count(), attenuated.block_count());
    assert_eq!(
        parsed.revocation_identifiers(),
        attenuated.revocation_identifiers()
    );
    for index in 0..attenuated.block_count() {
        assert_eq!(
            parsed.block_source(index).unwrap(),
            attenuated.block_source(index).unwrap()
        );
    }
}

#[test]
fn base64_roundtrip() {
    let (kp, pk) = root();
    let token = basic_token(&kp);
    let text = token.to_base64().unwrap();
    let parsed = Biscuit::from_base64(&text, &pk).unwrap();
    assert_eq!(parsed.block_count(), 1);
    assert_eq!(
        parsed.revocation_identifiers(),
        token.revocation_identifiers()
    );
    // the base64 form is the URL-safe encoding of the canonical bytes
    let bytes = token.to_bytes().unwrap();
    assert_eq!(text, base64::encode_config(&bytes, base64::URL_SAFE));
    assert_eq!(
        base64::decode_config(&text, base64::URL_SAFE).unwrap(),
        bytes
    );
}

#[test]
fn from_bytes_rejects_garbage() {
    let (_, pk) = root();
    match Biscuit::from_bytes(&[1, 2, 3, 4], &pk) {
        Err(BiscuitError::Format(_)) => {}
        other => panic!("unexpected result: {:?}", other.map(|_| ()).err()),
    }
}

#[test]
fn from_bytes_rejects_wrong_root() {
    let (kp, _) = root();
    let (_, other_pk) = root();
    let token = basic_token(&kp);
    let bytes = token.to_bytes().unwrap();
    match Biscuit::from_bytes(&bytes, &other_pk) {
        Err(BiscuitError::Format(_)) => {}
        other => panic!("unexpected result: {:?}", other.map(|_| ()).err()),
    }
}

#[test]
fn from_bytes_rejects_tampered_bytes() {
    let (kp, pk) = root();
    let token = basic_token(&kp);
    let mut bytes = token.to_bytes().unwrap();
    let last = bytes.len() - 1;
    bytes[last] ^= 0xff;
    assert!(Biscuit::from_bytes(&bytes, &pk).is_err());
}

#[test]
fn revocation_identifiers_unique_and_stable() {
    let (kp, pk) = root();
    let token = basic_token(&kp);
    let mut block = BlockBuilder::new();
    block.add_code("check if right(\"read\");").unwrap();
    let attenuated = token.append(block).unwrap();

    let ids = attenuated.revocation_identifiers();
    assert_eq!(ids.len(), 2);
    assert_ne!(ids[0], ids[1]);

    // stable across repeated serialization
    let bytes1 = attenuated.to_bytes().unwrap();
    let bytes2 = attenuated.to_bytes().unwrap();
    assert_eq!(bytes1, bytes2);
    let parsed = Biscuit::from_bytes(&bytes1, &pk).unwrap();
    assert_eq!(parsed.revocation_identifiers(), ids);

    // the first identifier of the attenuated token is the original's
    assert_eq!(token.revocation_identifiers()[0], ids[0]);
}

#[test]
fn revocation_identifiers_match_engine() {
    let (kp, pk) = root();
    let token = basic_token(&kp);
    let bytes = token.to_bytes().unwrap();
    let raw_key = biscuit_auth::PublicKey::from_bytes(&pk_bytes(&pk)).unwrap();
    let raw = biscuit_auth::Biscuit::from(&bytes, raw_key).unwrap();
    let expected: Vec<String> = raw
        .revocation_identifiers()
        .into_iter()
        .map(|id| base64::encode_config(id, base64::URL_SAFE))
        .collect();
    assert_eq!(token.revocation_identifiers(), expected);
}

#[test]
fn block_source_renders_block_content() {
    let (kp, _) = root();
    let token = basic_token(&kp);
    let source = token.block_source(0).unwrap();
    assert!(source.contains("right(\"read\")"));
}

#[test]
fn block_source_out_of_range() {
    let (kp, _) = root();
    let token = basic_token(&kp);
    assert_eq!(
        token.block_source(1).unwrap_err(),
        BiscuitError::Format(FormatError::InvalidBlockId(1))
    );
    assert_eq!(
        token.block_source(7).unwrap_err(),
        BiscuitError::Format(FormatError::InvalidBlockId(7))
    );
}

#[test]
fn builder_merge_combines_blocks() {
    let (kp, _) = root();
    let mut builder = BiscuitBuilder::new();
    builder.add_code("right(\"read\");").unwrap();
    let mut extra = BlockBuilder::new();
    extra.add_code("right(\"write\");").unwrap();
    builder.merge(extra);
    let token = builder.build(&kp.private()).unwrap();
    assert_eq!(token.block_count(), 1);
    let source = token.block_source(0).unwrap();
    assert!(source.contains("right(\"read\")"));
    assert!(source.contains("right(\"write\")"));
}

#[test]
fn from_base64_rejects_invalid_text() {
    let (_, pk) = root();
    match Biscuit::from_base64("!!!not base64!!!", &pk) {
        Err(BiscuitError::Base64(_)) => {}
        other => panic!("unexpected result: {:?}", other.map(|_| ()).err()),
    }
}
