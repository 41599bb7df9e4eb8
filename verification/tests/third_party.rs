use biscuit_token::authorizer::Authorizer;
use biscuit_token::builder::BlockBuilder;
use biscuit_token::crypto::KeyPair;
use biscuit_token::errors::BiscuitError;
use biscuit_token::datalog::Policy;
use biscuit_token::third_party::ThirdPartyRequest;
use biscuit_token::token::Biscuit;

fn basic_token(kp: &KeyPair) -> Biscuit {
    let mut builder = Biscuit::builder();
    builder.add_code("right(\"read\");").unwrap();
    builder.build(&kp.private()).unwrap()
}

fn admin_block() -> BlockBuilder {
    let mut block = BlockBuilder::new();
    block.add_code("admin(\"alice\");").unwrap();
    block
}

#[test]
fn third_party_block_appends_to_its_own_token() {
    let root = KeyPair::new();
    let third = KeyPair::new();
    let token = basic_token(&root);

    let request = token.third_party_request().unwrap();
    let block = request
        .create_block(&third.private(), admin_block())
        .unwrap();
    let extended = token.append_third_party(third.public(), block).unwrap();
    assert_eq!(extended.block_count(), 2);
}

#[test]
fn third_party_block_rejected_by_other_token() {
    let root = KeyPair::new();
    let third = KeyPair::new();
    // two tokens under the same root key, built independently
    let token1 = basic_token(&root);
    let token2 = basic_token(&root);

    let request = token1.third_party_request().unwrap();
    let block = request
        .create_block(&third.private(), admin_block())
        .unwrap();
    // the block is bound to token1's chain state: token2 refuses it
    assert!(token2.append_third_party(third.public(), block).is_err());
}

#[test]
fn third_party_request_rejected_on_sealed_token() {
    let root = KeyPair::new();
    let token = basic_token(&root).seal().unwrap();
    assert_eq!(
        token.third_party_request().unwrap_err(),
        BiscuitError::AppendOnSealed
    );
}

#[test]
fn third_party_request_serialization_roundtrip() {
    let root = KeyPair::new();
    let third = KeyPair::new();
    let token = basic_token(&root);

    let request = token.third_party_request().unwrap();
    let bytes = request.to_bytes().unwrap();
    let text = request.to_base64().unwrap();
    assert_eq!(text, base64::encode_config(&bytes, base64::URL_SAFE));

    // a request reconstructed from its bytes produces a block the same
    // token accepts
    let request2 = ThirdPartyRequest::from_bytes(&bytes).unwrap();
    let block = request2
        .create_block(&third.private(), admin_block())
        .unwrap();
    assert!(token.append_third_party(third.public(), block).is_ok());

    let request3 = ThirdPartyRequest::from_base64(&text).unwrap();
    let block3 = request3
        .create_block(&third.private(), admin_block())
        .unwrap();
    assert!(token.append_third_party(third.public(), block3).is_ok());
}

#[test]
fn third_party_block_serialization_roundtrip() {
    let root = KeyPair::new();
    let third = KeyPair::new();
    let token = basic_token(&root);

    let request = token.third_party_request().unwrap();
    let block = request
        .create_block(&third.private(), admin_block())
        .unwrap();
    let bytes = block.to_bytes().unwrap();
    let text = block.to_base64().unwrap();
    assert_eq!(text, base64::encode_config(&bytes, base64::URL_SAFE));
}

#[test]
fn scoped_fact_invisible_without_trust() {
    let root = KeyPair::new();
    let third = KeyPair::new();

    // a token whose authority check needs a fact from a later block, once
    // with a scope annotation trusting the third party, once without
    let mut trusting_builder = Biscuit::builder();
    trusting_builder
        .add_code_with_parameters(
            "right(\"read\"); check if admin(\"alice\") trusting {third};",
            Vec::new(),
            vec![(String::from("third"), third.public())],
        )
        .unwrap();
    let trusting_token = trusting_builder.build(&root.private()).unwrap();

    let mut plain_builder = Biscuit::builder();
    plain_builder
        .add_code("right(\"read\"); check if admin(\"alice\");")
        .unwrap();
    let plain_token = plain_builder.build(&root.private()).unwrap();

    for (token, expect_granted) in [(trusting_token, true), (plain_token, false)] {
        let request = token.third_party_request().unwrap();
        let block = request
            .create_block(&third.private(), admin_block())
            .unwrap();
        let extended = token.append_third_party(third.public(), block).unwrap();

        let mut authorizer = extended.authorizer().unwrap();
        authorizer.add_code("allow if true;").unwrap();
        let decision = authorizer.authorize();
        if expect_granted {
            // the scope admits the third party: its fact satisfies the check
            assert_eq!(decision.unwrap(), 0);
        } else {
            // the default scope excludes the later block's fact: the check
            // that depends on it fails
            assert!(decision.is_err());
        }
    }
}

#[test]
fn authorizer_state_visible_after_token() {
    let root = KeyPair::new();
    let token = basic_token(&root);
    let mut authorizer = token.authorizer().unwrap();
    assert!(authorizer.token.is_some());
    assert_eq!(authorizer.policies.len(), 0);
    authorizer
        .add_policy(Policy::from_str("allow if true").unwrap())
        .unwrap();
    assert_eq!(authorizer.authorize().unwrap(), 0);
}
