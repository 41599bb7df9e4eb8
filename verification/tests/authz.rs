use biscuit_token::authorizer::Authorizer;
use biscuit_token::builder::BlockBuilder;
use biscuit_token::crypto::KeyPair;
use biscuit_token::datalog::Check;
use biscuit_token::datalog::Fact;
use biscuit_token::datalog::Policy;
use biscuit_token::datalog::Rule;
use biscuit_token::datalog::Term;
use biscuit_token::errors::BiscuitError;
use biscuit_token::errors::LogicError;
use biscuit_token::token::Biscuit;

fn basic_token(kp: &KeyPair) -> Biscuit {
    let mut builder = Biscuit::builder();
    builder.add_code("right(\"read\");").unwrap();
    builder.build(&kp.private()).unwrap()
}

#[test]
fn failed_check_trumps_allow_policy() {
    let mut authorizer = Authorizer::new();
    authorizer
        .add_fact(Fact::from_str("user(\"alice\")").unwrap())
        .unwrap();
    authorizer
        .add_rule(Rule::from_str("is_admin($u) <- admin_user($u)").unwrap())
        .unwrap();
    authorizer
        .add_check(Check::from_str("check if is_admin(\"alice\")").unwrap())
        .unwrap();
    authorizer
        .add_policy(Policy::from_str("allow if true").unwrap())
        .unwrap();
    match authorizer.authorize() {
        Err(BiscuitError::FailedLogic(LogicError::Unauthorized { checks, .. })) => {
            assert_eq!(checks.len(), 1);
        }
        other => panic!("unexpected result: {:?}", other),
    }
}

#[test]
fn satisfied_check_lets_allow_policy_match() {
    let mut authorizer = Authorizer::new();
    authorizer
        .add_fact(Fact::from_str("user(\"alice\")").unwrap())
        .unwrap();
    authorizer
        .add_fact(Fact::from_str("admin_user(\"alice\")").unwrap())
        .unwrap();
    authorizer
        .add_rule(Rule::from_str("is_admin($u) <- admin_user($u)").unwrap())
        .unwrap();
    authorizer
        .add_check(Check::from_str("check if is_admin(\"alice\")").unwrap())
        .unwrap();
    authorizer
        .add_policy(Policy::from_str("allow if true").unwrap())
        .unwrap();
    assert_eq!(authorizer.authorize().unwrap(), 0);
}

#[test]
fn first_matching_policy_decides_in_order() {
    let mut authorizer = Authorizer::new();
    authorizer
        .add_policy(Policy::from_str("deny if flag(\"x\")").unwrap())
        .unwrap();
    authorizer
        .add_policy(Policy::from_str("allow if true").unwrap())
        .unwrap();
    // no flag fact: the deny policy has no binding, the allow one matches
    assert_eq!(authorizer.authorize().unwrap(), 1);
}

#[test]
fn matched_deny_policy_reports_its_index() {
    let mut authorizer = Authorizer::new();
    authorizer
        .add_fact(Fact::from_str("flag(\"x\")").unwrap())
        .unwrap();
    authorizer
        .add_policy(Policy::from_str("deny if flag(\"x\")").unwrap())
        .unwrap();
    authorizer
        .add_policy(Policy::from_str("allow if true").unwrap())
        .unwrap();
    match authorizer.authorize() {
        Err(BiscuitError::FailedLogic(LogicError::Unauthorized { policy, checks })) => {
            assert_eq!(checks.len(), 0);
            assert_eq!(policy, biscuit_token::errors::MatchedPolicy::Deny(0));
        }
        other => panic!("unexpected result: {:?}", other),
    }
}

#[test]
fn no_matching_policy_is_an_error() {
    let mut authorizer = Authorizer::new();
    authorizer
        .add_policy(Policy::from_str("allow if flag(\"x\")").unwrap())
        .unwrap();
    match authorizer.authorize() {
        Err(BiscuitError::FailedLogic(LogicError::NoMatchingPolicy { .. })) => {}
        other => panic!("unexpected result: {:?}", other),
    }
}

#[test]
fn token_checks_are_enforced() {
    let kp = KeyPair::new();
    let token = basic_token(&kp);
    let mut block = BlockBuilder::new();
    block
        .add_code("check if resource(\"file1\");")
        .unwrap();
    let attenuated = token.append(block).unwrap();

    // without the resource fact the token's check fails
    let mut authorizer = attenuated.authorizer().unwrap();
    authorizer
        .add_policy(Policy::from_str("allow if true").unwrap())
        .unwrap();
    assert!(authorizer.authorize().is_err());

    // with it, authorization succeeds
    let mut authorizer = attenuated.authorizer().unwrap();
    authorizer
        .add_fact(Fact::from_str("resource(\"file1\")").unwrap())
        .unwrap();
    authorizer
        .add_policy(Policy::from_str("allow if true").unwrap())
        .unwrap();
    assert_eq!(authorizer.authorize().unwrap(), 0);
}

#[test]
fn add_code_splits_statements_and_keeps_order() {
    let mut authorizer = Authorizer::new();
    authorizer
        .add_code(
            "user(\"alice\");\n is_admin($u) <- admin_user($u);\n check if user(\"alice\");\n deny if flag(\"x\");\n allow if true;",
        )
        .unwrap();
    assert_eq!(authorizer.facts.len(), 1);
    assert_eq!(authorizer.rules.len(), 1);
    assert_eq!(authorizer.checks.len(), 1);
    assert_eq!(authorizer.policies.len(), 2);
    // the check holds, the deny policy has no binding: the allow one matches
    assert_eq!(authorizer.authorize().unwrap(), 1);
}

#[test]
fn add_code_fails_atomically() {
    let mut authorizer = Authorizer::new();
    let r = authorizer.add_code("user(\"alice\"); this is not datalog !!!");
    match r {
        Err(BiscuitError::Language(_)) => {}
        other => panic!("unexpected result: {:?}", other),
    }
    assert_eq!(authorizer.facts.len(), 0);
    assert_eq!(authorizer.rules.len(), 0);
    assert_eq!(authorizer.checks.len(), 0);
    assert_eq!(authorizer.policies.len(), 0);
}

#[test]
fn fact_parameters_are_filled_before_evaluation() {
    let mut fact = Fact::from_str("user({name})").unwrap();
    // an unknown parameter name is rejected
    assert!(matches!(
        fact.set("nam", Term::Str(String::from("alice"))),
        Err(BiscuitError::Language(_))
    ));
    fact.set("name", Term::Str(String::from("alice"))).unwrap();

    let mut authorizer = Authorizer::new();
    authorizer.add_fact(fact).unwrap();
    authorizer
        .add_check(Check::from_str("check if user(\"alice\")").unwrap())
        .unwrap();
    authorizer
        .add_policy(Policy::from_str("allow if true").unwrap())
        .unwrap();
    assert_eq!(authorizer.authorize().unwrap(), 0);
}

#[test]
fn unfilled_fact_parameter_is_a_build_failure() {
    let fact = Fact::from_str("user({name})").unwrap();
    let mut authorizer = Authorizer::new();
    // the authorizer stores the fact; the engine rejects it at authorize
    // time, before any Datalog evaluation
    authorizer.add_fact(fact).unwrap();
    authorizer
        .add_policy(Policy::from_str("allow if true").unwrap())
        .unwrap();
    match authorizer.authorize() {
        Err(BiscuitError::Language(_)) => {}
        other => panic!("unexpected result: {:?}", other),
    }
}

#[test]
fn token_carried_over_to_authorizer() {
    let kp = KeyPair::new();
    let token = basic_token(&kp);
    let mut authorizer = Authorizer::new();
    authorizer
        .add_check(Check::from_str("check if right(\"read\")").unwrap())
        .unwrap();
    authorizer
        .add_policy(Policy::from_str("allow if true").unwrap())
        .unwrap();
    // without the token the check fails
    assert!(authorizer.authorize().is_err());
    authorizer.add_token(token);
    assert_eq!(authorizer.authorize().unwrap(), 0);
}

#[test]
fn rule_check_and_policy_parameters() {
    let mut rule = Rule::from_str("is_admin($u) <- group($u, {g})").unwrap();
    assert!(rule.set("h", Term::Str(String::from("admins"))).is_err());
    rule.set("g", Term::Str(String::from("admins"))).unwrap();

    let mut check = Check::from_str("check if is_admin({name})").unwrap();
    check.set("name", Term::Str(String::from("alice"))).unwrap();

    let mut policy = Policy::from_str("allow if group({name}, \"admins\")").unwrap();
    policy.set("name", Term::Str(String::from("alice"))).unwrap();

    let mut authorizer = Authorizer::new();
    authorizer
        .add_fact(Fact::from_str("group(\"alice\", \"admins\")").unwrap())
        .unwrap();
    authorizer.add_rule(rule).unwrap();
    authorizer.add_check(check).unwrap();
    authorizer.add_policy(policy).unwrap();
    assert_eq!(authorizer.authorize().unwrap(), 0);
}
