//! The authorizer: an ephemeral, request-scoped combination of an optional
//! token with locally added facts, rules, checks and ordered allow/deny
//! policies. One `authorize` call assembles all of them into a Datalog
//! universe, saturates it, validates every check, and lets the first
//! matching policy decide.
//!
//! The authorizer's own state is plain data, fully visible to the
//! verifier; the Datalog engine that evaluates it is `biscuit_auth`'s.

use vstd::prelude::*;
use crate::datalog::check_ready;
use crate::datalog::fact_ready;
use crate::datalog::parse_ok;
use crate::datalog::parse_source;
use crate::datalog::parsed_checks;
use crate::datalog::parsed_facts;
use crate::datalog::parsed_policies;
use crate::datalog::parsed_rules;
use crate::datalog::policy_ready;
use crate::datalog::rule_ready;
use crate::datalog::Check;
use crate::datalog::Fact;
use crate::datalog::Policy;
use crate::datalog::Rule;
use crate::errors::token_error_of;
use crate::errors::BiscuitError;
use crate::token::token_blocks;
use crate::token::Biscuit;

verus! {

/// The assembled Datalog universe of one authorization: token content,
/// local statements and policies, handed to the engine. Holds a
/// `biscuit_auth::Authorizer`, opaque to the verifier.
#[verifier::external_body]
pub struct Engine {
    pub(crate) inner: biscuit_auth::Authorizer,
}

/// The number of policies loaded into the engine, in order of addition:
/// what `biscuit_auth::Authorizer::add_policy` grows one by one.
pub uninterp spec fn engine_policy_count(a: Engine) -> nat;

/// The revocation identifiers of the token universe loaded into the
/// engine: empty for an engine without a token.
pub uninterp spec fn engine_token_blocks(a: Engine) -> Seq<Seq<u8>>;

/// The facts added to the engine's local universe, in order of addition.
pub uninterp spec fn engine_facts(a: Engine) -> Seq<Fact>;

/// The rules added to the engine's local universe, in order of addition.
pub uninterp spec fn engine_rules(a: Engine) -> Seq<Rule>;

/// The checks added to the engine's local universe, in order of addition.
pub uninterp spec fn engine_checks(a: Engine) -> Seq<Check>;

/// Relies on `biscuit_auth::Authorizer::new`: an empty universe with no
/// policies.
#[verifier::external_body]
fn engine_new() -> (r: Engine)
    ensures
        engine_policy_count(r) == 0,
        engine_token_blocks(r) == Seq::<Seq<u8>>::empty(),
        engine_facts(r) == Seq::<Fact>::empty(),
        engine_rules(r) == Seq::<Rule>::empty(),
        engine_checks(r) == Seq::<Check>::empty(),
{
    Engine { inner: biscuit_auth::Authorizer::new() }
}

/// Relies on `biscuit_auth::Biscuit::authorizer`: a universe loaded with
/// exactly the token's blocks, with no local statements and no policies
/// yet; it fails only on a malformed or inconsistent token block.
#[verifier::external_body]
fn engine_from_token(t: &Biscuit) -> (r: Result<Engine, BiscuitError>)
    ensures
        r matches Ok(a) ==> engine_policy_count(a) == 0 && engine_token_blocks(a) == token_blocks(
            *t,
        ) && engine_facts(a) == Seq::<Fact>::empty() && engine_rules(a) == Seq::<Rule>::empty()
            && engine_checks(a) == Seq::<Check>::empty(),
        r matches Err(e) ==> (e matches BiscuitError::Format(_) || e
            matches BiscuitError::FailedLogic(_)),
{
    match t.inner.authorizer() {
        Ok(a) => Ok(Engine { inner: a }),
        Err(e) => Err(token_error_of(e)),
    }
}

/// Relies on `biscuit_auth::Authorizer::add_fact`: adds the fact to the
/// universe, failing if it still has unfilled parameters; the policies are
/// untouched.
#[verifier::external_body]
fn engine_add_fact(a: &mut Engine, fact: &Fact) -> (r: Result<(), BiscuitError>)
    ensures
        r is Ok <==> fact_ready(*fact),
        r is Ok ==> engine_facts(*final(a)) == engine_facts(*old(a)).push(*fact),
        r is Err ==> engine_facts(*final(a)) == engine_facts(*old(a)),
        engine_rules(*final(a)) == engine_rules(*old(a)) && engine_checks(*final(a)) == engine_checks(*old(a)),
        engine_token_blocks(*final(a)) == engine_token_blocks(*old(a)),
        engine_policy_count(*final(a)) == engine_policy_count(*old(a)),
        r matches Err(e) ==> e matches BiscuitError::Language(_),
{
    a.inner.add_fact(fact.inner.clone()).map_err(token_error_of)
}

/// Relies on `biscuit_auth::Authorizer::add_rule`: adds the rule to the
/// universe, failing if it still has unfilled parameters; the policies are
/// untouched.
#[verifier::external_body]
fn engine_add_rule(a: &mut Engine, rule: &Rule) -> (r: Result<(), BiscuitError>)
    ensures
        r is Ok <==> rule_ready(*rule),
        r is Ok ==> engine_rules(*final(a)) == engine_rules(*old(a)).push(*rule),
        r is Err ==> engine_rules(*final(a)) == engine_rules(*old(a)),
        engine_facts(*final(a)) == engine_facts(*old(a)) && engine_checks(*final(a)) == engine_checks(*old(a)),
        engine_token_blocks(*final(a)) == engine_token_blocks(*old(a)),
        engine_policy_count(*final(a)) == engine_policy_count(*old(a)),
        r matches Err(e) ==> e matches BiscuitError::Language(_),
{
    a.inner.add_rule(rule.inner.clone()).map_err(token_error_of)
}

/// Relies on `biscuit_auth::Authorizer::add_check`: adds the check to the
/// universe, failing if it still has unfilled parameters; the policies are
/// untouched.
#[verifier::external_body]
fn engine_add_check(a: &mut Engine, check: &Check) -> (r: Result<(), BiscuitError>)
    ensures
        r is Ok <==> check_ready(*check),
        r is Ok ==> engine_checks(*final(a)) == engine_checks(*old(a)).push(*check),
        r is Err ==> engine_checks(*final(a)) == engine_checks(*old(a)),
        engine_facts(*final(a)) == engine_facts(*old(a)) && engine_rules(*final(a)) == engine_rules(*old(a)),
        engine_token_blocks(*final(a)) == engine_token_blocks(*old(a)),
        engine_policy_count(*final(a)) == engine_policy_count(*old(a)),
        r matches Err(e) ==> e matches BiscuitError::Language(_),
{
    a.inner.add_check(check.inner.clone()).map_err(token_error_of)
}

/// Relies on `biscuit_auth::Authorizer::add_policy`: appends the policy
/// after those already added, failing if it still has unfilled parameters.
#[verifier::external_body]
fn engine_add_policy(a: &mut Engine, policy: &Policy) -> (r: Result<(), BiscuitError>)
    ensures
        r is Ok <==> policy_ready(*policy),
        r is Ok ==> engine_policy_count(*final(a)) == engine_policy_count(*old(a)) + 1,
        r is Err ==> engine_policy_count(*final(a)) == engine_policy_count(*old(a)),
        engine_token_blocks(*final(a)) == engine_token_blocks(*old(a)),
        engine_facts(*final(a)) == engine_facts(*old(a)),
        engine_rules(*final(a)) == engine_rules(*old(a)),
        engine_checks(*final(a)) == engine_checks(*old(a)),
        r matches Err(e) ==> e matches BiscuitError::Language(_),
{
    a.inner.add_policy(policy.inner.clone()).map_err(token_error_of)
}

/// Relies on `biscuit_auth::Authorizer::authorize`: saturates the
/// universe, validates every check, then lets the first matching policy
/// decide. Success returns the zero-based index of the matching allow
/// policy, always an index into the policies that were added; a failure is
/// an authorization verdict, a run limit, or a Datalog evaluation error.
#[verifier::external_body]
fn engine_authorize(a: &mut Engine) -> (r: Result<usize, BiscuitError>)
    ensures
        r matches Ok(i) ==> i < engine_policy_count(*old(a)),
        r matches Err(e) ==> (e matches BiscuitError::FailedLogic(_) || e
            matches BiscuitError::RunLimit(_) || e matches BiscuitError::Execution),
{
    a.inner.authorize().map_err(token_error_of)
}

/// The authorizer verifies a request according to its policies and the
/// provided token. Its state is exactly an optional token and the local
/// facts, rules, checks and policies, each kept in order of addition.
#[derive(Debug)]
pub struct Authorizer {
    /// the token under authorization, if one was added
    pub token: Option<Biscuit>,
    /// locally added facts, in order of addition
    pub facts: Vec<Fact>,
    /// locally added rules, in order of addition
    pub rules: Vec<Rule>,
    /// locally added checks, in order of addition
    pub checks: Vec<Check>,
    /// locally added policies, in order of addition; on `authorize`, the
    /// first policy whose body matches decides
    pub policies: Vec<Policy>,
}

impl Authorizer {
    /// An empty authorizer: no token, no local statements, no policies.
    pub fn new() -> (r: Authorizer)
        ensures
            r.token is None,
            r.facts@.len() == 0,
            r.rules@.len() == 0,
            r.checks@.len() == 0,
            r.policies@.len() == 0,
    {
        Authorizer {
            token: None,
            facts: Vec::new(),
            rules: Vec::new(),
            checks: Vec::new(),
            policies: Vec::new(),
        }
    }

    /// Sets the token to authorize, replacing any previous one; the local
    /// statements and policies are untouched.
    pub fn add_token(&mut self, token: Biscuit)
        ensures
            final(self).token == Some(token),
            final(self).facts == old(self).facts,
            final(self).rules == old(self).rules,
            final(self).checks == old(self).checks,
            final(self).policies == old(self).policies,
    {
        self.token = Some(token);
    }

    /// Adds a Datalog fact after the facts already added.
    pub fn add_fact(&mut self, fact: Fact) -> (r: Result<(), BiscuitError>)
        ensures
            r is Ok,
            final(self).facts@ == old(self).facts@.push(fact),
            final(self).token == old(self).token,
            final(self).rules == old(self).rules,
            final(self).checks == old(self).checks,
            final(self).policies == old(self).policies,
    {
        self.facts.push(fact);
        Ok(())
    }

    /// Adds a Datalog rule after the rules already added.
    pub fn add_rule(&mut self, rule: Rule) -> (r: Result<(), BiscuitError>)
        ensures
            r is Ok,
            final(self).rules@ == old(self).rules@.push(rule),
            final(self).token == old(self).token,
            final(self).facts == old(self).facts,
            final(self).checks == old(self).checks,
            final(self).policies == old(self).policies,
    {
        self.rules.push(rule);
        Ok(())
    }

    /// Adds a check after the checks already added. All checks, from the
    /// authorizer and from every token block, must hold for authorization
    /// to succeed.
    pub fn add_check(&mut self, check: Check) -> (r: Result<(), BiscuitError>)
        ensures
            r is Ok,
            final(self).checks@ == old(self).checks@.push(check),
            final(self).token == old(self).token,
            final(self).facts == old(self).facts,
            final(self).rules == old(self).rules,
            final(self).policies == old(self).policies,
    {
        self.checks.push(check);
        Ok(())
    }

    /// Adds a policy after the policies already added. `authorize` tests
    /// the policies in this order and stops at the first whose body
    /// matches: an allow policy grants the request, a deny policy refuses
    /// it.
    pub fn add_policy(&mut self, policy: Policy) -> (r: Result<(), BiscuitError>)
        ensures
            r is Ok,
            final(self).policies@ == old(self).policies@.push(policy),
            final(self).token == old(self).token,
            final(self).facts == old(self).facts,
            final(self).rules == old(self).rules,
            final(self).checks == old(self).checks,
    {
        self.policies.push(policy);
        Ok(())
    }

    /// Parses a batch of Datalog source text and appends every statement
    /// to the matching list, each in source order after those already
    /// added. Fails atomically: on a parse error the authorizer is
    /// unchanged.
    pub fn add_code(&mut self, source: &str) -> (r: Result<(), BiscuitError>)
        ensures
            r is Ok <==> parse_ok(source@),
            r matches Err(e) ==> *final(self) == *old(self) && e matches BiscuitError::Language(_),
            r is Ok ==> final(self).token == old(self).token && final(self).facts@ == old(
                self,
            ).facts@ + parsed_facts(source@) && final(self).rules@ == old(self).rules@
                + parsed_rules(source@) && final(self).checks@ == old(self).checks@
                + parsed_checks(source@) && final(self).policies@ == old(self).policies@
                + parsed_policies(source@),
    {
        match parse_source(source) {
            Ok(parsed) => {
                let mut parsed = parsed;
                self.facts.append(&mut parsed.facts);
                self.rules.append(&mut parsed.rules);
                self.checks.append(&mut parsed.checks);
                self.policies.append(&mut parsed.policies);
                Ok(())
            },
            Err(e) => Err(e),
        }
    }

    /// Runs the authorization decision: assembles the token's blocks (if a
    /// token was added) and the local facts, rules and checks into one
    /// universe, saturates it, validates every check, then tests the
    /// policies in order of addition. Success returns the zero-based index
    /// of the matching allow policy, always an index into this
    /// authorizer's policy list; failure reports the failed checks, the
    /// matched deny policy, or that no policy matched.
    pub fn authorize(&self) -> (r: Result<usize, BiscuitError>)
        ensures
            r matches Ok(i) ==> i < self.policies@.len(),
            r matches Err(e) ==> (e matches BiscuitError::FailedLogic(_) || e
                matches BiscuitError::RunLimit(_) || e matches BiscuitError::Execution || e
                matches BiscuitError::Language(_) || e matches BiscuitError::Format(_)),
    {
        let mut engine: Engine = match &self.token {
            Some(t) => engine_from_token(t)?,
            None => engine_new(),
        };
        let ghost loaded = engine_token_blocks(engine);
        let mut i: usize = 0;
        while i < self.facts.len()
            invariant
                0 <= i <= self.facts@.len(),
                engine_policy_count(engine) == 0,
                engine_token_blocks(engine) == loaded,
                engine_facts(engine) == self.facts@.take(i as int),
                engine_rules(engine) == Seq::<Rule>::empty(),
                engine_checks(engine) == Seq::<Check>::empty(),
            decreases self.facts@.len() - i,
        {
            engine_add_fact(&mut engine, &self.facts[i])?;
            proof {
                assert(self.facts@.take(i as int).push(self.facts@[i as int]) =~= self.facts@.take(
                    i + 1,
                ));
            }
            i += 1;
        }
        proof {
            assert(self.facts@.take(self.facts@.len() as int) =~= self.facts@);
        }
        let mut i: usize = 0;
        while i < self.rules.len()
            invariant
                0 <= i <= self.rules@.len(),
                engine_policy_count(engine) == 0,
                engine_token_blocks(engine) == loaded,
                engine_facts(engine) == self.facts@,
                engine_rules(engine) == self.rules@.take(i as int),
                engine_checks(engine) == Seq::<Check>::empty(),
            decreases self.rules@.len() - i,
        {
            engine_add_rule(&mut engine, &self.rules[i])?;
            proof {
                assert(self.rules@.take(i as int).push(self.rules@[i as int]) =~= self.rules@.take(
                    i + 1,
                ));
            }
            i += 1;
        }
        proof {
            assert(self.rules@.take(self.rules@.len() as int) =~= self.rules@);
        }
        let mut i: usize = 0;
        while i < self.checks.len()
            invariant
                0 <= i <= self.checks@.len(),
                engine_policy_count(engine) == 0,
                engine_token_blocks(engine) == loaded,
                engine_facts(engine) == self.facts@,
                engine_rules(engine) == self.rules@,
                engine_checks(engine) == self.checks@.take(i as int),
            decreases self.checks@.len() - i,
        {
            engine_add_check(&mut engine, &self.checks[i])?;
            proof {
                assert(self.checks@.take(i as int).push(self.checks@[i as int])
                    =~= self.checks@.take(i + 1));
            }
            i += 1;
        }
        proof {
            assert(self.checks@.take(self.checks@.len() as int) =~= self.checks@);
        }
        let mut i: usize = 0;
        while i < self.policies.len()
            invariant
                0 <= i <= self.policies@.len(),
                engine_policy_count(engine) == i,
                engine_token_blocks(engine) == loaded,
                engine_facts(engine) == self.facts@,
                engine_rules(engine) == self.rules@,
                engine_checks(engine) == self.checks@,
            decreases self.policies@.len() - i,
        {
            engine_add_policy(&mut engine, &self.policies[i])?;
            i += 1;
        }
        // the engine now holds exactly the loaded token universe, this
        // authorizer's facts, rules and checks, and its policies in order
        engine_authorize(&mut engine)
    }
}

impl Biscuit {
    /// Creates an authorizer holding this token and nothing else: no local
    /// statements and no policies yet.
    pub fn authorizer(&self) -> (r: Result<Authorizer, BiscuitError>)
        ensures
            r is Ok,
            r matches Ok(a) ==> (a.token matches Some(t) && t.blocks() == self.blocks()
                && t.sources() == self.sources() && t.root() == self.root() && t.sealed()
                == self.sealed()) && a.facts@.len() == 0 && a.rules@.len() == 0 && a.checks@.len()
                == 0 && a.policies@.len() == 0,
    {
        Ok(
            Authorizer {
                token: Some(self.duplicate()),
                facts: Vec::new(),
                rules: Vec::new(),
                checks: Vec::new(),
                policies: Vec::new(),
            },
        )
    }
}

} // verus!
