//! The Datalog building blocks of a token: typed terms, facts, rules,
//! checks and policies, and the parsing of logic-language source text into
//! them.
//!
//! Facts, rules, checks and policies are parsed and validated by
//! `biscuit_auth`; the `Term` type is this crate's closed model of the
//! values they carry.

use vstd::prelude::*;
use vstd::slice::slice_index_get;
use biscuit_auth::error::Token as ExtToken;
use biscuit_parser::error::LanguageError;
use crate::errors::token_error_of;
use crate::errors::BiscuitError;

verus! {

/// A typed Datalog value: the closed set of term kinds a fact, rule,
/// check or policy can carry. Two terms are equal iff their kind and
/// value match.
#[derive(Debug, Clone)]
pub enum Term {
    /// a boolean constant
    Bool(bool),
    /// a signed integer constant
    Integer(i64),
    /// a string constant
    Str(String),
    /// a byte-array constant
    Bytes(Vec<u8>),
    /// a date, as seconds since the Unix epoch
    Date(u64),
    /// a variable, by name
    Variable(String),
}

impl Term {
    /// Term equality: the kind and the value match.
    pub open spec fn same_spec(&self, other: &Term) -> bool {
        match (self, other) {
            (Term::Bool(a), Term::Bool(b)) => a == b,
            (Term::Integer(a), Term::Integer(b)) => a == b,
            (Term::Str(a), Term::Str(b)) => a@ == b@,
            (Term::Bytes(a), Term::Bytes(b)) => a@ == b@,
            (Term::Date(a), Term::Date(b)) => a == b,
            (Term::Variable(a), Term::Variable(b)) => a@ == b@,
            _ => false,
        }
    }

    /// Decides term equality: true iff the kind and the value match.
    pub fn same(&self, other: &Term) -> (r: bool)
        ensures
            r == self.same_spec(other),
    {
        match (self, other) {
            (Term::Bool(a), Term::Bool(b)) => *a == *b,
            (Term::Integer(a), Term::Integer(b)) => *a == *b,
            (Term::Str(a), Term::Str(b)) => *a == *b,
            (Term::Bytes(a), Term::Bytes(b)) => bytes_eq(a, b),
            (Term::Date(a), Term::Date(b)) => *a == *b,
            (Term::Variable(a), Term::Variable(b)) => *a == *b,
            _ => false,
        }
    }
}

/// Decides equality of two byte vectors.
fn bytes_eq(a: &Vec<u8>, b: &Vec<u8>) -> (r: bool)
    ensures
        r == (a@ == b@),
{
    if a.len() != b.len() {
        return false;
    }
    let mut i: usize = 0;
    while i < a.len()
        invariant
            0 <= i <= a@.len(),
            a@.len() == b@.len(),
            forall|j: int| 0 <= j < i ==> a@[j] == b@[j],
        decreases a@.len() - i,
    {
        if *slice_index_get(a.as_slice(), i) != *slice_index_get(b.as_slice(), i) {
            return false;
        }
        i += 1;
    }
    proof {
        assert(a@ =~= b@);
    }
    true
}

/// A term in the representation the Datalog engine works on. Holds a
/// `biscuit_auth::builder::Term`, opaque to the verifier.
#[verifier::external_body]
pub struct TermRepr {
    pub(crate) inner: biscuit_auth::builder::Term,
}

/// The term that a term representation stands for: a function of the
/// representation alone.
pub uninterp spec fn term_of_repr(t: TermRepr) -> Term;

/// Relies on `biscuit_auth::builder::Term::Bool`.
#[verifier::external_body]
fn repr_bool(b: bool) -> (r: TermRepr)
    ensures
        term_of_repr(r) == Term::Bool(b),
{
    TermRepr { inner: biscuit_auth::builder::Term::Bool(b) }
}

/// Relies on `biscuit_auth::builder::Term::Integer`.
#[verifier::external_body]
fn repr_integer(i: i64) -> (r: TermRepr)
    ensures
        term_of_repr(r) == Term::Integer(i),
{
    TermRepr { inner: biscuit_auth::builder::Term::Integer(i) }
}

/// Relies on `biscuit_auth::builder::Term::Str`.
#[verifier::external_body]
fn repr_str(s: String) -> (r: TermRepr)
    ensures
        term_of_repr(r) == Term::Str(s),
{
    TermRepr { inner: biscuit_auth::builder::Term::Str(s) }
}

/// Relies on `biscuit_auth::builder::Term::Bytes`.
#[verifier::external_body]
fn repr_bytes(v: Vec<u8>) -> (r: TermRepr)
    ensures
        term_of_repr(r) == Term::Bytes(v),
{
    TermRepr { inner: biscuit_auth::builder::Term::Bytes(v) }
}

/// Relies on `biscuit_auth::builder::Term::Date`.
#[verifier::external_body]
fn repr_date(d: u64) -> (r: TermRepr)
    ensures
        term_of_repr(r) == Term::Date(d),
{
    TermRepr { inner: biscuit_auth::builder::Term::Date(d) }
}

/// Relies on `biscuit_auth::builder::Term::Variable`.
#[verifier::external_body]
fn repr_variable(s: String) -> (r: TermRepr)
    ensures
        term_of_repr(r) == Term::Variable(s),
{
    TermRepr { inner: biscuit_auth::builder::Term::Variable(s) }
}

impl Term {
    /// Converts the term into the representation the Datalog engine works
    /// on.
    pub(crate) fn into_repr(self) -> (r: TermRepr)
        ensures
            term_of_repr(r) == self,
    {
        match self {
            Term::Bool(b) => repr_bool(b),
            Term::Integer(i) => repr_integer(i),
            Term::Str(s) => repr_str(s),
            Term::Bytes(v) => repr_bytes(v),
            Term::Date(d) => repr_date(d),
            Term::Variable(s) => repr_variable(s),
        }
    }
}

/// A ground statement: a predicate name applied to constant terms. Holds a
/// `biscuit_auth::builder::Fact`, opaque to the verifier.
#[derive(Debug)]
#[verifier::external_body]
pub struct Fact {
    pub(crate) inner: biscuit_auth::builder::Fact,
}

/// A derivation pattern producing new facts from existing ones. Holds a
/// `biscuit_auth::builder::Rule`, opaque to the verifier.
#[derive(Debug)]
#[verifier::external_body]
pub struct Rule {
    pub(crate) inner: biscuit_auth::builder::Rule,
}

/// A mandatory condition: one or more clauses, of which at least one must
/// produce a binding. Holds a `biscuit_auth::builder::Check`, opaque to
/// the verifier.
#[derive(Debug)]
#[verifier::external_body]
pub struct Check {
    pub(crate) inner: biscuit_auth::builder::Check,
}

/// An ordered allow/deny decision rule of the authorizer. Holds a
/// `biscuit_auth::builder::Policy`, opaque to the verifier.
#[derive(Debug)]
#[verifier::external_body]
pub struct Policy {
    pub(crate) inner: biscuit_auth::builder::Policy,
}

/// Whether a fact is ready for use: every parameter it declares has been
/// filled. What `biscuit_auth::builder::Fact::validate` accepts, a
/// function of the fact alone.
pub uninterp spec fn fact_ready(f: Fact) -> bool;

/// Whether a rule is ready for use: every term and scope parameter it
/// declares has been filled. What
/// `biscuit_auth::builder::Rule::validate_parameters` accepts.
pub uninterp spec fn rule_ready(r: Rule) -> bool;

/// Whether a check is ready for use: every parameter of each of its
/// clauses has been filled. What
/// `biscuit_auth::builder::Check::validate_parameters` accepts.
pub uninterp spec fn check_ready(c: Check) -> bool;

/// Whether a policy is ready for use: every parameter of each of its
/// clauses has been filled. What
/// `biscuit_auth::builder::Policy::validate_parameters` accepts.
pub uninterp spec fn policy_ready(p: Policy) -> bool;

/// The fact obtained by filling the named parameter of a fact with a
/// term, or `None` where the fact declares no such parameter. What
/// `biscuit_auth::builder::Fact::set` computes, a function of the three
/// values.
pub uninterp spec fn fact_with(f: Fact, name: Seq<char>, value: Term) -> Option<Fact>;

/// As `fact_with`, for a rule: what `biscuit_auth::builder::Rule::set`
/// computes.
pub uninterp spec fn rule_with(r: Rule, name: Seq<char>, value: Term) -> Option<Rule>;

/// As `fact_with`, for a check: what `biscuit_auth::builder::Check::set`
/// computes.
pub uninterp spec fn check_with(c: Check, name: Seq<char>, value: Term) -> Option<Check>;

/// As `fact_with`, for a policy: what
/// `biscuit_auth::builder::Policy::set` computes.
pub uninterp spec fn policy_with(p: Policy, name: Seq<char>, value: Term) -> Option<Policy>;

/// The fact a piece of source text parses as, or `None` where it does not
/// parse as a single fact: the result of `biscuit_auth::builder::Fact`'s
/// `TryFrom<&str>`, a function of the text alone.
pub uninterp spec fn fact_of_str(source: Seq<char>) -> Option<Fact>;

/// As `fact_of_str`, for a single rule.
pub uninterp spec fn rule_of_str(source: Seq<char>) -> Option<Rule>;

/// As `fact_of_str`, for a single check.
pub uninterp spec fn check_of_str(source: Seq<char>) -> Option<Check>;

/// As `fact_of_str`, for a single allow/deny policy.
pub uninterp spec fn policy_of_str(source: Seq<char>) -> Option<Policy>;

/// Whether a batch of Datalog source text parses: what
/// `biscuit_auth::parser::parse_source` accepts, a function of the text
/// alone.
pub uninterp spec fn parse_ok(source: Seq<char>) -> bool;

/// The facts of a parsed batch of source text, in source order;
/// meaningful where `parse_ok` holds.
pub uninterp spec fn parsed_facts(source: Seq<char>) -> Seq<Fact>;

/// The rules of a parsed batch of source text, in source order.
pub uninterp spec fn parsed_rules(source: Seq<char>) -> Seq<Rule>;

/// The checks of a parsed batch of source text, in source order.
pub uninterp spec fn parsed_checks(source: Seq<char>) -> Seq<Check>;

/// The policies of a parsed batch of source text, in source order.
pub uninterp spec fn parsed_policies(source: Seq<char>) -> Seq<Policy>;

impl Fact {
    /// Relies on the `TryFrom<&str>` impl of `biscuit_auth::builder::Fact`:
    /// parses one fact from Datalog source text, a pure function of the
    /// text.
    #[verifier::external_body]
    pub fn from_str(source: &str) -> (r: Result<Fact, BiscuitError>)
        ensures
            r is Ok <==> fact_of_str(source@) is Some,
            r matches Ok(v) ==> fact_of_str(source@) == Some(v),
            r matches Err(e) ==> e matches BiscuitError::Language(_),
    {
        match TryInto::<biscuit_auth::builder::Fact>::try_into(source) {
            Ok(f) => Ok(Fact { inner: f }),
            Err(e) => Err(token_error_of(e)),
        }
    }

    /// Relies on `biscuit_auth::builder::Fact::set`: fills the named
    /// parameter, failing and leaving the fact unchanged if it declares
    /// no such parameter.
    #[verifier::external_body]
    fn set_raw(&mut self, name: &str, value: TermRepr) -> (r: Result<(), BiscuitError>)
        ensures
            r is Ok <==> fact_with(*old(self), name@, term_of_repr(value)) is Some,
            r is Ok ==> fact_with(*old(self), name@, term_of_repr(value)) == Some(*final(self)),
            r is Err ==> *final(self) == *old(self),
            r matches Err(e) ==> e matches BiscuitError::Language(_),
    {
        self.inner.set(name, value.inner).map_err(token_error_of)
    }

    /// Fills the named parameter with the given term; fails and leaves the
    /// fact unchanged if it declares no such parameter.
    pub fn set(&mut self, name: &str, value: Term) -> (r: Result<(), BiscuitError>)
        ensures
            r is Ok <==> fact_with(*old(self), name@, value) is Some,
            r is Ok ==> fact_with(*old(self), name@, value) == Some(*final(self)),
            r is Err ==> *final(self) == *old(self),
            r matches Err(e) ==> e matches BiscuitError::Language(_),
    {
        self.set_raw(name, value.into_repr())
    }
}

impl Rule {
    /// Relies on the `TryFrom<&str>` impl of `biscuit_auth::builder::Rule`:
    /// parses one rule from Datalog source text, a pure function of the
    /// text.
    #[verifier::external_body]
    pub fn from_str(source: &str) -> (r: Result<Rule, BiscuitError>)
        ensures
            r is Ok <==> rule_of_str(source@) is Some,
            r matches Ok(v) ==> rule_of_str(source@) == Some(v),
            r matches Err(e) ==> e matches BiscuitError::Language(_),
    {
        match TryInto::<biscuit_auth::builder::Rule>::try_into(source) {
            Ok(f) => Ok(Rule { inner: f }),
            Err(e) => Err(token_error_of(e)),
        }
    }

    /// Relies on `biscuit_auth::builder::Rule::set`: fills the named
    /// parameter, failing and leaving the rule unchanged if it declares
    /// no such parameter.
    #[verifier::external_body]
    fn set_raw(&mut self, name: &str, value: TermRepr) -> (r: Result<(), BiscuitError>)
        ensures
            r is Ok <==> rule_with(*old(self), name@, term_of_repr(value)) is Some,
            r is Ok ==> rule_with(*old(self), name@, term_of_repr(value)) == Some(*final(self)),
            r is Err ==> *final(self) == *old(self),
            r matches Err(e) ==> e matches BiscuitError::Language(_),
    {
        self.inner.set(name, value.inner).map_err(token_error_of)
    }

    /// Fills the named parameter with the given term; fails and leaves the
    /// rule unchanged if it declares no such parameter.
    pub fn set(&mut self, name: &str, value: Term) -> (r: Result<(), BiscuitError>)
        ensures
            r is Ok <==> rule_with(*old(self), name@, value) is Some,
            r is Ok ==> rule_with(*old(self), name@, value) == Some(*final(self)),
            r is Err ==> *final(self) == *old(self),
            r matches Err(e) ==> e matches BiscuitError::Language(_),
    {
        self.set_raw(name, value.into_repr())
    }
}

impl Check {
    /// Relies on the `TryFrom<&str>` impl of `biscuit_auth::builder::Check`:
    /// parses one check from Datalog source text, a pure function of the
    /// text.
    #[verifier::external_body]
    pub fn from_str(source: &str) -> (r: Result<Check, BiscuitError>)
        ensures
            r is Ok <==> check_of_str(source@) is Some,
            r matches Ok(v) ==> check_of_str(source@) == Some(v),
            r matches Err(e) ==> e matches BiscuitError::Language(_),
    {
        match TryInto::<biscuit_auth::builder::Check>::try_into(source) {
            Ok(f) => Ok(Check { inner: f }),
            Err(e) => Err(token_error_of(e)),
        }
    }

    /// Relies on `biscuit_auth::builder::Check::set`: fills the named
    /// parameter, failing and leaving the check unchanged if it declares
    /// no such parameter.
    #[verifier::external_body]
    fn set_raw(&mut self, name: &str, value: TermRepr) -> (r: Result<(), BiscuitError>)
        ensures
            r is Ok <==> check_with(*old(self), name@, term_of_repr(value)) is Some,
            r is Ok ==> check_with(*old(self), name@, term_of_repr(value)) == Some(*final(self)),
            r is Err ==> *final(self) == *old(self),
            r matches Err(e) ==> e matches BiscuitError::Language(_),
    {
        self.inner.set(name, value.inner).map_err(token_error_of)
    }

    /// Fills the named parameter with the given term; fails and leaves the
    /// check unchanged if it declares no such parameter.
    pub fn set(&mut self, name: &str, value: Term) -> (r: Result<(), BiscuitError>)
        ensures
            r is Ok <==> check_with(*old(self), name@, value) is Some,
            r is Ok ==> check_with(*old(self), name@, value) == Some(*final(self)),
            r is Err ==> *final(self) == *old(self),
            r matches Err(e) ==> e matches BiscuitError::Language(_),
    {
        self.set_raw(name, value.into_repr())
    }
}

impl Policy {
    /// Relies on the `TryFrom<&str>` impl of `biscuit_auth::builder::Policy`:
    /// parses one allow/deny policy from Datalog source text, a pure
    /// function of the text.
    #[verifier::external_body]
    pub fn from_str(source: &str) -> (r: Result<Policy, BiscuitError>)
        ensures
            r is Ok <==> policy_of_str(source@) is Some,
            r matches Ok(v) ==> policy_of_str(source@) == Some(v),
            r matches Err(e) ==> e matches BiscuitError::Language(_),
    {
        match TryInto::<biscuit_auth::builder::Policy>::try_into(source) {
            Ok(f) => Ok(Policy { inner: f }),
            Err(e) => Err(token_error_of(e)),
        }
    }

    /// Relies on `biscuit_auth::builder::Policy::set`: fills the named
    /// parameter, failing and leaving the policy unchanged if it declares
    /// no such parameter.
    #[verifier::external_body]
    fn set_raw(&mut self, name: &str, value: TermRepr) -> (r: Result<(), BiscuitError>)
        ensures
            r is Ok <==> policy_with(*old(self), name@, term_of_repr(value)) is Some,
            r is Ok ==> policy_with(*old(self), name@, term_of_repr(value)) == Some(*final(self)),
            r is Err ==> *final(self) == *old(self),
            r matches Err(e) ==> e matches BiscuitError::Language(_),
    {
        self.inner.set(name, value.inner).map_err(token_error_of)
    }

    /// Fills the named parameter with the given term; fails and leaves the
    /// policy unchanged if it declares no such parameter.
    pub fn set(&mut self, name: &str, value: Term) -> (r: Result<(), BiscuitError>)
        ensures
            r is Ok <==> policy_with(*old(self), name@, value) is Some,
            r is Ok ==> policy_with(*old(self), name@, value) == Some(*final(self)),
            r is Err ==> *final(self) == *old(self),
            r matches Err(e) ==> e matches BiscuitError::Language(_),
    {
        self.set_raw(name, value.into_repr())
    }
}

/// The statements of one batch of Datalog source text, split by kind, in
/// source order.
pub struct ParsedSource {
    pub facts: Vec<Fact>,
    pub rules: Vec<Rule>,
    pub checks: Vec<Check>,
    pub policies: Vec<Policy>,
}

/// Relies on `biscuit_auth::parser::parse_source`: splits Datalog source
/// text into facts, rules, checks and policies, in source order, failing
/// if any statement fails to parse. A pure function of the source text.
#[verifier::external_body]
pub(crate) fn parse_source(source: &str) -> (r: Result<ParsedSource, BiscuitError>)
    ensures
        r is Ok <==> parse_ok(source@),
        r matches Ok(p) ==> p.facts@ == parsed_facts(source@) && p.rules@ == parsed_rules(source@)
            && p.checks@ == parsed_checks(source@) && p.policies@ == parsed_policies(source@),
        r matches Err(e) ==> e matches BiscuitError::Language(_),
{
    match biscuit_auth::parser::parse_source(source) {
        Ok(res) => Ok(ParsedSource {
            facts: res.facts.into_iter().map(|(_, x)| Fact { inner: x.into() }).collect(),
            rules: res.rules.into_iter().map(|(_, x)| Rule { inner: x.into() }).collect(),
            checks: res.checks.into_iter().map(|(_, x)| Check { inner: x.into() }).collect(),
            policies: res.policies.into_iter().map(|(_, x)| Policy { inner: x.into() }).collect(),
        }),
        Err(e) => {
            let e2: LanguageError = e.into();
            Err(token_error_of(ExtToken::Language(e2)))
        }
    }
}

} // verus!
