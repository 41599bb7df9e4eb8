//! Builders assembling the Datalog content of a token: one for the
//! authority block of a new token, one for an attenuation block.

use vstd::prelude::*;
use crate::crypto::kp_public_bytes;
use crate::crypto::make_rng;
use crate::crypto::public_part;
use crate::crypto::Csprng;
use crate::crypto::KeyPair;
use crate::crypto::PrivateKey;
use crate::crypto::PublicKey;
use crate::crypto::pk_bytes;
use crate::datalog::check_ready;
use crate::datalog::fact_ready;
use crate::datalog::rule_ready;
use crate::datalog::term_of_repr;
use crate::datalog::Check;
use crate::datalog::Fact;
use crate::datalog::Rule;
use crate::datalog::Term;
use crate::datalog::TermRepr;
use crate::errors::token_error_of;
use crate::errors::BiscuitError;
use crate::token::token_blocks;
use crate::token::token_root;
use crate::token::token_sealed;
use crate::token::token_sources;
use crate::token::Biscuit;
use std::collections::HashMap;

verus! {

/// Builds one attenuation block: facts, rules and checks to append to an
/// existing token. Holds a `biscuit_auth::builder::BlockBuilder`, opaque
/// to the verifier.
#[verifier::external_body]
pub struct BlockBuilder {
    pub(crate) inner: biscuit_auth::builder::BlockBuilder,
}

/// Builds the authority block of a new token. Holds a
/// `biscuit_auth::builder::BiscuitBuilder`, opaque to the verifier.
#[verifier::external_body]
pub struct BiscuitBuilder {
    pub(crate) inner: biscuit_auth::builder::BiscuitBuilder,
}

/// The facts a block builder holds, in order of addition.
pub uninterp spec fn block_facts(b: BlockBuilder) -> Seq<Fact>;

/// The rules a block builder holds, in order of addition.
pub uninterp spec fn block_rules(b: BlockBuilder) -> Seq<Rule>;

/// The checks a block builder holds, in order of addition.
pub uninterp spec fn block_checks(b: BlockBuilder) -> Seq<Check>;

/// The facts a token builder holds, in order of addition.
pub uninterp spec fn builder_facts(b: BiscuitBuilder) -> Seq<Fact>;

/// The rules a token builder holds, in order of addition.
pub uninterp spec fn builder_rules(b: BiscuitBuilder) -> Seq<Rule>;

/// The checks a token builder holds, in order of addition.
pub uninterp spec fn builder_checks(b: BiscuitBuilder) -> Seq<Check>;

/// Whether a batch of Datalog block source text is accepted by the
/// builders' `add_code`: it parses as block source (facts, rules, checks
/// and scopes, no policies) and every statement is ready without
/// parameter substitution. What
/// `biscuit_auth::builder::BlockBuilder::add_code` accepts, a function of
/// the text alone.
pub uninterp spec fn block_source_ok(source: Seq<char>) -> bool;

/// The facts such a batch appends, in source order; meaningful where
/// `block_source_ok` holds.
pub uninterp spec fn block_parsed_facts(source: Seq<char>) -> Seq<Fact>;

/// The rules such a batch appends, in source order.
pub uninterp spec fn block_parsed_rules(source: Seq<char>) -> Seq<Rule>;

/// The checks such a batch appends, in source order.
pub uninterp spec fn block_parsed_checks(source: Seq<char>) -> Seq<Check>;

/// The view of a term-parameter list: each name's characters paired with
/// its term.
pub open spec fn term_param_views(params: Seq<(String, Term)>) -> Seq<(Seq<char>, Term)> {
    params.map_values(|p: (String, Term)| (p.0@, p.1))
}

/// As `term_param_views`, for parameters already in the engine's term
/// representation.
pub open spec fn repr_param_views(params: Seq<(String, TermRepr)>) -> Seq<(Seq<char>, Term)> {
    params.map_values(|p: (String, TermRepr)| (p.0@, term_of_repr(p.1)))
}

/// The view of a scope-parameter list: each name's characters paired with
/// the public key's bytes.
pub open spec fn scope_param_views(params: Seq<(String, PublicKey)>) -> Seq<(Seq<char>, Seq<u8>)> {
    params.map_values(|p: (String, PublicKey)| (p.0@, pk_bytes(p.1)))
}

/// Whether a batch of Datalog block source text is accepted once its
/// named parameters are filled with the given terms and its named scope
/// parameters with the given keys: what the builders'
/// `add_code_with_params` accepts. Parameter fills commute and unknown
/// names are ignored, so this is a function of the text and the two lists
/// (for a repeated name, the later entry of its list wins).
pub uninterp spec fn params_source_ok(
    source: Seq<char>,
    params: Seq<(Seq<char>, Term)>,
    scope_params: Seq<(Seq<char>, Seq<u8>)>,
) -> bool;

/// The facts such a batch appends after substitution, in source order;
/// meaningful where `params_source_ok` holds.
pub uninterp spec fn params_parsed_facts(
    source: Seq<char>,
    params: Seq<(Seq<char>, Term)>,
    scope_params: Seq<(Seq<char>, Seq<u8>)>,
) -> Seq<Fact>;

/// The rules such a batch appends after substitution, in source order.
pub uninterp spec fn params_parsed_rules(
    source: Seq<char>,
    params: Seq<(Seq<char>, Term)>,
    scope_params: Seq<(Seq<char>, Seq<u8>)>,
) -> Seq<Rule>;

/// The checks such a batch appends after substitution, in source order.
pub uninterp spec fn params_parsed_checks(
    source: Seq<char>,
    params: Seq<(Seq<char>, Term)>,
    scope_params: Seq<(Seq<char>, Seq<u8>)>,
) -> Seq<Check>;

/// The Datalog source text of a block holding this builder's content:
/// what the token renders for that block. Rendering resolves interned
/// identifiers back to their text, so this is a function of the builder
/// value alone, whatever symbol table the block is built against.
pub uninterp spec fn block_rendered(b: BlockBuilder) -> Seq<char>;

/// As `block_rendered`, for the authority block a token builder builds.
pub uninterp spec fn builder_rendered(b: BiscuitBuilder) -> Seq<char>;

impl BlockBuilder {
    /// Relies on `biscuit_auth::builder::BlockBuilder::new`: an empty
    /// block builder.
    #[verifier::external_body]
    pub fn new() -> (r: BlockBuilder)
        ensures
            block_facts(r) == Seq::<Fact>::empty(),
            block_rules(r) == Seq::<Rule>::empty(),
            block_checks(r) == Seq::<Check>::empty(),
    {
        BlockBuilder { inner: biscuit_auth::builder::BlockBuilder::new() }
    }

    /// Relies on `biscuit_auth::builder::BlockBuilder::add_fact`: appends
    /// the fact after those already added, failing and leaving the
    /// builder unchanged if it still has unfilled parameters.
    #[verifier::external_body]
    pub fn add_fact(&mut self, fact: Fact) -> (r: Result<(), BiscuitError>)
        ensures
            r is Ok <==> fact_ready(fact),
            r is Ok ==> block_facts(*final(self)) == block_facts(*old(self)).push(fact)
                && block_rules(*final(self)) == block_rules(*old(self)) && block_checks(*final(self)) == block_checks(*old(self)),
            r is Err ==> *final(self) == *old(self),
            r matches Err(e) ==> e matches BiscuitError::Language(_),
    {
        self.inner.add_fact(fact.inner).map_err(token_error_of)
    }

    /// Relies on `biscuit_auth::builder::BlockBuilder::add_rule`: appends
    /// the rule after those already added, failing and leaving the
    /// builder unchanged if it still has unfilled parameters.
    #[verifier::external_body]
    pub fn add_rule(&mut self, rule: Rule) -> (r: Result<(), BiscuitError>)
        ensures
            r is Ok <==> rule_ready(rule),
            r is Ok ==> block_rules(*final(self)) == block_rules(*old(self)).push(rule)
                && block_facts(*final(self)) == block_facts(*old(self)) && block_checks(*final(self)) == block_checks(*old(self)),
            r is Err ==> *final(self) == *old(self),
            r matches Err(e) ==> e matches BiscuitError::Language(_),
    {
        self.inner.add_rule(rule.inner).map_err(token_error_of)
    }

    /// Relies on `biscuit_auth::builder::BlockBuilder::add_check`: appends
    /// the check after those already added, failing and leaving the
    /// builder unchanged if it still has unfilled parameters.
    #[verifier::external_body]
    pub fn add_check(&mut self, check: Check) -> (r: Result<(), BiscuitError>)
        ensures
            r is Ok <==> check_ready(check),
            r is Ok ==> block_checks(*final(self)) == block_checks(*old(self)).push(check)
                && block_facts(*final(self)) == block_facts(*old(self)) && block_rules(*final(self)) == block_rules(*old(self)),
            r is Err ==> *final(self) == *old(self),
            r matches Err(e) ==> e matches BiscuitError::Language(_),
    {
        self.inner.add_check(check.inner).map_err(token_error_of)
    }

    /// Relies on `biscuit_auth::builder::BlockBuilder::add_code`: parses a
    /// batch of Datalog source text and appends every statement in source
    /// order; parsing fails atomically, and a statement left unready
    /// fails after appending the statements before it.
    #[verifier::external_body]
    pub fn add_code(&mut self, source: &str) -> (r: Result<(), BiscuitError>)
        ensures
            r is Ok <==> block_source_ok(source@),
            r is Ok ==> block_facts(*final(self)) == block_facts(*old(self))
                + block_parsed_facts(source@) && block_rules(*final(self)) == block_rules(
                *old(self),
            ) + block_parsed_rules(source@) && block_checks(*final(self)) == block_checks(
                *old(self),
            ) + block_parsed_checks(source@),
            r is Err ==> block_facts(*final(self)).take(block_facts(*old(self)).len() as int)
                == block_facts(*old(self)) && block_rules(*final(self)).take(
                block_rules(*old(self)).len() as int,
            ) == block_rules(*old(self)) && block_checks(*final(self)).take(
                block_checks(*old(self)).len() as int,
            ) == block_checks(*old(self)),
            r matches Err(e) ==> e matches BiscuitError::Language(_),
    {
        self.inner.add_code(source).map_err(token_error_of)
    }

    /// Relies on `biscuit_auth::builder::BlockBuilder::add_code_with_params`:
    /// as `add_code`, filling named parameters with the supplied terms and
    /// named scope parameters with the supplied public keys; acceptance
    /// and the appended statements are a function of the text and the two
    /// parameter lists.
    #[verifier::external_body]
    fn add_code_params_raw(
        &mut self,
        source: &str,
        parameters: Vec<(String, TermRepr)>,
        scope_parameters: Vec<(String, PublicKey)>,
    ) -> (r: Result<(), BiscuitError>)
        ensures
            r is Ok <==> params_source_ok(
                source@,
                repr_param_views(parameters@),
                scope_param_views(scope_parameters@),
            ),
            r is Ok ==> block_facts(*final(self)) == block_facts(*old(self)) + params_parsed_facts(
                source@,
                repr_param_views(parameters@),
                scope_param_views(scope_parameters@),
            ) && block_rules(*final(self)) == block_rules(*old(self)) + params_parsed_rules(
                source@,
                repr_param_views(parameters@),
                scope_param_views(scope_parameters@),
            ) && block_checks(*final(self)) == block_checks(*old(self)) + params_parsed_checks(
                source@,
                repr_param_views(parameters@),
                scope_param_views(scope_parameters@),
            ),
            r is Err ==> block_facts(*final(self)).take(block_facts(*old(self)).len() as int)
                == block_facts(*old(self)) && block_rules(*final(self)).take(
                block_rules(*old(self)).len() as int,
            ) == block_rules(*old(self)) && block_checks(*final(self)).take(
                block_checks(*old(self)).len() as int,
            ) == block_checks(*old(self)),
            r matches Err(e) ==> e matches BiscuitError::Language(_),
    {
        let parameters: HashMap<_, _> = parameters.into_iter().map(|(k, t)| (k, t.inner)).collect();
        let scope_parameters: HashMap<_, _> =
            scope_parameters.into_iter().map(|(k, p)| (k, p.inner)).collect();
        self.inner.add_code_with_params(source, parameters, scope_parameters).map_err(
            token_error_of,
        )
    }

    /// As `add_code`, filling named parameters with the supplied terms and
    /// named scope parameters with the supplied public keys; an unfilled
    /// parameter is a failure, and substitution happens before any
    /// unification semantics apply.
    pub fn add_code_with_parameters(
        &mut self,
        source: &str,
        parameters: Vec<(String, Term)>,
        scope_parameters: Vec<(String, PublicKey)>,
    ) -> (r: Result<(), BiscuitError>)
        ensures
            r is Ok <==> params_source_ok(
                source@,
                term_param_views(parameters@),
                scope_param_views(scope_parameters@),
            ),
            r is Ok ==> block_facts(*final(self)) == block_facts(*old(self)) + params_parsed_facts(
                source@,
                term_param_views(parameters@),
                scope_param_views(scope_parameters@),
            ) && block_rules(*final(self)) == block_rules(*old(self)) + params_parsed_rules(
                source@,
                term_param_views(parameters@),
                scope_param_views(scope_parameters@),
            ) && block_checks(*final(self)) == block_checks(*old(self)) + params_parsed_checks(
                source@,
                term_param_views(parameters@),
                scope_param_views(scope_parameters@),
            ),
            r is Err ==> block_facts(*final(self)).take(block_facts(*old(self)).len() as int)
                == block_facts(*old(self)) && block_rules(*final(self)).take(
                block_rules(*old(self)).len() as int,
            ) == block_rules(*old(self)) && block_checks(*final(self)).take(
                block_checks(*old(self)).len() as int,
            ) == block_checks(*old(self)),
            r matches Err(e) ==> e matches BiscuitError::Language(_),
    {
        let mut params = parameters;
        let mut reprs: Vec<(String, TermRepr)> = Vec::new();
        while params.len() > 0
            invariant
                reprs@.len() + params@.len() == parameters@.len(),
                params@ == parameters@.skip(reprs@.len() as int),
                forall|j: int|
                    0 <= j < reprs@.len() ==> (#[trigger] reprs@[j]).0@ == parameters@[j].0@
                        && term_of_repr(reprs@[j].1) == parameters@[j].1,
            decreases params@.len(),
        {
            let ghost k = reprs@.len() as int;
            let pair = params.remove(0);
            proof {
                assert(pair == parameters@[k]);
                assert(params@ =~= parameters@.skip(k + 1));
            }
            reprs.push((pair.0, pair.1.into_repr()));
        }
        proof {
            assert(repr_param_views(reprs@) =~= term_param_views(parameters@));
        }
        self.add_code_params_raw(source, reprs, scope_parameters)
    }
}

impl BiscuitBuilder {
    /// Relies on `biscuit_auth::builder::BiscuitBuilder::new`: an empty
    /// token builder.
    #[verifier::external_body]
    pub fn new() -> (r: BiscuitBuilder)
        ensures
            builder_facts(r) == Seq::<Fact>::empty(),
            builder_rules(r) == Seq::<Rule>::empty(),
            builder_checks(r) == Seq::<Check>::empty(),
    {
        BiscuitBuilder { inner: biscuit_auth::builder::BiscuitBuilder::new() }
    }

    /// Relies on `biscuit_auth::builder::BiscuitBuilder::merge`: appends
    /// the content of an existing block builder after this builder's own.
    #[verifier::external_body]
    pub fn merge(&mut self, other: BlockBuilder)
        ensures
            builder_facts(*final(self)) == builder_facts(*old(self)) + block_facts(other),
            builder_rules(*final(self)) == builder_rules(*old(self)) + block_rules(other),
            builder_checks(*final(self)) == builder_checks(*old(self)) + block_checks(other),
    {
        self.inner.merge(other.inner)
    }

    /// Relies on `biscuit_auth::builder::BiscuitBuilder::add_fact`:
    /// appends the fact after those already added, failing and leaving the
    /// builder unchanged if it still has unfilled parameters.
    #[verifier::external_body]
    pub fn add_fact(&mut self, fact: Fact) -> (r: Result<(), BiscuitError>)
        ensures
            r is Ok <==> fact_ready(fact),
            r is Ok ==> builder_facts(*final(self)) == builder_facts(*old(self)).push(fact)
                && builder_rules(*final(self)) == builder_rules(*old(self)) && builder_checks(*final(self)) == builder_checks(*old(self)),
            r is Err ==> *final(self) == *old(self),
            r matches Err(e) ==> e matches BiscuitError::Language(_),
    {
        self.inner.add_fact(fact.inner).map_err(token_error_of)
    }

    /// Relies on `biscuit_auth::builder::BiscuitBuilder::add_rule`:
    /// appends the rule after those already added, failing and leaving the
    /// builder unchanged if it still has unfilled parameters.
    #[verifier::external_body]
    pub fn add_rule(&mut self, rule: Rule) -> (r: Result<(), BiscuitError>)
        ensures
            r is Ok <==> rule_ready(rule),
            r is Ok ==> builder_rules(*final(self)) == builder_rules(*old(self)).push(rule)
                && builder_facts(*final(self)) == builder_facts(*old(self)) && builder_checks(*final(self)) == builder_checks(*old(self)),
            r is Err ==> *final(self) == *old(self),
            r matches Err(e) ==> e matches BiscuitError::Language(_),
    {
        self.inner.add_rule(rule.inner).map_err(token_error_of)
    }

    /// Relies on `biscuit_auth::builder::BiscuitBuilder::add_check`:
    /// appends the check after those already added, failing and leaving the
    /// builder unchanged if it still has unfilled parameters.
    #[verifier::external_body]
    pub fn add_check(&mut self, check: Check) -> (r: Result<(), BiscuitError>)
        ensures
            r is Ok <==> check_ready(check),
            r is Ok ==> builder_checks(*final(self)) == builder_checks(*old(self)).push(check)
                && builder_facts(*final(self)) == builder_facts(*old(self)) && builder_rules(*final(self)) == builder_rules(*old(self)),
            r is Err ==> *final(self) == *old(self),
            r matches Err(e) ==> e matches BiscuitError::Language(_),
    {
        self.inner.add_check(check.inner).map_err(token_error_of)
    }

    /// Relies on `biscuit_auth::builder::BiscuitBuilder::add_code`: parses
    /// a batch of Datalog source text and appends every statement in
    /// source order; parsing fails atomically, and a statement left
    /// unready fails after appending the statements before it.
    #[verifier::external_body]
    pub fn add_code(&mut self, source: &str) -> (r: Result<(), BiscuitError>)
        ensures
            r is Ok <==> block_source_ok(source@),
            r is Ok ==> builder_facts(*final(self)) == builder_facts(*old(self))
                + block_parsed_facts(source@) && builder_rules(*final(self)) == builder_rules(
                *old(self),
            ) + block_parsed_rules(source@) && builder_checks(*final(self)) == builder_checks(
                *old(self),
            ) + block_parsed_checks(source@),
            r is Err ==> builder_facts(*final(self)).take(builder_facts(*old(self)).len() as int)
                == builder_facts(*old(self)) && builder_rules(*final(self)).take(
                builder_rules(*old(self)).len() as int,
            ) == builder_rules(*old(self)) && builder_checks(*final(self)).take(
                builder_checks(*old(self)).len() as int,
            ) == builder_checks(*old(self)),
            r matches Err(e) ==> e matches BiscuitError::Language(_),
    {
        self.inner.add_code(source).map_err(token_error_of)
    }

    /// Relies on `biscuit_auth::builder::BiscuitBuilder::add_code_with_params`:
    /// as `add_code`, filling named parameters with the supplied terms and
    /// named scope parameters with the supplied public keys; acceptance
    /// and the appended statements are a function of the text and the two
    /// parameter lists.
    #[verifier::external_body]
    fn add_code_params_raw(
        &mut self,
        source: &str,
        parameters: Vec<(String, TermRepr)>,
        scope_parameters: Vec<(String, PublicKey)>,
    ) -> (r: Result<(), BiscuitError>)
        ensures
            r is Ok <==> params_source_ok(
                source@,
                repr_param_views(parameters@),
                scope_param_views(scope_parameters@),
            ),
            r is Ok ==> builder_facts(*final(self)) == builder_facts(*old(self))
                + params_parsed_facts(
                source@,
                repr_param_views(parameters@),
                scope_param_views(scope_parameters@),
            ) && builder_rules(*final(self)) == builder_rules(*old(self)) + params_parsed_rules(
                source@,
                repr_param_views(parameters@),
                scope_param_views(scope_parameters@),
            ) && builder_checks(*final(self)) == builder_checks(*old(self)) + params_parsed_checks(
                source@,
                repr_param_views(parameters@),
                scope_param_views(scope_parameters@),
            ),
            r is Err ==> builder_facts(*final(self)).take(builder_facts(*old(self)).len() as int)
                == builder_facts(*old(self)) && builder_rules(*final(self)).take(
                builder_rules(*old(self)).len() as int,
            ) == builder_rules(*old(self)) && builder_checks(*final(self)).take(
                builder_checks(*old(self)).len() as int,
            ) == builder_checks(*old(self)),
            r matches Err(e) ==> e matches BiscuitError::Language(_),
    {
        let parameters: HashMap<_, _> = parameters.into_iter().map(|(k, t)| (k, t.inner)).collect();
        let scope_parameters: HashMap<_, _> =
            scope_parameters.into_iter().map(|(k, p)| (k, p.inner)).collect();
        self.inner.add_code_with_params(source, parameters, scope_parameters).map_err(
            token_error_of,
        )
    }

    /// As `add_code`, filling named parameters with the supplied terms and
    /// named scope parameters with the supplied public keys; an unfilled
    /// parameter is a failure, and substitution happens before any
    /// unification semantics apply.
    pub fn add_code_with_parameters(
        &mut self,
        source: &str,
        parameters: Vec<(String, Term)>,
        scope_parameters: Vec<(String, PublicKey)>,
    ) -> (r: Result<(), BiscuitError>)
        ensures
            r is Ok <==> params_source_ok(
                source@,
                term_param_views(parameters@),
                scope_param_views(scope_parameters@),
            ),
            r is Ok ==> builder_facts(*final(self)) == builder_facts(*old(self)) + params_parsed_facts(
                source@,
                term_param_views(parameters@),
                scope_param_views(scope_parameters@),
            ) && builder_rules(*final(self)) == builder_rules(*old(self)) + params_parsed_rules(
                source@,
                term_param_views(parameters@),
                scope_param_views(scope_parameters@),
            ) && builder_checks(*final(self)) == builder_checks(*old(self)) + params_parsed_checks(
                source@,
                term_param_views(parameters@),
                scope_param_views(scope_parameters@),
            ),
            r is Err ==> builder_facts(*final(self)).take(builder_facts(*old(self)).len() as int)
                == builder_facts(*old(self)) && builder_rules(*final(self)).take(
                builder_rules(*old(self)).len() as int,
            ) == builder_rules(*old(self)) && builder_checks(*final(self)).take(
                builder_checks(*old(self)).len() as int,
            ) == builder_checks(*old(self)),
            r matches Err(e) ==> e matches BiscuitError::Language(_),
    {
        let mut params = parameters;
        let mut reprs: Vec<(String, TermRepr)> = Vec::new();
        while params.len() > 0
            invariant
                reprs@.len() + params@.len() == parameters@.len(),
                params@ == parameters@.skip(reprs@.len() as int),
                forall|j: int|
                    0 <= j < reprs@.len() ==> (#[trigger] reprs@[j]).0@ == parameters@[j].0@
                        && term_of_repr(reprs@[j].1) == parameters@[j].1,
            decreases params@.len(),
        {
            let ghost k = reprs@.len() as int;
            let pair = params.remove(0);
            proof {
                assert(pair == parameters@[k]);
                assert(params@ =~= parameters@.skip(k + 1));
            }
            reprs.push((pair.0, pair.1.into_repr()));
        }
        proof {
            assert(repr_param_views(reprs@) =~= term_param_views(parameters@));
        }
        self.add_code_params_raw(source, reprs, scope_parameters)
    }

    /// Relies on `biscuit_auth::builder::BiscuitBuilder::build_with_rng`
    /// (with the default symbol table): signs the authority block with the
    /// root keypair, committing to a fresh next key; the new token has one
    /// block, is not sealed, and verifies under the root keypair's public
    /// half. Building always succeeds: the content was validated when it
    /// was added, its symbols are split off a fresh default table, and
    /// Ed25519 signing and protobuf encoding cannot fail.
    #[verifier::external_body]
    fn build_raw(self, root: &KeyPair, rng: &mut Csprng) -> (r: Result<Biscuit, BiscuitError>)
        ensures
            r is Ok,
            r matches Ok(t) ==> token_blocks(t).len() == 1 && token_sources(t).len() == 1
                && token_sources(t)[0] == builder_rendered(self) && token_root(t)
                == kp_public_bytes(*root) && !token_sealed(t),
    {
        match self.inner.build_with_rng(
            &root.inner,
            biscuit_auth::datalog::SymbolTable::default(),
            &mut rng.inner,
        ) {
            Ok(t) => Ok(Biscuit { inner: t }),
            Err(e) => Err(token_error_of(e)),
        }
    }

    /// Creates a new token whose authority block holds this builder's
    /// content, signed by the keypair of the given root private key. The
    /// new token has exactly one block — whose source is the rendering of
    /// this builder's content — is not sealed, and verifies under the
    /// public key derived from `root`.
    pub fn build(self, root: &PrivateKey) -> (r: Result<Biscuit, BiscuitError>)
        ensures
            r is Ok,
            r matches Ok(t) ==> t.blocks().len() == 1 && t.sources().len() == 1 && t.sources()[0]
                == builder_rendered(self) && t.root() == public_part(root@) && !t.sealed(),
    {
        let keypair = KeyPair::rebuild(root);
        let mut rng = make_rng();
        self.build_raw(&keypair, &mut rng)
    }
}

} // verus!
