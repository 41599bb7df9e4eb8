//! Structured errors, mirroring the failure taxonomy of the token format,
//! the signature chain, the Datalog language and the authorizer.

use vstd::prelude::*;
use biscuit_auth::error::Base64Error as ExtBase64Error;
use biscuit_auth::error::FailedCheck as ExtFailedCheck;
use biscuit_auth::error::Format as ExtFormat;
use biscuit_auth::error::Logic as ExtLogic;
use biscuit_auth::error::MatchedPolicy as ExtMatchedPolicy;
use biscuit_auth::error::RunLimit as ExtRunLimit;
use biscuit_auth::error::Signature as ExtSignature;
use biscuit_auth::error::Token as ExtToken;

verus! {

#[verifier::external_type_specification]
#[verifier::external_body]
pub struct ExToken(ExtToken);

#[verifier::external_type_specification]
#[verifier::external_body]
pub struct ExFormat(ExtFormat);

#[verifier::external_type_specification]
#[verifier::external_body]
pub struct ExSignature(ExtSignature);

#[verifier::external_type_specification]
#[verifier::external_body]
pub struct ExLogic(ExtLogic);

#[verifier::external_type_specification]
#[verifier::external_body]
pub struct ExMatchedPolicy(ExtMatchedPolicy);

#[verifier::external_type_specification]
#[verifier::external_body]
pub struct ExFailedCheck(ExtFailedCheck);

#[verifier::external_type_specification]
#[verifier::external_body]
pub struct ExRunLimit(ExtRunLimit);

#[verifier::external_type_specification]
#[verifier::external_body]
pub struct ExBase64Error(ExtBase64Error);

/// Why a signature could not be produced or checked.
#[derive(Debug, Clone, PartialEq, Eq)]
pub enum SignatureError {
    /// the signature bytes could not be parsed
    InvalidFormat,
    /// a signature of the chain did not match
    InvalidSignature(String),
    /// a signature could not be produced
    InvalidSignatureGeneration(String),
}

/// Errors of the token wire format: malformed bytes, wrong key or signature
/// sizes, an unsupported version, or a signature that does not check out.
#[derive(Debug, Clone, PartialEq, Eq)]
pub enum FormatError {
    /// a block signature of the chain is invalid
    Signature(SignatureError),
    /// the final signature of a sealed token is invalid
    SealedSignature,
    /// a key is not exactly 32 bytes long
    InvalidKeySize(usize),
    /// a signature is not exactly 64 bytes long
    InvalidSignatureSize(usize),
    /// a key could not be decoded; carries the decode failure description
    InvalidKey(String),
    /// the block format version is outside the supported range, as
    /// `(minimum supported, maximum supported, actual)`
    UnsupportedVersion(u32, u32, u32),
    /// the wrapper object or a block could not be deserialized
    Deserialization(String),
    /// the wrapper object or a block could not be serialized
    Serialization(String),
    /// a block index is out of range
    InvalidBlockId(usize),
    /// a root, intermediate or external public key was missing or not
    /// recognized
    UnknownKey,
    /// a symbol table or key table is inconsistent across blocks
    Symbols,
}

/// The policy that decided an authorization, by kind and zero-based index.
#[derive(Debug, Clone, PartialEq, Eq)]
pub enum MatchedPolicy {
    /// an allow policy matched
    Allow(usize),
    /// a deny policy matched
    Deny(usize),
}

/// A check that failed during authorization, with its origin.
#[derive(Debug, Clone, PartialEq, Eq)]
pub enum FailedCheck {
    /// a check of a token block failed
    Block { block_id: u32, check_id: u32, rule: String },
    /// a check added to the authorizer failed
    Authorizer { check_id: u32, rule: String },
}

/// Errors of the authorization decision: failed checks with their origin,
/// a matched deny policy with its index, or no matching policy at all.
#[derive(Debug, Clone, PartialEq, Eq)]
pub enum LogicError {
    /// a block rule would generate facts outside the block's scope
    InvalidBlockRule(u32, String),
    /// checks failed, or a deny policy matched
    Unauthorized { policy: MatchedPolicy, checks: Vec<FailedCheck> },
    /// a token was added to an authorizer that already holds one
    AuthorizerNotEmpty,
    /// no policy matched
    NoMatchingPolicy { checks: Vec<FailedCheck> },
}

/// The Datalog engine gave up before reaching a fixpoint.
#[derive(Debug, Clone, PartialEq, Eq)]
pub enum RunLimitError {
    TooManyFacts,
    TooManyIterations,
    Timeout,
}

/// Errors of URL-safe base64 decoding.
#[derive(Debug, Clone, PartialEq, Eq)]
pub enum Base64Error {
    InvalidByte(usize, u8),
    InvalidLength,
    InvalidLastSymbol(usize, u8),
}

/// The error type of this crate.
#[derive(Debug, Clone, PartialEq, Eq)]
pub enum BiscuitError {
    /// an invariant of the underlying token library was broken
    InternalError,
    /// the token could not be deserialized or its signatures do not verify
    Format(FormatError),
    /// a block was appended to a sealed token
    AppendOnSealed,
    /// an already sealed token was sealed again
    AlreadySealed,
    /// authorization failed
    FailedLogic(LogicError),
    /// Datalog source text could not be parsed; carries the description
    Language(String),
    /// the Datalog engine reached an execution limit
    RunLimit(RunLimitError),
    /// a value could not be converted to a Datalog term
    ConversionError(String),
    /// a base64 string could not be decoded
    Base64(Base64Error),
    /// a Datalog expression failed to evaluate
    Execution,
}

/// Relies on the variant layout of `biscuit_auth::error::Signature`.
#[verifier::external_body]
pub(crate) fn signature_error_of(e: ExtSignature) -> SignatureError {
    match e {
        ExtSignature::InvalidFormat => SignatureError::InvalidFormat,
        ExtSignature::InvalidSignature(s) => SignatureError::InvalidSignature(s),
        ExtSignature::InvalidSignatureGeneration(s) => {
            SignatureError::InvalidSignatureGeneration(s)
        }
    }
}

/// Relies on the variant layout of `biscuit_auth::error::Format`.
#[verifier::external_body]
pub(crate) fn format_error_of(e: ExtFormat) -> FormatError {
    match e {
        ExtFormat::Signature(s) => FormatError::Signature(signature_error_of(s)),
        ExtFormat::Version { maximum, minimum, actual } => {
            FormatError::UnsupportedVersion(minimum, maximum, actual)
        }
        ExtFormat::InvalidKeySize(n) => FormatError::InvalidKeySize(n),
        ExtFormat::InvalidSignatureSize(n) => FormatError::InvalidSignatureSize(n),
        ExtFormat::InvalidKey(s) => FormatError::InvalidKey(s),
        ExtFormat::InvalidBlockId(n) => FormatError::InvalidBlockId(n),
        other => format_error_class_of(other),
    }
}

/// Relies on the variant layout of `biscuit_auth::error::Format`; maps the
/// variants that `format_error_of` leaves to their failure class.
#[verifier::external_body]
pub(crate) fn format_error_class_of(e: ExtFormat) -> FormatError {
    match e {
        ExtFormat::SealedSignature => FormatError::SealedSignature,
        ExtFormat::EmptyKeys | ExtFormat::UnknownPublicKey | ExtFormat::UnknownExternalKey => {
            FormatError::UnknownKey
        }
        ExtFormat::DeserializationError(s)
        | ExtFormat::BlockDeserializationError(s)
        | ExtFormat::SignatureDeserializationError(s)
        | ExtFormat::BlockSignatureDeserializationError(s) => FormatError::Deserialization(s),
        ExtFormat::SerializationError(s) | ExtFormat::BlockSerializationError(s) => {
            FormatError::Serialization(s)
        }
        _ => FormatError::Symbols,
    }
}

/// Relies on the variant layout of `biscuit_auth::error::MatchedPolicy`.
#[verifier::external_body]
pub(crate) fn matched_policy_of(p: ExtMatchedPolicy) -> MatchedPolicy {
    match p {
        ExtMatchedPolicy::Allow(i) => MatchedPolicy::Allow(i),
        ExtMatchedPolicy::Deny(i) => MatchedPolicy::Deny(i),
    }
}

/// Relies on the variant layout of `biscuit_auth::error::FailedCheck`.
#[verifier::external_body]
pub(crate) fn failed_check_of(c: ExtFailedCheck) -> FailedCheck {
    match c {
        ExtFailedCheck::Block(b) => FailedCheck::Block {
            block_id: b.block_id,
            check_id: b.check_id,
            rule: b.rule,
        },
        ExtFailedCheck::Authorizer(a) => FailedCheck::Authorizer {
            check_id: a.check_id,
            rule: a.rule,
        },
    }
}

/// Relies on the variant layout of `biscuit_auth::error::FailedCheck`.
#[verifier::external_body]
pub(crate) fn failed_checks_of(v: Vec<ExtFailedCheck>) -> Vec<FailedCheck> {
    v.into_iter().map(failed_check_of).collect()
}

/// Relies on the variant layout of `biscuit_auth::error::Logic`.
#[verifier::external_body]
pub(crate) fn logic_error_of(e: ExtLogic) -> LogicError {
    match e {
        ExtLogic::InvalidBlockRule(i, s) => LogicError::InvalidBlockRule(i, s),
        ExtLogic::Unauthorized { policy, checks } => LogicError::Unauthorized {
            policy: matched_policy_of(policy),
            checks: failed_checks_of(checks),
        },
        ExtLogic::AuthorizerNotEmpty => LogicError::AuthorizerNotEmpty,
        ExtLogic::NoMatchingPolicy { checks } => LogicError::NoMatchingPolicy {
            checks: failed_checks_of(checks),
        },
    }
}

/// Relies on the variant layout of `biscuit_auth::error::RunLimit`.
#[verifier::external_body]
pub(crate) fn run_limit_of(e: ExtRunLimit) -> RunLimitError {
    match e {
        ExtRunLimit::TooManyFacts => RunLimitError::TooManyFacts,
        ExtRunLimit::TooManyIterations => RunLimitError::TooManyIterations,
        ExtRunLimit::Timeout => RunLimitError::Timeout,
    }
}

/// Relies on the variant layout of `biscuit_auth::error::Base64Error`.
#[verifier::external_body]
pub(crate) fn base64_error_of(e: ExtBase64Error) -> Base64Error {
    match e {
        ExtBase64Error::InvalidByte(i, b) => Base64Error::InvalidByte(i, b),
        ExtBase64Error::InvalidLength => Base64Error::InvalidLength,
        ExtBase64Error::InvalidLastSymbol(i, b) => Base64Error::InvalidLastSymbol(i, b),
    }
}

/// Relies on the variant layout of `biscuit_auth::error::Token`; parse
/// errors are rendered through their `Display` implementation.
#[verifier::external_body]
pub(crate) fn token_error_of(e: ExtToken) -> BiscuitError {
    match e {
        ExtToken::InternalError => BiscuitError::InternalError,
        ExtToken::Format(f) => BiscuitError::Format(format_error_of(f)),
        ExtToken::AppendOnSealed => BiscuitError::AppendOnSealed,
        ExtToken::AlreadySealed => BiscuitError::AlreadySealed,
        ExtToken::FailedLogic(l) => BiscuitError::FailedLogic(logic_error_of(l)),
        ExtToken::Language(l) => BiscuitError::Language(format!("{}", l)),
        ExtToken::RunLimit(r) => BiscuitError::RunLimit(run_limit_of(r)),
        ExtToken::ConversionError(s) => BiscuitError::ConversionError(s),
        ExtToken::Base64(b) => BiscuitError::Base64(base64_error_of(b)),
        ExtToken::Execution(_) => BiscuitError::Execution,
    }
}

} // verus!
