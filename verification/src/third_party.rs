//! The third-party block protocol: a request captures a token's chain
//! state, a third party signs a block bound to that state, and the token
//! holder appends the signed block. The binding ties the block to one
//! token instance, so it cannot be replayed onto another token.

use vstd::prelude::*;
use crate::builder::block_rendered;
use crate::builder::BlockBuilder;
use crate::crypto::pk_bytes;
use crate::crypto::public_part;
use crate::crypto::sk_bytes;
use crate::crypto::PrivateKey;
use crate::crypto::PublicKey;
use crate::encoding::b64url_encode;
use crate::encoding::b64url_of;
use crate::errors::token_error_of;
use crate::errors::BiscuitError;
use crate::token::token_blocks;
use crate::token::token_root;
use crate::token::token_sealed;
use crate::token::token_sources;
use crate::token::Biscuit;

verus! {

/// A request for a third-party block, carrying the issuing token's chain
/// anchor. Holds a `biscuit_auth::ThirdPartyRequest`, opaque to the
/// verifier.
#[derive(Debug)]
#[verifier::external_body]
pub struct ThirdPartyRequest {
    pub(crate) inner: biscuit_auth::ThirdPartyRequest,
}

/// A third-party block: signed content bound to the chain state of the
/// token the request was made from. Holds a
/// `biscuit_auth::ThirdPartyBlock`, opaque to the verifier.
#[derive(Debug)]
#[verifier::external_body]
pub struct ThirdPartyBlock {
    pub(crate) inner: biscuit_auth::ThirdPartyBlock,
}

/// The request's canonical serialization: what
/// `biscuit_auth::ThirdPartyRequest::serialize` returns, a function of the
/// request value alone.
pub uninterp spec fn request_bytes(r: ThirdPartyRequest) -> Seq<u8>;

/// The block's canonical serialization: what
/// `biscuit_auth::ThirdPartyBlock::serialize` returns, a function of the
/// block value alone.
pub uninterp spec fn block_bytes(b: ThirdPartyBlock) -> Seq<u8>;

/// The token's chain anchor: the next-key commitment of its last block,
/// to which the next appended block must be bound.
pub uninterp spec fn token_anchor(t: Biscuit) -> Seq<u8>;

/// The chain anchor a third-party request captured from its token.
pub uninterp spec fn request_anchor(r: ThirdPartyRequest) -> Seq<u8>;

/// Whether a third-party block is validly bound to the given chain anchor
/// under the given external public key: its payload is well-formed and its
/// external signature covers the payload and that anchor and verifies
/// under that key. A deterministic predicate of the three values.
pub uninterp spec fn block_binds(b: ThirdPartyBlock, anchor: Seq<u8>, key: Seq<u8>) -> bool;

/// Whether the token accepts the third-party block under the given
/// external public key: the full acceptance predicate of
/// `biscuit_auth::Biscuit::append_third_party`, a deterministic function
/// of the three values. It entails the binding to the token's anchor, and
/// further depends on the token itself (the block's declared keys must
/// not collide with the token's key table).
pub uninterp spec fn block_accepted(t: Biscuit, key: Seq<u8>, b: ThirdPartyBlock) -> bool;

/// The Datalog source the token renders for an appended third-party
/// block: a function of the block value alone, since a third-party block
/// carries its own symbols.
pub uninterp spec fn tp_rendered(b: ThirdPartyBlock) -> Seq<char>;

impl Biscuit {
    /// Relies on `biscuit_auth::Biscuit::third_party_request`: captures
    /// the token's chain anchor (its last committed public key) so a
    /// third-party block can be bound to this token instance. It fails on
    /// a sealed token and succeeds on any other: it only re-reads block
    /// data and keys that were validated when the token was built or
    /// parsed.
    #[verifier::external_body]
    fn third_party_request_raw(&self) -> (r: Result<ThirdPartyRequest, BiscuitError>)
        ensures
            r is Err || !token_sealed(*self),
            r is Ok || token_sealed(*self),
            r matches Err(e) ==> (token_sealed(*self) ==> e == BiscuitError::AppendOnSealed),
            r matches Ok(req) ==> request_anchor(req) == token_anchor(*self),
    {
        match self.inner.third_party_request() {
            Ok(req) => Ok(ThirdPartyRequest { inner: req }),
            Err(e) => Err(token_error_of(e)),
        }
    }

    /// Creates a third-party request bound to this token's current chain
    /// state; fails on a sealed token.
    pub fn third_party_request(&self) -> (r: Result<ThirdPartyRequest, BiscuitError>)
        ensures
            r is Ok <==> !self.sealed(),
            self.sealed() ==> r == Err::<ThirdPartyRequest, BiscuitError>(
                BiscuitError::AppendOnSealed,
            ),
            r matches Ok(req) ==> request_anchor(req) == token_anchor(*self),
    {
        self.third_party_request_raw()
    }

    /// Relies on `biscuit_auth::Biscuit::append_third_party`: verifies the
    /// block's binding against the token's current chain anchor and the
    /// given public key, then appends it like an attenuation block.
    /// Acceptance is a deterministic function of token, key and block; a
    /// binding made against another token's state, or a sealed token, is
    /// rejected, so acceptance implies the block binds to this token's
    /// anchor under the given key.
    #[verifier::external_body]
    fn append_third_party_raw(&self, external_key: PublicKey, block: ThirdPartyBlock) -> (r: Result<
        Biscuit,
        BiscuitError,
    >)
        ensures
            r is Ok <==> block_accepted(*self, pk_bytes(external_key), block),
            r is Err || !token_sealed(*self),
            r matches Ok(t2) ==> block_binds(block, token_anchor(*self), pk_bytes(external_key)),
            r matches Ok(t2) ==> !token_sealed(t2) && token_blocks(t2).len() == token_blocks(
                *self,
            ).len() + 1 && token_blocks(t2).take(token_blocks(*self).len() as int) == token_blocks(
                *self,
            ) && token_sources(t2).len() == token_sources(*self).len() + 1 && token_sources(
                t2,
            ).take(token_sources(*self).len() as int) == token_sources(*self) && token_sources(
                t2,
            )[token_sources(*self).len() as int] == tp_rendered(block) && token_root(t2)
                == token_root(*self),
    {
        match self.inner.append_third_party(external_key.inner, block.inner) {
            Ok(t) => Ok(Biscuit { inner: t }),
            Err(e) => Err(token_error_of(e)),
        }
    }

    /// Appends a third-party block, attributing it to the given third-party
    /// public key, and returns the extended token; the original token is
    /// unchanged. Fails if the block's binding does not match this exact
    /// token instance and key, or if the token is sealed.
    pub fn append_third_party(&self, external_key: PublicKey, block: ThirdPartyBlock) -> (r: Result<
        Biscuit,
        BiscuitError,
    >)
        ensures
            r is Ok <==> block_accepted(*self, pk_bytes(external_key), block),
            self.sealed() ==> r is Err,
            r matches Ok(t2) ==> block_binds(block, token_anchor(*self), pk_bytes(external_key)),
            r matches Ok(t2) ==> !t2.sealed() && t2.blocks().len() == self.blocks().len() + 1
                && t2.blocks().take(self.blocks().len() as int) == self.blocks()
                && t2.sources().len() == self.sources().len() + 1 && t2.sources().take(
                self.sources().len() as int,
            ) == self.sources() && t2.sources()[self.sources().len() as int] == tp_rendered(block)
                && t2.root() == self.root(),
    {
        self.append_third_party_raw(external_key, block)
    }
}

impl ThirdPartyRequest {
    /// Relies on `biscuit_auth::ThirdPartyRequest::deserialize`: decodes a
    /// request from raw bytes; a serialized request decodes back to one
    /// capturing the same chain anchor and serializing to the same bytes.
    #[verifier::external_body]
    pub fn from_bytes(data: &[u8]) -> (r: Result<ThirdPartyRequest, BiscuitError>)
        ensures
            r is Ok || (forall|q: ThirdPartyRequest| #[trigger] request_bytes(q) != data@),
            r matches Ok(r2) ==> (forall|q: ThirdPartyRequest| #[trigger] request_bytes(q) == data@
                ==> request_anchor(r2) == request_anchor(q) && request_bytes(r2)
                == request_bytes(q)),
            r matches Err(e) ==> e matches BiscuitError::Format(_),
    {
        match biscuit_auth::ThirdPartyRequest::deserialize(data) {
            Ok(req) => Ok(ThirdPartyRequest { inner: req }),
            Err(e) => Err(token_error_of(e)),
        }
    }

    /// Relies on `biscuit_auth::ThirdPartyRequest::deserialize_base64`:
    /// decodes a request from URL-safe base64 text; the base64 form of a
    /// serialized request decodes back to one capturing the same chain
    /// anchor and serializing to the same bytes.
    #[verifier::external_body]
    pub fn from_base64(data: &str) -> (r: Result<ThirdPartyRequest, BiscuitError>)
        ensures
            r is Ok || (forall|q: ThirdPartyRequest|
            #[trigger] b64url_of(request_bytes(q)) != data@),
            r matches Ok(r2) ==> (forall|q: ThirdPartyRequest|
            #[trigger] b64url_of(request_bytes(q)) == data@ ==> request_anchor(r2)
                == request_anchor(q) && request_bytes(r2) == request_bytes(q)),
            r matches Err(e) ==> (e matches BiscuitError::Format(_) || e
                matches BiscuitError::Base64(_)),
    {
        match biscuit_auth::ThirdPartyRequest::deserialize_base64(data) {
            Ok(req) => Ok(ThirdPartyRequest { inner: req }),
            Err(e) => Err(token_error_of(e)),
        }
    }

    /// Relies on `biscuit_auth::ThirdPartyRequest::serialize`: the
    /// request's canonical bytes; protobuf encoding into a vector cannot
    /// fail.
    #[verifier::external_body]
    fn to_bytes_raw(&self) -> (r: Result<Vec<u8>, BiscuitError>)
        ensures
            r is Ok,
            r matches Ok(v) ==> v@ == request_bytes(*self),
    {
        match self.inner.serialize() {
            Ok(v) => Ok(v),
            Err(e) => Err(token_error_of(e)),
        }
    }

    /// Serializes the request to raw bytes, independent of the host token.
    pub fn to_bytes(&self) -> (r: Result<Vec<u8>, BiscuitError>)
        ensures
            r is Ok,
            r matches Ok(v) ==> v@ == request_bytes(*self),
    {
        self.to_bytes_raw()
    }

    /// Serializes the request to URL-safe base64 text.
    pub fn to_base64(&self) -> (r: Result<String, BiscuitError>)
        ensures
            r is Ok,
            r matches Ok(s) ==> s@ == b64url_of(request_bytes(*self)),
    {
        let bytes = self.to_bytes()?;
        Ok(b64url_encode(bytes.as_slice()))
    }

    /// Relies on `biscuit_auth::ThirdPartyRequest::create_block`: signs
    /// the block builder's content, bound to the chain anchor the request
    /// captured, under the third party's private key; the resulting block
    /// renders as that content. It always succeeds: the content was
    /// validated when it was added to the builder, and Ed25519 signing and
    /// protobuf encoding cannot fail.
    #[verifier::external_body]
    pub fn create_block(self, private_key: &PrivateKey, block_builder: BlockBuilder) -> (r: Result<
        ThirdPartyBlock,
        BiscuitError,
    >)
        ensures
            r is Ok,
            r matches Ok(b) ==> block_binds(
                b,
                request_anchor(self),
                public_part(sk_bytes(*private_key)),
            ) && tp_rendered(b) == block_rendered(block_builder),
    {
        match self.inner.create_block(&private_key.inner, block_builder.inner) {
            Ok(b) => Ok(ThirdPartyBlock { inner: b }),
            Err(e) => Err(token_error_of(e)),
        }
    }
}

impl ThirdPartyBlock {
    /// Relies on `biscuit_auth::ThirdPartyBlock::serialize`: the block's
    /// canonical bytes.
    #[verifier::external_body]
    fn to_bytes_raw(&self) -> (r: Result<Vec<u8>, BiscuitError>)
        ensures
            r is Ok,
            r matches Ok(v) ==> v@ == block_bytes(*self),
    {
        match self.inner.serialize() {
            Ok(v) => Ok(v),
            Err(e) => Err(token_error_of(e)),
        }
    }

    /// Serializes the block to raw bytes, independent of the host token.
    pub fn to_bytes(&self) -> (r: Result<Vec<u8>, BiscuitError>)
        ensures
            r is Ok,
            r matches Ok(v) ==> v@ == block_bytes(*self),
    {
        self.to_bytes_raw()
    }

    /// Serializes the block to URL-safe base64 text.
    pub fn to_base64(self) -> (r: Result<String, BiscuitError>)
        ensures
            r is Ok,
            r matches Ok(s) ==> s@ == b64url_of(block_bytes(self)),
    {
        let bytes = self.to_bytes()?;
        Ok(b64url_encode(bytes.as_slice()))
    }
}

} // verus!
