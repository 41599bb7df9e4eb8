//! The token chain: an ordered list of signed blocks, built from a root
//! private key, attenuated by appending blocks, optionally sealed, and
//! (de)serialized with full signature verification.
//!
//! A token is modelled by what a verifier can observe of it: its
//! revocation identifiers (one per block, in block order), the Datalog
//! source of each block, the root public key it verifies under, whether it
//! is sealed, and its canonical serialization.

use vstd::prelude::*;
use crate::builder::block_rendered;
use crate::builder::BiscuitBuilder;
use crate::builder::BlockBuilder;
use crate::crypto::pk_bytes;
use crate::crypto::KeyPair;
use crate::crypto::PublicKey;
use crate::encoding::b64url_encode;
use crate::encoding::b64url_of;
use crate::errors::token_error_of;
use crate::errors::BiscuitError;
use crate::errors::FormatError;

verus! {

/// A biscuit token: a chain of signed blocks. Holds a
/// `biscuit_auth::Biscuit`, opaque to the verifier.
#[derive(Debug)]
#[verifier::external_body]
pub struct Biscuit {
    pub(crate) inner: biscuit_auth::Biscuit,
}

/// The token's revocation identifiers, one per block, in block order:
/// what `biscuit_auth::Biscuit::revocation_identifiers` returns, a
/// function of the token value alone.
pub uninterp spec fn token_blocks(t: Biscuit) -> Seq<Seq<u8>>;

/// The Datalog source of each block, in block order: what
/// `biscuit_auth::Biscuit::print_block_source` renders, a function of the
/// token value alone.
pub uninterp spec fn token_sources(t: Biscuit) -> Seq<Seq<char>>;

/// The bytes of the root public key the token's signature chain verifies
/// under.
pub uninterp spec fn token_root(t: Biscuit) -> Seq<u8>;

/// Whether the token is sealed: terminated by a final signature instead
/// of an appendable key.
pub uninterp spec fn token_sealed(t: Biscuit) -> bool;

/// The token's canonical serialization: what
/// `biscuit_auth::Biscuit::to_vec` returns, a function of the token value
/// alone.
pub uninterp spec fn token_bytes(t: Biscuit) -> Seq<u8>;

/// The revocation identifiers of the token that
/// `biscuit_auth::Biscuit::from` accepts from the given bytes under the
/// given root public key, or `None` where it rejects them; a function of
/// the bytes and the key alone.
pub uninterp spec fn parse_token(data: Seq<u8>, root: Seq<u8>) -> Option<Seq<Seq<u8>>>;

/// The per-block Datalog sources of the token that
/// `biscuit_auth::Biscuit::from` accepts from the given bytes under the
/// given root public key; meaningful only where `parse_token` is `Some`.
pub uninterp spec fn parse_token_sources(data: Seq<u8>, root: Seq<u8>) -> Seq<Seq<char>>;

impl Biscuit {
    /// The token's revocation identifiers, one per block, in block order.
    pub open spec fn blocks(&self) -> Seq<Seq<u8>> {
        token_blocks(*self)
    }

    /// The Datalog source of each block, in block order.
    pub open spec fn sources(&self) -> Seq<Seq<char>> {
        token_sources(*self)
    }

    /// The bytes of the root public key the token verifies under.
    pub open spec fn root(&self) -> Seq<u8> {
        token_root(*self)
    }

    /// Whether the token is sealed.
    pub open spec fn sealed(&self) -> bool {
        token_sealed(*self)
    }

    /// Creates a builder for the authority block of a new token.
    pub fn builder() -> BiscuitBuilder {
        BiscuitBuilder::new()
    }

    /// Relies on `biscuit_auth::Biscuit::append_with_keypair`: signs the
    /// new block with the fresh keypair, chains it to the previously
    /// committed key, and returns the extended token, leaving this one
    /// unchanged. Appending to a sealed token fails; on an unsealed token
    /// it succeeds, since the block's content was validated when it was
    /// added to the builder, its symbols are split off the token's own
    /// table, and Ed25519 signing and protobuf encoding into a vector
    /// cannot fail.
    #[verifier::external_body]
    fn append_raw(&self, keypair: &KeyPair, block: BlockBuilder) -> (r: Result<
        Biscuit,
        BiscuitError,
    >)
        ensures
            r is Err || !token_sealed(*self),
            r is Ok || token_sealed(*self),
            r matches Err(e) ==> (token_sealed(*self) ==> e == BiscuitError::AlreadySealed),
            r matches Ok(t2) ==> !token_sealed(*self) && !token_sealed(t2) && token_blocks(t2).len()
                == token_blocks(*self).len() + 1 && token_blocks(t2).take(
                token_blocks(*self).len() as int,
            ) == token_blocks(*self) && token_sources(t2).len() == token_sources(*self).len() + 1
                && token_sources(t2).take(token_sources(*self).len() as int) == token_sources(
                *self,
            ) && token_sources(t2)[token_sources(*self).len() as int] == block_rendered(block)
                && token_root(t2) == token_root(*self),
    {
        match self.inner.append_with_keypair(&keypair.inner, block.inner) {
            Ok(t) => Ok(Biscuit { inner: t }),
            Err(e) => Err(token_error_of(e)),
        }
    }

    /// Creates an attenuated token by appending the block built by the
    /// given builder, signed with a fresh ephemeral keypair. The original
    /// token is unchanged; the new token has exactly one more block —
    /// whose source is the rendering of the builder's content — the same
    /// prior revocation identifiers and block sources, and the same root.
    /// Appending to a sealed token fails.
    pub fn append(&self, block: BlockBuilder) -> (r: Result<Biscuit, BiscuitError>)
        ensures
            r is Ok <==> !self.sealed(),
            self.sealed() ==> r == Err::<Biscuit, BiscuitError>(BiscuitError::AlreadySealed),
            r matches Ok(t2) ==> !self.sealed() && !t2.sealed() && t2.blocks().len()
                == self.blocks().len() + 1 && t2.blocks().take(self.blocks().len() as int)
                == self.blocks() && t2.sources().len() == self.sources().len() + 1
                && t2.sources().take(self.sources().len() as int) == self.sources()
                && t2.sources()[self.sources().len() as int] == block_rendered(block) && t2.root()
                == self.root(),
    {
        let keypair = KeyPair::new();
        self.append_raw(&keypair, block)
    }

    /// Relies on `biscuit_auth::Biscuit::seal`: commits to the full chain
    /// with a final signature. Sealing an already sealed token fails;
    /// sealing an appendable one succeeds, since the stored next keypair
    /// is available and Ed25519 signing cannot fail.
    #[verifier::external_body]
    fn seal_raw(&self) -> (r: Result<Biscuit, BiscuitError>)
        ensures
            r is Err || !token_sealed(*self),
            r is Ok || token_sealed(*self),
            r matches Err(e) ==> (token_sealed(*self) ==> e == BiscuitError::AlreadySealed),
            r matches Ok(t2) ==> token_sealed(t2) && token_blocks(t2) == token_blocks(*self)
                && token_sources(t2) == token_sources(*self) && token_root(t2) == token_root(
                *self,
            ),
    {
        match self.inner.seal() {
            Ok(t) => Ok(Biscuit { inner: t }),
            Err(e) => Err(token_error_of(e)),
        }
    }

    /// Seals the token: the result carries the same blocks but accepts no
    /// further appends. The original token is unchanged; sealing an
    /// already sealed token fails.
    pub fn seal(&self) -> (r: Result<Biscuit, BiscuitError>)
        ensures
            r is Ok <==> !self.sealed(),
            self.sealed() ==> r == Err::<Biscuit, BiscuitError>(BiscuitError::AlreadySealed),
            r matches Ok(t2) ==> t2.sealed() && t2.blocks() == self.blocks() && t2.sources()
                == self.sources() && t2.root() == self.root(),
    {
        self.seal_raw()
    }

    /// Relies on the `Clone` impl of `biscuit_auth::Biscuit`: an equal
    /// token value.
    #[verifier::external_body]
    pub(crate) fn duplicate(&self) -> (r: Biscuit)
        ensures
            token_blocks(r) == token_blocks(*self),
            token_sources(r) == token_sources(*self),
            token_root(r) == token_root(*self),
            token_sealed(r) == token_sealed(*self),
            token_bytes(r) == token_bytes(*self),
    {
        Biscuit { inner: self.inner.clone() }
    }

    /// Relies on `biscuit_auth::Biscuit::from`: deserializes the bytes and
    /// verifies every signature of the chain against the root public key;
    /// it accepts or rejects as a function of the bytes and the key alone,
    /// and the accepted token's observable content is a function of the
    /// bytes.
    #[verifier::external_body]
    fn from_bytes_raw(data: &[u8], root: &PublicKey) -> (r: Result<Biscuit, BiscuitError>)
        ensures
            r is Ok <==> parse_token(data@, pk_bytes(*root)) is Some,
            r matches Ok(t) ==> parse_token(data@, pk_bytes(*root)) matches Some(ids)
                && token_blocks(t) == ids && token_sources(t) == parse_token_sources(
                data@,
                pk_bytes(*root),
            ) && token_root(t) == pk_bytes(*root),
            r matches Err(e) ==> e matches BiscuitError::Format(_),
    {
        match biscuit_auth::Biscuit::from(data, root.inner) {
            Ok(t) => Ok(Biscuit { inner: t }),
            Err(e) => Err(token_error_of(e)),
        }
    }

    /// Deserializes a token from raw bytes, verifying every signature of
    /// the chain against the given root public key; any invalid signature
    /// or malformed content rejects the whole input.
    pub fn from_bytes(data: &[u8], root: &PublicKey) -> (r: Result<Biscuit, BiscuitError>)
        ensures
            r is Ok <==> parse_token(data@, root@) is Some,
            r matches Ok(t) ==> parse_token(data@, root@) matches Some(ids) && t.blocks() == ids
                && t.sources() == parse_token_sources(data@, root@) && t.root() == root@,
            r matches Err(e) ==> e matches BiscuitError::Format(_),
    {
        Self::from_bytes_raw(data, root)
    }

    /// Relies on `biscuit_auth::Biscuit::from_base64`: decodes URL-safe
    /// base64 (the inverse of the encoding this crate's contracts call
    /// `b64url_of`), then deserializes and verifies as `from`.
    #[verifier::external_body]
    fn from_base64_raw(data: &str, root: &PublicKey) -> (r: Result<Biscuit, BiscuitError>)
        ensures
            forall|d: Seq<u8>| #[trigger] b64url_of(d) == data@ ==> ((r is Ok <==> parse_token(
                d,
                pk_bytes(*root),
            ) is Some) && (r matches Ok(t) ==> parse_token(d, pk_bytes(*root)) matches Some(ids)
                && token_blocks(t) == ids && token_sources(t) == parse_token_sources(
                d,
                pk_bytes(*root),
            ) && token_root(t) == pk_bytes(*root))),
    {
        match biscuit_auth::Biscuit::from_base64(data, root.inner) {
            Ok(t) => Ok(Biscuit { inner: t }),
            Err(e) => Err(token_error_of(e)),
        }
    }

    /// Deserializes a token from URL-safe base64 text, verifying every
    /// signature of the chain against the given root public key.
    pub fn from_base64(data: &str, root: &PublicKey) -> (r: Result<Biscuit, BiscuitError>)
        ensures
            forall|d: Seq<u8>| #[trigger] b64url_of(d) == data@ ==> ((r is Ok <==> parse_token(
                d,
                root@,
            ) is Some) && (r matches Ok(t) ==> parse_token(d, root@) matches Some(ids)
                && t.blocks() == ids && t.sources() == parse_token_sources(d, root@) && t.root()
                == root@)),
    {
        Self::from_base64_raw(data, root)
    }

    /// Relies on `biscuit_auth::Biscuit::to_vec`: the token's canonical
    /// serialization, which `biscuit_auth::Biscuit::from` accepts under
    /// the token's own root key, reproducing the same revocation
    /// identifiers and block sources. Serialization cannot fail: protobuf
    /// encoding into a vector always succeeds.
    #[verifier::external_body]
    fn to_bytes_raw(&self) -> (r: Result<Vec<u8>, BiscuitError>)
        ensures
            r is Ok,
            r matches Ok(v) ==> v@ == token_bytes(*self) && parse_token(v@, token_root(*self))
                == Some(token_blocks(*self)) && parse_token_sources(v@, token_root(*self))
                == token_sources(*self),
    {
        match self.inner.to_vec() {
            Ok(v) => Ok(v),
            Err(e) => Err(token_error_of(e)),
        }
    }

    /// Serializes the token to its canonical bytes. Deserializing them
    /// under the token's own root public key succeeds and reproduces the
    /// same block count, revocation identifiers and block sources.
    pub fn to_bytes(&self) -> (r: Result<Vec<u8>, BiscuitError>)
        ensures
            r is Ok,
            r matches Ok(v) ==> v@ == token_bytes(*self) && parse_token(v@, self.root()) == Some(
                self.blocks(),
            ) && parse_token_sources(v@, self.root()) == self.sources(),
    {
        self.to_bytes_raw()
    }

    /// Serializes the token to URL-safe base64 text: the base64 encoding
    /// of its canonical bytes.
    pub fn to_base64(&self) -> (r: Result<String, BiscuitError>)
        ensures
            r is Ok,
            r matches Ok(s) ==> s@ == b64url_of(token_bytes(*self)) && parse_token(
                token_bytes(*self),
                self.root(),
            ) == Some(self.blocks()) && parse_token_sources(token_bytes(*self), self.root())
                == self.sources(),
    {
        let bytes = self.to_bytes()?;
        Ok(b64url_encode(bytes.as_slice()))
    }

    /// Relies on `biscuit_auth::Biscuit::revocation_identifiers`: one
    /// identifier per block, in block order, derived from each block's
    /// signature.
    #[verifier::external_body]
    fn revocation_identifiers_raw(&self) -> (r: Vec<Vec<u8>>)
        ensures
            r@.len() == token_blocks(*self).len(),
            forall|i: int| 0 <= i < r@.len() ==> r@[i]@ == token_blocks(*self)[i],
    {
        self.inner.revocation_identifiers()
    }

    /// The token's revocation identifiers, one per block in block order,
    /// each encoded as URL-safe base64.
    pub fn revocation_identifiers(&self) -> (r: Vec<String>)
        ensures
            r@.len() == self.blocks().len(),
            forall|i: int| 0 <= i < r@.len() ==> r@[i]@ == b64url_of(self.blocks()[i]),
    {
        let raw = self.revocation_identifiers_raw();
        let mut out: Vec<String> = Vec::new();
        let mut i: usize = 0;
        while i < raw.len()
            invariant
                0 <= i <= raw@.len(),
                out@.len() == i,
                raw@.len() == token_blocks(*self).len(),
                forall|j: int| 0 <= j < raw@.len() ==> raw@[j]@ == token_blocks(*self)[j],
                forall|j: int| 0 <= j < i ==> out@[j]@ == b64url_of(token_blocks(*self)[j]),
            decreases raw@.len() - i,
        {
            let s = b64url_encode(raw[i].as_slice());
            out.push(s);
            i += 1;
        }
        out
    }

    /// Relies on `biscuit_auth::Biscuit::block_count`: the number of
    /// blocks, equal to the number of revocation identifiers.
    #[verifier::external_body]
    pub fn block_count(&self) -> (r: usize)
        ensures
            r == token_blocks(*self).len(),
    {
        self.inner.block_count()
    }

    /// Relies on `biscuit_auth::Biscuit::print_block_source`: renders the
    /// block's facts, rules and checks as Datalog source. Even in range it
    /// can fail: a parsed token may hold a validly signed block whose
    /// payload decodes but does not convert (an unsupported version, say),
    /// and the conversion runs only here.
    #[verifier::external_body]
    fn block_source_raw(&self, index: usize) -> (r: Result<String, BiscuitError>)
        requires
            index < token_blocks(*self).len(),
        ensures
            r matches Ok(s) ==> s@ == token_sources(*self)[index as int],
            r matches Err(e) ==> e matches BiscuitError::Format(_),
    {
        self.inner.print_block_source(index).map_err(token_error_of)
    }

    /// Renders the content of the block at `index` as Datalog source. An
    /// index at or beyond the block count is rejected with an out-of-range
    /// error; an in-range block of a parsed token can still fail to
    /// convert.
    pub fn block_source(&self, index: usize) -> (r: Result<String, BiscuitError>)
        ensures
            index >= self.blocks().len() ==> r == Err::<String, BiscuitError>(
                BiscuitError::Format(FormatError::InvalidBlockId(index)),
            ),
            r matches Ok(s) ==> index < self.blocks().len() && s@ == self.sources()[index as int],
            r matches Err(e) ==> e matches BiscuitError::Format(_),
    {
        if index >= self.block_count() {
            return Err(BiscuitError::Format(FormatError::InvalidBlockId(index)));
        }
        self.block_source_raw(index)
    }
}

} // verus!
