//! Key management: Ed25519 keypair generation, derivation of the public
//! part, and (de)serialization of keys to raw bytes, hex strings and the
//! textual `ed25519/<hex>` form.
//!
//! The cryptography is performed by `biscuit_auth`; the spec names below
//! stand for the canonical 32-byte content of each key, and every contract
//! about keys is phrased over those bytes.

use vstd::prelude::*;
use vstd::slice::slice_index_get;
use vstd::slice::slice_subrange;
use vstd::string::StringSliceAdditionalSpecFns;
use crate::encoding::bytes_of_hex;
use crate::encoding::hex_decode_key;
use crate::encoding::hex_encode;
use crate::encoding::hex_of;
use crate::encoding::is_hex;
use crate::errors::format_error_of;
use crate::errors::BiscuitError;
use crate::errors::FormatError;

verus! {

/// Public key: the public half of an Ed25519 keypair, 32 bytes. Holds a
/// `biscuit_auth::PublicKey`, opaque to the verifier.
#[derive(Debug)]
#[verifier::external_body]
pub struct PublicKey {
    pub(crate) inner: biscuit_auth::PublicKey,
}

/// Private key: the private half of an Ed25519 keypair, 32 bytes. Holds a
/// `biscuit_auth::PrivateKey`, opaque to the verifier.
#[derive(Debug)]
#[verifier::external_body]
pub struct PrivateKey {
    pub(crate) inner: biscuit_auth::PrivateKey,
}

/// A pair of public and private Ed25519 keys. Holds a
/// `biscuit_auth::KeyPair`, opaque to the verifier.
#[derive(Debug)]
#[verifier::external_body]
pub struct KeyPair {
    pub(crate) inner: biscuit_auth::KeyPair,
}

/// A CSPRNG handed to key generation and token builds. Holds a
/// `rand::rngs::StdRng`, opaque to the verifier.
#[verifier::external_body]
pub(crate) struct Csprng {
    pub(crate) inner: rand::rngs::StdRng,
}

/// The 32 bytes of a public key: what `biscuit_auth::PublicKey::to_bytes`
/// returns, a function of the key value alone.
pub uninterp spec fn pk_bytes(k: PublicKey) -> Seq<u8>;

/// The 32 bytes of a private key: what `biscuit_auth::PrivateKey::to_bytes`
/// returns, a function of the key value alone.
pub uninterp spec fn sk_bytes(k: PrivateKey) -> Seq<u8>;

/// The bytes of the public half of a keypair: what
/// `biscuit_auth::KeyPair::public` hands out, a function of the keypair.
pub uninterp spec fn kp_public_bytes(k: KeyPair) -> Seq<u8>;

/// The bytes of the private half of a keypair: what
/// `biscuit_auth::KeyPair::private` hands out, a function of the keypair.
pub uninterp spec fn kp_private_bytes(k: KeyPair) -> Seq<u8>;

/// The bytes of the Ed25519 public key derived from a private key's bytes:
/// what `biscuit_auth::PrivateKey::public` computes, a function of the
/// private bytes alone.
pub uninterp spec fn public_part(sk: Seq<u8>) -> Seq<u8>;

/// The byte strings that are valid encodings of an Ed25519 public key:
/// exactly the inputs `biscuit_auth::PublicKey::from_bytes` accepts (32
/// bytes encoding a curve point). The bytes of every key this crate hands
/// out satisfy it.
pub uninterp spec fn pk_ok(b: Seq<u8>) -> bool;

/// Relies on `getrandom::getrandom`: eight bytes of OS entropy, read as a
/// little-endian integer. Panics only if the OS entropy source fails.
#[verifier::external_body]
fn os_entropy_u64() -> u64 {
    let mut data = [0u8; 8];
    getrandom::getrandom(&mut data[..]).unwrap();
    u64::from_le_bytes(data)
}

/// Relies on `rand::SeedableRng::seed_from_u64` for `rand::rngs::StdRng`.
#[verifier::external_body]
fn rng_from_seed(seed: u64) -> Csprng {
    Csprng { inner: rand::SeedableRng::seed_from_u64(seed) }
}

/// A CSPRNG seeded from OS entropy, fresh for each key generation or token
/// build.
pub(crate) fn make_rng() -> Csprng {
    rng_from_seed(os_entropy_u64())
}

impl View for PublicKey {
    type V = Seq<u8>;

    open spec fn view(&self) -> Seq<u8> {
        pk_bytes(*self)
    }
}

impl View for PrivateKey {
    type V = Seq<u8>;

    open spec fn view(&self) -> Seq<u8> {
        sk_bytes(*self)
    }
}

/// The bytes of the textual public-key prefix `ed25519/`.
pub open spec fn text_key_prefix() -> Seq<u8> {
    seq![101u8, 100u8, 50u8, 53u8, 53u8, 49u8, 57u8, 47u8]
}

impl PublicKey {
    /// Relies on `biscuit_auth::PublicKey::to_bytes`: the key's 32 bytes,
    /// always a valid curve-point encoding.
    #[verifier::external_body]
    fn raw_bytes(&self) -> (r: Vec<u8>)
        ensures
            r@ == pk_bytes(*self),
            r@.len() == 32,
            pk_ok(r@),
    {
        self.inner.to_bytes().to_vec()
    }

    /// Relies on `biscuit_auth::PublicKey::from_bytes`: accepts only
    /// 32-byte encodings of valid curve points, keeping the accepted bytes
    /// verbatim.
    #[verifier::external_body]
    fn parse_bytes(data: &[u8]) -> (r: Result<PublicKey, BiscuitError>)
        ensures
            r is Ok <==> pk_ok(data@),
            r matches Ok(k) ==> pk_bytes(k) == data@ && data@.len() == 32,
            r matches Err(e) ==> e matches BiscuitError::Format(FormatError::InvalidKey(_)),
    {
        match biscuit_auth::PublicKey::from_bytes(data) {
            Ok(k) => Ok(PublicKey { inner: k }),
            Err(e) => Err(BiscuitError::Format(format_error_of(e))),
        }
    }

    /// Serializes the key into a caller-supplied 32-byte buffer; a buffer
    /// of any other size is rejected with an invalid-key-size error and
    /// left unchanged.
    pub fn to_bytes(&self, out: &mut Vec<u8>) -> (r: Result<(), BiscuitError>)
        ensures
            old(out)@.len() != 32 ==> r == Err::<(), BiscuitError>(
                BiscuitError::Format(FormatError::InvalidKeySize(old(out)@.len() as usize)),
            ) && final(out)@ == old(out)@,
            old(out)@.len() == 32 ==> r is Ok && final(out)@ == self@ && final(out)@.len() == 32
                && pk_ok(final(out)@),
    {
        if out.len() != 32 {
            return Err(BiscuitError::Format(FormatError::InvalidKeySize(out.len())));
        }
        let bytes = self.raw_bytes();
        let mut i: usize = 0;
        while i < 32
            invariant
                0 <= i <= 32,
                out@.len() == 32,
                bytes@ == self@,
                bytes@.len() == 32,
                forall|j: int| 0 <= j < i ==> out@[j] == bytes@[j],
            decreases 32 - i,
        {
            let b = *slice_index_get(bytes.as_slice(), i);
            out.set(i, b);
            i += 1;
        }
        proof {
            assert(out@ =~= self@);
        }
        Ok(())
    }

    /// Serializes the key to a lowercase hexadecimal string.
    pub fn to_hex(&self) -> (r: String)
        ensures
            r@ == hex_of(self@),
            self@.len() == 32,
            pk_ok(self@),
    {
        let bytes = self.raw_bytes();
        hex_encode(bytes.as_slice())
    }

    /// Deserializes a public key from raw bytes: exactly 32 bytes encoding
    /// a valid curve point.
    pub fn from_bytes(data: &[u8]) -> (r: Result<PublicKey, BiscuitError>)
        ensures
            r is Ok <==> pk_ok(data@),
            r matches Ok(k) ==> k@ == data@ && data@.len() == 32,
            data@.len() != 32 ==> r is Err,
            r matches Err(e) ==> e matches BiscuitError::Format(FormatError::InvalidKey(_)),
    {
        Self::parse_bytes(data)
    }

    /// Deserializes a public key from a hexadecimal string: an even number
    /// of hex digits decoding to 32 bytes of a valid curve point.
    pub fn from_hex(data: &str) -> (r: Result<PublicKey, BiscuitError>)
        ensures
            r is Ok <==> is_hex(data.spec_bytes()) && pk_ok(bytes_of_hex(data.spec_bytes())),
            r matches Ok(k) ==> k@ == bytes_of_hex(data.spec_bytes()) && k@.len() == 32,
            r matches Err(e) ==> e matches BiscuitError::Format(FormatError::InvalidKey(_)),
    {
        match hex_decode_key(data.as_bytes()) {
            Ok(bytes) => Self::from_bytes(bytes.as_slice()),
            Err(e) => Err(e),
        }
    }

    /// Deserializes a public key from the textual form `ed25519/<hex>`; any
    /// other prefix is rejected with a format error.
    pub fn from_text(data: &str) -> (r: Result<PublicKey, BiscuitError>)
        ensures
            r is Ok <==> {
                let b = data.spec_bytes();
                b.len() >= 8 && b.subrange(0, 8) == text_key_prefix() && is_hex(b.skip(8))
                    && pk_ok(bytes_of_hex(b.skip(8)))
            },
            r matches Ok(k) ==> k@ == bytes_of_hex(data.spec_bytes().skip(8)) && k@.len() == 32,
            data.spec_bytes().len() < 8 || data.spec_bytes().subrange(0, 8) != text_key_prefix()
                ==> r matches Err(BiscuitError::Format(FormatError::InvalidKey(_))),
            r matches Err(e) ==> e matches BiscuitError::Format(_),
    {
        let b = data.as_bytes();
        if b.len() < 8
            || *slice_index_get(b, 0) != 101  // 'e'
            || *slice_index_get(b, 1) != 100  // 'd'
            || *slice_index_get(b, 2) != 50  // '2'
            || *slice_index_get(b, 3) != 53  // '5'
            || *slice_index_get(b, 4) != 53  // '5'
            || *slice_index_get(b, 5) != 49  // '1'
            || *slice_index_get(b, 6) != 57  // '9'
            || *slice_index_get(b, 7) != 47  // '/'
        {
            return Err(
                BiscuitError::Format(
                    FormatError::InvalidKey(
                        String::from_str("expected a public key of the format `ed25519/<hex>`"),
                    ),
                ),
            );
        }
        proof {
            assert(data.spec_bytes().subrange(0, 8) =~= text_key_prefix());
        }
        let rest = slice_subrange(b, 8, b.len());
        proof {
            assert(rest@ =~= data.spec_bytes().skip(8));
        }
        match hex_decode_key(rest) {
            Ok(bytes) => Self::from_bytes(bytes.as_slice()),
            Err(e) => Err(e),
        }
    }
}

impl PrivateKey {
    /// Relies on `biscuit_auth::PrivateKey::to_bytes`: the key's 32 bytes.
    #[verifier::external_body]
    fn raw_bytes(&self) -> (r: Vec<u8>)
        ensures
            r@ == sk_bytes(*self),
            r@.len() == 32,
    {
        self.inner.to_bytes().to_vec()
    }

    /// Relies on `biscuit_auth::PrivateKey::from_bytes`: accepts exactly
    /// the 32-byte inputs, keeping the accepted bytes verbatim; a wrong
    /// length is reported as an invalid-key-size error.
    #[verifier::external_body]
    fn parse_bytes(data: &[u8]) -> (r: Result<PrivateKey, BiscuitError>)
        ensures
            r is Ok <==> data@.len() == 32,
            r matches Ok(k) ==> sk_bytes(k) == data@,
            r matches Err(e) ==> e == BiscuitError::Format(
                FormatError::InvalidKeySize(data@.len() as usize),
            ),
    {
        match biscuit_auth::PrivateKey::from_bytes(data) {
            Ok(k) => Ok(PrivateKey { inner: k }),
            Err(e) => Err(BiscuitError::Format(format_error_of(e))),
        }
    }

    /// Serializes the key into a caller-supplied 32-byte buffer; a buffer
    /// of any other size is rejected with an invalid-key-size error and
    /// left unchanged.
    pub fn to_bytes(&self, out: &mut Vec<u8>) -> (r: Result<(), BiscuitError>)
        ensures
            old(out)@.len() != 32 ==> r == Err::<(), BiscuitError>(
                BiscuitError::Format(FormatError::InvalidKeySize(old(out)@.len() as usize)),
            ) && final(out)@ == old(out)@,
            old(out)@.len() == 32 ==> r is Ok && final(out)@ == self@ && final(out)@.len() == 32,
    {
        if out.len() != 32 {
            return Err(BiscuitError::Format(FormatError::InvalidKeySize(out.len())));
        }
        let bytes = self.raw_bytes();
        let mut i: usize = 0;
        while i < 32
            invariant
                0 <= i <= 32,
                out@.len() == 32,
                bytes@ == self@,
                bytes@.len() == 32,
                forall|j: int| 0 <= j < i ==> out@[j] == bytes@[j],
            decreases 32 - i,
        {
            let b = *slice_index_get(bytes.as_slice(), i);
            out.set(i, b);
            i += 1;
        }
        proof {
            assert(out@ =~= self@);
        }
        Ok(())
    }

    /// Serializes the key to a lowercase hexadecimal string.
    pub fn to_hex(&self) -> (r: String)
        ensures
            r@ == hex_of(self@),
            self@.len() == 32,
    {
        let bytes = self.raw_bytes();
        hex_encode(bytes.as_slice())
    }

    /// Deserializes a private key from raw bytes: accepts exactly the
    /// 32-byte inputs.
    pub fn from_bytes(data: &[u8]) -> (r: Result<PrivateKey, BiscuitError>)
        ensures
            r is Ok <==> data@.len() == 32,
            r matches Ok(k) ==> k@ == data@,
            r matches Err(e) ==> e == BiscuitError::Format(
                FormatError::InvalidKeySize(data@.len() as usize),
            ),
    {
        Self::parse_bytes(data)
    }

    /// Deserializes a private key from a hexadecimal string: an even
    /// number of hex digits decoding to exactly 32 bytes.
    pub fn from_hex(data: &str) -> (r: Result<PrivateKey, BiscuitError>)
        ensures
            r is Ok <==> is_hex(data.spec_bytes()) && bytes_of_hex(data.spec_bytes()).len() == 32,
            r matches Ok(k) ==> k@ == bytes_of_hex(data.spec_bytes()),
            r matches Err(e) ==> (e matches BiscuitError::Format(FormatError::InvalidKey(_)) || e
                matches BiscuitError::Format(FormatError::InvalidKeySize(_))),
    {
        match hex_decode_key(data.as_bytes()) {
            Ok(bytes) => Self::from_bytes(bytes.as_slice()),
            Err(e) => Err(e),
        }
    }
}

impl KeyPair {
    /// The bytes of the public half.
    pub open spec fn public_bytes(&self) -> Seq<u8> {
        kp_public_bytes(*self)
    }

    /// The bytes of the private half.
    pub open spec fn private_bytes(&self) -> Seq<u8> {
        kp_private_bytes(*self)
    }

    /// The keypair's public half is derived from its private half.
    pub open spec fn well_formed(&self) -> bool {
        self.public_bytes() == public_part(self.private_bytes()) && self.private_bytes().len()
            == 32 && self.public_bytes().len() == 32
    }

    /// Relies on `biscuit_auth::KeyPair::new_with_rng`: generates an
    /// Ed25519 keypair whose public half is derived from its private half.
    #[verifier::external_body]
    pub(crate) fn generate(rng: &mut Csprng) -> (r: KeyPair)
        ensures
            kp_private_bytes(r).len() == 32,
            kp_public_bytes(r).len() == 32,
            kp_public_bytes(r) == public_part(kp_private_bytes(r)),
    {
        KeyPair { inner: biscuit_auth::KeyPair::new_with_rng(&mut rng.inner) }
    }

    /// Relies on `biscuit_auth::KeyPair::from`: rebuilds the keypair of a
    /// private key, deriving the public half.
    #[verifier::external_body]
    pub(crate) fn rebuild(key: &PrivateKey) -> (r: KeyPair)
        ensures
            kp_private_bytes(r) == sk_bytes(*key),
            kp_public_bytes(r) == public_part(sk_bytes(*key)),
            kp_private_bytes(r).len() == 32,
            kp_public_bytes(r).len() == 32,
    {
        KeyPair { inner: biscuit_auth::KeyPair::from(&key.inner) }
    }

    /// Generates a fresh keypair from OS entropy.
    pub fn new() -> (r: KeyPair)
        ensures
            r.well_formed(),
    {
        let mut rng = make_rng();
        Self::generate(&mut rng)
    }

    /// Rebuilds the keypair of a private key, deriving the public half.
    pub fn from(key: PrivateKey) -> (r: Self)
        ensures
            r.private_bytes() == key@,
            r.public_bytes() == public_part(key@),
    {
        Self::rebuild(&key)
    }

    /// Relies on `biscuit_auth::KeyPair::public`: the public half, whose
    /// bytes are a valid 32-byte curve-point encoding.
    #[verifier::external_body]
    pub fn public(&self) -> (r: PublicKey)
        ensures
            pk_bytes(r) == kp_public_bytes(*self),
            pk_bytes(r).len() == 32,
            pk_ok(pk_bytes(r)),
    {
        PublicKey { inner: self.inner.public() }
    }

    /// Relies on `biscuit_auth::KeyPair::private`: the private half.
    #[verifier::external_body]
    pub fn private(&self) -> (r: PrivateKey)
        ensures
            sk_bytes(r) == kp_private_bytes(*self),
    {
        PrivateKey { inner: self.inner.private() }
    }
}

} // verus!
