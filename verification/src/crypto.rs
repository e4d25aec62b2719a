//! Byte-level cryptographic primitives: public keys, signatures, random
//! nonces, the SHA-512/256 digest and Ed25519 signature verification.
//!
//! The digest and the verification are computed by outside crates; their
//! results are named by uninterpreted spec functions, so every contract in
//! this crate speaks of `sha_512_256_of` and `ed25519_verifies` exactly.

use vstd::prelude::*;

use ed25519_dalek::Verifier;
use sha2::Digest;

verus! {

pub const PUBLIC_KEY_LEN: usize = 32;

pub const SIGNATURE_LEN: usize = 64;

pub const RAND_VALUE_LEN: usize = 16;

pub const HASH_RESULT_LEN: usize = 32;

/// An Ed25519 public key: exactly 32 bytes.
#[derive(Debug)]
pub struct PublicKey {
    pub bytes: Vec<u8>,
}

/// An Ed25519 signature: exactly 64 bytes. At channel genesis the field is
/// also used for a deterministic placeholder token that is not a real
/// signature.
#[derive(Debug)]
pub struct Signature {
    pub bytes: Vec<u8>,
}

/// A 16-byte nonce.
#[derive(Debug)]
pub struct RandValue {
    pub bytes: Vec<u8>,
}

impl View for PublicKey {
    type V = Seq<u8>;

    open spec fn view(&self) -> Seq<u8> {
        self.bytes@
    }
}

impl View for Signature {
    type V = Seq<u8>;

    open spec fn view(&self) -> Seq<u8> {
        self.bytes@
    }
}

impl View for RandValue {
    type V = Seq<u8>;

    open spec fn view(&self) -> Seq<u8> {
        self.bytes@
    }
}

impl PublicKey {
    pub open spec fn wf(&self) -> bool {
        self@.len() == PUBLIC_KEY_LEN
    }

    pub fn from_bytes(bytes: Vec<u8>) -> (r: Option<PublicKey>)
        ensures
            match r {
                Some(pk) => pk.wf() && pk@ == bytes@,
                None => bytes@.len() != PUBLIC_KEY_LEN,
            },
    {
        if bytes.len() == PUBLIC_KEY_LEN {
            Some(PublicKey { bytes })
        } else {
            None
        }
    }
}

impl Signature {
    pub open spec fn wf(&self) -> bool {
        self@.len() == SIGNATURE_LEN
    }

    pub fn from_bytes(bytes: Vec<u8>) -> (r: Option<Signature>)
        ensures
            match r {
                Some(s) => s.wf() && s@ == bytes@,
                None => bytes@.len() != SIGNATURE_LEN,
            },
    {
        if bytes.len() == SIGNATURE_LEN {
            Some(Signature { bytes })
        } else {
            None
        }
    }
}

impl RandValue {
    pub open spec fn wf(&self) -> bool {
        self@.len() == RAND_VALUE_LEN
    }

    pub fn from_bytes(bytes: Vec<u8>) -> (r: Option<RandValue>)
        ensures
            match r {
                Some(s) => s.wf() && s@ == bytes@,
                None => bytes@.len() != RAND_VALUE_LEN,
            },
    {
        if bytes.len() == RAND_VALUE_LEN {
            Some(RandValue { bytes })
        } else {
            None
        }
    }
}

/// The SHA-512/256 digest of a byte string: a pure function of the input, too
/// long to state, so it is only named here.
pub uninterp spec fn sha_512_256_of(data: Seq<u8>) -> Seq<u8>;

/// Whether the Ed25519 verifier accepts `signature` over `message` under
/// `public_key`: a pure function of the three byte strings.
pub uninterp spec fn ed25519_verifies(
    message: Seq<u8>,
    signature: Seq<u8>,
    public_key: Seq<u8>,
) -> bool;

/// Relies on sha2::Sha512_256 (Digest::digest): a 32-byte digest that depends
/// on the input bytes alone.
#[verifier::external_body]
pub fn sha_512_256(data: &[u8]) -> (r: Vec<u8>)
    ensures
        r@ == sha_512_256_of(data@),
        r@.len() == HASH_RESULT_LEN,
{
    sha2::Sha512_256::digest(data).to_vec()
}

/// Relies on ed25519_dalek::VerifyingKey::{from_bytes, verify}: whether the
/// bytes form a valid key and the signature verifies over the message depends
/// on the three byte strings alone. A key whose bytes the library rejects
/// verifies nothing.
#[verifier::external_body]
pub fn verify_signature(message: &[u8], signature: &Signature, public_key: &PublicKey) -> (r: bool)
    ensures
        r == ed25519_verifies(message@, signature@, public_key@),
{
    let pk_arr: [u8; 32] = match public_key.bytes.as_slice().try_into() {
        Ok(a) => a,
        Err(_) => return false,
    };
    let vk = match ed25519_dalek::VerifyingKey::from_bytes(&pk_arr) {
        Ok(vk) => vk,
        Err(_) => return false,
    };
    let sig_arr: [u8; 64] = match signature.bytes.as_slice().try_into() {
        Ok(a) => a,
        Err(_) => return false,
    };
    let sig = ed25519_dalek::Signature::from_bytes(&sig_arr);
    vk.verify(message, &sig).is_ok()
}

/// Lexicographic order on byte strings, the order used to decide which side
/// of a fresh channel sends first.
pub open spec fn lex_lt(a: Seq<u8>, b: Seq<u8>) -> bool
    decreases a.len(),
{
    if b.len() == 0 {
        false
    } else if a.len() == 0 {
        true
    } else if a[0] < b[0] {
        true
    } else if a[0] > b[0] {
        false
    } else {
        lex_lt(a.skip(1), b.skip(1))
    }
}

/// On distinct byte strings of equal length, `lex_lt` holds in exactly one
/// direction.
pub proof fn lemma_lex_lt_trichotomy(a: Seq<u8>, b: Seq<u8>)
    requires
        a.len() == b.len(),
    ensures
        a == b || (lex_lt(a, b) <==> !lex_lt(b, a)),
    decreases a.len(),
{
    if a.len() != 0 && a[0] == b[0] {
        lemma_lex_lt_trichotomy(a.skip(1), b.skip(1));
        if a.skip(1) == b.skip(1) {
            assert forall|i: int| 0 <= i < a.len() implies a[i] == b[i] by {
                if i > 0 {
                    assert(a[i] == a.skip(1)[i - 1]);
                    assert(b[i] == b.skip(1)[i - 1]);
                }
            }
            assert(a =~= b);
        }
    }
}

pub fn lex_lt_bytes(a: &Vec<u8>, b: &Vec<u8>) -> (r: bool)
    ensures
        r == lex_lt(a@, b@),
{
    let mut i: usize = 0;
    proof {
        assert(a@.skip(0) =~= a@);
        assert(b@.skip(0) =~= b@);
    }
    loop
        invariant
            i <= a.len(),
            i <= b.len(),
            a@.subrange(0, i as int) =~= b@.subrange(0, i as int),
            lex_lt(a@, b@) == lex_lt(a@.skip(i as int), b@.skip(i as int)),
        decreases a.len() - i,
    {
        if i == b.len() {
            return false;
        }
        if i == a.len() {
            return true;
        }
        let x = a[i];
        let y = b[i];
        if x < y {
            return true;
        }
        if x > y {
            return false;
        }
        proof {
            assert(a@.skip(i as int).skip(1) =~= a@.skip(i as int + 1));
            assert(b@.skip(i as int).skip(1) =~= b@.skip(i as int + 1));
            assert(a@.subrange(0, i as int + 1) =~= b@.subrange(0, i as int + 1));
        }
        i = i + 1;
    }
}

pub open spec fn zero_bytes(n: nat) -> Seq<u8> {
    Seq::new(n, |i: int| 0u8)
}

/// The deterministic placeholder token used at channel genesis: the public
/// key padded with zeros to the length of a signature.
pub open spec fn token_from_pk(pk: Seq<u8>) -> Seq<u8> {
    pk + zero_bytes((SIGNATURE_LEN - PUBLIC_KEY_LEN) as nat)
}

/// The deterministic placeholder nonce used at channel genesis: the first
/// bytes of the digest of the public key.
pub open spec fn rand_nonce_from_pk(pk: Seq<u8>) -> Seq<u8> {
    sha_512_256_of(pk).subrange(0, RAND_VALUE_LEN as int)
}

/// Create a token from a public key. The output is not a real signature; it
/// serves only for the deterministic initialization of a fresh channel.
pub fn token_from_public_key(public_key: &PublicKey) -> (r: Signature)
    requires
        public_key.wf(),
    ensures
        r.wf(),
        r@ == token_from_pk(public_key@),
{
    let mut bytes: Vec<u8> = Vec::new();
    let mut i: usize = 0;
    while i < SIGNATURE_LEN
        invariant
            i <= SIGNATURE_LEN,
            public_key.wf(),
            bytes@.len() == i,
            forall|j: int| 0 <= j < i ==> bytes@[j] == token_from_pk(public_key@)[j],
        decreases SIGNATURE_LEN - i,
    {
        if i < PUBLIC_KEY_LEN {
            bytes.push(public_key.bytes[i]);
        } else {
            bytes.push(0u8);
        }
        i = i + 1;
    }
    proof {
        assert(bytes@ =~= token_from_pk(public_key@));
    }
    Signature { bytes }
}

/// Generate a nonce from a public key. The result is not random; it serves
/// only for the deterministic initialization of a fresh channel.
pub fn rand_nonce_from_public_key(public_key: &PublicKey) -> (r: RandValue)
    ensures
        r.wf(),
        r@ == rand_nonce_from_pk(public_key@),
{
    let hash = sha_512_256(public_key.bytes.as_slice());
    let mut bytes: Vec<u8> = Vec::new();
    let mut i: usize = 0;
    while i < RAND_VALUE_LEN
        invariant
            i <= RAND_VALUE_LEN,
            hash@.len() == HASH_RESULT_LEN,
            hash@ == sha_512_256_of(public_key@),
            bytes@ =~= hash@.subrange(0, i as int),
        decreases RAND_VALUE_LEN - i,
    {
        bytes.push(hash[i]);
        i = i + 1;
    }
    proof {
        assert(bytes@ =~= rand_nonce_from_pk(public_key@));
    }
    RandValue { bytes }
}

impl PartialEq for PublicKey {
    fn eq(&self, other: &PublicKey) -> (r: bool) {
        let r = self.bytes == other.bytes;
        proof {
            if r {
                assert(self.bytes@ =~= other.bytes@);
            }
        }
        r
    }
}

impl vstd::std_specs::cmp::PartialEqSpecImpl for PublicKey {
    open spec fn obeys_eq_spec() -> bool {
        true
    }

    open spec fn eq_spec(&self, other: &PublicKey) -> bool {
        self@ == other@
    }
}

impl Eq for PublicKey {}

impl PartialEq for Signature {
    fn eq(&self, other: &Signature) -> (r: bool) {
        let r = self.bytes == other.bytes;
        proof {
            if r {
                assert(self.bytes@ =~= other.bytes@);
            }
        }
        r
    }
}

impl vstd::std_specs::cmp::PartialEqSpecImpl for Signature {
    open spec fn obeys_eq_spec() -> bool {
        true
    }

    open spec fn eq_spec(&self, other: &Signature) -> bool {
        self@ == other@
    }
}

impl Eq for Signature {}

impl PartialEq for RandValue {
    fn eq(&self, other: &RandValue) -> (r: bool) {
        let r = self.bytes == other.bytes;
        proof {
            if r {
                assert(self.bytes@ =~= other.bytes@);
            }
        }
        r
    }
}

impl vstd::std_specs::cmp::PartialEqSpecImpl for RandValue {
    open spec fn obeys_eq_spec() -> bool {
        true
    }

    open spec fn eq_spec(&self, other: &RandValue) -> bool {
        self@ == other@
    }
}

impl Eq for RandValue {}

impl Clone for PublicKey {
    fn clone(&self) -> (r: PublicKey)
        ensures
            r@ == self@,
    {
        let bytes = self.bytes.clone();
        proof {
            assert(bytes@ =~= self.bytes@);
        }
        PublicKey { bytes }
    }
}

impl Clone for Signature {
    fn clone(&self) -> (r: Signature)
        ensures
            r@ == self@,
    {
        let bytes = self.bytes.clone();
        proof {
            assert(bytes@ =~= self.bytes@);
        }
        Signature { bytes }
    }
}

impl Clone for RandValue {
    fn clone(&self) -> (r: RandValue)
        ensures
            r@ == self@,
    {
        let bytes = self.bytes.clone();
        proof {
            assert(bytes@ =~= self.bytes@);
        }
        RandValue { bytes }
    }
}

} // verus!
