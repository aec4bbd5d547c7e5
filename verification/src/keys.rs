//! Secret keys, self-certified public keys and signatures.
//!
//! A secret key acts on G1, where signatures live, and on G2, where the
//! aggregated public keys live.  Its public key is the point on G2 together
//! with a Pedersen VRF proof, made once, that the same secret scalar stands
//! behind that point and behind the signer's public key on G1.  Whoever
//! aggregates public keys checks that proof first.

use vstd::prelude::*;
use vstd::slice::slice_subrange;
use vstd::std_specs::cmp::PartialEqSpecImpl;
use vstd::string::StringSliceAdditionalSpecFns;
use core::hash::{Hash, Hasher};
use rand_core::RngCore;
use zeroize::Zeroize;
use crate::bytes::join;
use crate::curve::{g1_generator, g2_generator, is_g1, is_g2, G1Point, G2Point, G1_LEN, G2_LEN};
use crate::error::{verdict, SignatureError, SignatureResult};
use crate::transcript::{label_frame, Transcript};
use crate::vrf::{
    is_pedersen_proof, is_thin_proof, message_point, message_to_g1, pedersen_key_commitment,
    pedersen_vrf, pedersen_vrf_accepts, secret_public, thin_vrf, thin_vrf_accepts, vrf_preout_g1,
    vrf_preout_g2, PedersenProof, ThinProof,
};

verus! {

/// The length of the encoding of a public key: its point on G2, then its
/// certificate.
pub const PUBLIC_KEY_LEN: usize = 208;

/// The length of the encoding of a signature: its point on G1, then its
/// proof.
pub const SIGNATURE_LEN: usize = 128;

/// The transcript under which public keys are certified.
pub open spec fn certification_transcript() -> Seq<u8> {
    label_frame("NuggetPublic".spec_bytes())
}

/// `bytes` is the encoding of a public key.
pub open spec fn is_public_key(bytes: Seq<u8>) -> bool {
    &&& bytes.len() == PUBLIC_KEY_LEN
    &&& is_g2(bytes.subrange(0, G2_LEN as int))
    &&& is_pedersen_proof(bytes.subrange(G2_LEN as int, PUBLIC_KEY_LEN as int))
}

/// `bytes` is the encoding of a signature.
pub open spec fn is_signature(bytes: Seq<u8>) -> bool {
    &&& bytes.len() == SIGNATURE_LEN
    &&& is_g1(bytes.subrange(0, G1_LEN as int))
    &&& is_thin_proof(bytes.subrange(G1_LEN as int, SIGNATURE_LEN as int))
}

/// Fills a seed from the operating system's randomness, with
/// `RngCore::fill_bytes` of `rand_core::OsRng`, which stops the program where
/// the operating system has none.  Nothing is assumed of the bytes.
#[verifier::external_body]
fn os_entropy() -> (seed: [u8; 32]) {
    let mut seed = [0u8; 32];
    rand_core::OsRng.fill_bytes(&mut seed);
    seed
}

/// Feeds bytes to a hasher, with `Hash::hash` of a byte slice.  Nothing is
/// assumed of the hasher afterwards.
#[verifier::external_body]
fn hash_bytes<H: Hasher>(bytes: &[u8], state: &mut H) {
    bytes.hash(state);
}

/// The input at which every secret key is evaluated to give its point on G2:
/// the generator of G2.
fn pk_in() -> (r: G2Point)
    ensures
        r@ == g2_generator(),
{
    G2Point::generator()
}

/// A public key on G1 alone.  It serves to verify signatures, and to be
/// summed into an aggregate key, once the full public key has been
/// validated.
#[derive(Debug)]
pub struct PublicKeyG1(pub G1Point);

impl View for PublicKeyG1 {
    type V = Seq<u8>;

    open spec fn view(&self) -> Seq<u8> {
        self.0@
    }
}

impl Clone for PublicKeyG1 {
    fn clone(&self) -> (r: PublicKeyG1)
        ensures
            r@ == self@,
    {
        PublicKeyG1(self.0.clone())
    }
}

impl PartialEq for PublicKeyG1 {
    /// Two keys are equal if they are the same point.
    fn eq(&self, other: &PublicKeyG1) -> (r: bool) {
        self.0 == other.0
    }
}

impl PartialEqSpecImpl for PublicKeyG1 {
    open spec fn obeys_eq_spec() -> bool {
        true
    }

    open spec fn eq_spec(&self, other: &PublicKeyG1) -> bool {
        self@ == other@
    }
}

impl Eq for PublicKeyG1 {

}

impl Hash for PublicKeyG1 {
    /// Hashes the point's encoding.
    fn hash<H: Hasher>(&self, state: &mut H) {
        hash_bytes(self.0.as_bytes(), state);
    }
}

/// A secret key: the seed of its scalar, and the public key on G1 that
/// belongs to it.  The seed is wiped when the key is dropped.
pub struct SecretKey {
    seed: [u8; 32],
    public: PublicKeyG1,
}

impl View for SecretKey {
    type V = Seq<u8>;

    closed spec fn view(&self) -> Seq<u8> {
        self.seed@
    }
}

impl Clone for SecretKey {
    fn clone(&self) -> (r: SecretKey)
        ensures
            r@ == self@,
            r.public_key() == self.public_key(),
    {
        proof {
            use_type_invariant(self);
        }
        SecretKey { seed: self.seed, public: self.public.clone() }
    }
}

impl Drop for SecretKey {
    /// Wipes the seed with `Zeroize::zeroize`.
    #[verifier::external_body]
    fn drop(&mut self)
        opens_invariants none
        no_unwind
    {
        self.seed.zeroize();
    }
}

/// A self-certified public key: the point on G2, and the proof that binds it
/// to the public key on G1 which the proof carries.
#[derive(Debug)]
pub struct PublicKey {
    g2: G2Point,
    sig: PedersenProof,
    g1: PublicKeyG1,
}

/// A signature: the BLS signature point on G1, and the thin VRF proof that it
/// was made with the signer's key.
#[derive(Debug)]
pub struct Signature {
    preoutput: G1Point,
    signature: ThinProof,
}

impl Clone for Signature {
    fn clone(&self) -> (r: Signature)
        ensures
            r@ == self@,
    {
        Signature { preoutput: self.preoutput.clone(), signature: self.signature.clone() }
    }
}

impl View for PublicKey {
    type V = Seq<u8>;

    /// The key's encoding.
    open spec fn view(&self) -> Seq<u8> {
        self.g2_preoutput() + self.certificate()
    }
}

impl View for Signature {
    type V = Seq<u8>;

    /// The signature's encoding.
    open spec fn view(&self) -> Seq<u8> {
        self.preoutput() + self.thin_proof()
    }
}

impl Clone for PublicKey {
    fn clone(&self) -> (r: PublicKey)
        ensures
            r@ == self@,
            r.g1_point() == self.g1_point(),
    {
        proof {
            use_type_invariant(self);
        }
        PublicKey {
            g2: self.g2.clone(),
            sig: self.sig.clone(),
            g1: self.g1.clone(),
        }
    }
}

impl SecretKey {
    #[verifier::type_invariant]
    spec fn well_formed(&self) -> bool {
        self.public@ == secret_public(g1_generator(), self.seed@)
    }

    /// The public key on G1 that belongs to a seed.
    pub open spec fn public_of(seed: Seq<u8>) -> Seq<u8> {
        secret_public(g1_generator(), seed)
    }

    /// The point on G2 that belongs to a seed: the VRF pre-output at the
    /// generator of G2.
    pub open spec fn g2_of(seed: Seq<u8>) -> Seq<u8> {
        vrf_preout_g2(g1_generator(), seed, g2_generator())
    }

    /// The signature point that a seed gives for a message: the VRF
    /// pre-output at the point that the message is hashed to.
    pub open spec fn signature_point_of(seed: Seq<u8>, message: Seq<u8>) -> Seq<u8> {
        vrf_preout_g1(g1_generator(), seed, message_point(message))
    }

    /// The encoding of the public key on G1 that the key holds.
    pub closed spec fn public_key(&self) -> Seq<u8> {
        self.public@
    }

    /// The secret key that a seed expands into.  The same seed gives the same
    /// key.
    pub fn from_seed(seed: [u8; 32]) -> (r: SecretKey)
        ensures
            r@ == seed@,
            r.public_key() == Self::public_of(seed@),
    {
        let public = PublicKeyG1(thin_vrf().public_key(&seed));
        SecretKey { seed, public }
    }

    /// A fresh secret key from the operating system's randomness.  Which
    /// key comes out is open; its public key is the one of its seed.
    pub fn ephemeral() -> (r: SecretKey)
        ensures
            r.public_key() == Self::public_of(r@),
    {
        SecretKey::from_seed(os_entropy())
    }

    /// The public key on G1.
    pub fn as_g1_publickey(&self) -> (r: &PublicKeyG1)
        ensures
            r@ == self.public_key(),
            r@ == Self::public_of(self@),
    {
        proof {
            use_type_invariant(self);
        }
        &self.public
    }

    /// Certifies the key under a given transcript: evaluates the VRF at the
    /// generator of G2 and proves, with the Pedersen VRF, that the point
    /// which comes out and the public key on G1 have the same secret scalar.
    pub fn create_public_cert(&self, t: &Transcript) -> (r: PublicKey)
        ensures
            r.belongs_to(self@),
    {
        let input = pk_in();
        let g2 = thin_vrf().vrf_preout_g2(&self.seed, &input);
        let sig = pedersen_vrf().sign(&self.seed, t, &input, &g2);
        PublicKey::new(g2, sig)
    }

    /// The self-certified public key.
    pub fn create_nugget_public(&self) -> (r: PublicKey)
        ensures
            r.belongs_to(self@),
    {
        let t = Transcript::new("NuggetPublic".as_bytes());
        self.create_public_cert(&t)
    }

    /// Signs a message under a transcript that the caller has seeded with its
    /// context: hashes the message to a point of G1, multiplies it by the
    /// secret scalar, and proves with the thin VRF that it did so.  The
    /// signature is one that the thin VRF accepts for the message, under the
    /// same transcript and the public key of this secret key.
    pub fn sign_nugget_bls(&self, t: &Transcript, message: &[u8]) -> (r: Signature)
        ensures
            r.preoutput() == Self::signature_point_of(self@, message@),
            r.signed_by(self@, t@, message@),
    {
        let thin = thin_vrf();
        let input = message_to_g1(message);
        let preoutput = thin.vrf_preout(&self.seed, &input);
        let signature = thin.sign(&self.seed, t, &input, &preoutput);
        Signature::new(preoutput, signature)
    }
}

impl PublicKey {
    #[verifier::type_invariant]
    spec fn well_formed(&self) -> bool {
        self.g1@ == pedersen_key_commitment(self.sig@)
    }

    /// The encoding of the point on G2.
    pub closed spec fn g2_preoutput(&self) -> Seq<u8> {
        self.g2@
    }

    /// The encoding of the certificate.
    pub closed spec fn certificate(&self) -> Seq<u8> {
        self.sig@
    }

    /// The encoding of the public key on G1.
    pub closed spec fn g1_point(&self) -> Seq<u8> {
        self.g1@
    }

    /// The key is the public key of the secret key that `seed` expands into:
    /// its point on G2 and its public key on G1 are that key's.
    pub open spec fn belongs_to(&self, seed: Seq<u8>) -> bool {
        &&& self.g2_preoutput() == SecretKey::g2_of(seed)
        &&& self.g1_point() == SecretKey::public_of(seed)
    }

    /// The certificate is accepted under `transcript`: it proves that the
    /// point on G2 and the public key on G1 have the same secret scalar.
    pub open spec fn certified_under(&self, transcript: Seq<u8>) -> bool {
        pedersen_vrf_accepts(
            g1_generator(),
            transcript,
            g2_generator(),
            self.g2_preoutput(),
            self.certificate(),
        )
    }

    /// The key certifies itself: its certificate is accepted under the
    /// transcript of public keys.  Only such a key may be aggregated.
    pub open spec fn certified(&self) -> bool {
        self.certified_under(certification_transcript())
    }

    /// The signature is accepted for the message under `transcript` and this
    /// key.
    pub open spec fn accepts(&self, transcript: Seq<u8>, message: Seq<u8>, signature: Signature) -> bool {
        thin_vrf_accepts(
            g1_generator(),
            transcript,
            message_point(message),
            signature.preoutput(),
            self.g1_point(),
            signature.thin_proof(),
        )
    }

    /// The public key made of a point on G2 and a certificate.  Its public
    /// key on G1 is the key commitment that the certificate carries.  The key
    /// has not been validated.
    pub fn new(g2: G2Point, certificate: PedersenProof) -> (r: PublicKey)
        ensures
            r.g2_preoutput() == g2@,
            r.certificate() == certificate@,
            r.g1_point() == pedersen_key_commitment(certificate@),
    {
        let g1 = PublicKeyG1(certificate.key_commitment());
        PublicKey { g2, sig: certificate, g1 }
    }

    /// The point on G2.
    pub fn as_g2_point(&self) -> (r: &G2Point)
        ensures
            r@ == self.g2_preoutput(),
    {
        &self.g2
    }

    /// The certificate.
    pub fn as_certificate(&self) -> (r: &PedersenProof)
        ensures
            r@ == self.certificate(),
    {
        &self.sig
    }

    /// The public key on G1, as a point.
    pub fn as_g1_point(&self) -> (r: &G1Point)
        ensures
            r@ == self.g1_point(),
            r@ == pedersen_key_commitment(self.certificate()),
    {
        proof {
            use_type_invariant(self);
        }
        &self.g1.0
    }

    /// The public key on G1.
    pub fn to_g1_publickey(&self) -> (r: PublicKeyG1)
        ensures
            r@ == self.g1_point(),
    {
        self.g1.clone()
    }

    /// Checks the certificate under a given transcript.
    pub fn validate_public_cert(&self, t: &Transcript) -> (r: SignatureResult<()>)
        ensures
            r == verdict(self.certified_under(t@)),
    {
        pedersen_vrf().verify(t, &pk_in(), &self.g2, &self.sig)
    }

    /// Checks that the key certifies itself.  Whoever aggregates keys calls
    /// this once for each before trusting it.
    pub fn validate_nugget_public(&self) -> (r: SignatureResult<()>)
        ensures
            r == verdict(self.certified()),
    {
        let t = Transcript::new("NuggetPublic".as_bytes());
        self.validate_public_cert(&t)
    }

    /// Checks a signature on a message under a transcript.
    pub fn verify_nugget_bls(&self, t: &Transcript, message: &[u8], signature: &Signature) -> (r:
        SignatureResult<()>)
        ensures
            r == verdict(self.accepts(t@, message@, *signature)),
    {
        let input = message_to_g1(message);
        thin_vrf().verify(t, &input, &signature.preoutput, &self.g1.0, &signature.signature)
    }

    /// The key's encoding: the point on G2, then the certificate.
    pub fn to_bytes(&self) -> (r: Vec<u8>)
        ensures
            r@ == self@,
            is_public_key(r@),
    {
        let r = join(self.g2.as_bytes(), self.sig.as_bytes());
        assert(r@.subrange(0, G2_LEN as int) =~= self.g2@);
        assert(r@.subrange(G2_LEN as int, PUBLIC_KEY_LEN as int) =~= self.sig@);
        r
    }

    /// Reads a key from its encoding.  Any other byte string is refused.
    /// The key that is read has not been validated.
    pub fn from_bytes(bytes: &[u8]) -> (r: Result<PublicKey, SignatureError>)
        ensures
            r is Ok <==> is_public_key(bytes@),
            r matches Ok(key) ==> key@ == bytes@,
            r matches Err(e) ==> e == SignatureError::DecodeError,
    {
        if bytes.len() != PUBLIC_KEY_LEN {
            return Err(SignatureError::DecodeError);
        }
        let g2 = match G2Point::from_bytes(slice_subrange(bytes, 0, G2_LEN)) {
            Ok(point) => point,
            Err(e) => { return Err(e); },
        };
        let sig = match PedersenProof::from_bytes(slice_subrange(bytes, G2_LEN, PUBLIC_KEY_LEN)) {
            Ok(proof) => proof,
            Err(e) => { return Err(e); },
        };
        assert(g2@ + sig@ =~= bytes@);
        Ok(PublicKey::new(g2, sig))
    }
}

impl PartialEq for PublicKey {
    /// Two keys are equal if their points on G2 and their public keys on G1
    /// are: the proofs may differ.
    fn eq(&self, other: &PublicKey) -> (r: bool) {
        self.g2 == other.g2 && self.g1 == other.g1
    }
}

impl PartialEqSpecImpl for PublicKey {
    open spec fn obeys_eq_spec() -> bool {
        true
    }

    open spec fn eq_spec(&self, other: &PublicKey) -> bool {
        self.g2_preoutput() == other.g2_preoutput() && self.g1_point() == other.g1_point()
    }
}

impl Eq for PublicKey {

}

impl Hash for PublicKey {
    /// Hashes what equality compares: the point on G2 and the public key on
    /// G1.
    fn hash<H: Hasher>(&self, state: &mut H) {
        hash_bytes(self.g2.as_bytes(), state);
        hash_bytes(self.g1.0.as_bytes(), state);
    }
}

impl Signature {
    /// The encoding of the signature point.
    pub closed spec fn preoutput(&self) -> Seq<u8> {
        self.preoutput@
    }

    /// The thin VRF accepts the signature for the message, under
    /// `transcript` and the public key of the secret key that `seed` expands
    /// into.
    pub open spec fn signed_by(&self, seed: Seq<u8>, transcript: Seq<u8>, message: Seq<u8>) -> bool {
        thin_vrf_accepts(
            g1_generator(),
            transcript,
            message_point(message),
            self.preoutput(),
            SecretKey::public_of(seed),
            self.thin_proof(),
        )
    }

    /// The encoding of the proof.
    pub closed spec fn thin_proof(&self) -> Seq<u8> {
        self.signature@
    }

    /// The signature made of a point and a proof.
    pub fn new(preoutput: G1Point, proof: ThinProof) -> (r: Signature)
        ensures
            r.preoutput() == preoutput@,
            r.thin_proof() == proof@,
    {
        Signature { preoutput, signature: proof }
    }

    /// The signature point on G1.
    pub fn as_point(&self) -> (r: &G1Point)
        ensures
            r@ == self.preoutput(),
    {
        &self.preoutput
    }

    /// The proof.
    pub fn as_proof(&self) -> (r: &ThinProof)
        ensures
            r@ == self.thin_proof(),
    {
        &self.signature
    }

    /// The signature's encoding: the point on G1, then the proof.
    pub fn to_bytes(&self) -> (r: Vec<u8>)
        ensures
            r@ == self@,
            is_signature(r@),
    {
        let r = join(self.preoutput.as_bytes(), self.signature.as_bytes());
        assert(r@.subrange(0, G1_LEN as int) =~= self.preoutput@);
        assert(r@.subrange(G1_LEN as int, SIGNATURE_LEN as int) =~= self.signature@);
        r
    }

    /// Reads a signature from its encoding.  Any other byte string is
    /// refused.
    pub fn from_bytes(bytes: &[u8]) -> (r: Result<Signature, SignatureError>)
        ensures
            r is Ok <==> is_signature(bytes@),
            r matches Ok(signature) ==> signature@ == bytes@,
            r matches Err(e) ==> e == SignatureError::DecodeError,
    {
        if bytes.len() != SIGNATURE_LEN {
            return Err(SignatureError::DecodeError);
        }
        let preoutput = match G1Point::from_bytes(slice_subrange(bytes, 0, G1_LEN)) {
            Ok(point) => point,
            Err(e) => { return Err(e); },
        };
        let signature = match ThinProof::from_bytes(slice_subrange(bytes, G1_LEN, SIGNATURE_LEN)) {
            Ok(proof) => proof,
            Err(e) => { return Err(e); },
        };
        assert(preoutput@ + signature@ =~= bytes@);
        Ok(Signature::new(preoutput, signature))
    }
}

} // verus!
