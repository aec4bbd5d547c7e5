//! The two VRF flavours that the scheme rests on.
//!
//! The thin VRF gives a Schnorr-like proof that a pre-output on G1 was made
//! with the key behind a public key on G1.  The Pedersen VRF, used here
//! without blinding, gives a proof that a pre-output on G2 was made with the
//! key behind the key commitment that the proof itself carries.  Both are
//! `dleq_vrf`'s: this module hands it encodings and takes encodings back.
//!
//! A secret key is handed over as the seed that `dleq_vrf` expands into it.
//! Whatever `dleq_vrf` does with a secret key, it draws randomness from the
//! operating system for: it splits the secret scalar anew, and it blinds the
//! nonces of its proofs.  Points that depend on the key alone do not depend
//! on that randomness; proofs do.  Where the operating system has no
//! randomness to give, `dleq_vrf` stops the program.

use vstd::prelude::*;
use vstd::slice::slice_to_vec;
use ark_bls12_381::{G1Affine, G2Affine};
use ark_serialize::{CanonicalDeserialize, CanonicalSerialize, SerializationError};
use dleq_vrf::{IntoVrfInput, VrfInOut, VrfInput, VrfPreOut};
use crate::bytes::ct_eq;
use crate::curve::{g1_generator, is_g1, is_g2, G1Point, G2Point};
use crate::error::{verdict, SignatureError, SignatureResult};
use crate::transcript::Transcript;

verus! {

/// The length of the encoding of a thin VRF proof: a scalar and a point of G1.
pub const THIN_PROOF_LEN: usize = 80;

/// The length of the encoding of a Pedersen VRF proof without blinding: a key
/// commitment on G1 and two scalars.
pub const PEDERSEN_PROOF_LEN: usize = 112;

/// The encoding of the point of G1 that `dleq_vrf` hashes `message` to.
pub uninterp spec fn message_point(message: Seq<u8>) -> Seq<u8>;

/// The encoding of the public key of the secret key that `dleq_vrf` expands
/// `seed` into, over the keying base encoded by `base`.
pub uninterp spec fn secret_public(base: Seq<u8>, seed: Seq<u8>) -> Seq<u8>;

/// The encoding of the VRF pre-output on G1 of that secret key at the input
/// encoded by `input`: the input multiplied by the secret scalar.
pub uninterp spec fn vrf_preout_g1(base: Seq<u8>, seed: Seq<u8>, input: Seq<u8>) -> Seq<u8>;

/// The encoding of the VRF pre-output on G2 of that secret key at the input
/// encoded by `input`.
pub uninterp spec fn vrf_preout_g2(base: Seq<u8>, seed: Seq<u8>, input: Seq<u8>) -> Seq<u8>;

/// The encoding that `ark-serialize` writes for the thin VRF proof that it
/// reads from `bytes`; `None` where it reads none.
pub uninterp spec fn thin_proof_canonical_form(bytes: Seq<u8>) -> Option<Seq<u8>>;

/// The encoding that `ark-serialize` writes for the Pedersen VRF proof that
/// it reads from `bytes`; `None` where it reads none.
pub uninterp spec fn pedersen_proof_canonical_form(bytes: Seq<u8>) -> Option<Seq<u8>>;

/// The encoding of the key commitment carried by the Pedersen VRF proof
/// encoded by `proof`.
pub uninterp spec fn pedersen_key_commitment(proof: Seq<u8>) -> Seq<u8>;

/// Whether `dleq_vrf` accepts the thin VRF proof for one input and
/// pre-output, a public key and a transcript.
pub uninterp spec fn thin_vrf_accepts(
    base: Seq<u8>,
    transcript: Seq<u8>,
    input: Seq<u8>,
    preout: Seq<u8>,
    public: Seq<u8>,
    proof: Seq<u8>,
) -> bool;

/// Whether `dleq_vrf` accepts the Pedersen VRF proof for one input and
/// pre-output and a transcript.
pub uninterp spec fn pedersen_vrf_accepts(
    base: Seq<u8>,
    transcript: Seq<u8>,
    input: Seq<u8>,
    preout: Seq<u8>,
    proof: Seq<u8>,
) -> bool;

/// `bytes` is the canonical encoding of a thin VRF proof.
pub open spec fn is_thin_proof(bytes: Seq<u8>) -> bool {
    bytes.len() == THIN_PROOF_LEN && thin_proof_canonical_form(bytes) == Some(bytes)
}

/// `bytes` is the canonical encoding of a Pedersen VRF proof.
pub open spec fn is_pedersen_proof(bytes: Seq<u8>) -> bool {
    bytes.len() == PEDERSEN_PROOF_LEN && pedersen_proof_canonical_form(bytes) == Some(bytes)
}

/// Calls `IntoVrfInput::into_vrf_input` on the message's bytes.
///
/// Assumed: the encoding of the point that comes out is [`message_point`] of
/// the message, and is canonical.
#[verifier::external_body]
fn message_point_raw(message: &[u8]) -> (r: Vec<u8>)
    ensures
        r@ == message_point(message@),
        is_g1(r@),
{
    let input: VrfInput<G1Affine> = message.into_vrf_input();
    let mut out = Vec::new();
    input.0.serialize_compressed(&mut out).unwrap();
    out
}

/// Calls `SecretKey::from_seed` and `SecretKey::as_publickey`.
///
/// Assumed: the public key's encoding is [`secret_public`] of the base and
/// the seed, and is canonical.
#[verifier::external_body]
fn secret_public_raw(base: &[u8], seed: &[u8; 32]) -> (r: Vec<u8>)
    requires
        is_g1(base@),
    ensures
        r@ == secret_public(base@, seed@),
        is_g1(r@),
{
    let keying_base = G1Affine::deserialize_compressed(base).unwrap();
    let secret = dleq_vrf::SecretKey::from_seed(dleq_vrf::ThinVrf { keying_base }, *seed);
    let mut out = Vec::new();
    secret.as_publickey().0.serialize_compressed(&mut out).unwrap();
    out
}

/// Calls `SecretKey::from_seed` and `SecretKey::vrf_inout` with an input on
/// G1.
///
/// Assumed: the pre-output's encoding is [`vrf_preout_g1`] of the base, the
/// seed and the input, and is canonical.
#[verifier::external_body]
fn vrf_preout_g1_raw(base: &[u8], seed: &[u8; 32], input: &[u8]) -> (r: Vec<u8>)
    requires
        is_g1(base@),
        is_g1(input@),
    ensures
        r@ == vrf_preout_g1(base@, seed@, input@),
        is_g1(r@),
{
    let keying_base = G1Affine::deserialize_compressed(base).unwrap();
    let mut secret = dleq_vrf::SecretKey::from_seed(dleq_vrf::ThinVrf { keying_base }, *seed);
    let input = VrfInput(G1Affine::deserialize_compressed(input).unwrap());
    let mut out = Vec::new();
    secret.vrf_inout(input).preoutput.0.serialize_compressed(&mut out).unwrap();
    out
}

/// Calls `SecretKey::from_seed` and `SecretKey::vrf_inout` with an input on
/// G2.
///
/// Assumed: the pre-output's encoding is [`vrf_preout_g2`] of the base, the
/// seed and the input, and is canonical.
#[verifier::external_body]
fn vrf_preout_g2_raw(base: &[u8], seed: &[u8; 32], input: &[u8]) -> (r: Vec<u8>)
    requires
        is_g1(base@),
        is_g2(input@),
    ensures
        r@ == vrf_preout_g2(base@, seed@, input@),
        is_g2(r@),
{
    let keying_base = G1Affine::deserialize_compressed(base).unwrap();
    let mut secret = dleq_vrf::SecretKey::from_seed(dleq_vrf::ThinVrf { keying_base }, *seed);
    let input = VrfInput(G2Affine::deserialize_compressed(input).unwrap());
    let mut out = Vec::new();
    secret.vrf_inout(input).preoutput.0.serialize_compressed(&mut out).unwrap();
    out
}

/// Calls `SecretKey::from_seed` and `SecretKey::sign_thin_vrf` with one input
/// and pre-output.
///
/// The proof depends on fresh randomness, so nothing is said of which proof
/// comes out.  Assumed of every proof that does: its encoding has 80 bytes
/// and is canonical; and where `preout` is the pre-output of the secret key
/// at `input`, `ThinVrf::verify_thin_vrf` accepts the proof for the same
/// base, transcript, input and pre-output and the secret key's public key.
/// For with `x` the secret scalar, `B` the point that both sides merge from
/// the base and the input, `P = x*B` the point that they merge from the
/// public key and the pre-output, and `c` the challenge that both read from
/// the same transcript, the proof is `r = k*B` and `s = k + c*x`, and the
/// verifier asks that `s*B = r + c*P`.
#[verifier::external_body]
fn thin_sign_raw(base: &[u8], seed: &[u8; 32], transcript: &[u8], input: &[u8], preout: &[u8]) -> (r:
    Vec<u8>)
    requires
        is_g1(base@),
        is_g1(input@),
        is_g1(preout@),
    ensures
        r@.len() == THIN_PROOF_LEN,
        thin_proof_canonical_form(r@) == Some(r@),
        preout@ == vrf_preout_g1(base@, seed@, input@) ==> thin_vrf_accepts(
            base@,
            transcript@,
            input@,
            preout@,
            secret_public(base@, seed@),
            r@,
        ),
{
    let keying_base = G1Affine::deserialize_compressed(base).unwrap();
    let mut secret = dleq_vrf::SecretKey::from_seed(dleq_vrf::ThinVrf { keying_base }, *seed);
    let input = VrfInput(G1Affine::deserialize_compressed(input).unwrap());
    let preoutput = VrfPreOut(G1Affine::deserialize_compressed(preout).unwrap());
    let t = dleq_vrf::Transcript::from_accumulation(transcript);
    let mut out = Vec::new();
    secret.sign_thin_vrf(t, &[VrfInOut { input, preoutput }]).serialize_compressed(&mut out).unwrap();
    out
}

/// Calls `ThinVrf::verify_thin_vrf` with one input and pre-output.
///
/// Assumed: whether it returns `Ok` is [`thin_vrf_accepts`] of the encodings
/// handed to it.
#[verifier::external_body]
fn thin_verify_raw(
    base: &[u8],
    transcript: &[u8],
    input: &[u8],
    preout: &[u8],
    public: &[u8],
    proof: &[u8],
) -> (r: bool)
    requires
        is_g1(base@),
        is_g1(input@),
        is_g1(preout@),
        is_g1(public@),
        is_thin_proof(proof@),
    ensures
        r == thin_vrf_accepts(base@, transcript@, input@, preout@, public@, proof@),
{
    let thin = dleq_vrf::ThinVrf { keying_base: G1Affine::deserialize_compressed(base).unwrap() };
    let input = VrfInput(G1Affine::deserialize_compressed(input).unwrap());
    let preoutput = VrfPreOut(G1Affine::deserialize_compressed(preout).unwrap());
    let public = dleq_vrf::PublicKey(G1Affine::deserialize_compressed(public).unwrap());
    let proof = dleq_vrf::Signature::deserialize_compressed(proof).unwrap();
    let t = dleq_vrf::Transcript::from_accumulation(transcript);
    thin.verify_thin_vrf(t, &[VrfInOut { input, preoutput }], &public, &proof).is_ok()
}

/// Calls `SecretKey::from_seed`, `PedersenVrf::new` without blinding bases and
/// `PedersenVrf::sign_non_batchable_pedersen_vrf` with one input and
/// pre-output and no given blinding.
///
/// The proof depends on fresh randomness, so nothing is said of which proof
/// comes out.  Assumed: its encoding has 112 bytes and is canonical, and the
/// key commitment in it is the public key of the secret key, as there is
/// nothing to blind it with.
#[verifier::external_body]
fn pedersen_sign_raw(
    base: &[u8],
    seed: &[u8; 32],
    transcript: &[u8],
    input: &[u8],
    preout: &[u8],
) -> (r: Vec<u8>)
    requires
        is_g1(base@),
        is_g2(input@),
        is_g2(preout@),
    ensures
        r@.len() == PEDERSEN_PROOF_LEN,
        pedersen_proof_canonical_form(r@) == Some(r@),
        pedersen_key_commitment(r@) == secret_public(base@, seed@),
{
    let keying_base = G1Affine::deserialize_compressed(base).unwrap();
    let mut secret = dleq_vrf::SecretKey::from_seed(dleq_vrf::ThinVrf { keying_base }, *seed);
    let flavor = dleq_vrf::PedersenVrf::<G1Affine, G2Affine, 0>::new(keying_base, []);
    let input = VrfInput(G2Affine::deserialize_compressed(input).unwrap());
    let preoutput = VrfPreOut(G2Affine::deserialize_compressed(preout).unwrap());
    let t = dleq_vrf::Transcript::from_accumulation(transcript);
    let io = [VrfInOut { input, preoutput }];
    let mut out = Vec::new();
    flavor.sign_non_batchable_pedersen_vrf(t, &io, None, &mut secret).0.serialize_compressed(
        &mut out,
    ).unwrap();
    out
}

/// Calls `PedersenVrf::new` without blinding bases and
/// `PedersenVrf::verify_non_batchable_pedersen_vrf` with one input and
/// pre-output.
///
/// Assumed: whether it returns `Ok` is [`pedersen_vrf_accepts`] of the
/// encodings handed to it.
#[verifier::external_body]
fn pedersen_verify_raw(
    base: &[u8],
    transcript: &[u8],
    input: &[u8],
    preout: &[u8],
    proof: &[u8],
) -> (r: bool)
    requires
        is_g1(base@),
        is_g2(input@),
        is_g2(preout@),
        is_pedersen_proof(proof@),
    ensures
        r == pedersen_vrf_accepts(base@, transcript@, input@, preout@, proof@),
{
    let keying_base = G1Affine::deserialize_compressed(base).unwrap();
    let flavor = dleq_vrf::PedersenVrf::<G1Affine, G2Affine, 0>::new(keying_base, []);
    let input = VrfInput(G2Affine::deserialize_compressed(input).unwrap());
    let preoutput = VrfPreOut(G2Affine::deserialize_compressed(preout).unwrap());
    let proof = dleq_vrf::NonBatchableSignature::deserialize_compressed(proof).unwrap();
    let t = dleq_vrf::Transcript::from_accumulation(transcript);
    flavor.verify_non_batchable_pedersen_vrf(t, &[VrfInOut { input, preoutput }], &proof).is_ok()
}

/// Calls `deserialize_compressed` for a thin VRF proof and, on the proof
/// read, `serialize_compressed`.
///
/// Assumed: the result is [`thin_proof_canonical_form`] of `bytes`; what is
/// written has 80 bytes and is its own canonical form.
#[verifier::external_body]
fn thin_proof_recode(bytes: &[u8]) -> (r: Result<Vec<u8>, SerializationError>)
    ensures
        match r {
            Ok(c) => thin_proof_canonical_form(bytes@) == Some(c@) && is_thin_proof(c@),
            Err(_) => thin_proof_canonical_form(bytes@) is None,
        },
{
    let proof = dleq_vrf::Signature::<dleq_vrf::ThinVrf<G1Affine>>::deserialize_compressed(bytes)?;
    let mut out = Vec::new();
    proof.serialize_compressed(&mut out)?;
    Ok(out)
}

/// Calls `deserialize_compressed` for a Pedersen VRF proof without blinding
/// and, on the proof read, `serialize_compressed`.
///
/// Assumed: the result is [`pedersen_proof_canonical_form`] of `bytes`; what
/// is written has 112 bytes and is its own canonical form.
#[verifier::external_body]
fn pedersen_proof_recode(bytes: &[u8]) -> (r: Result<Vec<u8>, SerializationError>)
    ensures
        match r {
            Ok(c) => pedersen_proof_canonical_form(bytes@) == Some(c@) && is_pedersen_proof(c@),
            Err(_) => pedersen_proof_canonical_form(bytes@) is None,
        },
{
    let proof = dleq_vrf::NonBatchableSignature::<
        dleq_vrf::PedersenVrf<G1Affine, G2Affine, 0>,
    >::deserialize_compressed(bytes)?;
    let mut out = Vec::new();
    proof.serialize_compressed(&mut out)?;
    Ok(out)
}

/// Calls `NonBatchableSignature::as_key_commitment`.
///
/// Assumed: the commitment's encoding is [`pedersen_key_commitment`] of the
/// proof's encoding, and is canonical.
#[verifier::external_body]
fn pedersen_commitment_raw(proof: &[u8]) -> (r: Vec<u8>)
    requires
        is_pedersen_proof(proof@),
    ensures
        r@ == pedersen_key_commitment(proof@),
        is_g1(r@),
{
    let proof = dleq_vrf::NonBatchableSignature::<
        dleq_vrf::PedersenVrf<G1Affine, G2Affine, 0>,
    >::deserialize_compressed(proof).unwrap();
    let mut out = Vec::new();
    proof.as_key_commitment().0.serialize_compressed(&mut out).unwrap();
    out
}

/// A thin VRF proof: a Schnorr-like proof of discrete-log equality, without
/// blinding.
#[derive(Debug)]
pub struct ThinProof {
    bytes: Vec<u8>,
}

/// A Pedersen VRF proof without blinding.  It carries the prover's public key
/// on G1 as its key commitment.
#[derive(Debug)]
pub struct PedersenProof {
    bytes: Vec<u8>,
}

/// The thin VRF flavour: its keying base on G1.
#[derive(Debug)]
pub struct ThinVrf {
    pub keying_base: G1Point,
}

/// The Pedersen VRF flavour between G1 and G2, without blinding bases: its
/// keying base on G1.
#[derive(Debug)]
pub struct PedersenVrf {
    pub keying_base: G1Point,
}

impl Clone for ThinVrf {
    fn clone(&self) -> (r: ThinVrf)
        ensures
            r.keying_base@ == self.keying_base@,
    {
        ThinVrf { keying_base: self.keying_base.clone() }
    }
}

impl Clone for PedersenVrf {
    fn clone(&self) -> (r: PedersenVrf)
        ensures
            r.keying_base@ == self.keying_base@,
    {
        PedersenVrf { keying_base: self.keying_base.clone() }
    }
}

impl Clone for ThinProof {
    fn clone(&self) -> (r: ThinProof)
        ensures
            r@ == self@,
    {
        proof {
            use_type_invariant(self);
        }
        ThinProof { bytes: slice_to_vec(self.bytes.as_slice()) }
    }
}

impl Clone for PedersenProof {
    fn clone(&self) -> (r: PedersenProof)
        ensures
            r@ == self@,
    {
        proof {
            use_type_invariant(self);
        }
        PedersenProof { bytes: slice_to_vec(self.bytes.as_slice()) }
    }
}

impl View for ThinProof {
    type V = Seq<u8>;

    closed spec fn view(&self) -> Seq<u8> {
        self.bytes@
    }
}

impl View for PedersenProof {
    type V = Seq<u8>;

    closed spec fn view(&self) -> Seq<u8> {
        self.bytes@
    }
}

impl ThinProof {
    #[verifier::type_invariant]
    spec fn well_formed(&self) -> bool {
        is_thin_proof(self.bytes@)
    }

    /// Reads a proof from its canonical encoding; any other byte string is
    /// refused.
    pub fn from_bytes(bytes: &[u8]) -> (r: Result<ThinProof, SignatureError>)
        ensures
            r is Ok <==> is_thin_proof(bytes@),
            r matches Ok(p) ==> p@ == bytes@,
            r matches Err(e) ==> e == SignatureError::DecodeError,
    {
        match thin_proof_recode(bytes) {
            Ok(canonical) => {
                if ct_eq(canonical.as_slice(), bytes) {
                    Ok(ThinProof { bytes: canonical })
                } else {
                    Err(SignatureError::DecodeError)
                }
            },
            Err(_) => Err(SignatureError::DecodeError),
        }
    }

    /// The proof's canonical encoding.
    pub fn as_bytes(&self) -> (r: &[u8])
        ensures
            r@ == self@,
            is_thin_proof(r@),
    {
        proof {
            use_type_invariant(self);
        }
        self.bytes.as_slice()
    }
}

impl PedersenProof {
    #[verifier::type_invariant]
    spec fn well_formed(&self) -> bool {
        is_pedersen_proof(self.bytes@)
    }

    /// Reads a proof from its canonical encoding; any other byte string is
    /// refused.
    pub fn from_bytes(bytes: &[u8]) -> (r: Result<PedersenProof, SignatureError>)
        ensures
            r is Ok <==> is_pedersen_proof(bytes@),
            r matches Ok(p) ==> p@ == bytes@,
            r matches Err(e) ==> e == SignatureError::DecodeError,
    {
        match pedersen_proof_recode(bytes) {
            Ok(canonical) => {
                if ct_eq(canonical.as_slice(), bytes) {
                    Ok(PedersenProof { bytes: canonical })
                } else {
                    Err(SignatureError::DecodeError)
                }
            },
            Err(_) => Err(SignatureError::DecodeError),
        }
    }

    /// The proof's canonical encoding.
    pub fn as_bytes(&self) -> (r: &[u8])
        ensures
            r@ == self@,
            is_pedersen_proof(r@),
    {
        proof {
            use_type_invariant(self);
        }
        self.bytes.as_slice()
    }

    /// The key commitment that the proof carries: the prover's public key on
    /// G1.
    pub fn key_commitment(&self) -> (r: G1Point)
        ensures
            r@ == pedersen_key_commitment(self@),
    {
        proof {
            use_type_invariant(self);
        }
        G1Point::from_canonical(pedersen_commitment_raw(self.bytes.as_slice()))
    }
}

/// Maps a message to its VRF input, a point of G1.
pub fn message_to_g1(message: &[u8]) -> (r: G1Point)
    ensures
        r@ == message_point(message@),
{
    G1Point::from_canonical(message_point_raw(message))
}

impl ThinVrf {
    /// The public key on G1 of the secret key that `seed` expands into.
    pub(crate) fn public_key(&self, seed: &[u8; 32]) -> (r: G1Point)
        ensures
            r@ == secret_public(self.keying_base@, seed@),
    {
        G1Point::from_canonical(secret_public_raw(self.keying_base.as_bytes(), seed))
    }

    /// The VRF pre-output of that secret key at an input on G1.
    pub(crate) fn vrf_preout(&self, seed: &[u8; 32], input: &G1Point) -> (r: G1Point)
        ensures
            r@ == vrf_preout_g1(self.keying_base@, seed@, input@),
    {
        G1Point::from_canonical(
            vrf_preout_g1_raw(self.keying_base.as_bytes(), seed, input.as_bytes()),
        )
    }

    /// The VRF pre-output of that secret key at an input on G2.
    pub(crate) fn vrf_preout_g2(&self, seed: &[u8; 32], input: &G2Point) -> (r: G2Point)
        ensures
            r@ == vrf_preout_g2(self.keying_base@, seed@, input@),
    {
        G2Point::from_canonical(
            vrf_preout_g2_raw(self.keying_base.as_bytes(), seed, input.as_bytes()),
        )
    }

    /// Proves that `preout` is the pre-output of that secret key at `input`,
    /// bound to the transcript.  Where `preout` is that pre-output, the
    /// proof is one that [`ThinVrf::verify`] accepts for the same transcript,
    /// input and pre-output and the secret key's public key.
    pub(crate) fn sign(
        &self,
        seed: &[u8; 32],
        t: &Transcript,
        input: &G1Point,
        preout: &G1Point,
    ) -> (r: ThinProof)
        ensures
            preout@ == vrf_preout_g1(self.keying_base@, seed@, input@) ==> thin_vrf_accepts(
                self.keying_base@,
                t@,
                input@,
                preout@,
                secret_public(self.keying_base@, seed@),
                r@,
            ),
    {
        ThinProof {
            bytes: thin_sign_raw(
                self.keying_base.as_bytes(),
                seed,
                t.as_bytes(),
                input.as_bytes(),
                preout.as_bytes(),
            ),
        }
    }

    /// Checks a thin VRF proof for one input and pre-output against a public
    /// key on G1 and a transcript.
    pub fn verify(
        &self,
        t: &Transcript,
        input: &G1Point,
        preout: &G1Point,
        public: &G1Point,
        proof: &ThinProof,
    ) -> (r: SignatureResult<()>)
        ensures
            r == verdict(
                thin_vrf_accepts(self.keying_base@, t@, input@, preout@, public@, proof@),
            ),
    {
        let accepted = thin_verify_raw(
            self.keying_base.as_bytes(),
            t.as_bytes(),
            input.as_bytes(),
            preout.as_bytes(),
            public.as_bytes(),
            proof.as_bytes(),
        );
        if accepted {
            Ok(())
        } else {
            Err(SignatureError::Invalid)
        }
    }
}

impl PedersenVrf {
    /// Proves that `preout` is the pre-output at `input`, on G2, of the
    /// secret key that `seed` expands into, bound to the transcript.
    pub(crate) fn sign(
        &self,
        seed: &[u8; 32],
        t: &Transcript,
        input: &G2Point,
        preout: &G2Point,
    ) -> (r: PedersenProof)
        ensures
            pedersen_key_commitment(r@) == secret_public(self.keying_base@, seed@),
    {
        PedersenProof {
            bytes: pedersen_sign_raw(
                self.keying_base.as_bytes(),
                seed,
                t.as_bytes(),
                input.as_bytes(),
                preout.as_bytes(),
            ),
        }
    }

    /// Checks a Pedersen VRF proof for one input and pre-output on G2 against
    /// a transcript.
    pub fn verify(&self, t: &Transcript, input: &G2Point, preout: &G2Point, proof: &PedersenProof) -> (r:
        SignatureResult<()>)
        ensures
            r == verdict(pedersen_vrf_accepts(self.keying_base@, t@, input@, preout@, proof@)),
    {
        let accepted = pedersen_verify_raw(
            self.keying_base.as_bytes(),
            t.as_bytes(),
            input.as_bytes(),
            preout.as_bytes(),
            proof.as_bytes(),
        );
        if accepted {
            Ok(())
        } else {
            Err(SignatureError::Invalid)
        }
    }
}

/// The thin VRF that signs: keyed at the generator of G1.
pub fn thin_vrf() -> (r: ThinVrf)
    ensures
        r.keying_base@ == g1_generator(),
{
    ThinVrf { keying_base: G1Point::generator() }
}

/// The Pedersen VRF that certifies public keys: keyed at the generator of G1,
/// without blinding bases.
pub fn pedersen_vrf() -> (r: PedersenVrf)
    ensures
        r.keying_base@ == g1_generator(),
{
    PedersenVrf { keying_base: G1Point::generator() }
}

} // verus!
