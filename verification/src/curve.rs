//! The groups of BLS12-381.
//!
//! A point of G1 or G2, a scalar and an element of the target group are each
//! held as the bytes of their canonical compressed encoding.  The types keep
//! the invariant that their bytes are such an encoding, so two values are the
//! same group element exactly if their bytes are equal.
//!
//! The arithmetic is `ark-ec`'s.  Its results are named by the specification
//! functions below, which have no definition here: the contracts of the
//! private functions that call `ark-ec` are assumed, and everything else in
//! this library is proved from them.

use vstd::prelude::*;
use vstd::slice::slice_to_vec;
use vstd::std_specs::cmp::PartialEqSpecImpl;
use ark_bls12_381::{Bls12_381, Fr, G1Affine, G2Affine};
use ark_ec::{AffineRepr, CurveGroup};
use ark_ec::pairing::{Pairing, PairingOutput};
use ark_serialize::{CanonicalDeserialize, CanonicalSerialize, SerializationError};
use ark_std::Zero;
use crate::bytes::ct_eq;
use crate::error::SignatureError;

verus! {

/// The length of the compressed encoding of a point of G1.
pub const G1_LEN: usize = 48;

/// The length of the compressed encoding of a point of G2.
pub const G2_LEN: usize = 96;

/// The length of the encoding of a scalar.
pub const SCALAR_LEN: usize = 32;

/// The length of the encoding of an element of the target group.
pub const TARGET_LEN: usize = 576;

/// `ark_serialize::SerializationError`, the error of a failed decoding.  It is
/// only ever mapped to [`SignatureError::DecodeError`].
#[verifier::external_type_specification]
#[verifier::external_body]
pub struct ExSerializationError(SerializationError);

/// The compressed encoding that `ark-serialize` writes for the point of G1
/// that it reads from `bytes`, with the subgroup check; `None` where it reads
/// no such point.
pub uninterp spec fn g1_canonical_form(bytes: Seq<u8>) -> Option<Seq<u8>>;

/// As [`g1_canonical_form`], for G2.
pub uninterp spec fn g2_canonical_form(bytes: Seq<u8>) -> Option<Seq<u8>>;

/// The encoding that `ark-serialize` writes for the scalar that it reads from
/// `bytes`; `None` where it reads none.
pub uninterp spec fn scalar_canonical_form(bytes: Seq<u8>) -> Option<Seq<u8>>;

/// The encoding of the sum of the points of G1 encoded by `a` and `b`.
pub uninterp spec fn g1_sum(a: Seq<u8>, b: Seq<u8>) -> Seq<u8>;

/// The encoding of the sum of the points of G2 encoded by `a` and `b`.
pub uninterp spec fn g2_sum(a: Seq<u8>, b: Seq<u8>) -> Seq<u8>;

/// The encoding of the point of G1 encoded by `point`, multiplied by the
/// scalar encoded by `scalar`.
pub uninterp spec fn g1_scaled(point: Seq<u8>, scalar: Seq<u8>) -> Seq<u8>;

/// The encoding of the inverse of the point of G2 encoded by `point`.
pub uninterp spec fn g2_negated(point: Seq<u8>) -> Seq<u8>;

/// The encoding of `e(p1, q1) * e(p2, q2)`, computed as one product of Miller
/// loops followed by one final exponentiation; `None` where the final
/// exponentiation has no result.
pub uninterp spec fn pairing_product(p1: Seq<u8>, q1: Seq<u8>, p2: Seq<u8>, q2: Seq<u8>) -> Option<
    Seq<u8>,
>;

/// `bytes` is the canonical encoding of a point of G1.
pub open spec fn is_g1(bytes: Seq<u8>) -> bool {
    bytes.len() == G1_LEN && g1_canonical_form(bytes) == Some(bytes)
}

/// `bytes` is the canonical encoding of a point of G2.
pub open spec fn is_g2(bytes: Seq<u8>) -> bool {
    bytes.len() == G2_LEN && g2_canonical_form(bytes) == Some(bytes)
}

/// `bytes` is the canonical encoding of a scalar.
pub open spec fn is_scalar(bytes: Seq<u8>) -> bool {
    bytes.len() == SCALAR_LEN && scalar_canonical_form(bytes) == Some(bytes)
}

/// The encoding of the generator of G1.
pub open spec fn g1_generator() -> Seq<u8> {
    seq![
        151u8, 241, 211, 167, 49, 151, 215, 148, 38, 149, 99, 140, 79, 169, 172, 15,
        195, 104, 140, 79, 151, 116, 185, 5, 161, 78, 58, 63, 23, 27, 172, 88,
        108, 85, 232, 63, 249, 122, 26, 239, 251, 58, 240, 10, 219, 34, 198, 187,
    ]
}

/// The encoding of the generator of G2.
pub open spec fn g2_generator() -> Seq<u8> {
    seq![
        147u8, 224, 43, 96, 82, 113, 159, 96, 125, 172, 211, 160, 136, 39, 79, 101,
        89, 107, 208, 208, 153, 32, 182, 26, 181, 218, 97, 187, 220, 127, 80, 73,
        51, 76, 241, 18, 19, 148, 93, 87, 229, 172, 125, 5, 93, 4, 43, 126,
        2, 74, 162, 178, 240, 143, 10, 145, 38, 8, 5, 39, 45, 197, 16, 81,
        198, 228, 122, 212, 250, 64, 59, 2, 180, 81, 11, 100, 122, 227, 209, 119,
        11, 172, 3, 38, 168, 5, 187, 239, 212, 128, 86, 200, 193, 33, 189, 184,
    ]
}

/// The encoding of the neutral element of G1: the flags of a compressed point
/// at infinity, then zeros.
pub open spec fn g1_identity() -> Seq<u8> {
    Seq::new(G1_LEN as nat, |i: int| if i == 0 { 0xc0u8 } else { 0u8 })
}

/// The encoding of the neutral element of G2.
pub open spec fn g2_identity() -> Seq<u8> {
    Seq::new(G2_LEN as nat, |i: int| if i == 0 { 0xc0u8 } else { 0u8 })
}

/// The encoding of the neutral element of the target group: the one of its
/// field, least significant byte first.
pub open spec fn target_identity() -> Seq<u8> {
    Seq::new(TARGET_LEN as nat, |i: int| if i == 0 { 1u8 } else { 0u8 })
}

/// Calls `G1Affine::deserialize_compressed` and, on the point read,
/// `serialize_compressed`.
///
/// Assumed: the result is [`g1_canonical_form`] of `bytes`; what is written
/// has 48 bytes and is read back as the same point, so it is its own
/// canonical form.
#[verifier::external_body]
fn g1_recode(bytes: &[u8]) -> (r: Result<Vec<u8>, SerializationError>)
    ensures
        match r {
            Ok(c) => g1_canonical_form(bytes@) == Some(c@) && is_g1(c@),
            Err(_) => g1_canonical_form(bytes@) is None,
        },
{
    let point = G1Affine::deserialize_compressed(bytes)?;
    let mut out = Vec::new();
    point.serialize_compressed(&mut out)?;
    Ok(out)
}

/// Calls `G2Affine::deserialize_compressed` and, on the point read,
/// `serialize_compressed`.
///
/// Assumed: the result is [`g2_canonical_form`] of `bytes`; what is written
/// has 96 bytes and is its own canonical form.
#[verifier::external_body]
fn g2_recode(bytes: &[u8]) -> (r: Result<Vec<u8>, SerializationError>)
    ensures
        match r {
            Ok(c) => g2_canonical_form(bytes@) == Some(c@) && is_g2(c@),
            Err(_) => g2_canonical_form(bytes@) is None,
        },
{
    let point = G2Affine::deserialize_compressed(bytes)?;
    let mut out = Vec::new();
    point.serialize_compressed(&mut out)?;
    Ok(out)
}

/// Calls `AffineRepr::generator` for G1.
///
/// Assumed: the generator's encoding is [`g1_generator`], which is canonical.
#[verifier::external_body]
fn g1_generator_raw() -> (r: Vec<u8>)
    ensures
        r@ == g1_generator(),
        is_g1(r@),
{
    let mut out = Vec::new();
    G1Affine::generator().serialize_compressed(&mut out).unwrap();
    out
}

/// Calls `AffineRepr::generator` for G2.
///
/// Assumed: the generator's encoding is [`g2_generator`], which is canonical.
#[verifier::external_body]
fn g2_generator_raw() -> (r: Vec<u8>)
    ensures
        r@ == g2_generator(),
        is_g2(r@),
{
    let mut out = Vec::new();
    G2Affine::generator().serialize_compressed(&mut out).unwrap();
    out
}

/// Calls `AffineRepr::zero` for G1.
///
/// Assumed: the encoding of the point at infinity is [`g1_identity`], which
/// is canonical.
#[verifier::external_body]
fn g1_identity_raw() -> (r: Vec<u8>)
    ensures
        r@ == g1_identity(),
        is_g1(r@),
{
    let mut out = Vec::new();
    G1Affine::zero().serialize_compressed(&mut out).unwrap();
    out
}

/// Calls `AffineRepr::zero` for G2.
///
/// Assumed: the encoding of the point at infinity is [`g2_identity`], which
/// is canonical.
#[verifier::external_body]
fn g2_identity_raw() -> (r: Vec<u8>)
    ensures
        r@ == g2_identity(),
        is_g2(r@),
{
    let mut out = Vec::new();
    G2Affine::zero().serialize_compressed(&mut out).unwrap();
    out
}

/// Adds two points of G1 with `ark-ec` (`Affine + Affine`, then
/// `into_affine`).
///
/// Assumed: the sum's encoding is [`g1_sum`] of the two encodings, and is
/// canonical.
#[verifier::external_body]
fn g1_add_raw(a: &[u8], b: &[u8]) -> (r: Vec<u8>)
    requires
        is_g1(a@),
        is_g1(b@),
    ensures
        r@ == g1_sum(a@, b@),
        is_g1(r@),
{
    let p = G1Affine::deserialize_compressed(a).unwrap();
    let q = G1Affine::deserialize_compressed(b).unwrap();
    let mut out = Vec::new();
    (p + q).into_affine().serialize_compressed(&mut out).unwrap();
    out
}

/// Adds two points of G2 with `ark-ec` (`Affine + Affine`, then
/// `into_affine`).
///
/// Assumed: the sum's encoding is [`g2_sum`] of the two encodings, and is
/// canonical.
#[verifier::external_body]
fn g2_add_raw(a: &[u8], b: &[u8]) -> (r: Vec<u8>)
    requires
        is_g2(a@),
        is_g2(b@),
    ensures
        r@ == g2_sum(a@, b@),
        is_g2(r@),
{
    let p = G2Affine::deserialize_compressed(a).unwrap();
    let q = G2Affine::deserialize_compressed(b).unwrap();
    let mut out = Vec::new();
    (p + q).into_affine().serialize_compressed(&mut out).unwrap();
    out
}

/// Multiplies a point of G1 by a scalar with `ark-ec` (`Affine * Fr`, then
/// `into_affine`).
///
/// Assumed: the product's encoding is [`g1_scaled`] of the two encodings, and
/// is canonical.
#[verifier::external_body]
fn g1_mul_raw(point: &[u8], scalar: &[u8]) -> (r: Vec<u8>)
    requires
        is_g1(point@),
        is_scalar(scalar@),
    ensures
        r@ == g1_scaled(point@, scalar@),
        is_g1(r@),
{
    let p = G1Affine::deserialize_compressed(point).unwrap();
    let k = Fr::deserialize_compressed(scalar).unwrap();
    let mut out = Vec::new();
    (p * k).into_affine().serialize_compressed(&mut out).unwrap();
    out
}

/// Negates a point of G2 with `ark-ec` (`-Projective`, then `into_affine`).
///
/// Assumed: the inverse's encoding is [`g2_negated`] of the encoding, and is
/// canonical.
#[verifier::external_body]
fn g2_neg_raw(point: &[u8]) -> (r: Vec<u8>)
    requires
        is_g2(point@),
    ensures
        r@ == g2_negated(point@),
        is_g2(r@),
{
    let p = G2Affine::deserialize_compressed(point).unwrap();
    let mut out = Vec::new();
    (-p.into_group()).into_affine().serialize_compressed(&mut out).unwrap();
    out
}

/// Calls `Pairing::multi_miller_loop` on the two pairs and
/// `Pairing::final_exponentiation` on its result.
///
/// Assumed: the encoding of what comes out is [`pairing_product`] of the four
/// encodings.
#[verifier::external_body]
fn pairing_product_raw(p1: &[u8], q1: &[u8], p2: &[u8], q2: &[u8]) -> (r: Option<Vec<u8>>)
    requires
        is_g1(p1@),
        is_g2(q1@),
        is_g1(p2@),
        is_g2(q2@),
    ensures
        match r {
            Some(v) => pairing_product(p1@, q1@, p2@, q2@) == Some(v@),
            None => pairing_product(p1@, q1@, p2@, q2@) is None,
        },
{
    let a = G1Affine::deserialize_compressed(p1).unwrap();
    let b = G2Affine::deserialize_compressed(q1).unwrap();
    let c = G1Affine::deserialize_compressed(p2).unwrap();
    let d = G2Affine::deserialize_compressed(q2).unwrap();
    let looped = Bls12_381::multi_miller_loop([a, c], [b, d]);
    let product = Bls12_381::final_exponentiation(looped)?;
    let mut out = Vec::new();
    product.serialize_compressed(&mut out).unwrap();
    Some(out)
}

/// Calls `PairingOutput::zero`, the neutral element of the target group.
///
/// Assumed: its encoding is [`target_identity`].
#[verifier::external_body]
fn target_identity_raw() -> (r: Vec<u8>)
    ensures
        r@ == target_identity(),
{
    let mut out = Vec::new();
    PairingOutput::<Bls12_381>::zero().serialize_compressed(&mut out).unwrap();
    out
}

/// A point of G1.
#[derive(Debug)]
pub struct G1Point {
    bytes: Vec<u8>,
}

/// A point of G2.
#[derive(Debug)]
pub struct G2Point {
    bytes: Vec<u8>,
}

/// An element of the scalar field.
#[derive(Debug)]
pub struct Scalar {
    bytes: Vec<u8>,
}

impl Clone for G1Point {
    fn clone(&self) -> (r: G1Point)
        ensures
            r@ == self@,
    {
        proof {
            use_type_invariant(self);
        }
        G1Point { bytes: slice_to_vec(self.bytes.as_slice()) }
    }
}

impl View for G1Point {
    type V = Seq<u8>;

    closed spec fn view(&self) -> Seq<u8> {
        self.bytes@
    }
}

impl Clone for G2Point {
    fn clone(&self) -> (r: G2Point)
        ensures
            r@ == self@,
    {
        proof {
            use_type_invariant(self);
        }
        G2Point { bytes: slice_to_vec(self.bytes.as_slice()) }
    }
}

impl View for G2Point {
    type V = Seq<u8>;

    closed spec fn view(&self) -> Seq<u8> {
        self.bytes@
    }
}

impl Clone for Scalar {
    fn clone(&self) -> (r: Scalar)
        ensures
            r@ == self@,
    {
        proof {
            use_type_invariant(self);
        }
        Scalar { bytes: slice_to_vec(self.bytes.as_slice()) }
    }
}

impl View for Scalar {
    type V = Seq<u8>;

    closed spec fn view(&self) -> Seq<u8> {
        self.bytes@
    }
}

impl G1Point {
    #[verifier::type_invariant]
    spec fn well_formed(&self) -> bool {
        is_g1(self.bytes@)
    }

    /// Reads a point from its canonical encoding.  Any other byte string is
    /// refused: one that encodes no point of the subgroup, and one that
    /// encodes a point in another way than the canonical one.
    pub fn from_bytes(bytes: &[u8]) -> (r: Result<G1Point, SignatureError>)
        ensures
            r is Ok <==> is_g1(bytes@),
            r matches Ok(p) ==> p@ == bytes@,
            r matches Err(e) ==> e == SignatureError::DecodeError,
    {
        match g1_recode(bytes) {
            Ok(canonical) => {
                if ct_eq(canonical.as_slice(), bytes) {
                    Ok(G1Point { bytes: canonical })
                } else {
                    Err(SignatureError::DecodeError)
                }
            },
            Err(_) => Err(SignatureError::DecodeError),
        }
    }

    /// Takes the bytes that a trusted function of this crate wrote for a
    /// point.
    pub(crate) fn from_canonical(bytes: Vec<u8>) -> (r: G1Point)
        requires
            is_g1(bytes@),
        ensures
            r@ == bytes@,
    {
        G1Point { bytes }
    }

    /// The point's canonical encoding.
    pub fn as_bytes(&self) -> (r: &[u8])
        ensures
            r@ == self@,
            is_g1(r@),
    {
        proof {
            use_type_invariant(self);
        }
        self.bytes.as_slice()
    }

    /// The generator of G1.
    pub fn generator() -> (r: G1Point)
        ensures
            r@ == g1_generator(),
    {
        G1Point { bytes: g1_generator_raw() }
    }

    /// The neutral element of G1.
    pub fn identity() -> (r: G1Point)
        ensures
            r@ == g1_identity(),
    {
        G1Point { bytes: g1_identity_raw() }
    }

    /// The sum of two points.
    pub fn add(&self, other: &G1Point) -> (r: G1Point)
        ensures
            r@ == g1_sum(self@, other@),
    {
        proof {
            use_type_invariant(self);
            use_type_invariant(other);
        }
        G1Point { bytes: g1_add_raw(self.bytes.as_slice(), other.bytes.as_slice()) }
    }

    /// The point multiplied by a scalar.
    pub fn mul(&self, scalar: &Scalar) -> (r: G1Point)
        ensures
            r@ == g1_scaled(self@, scalar@),
    {
        proof {
            use_type_invariant(self);
            use_type_invariant(scalar);
        }
        G1Point { bytes: g1_mul_raw(self.bytes.as_slice(), scalar.bytes.as_slice()) }
    }

}

impl PartialEq for G1Point {
    /// Two values are equal if they are the same point.
    fn eq(&self, other: &G1Point) -> (r: bool) {
        ct_eq(self.bytes.as_slice(), other.bytes.as_slice())
    }
}

impl PartialEqSpecImpl for G1Point {
    open spec fn obeys_eq_spec() -> bool {
        true
    }

    open spec fn eq_spec(&self, other: &G1Point) -> bool {
        self@ == other@
    }
}

impl Eq for G1Point {

}

impl G2Point {
    #[verifier::type_invariant]
    spec fn well_formed(&self) -> bool {
        is_g2(self.bytes@)
    }

    /// Reads a point from its canonical encoding.  Any other byte string is
    /// refused: one that encodes no point of the subgroup, and one that
    /// encodes a point in another way than the canonical one.
    pub fn from_bytes(bytes: &[u8]) -> (r: Result<G2Point, SignatureError>)
        ensures
            r is Ok <==> is_g2(bytes@),
            r matches Ok(p) ==> p@ == bytes@,
            r matches Err(e) ==> e == SignatureError::DecodeError,
    {
        match g2_recode(bytes) {
            Ok(canonical) => {
                if ct_eq(canonical.as_slice(), bytes) {
                    Ok(G2Point { bytes: canonical })
                } else {
                    Err(SignatureError::DecodeError)
                }
            },
            Err(_) => Err(SignatureError::DecodeError),
        }
    }

    /// Takes the bytes that a trusted function of this crate wrote for a
    /// point.
    pub(crate) fn from_canonical(bytes: Vec<u8>) -> (r: G2Point)
        requires
            is_g2(bytes@),
        ensures
            r@ == bytes@,
    {
        G2Point { bytes }
    }

    /// The point's canonical encoding.
    pub fn as_bytes(&self) -> (r: &[u8])
        ensures
            r@ == self@,
            is_g2(r@),
    {
        proof {
            use_type_invariant(self);
        }
        self.bytes.as_slice()
    }

    /// The generator of G2.
    pub fn generator() -> (r: G2Point)
        ensures
            r@ == g2_generator(),
    {
        G2Point { bytes: g2_generator_raw() }
    }

    /// The neutral element of G2.
    pub fn identity() -> (r: G2Point)
        ensures
            r@ == g2_identity(),
    {
        G2Point { bytes: g2_identity_raw() }
    }

    /// The sum of two points.
    pub fn add(&self, other: &G2Point) -> (r: G2Point)
        ensures
            r@ == g2_sum(self@, other@),
    {
        proof {
            use_type_invariant(self);
            use_type_invariant(other);
        }
        G2Point { bytes: g2_add_raw(self.bytes.as_slice(), other.bytes.as_slice()) }
    }

    /// The inverse of the point.
    pub fn neg(&self) -> (r: G2Point)
        ensures
            r@ == g2_negated(self@),
    {
        proof {
            use_type_invariant(self);
        }
        G2Point { bytes: g2_neg_raw(self.bytes.as_slice()) }
    }

}

impl PartialEq for G2Point {
    /// Two values are equal if they are the same point.
    fn eq(&self, other: &G2Point) -> (r: bool) {
        ct_eq(self.bytes.as_slice(), other.bytes.as_slice())
    }
}

impl PartialEqSpecImpl for G2Point {
    open spec fn obeys_eq_spec() -> bool {
        true
    }

    open spec fn eq_spec(&self, other: &G2Point) -> bool {
        self@ == other@
    }
}

impl Eq for G2Point {

}

impl Scalar {
    #[verifier::type_invariant]
    spec fn well_formed(&self) -> bool {
        is_scalar(self.bytes@)
    }

    /// Takes the bytes that a trusted function of this crate wrote for a
    /// scalar.
    pub(crate) fn from_canonical(bytes: Vec<u8>) -> (r: Scalar)
        requires
            is_scalar(bytes@),
        ensures
            r@ == bytes@,
    {
        Scalar { bytes }
    }

    /// The scalar's canonical encoding.
    pub fn as_bytes(&self) -> (r: &[u8])
        ensures
            r@ == self@,
            is_scalar(r@),
    {
        proof {
            use_type_invariant(self);
        }
        self.bytes.as_slice()
    }
}

/// The encoding of the neutral element of the target group.
pub fn target_group_identity() -> (r: Vec<u8>)
    ensures
        r@ == target_identity(),
{
    target_identity_raw()
}

/// Tells whether `e(p1, q1) * e(p2, q2)` is the neutral element of the target
/// group, by one product of Miller loops and one final exponentiation.
pub fn pairing_product_is_identity(p1: &G1Point, q1: &G2Point, p2: &G1Point, q2: &G2Point) -> (r:
    bool)
    ensures
        r == (pairing_product(p1@, q1@, p2@, q2@) == Some(target_identity())),
{
    proof {
        use_type_invariant(p1);
        use_type_invariant(q1);
        use_type_invariant(p2);
        use_type_invariant(q2);
    }
    let product = pairing_product_raw(
        p1.bytes.as_slice(),
        q1.bytes.as_slice(),
        p2.bytes.as_slice(),
        q2.bytes.as_slice(),
    );
    let identity = target_identity_raw();
    match product {
        Some(encoded) => ct_eq(encoded.as_slice(), identity.as_slice()),
        None => false,
    }
}

} // verus!
