//! Aggregate signatures and their batched verification.
//!
//! An aggregate is the sum of the signature points of many signers on one
//! message, together with the sum of their public keys on G2.  It is checked
//! against the sum of the same signers' public keys on G1.
//!
//! Two pairing equations have to hold:
//!
//! * `e(msg, agg_pk_g2) = e(agg_sig, gen2)`: the aggregate signs the message;
//! * `e(gen1, agg_pk_g2) = e(agg_pk_g1, gen2)`: the key on G1 that the caller
//!   claims is the key on G2 that the first equation used.
//!
//! They are folded into one product of two pairings,
//! `e(msg + r*gen1, agg_pk_g2) * e(agg_sig + r*agg_pk_g1, -gen2) = 1`,
//! by a challenge `r` that is read from a transcript of the three aggregate
//! points, and of nothing else.

use vstd::prelude::*;
use vstd::slice::slice_subrange;
use vstd::string::StringSliceAdditionalSpecFns;
use crate::bytes::join;
use crate::curve::{
    g1_generator, g1_identity, g1_scaled, g1_sum, g2_generator, g2_identity, g2_negated, g2_sum,
    is_g1, is_g2, pairing_product, pairing_product_is_identity, target_identity, G1Point, G2Point,
    G1_LEN,
};
use crate::error::{verdict, SignatureError, SignatureResult};
use crate::keys::{PublicKey, PublicKeyG1, Signature};
use crate::transcript::{challenge_scalar, g1_frame, label_frame, pair_frame, Transcript};
use crate::vrf::{message_point, message_to_g1, thin_vrf};

verus! {

/// The length of the encoding of an aggregate signature: its point on G1,
/// then its point on G2.
pub const AGGREGATE_LEN: usize = 144;

/// The sum of a list of points of G1, taken from the left, starting from the
/// neutral element.
pub open spec fn g1_sum_all(points: Seq<Seq<u8>>) -> Seq<u8>
    decreases points.len(),
{
    if points.len() == 0 {
        g1_identity()
    } else {
        g1_sum(g1_sum_all(points.drop_last()), points.last())
    }
}

/// The sum of a list of points of G2, taken from the left, starting from the
/// neutral element.
pub open spec fn g2_sum_all(points: Seq<Seq<u8>>) -> Seq<u8>
    decreases points.len(),
{
    if points.len() == 0 {
        g2_identity()
    } else {
        g2_sum(g2_sum_all(points.drop_last()), points.last())
    }
}

/// The signature points of a list of signatures.
pub open spec fn signature_points(signatures: Seq<Signature>) -> Seq<Seq<u8>> {
    signatures.map_values(|s: Signature| s.preoutput())
}

/// The points on G2 of a list of public keys.
pub open spec fn g2_points(publickeys: Seq<PublicKey>) -> Seq<Seq<u8>> {
    publickeys.map_values(|k: PublicKey| k.g2_preoutput())
}

/// The points of a list of public keys on G1.
pub open spec fn g1_points(publickeys: Seq<PublicKeyG1>) -> Seq<Seq<u8>> {
    publickeys.map_values(|k: PublicKeyG1| k@)
}

/// Every key of the list certifies itself.
pub open spec fn all_certified(publickeys: Seq<PublicKey>) -> bool {
    forall|i: int| 0 <= i < publickeys.len() ==> (#[trigger] publickeys[i]).certified()
}

/// What the verifier's transcript holds when the challenge is read: the
/// protocol's label, then the aggregate itself, then the aggregate public key
/// on G1 that it is checked against.  The message is not part of it.
pub open spec fn aggregate_transcript(agg_sig: Seq<u8>, agg_pk_g2: Seq<u8>, agg_pk_g1: Seq<u8>) -> Seq<
    u8,
> {
    label_frame("NuggetAggregate".spec_bytes()) + label_frame("g2+sig".spec_bytes()) + pair_frame(
        agg_sig,
        agg_pk_g2,
    ) + label_frame("g1".spec_bytes()) + g1_frame(agg_pk_g1)
}

/// The challenge that folds the two pairing equations into one.
pub open spec fn aggregate_challenge(agg_sig: Seq<u8>, agg_pk_g2: Seq<u8>, agg_pk_g1: Seq<u8>) -> Seq<
    u8,
> {
    challenge_scalar(aggregate_transcript(agg_sig, agg_pk_g2, agg_pk_g1), "r".spec_bytes())
}

/// The batched check: with `r` the challenge,
/// `e(msg + r*gen1, agg_pk_g2) * e(agg_sig + r*agg_pk_g1, -gen2)` is the
/// neutral element of the target group.
pub open spec fn aggregate_accepts(
    agg_sig: Seq<u8>,
    agg_pk_g2: Seq<u8>,
    message: Seq<u8>,
    agg_pk_g1: Seq<u8>,
) -> bool {
    let r = aggregate_challenge(agg_sig, agg_pk_g2, agg_pk_g1);
    pairing_product(
        g1_sum(message_point(message), g1_scaled(g1_generator(), r)),
        agg_pk_g2,
        g1_sum(agg_sig, g1_scaled(agg_pk_g1, r)),
        g2_negated(g2_generator()),
    ) == Some(target_identity())
}

/// A list's sum with one more point is the list's sum plus that point.
pub proof fn lemma_g1_sum_all_push(points: Seq<Seq<u8>>, point: Seq<u8>)
    ensures
        g1_sum_all(points.push(point)) == g1_sum(g1_sum_all(points), point),
{
    assert(points.push(point).drop_last() =~= points);
}

/// A list's sum with one more point is the list's sum plus that point.
pub proof fn lemma_g2_sum_all_push(points: Seq<Seq<u8>>, point: Seq<u8>)
    ensures
        g2_sum_all(points.push(point)) == g2_sum(g2_sum_all(points), point),
{
    assert(points.push(point).drop_last() =~= points);
}

/// The inverse of the generator of G2, the fixed second argument of the
/// batched check.
fn g2_minus_generator() -> (r: G2Point)
    ensures
        r@ == g2_negated(g2_generator()),
{
    G2Point::generator().neg()
}

/// The sum of the signature points of a list of signatures.
fn sum_signature_points(signatures: &[Signature]) -> (r: G1Point)
    ensures
        r@ == g1_sum_all(signature_points(signatures@)),
{
    let ghost points = signature_points(signatures@);
    let mut sum = G1Point::identity();
    let mut i: usize = 0;
    while i < signatures.len()
        invariant
            i <= signatures.len(),
            points == signature_points(signatures@),
            sum@ == g1_sum_all(points.take(i as int)),
        decreases signatures.len() - i,
    {
        proof {
            assert(points.take(i + 1) =~= points.take(i as int).push(points[i as int]));
            lemma_g1_sum_all_push(points.take(i as int), points[i as int]);
        }
        sum = sum.add(signatures[i].as_point());
        i += 1;
    }
    assert(points.take(i as int) =~= points);
    sum
}

/// The sum of the points on G2 of a list of public keys.
fn sum_g2_points(publickeys: &[PublicKey]) -> (r: G2Point)
    ensures
        r@ == g2_sum_all(g2_points(publickeys@)),
{
    let ghost points = g2_points(publickeys@);
    let mut sum = G2Point::identity();
    let mut i: usize = 0;
    while i < publickeys.len()
        invariant
            i <= publickeys.len(),
            points == g2_points(publickeys@),
            sum@ == g2_sum_all(points.take(i as int)),
        decreases publickeys.len() - i,
    {
        proof {
            assert(points.take(i + 1) =~= points.take(i as int).push(points[i as int]));
            lemma_g2_sum_all_push(points.take(i as int), points[i as int]);
        }
        sum = sum.add(publickeys[i].as_g2_point());
        i += 1;
    }
    assert(points.take(i as int) =~= points);
    sum
}

/// The sum of a list of public keys on G1.
pub fn sum_g1_publickeys(publickeys: &[PublicKeyG1]) -> (r: G1Point)
    ensures
        r@ == g1_sum_all(g1_points(publickeys@)),
{
    let ghost points = g1_points(publickeys@);
    let mut sum = G1Point::identity();
    let mut i: usize = 0;
    while i < publickeys.len()
        invariant
            i <= publickeys.len(),
            points == g1_points(publickeys@),
            sum@ == g1_sum_all(points.take(i as int)),
        decreases publickeys.len() - i,
    {
        proof {
            assert(points.take(i + 1) =~= points.take(i as int).push(points[i as int]));
            lemma_g1_sum_all_push(points.take(i as int), points[i as int]);
        }
        sum = sum.add(&publickeys[i].0);
        i += 1;
    }
    assert(points.take(i as int) =~= points);
    sum
}

/// The sum of the signatures of many signers on one message, with the sum of
/// the signers' public keys on G2.  It carries no proof of its own.
#[derive(Debug)]
pub struct AggregateSignature {
    agg_sig: G1Point,
    agg_pk_g2: G2Point,
}

impl Clone for AggregateSignature {
    fn clone(&self) -> (r: AggregateSignature)
        ensures
            r@ == self@,
    {
        AggregateSignature { agg_sig: self.agg_sig.clone(), agg_pk_g2: self.agg_pk_g2.clone() }
    }
}

impl View for AggregateSignature {
    type V = Seq<u8>;

    /// The aggregate's encoding.
    open spec fn view(&self) -> Seq<u8> {
        self.agg_sig() + self.agg_pk_g2()
    }
}

/// `bytes` is the encoding of an aggregate signature.
pub open spec fn is_aggregate(bytes: Seq<u8>) -> bool {
    &&& bytes.len() == AGGREGATE_LEN
    &&& is_g1(bytes.subrange(0, G1_LEN as int))
    &&& is_g2(bytes.subrange(G1_LEN as int, AGGREGATE_LEN as int))
}

impl AggregateSignature {
    /// The encoding of the sum of the signature points.
    pub closed spec fn agg_sig(&self) -> Seq<u8> {
        self.agg_sig@
    }

    /// The encoding of the sum of the public keys on G2.
    pub closed spec fn agg_pk_g2(&self) -> Seq<u8> {
        self.agg_pk_g2@
    }

    /// The aggregate is accepted for the message against the aggregate public
    /// key on G1.
    pub open spec fn accepts(&self, message: Seq<u8>, agg_pk_g1: Seq<u8>) -> bool {
        aggregate_accepts(self.agg_sig(), self.agg_pk_g2(), message, agg_pk_g1)
    }

    /// The aggregate made of a sum of signature points and a sum of public
    /// keys on G2.
    pub fn new(agg_sig: G1Point, agg_pk_g2: G2Point) -> (r: AggregateSignature)
        ensures
            r.agg_sig() == agg_sig@,
            r.agg_pk_g2() == agg_pk_g2@,
    {
        AggregateSignature { agg_sig, agg_pk_g2 }
    }

    /// The sum of the signature points.
    pub fn as_signature_point(&self) -> (r: &G1Point)
        ensures
            r@ == self.agg_sig(),
    {
        &self.agg_sig
    }

    /// The sum of the public keys on G2.
    pub fn as_g2_point(&self) -> (r: &G2Point)
        ensures
            r@ == self.agg_pk_g2(),
    {
        &self.agg_pk_g2
    }

    /// Aggregates the signatures of signers whose public keys have each been
    /// validated.  The two lists go together item by item, so they must have
    /// the same length; no key and no signature is checked here.
    pub fn create(publickeys: &[PublicKey], signatures: &[Signature]) -> (r: Result<
        AggregateSignature,
        SignatureError,
    >)
        requires
            all_certified(publickeys@),
        ensures
            r is Ok <==> publickeys@.len() == signatures@.len(),
            r matches Ok(agg) ==> {
                &&& agg.agg_sig() == g1_sum_all(signature_points(signatures@))
                &&& agg.agg_pk_g2() == g2_sum_all(g2_points(publickeys@))
            },
            r matches Err(e) ==> e == SignatureError::LengthMismatch,
    {
        if publickeys.len() != signatures.len() {
            return Err(SignatureError::LengthMismatch);
        }
        let agg_sig = sum_signature_points(signatures);
        let agg_pk_g2 = sum_g2_points(publickeys);
        Ok(AggregateSignature::new(agg_sig, agg_pk_g2))
    }

    /// Validates every public key, then aggregates.  A key that does not
    /// certify itself makes the whole aggregation fail.
    pub fn create_validated(publickeys: &[PublicKey], signatures: &[Signature]) -> (r: Result<
        AggregateSignature,
        SignatureError,
    >)
        ensures
            r is Ok <==> publickeys@.len() == signatures@.len() && all_certified(publickeys@),
            r matches Ok(agg) ==> {
                &&& agg.agg_sig() == g1_sum_all(signature_points(signatures@))
                &&& agg.agg_pk_g2() == g2_sum_all(g2_points(publickeys@))
            },
            r matches Err(e) ==> e == (if publickeys@.len() != signatures@.len() {
                SignatureError::LengthMismatch
            } else {
                SignatureError::Invalid
            }),
    {
        if publickeys.len() != signatures.len() {
            return Err(SignatureError::LengthMismatch);
        }
        let mut i: usize = 0;
        while i < publickeys.len()
            invariant
                i <= publickeys.len(),
                publickeys@.len() == signatures@.len(),
                all_certified(publickeys@.take(i as int)),
            decreases publickeys.len() - i,
        {
            if publickeys[i].validate_nugget_public().is_err() {
                return Err(SignatureError::Invalid);
            }
            i += 1;
        }
        assert(publickeys@.take(i as int) =~= publickeys@);
        AggregateSignature::create(publickeys, signatures)
    }

    /// Checks the aggregate for a message against the sum of the signers'
    /// public keys on G1, which the caller may have kept from before.
    ///
    /// The challenge is read after both aggregates and the claimed key are
    /// fixed, and is bound to them alone.
    pub fn verify_by_aggregated(&self, message: &[u8], agg_pk_g1: &G1Point) -> (r: SignatureResult<()>)
        ensures
            r == verdict(self.accepts(message@, agg_pk_g1@)),
    {
        let mut t = Transcript::new("NuggetAggregate".as_bytes());
        t.label("g2+sig".as_bytes());
        t.append_pair(&self.agg_sig, &self.agg_pk_g2);
        t.label("g1".as_bytes());
        t.append_g1(agg_pk_g1);
        let r = t.challenge("r".as_bytes());

        // e(msg + r * g1_gen, agg_pk_g2) * e(agg_sig + r * agg_pk_g1, -g2_gen) == 1
        let left = message_to_g1(message).add(&thin_vrf().keying_base.mul(&r));
        let right = self.agg_sig.add(&agg_pk_g1.mul(&r));
        if pairing_product_is_identity(&left, &self.agg_pk_g2, &right, &g2_minus_generator()) {
            Ok(())
        } else {
            Err(SignatureError::Invalid)
        }
    }

    /// Checks the aggregate for a message against the signers' public keys on
    /// G1: sums them, then checks against the sum.
    pub fn verify_by_pks(&self, message: &[u8], publickeys: &[PublicKeyG1]) -> (r: SignatureResult<()>)
        ensures
            r == verdict(self.accepts(message@, g1_sum_all(g1_points(publickeys@)))),
    {
        let agg_pk_g1 = sum_g1_publickeys(publickeys);
        self.verify_by_aggregated(message, &agg_pk_g1)
    }

    /// The aggregate's encoding: the point on G1, then the point on G2.
    pub fn to_bytes(&self) -> (r: Vec<u8>)
        ensures
            r@ == self@,
            is_aggregate(r@),
    {
        let r = join(self.agg_sig.as_bytes(), self.agg_pk_g2.as_bytes());
        assert(r@.subrange(0, G1_LEN as int) =~= self.agg_sig@);
        assert(r@.subrange(G1_LEN as int, AGGREGATE_LEN as int) =~= self.agg_pk_g2@);
        r
    }

    /// Reads an aggregate from its encoding.  Any other byte string is
    /// refused.
    pub fn from_bytes(bytes: &[u8]) -> (r: Result<AggregateSignature, SignatureError>)
        ensures
            r is Ok <==> is_aggregate(bytes@),
            r matches Ok(agg) ==> agg@ == bytes@,
            r matches Err(e) ==> e == SignatureError::DecodeError,
    {
        if bytes.len() != AGGREGATE_LEN {
            return Err(SignatureError::DecodeError);
        }
        let agg_sig = match G1Point::from_bytes(slice_subrange(bytes, 0, G1_LEN)) {
            Ok(point) => point,
            Err(e) => { return Err(e); },
        };
        let agg_pk_g2 = match G2Point::from_bytes(slice_subrange(bytes, G1_LEN, AGGREGATE_LEN)) {
            Ok(point) => point,
            Err(e) => { return Err(e); },
        };
        assert(agg_sig@ + agg_pk_g2@ =~= bytes@);
        Ok(AggregateSignature::new(agg_sig, agg_pk_g2))
    }
}

} // verus!
