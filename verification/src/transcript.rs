//! Fiat-Shamir transcripts.
//!
//! A transcript is the byte string that has been written to it: every label
//! and every value comes framed by `ark-transcript`, and a challenge is read
//! from the hash of all that was written before it.  Holding the bytes, and
//! not the running hash, lets a contract say exactly which values a challenge
//! is bound to.

use vstd::prelude::*;
use vstd::slice::slice_to_vec;
use ark_bls12_381::{Fr, G1Affine, G2Affine};
use ark_serialize::{CanonicalDeserialize, CanonicalSerialize};
use dleq_vrf::transcript::IsLabel;
use crate::curve::{
    is_g1, is_g2, scalar_canonical_form, G1Point, G2Point, Scalar, SCALAR_LEN,
};

verus! {

/// The longest label that `ark-transcript` writes in one piece.
pub const MAX_SHORT_LABEL: usize = 0x7fff_ffff;

/// The four bytes of a number below `2^32`, most significant first.
pub open spec fn be32(n: int) -> Seq<u8> {
    seq![
        ((n / 0x100_0000) % 0x100) as u8,
        ((n / 0x1_0000) % 0x100) as u8,
        ((n / 0x100) % 0x100) as u8,
        (n % 0x100) as u8,
    ]
}

/// The bytes that `ark-transcript` writes for a domain-separation label that
/// is longer than [`MAX_SHORT_LABEL`], which it cuts into pieces.
pub uninterp spec fn long_label_frame(label: Seq<u8>) -> Seq<u8>;

/// The bytes that `ark-transcript` writes for a domain-separation label: the
/// label, then its length in four bytes.
pub open spec fn label_frame(label: Seq<u8>) -> Seq<u8> {
    if label.len() <= MAX_SHORT_LABEL {
        label + be32(label.len() as int)
    } else {
        long_label_frame(label)
    }
}

/// The bytes that `ark-transcript` writes when the point of G1 encoded by
/// `point` is appended: the point's uncompressed encoding, then its length.
pub uninterp spec fn g1_frame(point: Seq<u8>) -> Seq<u8>;

/// The bytes that `ark-transcript` writes when a point of G1 and a point of
/// G2 are appended as one value: their uncompressed encodings, one after the
/// other, then the length of both.
pub uninterp spec fn pair_frame(first: Seq<u8>, second: Seq<u8>) -> Seq<u8>;

/// The encoding of the scalar that `ark-transcript` samples for the challenge
/// `label` from a transcript that holds `written`.
pub uninterp spec fn challenge_scalar(written: Seq<u8>, label: Seq<u8>) -> Seq<u8>;

/// Calls `Transcript::label` on an empty accumulating transcript and takes
/// what was accumulated.
///
/// Assumed: for a label of at most [`MAX_SHORT_LABEL`] bytes these are the
/// label and then its length, most significant byte first; for a longer one
/// they are [`long_label_frame`] of the label.
#[verifier::external_body]
fn label_frame_raw(label: &[u8]) -> (r: Vec<u8>)
    ensures
        label@.len() <= MAX_SHORT_LABEL ==> r@ == label@ + be32(label@.len() as int),
        label@.len() > MAX_SHORT_LABEL ==> r@ == long_label_frame(label@),
{
    let mut t = dleq_vrf::Transcript::new_blank_accumulator();
    t.label(IsLabel(label));
    t.accumulator_finalize()
}

/// Calls `Transcript::append` with a point of G1 on an empty accumulating
/// transcript and takes what was accumulated.
///
/// Assumed: these bytes are [`g1_frame`] of the point's encoding.
#[verifier::external_body]
fn g1_frame_raw(point: &[u8]) -> (r: Vec<u8>)
    requires
        is_g1(point@),
    ensures
        r@ == g1_frame(point@),
{
    let p = G1Affine::deserialize_compressed(point).unwrap();
    let mut t = dleq_vrf::Transcript::new_blank_accumulator();
    t.append(&p);
    t.accumulator_finalize()
}

/// Calls `Transcript::append` with a pair of a point of G1 and a point of G2
/// on an empty accumulating transcript and takes what was accumulated.
///
/// Assumed: these bytes are [`pair_frame`] of the two encodings.
#[verifier::external_body]
fn pair_frame_raw(first: &[u8], second: &[u8]) -> (r: Vec<u8>)
    requires
        is_g1(first@),
        is_g2(second@),
    ensures
        r@ == pair_frame(first@, second@),
{
    let p = G1Affine::deserialize_compressed(first).unwrap();
    let q = G2Affine::deserialize_compressed(second).unwrap();
    let mut t = dleq_vrf::Transcript::new_blank_accumulator();
    t.append(&(p, q));
    t.accumulator_finalize()
}

/// Calls `Transcript::from_accumulation` on the bytes written so far, then
/// `Transcript::challenge` and `Reader::read_uniform` for a scalar.
///
/// Assumed: the scalar's encoding is [`challenge_scalar`] of the bytes and
/// the label, and is canonical.
#[verifier::external_body]
fn challenge_scalar_raw(written: &[u8], label: &[u8]) -> (r: Vec<u8>)
    ensures
        r@ == challenge_scalar(written@, label@),
        r@.len() == SCALAR_LEN,
        scalar_canonical_form(r@) == Some(r@),
{
    let mut t = dleq_vrf::Transcript::from_accumulation(written);
    let k: Fr = t.challenge(IsLabel(label)).read_uniform();
    let mut out = Vec::new();
    k.serialize_compressed(&mut out).unwrap();
    out
}

/// A Fiat-Shamir transcript: what has been written so far.
#[derive(Debug)]
pub struct Transcript {
    written: Vec<u8>,
}

impl Clone for Transcript {
    fn clone(&self) -> (t: Transcript)
        ensures
            t@ == self@,
    {
        Transcript { written: slice_to_vec(self.written.as_slice()) }
    }
}

impl View for Transcript {
    type V = Seq<u8>;

    closed spec fn view(&self) -> Seq<u8> {
        self.written@
    }
}

impl Transcript {
    /// A transcript that starts with a domain label.
    pub fn new(label: &[u8]) -> (t: Transcript)
        ensures
            t@ == label_frame(label@),
    {
        Transcript { written: label_frame_raw(label) }
    }

    /// A transcript that holds what was accumulated elsewhere.
    pub fn from_accumulation(written: Vec<u8>) -> (t: Transcript)
        ensures
            t@ == written@,
    {
        Transcript { written }
    }

    /// The bytes written so far.
    pub fn as_bytes(&self) -> (r: &[u8])
        ensures
            r@ == self@,
    {
        self.written.as_slice()
    }

    /// Writes a domain-separation label.
    pub fn label(&mut self, label: &[u8])
        ensures
            final(self)@ == old(self)@ + label_frame(label@),
    {
        let frame = label_frame_raw(label);
        self.written.extend_from_slice(frame.as_slice());
        assert(self.written@ =~= old(self).written@ + frame@);
    }

    /// Writes a point of G1.
    pub fn append_g1(&mut self, point: &G1Point)
        ensures
            final(self)@ == old(self)@ + g1_frame(point@),
    {
        let frame = g1_frame_raw(point.as_bytes());
        self.written.extend_from_slice(frame.as_slice());
        assert(self.written@ =~= old(self).written@ + frame@);
    }

    /// Writes a point of G1 and a point of G2 as one value.
    pub fn append_pair(&mut self, first: &G1Point, second: &G2Point)
        ensures
            final(self)@ == old(self)@ + pair_frame(first@, second@),
    {
        let frame = pair_frame_raw(first.as_bytes(), second.as_bytes());
        self.written.extend_from_slice(frame.as_slice());
        assert(self.written@ =~= old(self).written@ + frame@);
    }

    /// Reads a scalar challenge, bound to everything written so far and to
    /// `label`.  The label is then part of the transcript.
    pub fn challenge(&mut self, label: &[u8]) -> (r: Scalar)
        ensures
            r@ == challenge_scalar(old(self)@, label@),
            final(self)@ == old(self)@ + label_frame(label@),
    {
        let encoded = challenge_scalar_raw(self.written.as_slice(), label);
        let frame = label_frame_raw(label);
        self.written.extend_from_slice(frame.as_slice());
        assert(self.written@ =~= old(self).written@ + frame@);
        Scalar::from_canonical(encoded)
    }
}

} // verus!
