//! What the contracts of the library add up to.
//!
//! Each statement here relates several functions of the library and is proved
//! from the specification functions that their contracts are written in.

use vstd::prelude::*;
use vstd::std_specs::cmp::PartialEqSpec;
use vstd::string::StringSliceAdditionalSpecFns;
use vstd::utf8::{is_ascii_chars, is_ascii_chars_encode_utf8};
use crate::aggregate::{aggregate_transcript, g1_points, g1_sum_all, g2_sum_all, AggregateSignature};
use crate::curve::{g1_identity, g1_sum, g2_identity, g2_sum};
use crate::error::{verdict, SignatureError};
use crate::keys::{certification_transcript, PublicKey, PublicKeyG1, SecretKey, Signature};
use crate::transcript::{label_frame, MAX_SHORT_LABEL};

verus! {

/// The frame of a label of ordinary length ends in the label's length, so
/// two such labels with the same frame are the same label.
pub proof fn lemma_label_frame_is_injective(first: Seq<u8>, second: Seq<u8>)
    requires
        first.len() <= MAX_SHORT_LABEL,
        second.len() <= MAX_SHORT_LABEL,
        label_frame(first) == label_frame(second),
    ensures
        first == second,
{
    let frame = label_frame(first);
    assert(frame.len() == first.len() + 4);
    assert(frame.len() == second.len() + 4);
    assert(first =~= frame.subrange(0, first.len() as int));
    assert(second =~= frame.subrange(0, second.len() as int));
}

/// The labels under which public keys are certified and under which
/// aggregates are checked keep the two transcripts apart: whatever is written
/// after them, a certification transcript and an aggregation transcript never
/// hold the same bytes, so a challenge of the one is never a challenge of the
/// other.
pub proof fn lemma_transcripts_are_separated(
    agg_sig: Seq<u8>,
    agg_pk_g2: Seq<u8>,
    agg_pk_g1: Seq<u8>,
    after_certification: Seq<u8>,
    after_aggregation: Seq<u8>,
)
    ensures
        certification_transcript() + after_certification != aggregate_transcript(
            agg_sig,
            agg_pk_g2,
            agg_pk_g1,
        ) + after_aggregation,
{
    reveal_strlit("NuggetPublic");
    reveal_strlit("NuggetAggregate");
    assert(is_ascii_chars("NuggetPublic"@));
    assert(is_ascii_chars("NuggetAggregate"@));
    is_ascii_chars_encode_utf8("NuggetPublic"@);
    is_ascii_chars_encode_utf8("NuggetAggregate"@);
    // The two transcripts differ in their seventh byte: `P` in the one, `A`
    // in the other.
    let left = certification_transcript() + after_certification;
    let right = aggregate_transcript(agg_sig, agg_pk_g2, agg_pk_g1) + after_aggregation;
    assert(left[6] == "NuggetPublic"@[6] as u8);
    assert(right[6] == "NuggetAggregate"@[6] as u8);
}

/// Two secret keys that were expanded from the same seed hold the same public
/// key on G1.
pub proof fn lemma_seed_determines_secret_key(first: SecretKey, second: SecretKey)
    requires
        first@ == second@,
        first.public_key() == SecretKey::public_of(first@),
        second.public_key() == SecretKey::public_of(second@),
    ensures
        first.public_key() == second.public_key(),
{
}

/// Two public keys of the secret key of one seed have the same point on G2
/// and the same public key on G1, and so are equal, whatever their
/// certificates are.
pub proof fn lemma_seed_determines_public_key(seed: Seq<u8>, first: PublicKey, second: PublicKey)
    requires
        first.belongs_to(seed),
        second.belongs_to(seed),
    ensures
        first.g2_preoutput() == second.g2_preoutput(),
        first.g1_point() == second.g1_point(),
        first.eq_spec(&second),
{
}

/// What a secret key signs, its public key accepts: a signature that the
/// secret key of a seed made for a message under a transcript passes the
/// check of a public key of that secret key, for the same message and
/// transcript.
pub proof fn lemma_signature_is_accepted(
    seed: Seq<u8>,
    key: PublicKey,
    transcript: Seq<u8>,
    message: Seq<u8>,
    signature: Signature,
)
    requires
        key.belongs_to(seed),
        signature.signed_by(seed, transcript, message),
    ensures
        key.accepts(transcript, message, signature),
        verdict(key.accepts(transcript, message, signature)) == Ok::<(), SignatureError>(()),
{
}

/// The sum of no points is the neutral element, and the sum of one point is
/// that point added to the neutral element.
pub proof fn lemma_sum_of_few(point: Seq<u8>)
    ensures
        g1_sum_all(Seq::empty()) == g1_identity(),
        g2_sum_all(Seq::empty()) == g2_identity(),
        g1_sum_all(seq![point]) == g1_sum(g1_identity(), point),
        g2_sum_all(seq![point]) == g2_sum(g2_identity(), point),
{
    assert(seq![point].drop_last() =~= Seq::<Seq<u8>>::empty());
    reveal_with_fuel(g1_sum_all, 2);
    reveal_with_fuel(g2_sum_all, 2);
}

/// Checking an aggregate against a list of public keys on G1 gives what
/// checking it against the sum of those keys gives.
pub proof fn lemma_by_pks_is_by_aggregated(
    aggregate: AggregateSignature,
    message: Seq<u8>,
    publickeys: Seq<PublicKeyG1>,
    summed: Seq<u8>,
)
    requires
        summed == g1_sum_all(g1_points(publickeys)),
    ensures
        verdict(aggregate.accepts(message, g1_sum_all(g1_points(publickeys)))) == verdict(
            aggregate.accepts(message, summed),
        ),
{
}

} // verus!
