use std::collections::hash_map::DefaultHasher;
use std::hash::{Hash, Hasher};

use ark_bls12_381::{G1Affine, G2Affine};
use ark_ec::AffineRepr;
use ark_serialize::{CanonicalDeserialize, CanonicalSerialize};
use dleq_vrf::{IntoVrfInput, VrfInOut, VrfInput, VrfPreOut};
use nugget_bls::curve::{G1Point, G2Point};
use nugget_bls::error::SignatureError;
use nugget_bls::keys::{PublicKey, PublicKeyG1, SecretKey, Signature, PUBLIC_KEY_LEN, SIGNATURE_LEN};
use nugget_bls::transcript::Transcript;
use nugget_bls::vrf::{
    message_to_g1, pedersen_vrf, thin_vrf, PedersenProof, ThinProof, PEDERSEN_PROOF_LEN,
    THIN_PROOF_LEN,
};

const HELLO_POINT: &str = "ab1c364658d9df13a8defc3f76b6a089bbfaab9c0ad4c0899bb506d0d8a92dae82c0ec8d67962d6242f758b135ee3574";
const SEED_ONE_G1: &str = "998e0796558547ad0c4cb65592b02d5d7edd7bdec5f3db0076c0797e2ce18f62ab005177c4e44fa6454d9ba4384cfa41";
const SEED_ONE_G2: &str = "852eecd7d4267869610fec191d689bc082ebef54eaca3135774d534136b020a862c9d85e1104a8c892068ab56ec3e783167815f82dc9024f8c387002a018aa536a91ab1b5619e83e4f5bb10dc9aac67b1d6cf81532a5d2002044d13bd2fe48e4";
const SEED_ONE_HELLO: &str = "940a20df70e11b3d7daadb51c8e0780b9986a7a30267c69b8656a7ea4c765d341c6723e1df0c5441be16bc571c726b74";

fn hex_bytes(text: &str) -> Vec<u8> {
    let digits: Vec<u8> = text.bytes().map(|c| (c as char).to_digit(16).unwrap() as u8).collect();
    digits.chunks(2).map(|pair| pair[0] * 16 + pair[1]).collect()
}

fn compressed<T: CanonicalSerialize>(value: &T) -> Vec<u8> {
    let mut out = Vec::new();
    value.serialize_compressed(&mut out).unwrap();
    out
}

fn hash_of(key: &PublicKey) -> u64 {
    let mut hasher = DefaultHasher::new();
    key.hash(&mut hasher);
    hasher.finish()
}

#[test]
fn flavours_are_keyed_at_the_generator() {
    assert_eq!(thin_vrf().keying_base, G1Point::generator());
    assert_eq!(pedersen_vrf().keying_base, G1Point::generator());
    assert_eq!(thin_vrf().clone().keying_base, G1Point::generator());
    assert_eq!(THIN_PROOF_LEN, 80);
    assert_eq!(PEDERSEN_PROOF_LEN, 112);
    assert_eq!(PUBLIC_KEY_LEN, 208);
    assert_eq!(SIGNATURE_LEN, 128);
}

#[test]
fn message_to_g1_of_a_fixed_message() {
    assert_eq!(message_to_g1(b"hello").as_bytes(), hex_bytes(HELLO_POINT).as_slice());
    assert_ne!(message_to_g1(b"hellp"), message_to_g1(b"hello"));
    assert_ne!(message_to_g1(b""), message_to_g1(b"hello"));
}

#[test]
fn message_to_g1_agrees_with_the_vrf_library() {
    let message: &[u8] = b"some message";
    let input: VrfInput<G1Affine> = message.into_vrf_input();
    assert_eq!(message_to_g1(message).as_bytes(), compressed(&input.0).as_slice());
}

#[test]
fn from_seed_gives_the_key_of_the_seed() {
    let sk = SecretKey::from_seed([1; 32]);
    assert_eq!(sk.as_g1_publickey().0.as_bytes(), hex_bytes(SEED_ONE_G1).as_slice());
    let thin = dleq_vrf::ThinVrf { keying_base: G1Affine::generator() };
    let expected = dleq_vrf::SecretKey::from_seed(thin, [1; 32]);
    assert_eq!(sk.as_g1_publickey().0.as_bytes(), compressed(&expected.as_publickey().0).as_slice());
}

#[test]
fn from_seed_is_deterministic() {
    let first = SecretKey::from_seed([7; 32]);
    let second = SecretKey::from_seed([7; 32]);
    assert_eq!(first.as_g1_publickey(), second.as_g1_publickey());
    let pk_first = first.create_nugget_public();
    let pk_second = second.create_nugget_public();
    assert_eq!(pk_first.as_g2_point(), pk_second.as_g2_point());
    assert_eq!(pk_first.as_g1_point(), pk_second.as_g1_point());
    assert_eq!(pk_first.validate_nugget_public(), Ok(()));
    assert_eq!(pk_second.validate_nugget_public(), Ok(()));
    assert_eq!(pk_first, pk_second);
    assert_eq!(hash_of(&pk_first), hash_of(&pk_second));
}

#[test]
fn different_seeds_give_different_keys() {
    let first = SecretKey::from_seed([1; 32]).create_nugget_public();
    let second = SecretKey::from_seed([2; 32]).create_nugget_public();
    assert_ne!(first, second);
    assert_ne!(first.as_g2_point(), second.as_g2_point());
    assert_ne!(first.as_g1_point(), second.as_g1_point());
}

#[test]
fn clone_keeps_the_secret_key() {
    let sk = SecretKey::from_seed([9; 32]);
    let copy = sk.clone();
    assert_eq!(copy.as_g1_publickey(), sk.as_g1_publickey());
    assert_eq!(copy.create_nugget_public(), sk.create_nugget_public());
}

#[test]
fn ephemeral_keys_are_fresh_and_valid() {
    let first = SecretKey::ephemeral();
    let second = SecretKey::ephemeral();
    assert_ne!(first.as_g1_publickey(), second.as_g1_publickey());
    let pk = first.create_nugget_public();
    assert_eq!(pk.validate_nugget_public(), Ok(()));
    assert_eq!(&pk.to_g1_publickey(), first.as_g1_publickey());
}

#[test]
fn public_key_carries_the_points_of_the_secret_key() {
    let sk = SecretKey::from_seed([1; 32]);
    let pk = sk.create_nugget_public();
    assert_eq!(pk.as_g2_point().as_bytes(), hex_bytes(SEED_ONE_G2).as_slice());
    assert_eq!(pk.as_g1_point().as_bytes(), hex_bytes(SEED_ONE_G1).as_slice());
    assert_eq!(&pk.to_g1_publickey(), sk.as_g1_publickey());
    assert_eq!(pk.to_g1_publickey().0, *pk.as_g1_point());
    assert_eq!(pk.to_g1_publickey().clone(), PublicKeyG1(pk.as_g1_point().clone()));
}

#[test]
fn certified_key_validates() {
    for seed in [[0u8; 32], [1; 32], [2; 32], [255; 32]] {
        let pk = SecretKey::from_seed(seed).create_nugget_public();
        assert_eq!(pk.validate_nugget_public(), Ok(()));
        assert_eq!(pk.validate_public_cert(&Transcript::new(b"NuggetPublic")), Ok(()));
    }
}

#[test]
fn certificate_is_bound_to_its_transcript() {
    let sk = SecretKey::from_seed([1; 32]);
    let pk = sk.create_public_cert(&Transcript::new(b"MyContext"));
    assert_eq!(pk.validate_public_cert(&Transcript::new(b"MyContext")), Ok(()));
    assert_eq!(pk.validate_nugget_public(), Err(SignatureError::Invalid));
    let nugget = sk.create_nugget_public();
    assert_eq!(
        nugget.validate_public_cert(&Transcript::new(b"MyContext")),
        Err(SignatureError::Invalid)
    );
}

#[test]
fn certificate_of_another_point_is_invalid() {
    let first = SecretKey::from_seed([1; 32]).create_nugget_public().to_bytes();
    let second = SecretKey::from_seed([2; 32]).create_nugget_public().to_bytes();
    let mut mixed = first[..96].to_vec();
    mixed.extend_from_slice(&second[96..]);
    let forged = PublicKey::from_bytes(&mixed).unwrap();
    assert_eq!(forged.validate_nugget_public(), Err(SignatureError::Invalid));
}

#[test]
fn certificate_is_accepted_by_the_vrf_library() {
    let pk = SecretKey::from_seed([5; 32]).create_nugget_public();
    let bytes = pk.to_bytes();
    let g2 = VrfPreOut(G2Affine::deserialize_compressed(&bytes[..96]).unwrap());
    let proof = dleq_vrf::NonBatchableSignature::<dleq_vrf::PedersenVrf<G1Affine, G2Affine, 0>>::deserialize_compressed(&bytes[96..]).unwrap();
    let flavor = dleq_vrf::PedersenVrf::<G1Affine, G2Affine, 0>::new(G1Affine::generator(), []);
    let io = VrfInOut { input: VrfInput(G2Affine::generator()), preoutput: g2 };
    assert!(flavor
        .verify_non_batchable_pedersen_vrf(dleq_vrf::Transcript::new(b"NuggetPublic"), &[io], &proof)
        .is_ok());
    assert_eq!(compressed(&proof.to_publickey().0), pk.as_g1_point().as_bytes());
}

#[test]
fn signature_point_is_the_message_point_times_the_secret() {
    let sk = SecretKey::from_seed([1; 32]);
    let first = sk.sign_nugget_bls(&Transcript::new(b"test"), b"hello");
    let second = sk.sign_nugget_bls(&Transcript::new(b"other"), b"hello");
    assert_eq!(first.as_point().as_bytes(), hex_bytes(SEED_ONE_HELLO).as_slice());
    assert_eq!(second.as_point(), first.as_point());
    assert_ne!(first.as_point(), &message_to_g1(b"hello"));
    let other = sk.sign_nugget_bls(&Transcript::new(b"test"), b"hellp");
    assert_ne!(other.as_point(), first.as_point());
}

#[test]
fn signature_verifies() {
    for seed in [[0u8; 32], [1; 32], [200; 32]] {
        let sk = SecretKey::from_seed(seed);
        let pk = sk.create_nugget_public();
        for message in [&b""[..], &b"hello"[..], &b"a longer message, with punctuation."[..]] {
            let sig = sk.sign_nugget_bls(&Transcript::new(b"test"), message);
            assert_eq!(pk.verify_nugget_bls(&Transcript::new(b"test"), message, &sig), Ok(()));
            assert_eq!(pk.verify_nugget_bls(&Transcript::new(b"test"), message, &sig.clone()), Ok(()));
        }
    }
}

#[test]
fn signature_is_accepted_by_the_vrf_library() {
    let sk = SecretKey::from_seed([3; 32]);
    let sig = sk.sign_nugget_bls(&Transcript::new(b"test"), b"hello").to_bytes();
    let preoutput = VrfPreOut(G1Affine::deserialize_compressed(&sig[..48]).unwrap());
    let proof = dleq_vrf::Signature::<dleq_vrf::ThinVrf<G1Affine>>::deserialize_compressed(&sig[48..]).unwrap();
    let public = dleq_vrf::PublicKey(
        G1Affine::deserialize_compressed(sk.as_g1_publickey().0.as_bytes()).unwrap(),
    );
    let thin = dleq_vrf::ThinVrf { keying_base: G1Affine::generator() };
    let message: &[u8] = b"hello";
    let io = preoutput.attach_input(message);
    assert!(thin.verify_thin_vrf(dleq_vrf::Transcript::new(b"test"), &[io], &public, &proof).is_ok());
}

#[test]
fn signature_on_another_message_is_invalid() {
    let sk = SecretKey::from_seed([1; 32]);
    let pk = sk.create_nugget_public();
    let sig = sk.sign_nugget_bls(&Transcript::new(b"test"), b"hello");
    assert_eq!(
        pk.verify_nugget_bls(&Transcript::new(b"test"), b"hellp", &sig),
        Err(SignatureError::Invalid)
    );
    assert_eq!(
        pk.verify_nugget_bls(&Transcript::new(b"test"), b"", &sig),
        Err(SignatureError::Invalid)
    );
}

#[test]
fn signature_under_another_transcript_is_invalid() {
    let sk = SecretKey::from_seed([1; 32]);
    let pk = sk.create_nugget_public();
    let sig = sk.sign_nugget_bls(&Transcript::new(b"test"), b"hello");
    assert_eq!(
        pk.verify_nugget_bls(&Transcript::new(b"tesu"), b"hello", &sig),
        Err(SignatureError::Invalid)
    );
}

#[test]
fn signature_of_another_key_is_invalid() {
    let signer = SecretKey::from_seed([1; 32]);
    let other = SecretKey::from_seed([2; 32]).create_nugget_public();
    let sig = signer.sign_nugget_bls(&Transcript::new(b"test"), b"hello");
    assert_eq!(
        other.verify_nugget_bls(&Transcript::new(b"test"), b"hello", &sig),
        Err(SignatureError::Invalid)
    );
}

#[test]
fn signature_with_another_point_is_invalid() {
    let sk = SecretKey::from_seed([1; 32]);
    let pk = sk.create_nugget_public();
    let hello = sk.sign_nugget_bls(&Transcript::new(b"test"), b"hello").to_bytes();
    let world = sk.sign_nugget_bls(&Transcript::new(b"test"), b"world").to_bytes();
    let mut mixed = world[..48].to_vec();
    mixed.extend_from_slice(&hello[48..]);
    let forged = Signature::from_bytes(&mixed).unwrap();
    assert_eq!(
        pk.verify_nugget_bls(&Transcript::new(b"test"), b"hello", &forged),
        Err(SignatureError::Invalid)
    );
    assert_eq!(
        pk.verify_nugget_bls(&Transcript::new(b"test"), b"world", &forged),
        Err(SignatureError::Invalid)
    );
}

#[test]
fn thin_vrf_verify_checks_one_input_and_preoutput() {
    let sk = SecretKey::from_seed([4; 32]);
    let sig = sk.sign_nugget_bls(&Transcript::new(b"test"), b"hello").to_bytes();
    let preout = G1Point::from_bytes(&sig[..48]).unwrap();
    let proof = ThinProof::from_bytes(&sig[48..]).unwrap();
    let input = message_to_g1(b"hello");
    let public = &sk.as_g1_publickey().0;
    let t = Transcript::new(b"test");
    assert_eq!(thin_vrf().verify(&t, &input, &preout, public, &proof), Ok(()));
    assert_eq!(
        thin_vrf().verify(&t, &preout, &input, public, &proof),
        Err(SignatureError::Invalid)
    );
    assert_eq!(
        thin_vrf().verify(&t, &input, &preout, &G1Point::generator(), &proof),
        Err(SignatureError::Invalid)
    );
}

#[test]
fn pedersen_vrf_verify_checks_one_input_and_preoutput() {
    let pk = SecretKey::from_seed([4; 32]).create_nugget_public();
    let bytes = pk.to_bytes();
    let proof = PedersenProof::from_bytes(&bytes[96..]).unwrap();
    let t = Transcript::new(b"NuggetPublic");
    let input = G2Point::generator();
    assert_eq!(pedersen_vrf().verify(&t, &input, pk.as_g2_point(), &proof), Ok(()));
    assert_eq!(
        pedersen_vrf().verify(&t, pk.as_g2_point(), &input, &proof),
        Err(SignatureError::Invalid)
    );
    assert_eq!(proof.key_commitment(), *pk.as_g1_point());
    assert_eq!(proof.clone().as_bytes(), &bytes[96..]);
}

#[test]
fn public_key_is_made_of_its_point_and_its_certificate() {
    let first = SecretKey::from_seed([1; 32]).create_nugget_public();
    let second = SecretKey::from_seed([2; 32]).create_nugget_public();
    let rebuilt = PublicKey::new(first.as_g2_point().clone(), first.as_certificate().clone());
    assert_eq!(rebuilt.to_bytes(), first.to_bytes());
    assert_eq!(rebuilt.validate_nugget_public(), Ok(()));
    let mixed = PublicKey::new(first.as_g2_point().clone(), second.as_certificate().clone());
    assert_eq!(mixed.as_g2_point(), first.as_g2_point());
    assert_eq!(mixed.as_certificate().as_bytes(), second.as_certificate().as_bytes());
    assert_eq!(mixed.as_g1_point(), second.as_g1_point());
    assert_eq!(mixed.validate_nugget_public(), Err(SignatureError::Invalid));
}

#[test]
fn signature_is_made_of_its_point_and_its_proof() {
    let sk = SecretKey::from_seed([1; 32]);
    let pk = sk.create_nugget_public();
    let hello = sk.sign_nugget_bls(&Transcript::new(b"test"), b"hello");
    let world = sk.sign_nugget_bls(&Transcript::new(b"test"), b"world");
    let rebuilt = Signature::new(hello.as_point().clone(), hello.as_proof().clone());
    assert_eq!(rebuilt.to_bytes(), hello.to_bytes());
    assert_eq!(pk.verify_nugget_bls(&Transcript::new(b"test"), b"hello", &rebuilt), Ok(()));
    let mixed = Signature::new(hello.as_point().clone(), world.as_proof().clone());
    assert_eq!(mixed.as_point(), hello.as_point());
    assert_eq!(mixed.as_proof().as_bytes(), world.as_proof().as_bytes());
    assert_eq!(
        pk.verify_nugget_bls(&Transcript::new(b"test"), b"hello", &mixed),
        Err(SignatureError::Invalid)
    );
}

#[test]
fn public_key_encoding_round_trips() {
    let pk = SecretKey::from_seed([1; 32]).create_nugget_public();
    let bytes = pk.to_bytes();
    assert_eq!(bytes.len(), 208);
    assert_eq!(&bytes[..96], pk.as_g2_point().as_bytes());
    let back = PublicKey::from_bytes(&bytes).unwrap();
    assert_eq!(back, pk);
    assert_eq!(back.to_bytes(), bytes);
    assert_eq!(back.validate_nugget_public(), Ok(()));
    assert_eq!(back.clone().to_bytes(), bytes);
}

#[test]
fn public_key_from_bytes_refuses_malformed_input() {
    let bytes = SecretKey::from_seed([1; 32]).create_nugget_public().to_bytes();
    assert_eq!(PublicKey::from_bytes(&bytes[..207]).err(), Some(SignatureError::DecodeError));
    let mut longer = bytes.clone();
    longer.push(0);
    assert_eq!(PublicKey::from_bytes(&longer).err(), Some(SignatureError::DecodeError));
    assert_eq!(PublicKey::from_bytes(&[]).err(), Some(SignatureError::DecodeError));
    let mut bad_point = bytes.clone();
    bad_point[0] &= 0x7f;
    assert_eq!(PublicKey::from_bytes(&bad_point).err(), Some(SignatureError::DecodeError));
    let mut bad_commitment = bytes.clone();
    bad_commitment[96] &= 0x7f;
    assert_eq!(PublicKey::from_bytes(&bad_commitment).err(), Some(SignatureError::DecodeError));
    let mut bad_scalar = bytes.clone();
    for byte in bad_scalar[176..208].iter_mut() {
        *byte = 0xff;
    }
    assert_eq!(PublicKey::from_bytes(&bad_scalar).err(), Some(SignatureError::DecodeError));
}

#[test]
fn signature_encoding_round_trips() {
    let sk = SecretKey::from_seed([1; 32]);
    let sig = sk.sign_nugget_bls(&Transcript::new(b"test"), b"hello");
    let bytes = sig.to_bytes();
    assert_eq!(bytes.len(), 128);
    assert_eq!(&bytes[..48], sig.as_point().as_bytes());
    let back = Signature::from_bytes(&bytes).unwrap();
    assert_eq!(back.to_bytes(), bytes);
    let pk = sk.create_nugget_public();
    assert_eq!(pk.verify_nugget_bls(&Transcript::new(b"test"), b"hello", &back), Ok(()));
}

#[test]
fn signature_from_bytes_refuses_malformed_input() {
    let sk = SecretKey::from_seed([1; 32]);
    let bytes = sk.sign_nugget_bls(&Transcript::new(b"test"), b"hello").to_bytes();
    assert_eq!(Signature::from_bytes(&bytes[..127]).err(), Some(SignatureError::DecodeError));
    let mut longer = bytes.clone();
    longer.push(0);
    assert_eq!(Signature::from_bytes(&longer).err(), Some(SignatureError::DecodeError));
    let mut bad_point = bytes.clone();
    bad_point[0] &= 0x7f;
    assert_eq!(Signature::from_bytes(&bad_point).err(), Some(SignatureError::DecodeError));
    let mut bad_scalar = bytes.clone();
    for byte in bad_scalar[48..80].iter_mut() {
        *byte = 0xff;
    }
    assert_eq!(Signature::from_bytes(&bad_scalar).err(), Some(SignatureError::DecodeError));
    let mut bad_witness = bytes.clone();
    bad_witness[80] &= 0x7f;
    assert_eq!(Signature::from_bytes(&bad_witness).err(), Some(SignatureError::DecodeError));
}

#[test]
fn proofs_refuse_malformed_input() {
    assert_eq!(ThinProof::from_bytes(&[0u8; 79]).err(), Some(SignatureError::DecodeError));
    assert_eq!(ThinProof::from_bytes(&[0u8; 80]).err(), Some(SignatureError::DecodeError));
    assert_eq!(PedersenProof::from_bytes(&[0u8; 111]).err(), Some(SignatureError::DecodeError));
    assert_eq!(PedersenProof::from_bytes(&[0u8; 112]).err(), Some(SignatureError::DecodeError));
    let mut thin = vec![0u8; 80];
    thin[32] = 0xc0;
    let proof = ThinProof::from_bytes(&thin).unwrap();
    assert_eq!(proof.as_bytes(), thin.as_slice());
}

#[test]
fn proofs_refuse_a_second_encoding_of_the_same_proof() {
    let mut thin = vec![0u8; 80];
    thin[32] = 0xc0;
    thin[79] = 1;
    assert!(dleq_vrf::Signature::<dleq_vrf::ThinVrf<G1Affine>>::deserialize_compressed(
        thin.as_slice()
    )
    .is_ok());
    assert_eq!(ThinProof::from_bytes(&thin).err(), Some(SignatureError::DecodeError));

    let mut pedersen = vec![0u8; 112];
    pedersen[0] = 0xc0;
    let proof = PedersenProof::from_bytes(&pedersen).unwrap();
    assert_eq!(proof.key_commitment(), G1Point::identity());
    pedersen[47] = 1;
    assert!(dleq_vrf::NonBatchableSignature::<dleq_vrf::PedersenVrf<G1Affine, G2Affine, 0>>::deserialize_compressed(
        pedersen.as_slice()
    )
    .is_ok());
    assert_eq!(PedersenProof::from_bytes(&pedersen).err(), Some(SignatureError::DecodeError));
}

#[test]
fn public_keys_on_g1_hash_by_their_point() {
    let first = SecretKey::from_seed([1; 32]);
    let second = SecretKey::from_seed([2; 32]);
    let mut set = std::collections::HashSet::new();
    set.insert(first.as_g1_publickey().clone());
    set.insert(first.create_nugget_public().to_g1_publickey());
    set.insert(second.as_g1_publickey().clone());
    assert_eq!(set.len(), 2);
    assert!(set.contains(second.as_g1_publickey()));
}

#[test]
fn public_keys_are_equal_whatever_their_proofs() {
    let sk = SecretKey::from_seed([1; 32]);
    let nugget = sk.create_nugget_public();
    let other = sk.create_public_cert(&Transcript::new(b"MyContext"));
    assert_ne!(nugget.to_bytes(), other.to_bytes());
    assert_eq!(nugget, other);
    assert_eq!(hash_of(&nugget), hash_of(&other));
    let stranger = SecretKey::from_seed([2; 32]).create_nugget_public();
    assert_ne!(nugget, stranger);
    assert_ne!(hash_of(&nugget), hash_of(&stranger));
}
