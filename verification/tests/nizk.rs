use aeonflux::amacs::{Amac, Attribute, SecretKey};
use aeonflux::credential::AnonymousCredential;
use aeonflux::encryption::ProofOfEncryption;
use aeonflux::issuance::ProofOfIssuance;
use aeonflux::issuer::Issuer;
use aeonflux::parameters::{IssuerParameters, SystemParameters};
use aeonflux::presentation::ProofOfValidCredential;
use aeonflux::symmetric::Keypair;

use zkp::toolbox::prover::Prover;
use zkp::toolbox::verifier::Verifier;
use zkp::toolbox::SchnorrCS;
use zkp::Transcript;

use curve25519_dalek_ng::ristretto::{CompressedRistretto, RistrettoPoint};
use curve25519_dalek_ng::scalar::Scalar;
use rand::thread_rng;

#[test]
fn issuance_proof() {
    let mut rng = thread_rng();
    let system_parameters = SystemParameters::generate(&mut rng, 5).unwrap();
    let amacs_key = SecretKey::generate(&mut rng, &system_parameters);
    let issuer_parameters = IssuerParameters::generate(&system_parameters, &amacs_key);
    let issuer = Issuer::new(&system_parameters, &issuer_parameters, &amacs_key);

    let mut attributes = Vec::new();
    attributes.push(Attribute::SecretScalar(Scalar::random(&mut rng)));
    attributes.push(Attribute::PublicScalar(Scalar::random(&mut rng)));
    attributes.push(Attribute::PublicPoint(RistrettoPoint::random(&mut rng)));
    attributes.push(Attribute::SecretPoint(RistrettoPoint::random(&mut rng)));
    attributes.push(Attribute::SecretScalar(Scalar::random(&mut rng)));

    let credential = issuer.issue(attributes, &mut rng).unwrap();
    let proof = ProofOfIssuance::prove(
        &amacs_key,
        &system_parameters,
        &issuer_parameters,
        &credential,
    );
    let verification = proof.verify(&system_parameters, &issuer_parameters, &credential);

    assert!(verification.is_ok());
}

#[test]
fn issuance_proof_no_attributes() {
    let mut rng = thread_rng();
    let system_parameters = SystemParameters::generate(&mut rng, 0).unwrap();
    let amacs_key = SecretKey::generate(&mut rng, &system_parameters);
    let issuer_parameters = IssuerParameters::generate(&system_parameters, &amacs_key);
    let issuer = Issuer::new(&system_parameters, &issuer_parameters, &amacs_key);

    let credential = issuer.issue(Vec::new(), &mut rng).unwrap();
    let proof = ProofOfIssuance::prove(
        &amacs_key,
        &system_parameters,
        &issuer_parameters,
        &credential,
    );
    assert!(proof
        .verify(&system_parameters, &issuer_parameters, &credential)
        .is_ok());
}

#[test]
fn issuance_wrong_attribute_count() {
    let mut rng = thread_rng();
    let system_parameters = SystemParameters::generate(&mut rng, 2).unwrap();
    let amacs_key = SecretKey::generate(&mut rng, &system_parameters);
    let issuer_parameters = IssuerParameters::generate(&system_parameters, &amacs_key);
    let issuer = Issuer::new(&system_parameters, &issuer_parameters, &amacs_key);

    let attributes = vec![Attribute::SecretScalar(Scalar::random(&mut rng))];
    assert!(issuer.issue(attributes, &mut rng).is_err());
}

#[test]
fn issuance_tampered_amac_value() {
    let mut rng = thread_rng();
    let system_parameters = SystemParameters::generate(&mut rng, 2).unwrap();
    let amacs_key = SecretKey::generate(&mut rng, &system_parameters);
    let issuer_parameters = IssuerParameters::generate(&system_parameters, &amacs_key);
    let issuer = Issuer::new(&system_parameters, &issuer_parameters, &amacs_key);

    let attributes = vec![
        Attribute::SecretScalar(Scalar::random(&mut rng)),
        Attribute::SecretPoint(RistrettoPoint::random(&mut rng)),
    ];
    let mut credential = issuer.issue(attributes, &mut rng).unwrap();
    let proof = ProofOfIssuance::prove(
        &amacs_key,
        &system_parameters,
        &issuer_parameters,
        &credential,
    );
    credential.amac.V = credential.amac.V + system_parameters.G;
    assert!(proof
        .verify(&system_parameters, &issuer_parameters, &credential)
        .is_err());
}

#[test]
fn issuance_wrong_issuer_parameters() {
    let mut rng = thread_rng();
    let system_parameters = SystemParameters::generate(&mut rng, 2).unwrap();
    let amacs_key = SecretKey::generate(&mut rng, &system_parameters);
    let issuer_parameters = IssuerParameters::generate(&system_parameters, &amacs_key);
    let issuer = Issuer::new(&system_parameters, &issuer_parameters, &amacs_key);

    let attributes = vec![
        Attribute::SecretScalar(Scalar::random(&mut rng)),
        Attribute::SecretPoint(RistrettoPoint::random(&mut rng)),
    ];
    let credential = issuer.issue(attributes, &mut rng).unwrap();
    let proof = ProofOfIssuance::prove(
        &amacs_key,
        &system_parameters,
        &issuer_parameters,
        &credential,
    );
    let wrong_parameters = IssuerParameters {
        C_W: issuer_parameters.C_W,
        I: issuer_parameters.I + system_parameters.G,
    };
    assert!(proof
        .verify(&system_parameters, &wrong_parameters, &credential)
        .is_err());
}

#[test]
fn issuance_tampered_challenge() {
    let mut rng = thread_rng();
    let system_parameters = SystemParameters::generate(&mut rng, 1).unwrap();
    let amacs_key = SecretKey::generate(&mut rng, &system_parameters);
    let issuer_parameters = IssuerParameters::generate(&system_parameters, &amacs_key);
    let issuer = Issuer::new(&system_parameters, &issuer_parameters, &amacs_key);

    let attributes = vec![Attribute::SecretScalar(Scalar::random(&mut rng))];
    let credential = issuer.issue(attributes, &mut rng).unwrap();
    let mut proof = ProofOfIssuance::prove(
        &amacs_key,
        &system_parameters,
        &issuer_parameters,
        &credential,
    );
    proof.0.challenge = proof.0.challenge + Scalar::one();
    assert!(proof
        .verify(&system_parameters, &issuer_parameters, &credential)
        .is_err());
}

#[test]
fn issuance_tampered_response() {
    let mut rng = thread_rng();
    let system_parameters = SystemParameters::generate(&mut rng, 1).unwrap();
    let amacs_key = SecretKey::generate(&mut rng, &system_parameters);
    let issuer_parameters = IssuerParameters::generate(&system_parameters, &amacs_key);
    let issuer = Issuer::new(&system_parameters, &issuer_parameters, &amacs_key);

    let attributes = vec![Attribute::SecretPoint(RistrettoPoint::random(&mut rng))];
    let credential = issuer.issue(attributes, &mut rng).unwrap();
    let mut proof = ProofOfIssuance::prove(
        &amacs_key,
        &system_parameters,
        &issuer_parameters,
        &credential,
    );
    proof.0.responses[0] = proof.0.responses[0] + Scalar::one();
    assert!(proof
        .verify(&system_parameters, &issuer_parameters, &credential)
        .is_err());
}

#[test]
fn presentation_round_trip_hidden_attributes() {
    let mut rng = thread_rng();
    let system_parameters = SystemParameters::generate(&mut rng, 3).unwrap();
    let amacs_key = SecretKey::generate(&mut rng, &system_parameters);
    let issuer_parameters = IssuerParameters::generate(&system_parameters, &amacs_key);
    let issuer = Issuer::new(&system_parameters, &issuer_parameters, &amacs_key);

    let attributes = vec![
        Attribute::SecretScalar(Scalar::random(&mut rng)),
        Attribute::SecretPoint(RistrettoPoint::random(&mut rng)),
        Attribute::SecretScalar(Scalar::random(&mut rng)),
    ];
    let credential = issuer.issue(attributes, &mut rng).unwrap();
    let presentation = ProofOfValidCredential::prove(
        &system_parameters,
        &issuer_parameters,
        &credential,
        &mut rng,
    );
    let verification = presentation.verify(
        &system_parameters,
        &issuer_parameters,
        &credential.attributes,
    );
    assert!(verification.is_ok());
}

#[test]
fn presentation_zero_tag_still_verifies() {
    // A credential whose tag t is zero yields the response z_0 = -t*z = 0;
    // the presentation proof must still verify.
    let mut rng = thread_rng();
    let system_parameters = SystemParameters::generate(&mut rng, 2).unwrap();
    let amacs_key = SecretKey::generate(&mut rng, &system_parameters);
    let issuer_parameters = IssuerParameters::generate(&system_parameters, &amacs_key);

    let attributes = vec![
        Attribute::SecretScalar(Scalar::random(&mut rng)),
        Attribute::SecretPoint(RistrettoPoint::random(&mut rng)),
    ];
    let credential = AnonymousCredential {
        amac: Amac {
            t: Scalar::zero(),
            U: RistrettoPoint::random(&mut rng),
            V: RistrettoPoint::random(&mut rng),
        },
        attributes,
    };
    let presentation = ProofOfValidCredential::prove(
        &system_parameters,
        &issuer_parameters,
        &credential,
        &mut rng,
    );
    let verification = presentation.verify(
        &system_parameters,
        &issuer_parameters,
        &credential.attributes,
    );
    assert!(verification.is_ok());
}

#[test]
fn presentation_public_attribute_rejected_as_identity() {
    // A revealed attribute puts the identity element in the message slot,
    // and the proof engine's verifier rejects identity point variables.
    let mut rng = thread_rng();
    let system_parameters = SystemParameters::generate(&mut rng, 2).unwrap();
    let amacs_key = SecretKey::generate(&mut rng, &system_parameters);
    let issuer_parameters = IssuerParameters::generate(&system_parameters, &amacs_key);
    let issuer = Issuer::new(&system_parameters, &issuer_parameters, &amacs_key);

    let attributes = vec![
        Attribute::PublicScalar(Scalar::random(&mut rng)),
        Attribute::SecretScalar(Scalar::random(&mut rng)),
    ];
    let credential = issuer.issue(attributes, &mut rng).unwrap();
    let presentation = ProofOfValidCredential::prove(
        &system_parameters,
        &issuer_parameters,
        &credential,
        &mut rng,
    );
    let verification = presentation.verify(
        &system_parameters,
        &issuer_parameters,
        &credential.attributes,
    );
    assert!(verification.is_err());
}

#[test]
fn presentation_tampered_commitment() {
    let mut rng = thread_rng();
    let system_parameters = SystemParameters::generate(&mut rng, 1).unwrap();
    let amacs_key = SecretKey::generate(&mut rng, &system_parameters);
    let issuer_parameters = IssuerParameters::generate(&system_parameters, &amacs_key);
    let issuer = Issuer::new(&system_parameters, &issuer_parameters, &amacs_key);

    let attributes = vec![Attribute::SecretScalar(Scalar::random(&mut rng))];
    let credential = issuer.issue(attributes, &mut rng).unwrap();
    let mut presentation = ProofOfValidCredential::prove(
        &system_parameters,
        &issuer_parameters,
        &credential,
        &mut rng,
    );
    presentation.C_x_1 = presentation.C_x_1 + system_parameters.G;
    let verification = presentation.verify(
        &system_parameters,
        &issuer_parameters,
        &credential.attributes,
    );
    assert!(verification.is_err());
}

#[test]
fn encryption_round_trip_and_tamper() {
    let mut rng = thread_rng();
    let system_parameters = SystemParameters::generate(&mut rng, 5).unwrap();
    let keypair = Keypair::generate(&system_parameters, &mut rng);
    let plaintext: [u8; 30] = *b"012345678901234567890123456789";
    let z = Scalar::random(&mut rng);

    let (ciphertext, mut proof) =
        ProofOfEncryption::prove(&system_parameters, &plaintext, &keypair, &z);
    assert!(proof
        .verify(&system_parameters, &ciphertext, &keypair.public)
        .is_ok());

    // Adding the base generator to C_y_2' must break verification.
    proof.C_y_2_prime = proof.C_y_2_prime + system_parameters.G;
    assert!(proof
        .verify(&system_parameters, &ciphertext, &keypair.public)
        .is_err());
}

#[test]
fn encryption_deterministic_components() {
    // Encrypting the same plaintext under the same keypair embeds the same
    // plaintext components, so the second halves agree up to the masks.
    let mut rng = thread_rng();
    let system_parameters = SystemParameters::generate(&mut rng, 3).unwrap();
    let keypair = Keypair::generate(&system_parameters, &mut rng);
    let plaintext: [u8; 30] = *b"anonymous credential plaintex.";

    let (c1, _m1a, _m2a, m3a) = keypair.encrypt(&plaintext);
    let (c2, _m1b, _m2b, m3b) = keypair.encrypt(&plaintext);
    assert_eq!(m3a, m3b);
    assert_eq!(c1.E1.compress(), c2.E1.compress());
    assert_eq!(c1.E2.compress(), c2.E2.compress());

    // A different plaintext hashes to a different binding scalar.
    let other: [u8; 30] = *b"anonymous credential plaintey.";
    let (_c3, _m1c, _m2c, m3c) = keypair.encrypt(&other);
    assert_ne!(m3a, m3c);
}

#[test]
fn identity_point_decodes_as_group_element() {
    // The canonical encoding of the identity is a valid group element.
    let identity = CompressedRistretto([0u8; 32]);
    assert!(identity.decompress().is_some());
}

#[test]
fn non_canonical_scalar_rejected() {
    // The group order itself, little-endian, is not a canonical scalar.
    let ell: [u8; 32] = [
        0xed, 0xd3, 0xf5, 0x5c, 0x1a, 0x63, 0x12, 0x58, 0xd6, 0x9c, 0xf7, 0xa2, 0xde, 0xf9, 0xde,
        0x14, 0x00, 0x00, 0x00, 0x00, 0x00, 0x00, 0x00, 0x00, 0x00, 0x00, 0x00, 0x00, 0x00, 0x00,
        0x00, 0x10,
    ];
    assert!(Scalar::from_canonical_bytes(ell).is_none());
    // One below the order is canonical.
    let mut ell_minus_one = ell;
    ell_minus_one[0] = 0xec;
    assert!(Scalar::from_canonical_bytes(ell_minus_one).is_some());
}

#[test]
fn swapped_transcript_labels_fail() {
    // A proof made under one pair of transcript and proof labels must not
    // verify under the swapped pair.
    let mut rng = thread_rng();
    let x = Scalar::random(&mut rng);
    let g = RistrettoPoint::random(&mut rng);
    let p = g * x;

    let mut transcript = Transcript::new(b"2019/1416 anonymous credential");
    let mut prover = Prover::new(b"2019/1416 issuance proof", &mut transcript);
    let var_x = prover.allocate_scalar(b"x", x);
    let (var_p, _) = prover.allocate_point(b"P", p);
    let (var_g, _) = prover.allocate_point(b"G", g);
    prover.constrain(var_p, vec![(var_x, var_g)]);
    let proof = prover.prove_compact();

    // Same statement, labels swapped: must fail.
    let mut swapped = Transcript::new(b"2019/1416 issuance proof");
    let mut verifier = Verifier::new(b"2019/1416 anonymous credential", &mut swapped);
    let var_x = verifier.allocate_scalar(b"x");
    let var_p = verifier.allocate_point(b"P", p.compress()).unwrap();
    let var_g = verifier.allocate_point(b"G", g.compress()).unwrap();
    verifier.constrain(var_p, vec![(var_x, var_g)]);
    assert!(verifier.verify_compact(&proof).is_err());

    // Same statement, same labels: must succeed.
    let mut transcript = Transcript::new(b"2019/1416 anonymous credential");
    let mut verifier = Verifier::new(b"2019/1416 issuance proof", &mut transcript);
    let var_x = verifier.allocate_scalar(b"x");
    let var_p = verifier.allocate_point(b"P", p.compress()).unwrap();
    let var_g = verifier.allocate_point(b"G", g.compress()).unwrap();
    verifier.constrain(var_p, vec![(var_x, var_g)]);
    assert!(verifier.verify_compact(&proof).is_ok());
}

#[test]
fn presentation_hides_secret_scalar_values() {
    // The verifier only needs the shape of the attribute vector: a hidden
    // scalar's value never reaches the transcript, so verification succeeds
    // with any placeholder value in its slot.
    let mut rng = thread_rng();
    let system_parameters = SystemParameters::generate(&mut rng, 2).unwrap();
    let amacs_key = SecretKey::generate(&mut rng, &system_parameters);
    let issuer_parameters = IssuerParameters::generate(&system_parameters, &amacs_key);
    let issuer = Issuer::new(&system_parameters, &issuer_parameters, &amacs_key);

    let attributes = vec![
        Attribute::SecretScalar(Scalar::random(&mut rng)),
        Attribute::SecretPoint(RistrettoPoint::random(&mut rng)),
    ];
    let credential = issuer.issue(attributes, &mut rng).unwrap();
    let presentation = ProofOfValidCredential::prove(
        &system_parameters,
        &issuer_parameters,
        &credential,
        &mut rng,
    );
    let verifier_view = vec![
        Attribute::SecretScalar(Scalar::random(&mut rng)),
        match &credential.attributes[1] {
            Attribute::SecretPoint(p) => Attribute::SecretPoint(*p),
            _ => unreachable!(),
        },
    ];
    assert!(presentation
        .verify(&system_parameters, &issuer_parameters, &verifier_view)
        .is_ok());
}

#[test]
fn presentation_wrong_disclosed_point_fails() {
    // A hidden group element is disclosed as a message variable, so the
    // verifier must be given the same point.
    let mut rng = thread_rng();
    let system_parameters = SystemParameters::generate(&mut rng, 1).unwrap();
    let amacs_key = SecretKey::generate(&mut rng, &system_parameters);
    let issuer_parameters = IssuerParameters::generate(&system_parameters, &amacs_key);
    let issuer = Issuer::new(&system_parameters, &issuer_parameters, &amacs_key);

    let attributes = vec![Attribute::SecretPoint(RistrettoPoint::random(&mut rng))];
    let credential = issuer.issue(attributes, &mut rng).unwrap();
    let presentation = ProofOfValidCredential::prove(
        &system_parameters,
        &issuer_parameters,
        &credential,
        &mut rng,
    );
    let wrong_view = vec![Attribute::SecretPoint(RistrettoPoint::random(&mut rng))];
    assert!(presentation
        .verify(&system_parameters, &issuer_parameters, &wrong_view)
        .is_err());
}
