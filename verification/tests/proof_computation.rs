use kzg_cell_proofs::Blob;
use kzg_cell_proofs::TrustedSetup;
use kzg_cell_proofs::compute;

const BYTES_PER_BLOB: usize = 131072;
const CELLS_PER_EXT_BLOB: usize = 128;
const BYTES_PER_PROOF: usize = 48;

fn g1_infinity() -> Vec<u8> {
    let mut p = vec![0u8; 48];
    p[0] = 0xc0;
    p
}

fn g2_infinity() -> Vec<u8> {
    let mut p = vec![0u8; 96];
    p[0] = 0xc0;
    p
}

fn g1_generator() -> Vec<u8> {
    hex::decode(
        "97f1d3a73197d7942695638c4fa9ac0fc3688c4f9774b905a14e3a3f171bac586c55e83ff97a1aeffb3af00adb22c6bb",
    )
    .unwrap()
}

fn g2_generator() -> Vec<u8> {
    hex::decode(
        "93e02b6052719f607dacd3a088274f65596bd0d09920b61ab5da61bbdc7f5049334cf11213945d57e5ac7d055d042b7e024aa2b2f08f0a91260805272dc51051c6e47ad4fa403b02b4510b647ae3d1770bac0326a805bbefd48056c8c121bdb8",
    )
    .unwrap()
}

/// A setup of the reference sizes (k = 4096, m = 65) that the backend
/// accepts: valid point encodings, mostly the point at infinity. Putting
/// the generator at the first Lagrange point but not the second keeps the
/// pairing check from mistaking it for a monomial-form setup.
fn setup_buffers(generator_in_monomial: bool) -> (Vec<u8>, Vec<u8>, Vec<u8>) {
    let mut g1_monomial = Vec::new();
    for i in 0..4096 {
        if i == 0 && generator_in_monomial {
            g1_monomial.extend_from_slice(&g1_generator());
        } else {
            g1_monomial.extend_from_slice(&g1_infinity());
        }
    }
    let mut g1_lagrange = Vec::new();
    for i in 0..4096 {
        if i == 0 {
            g1_lagrange.extend_from_slice(&g1_generator());
        } else {
            g1_lagrange.extend_from_slice(&g1_infinity());
        }
    }
    let mut g2_monomial = Vec::new();
    for i in 0..65 {
        if i <= 1 {
            g2_monomial.extend_from_slice(&g2_generator());
        } else {
            g2_monomial.extend_from_slice(&g2_infinity());
        }
    }
    (g1_monomial, g1_lagrange, g2_monomial)
}

fn blob_with_first_element(value: u8) -> Vec<u8> {
    let mut bytes = vec![0u8; BYTES_PER_BLOB];
    bytes[31] = value;
    bytes
}

#[test]
fn reference_sized_setup_accepted() {
    let (g1m, g1l, g2m) = setup_buffers(false);
    assert!(TrustedSetup::load(g1m, g1l, g2m).is_ok());
}

#[test]
fn compute_is_deterministic() {
    let (g1m, g1l, g2m) = setup_buffers(true);
    let setup = TrustedSetup::load(g1m, g1l, g2m).unwrap();
    let blob = Blob::validate(&blob_with_first_element(1)).unwrap();
    let first = compute(&setup, &blob).unwrap();
    let second = compute(&setup, &blob).unwrap();
    assert_eq!(first.proofs(), second.proofs());
}

#[test]
fn bundle_has_protocol_shape() {
    let (g1m, g1l, g2m) = setup_buffers(true);
    let setup = TrustedSetup::load(g1m, g1l, g2m).unwrap();
    let blob = Blob::validate(&blob_with_first_element(2)).unwrap();
    let bundle = compute(&setup, &blob).unwrap();
    assert_eq!(bundle.proofs().len(), CELLS_PER_EXT_BLOB);
    for proof in bundle.proofs() {
        assert_eq!(proof.len(), BYTES_PER_PROOF);
    }
}

#[test]
fn just_below_modulus_element_accepted_by_backend() {
    // The largest canonical field element passes validation and is then
    // accepted by the backend's own canonicity check inside the
    // computation: the two agree on the modulus.
    let modulus =
        hex::decode("73eda753299d7d483339d80809a1d80553bda402fffe5bfeffffffff00000001").unwrap();
    let mut bytes = vec![0u8; BYTES_PER_BLOB];
    bytes[..32].copy_from_slice(&modulus);
    bytes[31] = 0x00;
    let blob = Blob::validate(&bytes).unwrap();
    let (g1m, g1l, g2m) = setup_buffers(false);
    let setup = TrustedSetup::load(g1m, g1l, g2m).unwrap();
    assert!(compute(&setup, &blob).is_ok());
}

#[test]
fn infinity_setup_yields_infinity_proofs_in_hex() {
    // With every monomial point at infinity, each proof is the point at
    // infinity, whose encoding is 0xc0 followed by 47 zero bytes. This
    // also pins the hex encoding down to the exact expected text.
    let (g1m, g1l, g2m) = setup_buffers(false);
    let setup = TrustedSetup::load(g1m, g1l, g2m).unwrap();
    let blob = Blob::validate(&vec![0u8; BYTES_PER_BLOB]).unwrap();
    let bundle = compute(&setup, &blob).unwrap();
    let mut expected = String::from("c0");
    for _ in 0..47 {
        expected.push_str("00");
    }
    let texts = bundle.to_hex();
    assert_eq!(texts.len(), CELLS_PER_EXT_BLOB);
    for text in &texts {
        assert_eq!(text, &expected);
    }
}
