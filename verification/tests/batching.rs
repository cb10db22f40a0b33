use kzg_cell_proofs::BatchError;
use kzg_cell_proofs::Blob;
use kzg_cell_proofs::KzgWrapper;
use kzg_cell_proofs::TrustedSetup;
use kzg_cell_proofs::ValidationError;
use kzg_cell_proofs::compute;
use kzg_cell_proofs::run;
use kzg_cell_proofs::run_parallel;

const BYTES_PER_BLOB: usize = 131072;
const CELLS_PER_EXT_BLOB: usize = 128;

fn g1_infinity() -> Vec<u8> {
    let mut p = vec![0u8; 48];
    p[0] = 0xc0;
    p
}

fn g2_infinity() -> Vec<u8> {
    let mut p = vec![0u8; 96];
    p[0] = 0xc0;
    p
}

fn g1_generator() -> Vec<u8> {
    hex::decode(
        "97f1d3a73197d7942695638c4fa9ac0fc3688c4f9774b905a14e3a3f171bac586c55e83ff97a1aeffb3af00adb22c6bb",
    )
    .unwrap()
}

fn g2_generator() -> Vec<u8> {
    hex::decode(
        "93e02b6052719f607dacd3a088274f65596bd0d09920b61ab5da61bbdc7f5049334cf11213945d57e5ac7d055d042b7e024aa2b2f08f0a91260805272dc51051c6e47ad4fa403b02b4510b647ae3d1770bac0326a805bbefd48056c8c121bdb8",
    )
    .unwrap()
}

/// A setup of the reference sizes (k = 4096, m = 65) that the backend
/// accepts: valid point encodings, mostly the point at infinity.
fn setup_buffers(generator_in_monomial: bool) -> (Vec<u8>, Vec<u8>, Vec<u8>) {
    let mut g1_monomial = Vec::new();
    for i in 0..4096 {
        if i == 0 && generator_in_monomial {
            g1_monomial.extend_from_slice(&g1_generator());
        } else {
            g1_monomial.extend_from_slice(&g1_infinity());
        }
    }
    let mut g1_lagrange = Vec::new();
    for i in 0..4096 {
        if i == 0 {
            g1_lagrange.extend_from_slice(&g1_generator());
        } else {
            g1_lagrange.extend_from_slice(&g1_infinity());
        }
    }
    let mut g2_monomial = Vec::new();
    for i in 0..65 {
        if i <= 1 {
            g2_monomial.extend_from_slice(&g2_generator());
        } else {
            g2_monomial.extend_from_slice(&g2_infinity());
        }
    }
    (g1_monomial, g1_lagrange, g2_monomial)
}

fn blob_with_first_element(value: u8) -> Vec<u8> {
    let mut bytes = vec![0u8; BYTES_PER_BLOB];
    bytes[31] = value;
    bytes
}

#[test]
fn batch_order_matches_input_order() {
    let (g1m, g1l, g2m) = setup_buffers(true);
    let setup = TrustedSetup::load(g1m, g1l, g2m).unwrap();
    let inputs = vec![
        blob_with_first_element(1),
        blob_with_first_element(2),
        blob_with_first_element(3),
    ];
    let mut singles = Vec::new();
    for bytes in &inputs {
        let blob = Blob::validate(bytes).unwrap();
        singles.push(compute(&setup, &blob).unwrap());
    }
    let batch = run(&setup, &inputs).unwrap();
    assert_eq!(batch.len(), inputs.len());
    for i in 0..inputs.len() {
        assert_eq!(batch[i].proofs(), singles[i].proofs());
    }
}

#[test]
fn parallel_run_matches_sequential_run() {
    let (g1m, g1l, g2m) = setup_buffers(true);
    let setup = TrustedSetup::load(g1m, g1l, g2m).unwrap();
    let inputs = vec![blob_with_first_element(4), blob_with_first_element(5)];
    let sequential = run(&setup, &inputs).unwrap();
    let parallel = run_parallel(&setup, &inputs).unwrap();
    assert_eq!(sequential.len(), parallel.len());
    for i in 0..inputs.len() {
        assert_eq!(sequential[i].proofs(), parallel[i].proofs());
    }
}

#[test]
fn batch_with_wrong_length_blob_fails_fast() {
    let (g1m, g1l, g2m) = setup_buffers(false);
    let wrapper = KzgWrapper::load_trusted_setup(g1m, g1l, g2m).unwrap();
    let batch = vec![
        vec![0u8; BYTES_PER_BLOB],
        vec![0u8; 100],
        vec![0u8; BYTES_PER_BLOB],
    ];
    let r = wrapper.compute_cell_proofs_batch(batch);
    assert_eq!(
        r.unwrap_err(),
        BatchError::Invalid {
            index: 1,
            error: ValidationError::WrongBlobLength { expected: BYTES_PER_BLOB, actual: 100 },
        }
    );
}

#[test]
fn batch_reports_first_invalid_blob() {
    let (g1m, g1l, g2m) = setup_buffers(false);
    let wrapper = KzgWrapper::load_trusted_setup(g1m, g1l, g2m).unwrap();
    let setup = wrapper.setup();
    let mut bad_encoding = vec![0u8; BYTES_PER_BLOB];
    for b in bad_encoding.iter_mut().take(32) {
        *b = 0xff;
    }
    let batch = vec![vec![0u8; BYTES_PER_BLOB], bad_encoding, vec![0u8; 100]];
    let r = run(setup, &batch);
    assert_eq!(
        r.unwrap_err(),
        BatchError::Invalid {
            index: 1,
            error: ValidationError::InvalidEncoding { element_index: 0 },
        }
    );
}

#[test]
fn scenario_three_zero_blobs() {
    let (g1m, g1l, g2m) = setup_buffers(false);
    let wrapper = KzgWrapper::load_trusted_setup(g1m, g1l, g2m).unwrap();
    let batch = vec![
        vec![0u8; BYTES_PER_BLOB],
        vec![0u8; BYTES_PER_BLOB],
        vec![0u8; BYTES_PER_BLOB],
    ];
    let out = wrapper.compute_cell_proofs_batch(batch).unwrap();
    assert_eq!(out.len(), 3);
    for bundle in &out {
        assert_eq!(bundle.len(), CELLS_PER_EXT_BLOB);
        for text in bundle {
            assert_eq!(text.len(), 2 * 48);
        }
    }
    assert_eq!(out[0], out[1]);
    assert_eq!(out[1], out[2]);
}
