use kzg_cell_proofs::KzgWrapper;
use kzg_cell_proofs::SetupBuffer;
use kzg_cell_proofs::SetupFault;
use kzg_cell_proofs::TrustedSetup;
use kzg_cell_proofs::ValidationError;

#[test]
fn g1_monomial_length_not_a_multiple_rejected() {
    let r = TrustedSetup::load(vec![0u8; 47], vec![0u8; 48], vec![0u8; 96]);
    assert_eq!(
        r.unwrap_err(),
        ValidationError::MalformedSetup {
            fault: SetupFault::NotAMultiple {
                buffer: SetupBuffer::G1Monomial,
                element_size: 48,
                actual_len: 47,
            },
        }
    );
}

#[test]
fn g1_lagrange_length_not_a_multiple_rejected() {
    let r = TrustedSetup::load(vec![0u8; 48], vec![0u8; 49], vec![0u8; 96]);
    assert_eq!(
        r.unwrap_err(),
        ValidationError::MalformedSetup {
            fault: SetupFault::NotAMultiple {
                buffer: SetupBuffer::G1Lagrange,
                element_size: 48,
                actual_len: 49,
            },
        }
    );
}

#[test]
fn g2_monomial_length_not_a_multiple_rejected() {
    let r = TrustedSetup::load(vec![0u8; 48], vec![0u8; 48], vec![0u8; 95]);
    assert_eq!(
        r.unwrap_err(),
        ValidationError::MalformedSetup {
            fault: SetupFault::NotAMultiple {
                buffer: SetupBuffer::G2Monomial,
                element_size: 96,
                actual_len: 95,
            },
        }
    );
}

#[test]
fn mismatched_g1_counts_rejected() {
    let r = TrustedSetup::load(vec![0u8; 96], vec![0u8; 48], vec![0u8; 96]);
    assert_eq!(
        r.unwrap_err(),
        ValidationError::MalformedSetup {
            fault: SetupFault::MismatchedCounts { monomial_len: 2, lagrange_len: 1 },
        }
    );
}

#[test]
fn wrong_point_count_rejected_by_backend() {
    // Well-shaped (multiples, equal G1 counts) but not the protocol's
    // fixed point counts: the backend turns it down.
    let r = TrustedSetup::load(vec![0u8; 48], vec![0u8; 48], vec![0u8; 96]);
    assert!(matches!(r.unwrap_err(), ValidationError::BackendRejected { .. }));
}

#[test]
fn non_curve_points_rejected_by_backend() {
    // The right sizes for the reference protocol (k = 4096, m = 65), but
    // all-zero bytes are no valid point encodings.
    let r = KzgWrapper::load_trusted_setup(
        vec![0u8; 4096 * 48],
        vec![0u8; 4096 * 48],
        vec![0u8; 65 * 96],
    );
    assert!(matches!(r.unwrap_err(), ValidationError::BackendRejected { .. }));
}
