//! The parameter store: loading and holding the trusted setup.
//!
//! The setup is built exactly once per service instance from three byte
//! buffers, validated against static shape invariants before the backend
//! sees them, and never mutated afterwards.

use vstd::prelude::*;
use crate::backend::setup_accepted;
use crate::errors::SetupBuffer;
use crate::errors::SetupFault;
use crate::errors::ValidationError;
use crate::protocol::BYTES_PER_G1_POINT;
use crate::protocol::BYTES_PER_G2_POINT;

verus! {

/// Whether the three setup buffers meet the static shape invariant: each
/// length an exact multiple of its element size, and the two G1 buffers
/// holding the same element count.
pub open spec fn setup_shape_ok(g1m: Seq<u8>, g1l: Seq<u8>, g2m: Seq<u8>) -> bool {
    &&& g1m.len() % (BYTES_PER_G1_POINT as nat) == 0
    &&& g1l.len() % (BYTES_PER_G1_POINT as nat) == 0
    &&& g2m.len() % (BYTES_PER_G2_POINT as nat) == 0
    &&& g1m.len() == g1l.len()
}

/// The exact error that loading reports for rejected buffers: the first
/// shape fault in a fixed order, else the backend's rejection.
pub open spec fn setup_error_spec(
    g1m: Seq<u8>,
    g1l: Seq<u8>,
    g2m: Seq<u8>,
    e: ValidationError,
) -> bool {
    if g1m.len() % (BYTES_PER_G1_POINT as nat) != 0 {
        e == (ValidationError::MalformedSetup {
            fault: SetupFault::NotAMultiple {
                buffer: SetupBuffer::G1Monomial,
                element_size: BYTES_PER_G1_POINT,
                actual_len: g1m.len() as usize,
            },
        })
    } else if g1l.len() % (BYTES_PER_G1_POINT as nat) != 0 {
        e == (ValidationError::MalformedSetup {
            fault: SetupFault::NotAMultiple {
                buffer: SetupBuffer::G1Lagrange,
                element_size: BYTES_PER_G1_POINT,
                actual_len: g1l.len() as usize,
            },
        })
    } else if g2m.len() % (BYTES_PER_G2_POINT as nat) != 0 {
        e == (ValidationError::MalformedSetup {
            fault: SetupFault::NotAMultiple {
                buffer: SetupBuffer::G2Monomial,
                element_size: BYTES_PER_G2_POINT,
                actual_len: g2m.len() as usize,
            },
        })
    } else if g1m.len() != g1l.len() {
        e == (ValidationError::MalformedSetup {
            fault: SetupFault::MismatchedCounts {
                monomial_len: (g1m.len() / (BYTES_PER_G1_POINT as nat)) as usize,
                lagrange_len: (g1l.len() / (BYTES_PER_G1_POINT as nat)) as usize,
            },
        })
    } else {
        e is BackendRejected
    }
}

/// The immutable trusted setup: the backend's parameter object together
/// with the exact byte buffers it was built from. Shared read-only by
/// every computation; never mutated after construction.
#[derive(Debug)]
pub struct TrustedSetup {
    settings: c_kzg::KzgSettings,
    g1_monomial: Vec<u8>,
    g1_lagrange: Vec<u8>,
    g2_monomial: Vec<u8>,
}

impl TrustedSetup {
    #[verifier::type_invariant]
    spec fn inv(self) -> bool {
        &&& setup_shape_ok(self.g1_monomial@, self.g1_lagrange@, self.g2_monomial@)
        &&& setup_accepted(self.g1_monomial@, self.g1_lagrange@, self.g2_monomial@)
    }

    /// The G1 monomial buffer the setup was built from.
    pub closed spec fn g1m(self) -> Seq<u8> {
        self.g1_monomial@
    }

    /// The G1 Lagrange buffer the setup was built from.
    pub closed spec fn g1l(self) -> Seq<u8> {
        self.g1_lagrange@
    }

    /// The G2 monomial buffer the setup was built from.
    pub closed spec fn g2m(self) -> Seq<u8> {
        self.g2_monomial@
    }

    /// The backend handle; it was built from exactly the recorded buffers,
    /// and those buffers are accepted by the backend.
    pub(crate) fn handle(&self) -> (r: &c_kzg::KzgSettings)
        ensures
            setup_accepted(self.g1m(), self.g1l(), self.g2m()),
    {
        proof {
            use_type_invariant(self);
        }
        &self.settings
    }

    /// Builds the setup from three untrusted byte buffers. Rejects a shape
    /// fault before the backend sees the bytes; well-shaped bytes that the
    /// backend does not accept are rejected with its reason.
    pub fn load(
        g1_monomial: Vec<u8>,
        g1_lagrange: Vec<u8>,
        g2_monomial: Vec<u8>,
    ) -> (r: Result<TrustedSetup, ValidationError>)
        ensures
            r matches Ok(s) ==> s.g1m() == g1_monomial@ && s.g1l() == g1_lagrange@ && s.g2m()
                == g2_monomial@ && setup_shape_ok(g1_monomial@, g1_lagrange@, g2_monomial@)
                && setup_accepted(g1_monomial@, g1_lagrange@, g2_monomial@),
            r matches Err(e) ==> setup_error_spec(g1_monomial@, g1_lagrange@, g2_monomial@, e),
            !setup_shape_ok(g1_monomial@, g1_lagrange@, g2_monomial@) ==> r is Err,
            setup_shape_ok(g1_monomial@, g1_lagrange@, g2_monomial@) && !setup_accepted(
                g1_monomial@,
                g1_lagrange@,
                g2_monomial@,
            ) ==> (r matches Err(e) && e is BackendRejected),
    {
        if g1_monomial.len() % BYTES_PER_G1_POINT != 0 {
            let actual_len = g1_monomial.len();
            return Err(ValidationError::MalformedSetup {
                fault: SetupFault::NotAMultiple {
                    buffer: SetupBuffer::G1Monomial,
                    element_size: BYTES_PER_G1_POINT,
                    actual_len,
                },
            });
        }
        if g1_lagrange.len() % BYTES_PER_G1_POINT != 0 {
            let actual_len = g1_lagrange.len();
            return Err(ValidationError::MalformedSetup {
                fault: SetupFault::NotAMultiple {
                    buffer: SetupBuffer::G1Lagrange,
                    element_size: BYTES_PER_G1_POINT,
                    actual_len,
                },
            });
        }
        if g2_monomial.len() % BYTES_PER_G2_POINT != 0 {
            let actual_len = g2_monomial.len();
            return Err(ValidationError::MalformedSetup {
                fault: SetupFault::NotAMultiple {
                    buffer: SetupBuffer::G2Monomial,
                    element_size: BYTES_PER_G2_POINT,
                    actual_len,
                },
            });
        }
        if g1_monomial.len() != g1_lagrange.len() {
            let monomial_len = g1_monomial.len() / BYTES_PER_G1_POINT;
            let lagrange_len = g1_lagrange.len() / BYTES_PER_G1_POINT;
            return Err(ValidationError::MalformedSetup {
                fault: SetupFault::MismatchedCounts { monomial_len, lagrange_len },
            });
        }
        match backend_load(&g1_monomial, &g1_lagrange, &g2_monomial) {
            Ok(settings) => Ok(
                TrustedSetup { settings, g1_monomial, g1_lagrange, g2_monomial },
            ),
            Err(reason) => Err(ValidationError::BackendRejected { reason }),
        }
    }
}

/// Relies on c_kzg::KzgSettings::load_trusted_setup, called with no
/// precomputation tables: it parses the buffers as 48-byte G1 and 96-byte G2
/// points, requires the fixed protocol point counts, checks every point on
/// its curve and the Lagrange buffer in Lagrange form, and builds the
/// parameter object. Acceptance is deterministic in the three byte strings;
/// an allocation failure can also surface as a rejection, so only the
/// forward direction is assumed.
#[verifier::external_body]
fn backend_load(g1m: &Vec<u8>, g1l: &Vec<u8>, g2m: &Vec<u8>) -> (r: Result<
    c_kzg::KzgSettings,
    String,
>)
    ensures
        r is Ok ==> setup_accepted(g1m@, g1l@, g2m@),
{
    match c_kzg::KzgSettings::load_trusted_setup(g1m.as_slice(), g1l.as_slice(), g2m.as_slice(), 0)
    {
        Ok(settings) => Ok(settings),
        Err(e) => Err(format!("{e}")),
    }
}

} // verus!
