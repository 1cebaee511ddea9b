use vstd::prelude::*;
use vstd::arithmetic::power2::lemma_pow2_pos;
use crate::copula::Copula;
use crate::errors::CopulaError;
use crate::numeric::abs_bits;
use crate::numeric::exp_field;
use crate::numeric::ge_min_pos_normal_bits;
use crate::numeric::is_finite_bits;
use crate::numeric::is_zero_bits;
use crate::numeric::mag_times_lt_one;
use crate::numeric::nonneg_finite_bits;
use crate::numeric::sign_bit_set;
use crate::numeric::significand;
use crate::numeric::Real;
use crate::numeric::F64_SIGN_MASK;

verus! {

/// The parameter domain of the Clayton family in dimension `d`: theta is
/// a real number strictly greater than `-1/(d-1)`. The stored double must
/// be finite, and where it is negative its magnitude times `d-1` must be
/// strictly below one — decided exactly, with no rounding.
pub open spec fn clayton_theta_ok(bits: u64, dimension: usize) -> bool {
    is_finite_bits(bits) && (sign_bit_set(bits) ==> mag_times_lt_one(
        bits,
        (dimension - 1) as nat,
    ))
}

/// The sampling domain of the Clayton family: the mixture representation
/// draws a Gamma frailty of shape `1/theta`, so theta must be positive
/// and, for the shape to stay meaningful, no smaller than the smallest
/// positive normal double. Values below that minimum are rejected rather
/// than silently substituted.
pub open spec fn clayton_sampling_theta_ok(bits: u64) -> bool {
    ge_min_pos_normal_bits(bits)
}

/// A parameter that is a finite double not below zero lies in the Clayton
/// domain of every dimension.
proof fn lemma_nonneg_theta_in_domain(bits: u64, dimension: usize)
    requires
        dimension >= 2,
        nonneg_finite_bits(bits),
    ensures
        clayton_theta_ok(bits, dimension),
{
    lemma_pow2_pos(1075);
    if sign_bit_set(bits) {
        assert(is_zero_bits(bits));
        assert(abs_bits(bits) == 0);
        assert(exp_field(bits) == 0);
        assert(significand(bits) == 0);
        assert(significand(bits) * ((dimension - 1) as nat) == 0);
    }
}

/// One-parameter Archimedean family with generator
/// `phi(t) = (t^(-theta) - 1) / theta`, theta > -1/(d-1): closed-form CDF
/// and density, and Marshall–Olkin mixture sampling for positive theta.
#[derive(Debug, Clone, Copy)]
pub struct ClaytonCopula {
    pub theta: Real,
    pub dimension: usize,
}

impl ClaytonCopula {
    /// Validating constructor: the dimension must be at least two and
    /// theta must be a real number strictly greater than `-1/(d-1)`;
    /// anything else is rejected fail-fast with `InvalidParameter`. The
    /// domain comparison is exact integer arithmetic on the significand
    /// and exponent of theta.
    pub fn new(theta: Real, dimension: usize) -> (r: Result<ClaytonCopula, CopulaError>)
        ensures
            dimension < 2 ==> (r matches Err(e) && e is InvalidParameter),
            dimension >= 2 && !clayton_theta_ok(theta.bits, dimension) ==> (r matches Err(e)
                && e is InvalidParameter),
            dimension >= 2 && clayton_theta_ok(theta.bits, dimension) ==> (r matches Ok(c)
                && c.wf() && c.theta == theta && c.dimension == dimension),
    {
        if dimension < 2 {
            return Err(
                CopulaError::InvalidParameter {
                    message: String::from_str("Dimension must be >= 2."),
                },
            );
        }
        let ok = if !theta.is_finite() {
            false
        } else if theta.bits() >= F64_SIGN_MASK {
            theta.magnitude_times_lt_one(dimension - 1)
        } else {
            true
        };
        if !ok {
            return Err(
                CopulaError::InvalidParameter {
                    message: String::from_str("Theta must be > -1/(d-1)"),
                },
            );
        }
        Ok(ClaytonCopula { theta, dimension })
    }
}

impl Copula for ClaytonCopula {
    open spec fn wf(&self) -> bool {
        self.dimension >= 2 && clayton_theta_ok(self.theta.bits, self.dimension)
    }

    open spec fn dim_spec(&self) -> usize {
        self.dimension
    }

    open spec fn params_spec(&self) -> Seq<Real> {
        seq![self.theta]
    }

    /// This family does not validate coordinate values.
    open spec fn cdf_values_ok(&self, u: Seq<Real>) -> bool {
        true
    }

    open spec fn pdf_implemented(&self) -> bool {
        true
    }

    open spec fn sample_implemented(&self) -> bool {
        true
    }

    open spec fn sample_param_ok(&self) -> bool {
        clayton_sampling_theta_ok(self.theta.bits)
    }

    /// Exactly one value is required, and it must be a finite double not
    /// below zero — stricter than construction, since sampling requires
    /// a nonnegative theta.
    open spec fn accepts_params(&self, params: Seq<Real>) -> bool {
        params.len() == 1 && nonneg_finite_bits(params[0].bits)
    }

    open spec fn with_params(&self, params: Seq<Real>) -> Self {
        ClaytonCopula { theta: params[0], dimension: self.dimension }
    }

    proof fn lemma_wf_dim(&self) {
    }

    proof fn lemma_set_own_params(&self) {
    }

    proof fn lemma_with_params_wf(&self, params: Seq<Real>) {
        lemma_nonneg_theta_in_domain(params[0].bits, self.dimension);
    }

    fn dimension(&self) -> (r: usize) {
        self.dimension
    }

    fn well_formed(&self) -> (r: bool) {
        if self.dimension < 2 {
            return false;
        }
        if !self.theta.is_finite() {
            return false;
        }
        if self.theta.bits() >= F64_SIGN_MASK {
            self.theta.magnitude_times_lt_one(self.dimension - 1)
        } else {
            true
        }
    }

    fn parameters(&self) -> (r: Vec<Real>) {
        let mut v: Vec<Real> = Vec::new();
        v.push(self.theta);
        proof {
            assert(v@ =~= seq![self.theta]);
        }
        v
    }

    fn set_parameters(&mut self, params: &Vec<Real>) -> (r: Result<(), CopulaError>) {
        if params.len() != 1 {
            return Err(
                CopulaError::InvalidParameter {
                    message: String::from_str("Clayton expects exactly 1 parameter (theta)"),
                },
            );
        }
        let theta = params[0];
        if theta.is_nonneg_finite() {
            proof {
                lemma_nonneg_theta_in_domain(theta.bits, self.dimension);
            }
            self.theta = theta;
            Ok(())
        } else {
            Err(
                CopulaError::InvalidParameter {
                    message: String::from_str("theta must be >= 0 for Clayton sampling"),
                },
            )
        }
    }

    fn cdf_check(&self, u: &Vec<Real>) -> (r: Result<(), CopulaError>) {
        if u.len() != self.dimension {
            Err(CopulaError::DimensionMismatch { expected: self.dimension, actual: u.len() })
        } else {
            Ok(())
        }
    }

    fn pdf_check(&self, u: &Vec<Real>) -> (r: Result<(), CopulaError>) {
        if u.len() != self.dimension {
            Err(CopulaError::DimensionMismatch { expected: self.dimension, actual: u.len() })
        } else {
            Ok(())
        }
    }

    fn sample_check(&self, n: usize) -> (r: Result<(usize, usize), CopulaError>) {
        if self.theta.is_strictly_negative() {
            Err(
                CopulaError::InvalidParameter {
                    message: String::from_str("Sampling only implemented for theta >= 0"),
                },
            )
        } else if !self.theta.is_ge_min_pos_normal() {
            Err(
                CopulaError::InvalidParameter {
                    message: String::from_str(
                        "Sampling requires theta at least the smallest positive normal value",
                    ),
                },
            )
        } else {
            Ok((n, self.dimension))
        }
    }
}

} // verus!
