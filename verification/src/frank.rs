use vstd::prelude::*;
use crate::copula::Copula;
use crate::errors::CopulaError;
use crate::numeric::is_finite_bits;
use crate::numeric::is_zero_bits;
use crate::numeric::Real;

verus! {

/// The parameter domain of the Frank family: theta is a real number other
/// than zero, so the stored double must be finite and must not compare
/// equal to zero.
pub open spec fn frank_theta_ok(bits: u64) -> bool {
    is_finite_bits(bits) && !is_zero_bits(bits)
}

/// One-parameter Archimedean family with generator
/// `phi(t) = -ln((e^(-theta t) - 1) / (e^(-theta) - 1))`, theta != 0.
/// The CDF has a closed form; the density and the sampling algorithm are
/// deliberately not built yet and report `NotImplemented`.
#[derive(Debug, Clone, Copy)]
pub struct FrankCopula {
    pub theta: Real,
    pub dimension: usize,
}

impl FrankCopula {
    /// Validating constructor: the dimension must be at least two and
    /// theta must be a nonzero real; anything else is rejected fail-fast
    /// with `InvalidParameter`.
    pub fn new(theta: Real, dimension: usize) -> (r: Result<FrankCopula, CopulaError>)
        ensures
            dimension < 2 ==> (r matches Err(e) && e is InvalidParameter),
            dimension >= 2 && !frank_theta_ok(theta.bits) ==> (r matches Err(e)
                && e is InvalidParameter),
            dimension >= 2 && frank_theta_ok(theta.bits) ==> (r matches Ok(c) && c.wf()
                && c.theta == theta && c.dimension == dimension),
    {
        if dimension < 2 {
            return Err(
                CopulaError::InvalidParameter {
                    message: String::from_str("Dimension must be >= 2."),
                },
            );
        }
        if !theta.is_finite() || theta.is_zero_valued() {
            return Err(
                CopulaError::InvalidParameter { message: String::from_str("Theta != 0") },
            );
        }
        Ok(FrankCopula { theta, dimension })
    }
}

impl Copula for FrankCopula {
    open spec fn wf(&self) -> bool {
        self.dimension >= 2 && frank_theta_ok(self.theta.bits)
    }

    open spec fn dim_spec(&self) -> usize {
        self.dimension
    }

    open spec fn params_spec(&self) -> Seq<Real> {
        seq![self.theta]
    }

    /// This family does not validate coordinate values.
    open spec fn cdf_values_ok(&self, u: Seq<Real>) -> bool {
        true
    }

    open spec fn pdf_implemented(&self) -> bool {
        false
    }

    open spec fn sample_implemented(&self) -> bool {
        false
    }

    open spec fn sample_param_ok(&self) -> bool {
        true
    }

    /// Exactly one value is required, and construction and mutation share
    /// the zero-exclusion rule: the value must be a nonzero real.
    open spec fn accepts_params(&self, params: Seq<Real>) -> bool {
        params.len() == 1 && frank_theta_ok(params[0].bits)
    }

    open spec fn with_params(&self, params: Seq<Real>) -> Self {
        FrankCopula { theta: params[0], dimension: self.dimension }
    }

    proof fn lemma_wf_dim(&self) {
    }

    proof fn lemma_set_own_params(&self) {
    }

    proof fn lemma_with_params_wf(&self, params: Seq<Real>) {
    }

    fn dimension(&self) -> (r: usize) {
        self.dimension
    }

    fn well_formed(&self) -> (r: bool) {
        self.dimension >= 2 && self.theta.is_finite() && !self.theta.is_zero_valued()
    }

    fn parameters(&self) -> (r: Vec<Real>) {
        let mut v: Vec<Real> = Vec::new();
        v.push(self.theta);
        proof {
            assert(v@ =~= seq![self.theta]);
        }
        v
    }

    fn set_parameters(&mut self, params: &Vec<Real>) -> (r: Result<(), CopulaError>) {
        if params.len() != 1 {
            return Err(
                CopulaError::InvalidParameter {
                    message: String::from_str("Frank Copula expects exactly 1 parameter (theta)"),
                },
            );
        }
        let theta = params[0];
        if theta.is_finite() && !theta.is_zero_valued() {
            self.theta = theta;
            Ok(())
        } else {
            Err(CopulaError::InvalidParameter { message: String::from_str("Theta != 0") })
        }
    }

    fn cdf_check(&self, u: &Vec<Real>) -> (r: Result<(), CopulaError>) {
        if u.len() != self.dimension {
            Err(CopulaError::DimensionMismatch { expected: self.dimension, actual: u.len() })
        } else {
            Ok(())
        }
    }

    fn pdf_check(&self, u: &Vec<Real>) -> (r: Result<(), CopulaError>) {
        Err(
            CopulaError::NotImplemented {
                feature: String::from_str("pdf not yet implemented for Frank copula"),
            },
        )
    }

    fn sample_check(&self, n: usize) -> (r: Result<(usize, usize), CopulaError>) {
        Err(
            CopulaError::NotImplemented {
                feature: String::from_str("Sampling not yet implemented for Frank copula"),
            },
        )
    }
}

} // verus!
