use vstd::prelude::*;
use crate::copula::dimension_mismatch_err;
use crate::copula::Copula;
use crate::errors::CopulaError;
use crate::numeric::unit_gate_bits;
use crate::numeric::Real;
use crate::numeric::F64_ONE_BITS;

verus! {

/// The trivial family used as the no-dependence baseline: zero free
/// parameters, product-form CDF, constant density, coordinate-wise
/// independent sampling.
#[derive(Debug, Clone, Copy)]
pub struct IndependenceCopula {
    pub dimension: usize,
}

impl IndependenceCopula {
    /// Validating constructor: accepts exactly the dimensions of at least
    /// two, and rejects the rest fail-fast with `InvalidParameter`.
    pub fn new(dimension: usize) -> (r: Result<IndependenceCopula, CopulaError>)
        ensures
            dimension >= 2 ==> (r matches Ok(c) && c.wf() && c.dimension == dimension),
            dimension < 2 ==> (r matches Err(e) && e is InvalidParameter),
    {
        if dimension < 2 {
            Err(
                CopulaError::InvalidParameter {
                    message: String::from_str("Dimension must be >= 2."),
                },
            )
        } else {
            Ok(IndependenceCopula { dimension })
        }
    }

    /// The density of the independence copula is identically one: after
    /// the length gate the call returns exactly the double 1.0, for every
    /// input vector of the right length.
    pub fn pdf(&self, u: &Vec<Real>) -> (r: Result<Real, CopulaError>)
        requires
            self.wf(),
        ensures
            u@.len() != self.dimension as nat ==> r == Err::<Real, CopulaError>(
                dimension_mismatch_err(self.dimension, u@.len()),
            ),
            u@.len() == self.dimension as nat ==> r == Ok::<Real, CopulaError>(
                (Real { bits: F64_ONE_BITS }),
            ),
    {
        if u.len() != self.dimension {
            Err(CopulaError::DimensionMismatch { expected: self.dimension, actual: u.len() })
        } else {
            Ok(Real::one())
        }
    }
}

impl Copula for IndependenceCopula {
    open spec fn wf(&self) -> bool {
        self.dimension >= 2
    }

    open spec fn dim_spec(&self) -> usize {
        self.dimension
    }

    open spec fn params_spec(&self) -> Seq<Real> {
        Seq::empty()
    }

    /// This family validates that every coordinate passes the
    /// unit-interval gate `!(x < 0.0 || x > 1.0)`.
    open spec fn cdf_values_ok(&self, u: Seq<Real>) -> bool {
        forall|i: int| 0 <= i < u.len() ==> #[trigger] unit_gate_bits(u[i].bits)
    }

    open spec fn pdf_implemented(&self) -> bool {
        true
    }

    open spec fn sample_implemented(&self) -> bool {
        true
    }

    open spec fn sample_param_ok(&self) -> bool {
        true
    }

    /// A parameterless family: any vector is accepted and ignored.
    open spec fn accepts_params(&self, params: Seq<Real>) -> bool {
        true
    }

    open spec fn with_params(&self, params: Seq<Real>) -> Self {
        *self
    }

    proof fn lemma_wf_dim(&self) {
    }

    proof fn lemma_set_own_params(&self) {
    }

    proof fn lemma_with_params_wf(&self, params: Seq<Real>) {
    }

    fn dimension(&self) -> (r: usize) {
        self.dimension
    }

    fn well_formed(&self) -> (r: bool) {
        self.dimension >= 2
    }

    fn parameters(&self) -> (r: Vec<Real>) {
        Vec::new()
    }

    fn set_parameters(&mut self, params: &Vec<Real>) -> (r: Result<(), CopulaError>) {
        Ok(())
    }

    fn cdf_check(&self, u: &Vec<Real>) -> (r: Result<(), CopulaError>) {
        if u.len() != self.dimension {
            return Err(
                CopulaError::DimensionMismatch { expected: self.dimension, actual: u.len() },
            );
        }
        let mut i: usize = 0;
        while i < u.len()
            invariant
                i <= u@.len(),
                u@.len() == self.dimension as nat,
                forall|j: int| 0 <= j < i ==> #[trigger] unit_gate_bits(u@[j].bits),
            decreases u@.len() - i,
        {
            let v = u[i];
            if !v.passes_unit_gate() {
                return Err(
                    CopulaError::InvalidData {
                        message: String::from_str("Values must be in [0,1]"),
                    },
                );
            }
            i = i + 1;
        }
        Ok(())
    }

    fn pdf_check(&self, u: &Vec<Real>) -> (r: Result<(), CopulaError>) {
        if u.len() != self.dimension {
            Err(CopulaError::DimensionMismatch { expected: self.dimension, actual: u.len() })
        } else {
            Ok(())
        }
    }

    fn sample_check(&self, n: usize) -> (r: Result<(usize, usize), CopulaError>) {
        Ok((n, self.dimension))
    }
}

} // verus!
