use vstd::prelude::*;
use crate::errors::CopulaError;
use crate::numeric::Real;

verus! {

/// The error returned whenever an input vector's length differs from an
/// instance's dimension.
pub open spec fn dimension_mismatch_err(expected: usize, actual: nat) -> CopulaError {
    CopulaError::DimensionMismatch { expected, actual: actual as usize }
}

/// The two classes of parameter-estimation strategy the fitting extension
/// names: matching a summary statistic, and maximizing a likelihood.
#[derive(Debug, Clone, Copy)]
pub enum EstimationMethod {
    MOM,
    MLE,
}

/// The capability set every copula family exposes: report the dimension,
/// gate a CDF evaluation, gate a PDF evaluation, gate a sampling request,
/// and read or write the parameter vector.
///
/// Coordinates and parameters are opaque doubles (`Real`); the numeric
/// formulas a gate clears the way for run with the caller. Every decision
/// — which inputs are rejected, with which error kind, and what a
/// parameter write does to the instance — is specified exactly here and
/// proved of each family.
pub trait Copula: Sized + Clone + core::fmt::Debug {
    /// The instance's construction-time invariants hold.
    spec fn wf(&self) -> bool;

    /// The dimension, fixed at construction.
    spec fn dim_spec(&self) -> usize;

    /// The current parameter vector: empty for a parameterless family,
    /// a single theta for the one-parameter families.
    spec fn params_spec(&self) -> Seq<Real>;

    /// Whether the coordinate values of a CDF input pass the family's
    /// value validation. A family that does not validate values accepts
    /// every vector here.
    spec fn cdf_values_ok(&self, u: Seq<Real>) -> bool;

    /// Whether the family has a closed-form density.
    spec fn pdf_implemented(&self) -> bool;

    /// Whether the family has a sampling algorithm at all.
    spec fn sample_implemented(&self) -> bool;

    /// Whether the current parameter lies in the implemented sampling
    /// domain.
    spec fn sample_param_ok(&self) -> bool;

    /// Whether `set_parameters` accepts this parameter vector.
    spec fn accepts_params(&self, params: Seq<Real>) -> bool;

    /// The instance an accepted parameter write produces.
    spec fn with_params(&self, params: Seq<Real>) -> Self;

    /// A well-formed instance has dimension at least two.
    proof fn lemma_wf_dim(&self)
        requires
            self.wf(),
        ensures
            self.dim_spec() >= 2,
    ;

    /// Parameter get and set compose to the identity: writing back an
    /// instance's own parameter vector, where accepted, reconstructs the
    /// instance exactly.
    proof fn lemma_set_own_params(&self)
        requires
            self.wf(),
        ensures
            self.accepts_params(self.params_spec()) ==> self.with_params(self.params_spec()) == *self,
    ;

    /// An accepted parameter write preserves well-formedness and the
    /// dimension.
    proof fn lemma_with_params_wf(&self, params: Seq<Real>)
        requires
            self.wf(),
            self.accepts_params(params),
        ensures
            self.with_params(params).wf(),
            self.with_params(params).dim_spec() == self.dim_spec(),
    ;

    /// The dimension of the joint distribution.
    fn dimension(&self) -> (r: usize)
        requires
            self.wf(),
        ensures
            r == self.dim_spec(),
    ;

    /// Runtime test of the construction-time invariants, for callers that
    /// did not obtain the instance from a validating constructor.
    fn well_formed(&self) -> (r: bool)
        ensures
            r == self.wf(),
    ;

    /// The current parameter vector.
    fn parameters(&self) -> (r: Vec<Real>)
        requires
            self.wf(),
        ensures
            r@ == self.params_spec(),
    ;

    /// Replaces the stored parameters atomically: either the whole
    /// validated vector applies, or the instance is left untouched and an
    /// `InvalidParameter` error is returned.
    fn set_parameters(&mut self, params: &Vec<Real>) -> (r: Result<(), CopulaError>)
        requires
            old(self).wf(),
        ensures
            final(self).wf(),
            final(self).dim_spec() == old(self).dim_spec(),
            r is Ok <==> old(self).accepts_params(params@),
            r is Ok ==> *final(self) == old(self).with_params(params@),
            r is Err ==> *final(self) == *old(self),
            r is Err ==> r->Err_0 is InvalidParameter,
    ;

    /// Gate for a CDF evaluation on input `u`: rejects a wrong-length
    /// vector with the exact `DimensionMismatch` error, then rejects
    /// values that fail the family's value validation with `InvalidData`,
    /// and otherwise clears the evaluation.
    fn cdf_check(&self, u: &Vec<Real>) -> (r: Result<(), CopulaError>)
        requires
            self.wf(),
        ensures
            u@.len() != self.dim_spec() as nat ==> r == Err::<(), CopulaError>(
                dimension_mismatch_err(self.dim_spec(), u@.len()),
            ),
            u@.len() == self.dim_spec() as nat && !self.cdf_values_ok(u@) ==> (r matches Err(e)
                && e is InvalidData),
            u@.len() == self.dim_spec() as nat && self.cdf_values_ok(u@) ==> r == Ok::<
                (),
                CopulaError,
            >(()),
    ;

    /// Gate for a PDF evaluation: a family without a closed-form density
    /// reports `NotImplemented` whatever the input; otherwise a
    /// wrong-length vector is rejected with the exact `DimensionMismatch`
    /// error and anything else clears the evaluation.
    fn pdf_check(&self, u: &Vec<Real>) -> (r: Result<(), CopulaError>)
        requires
            self.wf(),
        ensures
            !self.pdf_implemented() ==> (r matches Err(e) && e is NotImplemented),
            self.pdf_implemented() && u@.len() != self.dim_spec() as nat ==> r == Err::<
                (),
                CopulaError,
            >(dimension_mismatch_err(self.dim_spec(), u@.len())),
            self.pdf_implemented() && u@.len() == self.dim_spec() as nat ==> r == Ok::<
                (),
                CopulaError,
            >(()),
    ;

    /// Gate for a sampling request of `n` rows: a family without a
    /// sampling algorithm reports `NotImplemented`; one whose current
    /// parameter lies outside the implemented sampling domain reports
    /// `InvalidParameter`; otherwise the draw is cleared and the shape of
    /// the sample matrix — `n` rows by `dimension` columns — is returned.
    fn sample_check(&self, n: usize) -> (r: Result<(usize, usize), CopulaError>)
        requires
            self.wf(),
        ensures
            !self.sample_implemented() ==> (r matches Err(e) && e is NotImplemented),
            self.sample_implemented() && !self.sample_param_ok() ==> (r matches Err(e)
                && e is InvalidParameter),
            self.sample_implemented() && self.sample_param_ok() ==> r == Ok::<
                (usize, usize),
                CopulaError,
            >((n, self.dim_spec())),
    ;
}

/// Parameter get and set compose to the identity on every family: where a
/// copula's own parameter vector is accepted back, writing it reconstructs
/// the very same instance, so every subsequent CDF, PDF or sampling
/// decision is unchanged.
pub proof fn lemma_parameter_round_trip<C: Copula>(c: C)
    requires
        c.wf(),
    ensures
        c.accepts_params(c.params_spec()) ==> c.with_params(c.params_spec()) == c,
{
    c.lemma_set_own_params();
}

/// Executable form of the round-trip law: feeding any well-formed copula
/// its own parameter vector back — whether the write is accepted or
/// rejected — leaves the instance exactly as it was.
pub fn reset_parameters<C: Copula>(c: &mut C) -> (r: Result<(), CopulaError>)
    requires
        old(c).wf(),
    ensures
        *final(c) == *old(c),
        r is Ok <==> old(c).accepts_params(old(c).params_spec()),
        r is Err ==> r->Err_0 is InvalidParameter,
{
    let params = c.parameters();
    proof {
        lemma_parameter_round_trip(*c);
    }
    c.set_parameters(&params)
}

/// The fitting extension point, layered on the copula contract: estimate
/// the parameters from pseudo-observations — one row per draw, one
/// coordinate per column, each value on the unit scale — by the named
/// method, and store them in place. No family implements it yet; the
/// signature is the stable surface a future estimator fills in.
pub trait Fittable: Copula {
    fn fit(&mut self, data: &Vec<Vec<Real>>, method: EstimationMethod) -> Result<
        (),
        CopulaError,
    >;
}

} // verus!
