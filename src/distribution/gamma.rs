//! The gamma distribution, computed by `statrs::distribution::Gamma`.
//!
//! Functions: `gamma_pdf(x, alpha, lambda)`, `gamma_ln_pdf(x, alpha, lambda)`, `gamma_cdf(x, alpha, lambda)`, `gamma_sf(x, alpha, lambda)`,
//! with arguments x: Float64, alpha: Float64, lambda: Float64.
//! `alpha` is the shape and `lambda` the rate, both positive.

use vstd::prelude::*;
use crate::registry::{installed, pairs_of, register as install, replaced_names, FunctionRegistry};
use crate::udf::{functions_of, Distribution, Stat, Udf};

verus! {

/// The probability density, `gamma_pdf(x, alpha, lambda)`.
pub fn pdf() -> (r: Udf)
    ensures
        r.wf(),
        r.distribution == Distribution::Gamma,
        r.stat == Stat::Pdf,
{
    Udf::new(Distribution::Gamma, Stat::Pdf)
}

/// The natural logarithm of the probability density, `gamma_ln_pdf(x, alpha, lambda)`.
pub fn ln_pdf() -> (r: Udf)
    ensures
        r.wf(),
        r.distribution == Distribution::Gamma,
        r.stat == Stat::LnPdf,
{
    Udf::new(Distribution::Gamma, Stat::LnPdf)
}

/// The cumulative distribution function, `gamma_cdf(x, alpha, lambda)`.
pub fn cdf() -> (r: Udf)
    ensures
        r.wf(),
        r.distribution == Distribution::Gamma,
        r.stat == Stat::Cdf,
{
    Udf::new(Distribution::Gamma, Stat::Cdf)
}

/// The survival function, `gamma_sf(x, alpha, lambda)`.
pub fn sf() -> (r: Udf)
    ensures
        r.wf(),
        r.distribution == Distribution::Gamma,
        r.stat == Stat::Sf,
{
    Udf::new(Distribution::Gamma, Stat::Sf)
}

/// Installs the functions of the gamma distribution into `registry`, and
/// returns the names of the functions replaced.
pub fn register(registry: &mut FunctionRegistry) -> (replaced: Vec<String>)
    requires
        old(registry).wf(),
    ensures
        final(registry).wf(),
        final(registry)@ == installed(old(registry)@, functions_of(Distribution::Gamma)),
        replaced@.map_values(|s: String| s@) == replaced_names(
            old(registry)@,
            functions_of(Distribution::Gamma),
        ),
{
    let functions = vec![pdf(), ln_pdf(), cdf(), sf()];
    assert(pairs_of(functions@) =~= functions_of(Distribution::Gamma));
    install(registry, functions)
}

} // verus!
