//! The beta distribution, computed by `statrs::distribution::Beta`.
//!
//! Functions: `beta_pdf(x, alpha, beta)`, `beta_ln_pdf(x, alpha, beta)`, `beta_cdf(x, alpha, beta)`, `beta_sf(x, alpha, beta)`,
//! with arguments x: Float64, alpha: Float64, beta: Float64.
//! `alpha` and `beta` are the shape parameters, both positive.

use vstd::prelude::*;
use crate::registry::{installed, pairs_of, register as install, replaced_names, FunctionRegistry};
use crate::udf::{functions_of, Distribution, Stat, Udf};

verus! {

/// The probability density, `beta_pdf(x, alpha, beta)`.
pub fn pdf() -> (r: Udf)
    ensures
        r.wf(),
        r.distribution == Distribution::Beta,
        r.stat == Stat::Pdf,
{
    Udf::new(Distribution::Beta, Stat::Pdf)
}

/// The natural logarithm of the probability density, `beta_ln_pdf(x, alpha, beta)`.
pub fn ln_pdf() -> (r: Udf)
    ensures
        r.wf(),
        r.distribution == Distribution::Beta,
        r.stat == Stat::LnPdf,
{
    Udf::new(Distribution::Beta, Stat::LnPdf)
}

/// The cumulative distribution function, `beta_cdf(x, alpha, beta)`.
pub fn cdf() -> (r: Udf)
    ensures
        r.wf(),
        r.distribution == Distribution::Beta,
        r.stat == Stat::Cdf,
{
    Udf::new(Distribution::Beta, Stat::Cdf)
}

/// The survival function, `beta_sf(x, alpha, beta)`.
pub fn sf() -> (r: Udf)
    ensures
        r.wf(),
        r.distribution == Distribution::Beta,
        r.stat == Stat::Sf,
{
    Udf::new(Distribution::Beta, Stat::Sf)
}

/// Installs the functions of the beta distribution into `registry`, and
/// returns the names of the functions replaced.
pub fn register(registry: &mut FunctionRegistry) -> (replaced: Vec<String>)
    requires
        old(registry).wf(),
    ensures
        final(registry).wf(),
        final(registry)@ == installed(old(registry)@, functions_of(Distribution::Beta)),
        replaced@.map_values(|s: String| s@) == replaced_names(
            old(registry)@,
            functions_of(Distribution::Beta),
        ),
{
    let functions = vec![pdf(), ln_pdf(), cdf(), sf()];
    assert(pairs_of(functions@) =~= functions_of(Distribution::Beta));
    install(registry, functions)
}

} // verus!
