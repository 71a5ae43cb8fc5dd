//! The inverse gamma distribution, computed by `statrs::distribution::InverseGamma`.
//!
//! Functions: `inverse_gamma_pdf(x, alpha, beta)`, `inverse_gamma_cdf(x, alpha, beta)`, `inverse_gamma_sf(x, alpha, beta)`,
//! with arguments x: Float64, alpha: Float64, beta: Float64.
//! `alpha` is the shape and `beta` the scale, both positive.

use vstd::prelude::*;
use crate::registry::{installed, pairs_of, register as install, replaced_names, FunctionRegistry};
use crate::udf::{functions_of, Distribution, Stat, Udf};

verus! {

/// The probability density, `inverse_gamma_pdf(x, alpha, beta)`.
pub fn pdf() -> (r: Udf)
    ensures
        r.wf(),
        r.distribution == Distribution::InverseGamma,
        r.stat == Stat::Pdf,
{
    Udf::new(Distribution::InverseGamma, Stat::Pdf)
}

/// The cumulative distribution function, `inverse_gamma_cdf(x, alpha, beta)`.
pub fn cdf() -> (r: Udf)
    ensures
        r.wf(),
        r.distribution == Distribution::InverseGamma,
        r.stat == Stat::Cdf,
{
    Udf::new(Distribution::InverseGamma, Stat::Cdf)
}

/// The survival function, `inverse_gamma_sf(x, alpha, beta)`.
pub fn sf() -> (r: Udf)
    ensures
        r.wf(),
        r.distribution == Distribution::InverseGamma,
        r.stat == Stat::Sf,
{
    Udf::new(Distribution::InverseGamma, Stat::Sf)
}

/// Installs the functions of the inverse gamma distribution into `registry`, and
/// returns the names of the functions replaced.
pub fn register(registry: &mut FunctionRegistry) -> (replaced: Vec<String>)
    requires
        old(registry).wf(),
    ensures
        final(registry).wf(),
        final(registry)@ == installed(old(registry)@, functions_of(Distribution::InverseGamma)),
        replaced@.map_values(|s: String| s@) == replaced_names(
            old(registry)@,
            functions_of(Distribution::InverseGamma),
        ),
{
    let functions = vec![pdf(), cdf(), sf()];
    assert(pairs_of(functions@) =~= functions_of(Distribution::InverseGamma));
    install(registry, functions)
}

} // verus!
