//! The chi-squared distribution, computed by `statrs::distribution::ChiSquared`.
//!
//! Functions: `chi_squared_pdf(x, k)`, `chi_squared_cdf(x, k)`, `chi_squared_sf(x, k)`,
//! with arguments x: Float64, k: Float64.
//! `k` is the number of degrees of freedom, positive.

use vstd::prelude::*;
use crate::registry::{installed, pairs_of, register as install, replaced_names, FunctionRegistry};
use crate::udf::{functions_of, Distribution, Stat, Udf};

verus! {

/// The probability density, `chi_squared_pdf(x, k)`.
pub fn pdf() -> (r: Udf)
    ensures
        r.wf(),
        r.distribution == Distribution::ChiSquared,
        r.stat == Stat::Pdf,
{
    Udf::new(Distribution::ChiSquared, Stat::Pdf)
}

/// The cumulative distribution function, `chi_squared_cdf(x, k)`.
pub fn cdf() -> (r: Udf)
    ensures
        r.wf(),
        r.distribution == Distribution::ChiSquared,
        r.stat == Stat::Cdf,
{
    Udf::new(Distribution::ChiSquared, Stat::Cdf)
}

/// The survival function, `chi_squared_sf(x, k)`.
pub fn sf() -> (r: Udf)
    ensures
        r.wf(),
        r.distribution == Distribution::ChiSquared,
        r.stat == Stat::Sf,
{
    Udf::new(Distribution::ChiSquared, Stat::Sf)
}

/// Installs the functions of the chi-squared distribution into `registry`, and
/// returns the names of the functions replaced.
pub fn register(registry: &mut FunctionRegistry) -> (replaced: Vec<String>)
    requires
        old(registry).wf(),
    ensures
        final(registry).wf(),
        final(registry)@ == installed(old(registry)@, functions_of(Distribution::ChiSquared)),
        replaced@.map_values(|s: String| s@) == replaced_names(
            old(registry)@,
            functions_of(Distribution::ChiSquared),
        ),
{
    let functions = vec![pdf(), cdf(), sf()];
    assert(pairs_of(functions@) =~= functions_of(Distribution::ChiSquared));
    install(registry, functions)
}

} // verus!
