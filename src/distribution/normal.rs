//! The normal distribution, computed by `statrs::distribution::Normal`.
//!
//! Functions: `normal_pdf(x, mu, sigma)`, `normal_ln_pdf(x, mu, sigma)`, `normal_cdf(x, mu, sigma)`, `normal_sf(x, mu, sigma)`,
//! with arguments x: Float64, mu: Float64, sigma: Float64.
//! `mu` is the mean and `sigma` the standard deviation, positive.

use vstd::prelude::*;
use crate::registry::{installed, pairs_of, register as install, replaced_names, FunctionRegistry};
use crate::udf::{functions_of, Distribution, Stat, Udf};

verus! {

/// The probability density, `normal_pdf(x, mu, sigma)`.
pub fn pdf() -> (r: Udf)
    ensures
        r.wf(),
        r.distribution == Distribution::Normal,
        r.stat == Stat::Pdf,
{
    Udf::new(Distribution::Normal, Stat::Pdf)
}

/// The natural logarithm of the probability density, `normal_ln_pdf(x, mu, sigma)`.
pub fn ln_pdf() -> (r: Udf)
    ensures
        r.wf(),
        r.distribution == Distribution::Normal,
        r.stat == Stat::LnPdf,
{
    Udf::new(Distribution::Normal, Stat::LnPdf)
}

/// The cumulative distribution function, `normal_cdf(x, mu, sigma)`.
pub fn cdf() -> (r: Udf)
    ensures
        r.wf(),
        r.distribution == Distribution::Normal,
        r.stat == Stat::Cdf,
{
    Udf::new(Distribution::Normal, Stat::Cdf)
}

/// The survival function, `normal_sf(x, mu, sigma)`.
pub fn sf() -> (r: Udf)
    ensures
        r.wf(),
        r.distribution == Distribution::Normal,
        r.stat == Stat::Sf,
{
    Udf::new(Distribution::Normal, Stat::Sf)
}

/// Installs the functions of the normal distribution into `registry`, and
/// returns the names of the functions replaced.
pub fn register(registry: &mut FunctionRegistry) -> (replaced: Vec<String>)
    requires
        old(registry).wf(),
    ensures
        final(registry).wf(),
        final(registry)@ == installed(old(registry)@, functions_of(Distribution::Normal)),
        replaced@.map_values(|s: String| s@) == replaced_names(
            old(registry)@,
            functions_of(Distribution::Normal),
        ),
{
    let functions = vec![pdf(), ln_pdf(), cdf(), sf()];
    assert(pairs_of(functions@) =~= functions_of(Distribution::Normal));
    install(registry, functions)
}

} // verus!
