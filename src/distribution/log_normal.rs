//! The log-normal distribution, computed by `statrs::distribution::LogNormal`.
//!
//! Functions: `log_normal_pdf(x, mu, sigma)`, `log_normal_ln_pdf(x, mu, sigma)`, `log_normal_cdf(x, mu, sigma)`, `log_normal_sf(x, mu, sigma)`,
//! with arguments x: Float64, mu: Float64, sigma: Float64.
//! `mu` is the location and `sigma` the scale, positive.

use vstd::prelude::*;
use crate::registry::{installed, pairs_of, register as install, replaced_names, FunctionRegistry};
use crate::udf::{functions_of, Distribution, Stat, Udf};

verus! {

/// The probability density, `log_normal_pdf(x, mu, sigma)`.
pub fn pdf() -> (r: Udf)
    ensures
        r.wf(),
        r.distribution == Distribution::LogNormal,
        r.stat == Stat::Pdf,
{
    Udf::new(Distribution::LogNormal, Stat::Pdf)
}

/// The natural logarithm of the probability density, `log_normal_ln_pdf(x, mu, sigma)`.
pub fn ln_pdf() -> (r: Udf)
    ensures
        r.wf(),
        r.distribution == Distribution::LogNormal,
        r.stat == Stat::LnPdf,
{
    Udf::new(Distribution::LogNormal, Stat::LnPdf)
}

/// The cumulative distribution function, `log_normal_cdf(x, mu, sigma)`.
pub fn cdf() -> (r: Udf)
    ensures
        r.wf(),
        r.distribution == Distribution::LogNormal,
        r.stat == Stat::Cdf,
{
    Udf::new(Distribution::LogNormal, Stat::Cdf)
}

/// The survival function, `log_normal_sf(x, mu, sigma)`.
pub fn sf() -> (r: Udf)
    ensures
        r.wf(),
        r.distribution == Distribution::LogNormal,
        r.stat == Stat::Sf,
{
    Udf::new(Distribution::LogNormal, Stat::Sf)
}

/// Installs the functions of the log-normal distribution into `registry`, and
/// returns the names of the functions replaced.
pub fn register(registry: &mut FunctionRegistry) -> (replaced: Vec<String>)
    requires
        old(registry).wf(),
    ensures
        final(registry).wf(),
        final(registry)@ == installed(old(registry)@, functions_of(Distribution::LogNormal)),
        replaced@.map_values(|s: String| s@) == replaced_names(
            old(registry)@,
            functions_of(Distribution::LogNormal),
        ),
{
    let functions = vec![pdf(), ln_pdf(), cdf(), sf()];
    assert(pairs_of(functions@) =~= functions_of(Distribution::LogNormal));
    install(registry, functions)
}

} // verus!
