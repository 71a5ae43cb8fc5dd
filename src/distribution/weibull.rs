//! The Weibull distribution, computed by `statrs::distribution::Weibull`.
//!
//! Functions: `weibull_pdf(x, k, lambda)`, `weibull_ln_pdf(x, k, lambda)`, `weibull_cdf(x, k, lambda)`, `weibull_sf(x, k, lambda)`,
//! with arguments x: Float64, k: Float64, lambda: Float64.
//! `k` is the shape and `lambda` the scale, both positive.

use vstd::prelude::*;
use crate::registry::{installed, pairs_of, register as install, replaced_names, FunctionRegistry};
use crate::udf::{functions_of, Distribution, Stat, Udf};

verus! {

/// The probability density, `weibull_pdf(x, k, lambda)`.
pub fn pdf() -> (r: Udf)
    ensures
        r.wf(),
        r.distribution == Distribution::Weibull,
        r.stat == Stat::Pdf,
{
    Udf::new(Distribution::Weibull, Stat::Pdf)
}

/// The natural logarithm of the probability density, `weibull_ln_pdf(x, k, lambda)`.
pub fn ln_pdf() -> (r: Udf)
    ensures
        r.wf(),
        r.distribution == Distribution::Weibull,
        r.stat == Stat::LnPdf,
{
    Udf::new(Distribution::Weibull, Stat::LnPdf)
}

/// The cumulative distribution function, `weibull_cdf(x, k, lambda)`.
pub fn cdf() -> (r: Udf)
    ensures
        r.wf(),
        r.distribution == Distribution::Weibull,
        r.stat == Stat::Cdf,
{
    Udf::new(Distribution::Weibull, Stat::Cdf)
}

/// The survival function, `weibull_sf(x, k, lambda)`.
pub fn sf() -> (r: Udf)
    ensures
        r.wf(),
        r.distribution == Distribution::Weibull,
        r.stat == Stat::Sf,
{
    Udf::new(Distribution::Weibull, Stat::Sf)
}

/// Installs the functions of the Weibull distribution into `registry`, and
/// returns the names of the functions replaced.
pub fn register(registry: &mut FunctionRegistry) -> (replaced: Vec<String>)
    requires
        old(registry).wf(),
    ensures
        final(registry).wf(),
        final(registry)@ == installed(old(registry)@, functions_of(Distribution::Weibull)),
        replaced@.map_values(|s: String| s@) == replaced_names(
            old(registry)@,
            functions_of(Distribution::Weibull),
        ),
{
    let functions = vec![pdf(), ln_pdf(), cdf(), sf()];
    assert(pairs_of(functions@) =~= functions_of(Distribution::Weibull));
    install(registry, functions)
}

} // verus!
