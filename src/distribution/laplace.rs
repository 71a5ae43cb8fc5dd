//! The Laplace distribution, computed by `statrs::distribution::Laplace`.
//!
//! Functions: `laplace_pdf(x, mu, b)`, `laplace_ln_pdf(x, mu, b)`, `laplace_cdf(x, mu, b)`, `laplace_sf(x, mu, b)`,
//! with arguments x: Float64, mu: Float64, b: Float64.
//! `mu` is the location and `b` the scale, positive.

use vstd::prelude::*;
use crate::registry::{installed, pairs_of, register as install, replaced_names, FunctionRegistry};
use crate::udf::{functions_of, Distribution, Stat, Udf};

verus! {

/// The probability density, `laplace_pdf(x, mu, b)`.
pub fn pdf() -> (r: Udf)
    ensures
        r.wf(),
        r.distribution == Distribution::Laplace,
        r.stat == Stat::Pdf,
{
    Udf::new(Distribution::Laplace, Stat::Pdf)
}

/// The natural logarithm of the probability density, `laplace_ln_pdf(x, mu, b)`.
pub fn ln_pdf() -> (r: Udf)
    ensures
        r.wf(),
        r.distribution == Distribution::Laplace,
        r.stat == Stat::LnPdf,
{
    Udf::new(Distribution::Laplace, Stat::LnPdf)
}

/// The cumulative distribution function, `laplace_cdf(x, mu, b)`.
pub fn cdf() -> (r: Udf)
    ensures
        r.wf(),
        r.distribution == Distribution::Laplace,
        r.stat == Stat::Cdf,
{
    Udf::new(Distribution::Laplace, Stat::Cdf)
}

/// The survival function, `laplace_sf(x, mu, b)`.
pub fn sf() -> (r: Udf)
    ensures
        r.wf(),
        r.distribution == Distribution::Laplace,
        r.stat == Stat::Sf,
{
    Udf::new(Distribution::Laplace, Stat::Sf)
}

/// Installs the functions of the Laplace distribution into `registry`, and
/// returns the names of the functions replaced.
pub fn register(registry: &mut FunctionRegistry) -> (replaced: Vec<String>)
    requires
        old(registry).wf(),
    ensures
        final(registry).wf(),
        final(registry)@ == installed(old(registry)@, functions_of(Distribution::Laplace)),
        replaced@.map_values(|s: String| s@) == replaced_names(
            old(registry)@,
            functions_of(Distribution::Laplace),
        ),
{
    let functions = vec![pdf(), ln_pdf(), cdf(), sf()];
    assert(pairs_of(functions@) =~= functions_of(Distribution::Laplace));
    install(registry, functions)
}

} // verus!
