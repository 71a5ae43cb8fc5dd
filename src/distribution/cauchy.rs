//! The Cauchy distribution, computed by `statrs::distribution::Cauchy`.
//!
//! Functions: `cauchy_pdf(x, x0, gamma)`, `cauchy_ln_pdf(x, x0, gamma)`, `cauchy_cdf(x, x0, gamma)`, `cauchy_sf(x, x0, gamma)`,
//! with arguments x: Float64, x0: Float64, gamma: Float64.
//! `x0` is the location and `gamma` the scale, positive.

use vstd::prelude::*;
use crate::registry::{installed, pairs_of, register as install, replaced_names, FunctionRegistry};
use crate::udf::{functions_of, Distribution, Stat, Udf};

verus! {

/// The probability density, `cauchy_pdf(x, x0, gamma)`.
pub fn pdf() -> (r: Udf)
    ensures
        r.wf(),
        r.distribution == Distribution::Cauchy,
        r.stat == Stat::Pdf,
{
    Udf::new(Distribution::Cauchy, Stat::Pdf)
}

/// The natural logarithm of the probability density, `cauchy_ln_pdf(x, x0, gamma)`.
pub fn ln_pdf() -> (r: Udf)
    ensures
        r.wf(),
        r.distribution == Distribution::Cauchy,
        r.stat == Stat::LnPdf,
{
    Udf::new(Distribution::Cauchy, Stat::LnPdf)
}

/// The cumulative distribution function, `cauchy_cdf(x, x0, gamma)`.
pub fn cdf() -> (r: Udf)
    ensures
        r.wf(),
        r.distribution == Distribution::Cauchy,
        r.stat == Stat::Cdf,
{
    Udf::new(Distribution::Cauchy, Stat::Cdf)
}

/// The survival function, `cauchy_sf(x, x0, gamma)`.
pub fn sf() -> (r: Udf)
    ensures
        r.wf(),
        r.distribution == Distribution::Cauchy,
        r.stat == Stat::Sf,
{
    Udf::new(Distribution::Cauchy, Stat::Sf)
}

/// Installs the functions of the Cauchy distribution into `registry`, and
/// returns the names of the functions replaced.
pub fn register(registry: &mut FunctionRegistry) -> (replaced: Vec<String>)
    requires
        old(registry).wf(),
    ensures
        final(registry).wf(),
        final(registry)@ == installed(old(registry)@, functions_of(Distribution::Cauchy)),
        replaced@.map_values(|s: String| s@) == replaced_names(
            old(registry)@,
            functions_of(Distribution::Cauchy),
        ),
{
    let functions = vec![pdf(), ln_pdf(), cdf(), sf()];
    assert(pairs_of(functions@) =~= functions_of(Distribution::Cauchy));
    install(registry, functions)
}

} // verus!
