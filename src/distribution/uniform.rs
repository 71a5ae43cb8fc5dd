//! The continuous uniform distribution, computed by `statrs::distribution::Uniform`.
//!
//! Functions: `uniform_pdf(x, min, max)`, `uniform_ln_pdf(x, min, max)`, `uniform_cdf(x, min, max)`, `uniform_sf(x, min, max)`,
//! with arguments x: Float64, min: Float64, max: Float64.
//! `min` < `max`.

use vstd::prelude::*;
use crate::registry::{installed, pairs_of, register as install, replaced_names, FunctionRegistry};
use crate::udf::{functions_of, Distribution, Stat, Udf};

verus! {

/// The probability density, `uniform_pdf(x, min, max)`.
pub fn pdf() -> (r: Udf)
    ensures
        r.wf(),
        r.distribution == Distribution::Uniform,
        r.stat == Stat::Pdf,
{
    Udf::new(Distribution::Uniform, Stat::Pdf)
}

/// The natural logarithm of the probability density, `uniform_ln_pdf(x, min, max)`.
pub fn ln_pdf() -> (r: Udf)
    ensures
        r.wf(),
        r.distribution == Distribution::Uniform,
        r.stat == Stat::LnPdf,
{
    Udf::new(Distribution::Uniform, Stat::LnPdf)
}

/// The cumulative distribution function, `uniform_cdf(x, min, max)`.
pub fn cdf() -> (r: Udf)
    ensures
        r.wf(),
        r.distribution == Distribution::Uniform,
        r.stat == Stat::Cdf,
{
    Udf::new(Distribution::Uniform, Stat::Cdf)
}

/// The survival function, `uniform_sf(x, min, max)`.
pub fn sf() -> (r: Udf)
    ensures
        r.wf(),
        r.distribution == Distribution::Uniform,
        r.stat == Stat::Sf,
{
    Udf::new(Distribution::Uniform, Stat::Sf)
}

/// Installs the functions of the continuous uniform distribution into `registry`, and
/// returns the names of the functions replaced.
pub fn register(registry: &mut FunctionRegistry) -> (replaced: Vec<String>)
    requires
        old(registry).wf(),
    ensures
        final(registry).wf(),
        final(registry)@ == installed(old(registry)@, functions_of(Distribution::Uniform)),
        replaced@.map_values(|s: String| s@) == replaced_names(
            old(registry)@,
            functions_of(Distribution::Uniform),
        ),
{
    let functions = vec![pdf(), ln_pdf(), cdf(), sf()];
    assert(pairs_of(functions@) =~= functions_of(Distribution::Uniform));
    install(registry, functions)
}

} // verus!
