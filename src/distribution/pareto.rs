//! The Pareto distribution, computed by `statrs::distribution::Pareto`.
//!
//! Functions: `pareto_pdf(x, xm, alpha)`, `pareto_ln_pdf(x, xm, alpha)`, `pareto_cdf(x, xm, alpha)`, `pareto_sf(x, xm, alpha)`,
//! with arguments x: Float64, xm: Float64, alpha: Float64.
//! `xm` is the scale and `alpha` the shape, both positive.

use vstd::prelude::*;
use crate::registry::{installed, pairs_of, register as install, replaced_names, FunctionRegistry};
use crate::udf::{functions_of, Distribution, Stat, Udf};

verus! {

/// The probability density, `pareto_pdf(x, xm, alpha)`.
pub fn pdf() -> (r: Udf)
    ensures
        r.wf(),
        r.distribution == Distribution::Pareto,
        r.stat == Stat::Pdf,
{
    Udf::new(Distribution::Pareto, Stat::Pdf)
}

/// The natural logarithm of the probability density, `pareto_ln_pdf(x, xm, alpha)`.
pub fn ln_pdf() -> (r: Udf)
    ensures
        r.wf(),
        r.distribution == Distribution::Pareto,
        r.stat == Stat::LnPdf,
{
    Udf::new(Distribution::Pareto, Stat::LnPdf)
}

/// The cumulative distribution function, `pareto_cdf(x, xm, alpha)`.
pub fn cdf() -> (r: Udf)
    ensures
        r.wf(),
        r.distribution == Distribution::Pareto,
        r.stat == Stat::Cdf,
{
    Udf::new(Distribution::Pareto, Stat::Cdf)
}

/// The survival function, `pareto_sf(x, xm, alpha)`.
pub fn sf() -> (r: Udf)
    ensures
        r.wf(),
        r.distribution == Distribution::Pareto,
        r.stat == Stat::Sf,
{
    Udf::new(Distribution::Pareto, Stat::Sf)
}

/// Installs the functions of the Pareto distribution into `registry`, and
/// returns the names of the functions replaced.
pub fn register(registry: &mut FunctionRegistry) -> (replaced: Vec<String>)
    requires
        old(registry).wf(),
    ensures
        final(registry).wf(),
        final(registry)@ == installed(old(registry)@, functions_of(Distribution::Pareto)),
        replaced@.map_values(|s: String| s@) == replaced_names(
            old(registry)@,
            functions_of(Distribution::Pareto),
        ),
{
    let functions = vec![pdf(), ln_pdf(), cdf(), sf()];
    assert(pairs_of(functions@) =~= functions_of(Distribution::Pareto));
    install(registry, functions)
}

} // verus!
