//! The triangular distribution, computed by `statrs::distribution::Triangular`.
//!
//! Functions: `triangular_pdf(x, min, max, mode)`, `triangular_ln_pdf(x, min, max, mode)`, `triangular_cdf(x, min, max, mode)`, `triangular_sf(x, min, max, mode)`,
//! with arguments x: Float64, min: Float64, max: Float64, mode: Float64.
//! `min` < `max`, and `mode` lies in [`min`, `max`].

use vstd::prelude::*;
use crate::registry::{installed, pairs_of, register as install, replaced_names, FunctionRegistry};
use crate::udf::{functions_of, Distribution, Stat, Udf};

verus! {

/// The probability density, `triangular_pdf(x, min, max, mode)`.
pub fn pdf() -> (r: Udf)
    ensures
        r.wf(),
        r.distribution == Distribution::Triangular,
        r.stat == Stat::Pdf,
{
    Udf::new(Distribution::Triangular, Stat::Pdf)
}

/// The natural logarithm of the probability density, `triangular_ln_pdf(x, min, max, mode)`.
pub fn ln_pdf() -> (r: Udf)
    ensures
        r.wf(),
        r.distribution == Distribution::Triangular,
        r.stat == Stat::LnPdf,
{
    Udf::new(Distribution::Triangular, Stat::LnPdf)
}

/// The cumulative distribution function, `triangular_cdf(x, min, max, mode)`.
pub fn cdf() -> (r: Udf)
    ensures
        r.wf(),
        r.distribution == Distribution::Triangular,
        r.stat == Stat::Cdf,
{
    Udf::new(Distribution::Triangular, Stat::Cdf)
}

/// The survival function, `triangular_sf(x, min, max, mode)`.
pub fn sf() -> (r: Udf)
    ensures
        r.wf(),
        r.distribution == Distribution::Triangular,
        r.stat == Stat::Sf,
{
    Udf::new(Distribution::Triangular, Stat::Sf)
}

/// Installs the functions of the triangular distribution into `registry`, and
/// returns the names of the functions replaced.
pub fn register(registry: &mut FunctionRegistry) -> (replaced: Vec<String>)
    requires
        old(registry).wf(),
    ensures
        final(registry).wf(),
        final(registry)@ == installed(old(registry)@, functions_of(Distribution::Triangular)),
        replaced@.map_values(|s: String| s@) == replaced_names(
            old(registry)@,
            functions_of(Distribution::Triangular),
        ),
{
    let functions = vec![pdf(), ln_pdf(), cdf(), sf()];
    assert(pairs_of(functions@) =~= functions_of(Distribution::Triangular));
    install(registry, functions)
}

} // verus!
