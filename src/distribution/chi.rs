//! The chi distribution, computed by `statrs::distribution::Chi`.
//!
//! Functions: `chi_pdf(x, k)`, `chi_ln_pdf(x, k)`, `chi_cdf(x, k)`, `chi_sf(x, k)`,
//! with arguments x: Float64, k: UInt64.
//! `k` is the number of degrees of freedom, positive.

use vstd::prelude::*;
use crate::registry::{installed, pairs_of, register as install, replaced_names, FunctionRegistry};
use crate::udf::{functions_of, Distribution, Stat, Udf};

verus! {

/// The probability density, `chi_pdf(x, k)`.
pub fn pdf() -> (r: Udf)
    ensures
        r.wf(),
        r.distribution == Distribution::Chi,
        r.stat == Stat::Pdf,
{
    Udf::new(Distribution::Chi, Stat::Pdf)
}

/// The natural logarithm of the probability density, `chi_ln_pdf(x, k)`.
pub fn ln_pdf() -> (r: Udf)
    ensures
        r.wf(),
        r.distribution == Distribution::Chi,
        r.stat == Stat::LnPdf,
{
    Udf::new(Distribution::Chi, Stat::LnPdf)
}

/// The cumulative distribution function, `chi_cdf(x, k)`.
pub fn cdf() -> (r: Udf)
    ensures
        r.wf(),
        r.distribution == Distribution::Chi,
        r.stat == Stat::Cdf,
{
    Udf::new(Distribution::Chi, Stat::Cdf)
}

/// The survival function, `chi_sf(x, k)`.
pub fn sf() -> (r: Udf)
    ensures
        r.wf(),
        r.distribution == Distribution::Chi,
        r.stat == Stat::Sf,
{
    Udf::new(Distribution::Chi, Stat::Sf)
}

/// Installs the functions of the chi distribution into `registry`, and
/// returns the names of the functions replaced.
pub fn register(registry: &mut FunctionRegistry) -> (replaced: Vec<String>)
    requires
        old(registry).wf(),
    ensures
        final(registry).wf(),
        final(registry)@ == installed(old(registry)@, functions_of(Distribution::Chi)),
        replaced@.map_values(|s: String| s@) == replaced_names(
            old(registry)@,
            functions_of(Distribution::Chi),
        ),
{
    let functions = vec![pdf(), ln_pdf(), cdf(), sf()];
    assert(pairs_of(functions@) =~= functions_of(Distribution::Chi));
    install(registry, functions)
}

} // verus!
