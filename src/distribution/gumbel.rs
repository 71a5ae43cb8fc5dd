//! The Gumbel distribution, computed by `statrs::distribution::Gumbel`.
//!
//! Functions: `gumbel_pdf(x, mu, beta)`, `gumbel_ln_pdf(x, mu, beta)`, `gumbel_cdf(x, mu, beta)`, `gumbel_sf(x, mu, beta)`,
//! with arguments x: Float64, mu: Float64, beta: Float64.
//! `mu` is the location and `beta` the scale, positive.

use vstd::prelude::*;
use crate::registry::{installed, pairs_of, register as install, replaced_names, FunctionRegistry};
use crate::udf::{functions_of, Distribution, Stat, Udf};

verus! {

/// The probability density, `gumbel_pdf(x, mu, beta)`.
pub fn pdf() -> (r: Udf)
    ensures
        r.wf(),
        r.distribution == Distribution::Gumbel,
        r.stat == Stat::Pdf,
{
    Udf::new(Distribution::Gumbel, Stat::Pdf)
}

/// The natural logarithm of the probability density, `gumbel_ln_pdf(x, mu, beta)`.
pub fn ln_pdf() -> (r: Udf)
    ensures
        r.wf(),
        r.distribution == Distribution::Gumbel,
        r.stat == Stat::LnPdf,
{
    Udf::new(Distribution::Gumbel, Stat::LnPdf)
}

/// The cumulative distribution function, `gumbel_cdf(x, mu, beta)`.
pub fn cdf() -> (r: Udf)
    ensures
        r.wf(),
        r.distribution == Distribution::Gumbel,
        r.stat == Stat::Cdf,
{
    Udf::new(Distribution::Gumbel, Stat::Cdf)
}

/// The survival function, `gumbel_sf(x, mu, beta)`.
pub fn sf() -> (r: Udf)
    ensures
        r.wf(),
        r.distribution == Distribution::Gumbel,
        r.stat == Stat::Sf,
{
    Udf::new(Distribution::Gumbel, Stat::Sf)
}

/// Installs the functions of the Gumbel distribution into `registry`, and
/// returns the names of the functions replaced.
pub fn register(registry: &mut FunctionRegistry) -> (replaced: Vec<String>)
    requires
        old(registry).wf(),
    ensures
        final(registry).wf(),
        final(registry)@ == installed(old(registry)@, functions_of(Distribution::Gumbel)),
        replaced@.map_values(|s: String| s@) == replaced_names(
            old(registry)@,
            functions_of(Distribution::Gumbel),
        ),
{
    let functions = vec![pdf(), ln_pdf(), cdf(), sf()];
    assert(pairs_of(functions@) =~= functions_of(Distribution::Gumbel));
    install(registry, functions)
}

} // verus!
