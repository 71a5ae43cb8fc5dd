//! The exponential distribution, computed by `statrs::distribution::Exp`.
//!
//! Functions: `exp_pdf(x, lambda)`, `exp_ln_pdf(x, lambda)`, `exp_cdf(x, lambda)`, `exp_sf(x, lambda)`,
//! with arguments x: Float64, lambda: Float64.
//! `lambda` is the rate, positive.

use vstd::prelude::*;
use crate::registry::{installed, pairs_of, register as install, replaced_names, FunctionRegistry};
use crate::udf::{functions_of, Distribution, Stat, Udf};

verus! {

/// The probability density, `exp_pdf(x, lambda)`.
pub fn pdf() -> (r: Udf)
    ensures
        r.wf(),
        r.distribution == Distribution::Exp,
        r.stat == Stat::Pdf,
{
    Udf::new(Distribution::Exp, Stat::Pdf)
}

/// The natural logarithm of the probability density, `exp_ln_pdf(x, lambda)`.
pub fn ln_pdf() -> (r: Udf)
    ensures
        r.wf(),
        r.distribution == Distribution::Exp,
        r.stat == Stat::LnPdf,
{
    Udf::new(Distribution::Exp, Stat::LnPdf)
}

/// The cumulative distribution function, `exp_cdf(x, lambda)`.
pub fn cdf() -> (r: Udf)
    ensures
        r.wf(),
        r.distribution == Distribution::Exp,
        r.stat == Stat::Cdf,
{
    Udf::new(Distribution::Exp, Stat::Cdf)
}

/// The survival function, `exp_sf(x, lambda)`.
pub fn sf() -> (r: Udf)
    ensures
        r.wf(),
        r.distribution == Distribution::Exp,
        r.stat == Stat::Sf,
{
    Udf::new(Distribution::Exp, Stat::Sf)
}

/// Installs the functions of the exponential distribution into `registry`, and
/// returns the names of the functions replaced.
pub fn register(registry: &mut FunctionRegistry) -> (replaced: Vec<String>)
    requires
        old(registry).wf(),
    ensures
        final(registry).wf(),
        final(registry)@ == installed(old(registry)@, functions_of(Distribution::Exp)),
        replaced@.map_values(|s: String| s@) == replaced_names(
            old(registry)@,
            functions_of(Distribution::Exp),
        ),
{
    let functions = vec![pdf(), ln_pdf(), cdf(), sf()];
    assert(pairs_of(functions@) =~= functions_of(Distribution::Exp));
    install(registry, functions)
}

} // verus!
