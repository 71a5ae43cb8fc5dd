//! The Fisher-Snedecor (F) distribution, computed by `statrs::distribution::FisherSnedecor`.
//!
//! Functions: `fisher_snedecor_pdf(x, d1, d2)`, `fisher_snedecor_ln_pdf(x, d1, d2)`, `fisher_snedecor_cdf(x, d1, d2)`, `fisher_snedecor_sf(x, d1, d2)`,
//! with arguments x: Float64, d1: Float64, d2: Float64.
//! `d1` and `d2` are the degrees of freedom, both positive.

use vstd::prelude::*;
use crate::registry::{installed, pairs_of, register as install, replaced_names, FunctionRegistry};
use crate::udf::{functions_of, Distribution, Stat, Udf};

verus! {

/// The probability density, `fisher_snedecor_pdf(x, d1, d2)`.
pub fn pdf() -> (r: Udf)
    ensures
        r.wf(),
        r.distribution == Distribution::FisherSnedecor,
        r.stat == Stat::Pdf,
{
    Udf::new(Distribution::FisherSnedecor, Stat::Pdf)
}

/// The natural logarithm of the probability density, `fisher_snedecor_ln_pdf(x, d1, d2)`.
pub fn ln_pdf() -> (r: Udf)
    ensures
        r.wf(),
        r.distribution == Distribution::FisherSnedecor,
        r.stat == Stat::LnPdf,
{
    Udf::new(Distribution::FisherSnedecor, Stat::LnPdf)
}

/// The cumulative distribution function, `fisher_snedecor_cdf(x, d1, d2)`.
pub fn cdf() -> (r: Udf)
    ensures
        r.wf(),
        r.distribution == Distribution::FisherSnedecor,
        r.stat == Stat::Cdf,
{
    Udf::new(Distribution::FisherSnedecor, Stat::Cdf)
}

/// The survival function, `fisher_snedecor_sf(x, d1, d2)`.
pub fn sf() -> (r: Udf)
    ensures
        r.wf(),
        r.distribution == Distribution::FisherSnedecor,
        r.stat == Stat::Sf,
{
    Udf::new(Distribution::FisherSnedecor, Stat::Sf)
}

/// Installs the functions of the Fisher-Snedecor (F) distribution into `registry`, and
/// returns the names of the functions replaced.
pub fn register(registry: &mut FunctionRegistry) -> (replaced: Vec<String>)
    requires
        old(registry).wf(),
    ensures
        final(registry).wf(),
        final(registry)@ == installed(old(registry)@, functions_of(Distribution::FisherSnedecor)),
        replaced@.map_values(|s: String| s@) == replaced_names(
            old(registry)@,
            functions_of(Distribution::FisherSnedecor),
        ),
{
    let functions = vec![pdf(), ln_pdf(), cdf(), sf()];
    assert(pairs_of(functions@) =~= functions_of(Distribution::FisherSnedecor));
    install(registry, functions)
}

} // verus!
