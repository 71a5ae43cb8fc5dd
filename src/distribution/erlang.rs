//! The Erlang distribution, computed by `statrs::distribution::Erlang`.
//!
//! Functions: `erlang_pdf(x, k, lambda)`, `erlang_ln_pdf(x, k, lambda)`, `erlang_cdf(x, k, lambda)`, `erlang_sf(x, k, lambda)`,
//! with arguments x: Float64, k: UInt64, lambda: Float64.
//! `k` is the shape, positive, and `lambda` the rate, positive.

use vstd::prelude::*;
use crate::registry::{installed, pairs_of, register as install, replaced_names, FunctionRegistry};
use crate::udf::{functions_of, Distribution, Stat, Udf};

verus! {

/// The probability density, `erlang_pdf(x, k, lambda)`.
pub fn pdf() -> (r: Udf)
    ensures
        r.wf(),
        r.distribution == Distribution::Erlang,
        r.stat == Stat::Pdf,
{
    Udf::new(Distribution::Erlang, Stat::Pdf)
}

/// The natural logarithm of the probability density, `erlang_ln_pdf(x, k, lambda)`.
pub fn ln_pdf() -> (r: Udf)
    ensures
        r.wf(),
        r.distribution == Distribution::Erlang,
        r.stat == Stat::LnPdf,
{
    Udf::new(Distribution::Erlang, Stat::LnPdf)
}

/// The cumulative distribution function, `erlang_cdf(x, k, lambda)`.
pub fn cdf() -> (r: Udf)
    ensures
        r.wf(),
        r.distribution == Distribution::Erlang,
        r.stat == Stat::Cdf,
{
    Udf::new(Distribution::Erlang, Stat::Cdf)
}

/// The survival function, `erlang_sf(x, k, lambda)`.
pub fn sf() -> (r: Udf)
    ensures
        r.wf(),
        r.distribution == Distribution::Erlang,
        r.stat == Stat::Sf,
{
    Udf::new(Distribution::Erlang, Stat::Sf)
}

/// Installs the functions of the Erlang distribution into `registry`, and
/// returns the names of the functions replaced.
pub fn register(registry: &mut FunctionRegistry) -> (replaced: Vec<String>)
    requires
        old(registry).wf(),
    ensures
        final(registry).wf(),
        final(registry)@ == installed(old(registry)@, functions_of(Distribution::Erlang)),
        replaced@.map_values(|s: String| s@) == replaced_names(
            old(registry)@,
            functions_of(Distribution::Erlang),
        ),
{
    let functions = vec![pdf(), ln_pdf(), cdf(), sf()];
    assert(pairs_of(functions@) =~= functions_of(Distribution::Erlang));
    install(registry, functions)
}

} // verus!
