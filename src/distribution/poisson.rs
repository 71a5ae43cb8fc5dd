//! The Poisson distribution, computed by `statrs::distribution::Poisson`.
//!
//! Functions: `poisson_pmf(x, lambda)`, `poisson_ln_pmf(x, lambda)`, `poisson_cdf(x, lambda)`, `poisson_sf(x, lambda)`,
//! with arguments x: UInt64, lambda: Float64.
//! `lambda` is the rate, positive.

use vstd::prelude::*;
use crate::registry::{installed, pairs_of, register as install, replaced_names, FunctionRegistry};
use crate::udf::{functions_of, Distribution, Stat, Udf};

verus! {

/// The probability mass, `poisson_pmf(x, lambda)`.
pub fn pmf() -> (r: Udf)
    ensures
        r.wf(),
        r.distribution == Distribution::Poisson,
        r.stat == Stat::Pmf,
{
    Udf::new(Distribution::Poisson, Stat::Pmf)
}

/// The natural logarithm of the probability mass, `poisson_ln_pmf(x, lambda)`.
pub fn ln_pmf() -> (r: Udf)
    ensures
        r.wf(),
        r.distribution == Distribution::Poisson,
        r.stat == Stat::LnPmf,
{
    Udf::new(Distribution::Poisson, Stat::LnPmf)
}

/// The cumulative distribution function, `poisson_cdf(x, lambda)`.
pub fn cdf() -> (r: Udf)
    ensures
        r.wf(),
        r.distribution == Distribution::Poisson,
        r.stat == Stat::Cdf,
{
    Udf::new(Distribution::Poisson, Stat::Cdf)
}

/// The survival function, `poisson_sf(x, lambda)`.
pub fn sf() -> (r: Udf)
    ensures
        r.wf(),
        r.distribution == Distribution::Poisson,
        r.stat == Stat::Sf,
{
    Udf::new(Distribution::Poisson, Stat::Sf)
}

/// Installs the functions of the Poisson distribution into `registry`, and
/// returns the names of the functions replaced.
pub fn register(registry: &mut FunctionRegistry) -> (replaced: Vec<String>)
    requires
        old(registry).wf(),
    ensures
        final(registry).wf(),
        final(registry)@ == installed(old(registry)@, functions_of(Distribution::Poisson)),
        replaced@.map_values(|s: String| s@) == replaced_names(
            old(registry)@,
            functions_of(Distribution::Poisson),
        ),
{
    let functions = vec![pmf(), ln_pmf(), cdf(), sf()];
    assert(pairs_of(functions@) =~= functions_of(Distribution::Poisson));
    install(registry, functions)
}

} // verus!
