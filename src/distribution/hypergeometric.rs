//! The hypergeometric distribution, computed by `statrs::distribution::Hypergeometric`.
//!
//! Functions: `hypergeometric_pmf(k, population, successes, draws)`, `hypergeometric_ln_pmf(k, population, successes, draws)`, `hypergeometric_cdf(k, population, successes, draws)`, `hypergeometric_sf(k, population, successes, draws)`,
//! with arguments k: UInt64, population: UInt64, successes: UInt64, draws: UInt64.
//! `successes` and `draws` are at most `population`.

use vstd::prelude::*;
use crate::registry::{installed, pairs_of, register as install, replaced_names, FunctionRegistry};
use crate::udf::{functions_of, Distribution, Stat, Udf};

verus! {

/// The probability mass, `hypergeometric_pmf(k, population, successes, draws)`.
pub fn pmf() -> (r: Udf)
    ensures
        r.wf(),
        r.distribution == Distribution::Hypergeometric,
        r.stat == Stat::Pmf,
{
    Udf::new(Distribution::Hypergeometric, Stat::Pmf)
}

/// The natural logarithm of the probability mass, `hypergeometric_ln_pmf(k, population, successes, draws)`.
pub fn ln_pmf() -> (r: Udf)
    ensures
        r.wf(),
        r.distribution == Distribution::Hypergeometric,
        r.stat == Stat::LnPmf,
{
    Udf::new(Distribution::Hypergeometric, Stat::LnPmf)
}

/// The cumulative distribution function, `hypergeometric_cdf(k, population, successes, draws)`.
pub fn cdf() -> (r: Udf)
    ensures
        r.wf(),
        r.distribution == Distribution::Hypergeometric,
        r.stat == Stat::Cdf,
{
    Udf::new(Distribution::Hypergeometric, Stat::Cdf)
}

/// The survival function, `hypergeometric_sf(k, population, successes, draws)`.
pub fn sf() -> (r: Udf)
    ensures
        r.wf(),
        r.distribution == Distribution::Hypergeometric,
        r.stat == Stat::Sf,
{
    Udf::new(Distribution::Hypergeometric, Stat::Sf)
}

/// Installs the functions of the hypergeometric distribution into `registry`, and
/// returns the names of the functions replaced.
pub fn register(registry: &mut FunctionRegistry) -> (replaced: Vec<String>)
    requires
        old(registry).wf(),
    ensures
        final(registry).wf(),
        final(registry)@ == installed(old(registry)@, functions_of(Distribution::Hypergeometric)),
        replaced@.map_values(|s: String| s@) == replaced_names(
            old(registry)@,
            functions_of(Distribution::Hypergeometric),
        ),
{
    let functions = vec![pmf(), ln_pmf(), cdf(), sf()];
    assert(pairs_of(functions@) =~= functions_of(Distribution::Hypergeometric));
    install(registry, functions)
}

} // verus!
