//! The Bernoulli distribution, computed by `statrs::distribution::Bernoulli`.
//!
//! Functions: `bernoulli_pmf(x, p)`, `bernoulli_ln_pmf(x, p)`, `bernoulli_cdf(x, p)`, `bernoulli_sf(x, p)`,
//! with arguments x: UInt64, p: Float64.
//! `p` is the probability of success, in [0, 1].

use vstd::prelude::*;
use crate::registry::{installed, pairs_of, register as install, replaced_names, FunctionRegistry};
use crate::udf::{functions_of, Distribution, Stat, Udf};

verus! {

/// The probability mass, `bernoulli_pmf(x, p)`.
pub fn pmf() -> (r: Udf)
    ensures
        r.wf(),
        r.distribution == Distribution::Bernoulli,
        r.stat == Stat::Pmf,
{
    Udf::new(Distribution::Bernoulli, Stat::Pmf)
}

/// The natural logarithm of the probability mass, `bernoulli_ln_pmf(x, p)`.
pub fn ln_pmf() -> (r: Udf)
    ensures
        r.wf(),
        r.distribution == Distribution::Bernoulli,
        r.stat == Stat::LnPmf,
{
    Udf::new(Distribution::Bernoulli, Stat::LnPmf)
}

/// The cumulative distribution function, `bernoulli_cdf(x, p)`.
pub fn cdf() -> (r: Udf)
    ensures
        r.wf(),
        r.distribution == Distribution::Bernoulli,
        r.stat == Stat::Cdf,
{
    Udf::new(Distribution::Bernoulli, Stat::Cdf)
}

/// The survival function, `bernoulli_sf(x, p)`.
pub fn sf() -> (r: Udf)
    ensures
        r.wf(),
        r.distribution == Distribution::Bernoulli,
        r.stat == Stat::Sf,
{
    Udf::new(Distribution::Bernoulli, Stat::Sf)
}

/// Installs the functions of the Bernoulli distribution into `registry`, and
/// returns the names of the functions replaced.
pub fn register(registry: &mut FunctionRegistry) -> (replaced: Vec<String>)
    requires
        old(registry).wf(),
    ensures
        final(registry).wf(),
        final(registry)@ == installed(old(registry)@, functions_of(Distribution::Bernoulli)),
        replaced@.map_values(|s: String| s@) == replaced_names(
            old(registry)@,
            functions_of(Distribution::Bernoulli),
        ),
{
    let functions = vec![pmf(), ln_pmf(), cdf(), sf()];
    assert(pairs_of(functions@) =~= functions_of(Distribution::Bernoulli));
    install(registry, functions)
}

} // verus!
