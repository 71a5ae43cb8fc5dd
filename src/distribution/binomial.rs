//! The binomial distribution, computed by `statrs::distribution::Binomial`.
//!
//! Functions: `binomial_pmf(x, n, p)`, `binomial_ln_pmf(x, n, p)`, `binomial_cdf(x, n, p)`, `binomial_sf(x, n, p)`,
//! with arguments x: UInt64, n: UInt64, p: Float64.
//! `n` is the number of trials and `p` the probability of success, in [0, 1].

use vstd::prelude::*;
use crate::registry::{installed, pairs_of, register as install, replaced_names, FunctionRegistry};
use crate::udf::{functions_of, Distribution, Stat, Udf};

verus! {

/// The probability mass, `binomial_pmf(x, n, p)`.
pub fn pmf() -> (r: Udf)
    ensures
        r.wf(),
        r.distribution == Distribution::Binomial,
        r.stat == Stat::Pmf,
{
    Udf::new(Distribution::Binomial, Stat::Pmf)
}

/// The natural logarithm of the probability mass, `binomial_ln_pmf(x, n, p)`.
pub fn ln_pmf() -> (r: Udf)
    ensures
        r.wf(),
        r.distribution == Distribution::Binomial,
        r.stat == Stat::LnPmf,
{
    Udf::new(Distribution::Binomial, Stat::LnPmf)
}

/// The cumulative distribution function, `binomial_cdf(x, n, p)`.
pub fn cdf() -> (r: Udf)
    ensures
        r.wf(),
        r.distribution == Distribution::Binomial,
        r.stat == Stat::Cdf,
{
    Udf::new(Distribution::Binomial, Stat::Cdf)
}

/// The survival function, `binomial_sf(x, n, p)`.
pub fn sf() -> (r: Udf)
    ensures
        r.wf(),
        r.distribution == Distribution::Binomial,
        r.stat == Stat::Sf,
{
    Udf::new(Distribution::Binomial, Stat::Sf)
}

/// Installs the functions of the binomial distribution into `registry`, and
/// returns the names of the functions replaced.
pub fn register(registry: &mut FunctionRegistry) -> (replaced: Vec<String>)
    requires
        old(registry).wf(),
    ensures
        final(registry).wf(),
        final(registry)@ == installed(old(registry)@, functions_of(Distribution::Binomial)),
        replaced@.map_values(|s: String| s@) == replaced_names(
            old(registry)@,
            functions_of(Distribution::Binomial),
        ),
{
    let functions = vec![pmf(), ln_pmf(), cdf(), sf()];
    assert(pairs_of(functions@) =~= functions_of(Distribution::Binomial));
    install(registry, functions)
}

} // verus!
