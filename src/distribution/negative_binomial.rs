//! The negative binomial distribution, computed by `statrs::distribution::NegativeBinomial`.
//!
//! Functions: `negative_binomial_pmf(x, r, p)`, `negative_binomial_ln_pmf(x, r, p)`, `negative_binomial_cdf(x, r, p)`, `negative_binomial_sf(x, r, p)`,
//! with arguments x: UInt64, r: Float64, p: Float64.
//! `r` is the number of successes, not negative, and `p` the probability of success, in [0, 1].

use vstd::prelude::*;
use crate::registry::{installed, pairs_of, register as install, replaced_names, FunctionRegistry};
use crate::udf::{functions_of, Distribution, Stat, Udf};

verus! {

/// The probability mass, `negative_binomial_pmf(x, r, p)`.
pub fn pmf() -> (r: Udf)
    ensures
        r.wf(),
        r.distribution == Distribution::NegativeBinomial,
        r.stat == Stat::Pmf,
{
    Udf::new(Distribution::NegativeBinomial, Stat::Pmf)
}

/// The natural logarithm of the probability mass, `negative_binomial_ln_pmf(x, r, p)`.
pub fn ln_pmf() -> (r: Udf)
    ensures
        r.wf(),
        r.distribution == Distribution::NegativeBinomial,
        r.stat == Stat::LnPmf,
{
    Udf::new(Distribution::NegativeBinomial, Stat::LnPmf)
}

/// The cumulative distribution function, `negative_binomial_cdf(x, r, p)`.
pub fn cdf() -> (r: Udf)
    ensures
        r.wf(),
        r.distribution == Distribution::NegativeBinomial,
        r.stat == Stat::Cdf,
{
    Udf::new(Distribution::NegativeBinomial, Stat::Cdf)
}

/// The survival function, `negative_binomial_sf(x, r, p)`.
pub fn sf() -> (r: Udf)
    ensures
        r.wf(),
        r.distribution == Distribution::NegativeBinomial,
        r.stat == Stat::Sf,
{
    Udf::new(Distribution::NegativeBinomial, Stat::Sf)
}

/// Installs the functions of the negative binomial distribution into `registry`, and
/// returns the names of the functions replaced.
pub fn register(registry: &mut FunctionRegistry) -> (replaced: Vec<String>)
    requires
        old(registry).wf(),
    ensures
        final(registry).wf(),
        final(registry)@ == installed(old(registry)@, functions_of(Distribution::NegativeBinomial)),
        replaced@.map_values(|s: String| s@) == replaced_names(
            old(registry)@,
            functions_of(Distribution::NegativeBinomial),
        ),
{
    let functions = vec![pmf(), ln_pmf(), cdf(), sf()];
    assert(pairs_of(functions@) =~= functions_of(Distribution::NegativeBinomial));
    install(registry, functions)
}

} // verus!
