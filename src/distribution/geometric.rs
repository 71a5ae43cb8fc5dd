//! The geometric distribution, computed by `statrs::distribution::Geometric`.
//!
//! Functions: `geometric_pmf(x, p)`, `geometric_ln_pmf(x, p)`, `geometric_cdf(x, p)`, `geometric_sf(x, p)`,
//! with arguments x: UInt64, p: Float64.
//! `x` counts the trials up to and including the first success; `p` is the probability of success, in (0, 1].

use vstd::prelude::*;
use crate::registry::{installed, pairs_of, register as install, replaced_names, FunctionRegistry};
use crate::udf::{functions_of, Distribution, Stat, Udf};

verus! {

/// The probability mass, `geometric_pmf(x, p)`.
pub fn pmf() -> (r: Udf)
    ensures
        r.wf(),
        r.distribution == Distribution::Geometric,
        r.stat == Stat::Pmf,
{
    Udf::new(Distribution::Geometric, Stat::Pmf)
}

/// The natural logarithm of the probability mass, `geometric_ln_pmf(x, p)`.
pub fn ln_pmf() -> (r: Udf)
    ensures
        r.wf(),
        r.distribution == Distribution::Geometric,
        r.stat == Stat::LnPmf,
{
    Udf::new(Distribution::Geometric, Stat::LnPmf)
}

/// The cumulative distribution function, `geometric_cdf(x, p)`.
pub fn cdf() -> (r: Udf)
    ensures
        r.wf(),
        r.distribution == Distribution::Geometric,
        r.stat == Stat::Cdf,
{
    Udf::new(Distribution::Geometric, Stat::Cdf)
}

/// The survival function, `geometric_sf(x, p)`.
pub fn sf() -> (r: Udf)
    ensures
        r.wf(),
        r.distribution == Distribution::Geometric,
        r.stat == Stat::Sf,
{
    Udf::new(Distribution::Geometric, Stat::Sf)
}

/// Installs the functions of the geometric distribution into `registry`, and
/// returns the names of the functions replaced.
pub fn register(registry: &mut FunctionRegistry) -> (replaced: Vec<String>)
    requires
        old(registry).wf(),
    ensures
        final(registry).wf(),
        final(registry)@ == installed(old(registry)@, functions_of(Distribution::Geometric)),
        replaced@.map_values(|s: String| s@) == replaced_names(
            old(registry)@,
            functions_of(Distribution::Geometric),
        ),
{
    let functions = vec![pmf(), ln_pmf(), cdf(), sf()];
    assert(pairs_of(functions@) =~= functions_of(Distribution::Geometric));
    install(registry, functions)
}

} // verus!
