//! The Dirac distribution, computed by `statrs::distribution::Dirac`.
//!
//! Functions: `dirac_cdf(x, a)`, `dirac_sf(x, a)`,
//! with arguments x: Float64, a: Float64.
//! `a` is the point that holds all the mass; the distribution has no density.

use vstd::prelude::*;
use crate::registry::{installed, pairs_of, register as install, replaced_names, FunctionRegistry};
use crate::udf::{functions_of, Distribution, Stat, Udf};

verus! {

/// The cumulative distribution function, `dirac_cdf(x, a)`.
pub fn cdf() -> (r: Udf)
    ensures
        r.wf(),
        r.distribution == Distribution::Dirac,
        r.stat == Stat::Cdf,
{
    Udf::new(Distribution::Dirac, Stat::Cdf)
}

/// The survival function, `dirac_sf(x, a)`.
pub fn sf() -> (r: Udf)
    ensures
        r.wf(),
        r.distribution == Distribution::Dirac,
        r.stat == Stat::Sf,
{
    Udf::new(Distribution::Dirac, Stat::Sf)
}

/// Installs the functions of the Dirac distribution into `registry`, and
/// returns the names of the functions replaced.
pub fn register(registry: &mut FunctionRegistry) -> (replaced: Vec<String>)
    requires
        old(registry).wf(),
    ensures
        final(registry).wf(),
        final(registry)@ == installed(old(registry)@, functions_of(Distribution::Dirac)),
        replaced@.map_values(|s: String| s@) == replaced_names(
            old(registry)@,
            functions_of(Distribution::Dirac),
        ),
{
    let functions = vec![cdf(), sf()];
    assert(pairs_of(functions@) =~= functions_of(Distribution::Dirac));
    install(registry, functions)
}

} // verus!
