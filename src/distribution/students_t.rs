//! The Student's t distribution, computed by `statrs::distribution::StudentsT`.
//!
//! Functions: `students_t_pdf(x, mu, sigma, nu)`, `students_t_ln_pdf(x, mu, sigma, nu)`, `students_t_cdf(x, mu, sigma, nu)`, `students_t_sf(x, mu, sigma, nu)`,
//! with arguments x: Float64, mu: Float64, sigma: Float64, nu: Float64.
//! `mu` is the location, `sigma` the scale, positive, and `nu` the degrees of freedom, positive.

use vstd::prelude::*;
use crate::registry::{installed, pairs_of, register as install, replaced_names, FunctionRegistry};
use crate::udf::{functions_of, Distribution, Stat, Udf};

verus! {

/// The probability density, `students_t_pdf(x, mu, sigma, nu)`.
pub fn pdf() -> (r: Udf)
    ensures
        r.wf(),
        r.distribution == Distribution::StudentsT,
        r.stat == Stat::Pdf,
{
    Udf::new(Distribution::StudentsT, Stat::Pdf)
}

/// The natural logarithm of the probability density, `students_t_ln_pdf(x, mu, sigma, nu)`.
pub fn ln_pdf() -> (r: Udf)
    ensures
        r.wf(),
        r.distribution == Distribution::StudentsT,
        r.stat == Stat::LnPdf,
{
    Udf::new(Distribution::StudentsT, Stat::LnPdf)
}

/// The cumulative distribution function, `students_t_cdf(x, mu, sigma, nu)`.
pub fn cdf() -> (r: Udf)
    ensures
        r.wf(),
        r.distribution == Distribution::StudentsT,
        r.stat == Stat::Cdf,
{
    Udf::new(Distribution::StudentsT, Stat::Cdf)
}

/// The survival function, `students_t_sf(x, mu, sigma, nu)`.
pub fn sf() -> (r: Udf)
    ensures
        r.wf(),
        r.distribution == Distribution::StudentsT,
        r.stat == Stat::Sf,
{
    Udf::new(Distribution::StudentsT, Stat::Sf)
}

/// Installs the functions of the Student's t distribution into `registry`, and
/// returns the names of the functions replaced.
pub fn register(registry: &mut FunctionRegistry) -> (replaced: Vec<String>)
    requires
        old(registry).wf(),
    ensures
        final(registry).wf(),
        final(registry)@ == installed(old(registry)@, functions_of(Distribution::StudentsT)),
        replaced@.map_values(|s: String| s@) == replaced_names(
            old(registry)@,
            functions_of(Distribution::StudentsT),
        ),
{
    let functions = vec![pdf(), ln_pdf(), cdf(), sf()];
    assert(pairs_of(functions@) =~= functions_of(Distribution::StudentsT));
    install(registry, functions)
}

} // verus!
