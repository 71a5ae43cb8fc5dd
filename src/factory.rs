//! Constructors of the distributions whose parameters are all integers. The
//! parameters are checked by `statrs`; each constructor states exactly which
//! parameter sets it accepts and which error it gives otherwise.

use vstd::prelude::*;
use statrs::distribution::{ChiError, DiscreteUniformError, HypergeometricError};

verus! {

#[verifier::external_type_specification]
#[verifier::external_body]
pub struct ExChi(statrs::distribution::Chi);

#[verifier::external_type_specification]
pub struct ExChiError(ChiError);

#[verifier::external_type_specification]
#[verifier::external_body]
pub struct ExHypergeometric(statrs::distribution::Hypergeometric);

#[verifier::external_type_specification]
pub struct ExHypergeometricError(HypergeometricError);

#[verifier::external_type_specification]
#[verifier::external_body]
pub struct ExDiscreteUniform(statrs::distribution::DiscreteUniform);

#[verifier::external_type_specification]
pub struct ExDiscreteUniformError(DiscreteUniformError);

/// Relies on `statrs::distribution::Chi::new`: it fails, with `FreedomInvalid`,
/// exactly when the degrees of freedom are zero.
pub assume_specification[ statrs::distribution::Chi::new ](freedom: u64) -> (r: Result<
    statrs::distribution::Chi,
    ChiError,
>)
    ensures
        r is Err <==> freedom == 0,
        r is Err ==> r->Err_0 == ChiError::FreedomInvalid,
;

/// Relies on `statrs::distribution::Hypergeometric::new`: it fails with
/// `TooManySuccesses` when the successes exceed the population, else with
/// `TooManyDraws` when the draws exceed the population, and succeeds otherwise.
pub assume_specification[ statrs::distribution::Hypergeometric::new ](
    population: u64,
    successes: u64,
    draws: u64,
) -> (r: Result<statrs::distribution::Hypergeometric, HypergeometricError>)
    ensures
        r is Err <==> successes > population || draws > population,
        successes > population ==> r->Err_0 == HypergeometricError::TooManySuccesses,
        successes <= population && draws > population ==> r->Err_0
            == HypergeometricError::TooManyDraws,
;

/// Relies on `statrs::distribution::DiscreteUniform::new`: it fails, with
/// `MinMaxInvalid`, exactly when the maximum is less than the minimum.
pub assume_specification[ statrs::distribution::DiscreteUniform::new ](min: i64, max: i64) -> (r:
    Result<statrs::distribution::DiscreteUniform, DiscreteUniformError>)
    ensures
        r is Err <==> max < min,
        r is Err ==> r->Err_0 == DiscreteUniformError::MinMaxInvalid,
;

/// The chi distribution with `freedom` degrees of freedom.
pub fn chi(freedom: u64) -> (r: Result<statrs::distribution::Chi, ChiError>)
    ensures
        r is Ok <==> freedom > 0,
        r is Err ==> r->Err_0 == ChiError::FreedomInvalid,
{
    statrs::distribution::Chi::new(freedom)
}

/// The hypergeometric distribution of `draws` draws without replacement from a
/// population of `population` items of which `successes` are successes.
pub fn hypergeometric(population: u64, successes: u64, draws: u64) -> (r: Result<
    statrs::distribution::Hypergeometric,
    HypergeometricError,
>)
    ensures
        r is Ok <==> successes <= population && draws <= population,
        successes > population ==> r->Err_0 == HypergeometricError::TooManySuccesses,
        successes <= population && draws > population ==> r->Err_0
            == HypergeometricError::TooManyDraws,
{
    statrs::distribution::Hypergeometric::new(population, successes, draws)
}

/// The discrete uniform distribution on the integers from `min` to `max`.
pub fn discrete_uniform(min: i64, max: i64) -> (r: Result<
    statrs::distribution::DiscreteUniform,
    DiscreteUniformError,
>)
    ensures
        r is Ok <==> min <= max,
        r is Err ==> r->Err_0 == DiscreteUniformError::MinMaxInvalid,
{
    statrs::distribution::DiscreteUniform::new(min, max)
}

} // verus!
