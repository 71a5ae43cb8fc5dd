use datafusion_statrs::factory::{chi, discrete_uniform, hypergeometric};
use statrs::distribution::{ChiError, Discrete, DiscreteUniformError, HypergeometricError};

#[test]
fn chi_needs_positive_freedom() {
    assert!(chi(4).is_ok());
    assert_eq!(chi(0).unwrap_err(), ChiError::FreedomInvalid);
}

#[test]
fn hypergeometric_parameters() {
    assert!(hypergeometric(20, 10, 15).is_ok());
    assert!(hypergeometric(0, 0, 0).is_ok());
    assert_eq!(hypergeometric(0, 5, 15).unwrap_err(), HypergeometricError::TooManySuccesses);
    assert_eq!(hypergeometric(10, 11, 0).unwrap_err(), HypergeometricError::TooManySuccesses);
    assert_eq!(hypergeometric(10, 5, 11).unwrap_err(), HypergeometricError::TooManyDraws);
}

#[test]
fn hypergeometric_instance_computes() {
    let h = hypergeometric(20, 10, 15).unwrap();
    assert!((h.pmf(5) - 0.016253869969040248).abs() < 1e-15);
}

#[test]
fn discrete_uniform_parameters() {
    assert!(discrete_uniform(-3, 3).is_ok());
    assert!(discrete_uniform(2, 2).is_ok());
    assert_eq!(discrete_uniform(3, 2).unwrap_err(), DiscreteUniformError::MinMaxInvalid);
}
