use datafusion_statrs::batch::{invoke2, invoke3, invoke4};
use datafusion_statrs::distribution::{bernoulli, binomial, gamma, hypergeometric, uniform};
use datafusion_statrs::factory;
use statrs::distribution::{
    Bernoulli, BinomialError, Binomial, Continuous, ContinuousCDF, Discrete, DiscreteCDF, Gamma,
    GammaError, HypergeometricError, Uniform, UniformError,
};

fn close(a: f64, b: f64, tol: f64) -> bool {
    (a - b).abs() <= tol * b.abs().max(1.0)
}

fn binomial_rows() -> (Vec<Option<u64>>, Vec<Option<u64>>, Vec<Option<f64>>) {
    (
        vec![Some(0), Some(1), None, Some(0)],
        vec![Some(3), Some(3), Some(3), None],
        vec![Some(0.25), Some(0.25), Some(0.25), Some(0.25)],
    )
}

#[test]
fn binomial_pmf_success() {
    assert_eq!(binomial::pmf().name(), "binomial_pmf");
    let (xs, ns, ps) = binomial_rows();
    let out = invoke3(&xs, &ns, &ps, f64::NAN, |(x, n, p): (u64, u64, f64)| {
        Binomial::new(p, n).map(|d| d.pmf(x))
    })
    .unwrap();
    assert_eq!(out.len(), 4);
    assert!(close(out[0], 0.421875, 1e-15));
    assert!(close(out[1], 0.421875, 1e-15));
    assert!(out[2].is_nan());
    assert!(out[3].is_nan());
}

#[test]
fn binomial_pmf_failure_1() {
    let r = invoke3(
        &vec![Some(0u64)],
        &vec![Some(3u64)],
        &vec![Some(1.25f64)],
        f64::NAN,
        |(x, n, p): (u64, u64, f64)| Binomial::new(p, n).map(|d| d.pmf(x)),
    );
    assert_eq!(r, Err(BinomialError::ProbabilityInvalid));
}

#[test]
fn binomial_cdf_success() {
    let (xs, ns, ps) = binomial_rows();
    let out = invoke3(&xs, &ns, &ps, f64::NAN, |(x, n, p): (u64, u64, f64)| {
        Binomial::new(p, n).map(|d| d.cdf(x))
    })
    .unwrap();
    assert!(close(out[0], 0.421875, 3e-15));
    assert!(close(out[1], 0.84375, 1e-15));
    assert!(out[2].is_nan());
    assert!(out[3].is_nan());
}

#[test]
fn binomial_sf_success() {
    let (xs, ns, ps) = binomial_rows();
    let out = invoke3(&xs, &ns, &ps, f64::NAN, |(x, n, p): (u64, u64, f64)| {
        Binomial::new(p, n).map(|d| d.sf(x))
    })
    .unwrap();
    assert!(close(out[0], 0.578125, 3e-15));
    assert!(close(out[1], 0.15625, 4e-15));
    assert!(out[2].is_nan());
    assert!(out[3].is_nan());
}

fn bernoulli_rows() -> (Vec<Option<u64>>, Vec<Option<f64>>) {
    (vec![Some(0), Some(1), None, Some(0)], vec![Some(0.25), Some(0.25), Some(0.25), None])
}

#[test]
fn bernoulli_pmf_success() {
    assert_eq!(bernoulli::pmf().name(), "bernoulli_pmf");
    let (xs, ps) = bernoulli_rows();
    let out =
        invoke2(&xs, &ps, f64::NAN, |(x, p): (u64, f64)| Bernoulli::new(p).map(|d| d.pmf(x)))
            .unwrap();
    assert_eq!(out[0], 0.75);
    assert_eq!(out[1], 0.25);
    assert!(out[2].is_nan());
    assert!(out[3].is_nan());
}

#[test]
fn bernoulli_pmf_failure_1() {
    let r = invoke2(&vec![Some(0u64)], &vec![Some(1.25f64)], f64::NAN, |(x, p): (u64, f64)| {
        Bernoulli::new(p).map(|d| d.pmf(x))
    });
    assert_eq!(r, Err(BinomialError::ProbabilityInvalid));
}

#[test]
fn bernoulli_ln_pdf_success() {
    let out = invoke2(&vec![Some(0u64)], &vec![Some(0.2f64)], f64::NAN, |(x, p): (u64, f64)| {
        Bernoulli::new(p).map(|d| d.ln_pmf(x))
    })
    .unwrap();
    assert_eq!(out[0], -0.2231435513142097);
}

#[test]
fn bernoulli_cdf_success() {
    let (xs, ps) = bernoulli_rows();
    let out =
        invoke2(&xs, &ps, f64::NAN, |(x, p): (u64, f64)| Bernoulli::new(p).map(|d| d.cdf(x)))
            .unwrap();
    assert!(close(out[0], 0.75, 1e-15));
    assert_eq!(out[1], 1.0);
    assert!(out[2].is_nan());
    assert!(out[3].is_nan());
}

#[test]
fn bernoulli_sf_success() {
    let (xs, ps) = bernoulli_rows();
    let out =
        invoke2(&xs, &ps, f64::NAN, |(x, p): (u64, f64)| Bernoulli::new(p).map(|d| d.sf(x)))
            .unwrap();
    assert!(close(out[0], 0.25, 1e-15));
    assert_eq!(out[1], 0.0);
    assert!(out[2].is_nan());
    assert!(out[3].is_nan());
}

fn uniform_rows() -> (Vec<Option<f64>>, Vec<Option<f64>>, Vec<Option<f64>>) {
    (
        vec![Some(2.0), Some(2.5), None, Some(1.0)],
        vec![Some(1.0), Some(1.0), Some(1.0), None],
        vec![Some(3.25), Some(3.25), Some(3.25), Some(3.25)],
    )
}

#[test]
fn uniform_pdf_success() {
    assert_eq!(uniform::pdf().name(), "uniform_pdf");
    let (xs, mins, maxs) = uniform_rows();
    let out = invoke3(&xs, &mins, &maxs, f64::NAN, |(x, a, b): (f64, f64, f64)| {
        Uniform::new(a, b).map(|d| d.pdf(x))
    })
    .unwrap();
    assert_eq!(out[0], 0.4444444444444444);
    assert_eq!(out[1], 0.4444444444444444);
    assert!(out[2].is_nan());
    assert!(out[3].is_nan());
}

#[test]
fn uniform_pdf_failure_1() {
    let r = invoke3(
        &vec![Some(1.0f64)],
        &vec![Some(5.0f64)],
        &vec![Some(1.25f64)],
        f64::NAN,
        |(x, a, b): (f64, f64, f64)| Uniform::new(a, b).map(|d| d.pdf(x)),
    );
    assert_eq!(r, Err(UniformError::MaxNotGreaterThanMin));
}

#[test]
fn uniform_ln_pdf_success() {
    let out = invoke3(
        &vec![Some(8.2f64)],
        &vec![Some(8.0f64)],
        &vec![Some(11.0f64)],
        f64::NAN,
        |(x, a, b): (f64, f64, f64)| Uniform::new(a, b).map(|d| d.ln_pdf(x)),
    )
    .unwrap();
    assert_eq!(out[0], -1.0986122886681098);
}

#[test]
fn uniform_cdf_success() {
    let (xs, mins, maxs) = uniform_rows();
    let out = invoke3(&xs, &mins, &maxs, f64::NAN, |(x, a, b): (f64, f64, f64)| {
        Uniform::new(a, b).map(|d| d.cdf(x))
    })
    .unwrap();
    assert_eq!(out[0], 0.4444444444444444);
    assert_eq!(out[1], 0.6666666666666666);
    assert!(out[2].is_nan());
    assert!(out[3].is_nan());
}

#[test]
fn uniform_sf_success() {
    let (xs, mins, maxs) = uniform_rows();
    let out = invoke3(&xs, &mins, &maxs, f64::NAN, |(x, a, b): (f64, f64, f64)| {
        Uniform::new(a, b).map(|d| d.sf(x))
    })
    .unwrap();
    assert_eq!(out[0], 0.5555555555555556);
    assert_eq!(out[1], 0.3333333333333333);
    assert!(out[2].is_nan());
    assert!(out[3].is_nan());
}

type Cols4 = (Vec<Option<u64>>, Vec<Option<u64>>, Vec<Option<u64>>, Vec<Option<u64>>);

fn hypergeometric_rows() -> Cols4 {
    (
        vec![Some(0), Some(5), None, Some(5)],
        vec![Some(20), Some(20), Some(20), None],
        vec![Some(10), Some(10), Some(10), Some(10)],
        vec![Some(15), Some(15), Some(15), Some(15)],
    )
}

#[test]
fn hypergeometric_pmf_success() {
    assert_eq!(hypergeometric::pmf().name(), "hypergeometric_pmf");
    let (ks, ns, ss, ds) = hypergeometric_rows();
    let out = invoke4(&ks, &ns, &ss, &ds, f64::NAN, |(k, n, s, d): (u64, u64, u64, u64)| {
        factory::hypergeometric(n, s, d).map(|h| h.pmf(k))
    })
    .unwrap();
    assert_eq!(out[0], 0.0);
    assert!(close(out[1], 0.016253869969040248, 1e-15));
    assert!(out[2].is_nan());
    assert!(out[3].is_nan());
}

#[test]
fn hypergeometric_pmf_failure_1() {
    let r = invoke4(
        &vec![Some(1u64)],
        &vec![Some(0u64)],
        &vec![Some(5u64)],
        &vec![Some(15u64)],
        f64::NAN,
        |(k, n, s, d): (u64, u64, u64, u64)| factory::hypergeometric(n, s, d).map(|h| h.pmf(k)),
    );
    assert_eq!(r, Err(HypergeometricError::TooManySuccesses));
}

#[test]
fn hypergeometric_ln_pmf_success() {
    let out = invoke4(
        &vec![Some(25u64)],
        &vec![Some(500u64)],
        &vec![Some(50u64)],
        &vec![Some(100u64)],
        f64::NAN,
        |(k, n, s, d): (u64, u64, u64, u64)| factory::hypergeometric(n, s, d).map(|h| h.ln_pmf(k)),
    )
    .unwrap();
    assert!(close(out[0], -14.854954378819315, 1e-12));
}

#[test]
fn hypergeometric_cdf_success() {
    let (ks, ns, ss, ds) = hypergeometric_rows();
    let out = invoke4(&ks, &ns, &ss, &ds, f64::NAN, |(k, n, s, d): (u64, u64, u64, u64)| {
        factory::hypergeometric(n, s, d).map(|h| h.cdf(k))
    })
    .unwrap();
    assert_eq!(out[0], 0.0);
    assert!(close(out[1], 0.01625386996904021, 1e-12));
    assert!(out[2].is_nan());
    assert!(out[3].is_nan());
}

#[test]
fn hypergeometric_sf_success() {
    let (ks, ns, ss, ds) = hypergeometric_rows();
    let out = invoke4(&ks, &ns, &ss, &ds, f64::NAN, |(k, n, s, d): (u64, u64, u64, u64)| {
        factory::hypergeometric(n, s, d).map(|h| h.sf(k))
    })
    .unwrap();
    assert!(close(out[0], 1.0, 1e-15));
    assert!(close(out[1], 0.9837461300309583, 1e-12));
    assert!(out[2].is_nan());
    assert!(out[3].is_nan());
}

#[test]
fn gamma_errors_name_the_parameter() {
    let pdf = |(x, a, b): (f64, f64, f64)| Gamma::new(a, b).map(|d| d.pdf(x));
    let bad_shape = invoke3(&vec![Some(1.0)], &vec![Some(-1.0)], &vec![Some(2.0)], f64::NAN, pdf);
    assert_eq!(bad_shape, Err(GammaError::ShapeInvalid));
    let bad_rate = invoke3(&vec![Some(1.0)], &vec![Some(9.0)], &vec![Some(-2.0)], f64::NAN, pdf);
    assert_eq!(bad_rate, Err(GammaError::RateInvalid));
    assert_eq!(gamma::pdf().name(), "gamma_pdf");
}

#[test]
fn invalid_row_fails_whole_batch_even_after_valid_rows() {
    let out = invoke3(
        &vec![Some(0u64), Some(1), Some(2)],
        &vec![Some(3u64), Some(3), Some(3)],
        &vec![Some(0.25f64), Some(0.5), Some(-0.5)],
        f64::NAN,
        |(x, n, p): (u64, u64, f64)| Binomial::new(p, n).map(|d| d.pmf(x)),
    );
    assert_eq!(out, Err(BinomialError::ProbabilityInvalid));
}
