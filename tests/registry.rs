use datafusion_statrs::distribution::{self, binomial, dirac, gamma, hypergeometric, inverse_gamma};
use datafusion_statrs::registry::{register, FunctionRegistry};
use datafusion_statrs::udf::{ArgType, Distribution, Layout, Stat, Udf};

#[test]
fn descriptor_names_follow_the_convention() {
    assert_eq!(binomial::pmf().name(), "binomial_pmf");
    assert_eq!(binomial::ln_pmf().name(), "binomial_ln_pmf");
    assert_eq!(binomial::cdf().name(), "binomial_cdf");
    assert_eq!(binomial::sf().name(), "binomial_sf");
    assert_eq!(gamma::ln_pdf().name(), "gamma_ln_pdf");
    assert_eq!(inverse_gamma::pdf().name(), "inverse_gamma_pdf");
    assert_eq!(distribution::chi_squared::pdf().name(), "chi_squared_pdf");
    assert_eq!(distribution::students_t::sf().name(), "students_t_sf");
}

#[test]
fn descriptor_signatures() {
    assert_eq!(
        binomial::pmf().signature(),
        vec![ArgType::UInt64, ArgType::UInt64, ArgType::Float64]
    );
    assert_eq!(gamma::cdf().signature(), vec![ArgType::Float64; 3]);
    assert_eq!(hypergeometric::sf().signature(), vec![ArgType::UInt64; 4]);
    assert_eq!(
        distribution::chi::pdf().signature(),
        vec![ArgType::Float64, ArgType::UInt64]
    );
    assert_eq!(
        distribution::erlang::pdf().signature(),
        vec![ArgType::Float64, ArgType::UInt64, ArgType::Float64]
    );
    assert_eq!(
        distribution::negative_binomial::pmf().signature(),
        vec![ArgType::UInt64, ArgType::Float64, ArgType::Float64]
    );
    assert_eq!(distribution::students_t::pdf().signature(), vec![ArgType::Float64; 4]);
    assert_eq!(Layout::Discrete1U1F.arg_types(), vec![ArgType::UInt64, ArgType::Float64]);
    assert_eq!(dirac::cdf().return_type(), ArgType::Float64);
}

#[test]
fn offered_statistics() {
    assert!(Distribution::Dirac.offers(Stat::Cdf));
    assert!(!Distribution::Dirac.offers(Stat::Pdf));
    assert!(!Distribution::ChiSquared.offers(Stat::LnPdf));
    assert!(Distribution::Chi.offers(Stat::LnPdf));
    assert!(Distribution::Poisson.offers(Stat::LnPmf));
    assert!(!Distribution::Poisson.offers(Stat::Pdf));
    assert!(!Distribution::Normal.offers(Stat::Pmf));
}

#[test]
fn registering_a_distribution_installs_its_functions() {
    let mut registry = FunctionRegistry::new();
    let replaced = binomial::register(&mut registry);
    assert!(replaced.is_empty());
    for name in ["binomial_pmf", "binomial_ln_pmf", "binomial_cdf", "binomial_sf"] {
        let udf = registry.udf(&name.to_string()).unwrap();
        assert_eq!(udf.name(), name);
        assert_eq!(udf.distribution, Distribution::Binomial);
    }
    assert!(registry.udf(&"binomial_pdf".to_string()).is_none());
}

#[test]
fn registering_again_replaces_and_reports() {
    let mut registry = FunctionRegistry::new();
    assert!(dirac::register(&mut registry).is_empty());
    let replaced = dirac::register(&mut registry);
    assert_eq!(replaced, vec!["dirac_cdf".to_string(), "dirac_sf".to_string()]);
    let replaced = registry.register_udf(Udf::new(Distribution::Dirac, Stat::Sf));
    assert_eq!(replaced.unwrap().name(), "dirac_sf");
    assert!(registry.register_udf(Udf::new(Distribution::Gamma, Stat::Pdf)).is_none());
}

#[test]
fn register_reports_replacements_within_one_call() {
    let mut registry = FunctionRegistry::new();
    let replaced = register(
        &mut registry,
        vec![gamma::pdf(), gamma::cdf(), gamma::pdf()],
    );
    assert_eq!(replaced, vec!["gamma_pdf".to_string()]);
    assert_eq!(registry.udf(&"gamma_pdf".to_string()).unwrap().stat, Stat::Pdf);
}

#[test]
fn registering_everything() {
    let mut registry = FunctionRegistry::new();
    let replaced = distribution::register(&mut registry);
    assert!(replaced.is_empty());
    let names = [
        "bernoulli_pmf",
        "beta_ln_pdf",
        "cauchy_sf",
        "chi_ln_pdf",
        "dirac_sf",
        "erlang_cdf",
        "exp_pdf",
        "fisher_snedecor_ln_pdf",
        "geometric_ln_pmf",
        "gumbel_cdf",
        "hypergeometric_pmf",
        "inverse_gamma_sf",
        "laplace_pdf",
        "log_normal_cdf",
        "negative_binomial_sf",
        "normal_pdf",
        "pareto_ln_pdf",
        "poisson_pmf",
        "triangular_cdf",
        "uniform_sf",
        "weibull_pdf",
    ];
    for name in names {
        assert_eq!(registry.udf(&name.to_string()).unwrap().name(), name);
    }
    assert!(registry.udf(&"dirac_pdf".to_string()).is_none());
    let again = distribution::register(&mut registry);
    assert_eq!(again.len(), 96);
}
