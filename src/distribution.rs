//! The functions of each distribution, and their installation.

pub mod bernoulli;
pub mod beta;
pub mod binomial;
pub mod cauchy;
pub mod chi;
pub mod chi_squared;
pub mod dirac;
pub mod erlang;
pub mod exp;
pub mod fisher_snedecor;
pub mod gamma;
pub mod geometric;
pub mod gumbel;
pub mod hypergeometric;
pub mod inverse_gamma;
pub mod laplace;
pub mod log_normal;
pub mod negative_binomial;
pub mod normal;
pub mod pareto;
pub mod poisson;
pub mod students_t;
pub mod triangular;
pub mod uniform;
pub mod weibull;

use vstd::prelude::*;
use crate::registry::{
    installed, lemma_installed_concat, lemma_installed_names, replaced_names, FunctionRegistry,
};
use crate::udf::{catalog, function_name, functions_of, offers, Distribution, Stat};

verus! {

/// Every distribution, in the order its functions are installed.
pub open spec fn all_distributions() -> Seq<Distribution> {
    seq![
        Distribution::Bernoulli,
        Distribution::Beta,
        Distribution::Binomial,
        Distribution::Cauchy,
        Distribution::Chi,
        Distribution::ChiSquared,
        Distribution::Dirac,
        Distribution::Erlang,
        Distribution::Exp,
        Distribution::FisherSnedecor,
        Distribution::Gamma,
        Distribution::Geometric,
        Distribution::Gumbel,
        Distribution::Hypergeometric,
        Distribution::InverseGamma,
        Distribution::Laplace,
        Distribution::LogNormal,
        Distribution::NegativeBinomial,
        Distribution::Normal,
        Distribution::Pareto,
        Distribution::Poisson,
        Distribution::StudentsT,
        Distribution::Triangular,
        Distribution::Uniform,
        Distribution::Weibull,
    ]
}

/// The functions of the distributions `ds`, one distribution after another.
pub open spec fn functions_of_all(ds: Seq<Distribution>) -> Seq<(Distribution, Stat)>
    decreases ds.len(),
{
    if ds.len() == 0 {
        Seq::empty()
    } else {
        functions_of_all(ds.drop_last()) + functions_of(ds.last())
    }
}

/// Installs the functions of `d` into `registry`, and returns the names of the
/// functions replaced.
pub fn register_distribution(registry: &mut FunctionRegistry, d: Distribution) -> (replaced: Vec<String>)
    requires
        old(registry).wf(),
    ensures
        final(registry).wf(),
        final(registry)@ == installed(old(registry)@, functions_of(d)),
        replaced@.map_values(|s: String| s@) == replaced_names(old(registry)@, functions_of(d)),
{
    match d {
        Distribution::Bernoulli => bernoulli::register(registry),
        Distribution::Beta => beta::register(registry),
        Distribution::Binomial => binomial::register(registry),
        Distribution::Cauchy => cauchy::register(registry),
        Distribution::Chi => chi::register(registry),
        Distribution::ChiSquared => chi_squared::register(registry),
        Distribution::Dirac => dirac::register(registry),
        Distribution::Erlang => erlang::register(registry),
        Distribution::Exp => exp::register(registry),
        Distribution::FisherSnedecor => fisher_snedecor::register(registry),
        Distribution::Gamma => gamma::register(registry),
        Distribution::Geometric => geometric::register(registry),
        Distribution::Gumbel => gumbel::register(registry),
        Distribution::Hypergeometric => hypergeometric::register(registry),
        Distribution::InverseGamma => inverse_gamma::register(registry),
        Distribution::Laplace => laplace::register(registry),
        Distribution::LogNormal => log_normal::register(registry),
        Distribution::NegativeBinomial => negative_binomial::register(registry),
        Distribution::Normal => normal::register(registry),
        Distribution::Pareto => pareto::register(registry),
        Distribution::Poisson => poisson::register(registry),
        Distribution::StudentsT => students_t::register(registry),
        Distribution::Triangular => triangular::register(registry),
        Distribution::Uniform => uniform::register(registry),
        Distribution::Weibull => weibull::register(registry),
    }
}

/// Installs the functions of every distribution into `registry`, and returns the
/// names of the functions replaced.
pub fn register(registry: &mut FunctionRegistry) -> (replaced: Vec<String>)
    requires
        old(registry).wf(),
    ensures
        final(registry).wf(),
        final(registry)@ == installed(old(registry)@, functions_of_all(all_distributions())),
        replaced@.map_values(|s: String| s@) == replaced_names(
            old(registry)@,
            functions_of_all(all_distributions()),
        ),
        forall|d: Distribution, s: Stat|
            offers(d, s) ==> #[trigger] final(registry)@.contains_key(function_name(d, s)),
{
    let ds = vec![
        Distribution::Bernoulli,
        Distribution::Beta,
        Distribution::Binomial,
        Distribution::Cauchy,
        Distribution::Chi,
        Distribution::ChiSquared,
        Distribution::Dirac,
        Distribution::Erlang,
        Distribution::Exp,
        Distribution::FisherSnedecor,
        Distribution::Gamma,
        Distribution::Geometric,
        Distribution::Gumbel,
        Distribution::Hypergeometric,
        Distribution::InverseGamma,
        Distribution::Laplace,
        Distribution::LogNormal,
        Distribution::NegativeBinomial,
        Distribution::Normal,
        Distribution::Pareto,
        Distribution::Poisson,
        Distribution::StudentsT,
        Distribution::Triangular,
        Distribution::Uniform,
        Distribution::Weibull,
    ];
    assert(ds@ =~= all_distributions());
    let ghost m = registry@;
    let mut replaced: Vec<String> = Vec::new();
    let mut i: usize = 0;
    while i < ds.len()
        invariant
            i <= ds@.len(),
            ds@ == all_distributions(),
            registry.wf(),
            registry@ == installed(m, functions_of_all(ds@.subrange(0, i as int))),
            replaced@.map_values(|s: String| s@) == replaced_names(
                m,
                functions_of_all(ds@.subrange(0, i as int)),
            ),
        decreases ds@.len() - i,
    {
        let ghost before = registry@;
        let ghost names_before = replaced@;
        let mut more = register_distribution(registry, ds[i]);
        let ghost names_more = more@;
        replaced.append(&mut more);
        proof {
            let done = functions_of_all(ds@.subrange(0, i as int));
            assert(ds@.subrange(0, i + 1).drop_last() =~= ds@.subrange(0, i as int));
            lemma_installed_concat(m, done, functions_of(ds@[i as int]));
            assert(replaced@.map_values(|s: String| s@) =~= names_before.map_values(|s: String| s@)
                + names_more.map_values(|s: String| s@));
        }
        i = i + 1;
    }
    proof {
        assert(ds@.subrange(0, i as int) =~= ds@);
        lemma_installed_names(m, functions_of_all(all_distributions()));
        assert forall|d: Distribution, s: Stat|
            offers(d, s) implies #[trigger] registry@.contains_key(function_name(d, s)) by {
            let k = index_of(d);
            lemma_functions_of_all_contains(all_distributions(), k, catalog(d).index_of(s));
            let all = functions_of_all(all_distributions());
            let j = choose|j: int| 0 <= j < all.len() && all[j] == (d, s);
            assert(all[j].0 == d && all[j].1 == s);
        }
    }
    replaced
}

/// The position of `d` in `all_distributions()`.
proof fn index_of(d: Distribution) -> (k: int)
    ensures
        0 <= k < all_distributions().len(),
        all_distributions()[k] == d,
{
    match d {
        Distribution::Bernoulli => 0,
        Distribution::Beta => 1,
        Distribution::Binomial => 2,
        Distribution::Cauchy => 3,
        Distribution::Chi => 4,
        Distribution::ChiSquared => 5,
        Distribution::Dirac => 6,
        Distribution::Erlang => 7,
        Distribution::Exp => 8,
        Distribution::FisherSnedecor => 9,
        Distribution::Gamma => 10,
        Distribution::Geometric => 11,
        Distribution::Gumbel => 12,
        Distribution::Hypergeometric => 13,
        Distribution::InverseGamma => 14,
        Distribution::Laplace => 15,
        Distribution::LogNormal => 16,
        Distribution::NegativeBinomial => 17,
        Distribution::Normal => 18,
        Distribution::Pareto => 19,
        Distribution::Poisson => 20,
        Distribution::StudentsT => 21,
        Distribution::Triangular => 22,
        Distribution::Uniform => 23,
        Distribution::Weibull => 24,
    }
}

/// Each function of each of `ds` is among their functions.
proof fn lemma_functions_of_all_contains(ds: Seq<Distribution>, k: int, j: int)
    requires
        0 <= k < ds.len(),
        0 <= j < catalog(ds[k]).len(),
    ensures
        exists|i: int|
            0 <= i < functions_of_all(ds).len() && functions_of_all(ds)[i] == (ds[k], catalog(ds[k])[j]),
    decreases ds.len(),
{
    let prev = functions_of_all(ds.drop_last());
    if k < ds.len() - 1 {
        lemma_functions_of_all_contains(ds.drop_last(), k, j);
        let i = choose|i: int| 0 <= i < prev.len() && prev[i] == (ds[k], catalog(ds[k])[j]);
        assert(functions_of_all(ds)[i] == prev[i]);
    } else {
        assert(functions_of_all(ds)[prev.len() + j] == functions_of(ds.last())[j]);
    }
}

} // verus!
