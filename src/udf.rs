//! Descriptors of the scalar functions: which distribution and statistic each
//! one computes, its name, and the types of its arguments.

use vstd::prelude::*;
use vstd::string::StringExecFns;

verus! {

/// The column types that a function takes and returns.
#[derive(Clone, Copy, Debug, PartialEq, Eq, Structural)]
pub enum ArgType {
    Float64,
    UInt64,
}

/// The statistic that a function computes.
#[derive(Clone, Copy, Debug, PartialEq, Eq, Structural)]
pub enum Stat {
    /// Probability density.
    Pdf,
    /// Natural logarithm of the probability density.
    LnPdf,
    /// Cumulative distribution function.
    Cdf,
    /// Survival function, one minus the cumulative distribution function.
    Sf,
    /// Probability mass.
    Pmf,
    /// Natural logarithm of the probability mass.
    LnPmf,
}

/// The distributions that functions are offered for.
#[derive(Clone, Copy, Debug, PartialEq, Eq, Structural)]
pub enum Distribution {
    Bernoulli,
    Beta,
    Binomial,
    Cauchy,
    Chi,
    ChiSquared,
    Dirac,
    Erlang,
    Exp,
    FisherSnedecor,
    Gamma,
    Geometric,
    Gumbel,
    Hypergeometric,
    InverseGamma,
    Laplace,
    LogNormal,
    NegativeBinomial,
    Normal,
    Pareto,
    Poisson,
    StudentsT,
    Triangular,
    Uniform,
    Weibull,
}

/// The argument layouts: the evaluation point first, then the parameters. `F`
/// stands for a `Float64` argument and `U` for a `UInt64` one.
#[derive(Clone, Copy, Debug, PartialEq, Eq, Structural)]
pub enum Layout {
    Continuous1F1U,
    Continuous1F1U1F,
    Continuous2F,
    Continuous3F,
    Continuous4F,
    Discrete1U1F,
    Discrete1U2F,
    Discrete2U1F,
    Discrete4U,
}

/// The argument types of a layout, in order.
pub open spec fn arg_types(l: Layout) -> Seq<ArgType> {
    match l {
        Layout::Continuous1F1U => seq![ArgType::Float64, ArgType::UInt64],
        Layout::Continuous1F1U1F => seq![ArgType::Float64, ArgType::UInt64, ArgType::Float64],
        Layout::Continuous2F => seq![ArgType::Float64, ArgType::Float64],
        Layout::Continuous3F => seq![ArgType::Float64, ArgType::Float64, ArgType::Float64],
        Layout::Continuous4F => seq![
            ArgType::Float64,
            ArgType::Float64,
            ArgType::Float64,
            ArgType::Float64,
        ],
        Layout::Discrete1U1F => seq![ArgType::UInt64, ArgType::Float64],
        Layout::Discrete1U2F => seq![ArgType::UInt64, ArgType::Float64, ArgType::Float64],
        Layout::Discrete2U1F => seq![ArgType::UInt64, ArgType::UInt64, ArgType::Float64],
        Layout::Discrete4U => seq![
            ArgType::UInt64,
            ArgType::UInt64,
            ArgType::UInt64,
            ArgType::UInt64,
        ],
    }
}

/// The layout of every function of a distribution.
pub open spec fn layout_of(d: Distribution) -> Layout {
    match d {
        Distribution::Bernoulli => Layout::Discrete1U1F,
        Distribution::Beta => Layout::Continuous3F,
        Distribution::Binomial => Layout::Discrete2U1F,
        Distribution::Cauchy => Layout::Continuous3F,
        Distribution::Chi => Layout::Continuous1F1U,
        Distribution::ChiSquared => Layout::Continuous2F,
        Distribution::Dirac => Layout::Continuous2F,
        Distribution::Erlang => Layout::Continuous1F1U1F,
        Distribution::Exp => Layout::Continuous2F,
        Distribution::FisherSnedecor => Layout::Continuous3F,
        Distribution::Gamma => Layout::Continuous3F,
        Distribution::Geometric => Layout::Discrete1U1F,
        Distribution::Gumbel => Layout::Continuous3F,
        Distribution::Hypergeometric => Layout::Discrete4U,
        Distribution::InverseGamma => Layout::Continuous3F,
        Distribution::Laplace => Layout::Continuous3F,
        Distribution::LogNormal => Layout::Continuous3F,
        Distribution::NegativeBinomial => Layout::Discrete1U2F,
        Distribution::Normal => Layout::Continuous3F,
        Distribution::Pareto => Layout::Continuous3F,
        Distribution::Poisson => Layout::Discrete1U1F,
        Distribution::StudentsT => Layout::Continuous4F,
        Distribution::Triangular => Layout::Continuous4F,
        Distribution::Uniform => Layout::Continuous3F,
        Distribution::Weibull => Layout::Continuous3F,
    }
}

/// Whether a distribution is discrete, with its functions taking the evaluation
/// point as a `UInt64`.
pub open spec fn is_discrete(d: Distribution) -> bool {
    match d {
        Distribution::Bernoulli | Distribution::Binomial | Distribution::Geometric
        | Distribution::Hypergeometric | Distribution::NegativeBinomial
        | Distribution::Poisson => true,
        _ => false,
    }
}

/// The statistics offered for a distribution, in the order they are registered.
pub open spec fn catalog(d: Distribution) -> Seq<Stat> {
    if is_discrete(d) {
        seq![Stat::Pmf, Stat::LnPmf, Stat::Cdf, Stat::Sf]
    } else {
        match d {
            Distribution::ChiSquared | Distribution::InverseGamma => seq![
                Stat::Pdf,
                Stat::Cdf,
                Stat::Sf,
            ],
            Distribution::Dirac => seq![Stat::Cdf, Stat::Sf],
            _ => seq![Stat::Pdf, Stat::LnPdf, Stat::Cdf, Stat::Sf],
        }
    }
}

/// The functions offered for a distribution, in the order they are registered.
pub open spec fn functions_of(d: Distribution) -> Seq<(Distribution, Stat)> {
    catalog(d).map_values(|s: Stat| (d, s))
}

/// Whether a function computing `s` is offered for `d`.
pub open spec fn offers(d: Distribution, s: Stat) -> bool {
    catalog(d).contains(s)
}

/// The leading part of the names of a distribution's functions.
pub open spec fn prefix_of(d: Distribution) -> Seq<char> {
    match d {
        Distribution::Bernoulli => "bernoulli"@,
        Distribution::Beta => "beta"@,
        Distribution::Binomial => "binomial"@,
        Distribution::Cauchy => "cauchy"@,
        Distribution::Chi => "chi"@,
        Distribution::ChiSquared => "chi_squared"@,
        Distribution::Dirac => "dirac"@,
        Distribution::Erlang => "erlang"@,
        Distribution::Exp => "exp"@,
        Distribution::FisherSnedecor => "fisher_snedecor"@,
        Distribution::Gamma => "gamma"@,
        Distribution::Geometric => "geometric"@,
        Distribution::Gumbel => "gumbel"@,
        Distribution::Hypergeometric => "hypergeometric"@,
        Distribution::InverseGamma => "inverse_gamma"@,
        Distribution::Laplace => "laplace"@,
        Distribution::LogNormal => "log_normal"@,
        Distribution::NegativeBinomial => "negative_binomial"@,
        Distribution::Normal => "normal"@,
        Distribution::Pareto => "pareto"@,
        Distribution::Poisson => "poisson"@,
        Distribution::StudentsT => "students_t"@,
        Distribution::Triangular => "triangular"@,
        Distribution::Uniform => "uniform"@,
        Distribution::Weibull => "weibull"@,
    }
}

/// The trailing part of the names of the functions computing a statistic.
pub open spec fn suffix_of(s: Stat) -> Seq<char> {
    match s {
        Stat::Pdf => "pdf"@,
        Stat::LnPdf => "ln_pdf"@,
        Stat::Cdf => "cdf"@,
        Stat::Sf => "sf"@,
        Stat::Pmf => "pmf"@,
        Stat::LnPmf => "ln_pmf"@,
    }
}

/// The name of the function computing `s` for `d`: `<distribution>_<statistic>`.
pub open spec fn function_name(d: Distribution, s: Stat) -> Seq<char> {
    prefix_of(d) + "_"@ + suffix_of(s)
}

impl Layout {
    /// The argument types of this layout, in order.
    pub fn arg_types(&self) -> (r: Vec<ArgType>)
        ensures
            r@ == arg_types(*self),
    {
        let f = ArgType::Float64;
        let u = ArgType::UInt64;
        let r = match self {
            Layout::Continuous1F1U => vec![f, u],
            Layout::Continuous1F1U1F => vec![f, u, f],
            Layout::Continuous2F => vec![f, f],
            Layout::Continuous3F => vec![f, f, f],
            Layout::Continuous4F => vec![f, f, f, f],
            Layout::Discrete1U1F => vec![u, f],
            Layout::Discrete1U2F => vec![u, f, f],
            Layout::Discrete2U1F => vec![u, u, f],
            Layout::Discrete4U => vec![u, u, u, u],
        };
        assert(r@ =~= arg_types(*self));
        r
    }
}

impl Distribution {
    /// The layout of every function of this distribution.
    pub fn layout(&self) -> (r: Layout)
        ensures
            r == layout_of(*self),
    {
        match self {
            Distribution::Bernoulli => Layout::Discrete1U1F,
            Distribution::Beta => Layout::Continuous3F,
            Distribution::Binomial => Layout::Discrete2U1F,
            Distribution::Cauchy => Layout::Continuous3F,
            Distribution::Chi => Layout::Continuous1F1U,
            Distribution::ChiSquared => Layout::Continuous2F,
            Distribution::Dirac => Layout::Continuous2F,
            Distribution::Erlang => Layout::Continuous1F1U1F,
            Distribution::Exp => Layout::Continuous2F,
            Distribution::FisherSnedecor => Layout::Continuous3F,
            Distribution::Gamma => Layout::Continuous3F,
            Distribution::Geometric => Layout::Discrete1U1F,
            Distribution::Gumbel => Layout::Continuous3F,
            Distribution::Hypergeometric => Layout::Discrete4U,
            Distribution::InverseGamma => Layout::Continuous3F,
            Distribution::Laplace => Layout::Continuous3F,
            Distribution::LogNormal => Layout::Continuous3F,
            Distribution::NegativeBinomial => Layout::Discrete1U2F,
            Distribution::Normal => Layout::Continuous3F,
            Distribution::Pareto => Layout::Continuous3F,
            Distribution::Poisson => Layout::Discrete1U1F,
            Distribution::StudentsT => Layout::Continuous4F,
            Distribution::Triangular => Layout::Continuous4F,
            Distribution::Uniform => Layout::Continuous3F,
            Distribution::Weibull => Layout::Continuous3F,
        }
    }

    /// The leading part of the names of this distribution's functions.
    pub fn prefix(&self) -> (r: &'static str)
        ensures
            r@ == prefix_of(*self),
    {
        match self {
            Distribution::Bernoulli => "bernoulli",
            Distribution::Beta => "beta",
            Distribution::Binomial => "binomial",
            Distribution::Cauchy => "cauchy",
            Distribution::Chi => "chi",
            Distribution::ChiSquared => "chi_squared",
            Distribution::Dirac => "dirac",
            Distribution::Erlang => "erlang",
            Distribution::Exp => "exp",
            Distribution::FisherSnedecor => "fisher_snedecor",
            Distribution::Gamma => "gamma",
            Distribution::Geometric => "geometric",
            Distribution::Gumbel => "gumbel",
            Distribution::Hypergeometric => "hypergeometric",
            Distribution::InverseGamma => "inverse_gamma",
            Distribution::Laplace => "laplace",
            Distribution::LogNormal => "log_normal",
            Distribution::NegativeBinomial => "negative_binomial",
            Distribution::Normal => "normal",
            Distribution::Pareto => "pareto",
            Distribution::Poisson => "poisson",
            Distribution::StudentsT => "students_t",
            Distribution::Triangular => "triangular",
            Distribution::Uniform => "uniform",
            Distribution::Weibull => "weibull",
        }
    }

    /// Whether a function computing `s` is offered for this distribution.
    pub fn offers(&self, s: Stat) -> (r: bool)
        ensures
            r == offers(*self, s),
    {
        let discrete = match self {
            Distribution::Bernoulli | Distribution::Binomial | Distribution::Geometric
            | Distribution::Hypergeometric | Distribution::NegativeBinomial
            | Distribution::Poisson => true,
            _ => false,
        };
        let r = if discrete {
            match s {
                Stat::Pmf | Stat::LnPmf | Stat::Cdf | Stat::Sf => true,
                _ => false,
            }
        } else {
            match self {
                Distribution::ChiSquared | Distribution::InverseGamma => match s {
                    Stat::Pdf | Stat::Cdf | Stat::Sf => true,
                    _ => false,
                },
                Distribution::Dirac => match s {
                    Stat::Cdf | Stat::Sf => true,
                    _ => false,
                },
                _ => match s {
                    Stat::Pdf | Stat::LnPdf | Stat::Cdf | Stat::Sf => true,
                    _ => false,
                },
            }
        };
        proof {
            let c = catalog(*self);
            if r {
                assert(c[c.len() - 1] == Stat::Sf);
                assert(c.contains(s)) by {
                    if s == Stat::Cdf {
                        assert(c[c.len() - 2] == s);
                    } else if s != Stat::Sf {
                        assert(c[0] == s || c[1] == s);
                    }
                }
            } else {
                assert(!c.contains(s)) by {
                    if c.contains(s) {
                        let i = choose|i: int| 0 <= i < c.len() && c[i] == s;
                    }
                }
            }
        }
        r
    }
}

impl Stat {
    /// The trailing part of the names of the functions computing this statistic.
    pub fn suffix(&self) -> (r: &'static str)
        ensures
            r@ == suffix_of(*self),
    {
        match self {
            Stat::Pdf => "pdf",
            Stat::LnPdf => "ln_pdf",
            Stat::Cdf => "cdf",
            Stat::Sf => "sf",
            Stat::Pmf => "pmf",
            Stat::LnPmf => "ln_pmf",
        }
    }
}

/// The descriptor of one scalar function: its name, and the distribution and
/// statistic it computes. Its arguments are given by the distribution's layout,
/// and it returns a `Float64`.
#[derive(Debug)]
pub struct Udf {
    pub name: String,
    pub distribution: Distribution,
    pub stat: Stat,
}

impl Udf {
    /// The descriptor is of an offered function and carries that function's name.
    pub open spec fn wf(&self) -> bool {
        &&& offers(self.distribution, self.stat)
        &&& self.name@ == function_name(self.distribution, self.stat)
    }

    /// The descriptor of the function computing `stat` for `distribution`.
    pub fn new(distribution: Distribution, stat: Stat) -> (r: Udf)
        requires
            offers(distribution, stat),
        ensures
            r.wf(),
            r.distribution == distribution,
            r.stat == stat,
    {
        let name = String::from_str(distribution.prefix()).concat("_").concat(stat.suffix());
        Udf { name, distribution, stat }
    }

    /// The function's name.
    pub fn name(&self) -> (r: &str)
        ensures
            r@ == self.name@,
    {
        self.name.as_str()
    }

    /// The types of the function's arguments, in order.
    pub fn signature(&self) -> (r: Vec<ArgType>)
        ensures
            r@ == arg_types(layout_of(self.distribution)),
    {
        self.distribution.layout().arg_types()
    }

    /// The type of the function's result: always `Float64`.
    pub fn return_type(&self) -> (r: ArgType)
        ensures
            r == ArgType::Float64,
    {
        ArgType::Float64
    }
}

} // verus!
