//! A namespace of scalar functions, keyed by name. Installing a function under
//! a name that is already taken replaces the earlier function and reports it.

use vstd::prelude::*;
use crate::udf::{function_name, Distribution, Stat, Udf};

verus! {

/// No two descriptors carry the same name.
pub open spec fn names_unique(s: Seq<Udf>) -> bool {
    forall|i: int, j: int| 0 <= i < j < s.len() ==> s[i].name@ != s[j].name@
}

/// Some descriptor of `s` carries the name `k`.
pub open spec fn has_name(s: Seq<Udf>, k: Seq<char>) -> bool {
    exists|i: int| 0 <= i < s.len() && #[trigger] s[i].name@ == k
}

/// The functions of `s` by name: what each computes.
pub open spec fn entries_map(s: Seq<Udf>) -> Map<Seq<char>, (Distribution, Stat)> {
    Map::new(
        |k: Seq<char>| has_name(s, k),
        |k: Seq<char>|
            {
                let i = choose|i: int| 0 <= i < s.len() && #[trigger] s[i].name@ == k;
                (s[i].distribution, s[i].stat)
            },
    )
}

/// The functions installed in one session.
pub struct FunctionRegistry {
    entries: Vec<Udf>,
}

impl FunctionRegistry {
    /// The installed descriptors, in the order their names were first taken.
    pub closed spec fn entries(&self) -> Seq<Udf> {
        self.entries@
    }

    /// Names are unique and every descriptor is well formed.
    pub open spec fn wf(&self) -> bool {
        &&& names_unique(self.entries())
        &&& forall|i: int| 0 <= i < self.entries().len() ==> #[trigger] self.entries()[i].wf()
    }

    /// The installed functions by name: what each computes.
    pub open spec fn view(&self) -> Map<Seq<char>, (Distribution, Stat)> {
        entries_map(self.entries())
    }

    /// An empty namespace.
    pub fn new() -> (r: FunctionRegistry)
        ensures
            r.wf(),
            r@ == Map::<Seq<char>, (Distribution, Stat)>::empty(),
    {
        let r = FunctionRegistry { entries: Vec::new() };
        assert(r@ =~= Map::<Seq<char>, (Distribution, Stat)>::empty());
        r
    }

    /// The position of the descriptor named `name`, if any.
    fn position(&self, name: &String) -> (r: Option<usize>)
        requires
            self.wf(),
        ensures
            r is Some <==> has_name(self.entries(), name@),
            r is Some ==> r->Some_0 < self.entries().len() && self.entries()[r->Some_0 as int].name@
                == name@,
    {
        let mut i: usize = 0;
        while i < self.entries.len()
            invariant
                i <= self.entries@.len(),
                forall|j: int| 0 <= j < i ==> #[trigger] self.entries@[j].name@ != name@,
            decreases self.entries@.len() - i,
        {
            if self.entries[i].name == *name {
                return Some(i);
            }
            i = i + 1;
        }
        None
    }

    /// The installed descriptors, one per name.
    pub fn functions(&self) -> (r: &Vec<Udf>)
        requires
            self.wf(),
        ensures
            entries_map(r@) == self@,
            names_unique(r@),
            forall|i: int| 0 <= i < r@.len() ==> #[trigger] r@[i].wf(),
    {
        &self.entries
    }

    /// The descriptor installed under `name`, if any.
    pub fn udf(&self, name: &String) -> (r: Option<&Udf>)
        requires
            self.wf(),
        ensures
            r is Some <==> self@.contains_key(name@),
            r is Some ==> r->Some_0.wf() && r->Some_0.name@ == name@ && (
            r->Some_0.distribution,
            r->Some_0.stat,
        ) == self@[name@],
    {
        match self.position(name) {
            Some(i) => Some(&self.entries[i]),
            None => None,
        }
    }

    /// Installs `udf` under its name. A function already installed under that
    /// name is replaced and returned.
    pub fn register_udf(&mut self, udf: Udf) -> (replaced: Option<Udf>)
        requires
            old(self).wf(),
            udf.wf(),
        ensures
            final(self).wf(),
            final(self)@ == old(self)@.insert(udf.name@, (udf.distribution, udf.stat)),
            replaced is Some <==> old(self)@.contains_key(udf.name@),
            replaced is Some ==> replaced->Some_0.wf() && replaced->Some_0.name@ == udf.name@ && (
            replaced->Some_0.distribution,
            replaced->Some_0.stat,
        ) == old(self)@[udf.name@],
    {
        let ghost before = self.entries@;
        match self.position(&udf.name) {
            Some(i) => {
                let mut udf = udf;
                std::mem::swap(&mut self.entries[i], &mut udf);
                proof {
                    let after = self.entries@;
                    assert(after == before.update(i as int, after[i as int]));
                    assert forall|k: Seq<char>| #[trigger] has_name(after, k) == has_name(before, k) by {
                        if has_name(before, k) {
                            let j = choose|j: int| 0 <= j < before.len() && #[trigger] before[j].name@ == k;
                            assert(after[j].name@ == k);
                        }
                        if has_name(after, k) {
                            let j = choose|j: int| 0 <= j < after.len() && #[trigger] after[j].name@ == k;
                            assert(before[j].name@ == k);
                        }
                    }
                    assert(self@ =~= old(self)@.insert(after[i as int].name@, (after[i as int].distribution, after[i as int].stat)));
                }
                Some(udf)
            },
            None => {
                self.entries.push(udf);
                proof {
                    let after = self.entries@;
                    assert forall|k: Seq<char>| #[trigger] has_name(after, k) == (has_name(before, k) || k == after.last().name@) by {
                        if has_name(before, k) {
                            let j = choose|j: int| 0 <= j < before.len() && #[trigger] before[j].name@ == k;
                            assert(after[j].name@ == k);
                        }
                        if k == after.last().name@ {
                            assert(after[after.len() - 1].name@ == k);
                        }
                    }
                    assert(self@ =~= old(self)@.insert(after.last().name@, (after.last().distribution, after.last().stat)));
                }
                None
            },
        }
    }
}

/// What each descriptor of `fs` computes, in order.
pub open spec fn pairs_of(fs: Seq<Udf>) -> Seq<(Distribution, Stat)> {
    fs.map_values(|u: Udf| (u.distribution, u.stat))
}

/// The namespace `m` after installing the functions `fs` one after another.
pub open spec fn installed(
    m: Map<Seq<char>, (Distribution, Stat)>,
    fs: Seq<(Distribution, Stat)>,
) -> Map<Seq<char>, (Distribution, Stat)>
    decreases fs.len(),
{
    if fs.len() == 0 {
        m
    } else {
        let f = fs.last();
        installed(m, fs.drop_last()).insert(function_name(f.0, f.1), f)
    }
}

/// The names replaced while installing `fs` into `m` one after another, in order.
pub open spec fn replaced_names(
    m: Map<Seq<char>, (Distribution, Stat)>,
    fs: Seq<(Distribution, Stat)>,
) -> Seq<Seq<char>>
    decreases fs.len(),
{
    if fs.len() == 0 {
        Seq::empty()
    } else {
        let f = fs.last();
        let earlier = replaced_names(m, fs.drop_last());
        if installed(m, fs.drop_last()).contains_key(function_name(f.0, f.1)) {
            earlier.push(function_name(f.0, f.1))
        } else {
            earlier
        }
    }
}

/// Installing functions leaves every name already taken taken, and takes the name
/// of each function installed.
pub proof fn lemma_installed_names(
    m: Map<Seq<char>, (Distribution, Stat)>,
    fs: Seq<(Distribution, Stat)>,
)
    ensures
        forall|k: Seq<char>| m.contains_key(k) ==> #[trigger] installed(m, fs).contains_key(k),
        forall|i: int|
            0 <= i < fs.len() ==> installed(m, fs).contains_key(
                function_name(#[trigger] fs[i].0, fs[i].1),
            ),
    decreases fs.len(),
{
    if fs.len() > 0 {
        lemma_installed_names(m, fs.drop_last());
        assert forall|k: Seq<char>| m.contains_key(k) implies #[trigger] installed(
            m,
            fs,
        ).contains_key(k) by {
            assert(installed(m, fs.drop_last()).contains_key(k));
        }
        assert forall|i: int|
            0 <= i < fs.len() implies installed(m, fs).contains_key(
            function_name(#[trigger] fs[i].0, fs[i].1),
        ) by {
            if i < fs.len() - 1 {
                assert(fs.drop_last()[i] == fs[i]);
            }
        }
    }
}

/// Installing `a` and then `b` is installing `a + b`.
pub proof fn lemma_installed_concat(
    m: Map<Seq<char>, (Distribution, Stat)>,
    a: Seq<(Distribution, Stat)>,
    b: Seq<(Distribution, Stat)>,
)
    ensures
        installed(installed(m, a), b) == installed(m, a + b),
        replaced_names(m, a + b) == replaced_names(m, a) + replaced_names(installed(m, a), b),
    decreases b.len(),
{
    if b.len() == 0 {
        assert(a + b =~= a);
        assert(replaced_names(m, a) + replaced_names(installed(m, a), b) =~= replaced_names(m, a));
    } else {
        lemma_installed_concat(m, a, b.drop_last());
        assert((a + b).drop_last() =~= a + b.drop_last());
        assert((a + b).last() == b.last());
        assert(replaced_names(m, a) + replaced_names(installed(m, a), b.drop_last()).push(
            function_name(b.last().0, b.last().1),
        ) =~= (replaced_names(m, a) + replaced_names(installed(m, a), b.drop_last())).push(
            function_name(b.last().0, b.last().1),
        ));
    }
}

/// The names of the functions replaced.
fn names(replaced: &Vec<Udf>) -> (r: Vec<String>)
    ensures
        r@.map_values(|s: String| s@) == replaced@.map_values(|u: Udf| u.name@),
{
    let mut r: Vec<String> = Vec::new();
    let mut i: usize = 0;
    while i < replaced.len()
        invariant
            i <= replaced@.len(),
            r@.map_values(|s: String| s@) =~= replaced@.subrange(0, i as int).map_values(
                |u: Udf| u.name@,
            ),
        decreases replaced@.len() - i,
    {
        let ghost before = r@;
        r.push(replaced[i].name.clone());
        proof {
            assert(replaced@.subrange(0, i + 1).map_values(|u: Udf| u.name@) =~= replaced@.subrange(
                0,
                i as int,
            ).map_values(|u: Udf| u.name@).push(replaced@[i as int].name@));
            assert(r@.map_values(|s: String| s@) =~= before.map_values(|s: String| s@).push(
                replaced@[i as int].name@,
            ));
        }
        i = i + 1;
    }
    assert(replaced@.subrange(0, i as int) =~= replaced@);
    r
}

/// Installs `functions` into `registry` one after another, and returns the names
/// of the functions that were replaced, in order.
pub fn register(registry: &mut FunctionRegistry, functions: Vec<Udf>) -> (replaced: Vec<String>)
    requires
        old(registry).wf(),
        forall|i: int| 0 <= i < functions@.len() ==> #[trigger] functions@[i].wf(),
    ensures
        final(registry).wf(),
        final(registry)@ == installed(old(registry)@, pairs_of(functions@)),
        replaced@.map_values(|s: String| s@) == replaced_names(
            old(registry)@,
            pairs_of(functions@),
        ),
{
    let ghost m = registry@;
    let ghost fs = pairs_of(functions@);
    let ghost all = functions@;
    let mut functions = functions;
    let mut taken: Vec<Udf> = Vec::new();
    let mut k: usize = 0;
    let n = functions.len();
    while functions.len() > 0
        invariant
            registry.wf(),
            k + functions@.len() == n == all.len(),
            functions@ == all.subrange(k as int, n as int),
            forall|i: int| 0 <= i < all.len() ==> #[trigger] all[i].wf(),
            fs == pairs_of(all),
            registry@ == installed(m, fs.subrange(0, k as int)),
            taken@.map_values(|u: Udf| u.name@) == replaced_names(m, fs.subrange(0, k as int)),
        decreases functions@.len(),
    {
        let udf = functions.remove(0);
        proof {
            assert(udf == all[k as int]);
            assert(all[k as int].wf());
            assert(fs[k as int] == (udf.distribution, udf.stat));
            assert(udf.name@ == function_name(udf.distribution, udf.stat));
            assert(fs.subrange(0, k + 1).drop_last() =~= fs.subrange(0, k as int));
            assert(fs.subrange(0, k + 1).last() == fs[k as int]);
            assert(functions@ =~= all.subrange(k + 1, n as int));
        }
        let ghost before = taken@;
        match registry.register_udf(udf) {
            Some(old_udf) => {
                taken.push(old_udf);
                proof {
                    assert(taken@.map_values(|u: Udf| u.name@) =~= before.map_values(|u: Udf| u.name@).push(
                        taken@.last().name@,
                    ));
                }
            },
            None => {},
        }
        k = k + 1;
    }
    proof {
        assert(fs.subrange(0, k as int) =~= fs);
    }
    names(&taken)
}

} // verus!
