//! The catalog of model families: registration, rank order and lookup.
use vstd::prelude::*;
use crate::model::{Family, Model};
use crate::text::str_eq;

verus! {

/// Families in rank order: registration inserts each family after every
/// family of lower or equal rank, so the list is always what a stable
/// sort by rank of the registration order gives.
pub struct Catalog {
    families: Vec<Family>,
}

/// Whether the families are in non-decreasing rank order.
pub open spec fn rank_sorted(fs: Seq<Family>) -> bool {
    forall|i: int, j: int| 0 <= i <= j < fs.len() ==> fs[i].Rank <= fs[j].Rank
}

/// Where a family of rank `r` goes: after every family of rank `<= r`.
pub open spec fn insert_pos(fs: Seq<Family>, r: int) -> int
    decreases fs.len(),
{
    if fs.len() == 0 {
        0
    } else if fs.last().Rank <= r {
        fs.len() as int
    } else {
        insert_pos(fs.drop_last(), r)
    }
}

/// The list after registering `f`.
pub open spec fn insert_by_rank(fs: Seq<Family>, f: Family) -> Seq<Family> {
    fs.insert(insert_pos(fs, f.Rank as int), f)
}

/// The catalog a registration sequence builds.
pub open spec fn registered(fs: Seq<Family>) -> Seq<Family>
    decreases fs.len(),
{
    if fs.len() == 0 {
        seq![]
    } else {
        insert_by_rank(registered(fs.drop_last()), fs.last())
    }
}

/// Index of the first model named `name`, or -1.
pub open spec fn model_index(ms: Seq<Model>, name: Seq<char>) -> int
    decreases ms.len(),
{
    if ms.len() == 0 {
        -1
    } else if ms[0].Name@ == name {
        0
    } else {
        let k = model_index(ms.drop_first(), name);
        if k < 0 { -1 } else { k + 1 }
    }
}

/// Index of the first family (in rank order) holding a model named
/// `name`, or -1.
pub open spec fn family_index(fs: Seq<Family>, name: Seq<char>) -> int
    decreases fs.len(),
{
    if fs.len() == 0 {
        -1
    } else if model_index(fs[0].Models@, name) >= 0 {
        0
    } else {
        let k = family_index(fs.drop_first(), name);
        if k < 0 { -1 } else { k + 1 }
    }
}

pub proof fn lemma_model_index(ms: Seq<Model>, name: Seq<char>, k: int)
    requires
        -1 <= k < ms.len(),
        k >= 0 ==> ms[k].Name@ == name,
        forall|j: int| 0 <= j < ms.len() && (k < 0 || j < k) ==> ms[j].Name@ != name,
    ensures
        model_index(ms, name) == k,
    decreases ms.len(),
{
    if ms.len() > 0 && k != 0 {
        assert forall|j: int|
            0 <= j < ms.drop_first().len() && (k - 1 < 0 || j < k - 1) implies ms.drop_first()[j].Name@ != name by {
            assert(ms.drop_first()[j] == ms[j + 1]);
        }
        if k > 0 {
            assert(ms.drop_first()[k - 1] == ms[k]);
            lemma_model_index(ms.drop_first(), name, k - 1);
        } else {
            lemma_model_index(ms.drop_first(), name, -1);
        }
    }
}

pub proof fn lemma_model_index_bounds(ms: Seq<Model>, name: Seq<char>)
    ensures
        -1 <= model_index(ms, name) < ms.len(),
        model_index(ms, name) >= 0 ==> ms[model_index(ms, name)].Name@ == name,
        model_index(ms, name) < 0 ==> forall|j: int| 0 <= j < ms.len() ==> ms[j].Name@ != name,
    decreases ms.len(),
{
    if ms.len() > 0 && ms[0].Name@ != name {
        lemma_model_index_bounds(ms.drop_first(), name);
        assert forall|j: int| 0 <= j < ms.len() && model_index(ms, name) < 0 implies ms[j].Name@ != name by {
            if j > 0 {
                assert(ms[j] == ms.drop_first()[j - 1]);
            }
        }
    }
}

pub proof fn lemma_family_index(fs: Seq<Family>, name: Seq<char>, k: int)
    requires
        -1 <= k < fs.len(),
        k >= 0 ==> model_index(fs[k].Models@, name) >= 0,
        forall|j: int| 0 <= j < fs.len() && (k < 0 || j < k) ==> model_index(fs[j].Models@, name) < 0,
    ensures
        family_index(fs, name) == k,
    decreases fs.len(),
{
    if fs.len() > 0 && k != 0 {
        assert forall|j: int|
            0 <= j < fs.drop_first().len() && (k - 1 < 0 || j < k - 1) implies model_index(fs.drop_first()[j].Models@, name) < 0 by {
            assert(fs.drop_first()[j] == fs[j + 1]);
        }
        if k > 0 {
            assert(fs.drop_first()[k - 1] == fs[k]);
            lemma_family_index(fs.drop_first(), name, k - 1);
        } else {
            lemma_family_index(fs.drop_first(), name, -1);
        }
    }
}

pub proof fn lemma_family_index_bounds(fs: Seq<Family>, name: Seq<char>)
    ensures
        -1 <= family_index(fs, name) < fs.len(),
        family_index(fs, name) >= 0 ==> model_index(fs[family_index(fs, name)].Models@, name) >= 0,
        family_index(fs, name) < 0 ==> forall|j: int| 0 <= j < fs.len() ==> model_index(fs[j].Models@, name) < 0,
        family_index(fs, name) >= 0 ==> forall|j: int| 0 <= j < family_index(fs, name) ==> model_index(fs[j].Models@, name) < 0,
    decreases fs.len(),
{
    if fs.len() > 0 && model_index(fs[0].Models@, name) < 0 {
        lemma_family_index_bounds(fs.drop_first(), name);
        assert forall|j: int| 0 <= j < fs.len() && (family_index(fs, name) < 0 || j < family_index(fs, name)) implies model_index(fs[j].Models@, name) < 0 by {
            if j > 0 {
                assert(fs[j] == fs.drop_first()[j - 1]);
            }
        }
    }
}

proof fn lemma_insert_pos(fs: Seq<Family>, r: int)
    requires
        rank_sorted(fs),
    ensures
        0 <= insert_pos(fs, r) <= fs.len(),
        forall|i: int| 0 <= i < insert_pos(fs, r) ==> fs[i].Rank <= r,
        forall|i: int| insert_pos(fs, r) <= i < fs.len() ==> fs[i].Rank > r,
    decreases fs.len(),
{
    if fs.len() > 0 && fs.last().Rank > r {
        let d = fs.drop_last();
        assert(rank_sorted(d)) by {
            assert forall|i: int, j: int| 0 <= i <= j < d.len() implies d[i].Rank <= d[j].Rank by {
                assert(d[i] == fs[i] && d[j] == fs[j]);
            }
        }
        lemma_insert_pos(d, r);
        assert forall|i: int| 0 <= i < insert_pos(fs, r) implies fs[i].Rank <= r by {
            assert(fs[i] == d[i]);
        }
        assert forall|i: int| insert_pos(fs, r) <= i < fs.len() implies fs[i].Rank > r by {
            if i < d.len() {
                assert(fs[i] == d[i]);
            }
        }
    }
}

/// Registration keeps the catalog in rank order.
pub proof fn lemma_insert_sorted(fs: Seq<Family>, f: Family)
    requires
        rank_sorted(fs),
    ensures
        rank_sorted(insert_by_rank(fs, f)),
        insert_by_rank(fs, f).len() == fs.len() + 1,
{
    lemma_insert_pos(fs, f.Rank as int);
    let p = insert_pos(fs, f.Rank as int);
    let g = insert_by_rank(fs, f);
    assert forall|i: int, j: int| 0 <= i <= j < g.len() implies g[i].Rank <= g[j].Rank by {
        if i < p && j < p {
            assert(g[i] == fs[i] && g[j] == fs[j]);
        } else if i < p && j == p {
            assert(g[i] == fs[i]);
        } else if i < p && j > p {
            assert(g[i] == fs[i] && g[j] == fs[j - 1]);
        } else if i == p && j > p {
            assert(g[j] == fs[j - 1]);
        } else if i > p {
            assert(g[i] == fs[i - 1] && g[j] == fs[j - 1]);
        }
    }
}

/// Whatever the registration order, the catalog lists its families in
/// rank order, each registered family exactly once.
pub proof fn lemma_registered_sorted(fs: Seq<Family>)
    ensures
        rank_sorted(registered(fs)),
        registered(fs).len() == fs.len(),
        registered(fs).to_multiset() == fs.to_multiset(),
    decreases fs.len(),
{
    if fs.len() > 0 {
        let d = fs.drop_last();
        lemma_registered_sorted(d);
        lemma_insert_sorted(registered(d), fs.last());
        lemma_insert_pos(registered(d), fs.last().Rank as int);
        let p = insert_pos(registered(d), fs.last().Rank as int);
        vstd::seq_lib::to_multiset_insert(registered(d), p, fs.last());
        assert(registered(fs) == registered(d).insert(p, fs.last()));
        assert(fs =~= d.push(fs.last()));
        vstd::seq_lib::to_multiset_build(d, fs.last());
        assert(registered(fs).to_multiset() =~= fs.to_multiset());
    } else {
        assert(registered(fs) =~= fs);
    }
}

impl Catalog {
    /// The families in rank order.
    pub closed spec fn view(&self) -> Seq<Family> {
        self.families@
    }

    #[verifier::type_invariant]
    closed spec fn sorted(&self) -> bool {
        rank_sorted(self.families@)
    }

    /// An empty catalog.
    pub fn new() -> (c: Catalog)
        ensures
            c.view() == Seq::<Family>::empty(),
    {
        Catalog { families: Vec::new() }
    }

    /// Adds a family: it goes after every family of lower or equal rank,
    /// so families of equal rank keep their registration order.
    pub fn Register(&mut self, f: Family)
        ensures
            final(self).view() == insert_by_rank(old(self).view(), f),
    {
        proof {
            use_type_invariant(&*self);
            lemma_insert_sorted(self.families@, f);
        }
        let mut p: usize = self.families.len();
        assert(self.families@.take(self.families.len() as int) =~= self.families@);
        while p > 0 && self.families[p - 1].Rank > f.Rank
            invariant
                p <= self.families.len(),
                rank_sorted(self.families@),
                insert_pos(self.families@, f.Rank as int) == insert_pos(self.families@.take(p as int), f.Rank as int),
            decreases p,
        {
            proof {
                let t = self.families@.take(p as int);
                assert(t.drop_last() =~= self.families@.take(p - 1));
            }
            p -= 1;
        }
        proof {
            let t = self.families@.take(p as int);
            if p > 0 {
                assert(t.last() == self.families@[p - 1]);
            }
            assert(self.families@.take(self.families.len() as int) =~= self.families@);
        }
        let ghost before = self.families@;
        let mut fams = Vec::new();
        std::mem::swap(&mut fams, &mut self.families);
        fams.insert(p, f);
        assert(fams@ == insert_by_rank(before, f));
        self.families = fams;
    }

    /// The catalog in rank order.
    pub fn Families(&self) -> (r: &Vec<Family>)
        ensures
            r@ == self.view(),
            rank_sorted(r@),
    {
        proof {
            use_type_invariant(self);
        }
        &self.families
    }

    /// Looks a model up by name across all families, in rank order: the
    /// first family holding a model of that name, and that model.
    pub fn Find(&self, name: &str) -> (r: Option<(&Family, &Model)>)
        ensures
            family_index(self.view(), name@) < 0 ==> r is None,
            family_index(self.view(), name@) >= 0 ==> {
                let i = family_index(self.view(), name@);
                let f = self.view()[i];
                r == Some((&f, &f.Models@[model_index(f.Models@, name@)]))
            },
    {
        let fams = &self.families;
        let mut i: usize = 0;
        while i < fams.len()
            invariant
                fams@ == self.view(),
                i <= fams.len(),
                forall|j: int| 0 <= j < i ==> model_index(fams@[j].Models@, name@) < 0,
            decreases fams.len() - i,
        {
            let mut k: usize = 0;
            while k < fams[i].Models.len()
                invariant
                    i < fams.len(),
                    fams@ == self.view(),
                    k <= fams@[i as int].Models.len(),
                    forall|j: int| 0 <= j < i ==> model_index(fams@[j].Models@, name@) < 0,
                    forall|j: int| 0 <= j < k ==> fams@[i as int].Models@[j].Name@ != name@,
                decreases fams@[i as int].Models.len() - k,
            {
                if str_eq(fams[i].Models[k].Name.as_str(), name) {
                    proof {
                        lemma_model_index(fams@[i as int].Models@, name@, k as int);
                        lemma_family_index(fams@, name@, i as int);
                    }
                    return Some((&fams[i], &fams[i].Models[k]));
                }
                k += 1;
            }
            proof {
                lemma_model_index(fams@[i as int].Models@, name@, -1);
            }
            i += 1;
        }
        proof {
            lemma_family_index(fams@, name@, -1);
        }
        None
    }
}

/// A model registered in a family is found by its name, unless a family
/// of lower rank, or registered earlier at the same rank, already holds
/// a model of that name.
pub proof fn lemma_register_then_find(fs: Seq<Family>, f: Family, name: Seq<char>)
    requires
        rank_sorted(fs),
        model_index(f.Models@, name) >= 0,
        family_index(fs, name) < 0,
    ensures
        family_index(insert_by_rank(fs, f), name) == insert_pos(fs, f.Rank as int),
        insert_by_rank(fs, f)[insert_pos(fs, f.Rank as int)] == f,
{
    lemma_insert_pos(fs, f.Rank as int);
    lemma_family_index_bounds(fs, name);
    let p = insert_pos(fs, f.Rank as int);
    let g = insert_by_rank(fs, f);
    assert forall|j: int| 0 <= j < g.len() && j < p implies model_index(g[j].Models@, name) < 0 by {
        assert(g[j] == fs[j]);
    }
    lemma_family_index(g, name, p);
}

} // verus!
