use vstd::prelude::*;
use crate::error::WorkspaceError;
use crate::graph::{
    bin_slots, bin_targets, lemma_bin_slots_in_bounds, slot_target, slot_valid, Metadata, Package,
    Target,
};
use crate::select::{select_unique, Selection};

verus! {

pub open spec fn name_is(name: Seq<char>) -> spec_fn(Target) -> bool {
    |t: Target| t.name@ == name
}

pub open spec fn src_path_is(path: Seq<char>) -> spec_fn(Target) -> bool {
    |t: Target| t.src_path@ == path
}

/// The slots of `s` whose target satisfies `pred`, in order.
pub open spec fn slots_where(m: Metadata, s: Seq<(int, int)>, pred: spec_fn(Target) -> bool) -> Seq<(int, int)>
    decreases s.len(),
{
    if s.len() == 0 {
        Seq::empty()
    } else {
        let rest = slots_where(m, s.drop_last(), pred);
        if pred(slot_target(m, s.last())) {
            rest.push(s.last())
        } else {
            rest
        }
    }
}

/// The outcome owed for a set of candidate slots: the target and package of the only
/// one, or none.
pub open spec fn picks(m: Metadata, s: Seq<(int, int)>, r: (&Target, &Package)) -> bool {
    s.len() == 1 && *r.0 == slot_target(m, s[0]) && *r.1 == m.packages@[s[0].0]
}

proof fn lemma_slots_where_valid(m: Metadata, s: Seq<(int, int)>, pred: spec_fn(Target) -> bool)
    requires
        forall|k: int| 0 <= k < s.len() ==> slot_valid(m, #[trigger] s[k]),
    ensures
        forall|k: int| 0 <= k < slots_where(m, s, pred).len() ==> slot_valid(m, #[trigger] slots_where(m, s, pred)[k]),
    decreases s.len(),
{
    if s.len() > 0 {
        let d = s.drop_last();
        assert forall|k: int| 0 <= k < d.len() implies slot_valid(m, #[trigger] d[k]) by {
            assert(d[k] == s[k]);
        }
        lemma_slots_where_valid(m, d, pred);
        let rest = slots_where(m, d, pred);
        assert forall|k: int| 0 <= k < slots_where(m, s, pred).len() implies slot_valid(
            m,
            #[trigger] slots_where(m, s, pred)[k],
        ) by {
            if k < rest.len() {
                assert(slots_where(m, s, pred)[k] == rest[k]);
            } else {
                assert(slot_valid(m, s[s.len() - 1]));
            }
        }
    }
}

/// The slots among `slots` whose target has the given name (`by_name`) or main source
/// path (otherwise).
fn keep_slots(metadata: &Metadata, slots: &Vec<(usize, usize)>, key: &String, by_name: bool) -> (r: Vec<(usize, usize)>)
    requires
        forall|k: int| 0 <= k < slots@.len() ==> slot_valid(*metadata, (#[trigger] slots@[k].0 as int, slots@[k].1 as int)),
    ensures
        r@.len() == slots_where(*metadata, slots@.map_values(|s: (usize, usize)| (s.0 as int, s.1 as int)),
            if by_name { name_is(key@) } else { src_path_is(key@) }).len(),
        forall|k: int| 0 <= k < r@.len() ==> ((#[trigger] r@[k]).0 as int, r@[k].1 as int) == slots_where(*metadata,
            slots@.map_values(|s: (usize, usize)| (s.0 as int, s.1 as int)),
            if by_name { name_is(key@) } else { src_path_is(key@) })[k],
{
    let ghost pred = if by_name { name_is(key@) } else { src_path_is(key@) };
    let ghost all = slots@.map_values(|s: (usize, usize)| (s.0 as int, s.1 as int));
    let mut r: Vec<(usize, usize)> = Vec::new();
    let mut k: usize = 0;
    while k < slots.len()
        invariant
            k <= slots@.len(),
            all == slots@.map_values(|s: (usize, usize)| (s.0 as int, s.1 as int)),
            pred == (if by_name { name_is(key@) } else { src_path_is(key@) }),
            forall|q: int| 0 <= q < slots@.len() ==> slot_valid(*metadata, (#[trigger] slots@[q].0 as int, slots@[q].1 as int)),
            r@.len() == slots_where(*metadata, all.subrange(0, k as int), pred).len(),
            forall|q: int| 0 <= q < r@.len() ==> ((#[trigger] r@[q]).0 as int, r@[q].1 as int) == slots_where(*metadata,
                all.subrange(0, k as int), pred)[q],
        decreases slots@.len() - k,
    {
        let (p, t) = slots[k];
        assert(slot_valid(*metadata, (slots@[k as int].0 as int, slots@[k as int].1 as int)));
        let target = &metadata.packages[p].targets[t];
        let hit = if by_name { target.name == *key } else { target.src_path == *key };
        assert(all.subrange(0, k + 1).drop_last() == all.subrange(0, k as int));
        assert(all.subrange(0, k + 1).last() == (p as int, t as int));
        assert(hit == pred(slot_target(*metadata, (p as int, t as int))));
        if hit {
            r.push((p, t));
        }
        k = k + 1;
    }
    assert(all.subrange(0, slots@.len() as int) == all);
    r
}

/// The bin targets of the workspace as slots, all valid.
fn all_bin_slots(metadata: &Metadata) -> (r: Vec<(usize, usize)>)
    ensures
        r@.map_values(|s: (usize, usize)| (s.0 as int, s.1 as int)) == bin_slots(*metadata),
        forall|k: int| 0 <= k < r@.len() ==> slot_valid(*metadata, (#[trigger] r@[k].0 as int, r@[k].1 as int)),
{
    let r = bin_targets(metadata);
    proof {
        lemma_bin_slots_in_bounds(*metadata);
        assert(r@.map_values(|s: (usize, usize)| (s.0 as int, s.1 as int)) =~= bin_slots(*metadata));
        assert forall|k: int| 0 <= k < r@.len() implies slot_valid(*metadata, (#[trigger] r@[k].0 as int, r@[k].1 as int)) by {
            assert(slot_valid(*metadata, bin_slots(*metadata)[k]));
        }
    }
    r
}

impl Metadata {
    /// The one bin target of the workspace: fails when there is none, and when there
    /// are several, with their names.
    pub fn exactly_one_bin_target(&self) -> (r: Result<(&Target, &Package), WorkspaceError>)
        ensures
            bin_slots(*self).len() == 1 <==> r is Ok,
            r matches Ok(x) ==> picks(*self, bin_slots(*self), x),
            bin_slots(*self).len() == 0 ==> r matches Err(WorkspaceError::NoBinTarget),
            bin_slots(*self).len() > 1 ==> (r matches Err(WorkspaceError::AmbiguousBinTargets(names))
                && names@.len() == bin_slots(*self).len()
                && forall|k: int| 0 <= k < names@.len() ==> #[trigger] names@[k]@
                    == slot_target(*self, bin_slots(*self)[k]).name@),
    {
        let slots = all_bin_slots(self);
        let ghost all = slots@;
        match select_unique(slots) {
            Selection::Absent => Err(WorkspaceError::NoBinTarget),
            Selection::Unique((p, t)) => {
                assert(slot_valid(*self, (all[0].0 as int, all[0].1 as int)));
                Ok((&self.packages[p].targets[t], &self.packages[p]))
            },
            Selection::Ambiguous(many) => {
                let mut names: Vec<String> = Vec::new();
                let mut k: usize = 0;
                while k < many.len()
                    invariant
                        many@ == all,
                        all.map_values(|s: (usize, usize)| (s.0 as int, s.1 as int)) == bin_slots(*self),
                        forall|q: int| 0 <= q < all.len() ==> slot_valid(*self, (#[trigger] all[q].0 as int, all[q].1 as int)),
                        k <= many@.len(),
                        names@.len() == k,
                        forall|q: int| 0 <= q < k ==> #[trigger] names@[q]@ == slot_target(*self, bin_slots(*self)[q]).name@,
                    decreases many@.len() - k,
                {
                    let (p, t) = many[k];
                    assert(slot_valid(*self, (all[k as int].0 as int, all[k as int].1 as int)));
                    assert(bin_slots(*self)[k as int] == (p as int, t as int));
                    names.push(self.packages[p].targets[t].name.clone());
                    k = k + 1;
                }
                Err(WorkspaceError::AmbiguousBinTargets(names))
            },
        }
    }

    /// The one bin target named `name`.
    pub fn bin_target_by_name(&self, name: &String) -> (r: Result<(&Target, &Package), WorkspaceError>)
        ensures
            slots_where(*self, bin_slots(*self), name_is(name@)).len() == 1 <==> r is Ok,
            r matches Ok(x) ==> picks(*self, slots_where(*self, bin_slots(*self), name_is(name@)), x),
            slots_where(*self, bin_slots(*self), name_is(name@)).len() == 0 ==> (r matches Err(
                WorkspaceError::NoBinTargetNamed(n),
            ) && n@ == name@),
            slots_where(*self, bin_slots(*self), name_is(name@)).len() > 1 ==> (r matches Err(
                WorkspaceError::MultipleBinTargetsNamed(n),
            ) && n@ == name@),
    {
        let slots = all_bin_slots(self);
        let found = keep_slots(self, &slots, name, true);
        let ghost sel = slots_where(*self, bin_slots(*self), name_is(name@));
        proof {
            lemma_slots_where_valid(*self, bin_slots(*self), name_is(name@));
        }
        match select_unique(found) {
            Selection::Absent => Err(WorkspaceError::NoBinTargetNamed(name.clone())),
            Selection::Unique((p, t)) => {
                assert(slot_valid(*self, sel[0]));
                Ok((&self.packages[p].targets[t], &self.packages[p]))
            },
            Selection::Ambiguous(_) => Err(WorkspaceError::MultipleBinTargetsNamed(name.clone())),
        }
    }

    /// The one bin target whose main source file is `src_path`.
    pub fn bin_target_by_src_path(&self, src_path: &String) -> (r: Result<(&Target, &Package), WorkspaceError>)
        ensures
            slots_where(*self, bin_slots(*self), src_path_is(src_path@)).len() == 1 <==> r is Ok,
            r matches Ok(x) ==> picks(*self, slots_where(*self, bin_slots(*self), src_path_is(src_path@)), x),
            slots_where(*self, bin_slots(*self), src_path_is(src_path@)).len() == 0 ==> (r matches Err(
                WorkspaceError::NoBinTargetAtPath(n),
            ) && n@ == src_path@),
            slots_where(*self, bin_slots(*self), src_path_is(src_path@)).len() > 1 ==> (r matches Err(
                WorkspaceError::MultipleBinTargetsAtPath(n),
            ) && n@ == src_path@),
    {
        let slots = all_bin_slots(self);
        let found = keep_slots(self, &slots, src_path, false);
        let ghost sel = slots_where(*self, bin_slots(*self), src_path_is(src_path@));
        proof {
            lemma_slots_where_valid(*self, bin_slots(*self), src_path_is(src_path@));
        }
        match select_unique(found) {
            Selection::Absent => Err(WorkspaceError::NoBinTargetAtPath(src_path.clone())),
            Selection::Unique((p, t)) => {
                assert(slot_valid(*self, sel[0]));
                Ok((&self.packages[p].targets[t], &self.packages[p]))
            },
            Selection::Ambiguous(_) => Err(WorkspaceError::MultipleBinTargetsAtPath(src_path.clone())),
        }
    }
}

} // verus!
