use vstd::prelude::*;
use crate::search::{first_index, lemma_first_index_is, lemma_first_index_none};

verus! {

/// What a target builds.
#[derive(Clone, Copy, Debug, PartialEq, Eq, Structural)]
pub enum TargetKind {
    Library,
    Binary,
    Other,
}

/// The kind of a dependency edge.
#[derive(Clone, Copy, Debug, PartialEq, Eq, Structural)]
pub enum DependencyKind {
    Normal,
    Development,
    Build,
    Unknown,
}

/// A compiled-artifact root of a package.
#[derive(Clone, Debug)]
pub struct Target {
    pub kind: TargetKind,
    pub name: String,
    pub src_path: String,
}

/// A dependency as the manifest declares it.
#[derive(Clone, Debug)]
pub struct Dependency {
    pub name: String,
    pub rename: Option<String>,
}

/// What the extra metadata of a package holds, decoded from its serialized form.
#[derive(Clone, Debug)]
pub enum RawPackageMetadata {
    /// The metadata is null or absent.
    Null,
    /// The metadata does not have the expected shape.
    Malformed,
    /// Well formed, without the bundler's own section.
    Missing,
    /// The module dependencies as written: each key with its set of values.
    ModuleDependencies(Vec<(String, Vec<String>)>),
}

/// A package of the snapshot.
#[derive(Clone, Debug)]
pub struct Package {
    pub id: String,
    pub name: String,
    pub manifest_path: String,
    pub edition: String,
    pub targets: Vec<Target>,
    pub dependencies: Vec<Dependency>,
    pub metadata: RawPackageMetadata,
}

/// One resolved edge: the name it was resolved under, the package it leads to, and
/// its kinds.
#[derive(Clone, Debug)]
pub struct NodeDep {
    pub name: String,
    pub pkg: String,
    pub dep_kinds: Vec<DependencyKind>,
}

/// The resolved edges of one package.
#[derive(Clone, Debug)]
pub struct Node {
    pub id: String,
    pub deps: Vec<NodeDep>,
    pub dependencies: Vec<String>,
}

/// A snapshot of the package graph of a workspace.
#[derive(Clone, Debug)]
pub struct Metadata {
    pub packages: Vec<Package>,
    pub workspace_members: Vec<String>,
    pub resolve: Option<Vec<Node>>,
    pub workspace_root: String,
    pub target_directory: String,
}

pub open spec fn has_id(id: Seq<char>) -> spec_fn(Package) -> bool {
    |p: Package| p.id@ == id
}

pub open spec fn node_has_id(id: Seq<char>) -> spec_fn(Node) -> bool {
    |n: Node| n.id@ == id
}

pub open spec fn is_library(t: Target) -> bool {
    t.kind == TargetKind::Library
}

pub open spec fn library_pred() -> spec_fn(Target) -> bool {
    |t: Target| is_library(t)
}

/// The position of the package with id `id`.
pub open spec fn package_index(m: Metadata, id: Seq<char>) -> Option<int> {
    first_index(m.packages@, has_id(id))
}

/// The position of the dependency node of the package with id `id`.
pub open spec fn node_index(m: Metadata, id: Seq<char>) -> Option<int> {
    match m.resolve {
        Some(nodes) => first_index(nodes@, node_has_id(id)),
        None => None,
    }
}

/// The position of the library target of `p`.
pub open spec fn library_index(p: Package) -> Option<int> {
    first_index(p.targets@, library_pred())
}

pub open spec fn is_member(m: Metadata, id: Seq<char>) -> bool {
    exists|k: int| 0 <= k < m.workspace_members@.len() && #[trigger] m.workspace_members@[k]@ == id
}

/// The bin targets of package `p` among its first `j` targets, as (package, target)
/// positions.
pub open spec fn package_bin_slots(m: Metadata, p: int, j: int) -> Seq<(int, int)>
    decreases j,
{
    if j <= 0 {
        Seq::empty()
    } else {
        let rest = package_bin_slots(m, p, j - 1);
        if is_member(m, m.packages@[p].id@) && m.packages@[p].targets@[j - 1].kind
            == TargetKind::Binary {
            rest.push((p, j - 1))
        } else {
            rest
        }
    }
}

/// The bin targets of workspace members among the first `i` packages.
pub open spec fn bin_slots_upto(m: Metadata, i: int) -> Seq<(int, int)>
    decreases i,
{
    if i <= 0 {
        Seq::empty()
    } else {
        bin_slots_upto(m, i - 1) + package_bin_slots(m, i - 1, m.packages@[i - 1].targets@.len() as int)
    }
}

/// Every bin target of a workspace member, in package order then target order.
pub open spec fn bin_slots(m: Metadata) -> Seq<(int, int)> {
    bin_slots_upto(m, m.packages@.len() as int)
}

pub open spec fn slot_target(m: Metadata, s: (int, int)) -> Target {
    m.packages@[s.0].targets@[s.1]
}

pub open spec fn slot_valid(m: Metadata, s: (int, int)) -> bool {
    0 <= s.0 < m.packages@.len() && 0 <= s.1 < m.packages@[s.0].targets@.len()
}

proof fn lemma_package_bin_slots_valid(m: Metadata, p: int, j: int)
    requires
        0 <= p < m.packages@.len(),
        0 <= j <= m.packages@[p].targets@.len(),
    ensures
        forall|k: int| 0 <= k < package_bin_slots(m, p, j).len() ==> slot_valid(m, #[trigger] package_bin_slots(m, p, j)[k]),
    decreases j,
{
    if j > 0 {
        lemma_package_bin_slots_valid(m, p, j - 1);
        let rest = package_bin_slots(m, p, j - 1);
        assert forall|k: int| 0 <= k < package_bin_slots(m, p, j).len() implies slot_valid(
            m,
            #[trigger] package_bin_slots(m, p, j)[k],
        ) by {
            if k < rest.len() {
                assert(package_bin_slots(m, p, j)[k] == rest[k]);
            }
        }
    }
}

proof fn lemma_bin_slots_valid(m: Metadata, i: int)
    requires
        0 <= i <= m.packages@.len(),
    ensures
        forall|k: int| 0 <= k < bin_slots_upto(m, i).len() ==> slot_valid(m, #[trigger] bin_slots_upto(m, i)[k]),
    decreases i,
{
    if i > 0 {
        lemma_bin_slots_valid(m, i - 1);
        lemma_package_bin_slots_valid(m, i - 1, m.packages@[i - 1].targets@.len() as int);
        let a = bin_slots_upto(m, i - 1);
        let b = package_bin_slots(m, i - 1, m.packages@[i - 1].targets@.len() as int);
        assert forall|k: int| 0 <= k < (a + b).len() implies slot_valid(m, #[trigger] (a + b)[k]) by {
            if k < a.len() {
                assert((a + b)[k] == a[k]);
            } else {
                assert((a + b)[k] == b[k - a.len()]);
            }
        }
    }
}

/// Every bin slot names an existing package and target.
pub proof fn lemma_bin_slots_in_bounds(m: Metadata)
    ensures
        forall|k: int| 0 <= k < bin_slots(m).len() ==> slot_valid(m, #[trigger] bin_slots(m)[k]),
{
    lemma_bin_slots_valid(m, m.packages@.len() as int);
}

impl Metadata {
    /// The position of the package with id `id`, the first one if several.
    pub fn package_position(&self, id: &String) -> (r: Option<usize>)
        ensures
            r matches Some(i) ==> package_index(*self, id@) == Some(i as int),
            r is None ==> package_index(*self, id@) is None,
    {
        let mut i: usize = 0;
        while i < self.packages.len()
            invariant
                i <= self.packages@.len(),
                forall|j: int| 0 <= j < i ==> !has_id(id@)(self.packages@[j]),
            decreases self.packages@.len() - i,
        {
            if self.packages[i].id == *id {
                proof {
                    lemma_first_index_is(self.packages@, has_id(id@), i as int);
                }
                return Some(i);
            }
            i = i + 1;
        }
        proof {
            lemma_first_index_none(self.packages@, has_id(id@));
        }
        None
    }

    /// The position of the dependency node of the package with id `id`.
    pub fn node_position(&self, id: &String) -> (r: Option<usize>)
        ensures
            r matches Some(i) ==> node_index(*self, id@) == Some(i as int),
            r is None ==> node_index(*self, id@) is None,
    {
        match &self.resolve {
            None => None,
            Some(nodes) => {
                let mut i: usize = 0;
                while i < nodes.len()
                    invariant
                        self.resolve == Some(*nodes),
                        i <= nodes@.len(),
                        forall|j: int| 0 <= j < i ==> !node_has_id(id@)(nodes@[j]),
                    decreases nodes@.len() - i,
                {
                    if nodes[i].id == *id {
                        proof {
                            lemma_first_index_is(nodes@, node_has_id(id@), i as int);
                        }
                        return Some(i);
                    }
                    i = i + 1;
                }
                proof {
                    lemma_first_index_none(nodes@, node_has_id(id@));
                }
                None
            },
        }
    }

    /// Whether `id` is a workspace member.
    pub fn is_workspace_member(&self, id: &String) -> (r: bool)
        ensures
            r == is_member(*self, id@),
    {
        let mut k: usize = 0;
        while k < self.workspace_members.len()
            invariant
                k <= self.workspace_members@.len(),
                forall|j: int| 0 <= j < k ==> self.workspace_members@[j]@ != id@,
            decreases self.workspace_members@.len() - k,
        {
            if self.workspace_members[k] == *id {
                return true;
            }
            k = k + 1;
        }
        false
    }
}

impl Package {
    /// The position of this package's library target.
    pub fn library_position(&self) -> (r: Option<usize>)
        ensures
            r matches Some(i) ==> library_index(*self) == Some(i as int),
            r is None ==> library_index(*self) is None,
    {
        let mut i: usize = 0;
        while i < self.targets.len()
            invariant
                i <= self.targets@.len(),
                forall|j: int| 0 <= j < i ==> !library_pred()(self.targets@[j]),
            decreases self.targets@.len() - i,
        {
            if self.targets[i].kind == TargetKind::Library {
                proof {
                    lemma_first_index_is(self.targets@, library_pred(), i as int);
                }
                return Some(i);
            }
            i = i + 1;
        }
        proof {
            lemma_first_index_none(self.targets@, library_pred());
        }
        None
    }
}

/// Every bin target of a workspace member, as (package position, target position),
/// in package order then target order.
pub fn bin_targets(metadata: &Metadata) -> (r: Vec<(usize, usize)>)
    ensures
        r@.len() == bin_slots(*metadata).len(),
        forall|k: int| 0 <= k < r@.len() ==> (#[trigger] r@[k]).0 as int == bin_slots(*metadata)[k].0
            && r@[k].1 as int == bin_slots(*metadata)[k].1,
{
    let mut r: Vec<(usize, usize)> = Vec::new();
    let mut i: usize = 0;
    while i < metadata.packages.len()
        invariant
            i <= metadata.packages@.len(),
            r@.len() == bin_slots_upto(*metadata, i as int).len(),
            forall|k: int| 0 <= k < r@.len() ==> (#[trigger] r@[k]).0 as int == bin_slots_upto(*metadata, i as int)[k].0
                && r@[k].1 as int == bin_slots_upto(*metadata, i as int)[k].1,
        decreases metadata.packages@.len() - i,
    {
        let p = &metadata.packages[i];
        let member = metadata.is_workspace_member(&p.id);
        let ghost before = r@;
        let mut j: usize = 0;
        while j < p.targets.len()
            invariant
                i < metadata.packages@.len(),
                *p == metadata.packages@[i as int],
                member == is_member(*metadata, p.id@),
                j <= p.targets@.len(),
                before.len() == bin_slots_upto(*metadata, i as int).len(),
                r@.len() == before.len() + package_bin_slots(*metadata, i as int, j as int).len(),
                forall|k: int| 0 <= k < before.len() ==> #[trigger] r@[k] == before[k],
                forall|k: int| 0 <= k < before.len() ==> (#[trigger] before[k]).0 as int == bin_slots_upto(*metadata, i as int)[k].0
                    && before[k].1 as int == bin_slots_upto(*metadata, i as int)[k].1,
                forall|k: int| 0 <= k < package_bin_slots(*metadata, i as int, j as int).len() ==> (#[trigger] r@[before.len() + k]).0 as int
                    == package_bin_slots(*metadata, i as int, j as int)[k].0 && r@[before.len() + k].1 as int
                    == package_bin_slots(*metadata, i as int, j as int)[k].1,
            decreases p.targets@.len() - j,
        {
            if member && p.targets[j].kind == TargetKind::Binary {
                r.push((i, j));
            }
            j = j + 1;
        }
        proof {
            let a = bin_slots_upto(*metadata, i as int);
            let b = package_bin_slots(*metadata, i as int, p.targets@.len() as int);
            assert(bin_slots_upto(*metadata, i + 1) == a + b);
            assert forall|k: int| 0 <= k < r@.len() implies (#[trigger] r@[k]).0 as int == (a + b)[k].0
                && r@[k].1 as int == (a + b)[k].1 by {
                if k < a.len() {
                    assert(before[k] == r@[k]);
                } else {
                    assert(r@[before.len() + (k - a.len())] == r@[k]);
                }
            }
        }
        i = i + 1;
    }
    r
}

} // verus!
