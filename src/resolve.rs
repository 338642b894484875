use vstd::prelude::*;
use crate::error::WorkspaceError;
use crate::graph::{Dependency, library_index, node_index, package_index, DependencyKind, Metadata, NodeDep, Package, Target};
use crate::names::{hyphens_to_underscores, underscored};
use crate::search::{first_index, lemma_first_index_facts, lemma_first_index_is, lemma_first_index_none};

verus! {

pub open spec fn renamed_as(d: Dependency, name: Seq<char>) -> bool {
    match d.rename {
        Some(r) => r@ == name,
        None => false,
    }
}

/// Whether `p` declares some dependency under the explicit rename `name`.
pub open spec fn renames_to(p: Package, name: Seq<char>) -> bool {
    exists|k: int|
        0 <= k < p.dependencies@.len() && renamed_as(#[trigger] p.dependencies@[k], name)
}

pub open spec fn edge_named(name: Seq<char>) -> spec_fn(NodeDep) -> bool {
    |d: NodeDep| d.name@ == name
}

/// Only edges that are of no kind, or of the normal kind alone, are inlined.
pub open spec fn eligible_kinds(ks: Seq<DependencyKind>) -> bool {
    ks.len() == 0 || (ks.len() == 1 && ks[0] == DependencyKind::Normal)
}

pub open spec fn eligible_edge_to(to: Seq<char>) -> spec_fn(NodeDep) -> bool {
    |d: NodeDep| d.pkg@ == to && eligible_kinds(d.dep_kinds@)
}

/// The identifier under which the library of package position `q` is known, if it has
/// a library.
pub open spec fn library_ident(m: Metadata, q: int) -> Option<Seq<char>> {
    match library_index(m.packages@[q]) {
        Some(t) => Some(underscored(m.packages@[q].targets@[t].name@)),
        None => None,
    }
}

/// Where the implicit scan stops at a dependency id: it is missing from the snapshot,
/// or its library goes by `name`.
pub open spec fn stops_scan(m: Metadata, name: Seq<char>) -> spec_fn(String) -> bool {
    |id: String|
        match package_index(m, id@) {
            None => true,
            Some(q) => library_ident(m, q) == Some(name),
        }
}

/// What resolving an extern crate name comes to.
pub enum ExternResolution {
    /// The library target, as (package position, target position).
    Found(int, int),
    /// A package id that the snapshot lacks.
    PackageMissing,
    /// An explicit rename without a resolved edge of that name.
    RenameNotResolved,
    /// The package at this position has no library target.
    NoLibrary(int),
    /// No dependency's library goes by the name.
    NoSuchExternCrate,
}

/// How `name` resolves from the package with id `from`: an explicit rename takes
/// precedence; otherwise the first dependency whose library, hyphens rewritten, goes
/// by `name`.
pub open spec fn resolve_extern(m: Metadata, from: Seq<char>, name: Seq<char>) -> ExternResolution {
    match (package_index(m, from), node_index(m, from)) {
        (Some(pi), Some(ni)) => {
            let node = m.resolve->0@[ni];
            if renames_to(m.packages@[pi], name) {
                match first_index(node.deps@, edge_named(name)) {
                    None => ExternResolution::RenameNotResolved,
                    Some(di) => match package_index(m, node.deps@[di].pkg@) {
                        None => ExternResolution::PackageMissing,
                        Some(q) => match library_index(m.packages@[q]) {
                            None => ExternResolution::NoLibrary(q),
                            Some(t) => ExternResolution::Found(q, t),
                        },
                    },
                }
            } else {
                match first_index(node.dependencies@, stops_scan(m, name)) {
                    None => ExternResolution::NoSuchExternCrate,
                    Some(k) => match package_index(m, node.dependencies@[k]@) {
                        None => ExternResolution::PackageMissing,
                        Some(q) => ExternResolution::Found(q, library_index(m.packages@[q])->0),
                    },
                }
            }
        },
        _ => ExternResolution::PackageMissing,
    }
}

/// Whether `r` is what the resolution `s` owes.
pub open spec fn delivers(m: Metadata, name: Seq<char>, r: Result<(&Target, &Package), WorkspaceError>, s: ExternResolution) -> bool {
    match s {
        ExternResolution::Found(q, t) => r matches Ok(x) && *x.1 == m.packages@[q]
            && *x.0 == m.packages@[q].targets@[t],
        ExternResolution::PackageMissing => r matches Err(WorkspaceError::PackageNotInGraph(_)),
        ExternResolution::RenameNotResolved => r matches Err(WorkspaceError::RenameNotResolved(n))
            && n@ == name,
        ExternResolution::NoLibrary(q) => r matches Err(WorkspaceError::NoLibraryTarget { extern_crate_name, package_name })
            && extern_crate_name@ == name && package_name@ == m.packages@[q].name@,
        ExternResolution::NoSuchExternCrate => r matches Err(WorkspaceError::NoSuchExternCrate(n))
            && n@ == name,
    }
}

/// The identifier that the package with id `from` uses for the package with id `to`:
/// the name of the first eligible edge between them if it is an explicit rename, else
/// the library name of `to` with hyphens rewritten.
pub open spec fn name_used_at_edge(m: Metadata, from: Seq<char>, to: Seq<char>) -> Option<Seq<char>> {
    match (package_index(m, from), package_index(m, to), node_index(m, from)) {
        (Some(fi), Some(ti), Some(ni)) => {
            let node = m.resolve->0@[ni];
            match first_index(node.deps@, eligible_edge_to(to)) {
                None => None,
                Some(di) => if renames_to(m.packages@[fi], node.deps@[di].name@) {
                    Some(node.deps@[di].name@)
                } else {
                    library_ident(m, ti)
                },
            }
        },
        _ => None,
    }
}

impl Package {
    /// Whether some dependency is declared under the explicit rename `name`.
    pub fn has_rename(&self, name: &String) -> (r: bool)
        ensures
            r == renames_to(*self, name@),
    {
        let mut k: usize = 0;
        while k < self.dependencies.len()
            invariant
                k <= self.dependencies@.len(),
                forall|j: int| 0 <= j < k ==> !renamed_as(#[trigger] self.dependencies@[j], name@),
            decreases self.dependencies@.len() - k,
        {
            match &self.dependencies[k].rename {
                Some(r) => {
                    if *r == *name {
                        return true;
                    }
                },
                None => {},
            }
            k = k + 1;
        }
        false
    }
}

fn edge_position(deps: &Vec<NodeDep>, name: &String) -> (r: Option<usize>)
    ensures
        r matches Some(i) ==> first_index(deps@, edge_named(name@)) == Some(i as int),
        r is None ==> first_index(deps@, edge_named(name@)) is None,
{
    let mut i: usize = 0;
    while i < deps.len()
        invariant
            i <= deps@.len(),
            forall|j: int| 0 <= j < i ==> !edge_named(name@)(deps@[j]),
        decreases deps@.len() - i,
    {
        if deps[i].name == *name {
            proof {
                lemma_first_index_is(deps@, edge_named(name@), i as int);
            }
            return Some(i);
        }
        i = i + 1;
    }
    proof {
        lemma_first_index_none(deps@, edge_named(name@));
    }
    None
}

fn is_eligible(ks: &Vec<DependencyKind>) -> (r: bool)
    ensures
        r == eligible_kinds(ks@),
{
    ks.len() == 0 || (ks.len() == 1 && ks[0] == DependencyKind::Normal)
}

fn eligible_edge_position(deps: &Vec<NodeDep>, to: &String) -> (r: Option<usize>)
    ensures
        r matches Some(i) ==> first_index(deps@, eligible_edge_to(to@)) == Some(i as int),
        r is None ==> first_index(deps@, eligible_edge_to(to@)) is None,
{
    let mut i: usize = 0;
    while i < deps.len()
        invariant
            i <= deps@.len(),
            forall|j: int| 0 <= j < i ==> !eligible_edge_to(to@)(deps@[j]),
        decreases deps@.len() - i,
    {
        if deps[i].pkg == *to && is_eligible(&deps[i].dep_kinds) {
            proof {
                lemma_first_index_is(deps@, eligible_edge_to(to@), i as int);
            }
            return Some(i);
        }
        i = i + 1;
    }
    proof {
        lemma_first_index_none(deps@, eligible_edge_to(to@));
    }
    None
}

impl Metadata {
    /// The identifier of the library of the package at position `q`, if it has one.
    fn library_ident_of(&self, q: usize) -> (r: Option<String>)
        requires
            q < self.packages@.len(),
        ensures
            r matches Some(s) ==> library_ident(*self, q as int) == Some(s@),
            r is None ==> library_ident(*self, q as int) is None,
    {
        match self.packages[q].library_position() {
            Some(t) => {
                proof {
                    lemma_first_index_facts(self.packages@[q as int].targets@, crate::graph::library_pred());
                }
                Some(hyphens_to_underscores(self.packages[q].targets[t].name.as_str()))
            },
            None => None,
        }
    }

    /// The position of the first id of `ids` that is missing from the snapshot or whose
    /// package's library goes by `name`.
    fn scan_position(&self, ids: &Vec<String>, name: &String) -> (r: Option<usize>)
        ensures
            r matches Some(k) ==> first_index(ids@, stops_scan(*self, name@)) == Some(k as int),
            r is None ==> first_index(ids@, stops_scan(*self, name@)) is None,
    {
        let ghost stop = stops_scan(*self, name@);
        let mut k: usize = 0;
        while k < ids.len()
            invariant
                k <= ids@.len(),
                stop == stops_scan(*self, name@),
                forall|j: int| 0 <= j < k ==> !stop(ids@[j]),
            decreases ids@.len() - k,
        {
            let hit = match self.package_position(&ids[k]) {
                None => true,
                Some(q) => {
                    proof {
                        lemma_first_index_facts(self.packages@, crate::graph::has_id(ids@[k as int]@));
                    }
                    match self.library_ident_of(q) {
                        Some(ident) => ident == *name,
                        None => false,
                    }
                },
            };
            if hit {
                proof {
                    lemma_first_index_is(ids@, stop, k as int);
                }
                return Some(k);
            }
            k = k + 1;
        }
        proof {
            lemma_first_index_none(ids@, stop);
        }
        None
    }

    /// The library target and package that `extern_crate_name` denotes in the source of
    /// the package with id `package_id`.
    pub fn dep_lib_by_extern_crate_name(&self, package_id: &String, extern_crate_name: &String) -> (r: Result<(&Target, &Package), WorkspaceError>)
        ensures
            delivers(*self, extern_crate_name@, r, resolve_extern(*self, package_id@, extern_crate_name@)),
    {
        let pi = match self.package_position(package_id) {
            Some(pi) => pi,
            None => return Err(WorkspaceError::PackageNotInGraph(package_id.clone())),
        };
        let ni = match self.node_position(package_id) {
            Some(ni) => ni,
            None => return Err(WorkspaceError::PackageNotInGraph(package_id.clone())),
        };
        proof {
            lemma_first_index_facts(self.packages@, crate::graph::has_id(package_id@));
            lemma_first_index_facts(self.resolve->0@, crate::graph::node_has_id(package_id@));
        }
        let nodes = match &self.resolve {
            Some(nodes) => nodes,
            None => return Err(WorkspaceError::PackageNotInGraph(package_id.clone())),
        };
        let node = &nodes[ni];
        if self.packages[pi].has_rename(extern_crate_name) {
            let di = match edge_position(&node.deps, extern_crate_name) {
                Some(di) => di,
                None => return Err(WorkspaceError::RenameNotResolved(extern_crate_name.clone())),
            };
            proof {
                lemma_first_index_facts(node.deps@, edge_named(extern_crate_name@));
            }
            let q = match self.package_position(&node.deps[di].pkg) {
                Some(q) => q,
                None => return Err(WorkspaceError::PackageNotInGraph(node.deps[di].pkg.clone())),
            };
            proof {
                lemma_first_index_facts(self.packages@, crate::graph::has_id(node.deps@[di as int].pkg@));
            }
            match self.packages[q].library_position() {
                Some(t) => {
                    proof {
                        lemma_first_index_facts(self.packages@[q as int].targets@, crate::graph::library_pred());
                    }
                    Ok((&self.packages[q].targets[t], &self.packages[q]))
                },
                None => Err(WorkspaceError::NoLibraryTarget {
                    extern_crate_name: extern_crate_name.clone(),
                    package_name: self.packages[q].name.clone(),
                }),
            }
        } else {
            let k = match self.scan_position(&node.dependencies, extern_crate_name) {
                Some(k) => k,
                None => return Err(WorkspaceError::NoSuchExternCrate(extern_crate_name.clone())),
            };
            proof {
                lemma_first_index_facts(node.dependencies@, stops_scan(*self, extern_crate_name@));
            }
            let id = &node.dependencies[k];
            let q = match self.package_position(id) {
                Some(q) => q,
                None => return Err(WorkspaceError::PackageNotInGraph(id.clone())),
            };
            proof {
                lemma_first_index_facts(self.packages@, crate::graph::has_id(id@));
            }
            match self.packages[q].library_position() {
                Some(t) => {
                    proof {
                        lemma_first_index_facts(self.packages@[q as int].targets@, crate::graph::library_pred());
                    }
                    Ok((&self.packages[q].targets[t], &self.packages[q]))
                },
                None => Err(WorkspaceError::NoSuchExternCrate(extern_crate_name.clone())),
            }
        }
    }

    /// The identifier that the source of the package with id `from` uses for its
    /// dependency on the package with id `to`; none without an eligible edge. An id
    /// that the snapshot lacks is reported as not found.
    pub fn extern_crate_name(&self, from: &String, to: &String) -> (r: Result<Option<String>, WorkspaceError>)
        ensures
            package_index(*self, from@) is None ==> (r matches Err(WorkspaceError::PackageNotInGraph(i))
                && i@ == from@),
            package_index(*self, from@) is Some && package_index(*self, to@) is None ==> (r matches Err(
                WorkspaceError::PackageNotInGraph(i),
            ) && i@ == to@),
            package_index(*self, from@) is Some && package_index(*self, to@) is Some ==> (r matches Ok(o)
                && (o matches Some(s) ==> name_used_at_edge(*self, from@, to@) == Some(s@))
                && (o is None ==> name_used_at_edge(*self, from@, to@) is None)),
    {
        let fi = match self.package_position(from) {
            Some(fi) => fi,
            None => return Err(WorkspaceError::PackageNotInGraph(from.clone())),
        };
        let ti = match self.package_position(to) {
            Some(ti) => ti,
            None => return Err(WorkspaceError::PackageNotInGraph(to.clone())),
        };
        proof {
            lemma_first_index_facts(self.packages@, crate::graph::has_id(from@));
            lemma_first_index_facts(self.packages@, crate::graph::has_id(to@));
        }
        let ni = match self.node_position(from) {
            Some(ni) => ni,
            None => return Ok(None),
        };
        proof {
            lemma_first_index_facts(self.resolve->0@, crate::graph::node_has_id(from@));
        }
        let nodes = match &self.resolve {
            Some(nodes) => nodes,
            None => return Ok(None),
        };
        let node = &nodes[ni];
        let di = match eligible_edge_position(&node.deps, to) {
            Some(di) => di,
            None => return Ok(None),
        };
        proof {
            lemma_first_index_facts(node.deps@, eligible_edge_to(to@));
        }
        let name = &node.deps[di].name;
        if self.packages[fi].has_rename(name) {
            Ok(Some(name.clone()))
        } else {
            Ok(self.library_ident_of(ti))
        }
    }
}
} // verus!
