use vstd::prelude::*;
use crate::error::WorkspaceError;
use crate::graph::{Package, RawPackageMetadata};
use crate::pseudo_module::{is_path_text, path_text, PseudoModulePath};

verus! {

/// Whether `p` is the path that the text `t` spells.
pub open spec fn spells(t: Seq<char>, p: PseudoModulePath) -> bool {
    t == path_text(p.extern_crate_name@, p.module_name@)
}

/// Whether every key and value of the module dependencies is a pseudo-module path.
pub open spec fn all_path_texts(raw: Seq<(String, Vec<String>)>) -> bool {
    forall|k: int| 0 <= k < raw.len() ==> is_path_text((#[trigger] raw[k]).0@) && forall|v: int|
        0 <= v < raw[k].1@.len() ==> is_path_text(#[trigger] raw[k].1@[v]@)
}

pub open spec fn same_path(p: PseudoModulePath, q: PseudoModulePath) -> bool {
    p.extern_crate_name@ == q.extern_crate_name@ && p.module_name@ == q.module_name@
}

/// No path occurs twice in `ps`.
pub open spec fn distinct_paths(ps: Seq<PseudoModulePath>) -> bool {
    forall|i: int, j: int| 0 <= i < ps.len() && 0 <= j < ps.len() && i != j ==> !same_path(ps[i], ps[j])
}

/// Some path of `ps` is the one that `t` spells.
pub open spec fn spelled_in(t: Seq<char>, ps: Seq<PseudoModulePath>) -> bool {
    exists|j: int| 0 <= j < ps.len() && spells(t, ps[j])
}

/// Some text of `ts` spells `p`.
pub open spec fn spelled_by(ts: Seq<String>, p: PseudoModulePath) -> bool {
    exists|v: int| 0 <= v < ts.len() && spells(ts[v]@, p)
}

/// `ps` holds, once each, exactly the paths that the texts `ts` spell.
pub open spec fn spells_set(ts: Seq<String>, ps: Seq<PseudoModulePath>) -> bool {
    &&& distinct_paths(ps)
    &&& forall|v: int| 0 <= v < ts.len() ==> spelled_in(#[trigger] ts[v]@, ps)
    &&& forall|j: int| 0 <= j < ps.len() ==> spelled_by(ts, #[trigger] ps[j])
}

/// No key text occurs twice.
pub open spec fn distinct_keys(raw: Seq<(String, Vec<String>)>) -> bool {
    forall|i: int, j: int| 0 <= i < raw.len() && 0 <= j < raw.len() && i != j ==> raw[i].0@ != raw[j].0@
}

/// Whether the parsed entry `e` is the raw entry `r`: the key it spells, and the set of
/// values they spell.
pub open spec fn entry_parses(r: (String, Vec<String>), e: (PseudoModulePath, Vec<PseudoModulePath>)) -> bool {
    spells(r.0@, e.0) && spells_set(r.1@, e.1@)
}

/// The module dependencies that a package declares to supplement automatic detection:
/// each pseudo-module path with the paths it depends on.
#[derive(Clone, Debug)]
pub struct PackageMetadataCargoEquip {
    pub module_dependencies: Vec<(PseudoModulePath, Vec<PseudoModulePath>)>,
}

impl Default for PackageMetadataCargoEquip {
    /// No declared module dependencies: every module is included.
    fn default() -> (r: PackageMetadataCargoEquip)
        ensures
            r.module_dependencies@.len() == 0,
    {
        PackageMetadataCargoEquip { module_dependencies: Vec::new() }
    }
}

/// The configuration to use, and whether its absence must be reported as a warning.
#[derive(Clone, Debug)]
pub struct MetadataOutcome {
    pub config: PackageMetadataCargoEquip,
    pub warn_missing: bool,
}

fn contains_path(ps: &Vec<PseudoModulePath>, p: &PseudoModulePath) -> (r: bool)
    ensures
        r == exists|j: int| 0 <= j < ps@.len() && same_path(#[trigger] ps@[j], *p),
{
    let mut j: usize = 0;
    while j < ps.len()
        invariant
            j <= ps@.len(),
            forall|q: int| 0 <= q < j ==> !same_path(#[trigger] ps@[q], *p),
        decreases ps@.len() - j,
    {
        if ps[j].extern_crate_name == p.extern_crate_name && ps[j].module_name == p.module_name {
            return true;
        }
        j = j + 1;
    }
    false
}

proof fn lemma_spells_set_step(
    ts: Seq<String>,
    ps: Seq<PseudoModulePath>,
    t: String,
    p: PseudoModulePath,
    added: bool,
)
    requires
        spells_set(ts, ps),
        spells(t@, p),
        added == !exists|j: int| 0 <= j < ps.len() && same_path(#[trigger] ps[j], p),
    ensures
        spells_set(ts.push(t), if added { ps.push(p) } else { ps }),
{
    let ts2 = ts.push(t);
    let ps2 = if added { ps.push(p) } else { ps };
    assert forall|i: int, j: int| 0 <= i < ps2.len() && 0 <= j < ps2.len() && i != j implies !same_path(ps2[i], ps2[j]) by {
        if added {
            if i < ps.len() && j < ps.len() {
                assert(ps2[i] == ps[i] && ps2[j] == ps[j]);
            } else if i < ps.len() {
                assert(ps2[i] == ps[i]);
            } else {
                assert(ps2[j] == ps[j]);
            }
        }
    }
    assert forall|v: int| 0 <= v < ts2.len() implies spelled_in(#[trigger] ts2[v]@, ps2) by {
        if v < ts.len() {
            assert(ts2[v] == ts[v]);
            assert(spelled_in(ts[v]@, ps));
            let j = choose|j: int| 0 <= j < ps.len() && spells(ts[v]@, ps[j]);
            assert(ps2[j] == ps[j]);
            assert(spells(ts2[v]@, ps2[j]));
        } else if added {
            assert(spells(ts2[v]@, ps2[ps.len() as int]));
        } else {
            let j = choose|j: int| 0 <= j < ps.len() && same_path(#[trigger] ps[j], p);
            assert(spells(ts2[v]@, ps2[j]));
        }
    }
    assert forall|j: int| 0 <= j < ps2.len() implies spelled_by(ts2, #[trigger] ps2[j]) by {
        if j < ps.len() {
            assert(ps2[j] == ps[j]);
            assert(spelled_by(ts, ps[j]));
            let v = choose|v: int| 0 <= v < ts.len() && spells(ts[v]@, ps[j]);
            assert(ts2[v] == ts[v]);
            assert(spells(ts2[v]@, ps2[j]));
        } else {
            assert(spells(ts2[ts.len() as int]@, ps2[j]));
        }
    }
}

/// The paths that `raw` spells, each once, in order of first occurrence; none when
/// some text is not a path.
fn parse_values(raw: &Vec<String>) -> (r: Option<Vec<PseudoModulePath>>)
    ensures
        r is Some <==> forall|v: int| 0 <= v < raw@.len() ==> is_path_text(#[trigger] raw@[v]@),
        r matches Some(ps) ==> spells_set(raw@, ps@),
{
    let mut ps: Vec<PseudoModulePath> = Vec::new();
    let mut v: usize = 0;
    while v < raw.len()
        invariant
            v <= raw@.len(),
            forall|q: int| 0 <= q < v ==> is_path_text(#[trigger] raw@[q]@),
            spells_set(raw@.subrange(0, v as int), ps@),
        decreases raw@.len() - v,
    {
        let p = match PseudoModulePath::from_str(raw[v].as_str()) {
            Ok(p) => p,
            Err(_) => return None,
        };
        let ghost prev = ps@;
        let added = !contains_path(&ps, &p);
        if added {
            ps.push(p);
        }
        proof {
            lemma_spells_set_step(raw@.subrange(0, v as int), prev, raw@[v as int], p, added);
            assert(raw@.subrange(0, v + 1) == raw@.subrange(0, v as int).push(raw@[v as int]));
            assert(ps@ == if added { prev.push(p) } else { prev });
        }
        v = v + 1;
    }
    assert(raw@.subrange(0, raw@.len() as int) == raw@);
    Some(ps)
}

/// Whether the key of entry `k` repeats that of an earlier entry.
fn key_repeated(raw: &Vec<(String, Vec<String>)>, k: usize) -> (r: bool)
    requires
        k < raw@.len(),
    ensures
        r == exists|j: int| 0 <= j < k && (#[trigger] raw@[j]).0@ == raw@[k as int].0@,
{
    let mut j: usize = 0;
    while j < k
        invariant
            k < raw@.len(),
            j <= k,
            forall|q: int| 0 <= q < j ==> (#[trigger] raw@[q]).0@ != raw@[k as int].0@,
        decreases k - j,
    {
        if raw[j].0 == raw[k].0 {
            return true;
        }
        j = j + 1;
    }
    false
}

impl Package {
    /// The declared module dependencies, a mapping from each path to a set of paths.
    /// Null or missing metadata gives the empty configuration with a warning; metadata
    /// of the wrong shape, a key or value that is not a pseudo-module path, or a key
    /// given twice, is refused with the manifest path. A value given twice counts once.
    pub fn parse_metadata(&self) -> (r: Result<MetadataOutcome, WorkspaceError>)
        ensures
            match self.metadata {
                RawPackageMetadata::Null | RawPackageMetadata::Missing => r matches Ok(o)
                    && o.warn_missing && o.config.module_dependencies@.len() == 0,
                RawPackageMetadata::Malformed => r matches Err(WorkspaceError::MalformedMetadata(m))
                    && m@ == self.manifest_path@,
                RawPackageMetadata::ModuleDependencies(raw) => if all_path_texts(raw@) && distinct_keys(raw@) {
                    r matches Ok(o) && !o.warn_missing && o.config.module_dependencies@.len() == raw@.len()
                        && (forall|k: int| 0 <= k < raw@.len() ==> entry_parses(
                        #[trigger] raw@[k],
                        o.config.module_dependencies@[k],
                    )) && distinct_paths(o.config.module_dependencies@.map_values(
                        |e: (PseudoModulePath, Vec<PseudoModulePath>)| e.0,
                    ))
                } else {
                    r matches Err(WorkspaceError::MalformedMetadata(m)) && m@ == self.manifest_path@
                },
            },
    {
        match &self.metadata {
            RawPackageMetadata::Null | RawPackageMetadata::Missing => Ok(MetadataOutcome {
                config: PackageMetadataCargoEquip::default(),
                warn_missing: true,
            }),
            RawPackageMetadata::Malformed => Err(WorkspaceError::MalformedMetadata(self.manifest_path.clone())),
            RawPackageMetadata::ModuleDependencies(raw) => {
                assert(self.metadata == RawPackageMetadata::ModuleDependencies(*raw));
                let mut deps: Vec<(PseudoModulePath, Vec<PseudoModulePath>)> = Vec::new();
                let mut k: usize = 0;
                while k < raw.len()
                    invariant
                        self.metadata == RawPackageMetadata::ModuleDependencies(*raw),
                        k <= raw@.len(),
                        deps@.len() == k,
                        all_path_texts(raw@.subrange(0, k as int)),
                        distinct_keys(raw@.subrange(0, k as int)),
                        forall|q: int| 0 <= q < k ==> entry_parses(#[trigger] raw@[q], deps@[q]),
                    decreases raw@.len() - k,
                {
                    let key = match PseudoModulePath::from_str(raw[k].0.as_str()) {
                        Ok(p) => p,
                        Err(_) => {
                            assert(!is_path_text(raw@[k as int].0@));
                            assert(!all_path_texts(raw@));
                            return Err(WorkspaceError::MalformedMetadata(self.manifest_path.clone()));
                        },
                    };
                    let values = match parse_values(&raw[k].1) {
                        Some(vs) => vs,
                        None => {
                            let ghost e = raw@[k as int];
                            assert(!(forall|v: int| 0 <= v < e.1@.len() ==> is_path_text(#[trigger] e.1@[v]@)));
                            assert(!all_path_texts(raw@));
                            return Err(WorkspaceError::MalformedMetadata(self.manifest_path.clone()));
                        },
                    };
                    if key_repeated(raw, k) {
                        let ghost j = choose|j: int| 0 <= j < k && (#[trigger] raw@[j]).0@ == raw@[k as int].0@;
                        assert(!distinct_keys(raw@));
                        return Err(WorkspaceError::MalformedMetadata(self.manifest_path.clone()));
                    }
                    deps.push((key, values));
                    let ghost sub = raw@.subrange(0, k + 1);
                    assert forall|a: int, b: int|
                        #![trigger sub[a], sub[b]]
                        0 <= a < k + 1 && 0 <= b < k + 1 && a != b implies sub[a].0@ != sub[b].0@ by {
                        if a < k && b < k {
                            assert(sub[a] == raw@.subrange(0, k as int)[a]);
                            assert(sub[b] == raw@.subrange(0, k as int)[b]);
                        } else if a == k {
                            assert(sub[b] == raw@[b]);
                        } else {
                            assert(sub[a] == raw@[a]);
                        }
                    }
                    assert forall|q: int| 0 <= q < k + 1 implies is_path_text(
                        (#[trigger] raw@.subrange(0, k + 1)[q]).0@,
                    ) && forall|v: int|
                        0 <= v < raw@.subrange(0, k + 1)[q].1@.len() ==> is_path_text(
                            #[trigger] raw@.subrange(0, k + 1)[q].1@[v]@,
                        ) by {
                        if q < k {
                            assert(raw@.subrange(0, k + 1)[q] == raw@.subrange(0, k as int)[q]);
                        }
                    }
                    k = k + 1;
                }
                assert(raw@.subrange(0, raw@.len() as int) == raw@);
                let ghost keys = deps@.map_values(|e: (PseudoModulePath, Vec<PseudoModulePath>)| e.0);
                assert forall|a: int, b: int|
                    #![trigger keys[a], keys[b]]
                    0 <= a < keys.len() && 0 <= b < keys.len() && a != b implies !same_path(keys[a], keys[b]) by {
                    assert(entry_parses(raw@[a], deps@[a]));
                    assert(entry_parses(raw@[b], deps@[b]));
                    assert(raw@[a].0@ != raw@[b].0@);
                }
                Ok(MetadataOutcome {
                    config: PackageMetadataCargoEquip { module_dependencies: deps },
                    warn_missing: false,
                })
            },
        }
    }
}

} // verus!
