use vstd::prelude::*;
use crate::error::WorkspaceError;
use crate::search::{first_index, lemma_first_index_is, lemma_first_index_none};

verus! {

/// An external tool run: its arguments and the directory it runs in.
#[derive(Clone, Debug)]
pub struct ToolInvocation {
    pub args: Vec<String>,
    pub cwd: String,
}

/// The candidate manifest paths, nearest directory first, with whether each exists.
pub open spec fn manifest_exists() -> spec_fn((String, bool)) -> bool {
    |p: (String, bool)| p.1
}

/// The nearest existing manifest among `probes`, which hold the `Cargo.toml` path of
/// `cwd` and of each of its ancestors, nearest first, with whether that file exists.
pub fn locate_project(cwd: &String, probes: &Vec<(String, bool)>) -> (r: Result<String, WorkspaceError>)
    ensures
        match first_index(probes@, manifest_exists()) {
            Some(i) => r matches Ok(p) && p@ == probes@[i].0@,
            None => r matches Err(WorkspaceError::ProjectNotFound(d)) && d@ == cwd@,
        },
{
    let mut i: usize = 0;
    while i < probes.len()
        invariant
            i <= probes@.len(),
            forall|j: int| 0 <= j < i ==> !manifest_exists()(probes@[j]),
        decreases probes@.len() - i,
    {
        if probes[i].1 {
            proof {
                lemma_first_index_is(probes@, manifest_exists(), i as int);
            }
            return Ok(probes[i].0.clone());
        }
        i = i + 1;
    }
    proof {
        lemma_first_index_none(probes@, manifest_exists());
    }
    Err(WorkspaceError::ProjectNotFound(cwd.clone()))
}

pub(crate) fn owned(s: &str) -> (r: String)
    ensures
        r@ == s@,
{
    s.to_owned()
}

/// The metadata query for the workspace of `manifest_path`, run in `cwd`.
pub fn cargo_metadata(manifest_path: &String, cwd: &String) -> (r: ToolInvocation)
    ensures
        r.args@.len() == 5,
        r.args@[0]@ == "metadata"@,
        r.args@[1]@ == "--format-version"@,
        r.args@[2]@ == "1"@,
        r.args@[3]@ == "--manifest-path"@,
        r.args@[4]@ == manifest_path@,
        r.cwd@ == cwd@,
{
    let mut args: Vec<String> = Vec::new();
    args.push(owned("metadata"));
    args.push(owned("--format-version"));
    args.push(owned("1"));
    args.push(owned("--manifest-path"));
    args.push(manifest_path.clone());
    ToolInvocation { args, cwd: cwd.clone() }
}

} // verus!
