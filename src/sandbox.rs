use vstd::prelude::*;
use crate::workspace::{owned, ToolInvocation};
use rand::Rng as _;

verus! {

/// The skeleton initialization of a binary package named `name` with the given
/// edition in `scratch_dir`, run in the workspace root.
pub fn cargo_init(edition: &String, name: &String, scratch_dir: &String, workspace_root: &String) -> (r: ToolInvocation)
    ensures
        r.args@.len() == 10,
        r.args@[0]@ == "init"@,
        r.args@[1]@ == "-q"@,
        r.args@[2]@ == "--vcs"@,
        r.args@[3]@ == "none"@,
        r.args@[4]@ == "--bin"@,
        r.args@[5]@ == "--edition"@,
        r.args@[6]@ == edition@,
        r.args@[7]@ == "--name"@,
        r.args@[8]@ == name@,
        r.args@[9]@ == scratch_dir@,
        r.cwd@ == workspace_root@,
{
    let mut args: Vec<String> = Vec::new();
    args.push(owned("init"));
    args.push(owned("-q"));
    args.push(owned("--vcs"));
    args.push(owned("none"));
    args.push(owned("--bin"));
    args.push(owned("--edition"));
    args.push(edition.clone());
    args.push(owned("--name"));
    args.push(name.clone());
    args.push(scratch_dir.clone());
    ToolInvocation { args, cwd: workspace_root.clone() }
}

/// The offline type check of the scratch manifest against the shared build directory,
/// run in the workspace root.
pub fn cargo_check(target_directory: &String, scratch_manifest: &String, workspace_root: &String) -> (r: ToolInvocation)
    ensures
        r.args@.len() == 6,
        r.args@[0]@ == "check"@,
        r.args@[1]@ == "--target-dir"@,
        r.args@[2]@ == target_directory@,
        r.args@[3]@ == "--manifest-path"@,
        r.args@[4]@ == scratch_manifest@,
        r.args@[5]@ == "--offline"@,
        r.cwd@ == workspace_root@,
{
    let mut args: Vec<String> = Vec::new();
    args.push(owned("check"));
    args.push(owned("--target-dir"));
    args.push(target_directory.clone());
    args.push(owned("--manifest-path"));
    args.push(scratch_manifest.clone());
    args.push(owned("--offline"));
    ToolInvocation { args, cwd: workspace_root.clone() }
}

/// The prefix of every scratch package name.
pub open spec fn scratch_prefix() -> Seq<char> {
    "cargo-equip-check-output-"@
}

/// The characters a scratch suffix is drawn from: lowercase letters, then digits.
pub open spec fn suffix_alphabet() -> Seq<char> {
    seq![
        'a', 'b', 'c', 'd', 'e', 'f', 'g', 'h', 'i', 'j', 'k', 'l', 'm', 'n', 'o', 'p', 'q',
        'r', 's', 't', 'u', 'v', 'w', 'x', 'y', 'z', '0', '1', '2', '3', '4', '5', '6', '7',
        '8', '9',
    ]
}

/// The scratch package name for the given draws, each an index into the alphabet.
pub open spec fn scratch_name_of(draws: Seq<u8>) -> Seq<char> {
    scratch_prefix() + draws.map_values(|d: u8| suffix_alphabet()[d as int])
}

/// The fixed prefix followed by one alphabet character per draw.
pub fn scratch_package_name(draws: &Vec<u8>) -> (r: String)
    requires
        forall|k: int| 0 <= k < draws@.len() ==> #[trigger] draws@[k] < 36,
    ensures
        r@ == scratch_name_of(draws@),
{
    let alphabet = "abcdefghijklmnopqrstuvwxyz0123456789";
    proof {
        reveal_strlit("abcdefghijklmnopqrstuvwxyz0123456789");
        assert(alphabet@ =~= suffix_alphabet());
    }
    let mut r = owned("cargo-equip-check-output-");
    let mut k: usize = 0;
    while k < draws.len()
        invariant
            k <= draws@.len(),
            alphabet@ == suffix_alphabet(),
            forall|q: int| 0 <= q < draws@.len() ==> #[trigger] draws@[q] < 36,
            r@ == scratch_prefix() + draws@.subrange(0, k as int).map_values(|d: u8| suffix_alphabet()[d as int]),
        decreases draws@.len() - k,
    {
        let d = draws[k] as usize;
        r.append(alphabet.substring_char(d, d + 1));
        assert(draws@.subrange(0, k + 1).map_values(|d: u8| suffix_alphabet()[d as int]) =~= draws@.subrange(
            0,
            k as int,
        ).map_values(|d: u8| suffix_alphabet()[d as int]).push(suffix_alphabet()[d as int]));
        k = k + 1;
    }
    assert(draws@.subrange(0, draws@.len() as int) == draws@);
    r
}

/// Relies on rand's `Rng::gen_range` with the thread-local generator: a value at least
/// `0` and below `bound` (it panics when `bound` is `0`).
#[verifier::external_body]
fn random_below(bound: u8) -> (r: u8)
    requires
        0 < bound,
    ensures
        r < bound,
{
    rand::thread_rng().gen_range(0, bound)
}

/// A fresh scratch package name: the fixed prefix and sixteen random lowercase letters
/// or digits.
pub fn random_scratch_package_name() -> (r: String)
    ensures
        exists|draws: Seq<u8>|
            draws.len() == 16 && (forall|k: int| 0 <= k < 16 ==> #[trigger] draws[k] < 36) && r@
                == scratch_name_of(draws),
{
    let mut draws: Vec<u8> = Vec::new();
    while draws.len() < 16
        invariant
            draws@.len() <= 16,
            forall|k: int| 0 <= k < draws@.len() ==> #[trigger] draws@[k] < 36,
        decreases 16 - draws@.len(),
    {
        draws.push(random_below(36));
    }
    scratch_package_name(&draws)
}

} // verus!
