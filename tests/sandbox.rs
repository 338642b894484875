use cargo_equip_core::error::{ErrorKind, WorkspaceError};
use cargo_equip_core::sandbox::{
    cargo_check, cargo_init, random_scratch_package_name, scratch_package_name,
};
use cargo_equip_core::workspace::{cargo_metadata, locate_project};
use cargo_equip_core::sandbox_run::{SandboxAction, SandboxPhase, SandboxRun};

const PREFIX: &str = "cargo-equip-check-output-";

#[test]
fn scratch_name_maps_draws_to_alphabet() {
    assert_eq!(scratch_package_name(&vec![0, 25, 26, 35, 1]), format!("{}az09b", PREFIX));
    assert_eq!(scratch_package_name(&vec![]), PREFIX);
}

#[test]
fn random_scratch_name_has_sixteen_alphanumerics() {
    let a = random_scratch_package_name();
    let b = random_scratch_package_name();
    for n in [&a, &b] {
        assert!(n.starts_with(PREFIX));
        let suf = &n[PREFIX.len()..];
        assert_eq!(suf.len(), 16);
        assert!(suf.chars().all(|c| c.is_ascii_lowercase() || c.is_ascii_digit()));
    }
    assert_ne!(a, b);
}

#[test]
fn locate_project_takes_nearest_existing_manifest() {
    let probes = vec![
        ("/a/b/c/Cargo.toml".to_owned(), false),
        ("/a/b/Cargo.toml".to_owned(), true),
        ("/a/Cargo.toml".to_owned(), true),
    ];
    assert_eq!(locate_project(&"/a/b/c".to_owned(), &probes).unwrap(), "/a/b/Cargo.toml");
    let e = locate_project(&"/a/b/c".to_owned(), &vec![("/Cargo.toml".to_owned(), false)]).unwrap_err();
    assert!(matches!(e, WorkspaceError::ProjectNotFound(ref d) if d == "/a/b/c"));
    assert_eq!(e.kind(), ErrorKind::NotFound);
}

#[test]
fn tool_invocations_have_fixed_arguments() {
    let m = cargo_metadata(&"/ws/Cargo.toml".to_owned(), &"/ws".to_owned());
    assert_eq!(m.args, vec!["metadata", "--format-version", "1", "--manifest-path", "/ws/Cargo.toml"]);
    assert_eq!(m.cwd, "/ws");
    let i = cargo_init(&"2018".to_owned(), &"n".to_owned(), &"/ws/n".to_owned(), &"/ws".to_owned());
    assert_eq!(i.args, vec!["init", "-q", "--vcs", "none", "--bin", "--edition", "2018", "--name", "n", "/ws/n"]);
    let c = cargo_check(&"/ws/target".to_owned(), &"/ws/n/Cargo.toml".to_owned(), &"/ws".to_owned());
    assert_eq!(c.args, vec!["check", "--target-dir", "/ws/target", "--manifest-path", "/ws/n/Cargo.toml", "--offline"]);
}

fn drive(fail_at: Option<SandboxAction>, cleanup_fails: bool) -> (Vec<SandboxAction>, Result<(), WorkspaceError>) {
    let mut run = SandboxRun::new();
    let mut seen = vec![];
    loop {
        let a = run.pending();
        seen.push(a);
        if a == SandboxAction::Finish {
            break;
        }
        let outcome = if Some(a) == fail_at {
            Err(WorkspaceError::ExternalToolFailure(format!("{:?}", a)))
        } else if a == SandboxAction::RemoveScratch && cleanup_fails {
            Err(WorkspaceError::IoFailure("remove".to_owned()))
        } else {
            Ok(())
        };
        run.advance(outcome);
    }
    assert_eq!(run.phase, SandboxPhase::Cleaned);
    (seen, run.finish().unwrap())
}

#[test]
fn successful_run_visits_every_step_then_removes_scratch() {
    let (seen, r) = drive(None, false);
    assert_eq!(seen, vec![SandboxAction::CreateScratch, SandboxAction::PatchManifest, SandboxAction::InjectSource, SandboxAction::CopyLock, SandboxAction::RunCheck, SandboxAction::RemoveScratch, SandboxAction::Finish]);
    assert!(r.is_ok());
}

#[test]
fn failed_check_still_removes_scratch() {
    let (seen, r) = drive(Some(SandboxAction::RunCheck), true);
    assert_eq!(seen, vec![SandboxAction::CreateScratch, SandboxAction::PatchManifest, SandboxAction::InjectSource, SandboxAction::CopyLock, SandboxAction::RunCheck, SandboxAction::RemoveScratch, SandboxAction::Finish]);
    let e = r.unwrap_err();
    assert_eq!(e.kind(), ErrorKind::ExternalToolFailure);
}

#[test]
fn failed_step_skips_later_steps() {
    let (seen, r) = drive(Some(SandboxAction::PatchManifest), false);
    assert_eq!(seen, vec![SandboxAction::CreateScratch, SandboxAction::PatchManifest, SandboxAction::RemoveScratch, SandboxAction::Finish]);
    assert!(r.is_err());
    let (seen, r) = drive(Some(SandboxAction::CreateScratch), false);
    assert_eq!(seen, vec![SandboxAction::CreateScratch, SandboxAction::Finish]);
    assert!(r.is_err());
}

#[test]
fn failed_removal_after_success_is_reported() {
    let (_, r) = drive(None, true);
    assert_eq!(r.unwrap_err().kind(), ErrorKind::IoFailure);
}

#[test]
fn unfinished_run_has_no_result() {
    let run = SandboxRun::new();
    assert!(run.finish().is_none());
}
