use vstd::prelude::*;
use crate::error::WorkspaceError;

verus! {

/// How far a scratch-package type check has come.
#[derive(Clone, Copy, Debug, PartialEq, Eq, Structural)]
pub enum SandboxPhase {
    Idle,
    ScratchCreated,
    ManifestPatched,
    SourceInjected,
    LockCopied,
    Checked,
    /// A step failed after the scratch directory was made; it is still there.
    Failed,
    Cleaned,
}

/// What the driver must do next.
#[derive(Clone, Copy, Debug, PartialEq, Eq, Structural)]
pub enum SandboxAction {
    CreateScratch,
    PatchManifest,
    InjectSource,
    CopyLock,
    RunCheck,
    RemoveScratch,
    Finish,
}

pub open spec fn pending_action(p: SandboxPhase) -> SandboxAction {
    match p {
        SandboxPhase::Idle => SandboxAction::CreateScratch,
        SandboxPhase::ScratchCreated => SandboxAction::PatchManifest,
        SandboxPhase::ManifestPatched => SandboxAction::InjectSource,
        SandboxPhase::SourceInjected => SandboxAction::CopyLock,
        SandboxPhase::LockCopied => SandboxAction::RunCheck,
        SandboxPhase::Checked => SandboxAction::RemoveScratch,
        SandboxPhase::Failed => SandboxAction::RemoveScratch,
        SandboxPhase::Cleaned => SandboxAction::Finish,
    }
}

/// Whether the scratch directory exists in this phase.
pub open spec fn holds_scratch(p: SandboxPhase) -> bool {
    p != SandboxPhase::Idle && p != SandboxPhase::Cleaned
}

/// The phase after the pending action of `p` succeeded (`ok`) or failed.
pub open spec fn next_phase(p: SandboxPhase, ok: bool) -> SandboxPhase {
    match p {
        SandboxPhase::Idle => if ok { SandboxPhase::ScratchCreated } else { SandboxPhase::Cleaned },
        SandboxPhase::ScratchCreated => if ok { SandboxPhase::ManifestPatched } else { SandboxPhase::Failed },
        SandboxPhase::ManifestPatched => if ok { SandboxPhase::SourceInjected } else { SandboxPhase::Failed },
        SandboxPhase::SourceInjected => if ok { SandboxPhase::LockCopied } else { SandboxPhase::Failed },
        SandboxPhase::LockCopied => if ok { SandboxPhase::Checked } else { SandboxPhase::Failed },
        SandboxPhase::Checked => SandboxPhase::Cleaned,
        SandboxPhase::Failed => SandboxPhase::Cleaned,
        SandboxPhase::Cleaned => SandboxPhase::Cleaned,
    }
}

/// Steps left before the run is cleaned up, at most.
pub open spec fn steps_left(p: SandboxPhase) -> nat {
    match p {
        SandboxPhase::Idle => 6,
        SandboxPhase::ScratchCreated => 5,
        SandboxPhase::ManifestPatched => 4,
        SandboxPhase::SourceInjected => 3,
        SandboxPhase::LockCopied => 2,
        SandboxPhase::Checked => 1,
        SandboxPhase::Failed => 1,
        SandboxPhase::Cleaned => 0,
    }
}

/// One scratch-package type check in progress: its phase and the first failure.
#[derive(Debug)]
pub struct SandboxRun {
    pub phase: SandboxPhase,
    pub failure: Option<WorkspaceError>,
}

impl SandboxRun {
    /// A run that has not started.
    pub fn new() -> (r: SandboxRun)
        ensures
            r.phase == SandboxPhase::Idle,
            r.failure is None,
    {
        SandboxRun { phase: SandboxPhase::Idle, failure: None }
    }

    /// The action the driver must perform next.
    pub fn pending(&self) -> (r: SandboxAction)
        ensures
            r == pending_action(self.phase),
    {
        match self.phase {
            SandboxPhase::Idle => SandboxAction::CreateScratch,
            SandboxPhase::ScratchCreated => SandboxAction::PatchManifest,
            SandboxPhase::ManifestPatched => SandboxAction::InjectSource,
            SandboxPhase::SourceInjected => SandboxAction::CopyLock,
            SandboxPhase::LockCopied => SandboxAction::RunCheck,
            SandboxPhase::Checked => SandboxAction::RemoveScratch,
            SandboxPhase::Failed => SandboxAction::RemoveScratch,
            SandboxPhase::Cleaned => SandboxAction::Finish,
        }
    }

    /// Records the outcome of the pending action. The first failure is kept; a later
    /// one, a failed removal included, does not replace it.
    pub fn advance(&mut self, outcome: Result<(), WorkspaceError>)
        ensures
            final(self).phase == next_phase(old(self).phase, outcome is Ok),
            old(self).failure is Some ==> final(self).failure == old(self).failure,
            old(self).failure is None && old(self).phase != SandboxPhase::Cleaned ==> final(self).failure
                == match outcome {
                Ok(_) => None,
                Err(e) => Some(e),
            },
            old(self).phase == SandboxPhase::Cleaned ==> final(self).failure == old(self).failure,
    {
        let ok = outcome.is_ok();
        let next = match self.phase {
            SandboxPhase::Idle => if ok { SandboxPhase::ScratchCreated } else { SandboxPhase::Cleaned },
            SandboxPhase::ScratchCreated => if ok { SandboxPhase::ManifestPatched } else { SandboxPhase::Failed },
            SandboxPhase::ManifestPatched => if ok { SandboxPhase::SourceInjected } else { SandboxPhase::Failed },
            SandboxPhase::SourceInjected => if ok { SandboxPhase::LockCopied } else { SandboxPhase::Failed },
            SandboxPhase::LockCopied => if ok { SandboxPhase::Checked } else { SandboxPhase::Failed },
            SandboxPhase::Checked => SandboxPhase::Cleaned,
            SandboxPhase::Failed => SandboxPhase::Cleaned,
            SandboxPhase::Cleaned => SandboxPhase::Cleaned,
        };
        if self.failure.is_none() && self.phase != SandboxPhase::Cleaned {
            match outcome {
                Ok(()) => {},
                Err(e) => {
                    self.failure = Some(e);
                },
            }
        }
        self.phase = next;
    }

    /// The result of a finished run: success, or the first failure; none while the run
    /// is not finished.
    pub fn finish(self) -> (r: Option<Result<(), WorkspaceError>>)
        ensures
            self.phase != SandboxPhase::Cleaned ==> r is None,
            self.phase == SandboxPhase::Cleaned ==> r == Some(
                match self.failure {
                    Some(e) => Err(e),
                    None => Ok(()),
                },
            ),
    {
        if self.phase != SandboxPhase::Cleaned {
            return None;
        }
        match self.failure {
            Some(e) => Some(Err(e)),
            None => Some(Ok(())),
        }
    }
}

/// The scratch directory is removed on every path: once it exists, every step either
/// keeps it (and with a failure goes straight to its removal) or is its removal, and
/// the run is only finished after that removal. Every step also brings the run nearer
/// its end.
pub proof fn lemma_scratch_removed_on_every_path(p: SandboxPhase, ok: bool)
    ensures
        holds_scratch(p) && next_phase(p, ok) == SandboxPhase::Cleaned ==> pending_action(p)
            == SandboxAction::RemoveScratch,
        holds_scratch(p) && next_phase(p, ok) != SandboxPhase::Cleaned ==> holds_scratch(next_phase(p, ok)),
        holds_scratch(p) && !ok && pending_action(p) != SandboxAction::RemoveScratch ==> pending_action(
            next_phase(p, ok),
        ) == SandboxAction::RemoveScratch,
        pending_action(p) == SandboxAction::Finish <==> p == SandboxPhase::Cleaned,
        p != SandboxPhase::Cleaned ==> steps_left(next_phase(p, ok)) < steps_left(p),
{
}

} // verus!
