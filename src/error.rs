use vstd::prelude::*;

verus! {

/// The broad class of a failure.
#[derive(Clone, Copy, Debug, PartialEq, Eq, Structural)]
pub enum ErrorKind {
    NotFound,
    Ambiguous,
    MalformedMetadata,
    MalformedPseudoModulePath,
    ExternalToolFailure,
    IoFailure,
}

/// A failure of one of the library's operations, with what is needed to report it.
#[derive(Clone, Debug)]
pub enum WorkspaceError {
    /// No `Cargo.toml` in the given directory or any ancestor.
    ProjectNotFound(String),
    /// The workspace has no bin target at all.
    NoBinTarget,
    /// Several bin targets; their names, in order.
    AmbiguousBinTargets(Vec<String>),
    /// No bin target with this name.
    NoBinTargetNamed(String),
    /// Several bin targets with this name.
    MultipleBinTargetsNamed(String),
    /// No bin target with this main source path.
    NoBinTargetAtPath(String),
    /// Several bin targets with this main source path.
    MultipleBinTargetsAtPath(String),
    /// A package id that the snapshot does not hold.
    PackageNotInGraph(String),
    /// An explicit rename that no resolved edge carries.
    RenameNotResolved(String),
    /// The extern crate name resolved to a package without a library target.
    NoLibraryTarget { extern_crate_name: String, package_name: String },
    /// No dependency whose library goes by this name.
    NoSuchExternCrate(String),
    /// The package's extra metadata does not have the expected shape; the manifest path.
    MalformedMetadata(String),
    /// Text that is not of the form `::a::b`.
    MalformedPseudoModulePath(String),
    /// An external tool failed; its diagnostics.
    ExternalToolFailure(String),
    /// A filesystem operation failed; its description.
    IoFailure(String),
    /// A manifest that could not be read as TOML; its text.
    InvalidManifest(String),
}

impl WorkspaceError {
    pub open spec fn spec_kind(&self) -> ErrorKind {
        match self {
            WorkspaceError::ProjectNotFound(_) => ErrorKind::NotFound,
            WorkspaceError::NoBinTarget => ErrorKind::NotFound,
            WorkspaceError::AmbiguousBinTargets(_) => ErrorKind::Ambiguous,
            WorkspaceError::NoBinTargetNamed(_) => ErrorKind::NotFound,
            WorkspaceError::MultipleBinTargetsNamed(_) => ErrorKind::Ambiguous,
            WorkspaceError::NoBinTargetAtPath(_) => ErrorKind::NotFound,
            WorkspaceError::MultipleBinTargetsAtPath(_) => ErrorKind::Ambiguous,
            WorkspaceError::PackageNotInGraph(_) => ErrorKind::NotFound,
            WorkspaceError::RenameNotResolved(_) => ErrorKind::NotFound,
            WorkspaceError::NoLibraryTarget { .. } => ErrorKind::NotFound,
            WorkspaceError::NoSuchExternCrate(_) => ErrorKind::NotFound,
            WorkspaceError::MalformedMetadata(_) => ErrorKind::MalformedMetadata,
            WorkspaceError::MalformedPseudoModulePath(_) => ErrorKind::MalformedPseudoModulePath,
            WorkspaceError::ExternalToolFailure(_) => ErrorKind::ExternalToolFailure,
            WorkspaceError::IoFailure(_) => ErrorKind::IoFailure,
            WorkspaceError::InvalidManifest(_) => ErrorKind::IoFailure,
        }
    }

    /// The class of this failure.
    pub fn kind(&self) -> (r: ErrorKind)
        ensures
            r == self.spec_kind(),
    {
        match self {
            WorkspaceError::ProjectNotFound(_) => ErrorKind::NotFound,
            WorkspaceError::NoBinTarget => ErrorKind::NotFound,
            WorkspaceError::AmbiguousBinTargets(_) => ErrorKind::Ambiguous,
            WorkspaceError::NoBinTargetNamed(_) => ErrorKind::NotFound,
            WorkspaceError::MultipleBinTargetsNamed(_) => ErrorKind::Ambiguous,
            WorkspaceError::NoBinTargetAtPath(_) => ErrorKind::NotFound,
            WorkspaceError::MultipleBinTargetsAtPath(_) => ErrorKind::Ambiguous,
            WorkspaceError::PackageNotInGraph(_) => ErrorKind::NotFound,
            WorkspaceError::RenameNotResolved(_) => ErrorKind::NotFound,
            WorkspaceError::NoLibraryTarget { .. } => ErrorKind::NotFound,
            WorkspaceError::NoSuchExternCrate(_) => ErrorKind::NotFound,
            WorkspaceError::MalformedMetadata(_) => ErrorKind::MalformedMetadata,
            WorkspaceError::MalformedPseudoModulePath(_) => ErrorKind::MalformedPseudoModulePath,
            WorkspaceError::ExternalToolFailure(_) => ErrorKind::ExternalToolFailure,
            WorkspaceError::IoFailure(_) => ErrorKind::IoFailure,
            WorkspaceError::InvalidManifest(_) => ErrorKind::IoFailure,
        }
    }
}

} // verus!
