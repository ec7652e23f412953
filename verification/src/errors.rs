//! The error taxonomy of the build pipeline. Every failure surfaces exactly
//! one of these, identifying the failing stage and, where applicable, the
//! specific missing resource.

use vstd::prelude::*;

verus! {

/// The specification document could not be read or structurally parsed.
/// Constructed by the surrounding application, which owns document I/O.
pub struct SpecLoadError {
    pub message: String,
}

impl SpecLoadError {
    /// The user-visible message, carrying the loader's own diagnostic.
    pub fn describe(&self) -> (r: String)
        ensures
            r@ == "Could not load specification: "@ + self.message@,
    {
        let mut r = String::from_str("Could not load specification: ");
        r.append(self.message.as_str());
        r
    }
}

/// An action declares zero output arguments, so no function signature can be
/// derived from it. Carries the name of the offending action.
#[derive(Debug, PartialEq, Eq)]
pub struct SpecValidationError {
    pub action: String,
}

impl SpecValidationError {
    /// The user-visible message, naming the exact action at fault.
    pub fn describe(&self) -> (r: String)
        ensures
            r@ == "Action '"@ + self.action@ + "' declares no output arguments."@,
    {
        let mut r = String::from_str("Action '");
        r.append(self.action.as_str());
        r.append("' declares no output arguments.");
        r
    }
}

/// Mathematical model of a [`StagingError`]: carried paths as character
/// sequences.
pub ghost enum StagingErrorModel {
    WriteFailed,
    InitCopyFailed(Seq<char>),
    ContextFileMissing(Seq<char>),
    ArchiveFailed,
    CleanupFailed,
}

/// A staging step failed. All variants but `CleanupFailed` abort the build;
/// `CleanupFailed` is a warning only, since the archive already exists.
#[derive(Debug, PartialEq, Eq)]
pub enum StagingError {
    /// A metadata file or directory could not be written into the staging
    /// directory.
    WriteFailed,
    /// The custom init binary at the carried source path was missing or
    /// unreadable.
    InitCopyFailed(String),
    /// A declared context file, named by the carried path, was absent from
    /// the build context.
    ContextFileMissing(String),
    /// The external archiving tool reported non-success.
    ArchiveFailed,
    /// Removing the uncompressed working directory failed after the archive
    /// was already produced.
    CleanupFailed,
}

impl View for StagingError {
    type V = StagingErrorModel;

    open spec fn view(&self) -> StagingErrorModel {
        match self {
            StagingError::WriteFailed => StagingErrorModel::WriteFailed,
            StagingError::InitCopyFailed(p) => StagingErrorModel::InitCopyFailed(p@),
            StagingError::ContextFileMissing(p) => StagingErrorModel::ContextFileMissing(p@),
            StagingError::ArchiveFailed => StagingErrorModel::ArchiveFailed,
            StagingError::CleanupFailed => StagingErrorModel::CleanupFailed,
        }
    }
}

impl StagingError {
    /// True for every variant that must abort the pipeline; cleanup failure
    /// alone is downgraded to a warning.
    pub fn is_fatal(&self) -> (r: bool)
        ensures
            r == !(*self is CleanupFailed),
    {
        !matches!(self, StagingError::CleanupFailed)
    }

    /// The user-visible message, naming the missing resource where one is
    /// known.
    pub fn describe(&self) -> (r: String)
        ensures
            *self is WriteFailed ==> r@ == "Failed to write package files."@,
            *self matches StagingError::InitCopyFailed(p) ==> r@ == "Couldn't find init binary "@
                + p@ + "."@,
            *self matches StagingError::ContextFileMissing(p) ==> r@ == "Couldn't find "@ + p@
                + " within the build context."@,
            *self is ArchiveFailed ==> r@ == "Failed to prepare working directory archive."@,
            *self is CleanupFailed ==> r@ == "Failed to cleanup working directory."@,
    {
        match self {
            StagingError::WriteFailed => String::from_str("Failed to write package files."),
            StagingError::InitCopyFailed(p) => {
                let mut r = String::from_str("Couldn't find init binary ");
                r.append(p.as_str());
                r.append(".");
                r
            },
            StagingError::ContextFileMissing(p) => {
                let mut r = String::from_str("Couldn't find ");
                r.append(p.as_str());
                r.append(" within the build context.");
                r
            },
            StagingError::ArchiveFailed => {
                String::from_str("Failed to prepare working directory archive.")
            },
            StagingError::CleanupFailed => {
                String::from_str("Failed to cleanup working directory.")
            },
        }
    }
}

/// The image-build backend failed: either its extended-capability probe did
/// not succeed (a configuration problem), or the build itself exited
/// non-zero.
#[derive(Debug, PartialEq, Eq)]
pub enum BackendError {
    CapabilityMissing,
    BuildFailed,
}

impl BackendError {
    /// The user-visible message, instructing the operator what to inspect.
    pub fn describe(&self) -> (r: String)
        ensures
            *self is CapabilityMissing ==> r@
                == "Failed to build ECU image. Is BuildKit enabled (see documentation)?"@,
            *self is BuildFailed ==> r@
                == "Failed to build ECU image. See Docker output above for more information."@,
    {
        match self {
            BackendError::CapabilityMissing => {
                String::from_str("Failed to build ECU image. Is BuildKit enabled (see documentation)?")
            },
            BackendError::BuildFailed => {
                String::from_str("Failed to build ECU image. See Docker output above for more information.")
            },
        }
    }
}

} // verus!
