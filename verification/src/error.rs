//! The failures of an installation, by the stage that meets them.
//!
//! A failure of a lower stage is wrapped by the stage above it and handed on
//! as it is: none is dropped, and none is turned into success.
use vstd::prelude::*;
use vstd::std_specs::cmp::PartialEqSpecImpl;

verus! {

/// Why a catalog could not be had.
#[derive(Debug, Clone, Copy, PartialEq, Eq, Structural)]
pub enum CatalogError {
    /// The feed could not be reached, or did not answer in time.
    Network,
    /// The feed answered with a document that is not a version list.
    Parse,
}

/// Why a pair of versions could not be resolved into a manifest.
#[derive(Debug, Clone, Copy, PartialEq, Eq, Structural)]
pub enum ResolveError {
    /// The metadata endpoint could not be reached, or did not answer in time.
    Network,
    /// The endpoint answered with a document that is not a manifest.
    Parse,
    /// The endpoint has no entry for this pair of versions.
    UnsupportedCombination,
}

/// Why the artifacts of a manifest could not be brought into place.
#[derive(Debug)]
pub enum DownloadError {
    /// A transfer failed, or ran out of time, on its last attempt.
    Network,
    /// The bytes received for the artifact with this coordinate do not have
    /// the digest that the manifest gives for it.
    IntegrityMismatch { coordinate: String },
    /// A file could not be read, written or renamed.
    Filesystem,
}

/// The model of a [`DownloadError`].
pub enum DownloadErrorView {
    Network,
    IntegrityMismatch { coordinate: Seq<char> },
    Filesystem,
}

impl View for DownloadError {
    type V = DownloadErrorView;

    open spec fn view(&self) -> DownloadErrorView {
        match self {
            DownloadError::Network => DownloadErrorView::Network,
            DownloadError::IntegrityMismatch { coordinate } => DownloadErrorView::IntegrityMismatch {
                coordinate: coordinate@,
            },
            DownloadError::Filesystem => DownloadErrorView::Filesystem,
        }
    }
}

impl DeepView for DownloadError {
    type V = DownloadErrorView;

    open spec fn deep_view(&self) -> DownloadErrorView {
        self@
    }
}

impl Clone for DownloadError {
    fn clone(&self) -> (copy: Self)
        ensures
            copy == *self,
    {
        match self {
            DownloadError::Network => DownloadError::Network,
            DownloadError::IntegrityMismatch { coordinate } => DownloadError::IntegrityMismatch {
                coordinate: coordinate.clone(),
            },
            DownloadError::Filesystem => DownloadError::Filesystem,
        }
    }
}

impl PartialEq for DownloadError {
    fn eq(&self, other: &Self) -> (equal: bool) {
        match self {
            DownloadError::Network => match other {
                DownloadError::Network => true,
                _ => false,
            },
            DownloadError::IntegrityMismatch { coordinate: left } => match other {
                DownloadError::IntegrityMismatch { coordinate: right } => *left == *right,
                _ => false,
            },
            DownloadError::Filesystem => match other {
                DownloadError::Filesystem => true,
                _ => false,
            },
        }
    }
}

impl Eq for DownloadError {

}

impl PartialEqSpecImpl for DownloadError {
    open spec fn obeys_eq_spec() -> bool {
        true
    }

    open spec fn eq_spec(&self, other: &Self) -> bool {
        self@ == other@
    }
}

/// Why the files that the target runtime reads could not be written.
#[derive(Debug, Clone, Copy, PartialEq, Eq, Structural)]
pub enum WriteError {
    /// A file could not be read, written or renamed.
    Filesystem,
    /// A file that was already there, and had to be merged into, is not what
    /// the runtime would have written.
    MalformedExistingState,
}

/// Why an installation failed.
#[derive(Debug)]
pub enum InstallError {
    /// The request names no base version, or no loader version.
    MissingSelection,
    /// The manifest could not be resolved.
    Resolve(ResolveError),
    /// The artifacts could not be brought into place.
    Download(DownloadError),
    /// The runtime's files could not be written.
    Write(WriteError),
}

/// The model of an [`InstallError`].
pub enum InstallErrorView {
    MissingSelection,
    Resolve(ResolveError),
    Download(DownloadErrorView),
    Write(WriteError),
}

impl View for InstallError {
    type V = InstallErrorView;

    open spec fn view(&self) -> InstallErrorView {
        match self {
            InstallError::MissingSelection => InstallErrorView::MissingSelection,
            InstallError::Resolve(error) => InstallErrorView::Resolve(*error),
            InstallError::Download(error) => InstallErrorView::Download(error@),
            InstallError::Write(error) => InstallErrorView::Write(*error),
        }
    }
}

impl DeepView for InstallError {
    type V = InstallErrorView;

    open spec fn deep_view(&self) -> InstallErrorView {
        self@
    }
}

impl Clone for InstallError {
    fn clone(&self) -> (copy: Self)
        ensures
            copy == *self,
    {
        match self {
            InstallError::MissingSelection => InstallError::MissingSelection,
            InstallError::Resolve(error) => InstallError::Resolve(*error),
            InstallError::Download(error) => InstallError::Download(error.clone()),
            InstallError::Write(error) => InstallError::Write(*error),
        }
    }
}

impl PartialEq for InstallError {
    fn eq(&self, other: &Self) -> (equal: bool) {
        match self {
            InstallError::MissingSelection => match other {
                InstallError::MissingSelection => true,
                _ => false,
            },
            InstallError::Resolve(left) => match other {
                InstallError::Resolve(right) => *left == *right,
                _ => false,
            },
            InstallError::Download(left) => match other {
                InstallError::Download(right) => *left == *right,
                _ => false,
            },
            InstallError::Write(left) => match other {
                InstallError::Write(right) => *left == *right,
                _ => false,
            },
        }
    }
}

impl Eq for InstallError {

}

impl PartialEqSpecImpl for InstallError {
    open spec fn obeys_eq_spec() -> bool {
        true
    }

    open spec fn eq_spec(&self, other: &Self) -> bool {
        self@ == other@
    }
}

} // verus!
