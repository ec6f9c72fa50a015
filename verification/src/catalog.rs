//! Version catalogs: the entries of the two upstream feeds, their models, and
//! the predicate that tells a pre-release entry from a release.
//!
//! A catalog is a `Vec` of entries in the order in which the feed gave them.
//! It is never edited in place: a new fetch replaces it as a whole.
use crate::error::CatalogError;
use vstd::prelude::*;
use vstd::std_specs::cmp::PartialEqSpecImpl;

verus! {

/// The separator whose presence in a loader version marks a beta build.
///
/// The upstream feed has no flag for this: a build is a beta exactly when its
/// version text holds this character.
pub const BETA_MARKER: char = '-';

/// Whether `text` holds the character `c`.
pub fn has_char(text: &str, c: char) -> (found: bool)
    ensures
        found == text@.contains(c),
{
    let mut found = false;
    for x in it: text.chars()
        invariant
            it.seq() == text@,
            found == exists|i: int| 0 <= i < it.index() && text@[i] == c,
    {
        if x == c {
            found = true;
        }
    }
    found
}

/// One release of the base game.
#[derive(Debug)]
pub struct BaseVersion {
    /// The identifier of the release, by which it is told from every other.
    pub id: String,
    /// `false` for a snapshot or pre-release.
    pub stable: bool,
    /// When the release was published, in seconds since the Unix epoch.
    pub release_timestamp: u64,
}

/// The model of a [`BaseVersion`].
pub struct BaseVersionView {
    pub id: Seq<char>,
    pub stable: bool,
    pub release_timestamp: u64,
}

impl View for BaseVersion {
    type V = BaseVersionView;

    open spec fn view(&self) -> BaseVersionView {
        BaseVersionView {
            id: self.id@,
            stable: self.stable,
            release_timestamp: self.release_timestamp,
        }
    }
}

impl DeepView for BaseVersion {
    type V = BaseVersionView;

    open spec fn deep_view(&self) -> BaseVersionView {
        self@
    }
}

impl Clone for BaseVersion {
    fn clone(&self) -> (copy: Self)
        ensures
            copy == *self,
    {
        BaseVersion {
            id: self.id.clone(),
            stable: self.stable,
            release_timestamp: self.release_timestamp,
        }
    }
}

impl PartialEq for BaseVersion {
    fn eq(&self, other: &Self) -> (equal: bool) {
        self.id == other.id && self.stable == other.stable && self.release_timestamp
            == other.release_timestamp
    }
}

impl Eq for BaseVersion {

}

impl PartialEqSpecImpl for BaseVersion {
    open spec fn obeys_eq_spec() -> bool {
        true
    }

    open spec fn eq_spec(&self, other: &Self) -> bool {
        self@ == other@
    }
}

/// One build of the loader.
#[derive(Debug)]
pub struct LoaderVersion {
    /// The build's version text. It holds [`BETA_MARKER`] exactly when the
    /// build is a beta.
    pub version: String,
}

/// The model of a [`LoaderVersion`].
pub struct LoaderVersionView {
    pub version: Seq<char>,
}

impl View for LoaderVersion {
    type V = LoaderVersionView;

    open spec fn view(&self) -> LoaderVersionView {
        LoaderVersionView { version: self.version@ }
    }
}

impl DeepView for LoaderVersion {
    type V = LoaderVersionView;

    open spec fn deep_view(&self) -> LoaderVersionView {
        self@
    }
}

impl Clone for LoaderVersion {
    fn clone(&self) -> (copy: Self)
        ensures
            copy == *self,
    {
        LoaderVersion { version: self.version.clone() }
    }
}

impl PartialEq for LoaderVersion {
    fn eq(&self, other: &Self) -> (equal: bool) {
        self.version == other.version
    }
}

impl Eq for LoaderVersion {

}

impl PartialEqSpecImpl for LoaderVersion {
    open spec fn obeys_eq_spec() -> bool {
        true
    }

    open spec fn eq_spec(&self, other: &Self) -> bool {
        self@ == other@
    }
}

/// Whether a loader version text is that of a beta build.
pub open spec fn is_beta_text(version: Seq<char>) -> bool {
    version.contains(BETA_MARKER)
}

impl LoaderVersion {
    /// Whether this build is a beta: its version text holds [`BETA_MARKER`].
    pub fn is_beta(&self) -> (beta: bool)
        ensures
            beta == is_beta_text(self@.version),
    {
        has_char(self.version.as_str(), BETA_MARKER)
    }
}

/// What the two kinds of catalog entry have in common: each is either a
/// release or a pre-release, can be copied, and can be told from another.
pub trait Entry: DeepView + Sized {
    /// Whether the entry with this model is a pre-release: a snapshot of the
    /// base game, a beta of the loader.
    spec fn prerelease(model: Self::V) -> bool;

    /// Whether this entry is a pre-release.
    fn is_prerelease(&self) -> (pre: bool)
        ensures
            pre == Self::prerelease(self.deep_view()),
    ;

    /// A copy of this entry.
    fn duplicate(&self) -> (copy: Self)
        ensures
            copy.deep_view() == self.deep_view(),
    ;

    /// Whether this entry and `other` are the same entry.
    fn same_as(&self, other: &Self) -> (same: bool)
        ensures
            same == (self.deep_view() == other.deep_view()),
    ;
}

impl Entry for BaseVersion {
    open spec fn prerelease(model: BaseVersionView) -> bool {
        !model.stable
    }

    fn is_prerelease(&self) -> (pre: bool) {
        !self.stable
    }

    fn duplicate(&self) -> (copy: Self) {
        self.clone()
    }

    fn same_as(&self, other: &Self) -> (same: bool) {
        self == other
    }
}

impl Entry for LoaderVersion {
    open spec fn prerelease(model: LoaderVersionView) -> bool {
        is_beta_text(model.version)
    }

    fn is_prerelease(&self) -> (pre: bool) {
        self.is_beta()
    }

    fn duplicate(&self) -> (copy: Self) {
        self.clone()
    }

    fn same_as(&self, other: &Self) -> (same: bool) {
        self == other
    }
}

/// What came of asking a feed for its version list.
pub enum Feed<E> {
    /// The request failed in transport.
    Unreachable,
    /// An answer came, and it was not a well-formed version list.
    Malformed,
    /// The entries of the list, in the feed's order.
    Entries(Vec<E>),
}

/// The catalog that a feed's answer amounts to, or the reason there is none.
///
/// The entries come out as they went in: callers pick the first entry that
/// suits them, so the feed's order is kept.
pub fn catalog_from_feed<E>(feed: Feed<E>) -> (catalog: Result<Vec<E>, CatalogError>)
    ensures
        catalog == match feed {
            Feed::Unreachable => Err::<Vec<E>, CatalogError>(CatalogError::Network),
            Feed::Malformed => Err(CatalogError::Parse),
            Feed::Entries(entries) => Ok(entries),
        },
{
    match feed {
        Feed::Unreachable => Err(CatalogError::Network),
        Feed::Malformed => Err(CatalogError::Parse),
        Feed::Entries(entries) => Ok(entries),
    }
}

} // verus!
