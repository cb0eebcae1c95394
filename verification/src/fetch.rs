use vstd::prelude::*;
use crate::manifest::{Type, Version, VersionManifest, VersionManifestView, VersionView};

verus! {

/// Which version to fetch: one named by its id, or the newest of a channel.
#[derive(Debug, PartialEq, Eq)]
pub enum Fetch {
    Version(String),
    Latest(Type),
}

/// The mathematical content of a [`Fetch`].
pub enum FetchView {
    Version(Seq<char>),
    Latest(Type),
}

impl View for Fetch {
    type V = FetchView;

    open spec fn view(&self) -> FetchView {
        match self {
            Fetch::Version(id) => FetchView::Version(id@),
            Fetch::Latest(kind) => FetchView::Latest(*kind),
        }
    }
}

/// Why a selector could not be resolved against an index.
#[derive(Debug, PartialEq, Eq)]
pub enum ResolveError {
    /// The requested id is not in the index.
    NotFound { id: String },
    /// The index names a newest version that it does not list.
    InvariantViolation { id: String },
    /// Resolving the newest version of this channel is not supported.
    NotImplemented { kind: Type },
}

/// The mathematical content of a [`ResolveError`].
pub enum ResolveErrorView {
    NotFound { id: Seq<char> },
    InvariantViolation { id: Seq<char> },
    NotImplemented { kind: Type },
}

impl View for ResolveError {
    type V = ResolveErrorView;

    open spec fn view(&self) -> ResolveErrorView {
        match self {
            ResolveError::NotFound { id } => ResolveErrorView::NotFound { id: id@ },
            ResolveError::InvariantViolation { id } => ResolveErrorView::InvariantViolation {
                id: id@,
            },
            ResolveError::NotImplemented { kind } => ResolveErrorView::NotImplemented {
                kind: *kind,
            },
        }
    }
}

/// What resolving `selector` against `index` gives.
///
/// An id resolves to the first entry that carries it, and fails as not found
/// where there is none. The newest release resolves to the entry named by the
/// index's release pointer; a pointer to an id that the index does not list is
/// an inconsistency of the index. The newest of any other channel is not
/// supported.
pub open spec fn resolution(index: VersionManifestView, selector: FetchView) -> Result<
    VersionView,
    ResolveErrorView,
> {
    match selector {
        FetchView::Version(id) => match index.lookup(id) {
            Some(v) => Ok(v),
            None => Err(ResolveErrorView::NotFound { id }),
        },
        FetchView::Latest(Type::Release) => match index.lookup(index.latest.release) {
            Some(v) => Ok(v),
            None => Err(ResolveErrorView::InvariantViolation { id: index.latest.release }),
        },
        FetchView::Latest(kind) => Err(ResolveErrorView::NotImplemented { kind }),
    }
}

/// The views of a result's two sides.
pub open spec fn resolved_view(r: Result<Version, ResolveError>) -> Result<
    VersionView,
    ResolveErrorView,
> {
    match r {
        Ok(v) => Ok(v@),
        Err(e) => Err(e@),
    }
}

impl Fetch {
    /// Resolves this selector against `index`.
    pub fn resolve(&self, index: &VersionManifest) -> (found: Result<Version, ResolveError>)
        ensures
            resolved_view(found) == resolution(index@, self@),
    {
        match self {
            Fetch::Version(id) => match index.version(id.as_str()) {
                Some(v) => Ok(v),
                None => Err(ResolveError::NotFound { id: id.clone() }),
            },
            Fetch::Latest(kind) => match kind {
                Type::Release => match index.version(index.latest.release.as_str()) {
                    Some(v) => Ok(v),
                    None => Err(
                        ResolveError::InvariantViolation { id: index.latest.release.clone() },
                    ),
                },
                _ => Err(ResolveError::NotImplemented { kind: *kind }),
            },
        }
    }
}

/// Resolving is a function of the index and the selector: two resolutions of
/// one selector against one index agree, in the entry found or in the error.
pub proof fn lemma_resolve_is_repeatable(
    index: VersionManifest,
    selector: Fetch,
    first: Result<Version, ResolveError>,
    second: Result<Version, ResolveError>,
)
    requires
        resolved_view(first) == resolution(index@, selector@),
        resolved_view(second) == resolution(index@, selector@),
    ensures
        resolved_view(first) == resolved_view(second),
        first is Ok <==> second is Ok,
{
}

/// An id that no entry carries is not found, and a newest-release pointer to
/// an id that no entry carries is reported as an inconsistent index.
pub proof fn lemma_resolve_missing(index: VersionManifestView, id: Seq<char>)
    requires
        forall|i: int| 0 <= i < index.versions.len() ==> (#[trigger] index.versions[i]).id != id,
    ensures
        resolution(index, FetchView::Version(id)) == Err::<VersionView, ResolveErrorView>(
            ResolveErrorView::NotFound { id },
        ),
        index.latest.release == id ==> resolution(index, FetchView::Latest(Type::Release)) == Err::<
            VersionView,
            ResolveErrorView,
        >(ResolveErrorView::InvariantViolation { id }),
{
    crate::manifest::lemma_position_from(index.versions, id, 0);
}

/// An id that some entry carries resolves to the first entry that carries it;
/// where ids are unique, to the only one.
pub proof fn lemma_resolve_present(index: VersionManifestView, i: int)
    requires
        0 <= i < index.versions.len(),
        index.well_formed(),
    ensures
        resolution(index, FetchView::Version(index.versions[i].id)) == Ok::<
            VersionView,
            ResolveErrorView,
        >(index.versions[i]),
{
    let id = index.versions[i].id;
    crate::manifest::lemma_position_from(index.versions, id, 0);
}

} // verus!
