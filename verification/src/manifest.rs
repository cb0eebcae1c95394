use vstd::prelude::*;
use crate::digest::is_sha1_text;
use crate::hex::is_lower_hex_text;

verus! {

/// Where the index of all published versions is served.
pub const VERSION_MANIFEST_URL: &'static str =
    "https://piston-meta.mojang.com/mc/game/version_manifest_v2.json";

/// The newest version id of each channel.
#[derive(Debug, PartialEq, Eq)]
pub struct Latest {
    pub release: String,
    pub snapshot: String,
}

/// The mathematical content of a [`Latest`].
pub struct LatestView {
    pub release: Seq<char>,
    pub snapshot: Seq<char>,
}

impl View for Latest {
    type V = LatestView;

    open spec fn view(&self) -> LatestView {
        LatestView { release: self.release@, snapshot: self.snapshot@ }
    }
}

impl Clone for Latest {
    fn clone(&self) -> (copy: Self)
        ensures
            copy == *self,
    {
        Latest { release: self.release.clone(), snapshot: self.snapshot.clone() }
    }
}

/// The release track that a version belongs to.
#[derive(Debug, PartialEq, Eq, Clone, Copy, Structural)]
pub enum Type {
    Release,
    Snapshot,
    OldBeta,
    OldAlpha,
}

/// An instant, as whole seconds since the Unix epoch and the nanoseconds
/// within that second.
#[derive(Debug, PartialEq, Eq, Clone, Copy, Structural)]
pub struct Timestamp {
    pub second: i64,
    pub nanosecond: i32,
}

/// One entry of the version index.
#[derive(Debug, PartialEq, Eq)]
pub struct Version {
    pub id: String,
    pub kind: Type,
    pub url: String,
    pub time: Timestamp,
    pub release_time: Timestamp,
    pub sha1: String,
    pub compliance_level: u8,
}

/// The mathematical content of a [`Version`].
pub struct VersionView {
    pub id: Seq<char>,
    pub kind: Type,
    pub url: Seq<char>,
    pub time: Timestamp,
    pub release_time: Timestamp,
    pub sha1: Seq<char>,
    pub compliance_level: u8,
}

impl View for Version {
    type V = VersionView;

    open spec fn view(&self) -> VersionView {
        VersionView {
            id: self.id@,
            kind: self.kind,
            url: self.url@,
            time: self.time,
            release_time: self.release_time,
            sha1: self.sha1@,
            compliance_level: self.compliance_level,
        }
    }
}

impl Clone for Version {
    fn clone(&self) -> (copy: Self)
        ensures
            copy == *self,
    {
        Version {
            id: self.id.clone(),
            kind: self.kind,
            url: self.url.clone(),
            time: self.time,
            release_time: self.release_time,
            sha1: self.sha1.clone(),
            compliance_level: self.compliance_level,
        }
    }
}

/// The index of all published versions, with the newest id of each channel.
#[derive(Debug, PartialEq, Eq)]
pub struct VersionManifest {
    pub latest: Latest,
    pub versions: Vec<Version>,
}

/// The mathematical content of a [`VersionManifest`].
pub struct VersionManifestView {
    pub latest: LatestView,
    pub versions: Seq<VersionView>,
}

impl View for VersionManifest {
    type V = VersionManifestView;

    open spec fn view(&self) -> VersionManifestView {
        VersionManifestView {
            latest: self.latest@,
            versions: Seq::new(self.versions@.len(), |i: int| self.versions@[i]@),
        }
    }
}

/// The position of the first entry at or after `from` whose id is `id`, if
/// there is one.
pub open spec fn position_from(versions: Seq<VersionView>, id: Seq<char>, from: int) -> Option<int>
    decreases versions.len() - from,
{
    if from < 0 || from >= versions.len() {
        None
    } else if versions[from].id == id {
        Some(from)
    } else {
        position_from(versions, id, from + 1)
    }
}

/// Whether no two entries share an id.
pub open spec fn ids_unique(versions: Seq<VersionView>) -> bool {
    forall|i: int, j: int|
        0 <= i < j < versions.len() ==> (#[trigger] versions[i]).id != (#[trigger] versions[j]).id
}

impl VersionManifestView {
    /// The position of the first entry whose id is `id`.
    pub open spec fn position(self, id: Seq<char>) -> Option<int> {
        position_from(self.versions, id, 0)
    }

    /// The first entry whose id is `id`.
    pub open spec fn lookup(self, id: Seq<char>) -> Option<VersionView> {
        match self.position(id) {
            Some(i) => Some(self.versions[i]),
            None => None,
        }
    }

    /// Whether the index is consistent: every id occurs once.
    pub open spec fn well_formed(self) -> bool {
        ids_unique(self.versions)
    }
}

/// What a search from `from` finds: the first matching position, or that no
/// entry from there on has the id.
pub proof fn lemma_position_from(versions: Seq<VersionView>, id: Seq<char>, from: int)
    requires
        0 <= from,
    ensures
        match position_from(versions, id, from) {
            Some(i) => from <= i < versions.len() && versions[i].id == id && forall|j: int|
                from <= j < i ==> (#[trigger] versions[j]).id != id,
            None => forall|j: int| from <= j < versions.len() ==> (#[trigger] versions[j]).id != id,
        },
    decreases versions.len() - from,
{
    if from < versions.len() && versions[from].id != id {
        lemma_position_from(versions, id, from + 1);
    }
}

impl VersionManifest {
    /// The first entry whose id is `version`, if the index has one.
    pub fn version(&self, version: &str) -> (found: Option<Version>)
        ensures
            found.is_some() == self@.lookup(version@).is_some(),
            found matches Some(v) ==> v@ == self@.lookup(version@).unwrap() && v == self.versions@[
                self@.position(version@).unwrap()],
            found.is_some() <==> exists|i: int|
                0 <= i < self.versions@.len() && (#[trigger] self.versions@[i]).id@ == version@,
    {
        let wanted = version.to_owned();
        let mut i: usize = 0;
        while i < self.versions.len()
            invariant
                i <= self.versions.len(),
                wanted@ == version@,
                position_from(self@.versions, version@, 0) == position_from(
                    self@.versions,
                    version@,
                    i as int,
                ),
                forall|j: int| 0 <= j < i ==> (#[trigger] self.versions@[j]).id@ != version@,
            decreases self.versions.len() - i,
        {
            assert(self@.versions[i as int] == self.versions@[i as int]@);
            if self.versions[i].id.eq(&wanted) {
                let v = self.versions[i].clone();
                assert(self.versions@[i as int].id@ == version@);
                return Some(v);
            }
            i += 1;
        }
        None
    }

    /// Whether every id occurs once.
    pub fn has_unique_ids(&self) -> (unique: bool)
        ensures
            unique == self@.well_formed(),
    {
        let mut i: usize = 0;
        while i < self.versions.len()
            invariant
                i <= self.versions.len(),
                forall|a: int, b: int|
                    0 <= a < b < self.versions@.len() && a < i ==> (#[trigger] self@.versions[a]).id
                        != (#[trigger] self@.versions[b]).id,
            decreases self.versions.len() - i,
        {
            let mut j: usize = i + 1;
            while j < self.versions.len()
                invariant
                    i < j <= self.versions.len(),
                    forall|b: int|
                        i < b < j ==> self@.versions[i as int].id != (#[trigger] self@.versions[b]).id,
                decreases self.versions.len() - j,
            {
                if self.versions[i].id.eq(&self.versions[j].id) {
                    assert(self@.versions[i as int].id == self@.versions[j as int].id);
                    return false;
                }
                j += 1;
            }
            i += 1;
        }
        true
    }
}

/// Where to get an artifact, and what it must hash to.
#[derive(Debug, PartialEq, Eq)]
pub struct Download {
    pub sha1: String,
    pub size: u64,
    pub url: String,
}

/// The mathematical content of a [`Download`].
pub struct DownloadView {
    pub sha1: Seq<char>,
    pub size: u64,
    pub url: Seq<char>,
}

impl View for Download {
    type V = DownloadView;

    open spec fn view(&self) -> DownloadView {
        DownloadView { sha1: self.sha1@, size: self.size, url: self.url@ }
    }
}

impl DownloadView {
    /// Whether the expected digest has the form of a SHA-1 digest in text.
    pub open spec fn well_formed(self) -> bool {
        is_sha1_text(self.sha1)
    }
}

impl Download {
    /// Whether the expected digest is forty lowercase hexadecimal digits.
    pub fn has_valid_digest(&self) -> (valid: bool)
        ensures
            valid == self@.well_formed(),
    {
        self.sha1.as_str().unicode_len() == 40 && is_lower_hex_text(self.sha1.as_str())
    }
}

impl Clone for Download {
    fn clone(&self) -> (copy: Self)
        ensures
            copy == *self,
    {
        Download { sha1: self.sha1.clone(), size: self.size, url: self.url.clone() }
    }
}

/// The artifacts of one version.
#[derive(Debug, PartialEq, Eq)]
pub struct Downloads {
    pub server: Download,
}

impl Clone for Downloads {
    fn clone(&self) -> (copy: Self)
        ensures
            copy == *self,
    {
        Downloads { server: self.server.clone() }
    }
}

/// What the per-version resource says of a version.
#[derive(Debug, PartialEq, Eq)]
pub struct VersionMetadata {
    pub downloads: Downloads,
}

impl Clone for VersionMetadata {
    fn clone(&self) -> (copy: Self)
        ensures
            copy == *self,
    {
        VersionMetadata { downloads: self.downloads.clone() }
    }
}

} // verus!
