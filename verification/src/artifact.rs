//! Where a release is kept on disk: the data directory, and the file name
//! that a download URL gives its artifact.

use crate::metadata::{VersionMetadata, VersionMetadataView};
use crate::platform::Platform;
use vstd::prelude::*;
use vstd::string::*;

verus! {

/// The name of the data directory below the user's home.
pub const DATA_DIRECTORY_NAME: &'static str = "lilith";

/// The position just behind the last `/` of `url`, 0 where it holds none.
pub open spec fn segment_start(url: Seq<char>) -> int
    decreases url.len(),
{
    if url.len() == 0 {
        0
    } else if url.last() == '/' {
        url.len() as int
    } else {
        segment_start(url.drop_last())
    }
}

/// The final `/`-delimited segment of `url`: what follows its last `/`, or
/// all of it where it holds none.
pub open spec fn final_segment(url: Seq<char>) -> Seq<char> {
    url.subrange(segment_start(url), url.len() as int)
}

/// `segment` ends `url`, holds no `/`, and is preceded by a `/` unless it
/// is all of `url`.
pub open spec fn is_final_segment(url: Seq<char>, segment: Seq<char>) -> bool {
    &&& segment.len() <= url.len()
    &&& segment == url.subrange(url.len() - segment.len(), url.len() as int)
    &&& forall|i: int| 0 <= i < segment.len() ==> segment[i] != '/'
    &&& (segment.len() == url.len() || url[url.len() - segment.len() - 1] == '/')
}

/// The segment start lies within `url`, no `/` follows it, and a `/`
/// stands right before it unless it is 0.
pub proof fn lemma_segment_start_bounds(url: Seq<char>)
    ensures
        0 <= segment_start(url) <= url.len(),
        forall|i: int| segment_start(url) <= i < url.len() ==> url[i] != '/',
        segment_start(url) == 0 || url[segment_start(url) - 1] == '/',
    decreases url.len(),
{
    if url.len() > 0 && url.last() != '/' {
        let shorter = url.drop_last();
        lemma_segment_start_bounds(shorter);
        assert forall|i: int| segment_start(url) <= i < url.len() implies url[i] != '/' by {
            if i < shorter.len() {
                assert(url[i] == shorter[i]);
            }
        }
        if segment_start(url) != 0 {
            assert(url[segment_start(url) - 1] == shorter[segment_start(shorter) - 1]);
        }
    }
}

/// `final_segment` is a final segment, and the only one.
pub proof fn lemma_final_segment_unique(url: Seq<char>, segment: Seq<char>)
    ensures
        is_final_segment(url, final_segment(url)),
        is_final_segment(url, segment) ==> segment == final_segment(url),
{
    lemma_segment_start_bounds(url);
    let start = segment_start(url);
    if is_final_segment(url, segment) {
        let other = url.len() - segment.len();
        if other < start {
            assert(segment[start - 1 - other] == url[start - 1]);
        } else if other > start {
            assert(url[other - 1] == '/');
        }
        assert(segment =~= final_segment(url));
    }
}

/// The file name under which the artifact behind `url` is kept.
pub fn file_name_of_url(url: &str) -> (name: String)
    ensures
        name@ == final_segment(url@),
{
    let length = url.unicode_len();
    let mut start: usize = 0;
    let mut seen: usize = 0;
    for c in it: url.chars()
        invariant
            it.seq() == url@,
            length == url@.len(),
            seen == it.index(),
            seen <= length,
            start == segment_start(url@.take(seen as int)),
    {
        proof {
            let longer = url@.take(seen + 1);
            assert(longer.drop_last() == url@.take(seen as int));
            assert(longer.last() == c);
        }
        seen = seen + 1;
        if c == '/' {
            start = seen;
        }
    }
    proof {
        assert(url@.take(length as int) == url@);
        lemma_segment_start_bounds(url@);
    }
    url.substring_char(start, length).to_owned()
}

/// The place of an artifact: the data directory and, in it, a file name.
#[derive(Clone, Debug, PartialEq, Eq)]
pub struct ArtifactPath {
    pub directory: String,
    pub file_name: String,
}

/// An artifact's place as contracts see it.
pub struct ArtifactPathView {
    pub directory: Seq<char>,
    pub file_name: Seq<char>,
}

impl View for ArtifactPath {
    type V = ArtifactPathView;

    open spec fn view(&self) -> ArtifactPathView {
        ArtifactPathView { directory: self.directory@, file_name: self.file_name@ }
    }
}

/// The path that the release `metadata` has for `platform` in `directory`.
pub open spec fn resolved_path(
    directory: Seq<char>,
    metadata: VersionMetadataView,
    platform: Platform,
) -> ArtifactPathView {
    ArtifactPathView {
        directory,
        file_name: final_segment(metadata.download.for_platform(platform)),
    }
}

/// The per-user data directory that owns every downloaded artifact.
#[derive(Clone, Debug, PartialEq, Eq)]
pub struct ArtifactStore {
    pub data_dir: String,
}

impl View for ArtifactStore {
    type V = Seq<char>;

    open spec fn view(&self) -> Seq<char> {
        self.data_dir@
    }
}

impl ArtifactStore {
    /// The store over the data directory at `data_dir`.
    pub fn new(data_dir: String) -> (store: ArtifactStore)
        ensures
            store@ == data_dir@,
    {
        ArtifactStore { data_dir }
    }

    /// Derives the artifact's path from the release and the platform: the
    /// data directory, and the final segment of the platform's download URL.
    pub fn resolve_path(&self, metadata: &VersionMetadata, platform: Platform) -> (path:
        ArtifactPath)
        ensures
            path@ == resolved_path(self@, metadata@, platform),
    {
        ArtifactPath {
            directory: self.data_dir.clone(),
            file_name: file_name_of_url(metadata.download_url(platform).as_str()),
        }
    }
}

/// Two paths resolved from the same directory, release and platform are the
/// same path, and its file name is the final segment of the platform's URL.
pub proof fn lemma_resolve_path_deterministic(
    directory: Seq<char>,
    metadata: VersionMetadataView,
    platform: Platform,
    first: ArtifactPathView,
    second: ArtifactPathView,
)
    requires
        first == resolved_path(directory, metadata, platform),
        second == resolved_path(directory, metadata, platform),
    ensures
        first == second,
        first.directory == directory,
        is_final_segment(metadata.download.for_platform(platform), first.file_name),
{
    lemma_final_segment_unique(metadata.download.for_platform(platform), first.file_name);
}

/// Within one directory, two releases share a path exactly when the final
/// segments of their URLs agree: a release whose URL keeps its last segment
/// cannot be told from the one already present.
pub proof fn lemma_path_follows_segment(
    directory: Seq<char>,
    old_release: VersionMetadataView,
    new_release: VersionMetadataView,
    platform: Platform,
)
    ensures
        resolved_path(directory, old_release, platform) == resolved_path(
            directory,
            new_release,
            platform,
        ) <==> final_segment(old_release.download.for_platform(platform)) == final_segment(
            new_release.download.for_platform(platform),
        ),
{
}

} // verus!
