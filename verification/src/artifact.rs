//! Artifacts: the `(relative path, content)` pairs a composer emits.

use vstd::prelude::*;

verus! {

/// One file to be realized on disk, with a path relative to the project
/// root (forward-slash separated) and its full content.
#[derive(Clone, Debug)]
pub struct Artifact {
    pub path: String,
    pub content: String,
}

/// Mathematical view of an artifact: both components as character
/// sequences.
pub ghost struct ArtifactView {
    pub path: Seq<char>,
    pub content: Seq<char>,
}

impl View for Artifact {
    type V = ArtifactView;

    open spec fn view(&self) -> ArtifactView {
        ArtifactView { path: self.path@, content: self.content@ }
    }
}

/// The views of a sequence of artifacts.
pub open spec fn arts_views(s: Seq<Artifact>) -> Seq<ArtifactView> {
    Seq::new(s.len(), |i: int| s[i]@)
}

/// Shorthand for building an artifact view in specifications.
pub open spec fn art(path: Seq<char>, content: Seq<char>) -> ArtifactView {
    ArtifactView { path, content }
}

/// No two artifacts in the list target the same path.
pub open spec fn distinct_paths(arts: Seq<ArtifactView>) -> bool {
    forall|i: int, j: int|
        0 <= i < j < arts.len() ==> (#[trigger] arts[i].path) != (#[trigger] arts[j].path)
}

/// Some artifact in the list targets `path`.
pub open spec fn has_path(arts: Seq<ArtifactView>, path: Seq<char>) -> bool {
    exists|i: int| 0 <= i < arts.len() && (#[trigger] arts[i].path) == path
}

/// The content of the artifact at `path`, if one exists.
pub open spec fn content_at(arts: Seq<ArtifactView>, path: Seq<char>) -> Seq<char> {
    arts[choose|i: int| 0 <= i < arts.len() && (#[trigger] arts[i].path) == path].content
}

impl Artifact {
    /// Build an artifact from its two components.
    pub fn new(path: String, content: String) -> (r: Artifact)
        ensures
            r@ == art(path@, content@),
    {
        Artifact { path, content }
    }
}

} // verus!
