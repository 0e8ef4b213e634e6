use vstd::prelude::*;

verus! {

/// A release tag as published on the hosting service.
pub type GithubRelease = String;

/// What to build from source: a branch head or a published release tag.
pub enum GitRef {
    Branch(String),
    Release(GithubRelease),
}

impl GitRef {
    /// The text form of the ref: the branch name or the release tag.
    pub open spec fn text_view(self) -> Seq<char> {
        match self {
            GitRef::Branch(b) => b@,
            GitRef::Release(r) => r@,
        }
    }

    /// Renders the ref the way it is shown to the user and used as a
    /// fallback install id.
    pub fn to_text(&self) -> (r: String)
        ensures
            r@ == self.text_view(),
    {
        match self {
            GitRef::Branch(b) => b.clone(),
            GitRef::Release(r) => r.clone(),
        }
    }
}

} // verus!
