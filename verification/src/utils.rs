use vstd::prelude::*;

use crate::error::Error;

verus! {

/// What the manager knows of a release directory on disk: absent, or
/// present with the names of its entries.
pub enum DirContents {
    Absent,
    Present(Vec<String>),
}

impl DirContents {
    /// The directory exists.
    pub open spec fn is_present(self) -> bool {
        self matches DirContents::Present(_)
    }

    /// The entries the directory holds; an absent directory holds none.
    pub open spec fn entries_view(self) -> Seq<String> {
        match self {
            DirContents::Absent => Seq::<String>::empty(),
            DirContents::Present(v) => v@,
        }
    }

    /// The directory exists and holds nothing.
    pub open spec fn is_empty_dir(self) -> bool {
        self matches DirContents::Present(v) && v@.len() == 0
    }
}

/// Decides whether an install may proceed against the release directory at
/// `path`: an existing directory is refused unless force is granted, with
/// the path carried in the failure. Nothing is touched either way.
pub fn check_release_dir(path: &str, dir: &DirContents, force: bool) -> (r: Result<(), Error>)
    ensures
        r is Ok <==> (!dir.is_present() || force),
        dir.is_present() && !force ==> (r matches Err(e) && (e matches
            Error::DirectoryAlreadyExists(p) && p@ == path@)),
{
    match dir {
        DirContents::Present(_) => {
            if force {
                Ok(())
            } else {
                Err(Error::DirectoryAlreadyExists(path.to_owned()))
            }
        },
        DirContents::Absent => Ok(()),
    }
}

/// Allocates the release directory at `path` that backs one install. An
/// existing directory is refused without force — and left exactly as it
/// was — and deleted and recreated with force; an absent one is created.
/// Allocation that succeeds always ends on an existing, empty directory.
pub fn maybe_create_release_dir(path: &str, dir: &mut DirContents, force: bool) -> (r: Result<
    (),
    Error,
>)
    ensures
        old(dir).is_present() && !force ==> (r matches Err(e) && (e matches
            Error::DirectoryAlreadyExists(p) && p@ == path@)) && *final(dir) == *old(dir),
        force || !old(dir).is_present() ==> r is Ok && final(dir).is_empty_dir(),
        r is Ok <==> (force || !old(dir).is_present()),
{
    let exists: bool = match dir {
        DirContents::Present(_) => true,
        DirContents::Absent => false,
    };
    if exists && !force {
        return Err(Error::DirectoryAlreadyExists(path.to_owned()));
    }
    let fresh: Vec<String> = Vec::new();
    *dir = DirContents::Present(fresh);
    Ok(())
}

} // verus!
