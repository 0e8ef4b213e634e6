use vstd::prelude::*;

verus! {

/// A repository on the release-hosting service, named by owner and project.
pub struct GithubRepo {
    pub org: String,
    pub repo: String,
}

/// The file name under which a release source tarball is saved:
/// the repository name followed by the tar+gzip suffix.
pub fn tarball_file_name(repo: &GithubRepo) -> (r: String)
    ensures
        r@ == repo.repo@ + ".tar.gz"@,
{
    let base: String = repo.repo.clone();
    base.concat(".tar.gz")
}

/// Whether `pattern` is a well-formed regular expression, as the regex
/// crate's parser decides; a fixed pattern parses the same way everywhere.
pub uninterp spec fn regex_pattern_ok(pattern: Seq<char>) -> bool;

/// Whether the regular expression `pattern` matches somewhere in `text`;
/// the result depends on the two strings alone.
pub uninterp spec fn regex_match(pattern: Seq<char>, text: Seq<char>) -> bool;

/// Relies on regex::Regex::new and regex::Regex::is_match: compiles
/// `pattern` and tests whether it matches anywhere in `text`. The result
/// is absent exactly when the pattern does not parse.
#[verifier::external_body]
fn pattern_matches(pattern: &str, text: &str) -> (r: Option<bool>)
    ensures
        r is Some <==> regex_pattern_ok(pattern@),
        r matches Some(b) ==> b == regex_match(pattern@, text@),
{
    match regex::Regex::new(pattern) {
        Ok(re) => Some(re.is_match(text)),
        Err(_) => None,
    }
}

/// Picks the release asset to download: the first name the caller's match
/// rule accepts. Nothing is picked when the rule is not a well-formed
/// pattern or no name matches.
pub fn find_matching_asset(pattern: &str, names: &Vec<String>) -> (r: Option<usize>)
    ensures
        match r {
            Some(i) => regex_pattern_ok(pattern@) && i < names@.len() && regex_match(
                pattern@,
                names@[i as int]@,
            ) && (forall|j: int| 0 <= j < i ==> !regex_match(pattern@, (#[trigger] names@[j])@)),
            None => !regex_pattern_ok(pattern@) || (forall|j: int|
                0 <= j < names@.len() ==> !regex_match(pattern@, (#[trigger] names@[j])@)),
        },
{
    let mut i: usize = 0;
    while i < names.len()
        invariant
            0 <= i <= names@.len(),
            forall|j: int| 0 <= j < i ==> !regex_match(pattern@, (#[trigger] names@[j])@),
        decreases names@.len() - i,
    {
        match pattern_matches(pattern, names[i].as_str()) {
            None => {
                return None;
            },
            Some(true) => {
                return Some(i);
            },
            Some(false) => {},
        }
        i = i + 1;
    }
    None
}

} // verus!
