//! The organization and name of a repository, read from its remote's URL.
//!
//! Two forms are recognized: an absolute URL whose path starts with the
//! organization and the name (`https://github.com/org/repo.git`), and the
//! `git@github.com:org/repo.git` form. A trailing `.git` is dropped from the
//! name.
use vstd::prelude::*;
use crate::text::{
    split_all, split_char, starts_with_at, strip_prefix_all, strip_prefix_all_of, strip_suffix_all,
    strip_suffix_all_of, trim_char, trim_end, trim_start,
};

verus! {

/// The path of `s` when the `url` crate reads it as an absolute URL.
pub uninterp spec fn url_path_of(s: Seq<char>) -> Option<Seq<char>>;

/// Relies on `url::Url::parse` and `Url::path`: the path of `s` when it is
/// an absolute URL, and `None` when it is not.
#[verifier::external_body]
fn url_path(s: &str) -> (r: Option<String>)
    ensures
        r is Some <==> url_path_of(s@) is Some,
        r is Some ==> r->0@ == url_path_of(s@)->0,
{
    match url::Url::parse(s) {
        Ok(u) => Some(u.path().to_string()),
        Err(_) => None,
    }
}

/// The prefix of a remote in the SSH form.
pub open spec fn ssh_prefix() -> Seq<char> {
    "git@github.com:"@
}

/// Organization and name from the first two of `segments`.
pub open spec fn owner_and_name(segments: Seq<Seq<char>>) -> Option<(Seq<char>, Seq<char>)> {
    if segments.len() >= 2 {
        Some((segments[0], strip_suffix_all(segments[1], ".git"@)))
    } else {
        None
    }
}

/// The organization and name that the remote URL `url` names, if any.
pub open spec fn github_info(url: Seq<char>) -> Option<(Seq<char>, Seq<char>)> {
    match url_path_of(url) {
        Some(path) => owner_and_name(split_all(trim_end(trim_start(path, '/'), '/'), '/')),
        None => if url.len() >= ssh_prefix().len() && url.take(ssh_prefix().len() as int) == ssh_prefix() {
            owner_and_name(split_all(strip_prefix_all(url, ssh_prefix()), '/'))
        } else {
            None
        },
    }
}

/// Why a remote's URL names no repository.
#[derive(Debug, PartialEq, Eq)]
pub enum RepoError {
    /// The URL is in neither recognized form, or has too few segments.
    UnrecognizedRemote,
}

/// Organization and name from the first two of `segments`.
fn pick_owner_and_name(segments: &Vec<String>) -> (r: Option<(String, String)>)
    ensures
        match r {
            Some(p) => owner_and_name(crate::text::views(segments@)) == Some((p.0@, p.1@)),
            None => owner_and_name(crate::text::views(segments@)) is None,
        },
{
    if segments.len() >= 2 {
        let name = strip_suffix_all_of(segments[1].as_str(), ".git");
        proof { reveal_strlit(".git"); }
        Some((segments[0].clone(), name.to_string()))
    } else {
        None
    }
}

/// The organization and name of the repository at the remote URL `url`.
pub fn extract_github_info(url: &str) -> (r: Result<(String, String), RepoError>)
    ensures
        match r {
            Ok(p) => github_info(url@) == Some((p.0@, p.1@)),
            Err(_) => github_info(url@) is None,
        },
{
    let picked = match url_path(url) {
        Some(path) => {
            let trimmed = trim_char(path.as_str(), '/');
            pick_owner_and_name(&split_char(trimmed, '/'))
        },
        None => {
            let prefix = "git@github.com:";
            let n: usize = url.unicode_len();
            let m: usize = prefix.unicode_len();
            if m <= n && starts_with_at(url, 0, prefix, m) {
                assert(url@.skip(0) =~= url@);
                let rest = strip_prefix_all_of(url, prefix);
                pick_owner_and_name(&split_char(rest, '/'))
            } else {
                assert(url@.skip(0) =~= url@);
                None
            }
        },
    };
    match picked {
        Some(p) => Ok(p),
        None => Err(RepoError::UnrecognizedRemote),
    }
}

} // verus!
