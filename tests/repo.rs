use llmlog::repo::{extract_github_info, RepoError};
use llmlog::text::{split_char, strip_prefix_all_of, strip_suffix_all_of, trim_char};

fn info(url: &str) -> Result<(String, String), RepoError> {
    extract_github_info(url)
}

#[test]
fn https_remote() {
    assert_eq!(info("https://github.com/org/repo.git"), Ok(("org".to_string(), "repo".to_string())));
    assert_eq!(info("https://github.com/org/repo"), Ok(("org".to_string(), "repo".to_string())));
    assert_eq!(info("https://github.com/org/repo/"), Ok(("org".to_string(), "repo".to_string())));
}

#[test]
fn ssh_remote() {
    assert_eq!(info("git@github.com:org/repo.git"), Ok(("org".to_string(), "repo".to_string())));
}

#[test]
fn unrecognized_remote() {
    assert_eq!(info("https://github.com/org"), Err(RepoError::UnrecognizedRemote));
    assert_eq!(info("not a url"), Err(RepoError::UnrecognizedRemote));
    assert_eq!(info("git@github.com:repo"), Err(RepoError::UnrecognizedRemote));
}

#[test]
fn text_helpers() {
    assert_eq!(trim_char("//a/b//", '/'), "a/b");
    assert_eq!(trim_char("///", '/'), "");
    assert_eq!(split_char("a//b", '/'), vec!["a", "", "b"]);
    assert_eq!(split_char("", '/'), vec![""]);
    assert_eq!(strip_suffix_all_of("x.git.git", ".git"), "x");
    assert_eq!(strip_prefix_all_of("abab-c", "ab"), "-c");
}
