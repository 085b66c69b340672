use llmlog::filter::{collect_rule_lines, default_ignore_patterns, DiffFilter, FilterError, MAX_FILE_SIZE};
use llmlog::text::split_lines;

fn default_filter() -> DiffFilter {
    let rules = default_ignore_patterns();
    match DiffFilter::new(".", &rules) {
        Ok(f) => f,
        Err(e) => panic!("default rules refused: {:?}", e),
    }
}

#[test]
fn default_patterns_table() {
    let d = default_ignore_patterns();
    assert_eq!(d.len(), 24);
    assert_eq!(d[0], "package-lock.json");
    assert_eq!(d[2], "Cargo.lock");
    assert_eq!(d[23], "*.pdf");
}

#[test]
fn split_lines_cases() {
    assert_eq!(split_lines(""), Vec::<String>::new());
    assert_eq!(split_lines("a\nb"), vec!["a".to_string(), "b".to_string()]);
    assert_eq!(split_lines("a\n\nb\n"), vec!["a".to_string(), "".to_string(), "b".to_string()]);
    assert_eq!(split_lines("\n"), vec!["".to_string()]);
}

#[test]
fn rule_lines_keep_source_order() {
    let defaults = vec!["*.png".to_string()];
    let extra = vec!["*.tmp".to_string()];
    let r = collect_rule_lines(&defaults, Some("out/\n# note\n"), None, &extra);
    assert_eq!(r, vec!["*.png", "out/", "# note", "*.tmp"]);
    let r = collect_rule_lines(&defaults, None, Some("!keep.png"), &extra);
    assert_eq!(r, vec!["*.png", "!keep.png", "*.tmp"]);
}

#[test]
fn builtin_patterns_exclude() {
    let f = default_filter();
    assert!(!f.should_include_file("Cargo.lock", 10));
    assert!(!f.should_include_file("package-lock.json", 50));
    assert!(!f.should_include_file("assets/logo.png", 10));
    assert!(!f.should_include_file("dist/app.js", 10));
    assert!(!f.should_include_file("web/app.min.js", 10));
    assert!(!f.should_include_file("data/dump.sql", 10));
    assert!(f.should_include_file("main.txt", 5));
    assert!(f.should_include_file("src/main.rs", 100));
}

#[test]
fn oversized_file_excluded_whatever_the_rules() {
    let f = default_filter();
    assert!(f.should_include_file("src/main.rs", MAX_FILE_SIZE));
    assert!(!f.should_include_file("src/main.rs", MAX_FILE_SIZE + 1));
    assert!(!f.should_include_file("big.bin", 2 * 1024 * 1024));
    let rules = vec!["!*".to_string()];
    let g = DiffFilter::new(".", &rules).unwrap_or_else(|_| panic!("refused"));
    assert!(!g.should_include_file("big.bin", 2 * 1024 * 1024));
}

#[test]
fn later_negation_reincludes() {
    let defaults = default_ignore_patterns();
    let rules = collect_rule_lines(&defaults, None, Some("!keep.png\n"), &Vec::new());
    let f = DiffFilter::new(".", &rules).unwrap_or_else(|_| panic!("refused"));
    assert!(f.should_include_file("keep.png", 10));
    assert!(!f.should_include_file("other.png", 10));
}

#[test]
fn gitignore_text_applies() {
    let defaults = default_ignore_patterns();
    let rules = collect_rule_lines(&defaults, Some("secret.txt\n"), None, &vec!["*.log".to_string()]);
    let f = DiffFilter::new(".", &rules).unwrap_or_else(|_| panic!("refused"));
    assert!(!f.should_include_file("secret.txt", 1));
    assert!(!f.should_include_file("logs/run.log", 1));
    assert!(f.should_include_file("notes.txt", 1));
}

#[test]
fn invalid_pattern_is_reported() {
    let rules = vec!["*.png".to_string(), "src/{a".to_string(), "x{".to_string()];
    match DiffFilter::new(".", &rules) {
        Err(e) => assert_eq!(e, FilterError::InvalidPattern("src/{a".to_string())),
        Ok(_) => panic!("an unclosed alternation was accepted"),
    }
}

#[test]
fn ignore_file_bom_and_crlf() {
    let r = collect_rule_lines(&Vec::new(), Some("\u{feff}*.log\r\nbuild/\r\n"), None, &Vec::new());
    assert_eq!(r, vec!["*.log", "build/"]);
    let f = DiffFilter::new(".", &r).unwrap_or_else(|_| panic!("refused"));
    assert!(!f.should_include_file("run.log", 1));
}

#[test]
fn comments_blank_lines_and_trailing_space() {
    let rules = vec!["# a comment".to_string(), "".to_string(), "*.tmp   ".to_string()];
    let f = DiffFilter::new(".", &rules).unwrap_or_else(|_| panic!("refused"));
    assert!(!f.should_include_file("x.tmp", 1));
    assert!(f.should_include_file("x.txt", 1));
}

#[test]
fn no_ignore_files_builds() {
    let rules = collect_rule_lines(&default_ignore_patterns(), None, None, &Vec::new());
    assert_eq!(rules, default_ignore_patterns());
    assert!(DiffFilter::new(".", &rules).is_ok());
}

#[test]
fn dot_slash_root_matches_like_plain_root() {
    let rules = default_ignore_patterns();
    let a = DiffFilter::new("./repo", &rules).unwrap_or_else(|_| panic!("refused"));
    let b = DiffFilter::new("repo", &rules).unwrap_or_else(|_| panic!("refused"));
    for p in ["repo/Cargo.lock", "Cargo.lock", "repo/src/main.rs", "dist/x.js"] {
        assert_eq!(a.should_include_file(p, 1), b.should_include_file(p, 1));
    }
    assert!(!a.should_include_file("repo/Cargo.lock", 1));
}
