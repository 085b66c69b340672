use llmlog::diff::{get_commit_diff, render_diff, DiffLine};
use llmlog::filter::{default_ignore_patterns, DiffFilter};

fn line(path: Option<&str>, size: u64, text: &[u8]) -> DiffLine {
    DiffLine { path: path.map(|p| p.to_string()), new_size: size, content: text.to_vec() }
}

fn default_filter() -> DiffFilter {
    DiffFilter::new(".", &default_ignore_patterns()).unwrap_or_else(|_| panic!("refused"))
}

fn root_commit_lines() -> Vec<DiffLine> {
    vec![
        line(Some("main.txt"), 5, b"diff --git a/main.txt b/main.txt\n"),
        line(Some("main.txt"), 5, b"new file mode 100644\n"),
        line(Some("main.txt"), 5, b"@@ -0,0 +1 @@\n"),
        line(Some("main.txt"), 5, b"hello\n"),
        line(Some("package-lock.json"), 50, b"diff --git a/package-lock.json b/package-lock.json\n"),
        line(Some("package-lock.json"), 50, b"@@ -0,0 +1 @@\n"),
        line(Some("package-lock.json"), 50, b"{\"lockfileVersion\": 3}\n"),
    ]
}

#[test]
fn root_commit_keeps_main_txt_only() {
    let f = default_filter();
    let info = get_commit_diff(&f, "abc123".to_string(), "init".to_string(), &root_commit_lines());
    assert_eq!(info.id, "abc123");
    assert_eq!(info.message, "init");
    assert_eq!(
        info.diff,
        "diff --git a/main.txt b/main.txt\nnew file mode 100644\n@@ -0,0 +1 @@\nhello\n"
    );
    assert!(!info.diff.contains("package-lock"));
}

#[test]
fn large_binary_file_suppressed() {
    let f = default_filter();
    let size = 2 * 1024 * 1024;
    let lines = vec![
        line(Some("blob.bin"), size, b"diff --git a/blob.bin b/blob.bin\n"),
        line(Some("blob.bin"), size, b"Binary files a/blob.bin and b/blob.bin differ\n"),
    ];
    assert_eq!(render_diff(&f, &lines).len(), 0);
}

#[test]
fn invalid_utf8_lines_are_dropped() {
    let f = default_filter();
    let lines = vec![
        line(Some("a.txt"), 3, b"one\n"),
        line(Some("a.txt"), 3, &[0xff, 0xfe, b'\n']),
        line(None, 0, b"two\n"),
    ];
    assert_eq!(render_diff(&f, &lines), "one\ntwo\n");
}

#[test]
fn rendering_is_repeatable() {
    let f = default_filter();
    let lines = root_commit_lines();
    let a = render_diff(&f, &lines);
    let b = render_diff(&f, &lines);
    assert_eq!(a, b);
}

#[test]
fn empty_diff_renders_empty() {
    let f = default_filter();
    assert_eq!(render_diff(&f, &Vec::new()), "");
}
