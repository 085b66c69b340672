//! Rendering a commit's diff from the lines that a diff engine emits.
//!
//! The diff engine walks the commit's tree against its parent's (an empty
//! tree for a root commit) and emits lines in file, hunk and line order.
//! Each line carries the path and new size of the file it belongs to; the
//! lines of excluded files are dropped, the others are decoded as UTF-8 and
//! appended in order, and lines that are not valid UTF-8 are skipped.
use vstd::prelude::*;
use vstd::utf8::{decode_utf8, valid_utf8};
use crate::filter::{includes, DiffFilter};

verus! {

/// One line emitted by the diff engine.
#[derive(Debug)]
pub struct DiffLine {
    /// The new path of the file the line belongs to, when it has one.
    pub path: Option<String>,
    /// The size in bytes of the file's new version.
    pub new_size: u64,
    /// The raw bytes of the line, its newline included.
    pub content: Vec<u8>,
}

/// A commit ready to be summarized.
#[derive(Debug)]
pub struct CommitInfo {
    /// The commit's identifier, in hex.
    pub id: String,
    /// The commit message.
    pub message: String,
    /// The rendered, filtered diff.
    pub diff: String,
}

/// Relies on `std::str::from_utf8`: the bytes are decoded exactly when they
/// are valid UTF-8.
#[verifier::external_body]
fn utf8_text(b: &[u8]) -> (r: Option<&str>)
    ensures
        r is Some <==> valid_utf8(b@),
        r is Some ==> r->0@ == decode_utf8(b@),
{
    std::str::from_utf8(b).ok()
}

/// Whether a line is kept: a line without a file path always is, a line of
/// a file only when the filter includes that file.
pub open spec fn line_kept(root: Seq<char>, rules: Seq<Seq<char>>, l: DiffLine) -> bool {
    match l.path {
        Some(p) => includes(root, rules, p@, l.new_size),
        None => true,
    }
}

/// The text a kept line contributes: its decoded bytes, or nothing when
/// they are not valid UTF-8.
pub open spec fn line_text(content: Seq<u8>) -> Seq<char> {
    if valid_utf8(content) {
        decode_utf8(content)
    } else {
        seq![]
    }
}

/// The lines that the filter keeps, in order.
pub open spec fn kept_lines(root: Seq<char>, rules: Seq<Seq<char>>, lines: Seq<DiffLine>) -> Seq<DiffLine> {
    lines.filter(|l: DiffLine| line_kept(root, rules, l))
}

/// The text of a sequence of lines, in order.
pub open spec fn lines_text(lines: Seq<DiffLine>) -> Seq<char>
    decreases lines.len(),
{
    if lines.len() == 0 {
        seq![]
    } else {
        lines_text(lines.drop_last()) + line_text(lines.last().content@)
    }
}

/// The rendered diff: the text of the kept lines, in order.
pub open spec fn rendered(root: Seq<char>, rules: Seq<Seq<char>>, lines: Seq<DiffLine>) -> Seq<char> {
    lines_text(kept_lines(root, rules, lines))
}

/// Renders the diff text of `lines` under `filter`.
pub fn render_diff(filter: &DiffFilter, lines: &Vec<DiffLine>) -> (r: String)
    ensures
        r@ == rendered(filter.root(), filter.rules(), lines@),
{
    let ghost root = filter.root();
    let ghost rules = filter.rules();
    let mut out = String::new();
    for i in 0..lines.len()
        invariant
            root == filter.root(),
            rules == filter.rules(),
            out@ == rendered(root, rules, lines@.take(i as int)),
    {
        let line = &lines[i];
        assert(*line == lines@[i as int]);
        let keep = match &line.path {
            Some(p) => {
                let b = filter.should_include_file(p.as_str(), line.new_size);
                assert(line.path == Some(*p));
                b
            },
            None => true,
        };
        proof {
            assert(lines@.take(i + 1).drop_last() =~= lines@.take(i as int));
            lemma_kept_push(root, rules, lines@.take(i as int), lines@[i as int]);
            assert(lines@.take(i + 1) =~= lines@.take(i as int).push(lines@[i as int]));
        }
        let ghost k = kept_lines(root, rules, lines@.take(i as int));
        assert(keep == line_kept(root, rules, lines@[i as int]));
        if keep {
            assert(k.push(lines@[i as int]).drop_last() =~= k);
            if let Some(t) = utf8_text(line.content.as_slice()) {
                out.append(t);
            }
        }
    }
    assert(lines@.take(lines@.len() as int) =~= lines@);
    out
}

/// Builds the commit to summarize: its identifier and message, and the
/// diff rendered from the engine's `lines` under `filter`.
pub fn get_commit_diff(filter: &DiffFilter, id: String, message: String, lines: &Vec<DiffLine>) -> (r: CommitInfo)
    ensures
        r.id == id,
        r.message == message,
        r.diff@ == rendered(filter.root(), filter.rules(), lines@),
{
    let diff = render_diff(filter, lines);
    CommitInfo { id, message, diff }
}

/// Keeping the lines of `s.push(l)` keeps those of `s`, then `l` if kept.
proof fn lemma_kept_push(root: Seq<char>, rules: Seq<Seq<char>>, s: Seq<DiffLine>, l: DiffLine)
    ensures
        kept_lines(root, rules, s.push(l)) == if line_kept(root, rules, l) {
            kept_lines(root, rules, s).push(l)
        } else {
            kept_lines(root, rules, s)
        },
{
    let f = |x: DiffLine| line_kept(root, rules, x);
    assert(s.push(l).drop_last() =~= s);
    s.lemma_filter_push(l, f);
}

/// Filtering is idempotent: rendering the lines that a filter kept, under
/// the same rules, gives the same text, so extracting a commit twice with
/// the same rules yields identical diff text.
pub proof fn lemma_render_idempotent(root: Seq<char>, rules: Seq<Seq<char>>, lines: Seq<DiffLine>)
    ensures
        kept_lines(root, rules, kept_lines(root, rules, lines)) == kept_lines(root, rules, lines),
        rendered(root, rules, kept_lines(root, rules, lines)) == rendered(root, rules, lines),
    decreases lines.len(),
{
    if lines.len() > 0 {
        let init = lines.drop_last();
        let l = lines.last();
        assert(init.push(l) =~= lines);
        lemma_render_idempotent(root, rules, init);
        lemma_kept_push(root, rules, init, l);
        if line_kept(root, rules, l) {
            lemma_kept_push(root, rules, kept_lines(root, rules, init), l);
        }
    } else {
        assert(kept_lines(root, rules, lines) =~= lines);
    }
}

} // verus!
