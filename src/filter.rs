//! The exclusion filter: which files' changes appear in a rendered diff.
//!
//! A filter holds the ignore rules of one run (built-in patterns, the
//! repository's ignore files and extra patterns, in that order) compiled by
//! the `ignore` crate, and a fixed ceiling on a file's new size.
use vstd::prelude::*;
use ignore::gitignore::{Gitignore, GitignoreBuilder};
use crate::text::{drop_cr, drop_cr_of, split_lines, text_lines, trim_start, trim_start_char, views};

verus! {

#[verifier::external_type_specification]
#[verifier::external_body]
pub struct ExGitignore(Gitignore);

#[verifier::external_type_specification]
#[verifier::external_body]
pub struct ExGitignoreBuilder(GitignoreBuilder);

#[verifier::external_type_specification]
#[verifier::external_body]
pub struct ExIgnoreError(ignore::Error);

/// The root a builder matches paths relative to: the path it was created
/// with, without a leading `./` (see `ignore_root`).
pub uninterp spec fn builder_root(b: GitignoreBuilder) -> Seq<char>;

/// The globs a builder holds, in order: the text of each pattern line it
/// took, as `rule_glob` gives it.
pub uninterp spec fn builder_lines(b: GitignoreBuilder) -> Seq<Seq<char>>;

/// The root a compiled matcher matches paths relative to.
pub uninterp spec fn matcher_root(g: Gitignore) -> Seq<char>;

/// The globs a compiled matcher was built from, in order.
pub uninterp spec fn matcher_lines(g: Gitignore) -> Seq<Seq<char>>;

/// Whether the `ignore` crate accepts `line` as a line of an ignore file.
pub uninterp spec fn line_compiles(line: Seq<char>) -> bool;

/// Whether the globs `globs` can be compiled together into one matcher.
pub uninterp spec fn matcher_builds(globs: Seq<Seq<char>>) -> bool;

/// Whether the globs `lines`, rooted at the path `root`, ignore the file
/// `path` (standard ignore semantics: the last matching glob wins, and a
/// negated glob re-includes a file).
pub uninterp spec fn gitignore_ignores(root: Seq<char>, lines: Seq<Seq<char>>, path: Seq<char>) -> bool;

/// Whether `c` is white space (Unicode `White_Space`, as `char::is_whitespace`).
pub open spec fn is_white(c: char) -> bool {
    let u = c as u32;
    (0x9 <= u <= 0xd) || u == 0x20 || u == 0x85 || u == 0xa0 || u == 0x1680 || (0x2000 <= u <= 0x200a)
        || u == 0x2028 || u == 0x2029 || u == 0x202f || u == 0x205f || u == 0x3000
}

/// `s` without trailing white space.
pub open spec fn trim_white_end(s: Seq<char>) -> Seq<char>
    decreases s.len(),
{
    if s.len() > 0 && is_white(s.last()) {
        trim_white_end(s.drop_last())
    } else {
        s
    }
}

/// The glob that an ignore-file line contributes: none for a comment
/// (starting with `#`) or a blank line; otherwise the line without its
/// trailing white space, unless it ends in an escaped space (`\ `).
pub open spec fn rule_glob(line: Seq<char>) -> Option<Seq<char>> {
    if line.len() > 0 && line[0] == '#' {
        None
    } else {
        let n = line.len();
        let t = if n >= 2 && line[n - 2] == '\\' && line[n - 1] == ' ' {
            line
        } else {
            trim_white_end(line)
        };
        if t.len() == 0 {
            None
        } else {
            Some(t)
        }
    }
}

/// `globs` after a builder takes `line`.
pub open spec fn push_glob(globs: Seq<Seq<char>>, line: Seq<char>) -> Seq<Seq<char>> {
    match rule_glob(line) {
        Some(g) => globs.push(g),
        None => globs,
    }
}

/// The globs that the ignore-file lines `lines` contribute, in order.
pub open spec fn globs_of(lines: Seq<Seq<char>>) -> Seq<Seq<char>>
    decreases lines.len(),
{
    if lines.len() == 0 {
        seq![]
    } else {
        push_glob(globs_of(lines.drop_last()), lines.last())
    }
}

/// The root that `GitignoreBuilder::new` keeps for the path `p`: `p`
/// without one leading `./`.
pub open spec fn ignore_root(p: Seq<char>) -> Seq<char> {
    if p.len() >= 2 && p[0] == '.' && p[1] == '/' {
        p.skip(2)
    } else {
        p
    }
}

/// Relies on `GitignoreBuilder::new`: an empty builder rooted at `root`
/// without one leading `./`.
#[verifier::external_body]
fn builder_new(root: &str) -> (r: GitignoreBuilder)
    ensures
        builder_root(r) == ignore_root(root@),
        builder_lines(r) == Seq::<Seq<char>>::empty(),
{
    GitignoreBuilder::new(std::path::Path::new(root))
}

/// Relies on `GitignoreBuilder::add_line`: a comment or blank line is
/// accepted and adds nothing; a pattern line is added, trimmed, when its
/// glob compiles; on an error the builder is left as it was.
#[verifier::external_body]
fn builder_add_line(b: &mut GitignoreBuilder, line: &str) -> (r: Result<(), ignore::Error>)
    ensures
        r is Ok <==> line_compiles(line@),
        rule_glob(line@) is None ==> r is Ok,
        r is Ok ==> builder_lines(*final(b)) == push_glob(builder_lines(*old(b)), line@),
        r is Err ==> builder_lines(*final(b)) == builder_lines(*old(b)),
        builder_root(*final(b)) == builder_root(*old(b)),
{
    match b.add_line(None, line) {
        Ok(_) => Ok(()),
        Err(e) => Err(e),
    }
}

/// Relies on `GitignoreBuilder::build`: it succeeds exactly when the globs
/// compile together, and the matcher keeps the builder's root and globs.
#[verifier::external_body]
fn builder_build(b: &GitignoreBuilder) -> (r: Result<Gitignore, ignore::Error>)
    ensures
        r is Ok <==> matcher_builds(builder_lines(*b)),
        r is Ok ==> matcher_root(r->Ok_0) == builder_root(*b),
        r is Ok ==> matcher_lines(r->Ok_0) == builder_lines(*b),
{
    b.build()
}

/// Relies on `Gitignore::matched` and `Match::is_ignore`, for a path that
/// names a file (not a directory).
#[verifier::external_body]
fn matcher_ignores(g: &Gitignore, path: &str) -> (r: bool)
    ensures
        r == gitignore_ignores(matcher_root(*g), matcher_lines(*g), path@),
{
    g.matched(std::path::Path::new(path), false).is_ignore()
}

/// Files whose new version is larger than this many bytes are left out of
/// a diff, whatever the ignore rules say.
pub const MAX_FILE_SIZE: u64 = 1024 * 1024;

/// The built-in ignore patterns: lockfiles, build output, generated and
/// minified files, and common binary and data formats.
pub open spec fn default_pattern_seq() -> Seq<Seq<char>> {
    seq![
        "package-lock.json"@, "yarn.lock"@, "Cargo.lock"@, "pnpm-lock.yaml"@,
        "composer.lock"@, "dist/*"@, "build/*"@, "target/*"@, "*.gen.*"@,
        "*.generated.*"@, "*.min.*"@, "*_pb.rs"@, "*.pb.go"@, "*.pb.js"@,
        "*.csv"@, "*.json"@, "*.sql"@, "*.dump"@, "*.png"@, "*.jpg"@,
        "*.jpeg"@, "*.gif"@, "*.ico"@, "*.pdf"@,
    ]
}

/// The lines of an ignore file's text: each without a trailing carriage
/// return, and the first without leading byte order marks (U+FEFF).
pub open spec fn file_lines(t: Seq<char>) -> Seq<Seq<char>> {
    let ls = text_lines(t);
    Seq::new(ls.len(), |i: int| if i == 0 {
        trim_start(drop_cr(ls[i]), '\u{feff}')
    } else {
        drop_cr(ls[i])
    })
}

/// The lines of an optional file's text: none when the file is absent.
pub open spec fn opt_lines(t: Option<Seq<char>>) -> Seq<Seq<char>> {
    match t {
        Some(s) => file_lines(s),
        None => seq![],
    }
}

/// The lines of an ignore file's text.
pub fn split_file_lines(t: &str) -> (r: Vec<String>)
    ensures
        views(r@) == file_lines(t@),
{
    let raw = split_lines(t);
    let mut out: Vec<String> = Vec::new();
    for i in 0..raw.len()
        invariant
            views(raw@) == text_lines(t@),
            out@.len() == i,
            forall|k: int| 0 <= k < i ==> #[trigger] out@[k]@ == file_lines(t@)[k],
    {
        let line = drop_cr_of(raw[i].as_str());
        assert(raw@[i as int]@ == text_lines(t@)[i as int]);
        if i == 0 {
            out.push(trim_start_char(line, '\u{feff}').to_string());
        } else {
            out.push(line.to_string());
        }
    }
    assert(views(out@) =~= file_lines(t@));
    out
}

/// The rules of one run, in the order in which they take precedence (later
/// ones win).
pub open spec fn rule_seq(
    defaults: Seq<Seq<char>>,
    gitignore: Option<Seq<char>>,
    llmlogignore: Option<Seq<char>>,
    extra: Seq<Seq<char>>,
) -> Seq<Seq<char>> {
    defaults + opt_lines(gitignore) + opt_lines(llmlogignore) + extra
}

/// Whether a file at `path` whose new version has `size` bytes is kept in
/// a diff under the rules `rules` rooted at `root`.
pub open spec fn includes(root: Seq<char>, rules: Seq<Seq<char>>, path: Seq<char>, size: u64) -> bool {
    size <= MAX_FILE_SIZE && !gitignore_ignores(root, rules, path)
}

/// The index of the first rule that does not compile, if any.
pub open spec fn first_bad_rule(rules: Seq<Seq<char>>) -> Option<int>
    decreases rules.len(),
{
    if rules.len() == 0 {
        None
    } else {
        match first_bad_rule(rules.drop_last()) {
            Some(i) => Some(i),
            None => if line_compiles(rules.last()) {
                None
            } else {
                Some(rules.len() - 1)
            },
        }
    }
}

/// The built-in ignore patterns, as a table that callers may replace.
pub fn default_ignore_patterns() -> (r: Vec<String>)
    ensures
        views(r@) == default_pattern_seq(),
{
    let r = vec![
        String::from_str("package-lock.json"), String::from_str("yarn.lock"),
        String::from_str("Cargo.lock"), String::from_str("pnpm-lock.yaml"),
        String::from_str("composer.lock"), String::from_str("dist/*"),
        String::from_str("build/*"), String::from_str("target/*"),
        String::from_str("*.gen.*"), String::from_str("*.generated.*"),
        String::from_str("*.min.*"), String::from_str("*_pb.rs"),
        String::from_str("*.pb.go"), String::from_str("*.pb.js"),
        String::from_str("*.csv"), String::from_str("*.json"),
        String::from_str("*.sql"), String::from_str("*.dump"),
        String::from_str("*.png"), String::from_str("*.jpg"),
        String::from_str("*.jpeg"), String::from_str("*.gif"),
        String::from_str("*.ico"), String::from_str("*.pdf"),
    ];
    assert(views(r@) =~= default_pattern_seq());
    r
}

/// Appends copies of `src` to `dst`.
fn append_all(dst: &mut Vec<String>, src: &Vec<String>)
    ensures
        views(final(dst)@) == views(old(dst)@) + views(src@),
{
    let ghost start = views(dst@);
    for i in 0..src.len()
        invariant
            views(dst@) == start + views(src@.take(i as int)),
    {
        let item: String = src[i].clone();
        assert(item@ == src@[i as int]@);
        let ghost before = dst@;
        dst.push(item);
        assert(views(dst@) =~= views(before).push(src@[i as int]@));
        assert(views(src@.take(i + 1)) =~= views(src@.take(i as int)).push(src@[i as int]@));
        assert(views(dst@) =~= start + views(src@.take(i + 1)));
    }
    assert(src@.take(src@.len() as int) == src@);
}

/// The rules of one run: `defaults`, then the lines of the repository's
/// `.gitignore` and `.llmlogignore` texts when present, then `extra`.
pub fn collect_rule_lines(
    defaults: &Vec<String>,
    gitignore: Option<&str>,
    llmlogignore: Option<&str>,
    extra: &Vec<String>,
) -> (r: Vec<String>)
    ensures
        views(r@) == rule_seq(
            views(defaults@),
            match gitignore { Some(t) => Some(t@), None => None },
            match llmlogignore { Some(t) => Some(t@), None => None },
            views(extra@),
        ),
{
    let ghost g = match gitignore { Some(t) => Some(t@), None => None };
    let ghost l = match llmlogignore { Some(t) => Some(t@), None => None };
    let mut r: Vec<String> = Vec::new();
    append_all(&mut r, defaults);
    assert(views(r@) =~= views(defaults@));
    if let Some(t) = gitignore {
        append_all(&mut r, &split_file_lines(t));
    }
    assert(views(r@) =~= views(defaults@) + opt_lines(g));
    if let Some(t) = llmlogignore {
        append_all(&mut r, &split_file_lines(t));
    }
    assert(views(r@) =~= views(defaults@) + opt_lines(g) + opt_lines(l));
    append_all(&mut r, extra);
    r
}

/// Why a filter could not be built.
#[derive(Debug, PartialEq, Eq)]
pub enum FilterError {
    /// A rule that the ignore syntax does not accept.
    InvalidPattern(String),
    /// The rules were each accepted but could not be compiled together.
    MatcherBuild,
}

/// Decides, per file, whether its change appears in a diff.
pub struct DiffFilter {
    root: Ghost<Seq<char>>,
    rules: Ghost<Seq<Seq<char>>>,
    gitignore: Gitignore,
}

impl DiffFilter {
    #[verifier::type_invariant]
    spec fn inv(self) -> bool {
        &&& matcher_root(self.gitignore) == self.root@
        &&& matcher_lines(self.gitignore) == self.rules@
    }

    /// The root that paths are matched relative to: the repository path
    /// without a leading `./`.
    pub closed spec fn root(&self) -> Seq<char> {
        self.root@
    }

    /// The globs of this filter, in order of precedence (later ones win).
    pub closed spec fn rules(&self) -> Seq<Seq<char>> {
        self.rules@
    }

    /// Compiles `rules`, rooted at the repository directory `repo_path`.
    /// Fails on the first rule that the ignore syntax does not accept, and
    /// succeeds whenever every rule is accepted and the globs compile
    /// together.
    pub fn new(repo_path: &str, rules: &Vec<String>) -> (r: Result<DiffFilter, FilterError>)
        ensures
            r is Ok ==> r->Ok_0.root() == ignore_root(repo_path@) && r->Ok_0.rules() == globs_of(views(rules@)),
            first_bad_rule(views(rules@)) is None && matcher_builds(globs_of(views(rules@))) ==> r is Ok,
            r matches Err(FilterError::MatcherBuild) ==> !matcher_builds(globs_of(views(rules@))),
            first_bad_rule(views(rules@)) is Some <==> r is Err && r->Err_0 is InvalidPattern,
            r matches Err(FilterError::InvalidPattern(l)) ==> l@ == views(rules@)[first_bad_rule(views(rules@))->0],
    {
        let mut builder = builder_new(repo_path);
        for i in 0..rules.len()
            invariant
                builder_root(builder) == ignore_root(repo_path@),
                builder_lines(builder) == globs_of(views(rules@.take(i as int))),
                first_bad_rule(views(rules@.take(i as int))) is None,
        {
            assert(views(rules@.take(i + 1)).drop_last() =~= views(rules@.take(i as int)));
            match builder_add_line(&mut builder, rules[i].as_str()) {
                Ok(()) => {
                    assert(views(rules@.take(i + 1)) =~= views(rules@.take(i as int)).push(rules@[i as int]@));
                    assert(globs_of(views(rules@.take(i + 1))) == push_glob(globs_of(views(rules@.take(i as int))), rules@[i as int]@));
                },
                Err(_) => {
                    assert(views(rules@).take(i as int) =~= views(rules@.take(i as int)));
                    proof { lemma_first_bad_prefix(views(rules@), i + 1); }
                    return Err(FilterError::InvalidPattern(rules[i].clone()));
                },
            }
        }
        assert(rules@.take(rules@.len() as int) == rules@);
        match builder_build(&builder) {
            Ok(g) => Ok(DiffFilter { root: Ghost(ignore_root(repo_path@)), rules: Ghost(globs_of(views(rules@))), gitignore: g }),
            Err(_) => Err(FilterError::MatcherBuild),
        }
    }

    /// Whether a file at `path` whose new version has `size` bytes is kept:
    /// never when `size` exceeds the ceiling, else when no rule ignores it.
    pub fn should_include_file(&self, path: &str, size: u64) -> (r: bool)
        ensures
            r == includes(self.root(), self.rules(), path@, size),
    {
        proof { use_type_invariant(self); }
        if size > MAX_FILE_SIZE {
            return false;
        }
        !matcher_ignores(&self.gitignore, path)
    }
}

/// When a prefix of the rules already holds a bad rule, the first bad rule
/// of the whole sequence is the first bad rule of that prefix.
proof fn lemma_first_bad_prefix(rules: Seq<Seq<char>>, k: int)
    requires
        0 < k <= rules.len(),
        first_bad_rule(rules.take(k - 1)) is None,
        !line_compiles(rules[k - 1]),
    ensures
        first_bad_rule(rules) == Some(k - 1),
    decreases rules.len(),
{
    if k == rules.len() {
        assert(rules.drop_last() =~= rules.take(k - 1));
    } else {
        assert(rules.drop_last().take(k - 1) =~= rules.take(k - 1));
        lemma_first_bad_prefix(rules.drop_last(), k);
    }
}

/// A file whose new version exceeds the size ceiling is never included,
/// whatever the rules and the path.
pub proof fn lemma_oversized_excluded(root: Seq<char>, rules: Seq<Seq<char>>, path: Seq<char>, size: u64)
    requires
        size > MAX_FILE_SIZE,
    ensures
        !includes(root, rules, path, size),
{
}

} // verus!
