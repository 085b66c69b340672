//! What the model is asked for: per-commit summaries and the changelog,
//! their JSON shapes, and the two prompts.
use vstd::prelude::*;
use crate::diff::CommitInfo;
use crate::json::{get_member, get_strs, json_pretty, lookup, member, pretty_json, str_of, strs_of, Json};
use crate::text::views;

verus! {

/// The kind of change a commit makes.
#[derive(Debug, Clone, Copy, PartialEq, Eq, Structural)]
pub enum ChangeType {
    Feature,
    Fix,
    Refactor,
    Breaking,
    Other,
}

/// The name of a change type in JSON.
pub open spec fn change_type_name(t: ChangeType) -> Seq<char> {
    match t {
        ChangeType::Feature => "feature"@,
        ChangeType::Fix => "fix"@,
        ChangeType::Refactor => "refactor"@,
        ChangeType::Breaking => "breaking"@,
        ChangeType::Other => "other"@,
    }
}

/// The change type named `s`, if any.
pub open spec fn change_type_of(s: Seq<char>) -> Option<ChangeType> {
    if s == "feature"@ {
        Some(ChangeType::Feature)
    } else if s == "fix"@ {
        Some(ChangeType::Fix)
    } else if s == "refactor"@ {
        Some(ChangeType::Refactor)
    } else if s == "breaking"@ {
        Some(ChangeType::Breaking)
    } else if s == "other"@ {
        Some(ChangeType::Other)
    } else {
        None
    }
}

impl ChangeType {
    /// The name of this change type in JSON.
    pub fn name(&self) -> (r: String)
        ensures
            r@ == change_type_name(*self),
    {
        match self {
            ChangeType::Feature => String::from_str("feature"),
            ChangeType::Fix => String::from_str("fix"),
            ChangeType::Refactor => String::from_str("refactor"),
            ChangeType::Breaking => String::from_str("breaking"),
            ChangeType::Other => String::from_str("other"),
        }
    }

    /// The change type named `s`, if any.
    pub fn from_name(s: &String) -> (r: Option<ChangeType>)
        ensures
            r == change_type_of(s@),
    {
        if *s == String::from_str("feature") {
            Some(ChangeType::Feature)
        } else if *s == String::from_str("fix") {
            Some(ChangeType::Fix)
        } else if *s == String::from_str("refactor") {
            Some(ChangeType::Refactor)
        } else if *s == String::from_str("breaking") {
            Some(ChangeType::Breaking)
        } else if *s == String::from_str("other") {
            Some(ChangeType::Other)
        } else {
            None
        }
    }
}

/// Reading a change type's name gives the change type back.
pub proof fn lemma_change_type_name(t: ChangeType)
    ensures
        change_type_of(change_type_name(t)) == Some(t),
{
    reveal_strlit("feature");
    reveal_strlit("fix");
    reveal_strlit("refactor");
    reveal_strlit("breaking");
    reveal_strlit("other");
    match t {
        ChangeType::Feature => {},
        ChangeType::Fix => {
            assert("feature"@.len() != "fix"@.len());
        },
        ChangeType::Refactor => {
            assert("feature"@[0] != "refactor"@[0]);
            assert("fix"@.len() != "refactor"@.len());
        },
        ChangeType::Breaking => {
            assert("feature"@.len() != "breaking"@.len());
            assert("fix"@.len() != "breaking"@.len());
            assert("refactor"@[0] != "breaking"@[0]);
        },
        ChangeType::Other => {
            assert("feature"@.len() != "other"@.len());
            assert("fix"@.len() != "other"@.len());
            assert("refactor"@.len() != "other"@.len());
            assert("breaking"@.len() != "other"@.len());
        },
    }
}

/// A commit summarized by the model.
#[derive(Debug)]
pub struct CommitSummary {
    pub commit_id: String,
    pub change_type: ChangeType,
    pub summary: String,
    pub changes: Vec<String>,
}

/// A commit summary as plain values.
pub struct SummaryView {
    pub commit_id: Seq<char>,
    pub change_type: ChangeType,
    pub summary: Seq<char>,
    pub changes: Seq<Seq<char>>,
}

impl View for CommitSummary {
    type V = SummaryView;

    open spec fn view(&self) -> SummaryView {
        SummaryView {
            commit_id: self.commit_id@,
            change_type: self.change_type,
            summary: self.summary@,
            changes: views(self.changes@),
        }
    }
}

/// The changelog drafted from all summaries.
#[derive(Debug)]
pub struct Changelog {
    pub title: String,
    pub content: String,
}

/// The summary that a JSON value describes: an object with the string
/// members `commit_id` and `summary`, a member `type` that names a change
/// type, and a member `changes` that is an array of strings. Other members
/// are ignored.
pub open spec fn summary_of_json(j: Json) -> Option<SummaryView> {
    let id = str_of(member(j, "commit_id"@));
    let ty = str_of(member(j, "type"@));
    let summary = str_of(member(j, "summary"@));
    let changes = match member(j, "changes"@) {
        Some(Json::Array(items)) => strs_of(items@),
        _ => None,
    };
    if id is Some && ty is Some && change_type_of(ty->0) is Some && summary is Some && changes is Some {
        Some(SummaryView {
            commit_id: id->0,
            change_type: change_type_of(ty->0)->0,
            summary: summary->0,
            changes: changes->0,
        })
    } else {
        None
    }
}

/// `j` is the string `t`.
pub open spec fn str_is(j: Json, t: Seq<char>) -> bool {
    match j {
        Json::Str(x) => x@ == t,
        _ => false,
    }
}

/// `j` is the array of the strings `ts`, in order.
pub open spec fn strs_are(j: Json, ts: Seq<Seq<char>>) -> bool {
    match j {
        Json::Array(items) => items@.len() == ts.len()
            && forall|i: int| 0 <= i < ts.len() ==> str_is(#[trigger] items@[i], ts[i]),
        _ => false,
    }
}

/// `j` is exactly the JSON form of `s`: the members `commit_id`, `type`,
/// `summary` and `changes`, in that order and no others.
pub open spec fn is_summary_json(j: Json, s: SummaryView) -> bool {
    match j {
        Json::Object(f) => {
            &&& f@.len() == 4
            &&& f@[0].0@ == "commit_id"@ && str_is(f@[0].1, s.commit_id)
            &&& f@[1].0@ == "type"@ && str_is(f@[1].1, change_type_name(s.change_type))
            &&& f@[2].0@ == "summary"@ && str_is(f@[2].1, s.summary)
            &&& f@[3].0@ == "changes"@ && strs_are(f@[3].1, s.changes)
        },
        _ => false,
    }
}

/// `j` is exactly the JSON form of a changelog: the members `title` and
/// `content`, in that order and no others.
pub open spec fn is_changelog_json(j: Json, title: Seq<char>, content: Seq<char>) -> bool {
    match j {
        Json::Object(f) => {
            &&& f@.len() == 2
            &&& f@[0].0@ == "title"@ && str_is(f@[0].1, title)
            &&& f@[1].0@ == "content"@ && str_is(f@[1].1, content)
        },
        _ => false,
    }
}

/// The changelog that a JSON value describes: an object with the string
/// members `title` and `content`. Other members are ignored.
pub open spec fn changelog_of_json(j: Json) -> Option<(Seq<char>, Seq<char>)> {
    let title = str_of(member(j, "title"@));
    let content = str_of(member(j, "content"@));
    if title is Some && content is Some {
        Some((title->0, content->0))
    } else {
        None
    }
}

/// The text of a string member, if `j` is one.
fn get_str(j: Option<&Json>) -> (r: Option<String>)
    ensures
        match r {
            Some(s) => str_of(match j { Some(v) => Some(*v), None => None }) == Some(s@),
            None => str_of(match j { Some(v) => Some(*v), None => None }) is None,
        },
{
    match j {
        Some(Json::Str(s)) => Some(s.clone()),
        _ => None,
    }
}

/// Reads a commit summary out of the model's answer.
pub fn summary_from_json(j: &Json) -> (r: Option<CommitSummary>)
    ensures
        match r {
            Some(s) => summary_of_json(*j) == Some(s@),
            None => summary_of_json(*j) is None,
        },
{
    let id = get_str(get_member(j, "commit_id"));
    let ty = get_str(get_member(j, "type"));
    let summary = get_str(get_member(j, "summary"));
    let changes = match get_member(j, "changes") {
        Some(Json::Array(items)) => get_strs(items),
        _ => None,
    };
    match (id, ty, summary, changes) {
        (Some(id), Some(ty), Some(summary), Some(changes)) => {
            match ChangeType::from_name(&ty) {
                Some(change_type) => Some(CommitSummary { commit_id: id, change_type, summary, changes }),
                None => None,
            }
        },
        _ => None,
    }
}

/// Reads a changelog out of the model's answer.
pub fn changelog_from_json(j: &Json) -> (r: Option<Changelog>)
    ensures
        match r {
            Some(c) => changelog_of_json(*j) == Some((c.title@, c.content@)),
            None => changelog_of_json(*j) is None,
        },
{
    let title = get_str(get_member(j, "title"));
    let content = get_str(get_member(j, "content"));
    match (title, content) {
        (Some(title), Some(content)) => Some(Changelog { title, content }),
        _ => None,
    }
}

/// The JSON form of a changelog: reading it back gives the same changelog.
pub fn changelog_to_json(c: &Changelog) -> (r: Json)
    ensures
        is_changelog_json(r, c.title@, c.content@),
        changelog_of_json(r) == Some((c.title@, c.content@)),
{
    let fields: Vec<(String, Json)> = vec![
        (String::from_str("title"), Json::Str(c.title.clone())),
        (String::from_str("content"), Json::Str(c.content.clone())),
    ];
    proof {
        reveal_strlit("title");
        reveal_strlit("content");
        reveal_with_fuel(lookup, 3);
        assert("title"@.len() != "content"@.len());
    }
    Json::Object(fields)
}

/// An array of strings.
fn strs_to_json(v: &Vec<String>) -> (r: Vec<Json>)
    ensures
        strs_of(r@) == Some(views(v@)),
        r@.len() == v@.len(),
        forall|i: int| 0 <= i < v@.len() ==> str_is(#[trigger] r@[i], v@[i]@),
{
    let mut out: Vec<Json> = Vec::new();
    for i in 0..v.len()
        invariant
            out@.len() == i,
            strs_of(out@) == Some(views(v@.take(i as int))),
            forall|k: int| 0 <= k < i ==> str_is(#[trigger] out@[k], v@[k]@),
    {
        let ghost before = out@;
        out.push(Json::Str(v[i].clone()));
        assert(out@.drop_last() =~= before);
        assert(views(v@.take(i + 1)) =~= views(v@.take(i as int)).push(v@[i as int]@));
    }
    assert(v@.take(v@.len() as int) =~= v@);
    out
}

/// The JSON form of a summary, the shape the model is asked to answer in:
/// reading it back gives the same summary.
pub fn summary_to_json(s: &CommitSummary) -> (r: Json)
    ensures
        is_summary_json(r, s@),
        summary_of_json(r) == Some(s@),
{
    let fields: Vec<(String, Json)> = vec![
        (String::from_str("commit_id"), Json::Str(s.commit_id.clone())),
        (String::from_str("type"), Json::Str(s.change_type.name())),
        (String::from_str("summary"), Json::Str(s.summary.clone())),
        (String::from_str("changes"), Json::Array(strs_to_json(&s.changes))),
    ];
    proof {
        reveal_strlit("commit_id");
        reveal_strlit("type");
        reveal_strlit("summary");
        reveal_strlit("changes");
        reveal_with_fuel(crate::json::lookup, 5);
        reveal_with_fuel(strs_of, 1);
        let f = fields@;
        assert(f[0].0@ == "commit_id"@ && f[1].0@ == "type"@ && f[2].0@ == "summary"@ && f[3].0@ == "changes"@);
        assert(lookup(f, "commit_id"@) == Some(f[0].1));
        assert(lookup(f, "type"@) == Some(f[1].1));
        assert(lookup(f, "summary"@) == Some(f[2].1));
        assert("summary"@[0] != "changes"@[0]);
        assert("commit_id"@.len() != "changes"@.len() && "type"@.len() != "changes"@.len());
        assert("commit_id"@.len() != "summary"@.len() && "type"@.len() != "summary"@.len());
        let f3 = f.drop_first().drop_first().drop_first();
        assert(f3[0] == f[3]);
        assert(lookup(f3, "changes"@) == Some(f[3].1));
        assert(lookup(f, "changes"@) == Some(f[3].1));
        lemma_change_type_name(s.change_type);
    }
    Json::Object(fields)
}

/// The JSON form of a list of summaries, in order.
pub fn summaries_to_json(v: &Vec<CommitSummary>) -> (r: Json)
    ensures
        summary_list_json(r, v@),
{
    let mut items: Vec<Json> = Vec::new();
    for i in 0..v.len()
        invariant
            items@.len() == i,
            forall|k: int| 0 <= k < i ==> is_summary_json(#[trigger] items@[k], v@[k]@),
            forall|k: int| 0 <= k < i ==> summary_of_json(#[trigger] items@[k]) == Some(v@[k]@),
    {
        items.push(summary_to_json(&v[i]));
    }
    Json::Array(items)
}

/// What the model is told after a commit's message and diff.
pub const COMMIT_INSTRUCTIONS: &'static str = "Given the git commit and its changes, please analyze and summarize it into a changelog entry.\n- Remember to mention the files that were changed, and what was changed\n- The list of changes should be quite detailed. Try to include at least 3 changes per commit, scaling up if there are more changes, or down if there are fewer\n- Explain the 'why' behind changes as much as possible.\n- If unsure about the consequence of a change, do NOT make something up. Instead, just describe the change as best as you can\n- Tone: Emojis are ok. Be expressive. Feel free to be profane, but don't be offensive\n- You need to use categorize the change (fix, feat, refactor, style, test, docs, chore, nit, etc)\nYou must follow the JSON schema:\n```json\n";

/// What the model is told after the list of commit summaries.
pub const CHANGELOG_INSTRUCTIONS: &'static str = "Given the list of commit summaries, please create a changelog entry.\n- The title should be a concise summary of the changes\n- The content should be a markdown-formatted post.\n- The content post should be a summary of the major changes, targeted at a non-technical audience\n- The content will be posted on the company blog. Keep your tone playful and expressive!\n- Don't over-hype the changes, but don't undersell them either. The post shouldn't be a \"fluff piece\"\nYou must follow the JSON schema:\n```json\n";

/// The prompt that asks for a commit's summary: the message and the diff
/// verbatim, the instructions, and the schema's text.
pub open spec fn commit_prompt_text(message: Seq<char>, diff: Seq<char>, schema: Seq<char>) -> Seq<char> {
    "\nCommit Message: "@ + message + "\n```diff\n"@ + diff + "\n```\n"@ + COMMIT_INSTRUCTIONS@ + schema
        + "\n```\n"@
}

/// The prompt that asks for the changelog: the project's name, the
/// summaries' JSON text, the instructions, and the schema's text.
pub open spec fn changelog_prompt_text(project: Seq<char>, summaries: Seq<char>, schema: Seq<char>) -> Seq<char> {
    "Project name: "@ + project + "\nCommit Summaries:\n```json\n"@ + summaries + "\n```\n"@
        + CHANGELOG_INSTRUCTIONS@ + schema + "\n```\n"@
}

/// Renders the prompt that asks for `info`'s summary in the shape `schema`.
pub fn commit_prompt(info: &CommitInfo, schema: &Json) -> (r: String)
    ensures
        r@ == commit_prompt_text(info.message@, info.diff@, json_pretty(*schema)),
{
    let schema_text = pretty_json(schema);
    let mut p = String::from_str("\nCommit Message: ");
    p.append(info.message.as_str());
    p.append("\n```diff\n");
    p.append(info.diff.as_str());
    p.append("\n```\n");
    p.append(COMMIT_INSTRUCTIONS);
    p.append(schema_text.as_str());
    p.append("\n```\n");
    p
}

/// Renders the prompt that asks for the changelog of `project` from
/// `summaries`, in the shape `schema`.
pub fn changelog_prompt(project: &str, summaries: &Vec<CommitSummary>, schema: &Json) -> (r: String)
    ensures
        exists|j: Json| {
            &&& #[trigger] summary_list_json(j, summaries@)
            &&& r@ == changelog_prompt_text(project@, json_pretty(j), json_pretty(*schema))
        },
        summaries@.len() == 0 ==> r@ == changelog_prompt_text(project@, "[]"@, json_pretty(*schema)),
{
    let list = summaries_to_json(summaries);
    let list_text = pretty_json(&list);
    let schema_text = pretty_json(schema);
    let mut p = String::from_str("Project name: ");
    p.append(project);
    p.append("\nCommit Summaries:\n```json\n");
    p.append(list_text.as_str());
    p.append("\n```\n");
    p.append(CHANGELOG_INSTRUCTIONS);
    p.append(schema_text.as_str());
    p.append("\n```\n");
    assert(summary_list_json(list, summaries@));
    p
}

/// `j` is exactly the JSON array of `summaries`, in order, each in its
/// JSON form (which reads back as the summary).
pub open spec fn summary_list_json(j: Json, summaries: Seq<CommitSummary>) -> bool {
    match j {
        Json::Array(items) => {
            &&& items@.len() == summaries.len()
            &&& forall|i: int| 0 <= i < summaries.len() ==> is_summary_json(#[trigger] items@[i], summaries[i]@)
            &&& forall|i: int| 0 <= i < summaries.len() ==> summary_of_json(#[trigger] items@[i]) == Some(summaries[i]@)
        },
        _ => false,
    }
}

} // verus!
