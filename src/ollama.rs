//! The model endpoint's protocol: chat requests that demand a JSON schema,
//! and the two-layer decoding of the answers.
//!
//! The endpoint wraps the generated text in an envelope: the body is a JSON
//! object whose `message.content` member is a string, and that string holds
//! the JSON answer. A body that is not such an envelope is an envelope
//! error; content that is not JSON of the requested shape is a payload
//! error. Both keep the raw body.
use vstd::prelude::*;
use crate::diff::CommitInfo;
use crate::json::{get_member, json_of_text, json_pretty, member, parse_json, pretty_json, str_of, Json};
use crate::prompt::{
    changelog_from_json, changelog_of_json, changelog_prompt, changelog_prompt_text, commit_prompt,
    commit_prompt_text, summary_from_json, summary_list_json, summary_of_json, Changelog, CommitSummary,
    SummaryView,
};

verus! {

/// One message of a chat.
#[derive(Debug)]
pub struct OllamaMessage {
    pub role: String,
    pub content: String,
}

impl OllamaMessage {
    /// A message from the user.
    pub fn user(content: String) -> (r: OllamaMessage)
        ensures
            r.role@ == "user"@,
            r.content == content,
    {
        OllamaMessage { role: String::from_str("user"), content }
    }

    /// A message from the assistant.
    pub fn assistant(content: String) -> (r: OllamaMessage)
        ensures
            r.role@ == "assistant"@,
            r.content == content,
    {
        OllamaMessage { role: String::from_str("assistant"), content }
    }
}

/// A chat request whose answer must follow the schema `format`.
#[derive(Debug)]
pub struct OllamaRequest {
    pub messages: Vec<OllamaMessage>,
    pub stream: bool,
    pub format: Json,
}

/// The envelope of an answer.
#[derive(Debug)]
pub struct OllamaResponse {
    pub message: OllamaMessage,
}

/// Why a model invocation failed.
#[derive(Debug, PartialEq, Eq)]
pub enum ModelError {
    /// The endpoint could not be reached (no status), or answered with a
    /// status outside 200..=299.
    Transport { status: Option<u16>, detail: String },
    /// The body is not an envelope whose `message.content` is a string.
    EnvelopeParse { raw: String },
    /// The content is not JSON of the requested shape.
    PayloadParse { raw: String },
}

/// Where a model endpoint is and which model it runs.
#[derive(Debug)]
pub struct OllamaClient {
    pub model: String,
    pub url: String,
}

/// The JSON of one chat message.
pub open spec fn message_json(j: Json, m: OllamaMessage) -> bool {
    &&& match j {
        Json::Object(f) => f@.len() == 2 && f@[0].0@ == "role"@ && f@[1].0@ == "content"@,
        _ => false,
    }
    &&& str_of(member(j, "role"@)) == Some(m.role@)
    &&& str_of(member(j, "content"@)) == Some(m.content@)
}

/// `j` is the JSON body of `request` for the model `model`: the members
/// `model`, `messages` (each message as `role` and `content`, in order),
/// `stream` and `format`, in that order and no others.
pub open spec fn is_request_json(j: Json, model: Seq<char>, request: OllamaRequest) -> bool {
    &&& match j {
        Json::Object(f) => f@.len() == 4 && f@[0].0@ == "model"@ && f@[1].0@ == "messages"@
            && f@[2].0@ == "stream"@ && f@[3].0@ == "format"@,
        _ => false,
    }
    &&& str_of(member(j, "model"@)) == Some(model)
    &&& member(j, "stream"@) == Some(Json::Bool(request.stream))
    &&& member(j, "format"@) == Some(request.format)
    &&& match member(j, "messages"@) {
        Some(Json::Array(items)) => {
            &&& items@.len() == request.messages@.len()
            &&& forall|i: int| 0 <= i < items@.len() ==> message_json(#[trigger] items@[i], request.messages@[i])
        },
        _ => false,
    }
}

/// The content that an envelope carries, if `body` is one.
pub open spec fn envelope_content(body: Seq<char>) -> Option<Seq<char>> {
    match json_of_text(body) {
        Some(j) => match member(j, "message"@) {
            Some(m) => str_of(member(m, "content"@)),
            None => None,
        },
        None => None,
    }
}

/// Whether `status` is a success status.
pub open spec fn is_success(status: u16) -> bool {
    200 <= status <= 299
}

/// The summary carried by an answer whose envelope holds `content`.
pub open spec fn payload_summary(content: Seq<char>) -> Option<SummaryView> {
    match json_of_text(content) {
        Some(j) => summary_of_json(j),
        None => None,
    }
}

/// The changelog carried by an answer whose envelope holds `content`.
pub open spec fn payload_changelog(content: Seq<char>) -> Option<(Seq<char>, Seq<char>)> {
    match json_of_text(content) {
        Some(j) => changelog_of_json(j),
        None => None,
    }
}

/// A request with one user message, `prompt`, that asks for `schema`.
pub open spec fn prompt_request(r: OllamaRequest, prompt: Seq<char>, schema: Json) -> bool {
    &&& r.messages@.len() == 1
    &&& r.messages@[0].role@ == "user"@
    &&& r.messages@[0].content@ == prompt
    &&& !r.stream
    &&& r.format == schema
}

/// The member named `key` of an object, built from `fields`.
fn field(key: &str, value: Json) -> (r: (String, Json))
    ensures
        r.0@ == key@,
        r.1 == value,
{
    (String::from_str(key), value)
}

/// Checks the status of an answer, keeping its body.
pub fn check_status(status: u16, body: String) -> (r: Result<String, ModelError>)
    ensures
        is_success(status) ==> r == Ok::<String, ModelError>(body),
        !is_success(status) ==> r == Err::<String, ModelError>(ModelError::Transport { status: Some(status), detail: body }),
{
    if 200 <= status && status <= 299 {
        Ok(body)
    } else {
        Err(ModelError::Transport { status: Some(status), detail: body })
    }
}

/// The first layer of decoding: the content string of an envelope.
pub fn decode_envelope(body: &str) -> (r: Option<String>)
    ensures
        match r {
            Some(c) => envelope_content(body@) == Some(c@),
            None => envelope_content(body@) is None,
        },
{
    match parse_json(body) {
        Ok(j) => match get_member(&j, "message") {
            Some(m) => match get_member(m, "content") {
                Some(Json::Str(c)) => Some(c.clone()),
                _ => None,
            },
            None => None,
        },
        Err(_) => None,
    }
}

/// Decodes an answer that should hold a commit summary.
pub fn decode_commit_summary(status: u16, body: String) -> (r: Result<CommitSummary, ModelError>)
    ensures
        !is_success(status) <==> r matches Err(ModelError::Transport { .. }),
        r matches Err(ModelError::Transport { status: s, detail: d }) ==> s == Some(status) && d == body,
        is_success(status) && envelope_content(body@) is None <==> r matches Err(ModelError::EnvelopeParse { .. }),
        is_success(status) && envelope_content(body@) is Some
            && payload_summary(envelope_content(body@)->0) is None
            <==> r matches Err(ModelError::PayloadParse { .. }),
        r matches Err(ModelError::EnvelopeParse { raw }) ==> raw == body,
        r matches Err(ModelError::PayloadParse { raw }) ==> raw == body,
        r matches Ok(s) ==> is_success(status) && envelope_content(body@) is Some
            && payload_summary(envelope_content(body@)->0) == Some(s@),
{
    let body = match check_status(status, body) {
        Ok(b) => b,
        Err(e) => return Err(e),
    };
    let content = match decode_envelope(body.as_str()) {
        Some(c) => c,
        None => return Err(ModelError::EnvelopeParse { raw: body }),
    };
    match parse_json(content.as_str()) {
        Ok(j) => match summary_from_json(&j) {
            Some(s) => Ok(s),
            None => Err(ModelError::PayloadParse { raw: body }),
        },
        Err(_) => Err(ModelError::PayloadParse { raw: body }),
    }
}

/// Decodes an answer that should hold a changelog.
pub fn decode_changelog(status: u16, body: String) -> (r: Result<Changelog, ModelError>)
    ensures
        !is_success(status) <==> r matches Err(ModelError::Transport { .. }),
        r matches Err(ModelError::Transport { status: s, detail: d }) ==> s == Some(status) && d == body,
        is_success(status) && envelope_content(body@) is None <==> r matches Err(ModelError::EnvelopeParse { .. }),
        is_success(status) && envelope_content(body@) is Some
            && payload_changelog(envelope_content(body@)->0) is None
            <==> r matches Err(ModelError::PayloadParse { .. }),
        r matches Err(ModelError::EnvelopeParse { raw }) ==> raw == body,
        r matches Err(ModelError::PayloadParse { raw }) ==> raw == body,
        r matches Ok(c) ==> is_success(status) && envelope_content(body@) is Some
            && payload_changelog(envelope_content(body@)->0) == Some((c.title@, c.content@)),
{
    let body = match check_status(status, body) {
        Ok(b) => b,
        Err(e) => return Err(e),
    };
    let content = match decode_envelope(body.as_str()) {
        Some(c) => c,
        None => return Err(ModelError::EnvelopeParse { raw: body }),
    };
    match parse_json(content.as_str()) {
        Ok(j) => match changelog_from_json(&j) {
            Some(c) => Ok(c),
            None => Err(ModelError::PayloadParse { raw: body }),
        },
        Err(_) => Err(ModelError::PayloadParse { raw: body }),
    }
}

/// The request that asks for `info`'s summary in the shape `schema`.
pub fn summarize_commit_request(info: &CommitInfo, schema: Json) -> (r: OllamaRequest)
    ensures
        prompt_request(r, commit_prompt_text(info.message@, info.diff@, json_pretty(schema)), schema),
{
    let prompt = commit_prompt(info, &schema);
    OllamaRequest { messages: vec![OllamaMessage::user(prompt)], stream: false, format: schema }
}

/// The request that asks for the changelog of `project` from `summaries`,
/// in the shape `schema`.
pub fn create_changelog_request(project: &str, summaries: &Vec<CommitSummary>, schema: Json) -> (r: OllamaRequest)
    ensures
        exists|j: Json| {
            &&& #[trigger] summary_list_json(j, summaries@)
            &&& prompt_request(r, changelog_prompt_text(project@, json_pretty(j), json_pretty(schema)), schema)
        },
        summaries@.len() == 0 ==> prompt_request(r, changelog_prompt_text(project@, "[]"@, json_pretty(schema)), schema),
{
    let prompt = changelog_prompt(project, summaries, &schema);
    OllamaRequest { messages: vec![OllamaMessage::user(prompt)], stream: false, format: schema }
}

impl OllamaClient {
    /// A client of the endpoint at `url` that asks `model`.
    pub fn new(url: String, model: String) -> (r: OllamaClient)
        ensures
            r.url == url,
            r.model == model,
    {
        OllamaClient { model, url }
    }

    /// The address that chat requests are posted to.
    pub fn chat_endpoint(&self) -> (r: String)
        ensures
            r@ == self.url@ + "/api/chat"@,
    {
        let mut e = self.url.clone();
        e.append("/api/chat");
        e
    }

    /// The JSON body of `request`, naming this client's model.
    pub fn request_json(&self, request: OllamaRequest) -> (r: Json)
        ensures
            is_request_json(r, self.model@, request),
    {
        let OllamaRequest { messages, stream, format } = request;
        let mut items: Vec<Json> = Vec::new();
        for i in 0..messages.len()
            invariant
                items@.len() == i,
                forall|k: int| 0 <= k < i ==> message_json(#[trigger] items@[k], messages@[k]),
        {
            let m = &messages[i];
            let fields = vec![
                field("role", Json::Str(m.role.clone())),
                field("content", Json::Str(m.content.clone())),
            ];
            proof {
                reveal_strlit("role");
                reveal_strlit("content");
                reveal_with_fuel(crate::json::lookup, 3);
                assert("role"@.len() != "content"@.len());
            }
            items.push(Json::Object(fields));
        }
        let fields = vec![
            field("model", Json::Str(self.model.clone())),
            field("messages", Json::Array(items)),
            field("stream", Json::Bool(stream)),
            field("format", format),
        ];
        proof {
            reveal_strlit("model");
            reveal_strlit("messages");
            reveal_strlit("stream");
            reveal_strlit("format");
            reveal_with_fuel(crate::json::lookup, 5);
            let f = fields@;
            assert("model"@.len() != "messages"@.len() && "model"@.len() != "stream"@.len());
            assert("model"@[0] != "format"@[0] && "messages"@.len() != "stream"@.len());
            assert("messages"@.len() != "format"@.len() && "stream"@[0] != "format"@[0]);
            let f3 = f.drop_first().drop_first().drop_first();
            assert(f3[0] == f[3]);
            assert(crate::json::lookup(f3, "format"@) == Some(f[3].1));
        }
        Json::Object(fields)
    }

    /// The text of the JSON body of `request`.
    pub fn request_body(&self, request: OllamaRequest) -> (r: String)
        ensures
            exists|j: Json| #[trigger] is_request_json(j, self.model@, request) && r@ == json_pretty(j),
    {
        let j = self.request_json(request);
        pretty_json(&j)
    }
}

} // verus!
