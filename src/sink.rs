//! The service that receives the finished changelog: the body posted to
//! it, the identifier read from its answer, and the preview address.
use vstd::prelude::*;
use crate::json::{get_member, json_of_text, lookup, member, parse_json, str_of, Json};
use crate::prompt::Changelog;

verus! {

/// The identifier in the service's answer: the number at `changelog.id`,
/// as written.
pub open spec fn created_id(body: Seq<char>) -> Option<Seq<char>> {
    match json_of_text(body) {
        Some(j) => match member(j, "changelog"@) {
            Some(c) => match member(c, "id"@) {
                Some(Json::Number(n)) => Some(n@),
                _ => None,
            },
            None => None,
        },
        None => None,
    }
}

/// The body that creates a changelog for the repository `org/name`.
pub fn create_changelog_body(org: &str, name: &str, changelog: &Changelog) -> (r: Json)
    ensures
        str_of(member(r, "organization"@)) == Some(org@),
        str_of(member(r, "name"@)) == Some(name@),
        str_of(member(r, "title"@)) == Some(changelog.title@),
        str_of(member(r, "content"@)) == Some(changelog.content@),
{
    let fields: Vec<(String, Json)> = vec![
        (String::from_str("organization"), Json::Str(String::from_str(org))),
        (String::from_str("name"), Json::Str(String::from_str(name))),
        (String::from_str("title"), Json::Str(changelog.title.clone())),
        (String::from_str("content"), Json::Str(changelog.content.clone())),
    ];
    proof {
        reveal_strlit("organization");
        reveal_strlit("name");
        reveal_strlit("title");
        reveal_strlit("content");
        reveal_with_fuel(lookup, 5);
        let f = fields@;
        assert("organization"@.len() != "name"@.len() && "organization"@.len() != "title"@.len());
        assert("organization"@.len() != "content"@.len() && "name"@.len() != "title"@.len());
        assert("name"@.len() != "content"@.len() && "title"@.len() != "content"@.len());
        let f3 = f.drop_first().drop_first().drop_first();
        assert(f3[0] == f[3]);
        assert(lookup(f3, "content"@) == Some(f[3].1));
    }
    Json::Object(fields)
}

/// Reads the identifier of the created changelog from the service's answer.
pub fn created_changelog_id(body: &str) -> (r: Option<String>)
    ensures
        match r {
            Some(id) => created_id(body@) == Some(id@),
            None => created_id(body@) is None,
        },
{
    match parse_json(body) {
        Ok(j) => match get_member(&j, "changelog") {
            Some(c) => match get_member(c, "id") {
                Some(Json::Number(n)) => Some(n.clone()),
                _ => None,
            },
            None => None,
        },
        Err(_) => None,
    }
}

/// The address at which the service previews changelog `id` of `org/name`.
pub fn preview_url(api: &str, org: &str, name: &str, id: &str) -> (r: String)
    ensures
        r@ == api@ + "/"@ + org@ + "/"@ + name@ + "/preview/"@ + id@,
{
    let mut u = String::from_str(api);
    u.append("/");
    u.append(org);
    u.append("/");
    u.append(name);
    u.append("/preview/");
    u.append(id);
    u
}

} // verus!
