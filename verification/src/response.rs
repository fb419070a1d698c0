//! What is shown for the platform's answer: the report of a created
//! repository, or of a refusal.
use crate::filter::{allow_listed, filter_response};
use crate::json::{field, Json, JsonValue};
use crate::render::{render_key_value_pairs, rendered};
use crate::syntax::{cfmt, painted, Syntax};
use crate::text::{array_line, spaced, texts};
use crate::value::{compact_text, compact_value};
use vstd::prelude::*;

verus! {

/// Whether the platform created the repository: its answer then has an `id`.
pub open spec fn is_created(response: JsonValue) -> bool {
    field(response, "id"@) is Some
}

/// Whether the answer has what the report of a created repository shows: an
/// `id`, a `name` and the two clone addresses. An `owner` is not asked for:
/// where there is none the report has none, and one that is no object is shown
/// as it is.
pub open spec fn shows_created(response: JsonValue) -> bool {
    &&& is_created(response)
    &&& field(response, "name"@) is Some
    &&& field(response, "ssh_url"@) is Some
    &&& field(response, "clone_url"@) is Some
}

/// The address that a clone command names: the text of a string as it is, and
/// any other value written on one line.
pub open spec fn address_text(value: JsonValue) -> Seq<char> {
    match value {
        JsonValue::String(text) => text,
        _ => compact_text(value),
    }
}

/// The banner over a created repository; `name` is the repository's name as
/// the answer holds it, written on one line.
pub open spec fn banner_text(name: Seq<char>) -> Seq<char> {
    "\x1b[1m"@ + painted(Syntax::Custom(32), "Repo "@ + name + " Created"@) + "\x1b[0m\n"@ + "\n"@
}

/// The command that clones from `address`.
pub open spec fn clone_text(address: Seq<char>) -> Seq<char> {
    spaced(
        seq![
            painted(Syntax::Custom(32), "git"@),
            painted(Syntax::Custom(33), "clone"@),
            painted(Syntax::Custom(37), address),
        ],
        " "@,
    ) + "\n"@
}

/// What introduces the clone commands.
pub open spec fn clone_heading() -> Seq<char> {
    "\n"@ + painted(Syntax::Custom(35), "\nTo clone the repo use:"@) + "\n"@
}

/// What stands between the two clone commands.
pub open spec fn clone_alternative() -> Seq<char> {
    painted(Syntax::Custom(34), "or"@) + "\n"@
}

/// The report of a created repository: the banner with its name, the answer
/// reduced to the allow-list, and the two clone commands, by SSH and by HTTPS.
pub open spec fn created_text(response: JsonValue) -> Seq<char> {
    banner_text(compact_text(field(response, "name"@)->0)) + rendered(
        allow_listed(response),
        Seq::empty(),
        0,
    ) + clone_heading() + clone_text(address_text(field(response, "ssh_url"@)->0))
        + clone_alternative() + clone_text(address_text(field(response, "clone_url"@)->0))
}

/// The report of a refusal: an error banner and the whole answer, one level in.
pub open spec fn rejected_text(response: JsonValue) -> Seq<char> {
    painted(Syntax::Error, "Error Occured"@) + "\n"@ + rendered(response, Seq::empty(), 1)
}

/// What is shown for an answer: the refusal where it has no `id`, the created
/// repository where it has an `id`, a `name` and the two clone addresses, and
/// nothing where it has an `id` but lacks one of these.
pub open spec fn response_text(response: JsonValue) -> Option<Seq<char>> {
    if !is_created(response) {
        Some(rejected_text(response))
    } else if shows_created(response) {
        Some(created_text(response))
    } else {
        None
    }
}

/// The banner over a created repository.
pub fn created_banner(name: &str) -> (out: String)
    ensures
        out@ == banner_text(name@),
{
    let mut title = String::from_str("Repo ");
    title.append(name);
    title.append(" Created");
    let mut out = String::from_str("\x1b[1m");
    out.append(cfmt(Syntax::Custom(32), title.as_str()).as_str());
    out.append("\x1b[0m\n");
    out.append("\n");
    out
}

/// The line with the command that clones from `address`.
pub fn clone_command(address: &str) -> (out: String)
    ensures
        out@ == clone_text(address@),
{
    let mut words: Vec<String> = Vec::new();
    words.push(cfmt(Syntax::Custom(32), "git"));
    words.push(cfmt(Syntax::Custom(33), "clone"));
    words.push(cfmt(Syntax::Custom(37), address));
    assert(texts(words@) =~= seq![
        painted(Syntax::Custom(32), "git"@),
        painted(Syntax::Custom(33), "clone"@),
        painted(Syntax::Custom(37), address@),
    ]);
    array_line(words.as_slice(), " ")
}

/// The address that a clone command names.
pub fn clone_address(value: &Json) -> (address: String)
    ensures
        address@ == address_text(value@),
{
    match value {
        Json::String(text) => text.clone(),
        _ => compact_value(value),
    }
}

/// The report of a created repository.
pub fn render_created(response: &Json) -> (out: String)
    requires
        shows_created(response@),
    ensures
        out@ == created_text(response@),
{
    let nothing = String::new();
    let shown = filter_response(response);
    let name = compact_value(response.get("name").unwrap());
    let ssh_url = clone_address(response.get("ssh_url").unwrap());
    let clone_url = clone_address(response.get("clone_url").unwrap());
    let mut out = created_banner(name.as_str());
    out.append(render_key_value_pairs(&shown, nothing.as_str(), 0).as_str());
    let mut heading = String::from_str("\n");
    heading.append(cfmt(Syntax::Custom(35), "\nTo clone the repo use:").as_str());
    heading.append("\n");
    out.append(heading.as_str());
    out.append(clone_command(ssh_url.as_str()).as_str());
    let mut alternative = cfmt(Syntax::Custom(34), "or");
    alternative.append("\n");
    out.append(alternative.as_str());
    out.append(clone_command(clone_url.as_str()).as_str());
    out
}

/// The report of a refusal.
pub fn render_rejected(response: &Json) -> (out: String)
    ensures
        out@ == rejected_text(response@),
{
    let nothing = String::new();
    let mut out = cfmt(Syntax::Error, "Error Occured");
    out.append("\n");
    out.append(render_key_value_pairs(response, nothing.as_str(), 1).as_str());
    out
}

/// Whether `response` has all that the report of a created repository shows:
/// an `id`, a `name` and the two clone addresses.
pub fn can_show_created(response: &Json) -> (ok: bool)
    ensures
        ok == shows_created(response@),
{
    response.get("id").is_some() && response.get("name").is_some() && response.get(
        "ssh_url",
    ).is_some() && response.get("clone_url").is_some()
}

/// What is shown for an answer.
pub fn render_response(response: &Json) -> (out: Option<String>)
    ensures
        match response_text(response@) {
            Some(text) => out matches Some(shown) && shown@ == text,
            None => out is None,
        },
{
    if response.get("id").is_none() {
        Some(render_rejected(response))
    } else if can_show_created(response) {
        Some(render_created(response))
    } else {
        None
    }
}

} // verus!
