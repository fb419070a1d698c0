//! The request for a new repository, and the arguments that carry it to the
//! platform's command-line client.
use crate::render::bool_text;
use crate::text::texts;
use vstd::prelude::*;

verus! {

/// What a new repository is created with.
#[derive(Debug, PartialEq, Eq)]
pub struct RepoCommand {
    pub name: String,
    pub private: bool,
    /// Empty where the repository goes to the account that is logged in.
    pub owner: String,
    pub desc: String,
}

/// A `RepoCommand` as plain values.
pub struct RepoCommandView {
    pub name: Seq<char>,
    pub private: bool,
    pub owner: Seq<char>,
    pub desc: Seq<char>,
}

impl View for RepoCommand {
    type V = RepoCommandView;

    open spec fn view(&self) -> RepoCommandView {
        RepoCommandView {
            name: self.name@,
            private: self.private,
            owner: self.owner@,
            desc: self.desc@,
        }
    }
}

/// The form fields of a request: name, description and visibility always, the
/// owner only where one is given.
pub open spec fn form_fields(command: RepoCommandView) -> Seq<Seq<char>> {
    let always = seq![
        "-F"@,
        "name="@ + command.name,
        "-F"@,
        "description="@ + command.desc,
        "-F"@,
        "private="@ + bool_text(command.private),
    ];
    if command.owner.len() > 0 {
        always + seq!["-F"@, "owner="@ + command.owner]
    } else {
        always
    }
}

/// The whole argument list: a POST to the endpoint that generates a repository
/// from the template at `link`, then the form fields.
pub open spec fn generate_arguments(link: Seq<char>, command: RepoCommandView) -> Seq<Seq<char>> {
    seq!["api"@, "/repos/"@ + link + "/generate"@, "-X"@, "POST"@] + form_fields(command)
}

fn labelled(label: &str, value: &str) -> (s: String)
    ensures
        s@ == label@ + value@,
{
    let mut s = String::from_str(label);
    s.append(value);
    s
}

impl RepoCommand {
    /// The request as form-field arguments.
    pub fn concat(&self) -> (args: Vec<String>)
        ensures
            texts(args@) == form_fields(self@),
    {
        let mut args: Vec<String> = Vec::new();
        args.push(String::from_str("-F"));
        args.push(labelled("name=", self.name.as_str()));
        args.push(String::from_str("-F"));
        args.push(labelled("description=", self.desc.as_str()));
        args.push(String::from_str("-F"));
        args.push(labelled("private=", if self.private { "true" } else { "false" }));
        if !self.owner.as_str().is_empty() {
            args.push(String::from_str("-F"));
            args.push(labelled("owner=", self.owner.as_str()));
        }
        args
    }
}

/// The arguments for the platform's client that create the repository that
/// `command` describes from the template at `link`.
pub fn generate_command(link: &str, command: &RepoCommand) -> (args: Vec<String>)
    ensures
        texts(args@) == generate_arguments(link@, command@),
{
    let mut endpoint = String::from_str("/repos/");
    endpoint.append(link);
    endpoint.append("/generate");
    let mut args: Vec<String> = Vec::new();
    args.push(String::from_str("api"));
    args.push(endpoint);
    args.push(String::from_str("-X"));
    args.push(String::from_str("POST"));
    let mut fields = command.concat();
    args.append(&mut fields);
    args
}

} // verus!
