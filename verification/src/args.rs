//! What the operator can say on the command line.
use vstd::prelude::*;

verus! {

/// `std::path::PathBuf`, which the flags carry to whoever opens the file.
#[verifier::external_type_specification]
#[verifier::external_body]
pub struct ExPathBuf(std::path::PathBuf);

/// The values of the command-line flags; a flag that was not given is `None`
/// (`false` for the toggle).
#[derive(Debug)]
pub struct Args {
    /// Private repository toggle
    pub private: bool,
    /// Pre-selected template: the name of a configured one, or `owner/repo`
    pub template: Option<String>,
    /// Where the configuration file is, if not beside the executable
    pub config: Option<std::path::PathBuf>,
    /// Name of the new repository
    pub name: Option<String>,
    /// Its description
    pub description: Option<String>,
    /// Its owner
    pub owner: Option<String>,
}

/// The text of an optional string.
pub open spec fn text_of(value: Option<String>) -> Option<Seq<char>> {
    match value {
        Some(text) => Some(text@),
        None => None,
    }
}

/// The flags as plain values.
pub struct ArgsView {
    pub private: bool,
    pub template: Option<Seq<char>>,
    pub config: Option<std::path::PathBuf>,
    pub name: Option<Seq<char>>,
    pub description: Option<Seq<char>>,
    pub owner: Option<Seq<char>>,
}

impl View for Args {
    type V = ArgsView;

    open spec fn view(&self) -> ArgsView {
        ArgsView {
            private: self.private,
            template: text_of(self.template),
            config: self.config,
            name: text_of(self.name),
            description: text_of(self.description),
            owner: text_of(self.owner),
        }
    }
}

} // verus!
