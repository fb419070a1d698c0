//! Field resolution: a flag where one was given, a question to the operator
//! where none was.
use crate::args::{text_of, Args, ArgsView};
use crate::command::{RepoCommand, RepoCommandView};
use crate::config::{resolved_link, template_names, Config, Repo, RepoView};
use crate::text::texts;
use vstd::prelude::*;

verus! {

/// The fields that a run resolves, in the order in which it asks for them.
#[derive(Clone, Copy, Debug, PartialEq, Eq)]
pub enum Field {
    Template,
    Name,
    Description,
    Private,
    Owner,
}

/// A question to the operator.
#[derive(Debug, PartialEq, Eq)]
pub enum Prompt {
    /// One of `options` is to be chosen.
    Select { message: String, options: Vec<String> },
    /// A line is to be typed; `placeholder` shows while it is empty.
    Text { message: String, placeholder: Option<String> },
    /// Yes or no.
    Confirm { message: String },
}

/// What the operator answered.
#[derive(Debug, PartialEq, Eq)]
pub enum Answer {
    /// The option chosen or the line typed.
    Text(String),
    /// Yes (`true`) or no.
    Confirm(bool),
}

/// A `Prompt` as plain values.
pub enum PromptView {
    Select { message: Seq<char>, options: Seq<Seq<char>> },
    Text { message: Seq<char>, placeholder: Option<Seq<char>> },
    Confirm { message: Seq<char> },
}

impl View for Prompt {
    type V = PromptView;

    open spec fn view(&self) -> PromptView {
        match self {
            Prompt::Select { message, options } => PromptView::Select {
                message: message@,
                options: texts(options@),
            },
            Prompt::Text { message, placeholder } => PromptView::Text {
                message: message@,
                placeholder: text_of(*placeholder),
            },
            Prompt::Confirm { message } => PromptView::Confirm { message: message@ },
        }
    }
}

/// An `Answer` as plain values.
pub enum AnswerView {
    Text(Seq<char>),
    Confirm(bool),
}

impl View for Answer {
    type V = AnswerView;

    open spec fn view(&self) -> AnswerView {
        match self {
            Answer::Text(text) => AnswerView::Text(text@),
            Answer::Confirm(yes) => AnswerView::Confirm(*yes),
        }
    }
}

/// What a run has resolved so far; a field not yet resolved is `None`.
#[derive(Debug, PartialEq, Eq)]
pub struct Resolver {
    pub template: Option<String>,
    pub name: Option<String>,
    pub description: Option<String>,
    pub private: Option<bool>,
    pub owner: Option<String>,
}

/// A `Resolver` as plain values.
pub struct ResolverView {
    pub template: Option<Seq<char>>,
    pub name: Option<Seq<char>>,
    pub description: Option<Seq<char>>,
    pub private: Option<bool>,
    pub owner: Option<Seq<char>>,
}

impl View for Resolver {
    type V = ResolverView;

    open spec fn view(&self) -> ResolverView {
        ResolverView {
            template: text_of(self.template),
            name: text_of(self.name),
            description: text_of(self.description),
            private: self.private,
            owner: text_of(self.owner),
        }
    }
}

/// Whether the flags give `field` a value. The visibility toggle gives one only
/// when it is set.
pub open spec fn flagged(args: ArgsView, field: Field) -> bool {
    match field {
        Field::Template => args.template is Some,
        Field::Name => args.name is Some,
        Field::Description => args.description is Some,
        Field::Private => args.private,
        Field::Owner => args.owner is Some,
    }
}

/// Where a run starts: every field that has a flag resolved to the flag's
/// value, the others open.
pub open spec fn started(args: ArgsView) -> ResolverView {
    ResolverView {
        template: args.template,
        name: args.name,
        description: args.description,
        private: if args.private {
            Some(true)
        } else {
            None
        },
        owner: args.owner,
    }
}

/// Whether `field` is resolved.
pub open spec fn resolved(state: ResolverView, field: Field) -> bool {
    match field {
        Field::Template => state.template is Some,
        Field::Name => state.name is Some,
        Field::Description => state.description is Some,
        Field::Private => state.private is Some,
        Field::Owner => state.owner is Some,
    }
}

/// The field to ask for next: the first that is not resolved.
pub open spec fn pending(state: ResolverView) -> Option<Field> {
    if state.template is None {
        Some(Field::Template)
    } else if state.name is None {
        Some(Field::Name)
    } else if state.description is None {
        Some(Field::Description)
    } else if state.private is None {
        Some(Field::Private)
    } else if state.owner is None {
        Some(Field::Owner)
    } else {
        None
    }
}

/// Whether `answer` is of the kind that `field` takes: yes or no for the
/// visibility, text for the others.
pub open spec fn fits(field: Field, answer: AnswerView) -> bool {
    match field {
        Field::Private => answer is Confirm,
        _ => answer is Text,
    }
}

/// The state after `answer` came in: the pending field resolved to it where it
/// fits, and no change where nothing is pending or it does not fit.
pub open spec fn answered(state: ResolverView, answer: AnswerView) -> ResolverView {
    match (pending(state), answer) {
        (Some(Field::Template), AnswerView::Text(text)) => ResolverView {
            template: Some(text),
            ..state
        },
        (Some(Field::Name), AnswerView::Text(text)) => ResolverView { name: Some(text), ..state },
        (Some(Field::Description), AnswerView::Text(text)) => ResolverView {
            description: Some(text),
            ..state
        },
        (Some(Field::Private), AnswerView::Confirm(yes)) => ResolverView {
            private: Some(yes),
            ..state
        },
        (Some(Field::Owner), AnswerView::Text(text)) => ResolverView {
            owner: Some(text),
            ..state
        },
        _ => state,
    }
}

/// The state after a series of answers, taken in order.
pub open spec fn after(state: ResolverView, answers: Seq<AnswerView>) -> ResolverView
    decreases answers.len(),
{
    if answers.len() == 0 {
        state
    } else {
        answered(after(state, answers.drop_last()), answers.last())
    }
}

/// The question for `field`: a choice among the names of the templates, in
/// their order, for the template; yes or no for the visibility; a line of text
/// for the others.
pub open spec fn question(field: Field, templates: Seq<RepoView>) -> PromptView {
    match field {
        Field::Template => PromptView::Select {
            message: "Template:"@,
            options: template_names(templates),
        },
        Field::Name => PromptView::Text { message: "Name:"@, placeholder: None },
        Field::Description => PromptView::Text { message: "Description:"@, placeholder: None },
        Field::Private => PromptView::Confirm { message: "Private (y/n):"@ },
        Field::Owner => PromptView::Text { message: "Owner:"@, placeholder: Some("You"@) },
    }
}

/// The question for `field`.
pub fn prompt_for(field: Field, config: &Config) -> (prompt: Prompt)
    ensures
        prompt@ == question(field, config@),
{
    match field {
        Field::Template => Prompt::Select {
            message: String::from_str("Template:"),
            options: config.names(),
        },
        Field::Name => Prompt::Text { message: String::from_str("Name:"), placeholder: None },
        Field::Description => Prompt::Text {
            message: String::from_str("Description:"),
            placeholder: None,
        },
        Field::Private => Prompt::Confirm { message: String::from_str("Private (y/n):") },
        Field::Owner => Prompt::Text {
            message: String::from_str("Owner:"),
            placeholder: Some(String::from_str("You")),
        },
    }
}

fn copy_of(value: &Option<String>) -> (copy: Option<String>)
    ensures
        text_of(copy) == text_of(*value),
{
    match value {
        Some(text) => Some(text.clone()),
        None => None,
    }
}

impl Resolver {
    /// Starts a run from the flags.
    pub fn new(args: &Args) -> (state: Resolver)
        ensures
            state@ == started(args@),
    {
        Resolver {
            template: copy_of(&args.template),
            name: copy_of(&args.name),
            description: copy_of(&args.description),
            private: if args.private {
                Some(true)
            } else {
                None
            },
            owner: copy_of(&args.owner),
        }
    }

    /// The field to ask for next; `None` when every field is resolved.
    pub fn next_field(&self) -> (field: Option<Field>)
        ensures
            field == pending(self@),
    {
        if self.template.is_none() {
            Some(Field::Template)
        } else if self.name.is_none() {
            Some(Field::Name)
        } else if self.description.is_none() {
            Some(Field::Description)
        } else if self.private.is_none() {
            Some(Field::Private)
        } else if self.owner.is_none() {
            Some(Field::Owner)
        } else {
            None
        }
    }

    /// Takes the operator's answer to the question for the pending field.
    /// Returns whether it was taken: it is not where nothing is pending or the
    /// answer is of the wrong kind, and nothing changes then.
    pub fn answer(&mut self, answer: Answer) -> (taken: bool)
        ensures
            final(self)@ == answered(old(self)@, answer@),
            taken == (pending(old(self)@) matches Some(field) && fits(field, answer@)),
    {
        match (self.next_field(), answer) {
            (Some(Field::Template), Answer::Text(text)) => {
                self.template = Some(text);
                true
            },
            (Some(Field::Name), Answer::Text(text)) => {
                self.name = Some(text);
                true
            },
            (Some(Field::Description), Answer::Text(text)) => {
                self.description = Some(text);
                true
            },
            (Some(Field::Private), Answer::Confirm(yes)) => {
                self.private = Some(yes);
                true
            },
            (Some(Field::Owner), Answer::Text(text)) => {
                self.owner = Some(text);
                true
            },
            _ => false,
        }
    }

    /// The template that the run resolved: what was chosen or typed, with the
    /// reference it stands for. `None` while the template is open.
    pub fn template(&self, config: &Config) -> (repo: Option<Repo>)
        ensures
            match self@.template {
                Some(chosen) => repo matches Some(found) && found@ == (RepoView {
                    link: resolved_link(config@, chosen),
                    name: chosen,
                }),
                None => repo is None,
            },
    {
        match &self.template {
            Some(chosen) => Some(config.resolve(chosen.as_str())),
            None => None,
        }
    }
}

/// What the request is made of once name, description, visibility and owner
/// are resolved.
pub open spec fn requested(state: ResolverView) -> Option<RepoCommandView> {
    if state.name is Some && state.description is Some && state.private is Some && state.owner
        is Some {
        Some(
            RepoCommandView {
                name: state.name->0,
                private: state.private->0,
                owner: state.owner->0,
                desc: state.description->0,
            },
        )
    } else {
        None
    }
}

impl RepoCommand {
    /// The request that a run resolved; `None` while one of its fields is open.
    pub fn new(state: &Resolver) -> (command: Option<RepoCommand>)
        ensures
            match requested(state@) {
                Some(request) => command matches Some(made) && made@ == request,
                None => command is None,
            },
    {
        match (&state.name, &state.description, &state.private, &state.owner) {
            (Some(name), Some(desc), Some(private), Some(owner)) => Some(
                RepoCommand {
                    name: name.clone(),
                    private: *private,
                    owner: owner.clone(),
                    desc: desc.clone(),
                },
            ),
            _ => None,
        }
    }
}

/// Whether every field that has a flag is resolved to the flag's value.
pub open spec fn honours(state: ResolverView, args: ArgsView) -> bool {
    &&& args.template is Some ==> state.template == args.template
    &&& args.name is Some ==> state.name == args.name
    &&& args.description is Some ==> state.description == args.description
    &&& args.private ==> state.private == Some(true)
    &&& args.owner is Some ==> state.owner == args.owner
}

/// Whether a request is made of the flags' values wherever a flag was given.
pub open spec fn made_of_flags(request: RepoCommandView, args: ArgsView) -> bool {
    &&& args.name is Some ==> request.name == args.name->0
    &&& args.description is Some ==> request.desc == args.description->0
    &&& args.private ==> request.private
    &&& args.owner is Some ==> request.owner == args.owner->0
}

/// A flag takes precedence: whatever the operator answers, and whatever other
/// flags were given, a field that has a flag keeps the flag's value, the field
/// that is asked for next is never one that has a flag, and the request that
/// comes out in the end is made of the flags' values.
pub proof fn lemma_flags_take_precedence(args: ArgsView, answers: Seq<AnswerView>)
    ensures
        honours(after(started(args), answers), args),
        pending(after(started(args), answers)) matches Some(field) ==> !flagged(args, field),
        requested(after(started(args), answers)) matches Some(request) ==> made_of_flags(
            request,
            args,
        ),
    decreases answers.len(),
{
    if answers.len() > 0 {
        lemma_flags_take_precedence(args, answers.drop_last());
    }
}

/// Only a pending field changes: an answer leaves every resolved field as it
/// is.
pub proof fn lemma_answer_keeps_resolved(state: ResolverView, answer: AnswerView, field: Field)
    requires
        resolved(state, field),
    ensures
        resolved(answered(state, answer), field),
        field == Field::Template ==> answered(state, answer).template == state.template,
        field == Field::Name ==> answered(state, answer).name == state.name,
        field == Field::Description ==> answered(state, answer).description == state.description,
        field == Field::Private ==> answered(state, answer).private == state.private,
        field == Field::Owner ==> answered(state, answer).owner == state.owner,
{
}

} // verus!
