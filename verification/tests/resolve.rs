use repogen::args::Args;
use repogen::command::RepoCommand;
use repogen::config::{Config, Repo};
use repogen::resolve::{prompt_for, Answer, Field, Prompt, Resolver};

fn no_flags() -> Args {
    Args { private: false, template: None, config: None, name: None, description: None, owner: None }
}

fn text(value: &str) -> Option<String> {
    Some(value.to_string())
}

fn sample_config() -> Config {
    Config {
        configs: vec![
            Repo { link: "acme/rust-template".to_string(), name: "rust".to_string() },
            Repo { link: "acme/web-template".to_string(), name: "web".to_string() },
        ],
    }
}

#[test]
fn without_flags_every_field_is_asked_in_order() {
    let mut state = Resolver::new(&no_flags());
    assert_eq!(state.next_field(), Some(Field::Template));
    assert!(state.answer(Answer::Text("web".to_string())));
    assert_eq!(state.next_field(), Some(Field::Name));
    assert!(state.answer(Answer::Text("demo".to_string())));
    assert_eq!(state.next_field(), Some(Field::Description));
    assert!(state.answer(Answer::Text("about".to_string())));
    assert_eq!(state.next_field(), Some(Field::Private));
    assert!(state.answer(Answer::Confirm(false)));
    assert_eq!(state.next_field(), Some(Field::Owner));
    assert!(state.answer(Answer::Text("".to_string())));
    assert_eq!(state.next_field(), None);
    assert_eq!(
        state.template(&sample_config()),
        Some(Repo { link: "acme/web-template".to_string(), name: "web".to_string() })
    );
    assert_eq!(
        RepoCommand::new(&state),
        Some(RepoCommand {
            name: "demo".to_string(),
            private: false,
            owner: "".to_string(),
            desc: "about".to_string(),
        })
    );
}

#[test]
fn with_every_flag_nothing_is_asked() {
    let args = Args {
        private: true,
        template: text("a/b"),
        config: None,
        name: text("n"),
        description: text("d"),
        owner: text("o"),
    };
    let state = Resolver::new(&args);
    assert_eq!(state.next_field(), None);
    assert_eq!(
        state.template(&sample_config()),
        Some(Repo { link: "a/b".to_string(), name: "a/b".to_string() })
    );
    assert_eq!(
        RepoCommand::new(&state),
        Some(RepoCommand {
            name: "n".to_string(),
            private: true,
            owner: "o".to_string(),
            desc: "d".to_string(),
        })
    );
}

#[test]
fn a_flag_is_used_and_never_asked_for() {
    let args = Args {
        private: false,
        template: None,
        config: None,
        name: text("from-flag"),
        description: None,
        owner: text("flag-owner"),
    };
    let mut state = Resolver::new(&args);
    let mut asked = Vec::new();
    while let Some(field) = state.next_field() {
        asked.push(field);
        let answer = match field {
            Field::Private => Answer::Confirm(true),
            _ => Answer::Text("typed".to_string()),
        };
        assert!(state.answer(answer));
    }
    assert_eq!(asked, vec![Field::Template, Field::Description, Field::Private]);
    assert_eq!(
        RepoCommand::new(&state),
        Some(RepoCommand {
            name: "from-flag".to_string(),
            private: true,
            owner: "flag-owner".to_string(),
            desc: "typed".to_string(),
        })
    );
}

#[test]
fn the_private_toggle_only_skips_the_question_when_set() {
    let mut set = no_flags();
    set.private = true;
    assert_eq!(Resolver::new(&set).private, Some(true));
    assert_eq!(Resolver::new(&no_flags()).private, None);
}

#[test]
fn an_answer_of_the_wrong_kind_is_not_taken() {
    let mut state = Resolver::new(&no_flags());
    assert!(!state.answer(Answer::Confirm(true)));
    assert_eq!(state, Resolver::new(&no_flags()));
    let mut args = no_flags();
    args.template = text("t");
    args.name = text("n");
    args.description = text("d");
    let mut state = Resolver::new(&args);
    assert_eq!(state.next_field(), Some(Field::Private));
    assert!(!state.answer(Answer::Text("yes".to_string())));
    assert_eq!(state.next_field(), Some(Field::Private));
    assert_eq!(RepoCommand::new(&state), None);
}

#[test]
fn an_answer_when_nothing_is_pending_changes_nothing() {
    let args = Args {
        private: true,
        template: text("t"),
        config: None,
        name: text("n"),
        description: text("d"),
        owner: text("o"),
    };
    let mut state = Resolver::new(&args);
    assert!(!state.answer(Answer::Text("late".to_string())));
    assert!(!state.answer(Answer::Confirm(false)));
    assert_eq!(state, Resolver::new(&args));
}

#[test]
fn the_request_waits_for_its_four_fields() {
    let mut args = no_flags();
    args.name = text("n");
    args.description = text("d");
    args.owner = text("o");
    let state = Resolver::new(&args);
    assert_eq!(RepoCommand::new(&state), None);
    assert_eq!(state.template(&sample_config()), None);
}

#[test]
fn the_template_question_offers_the_configured_names() {
    assert_eq!(
        prompt_for(Field::Template, &sample_config()),
        Prompt::Select {
            message: "Template:".to_string(),
            options: vec!["rust".to_string(), "web".to_string()],
        }
    );
}

#[test]
fn the_other_questions_are_fixed() {
    let config = sample_config();
    assert_eq!(
        prompt_for(Field::Name, &config),
        Prompt::Text { message: "Name:".to_string(), placeholder: None }
    );
    assert_eq!(
        prompt_for(Field::Description, &config),
        Prompt::Text { message: "Description:".to_string(), placeholder: None }
    );
    assert_eq!(
        prompt_for(Field::Private, &config),
        Prompt::Confirm { message: "Private (y/n):".to_string() }
    );
    assert_eq!(
        prompt_for(Field::Owner, &config),
        Prompt::Text { message: "Owner:".to_string(), placeholder: text("You") }
    );
}
