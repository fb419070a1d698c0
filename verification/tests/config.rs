use repogen::command::{generate_command, RepoCommand};
use repogen::config::{Config, Repo};
use repogen::path::{bin_dir_file, NoDirectory, SiblingFile};

fn repo(name: &str, link: &str) -> Repo {
    Repo { link: link.to_string(), name: name.to_string() }
}

fn sample_config() -> Config {
    Config {
        configs: vec![
            repo("rust", "acme/rust-template"),
            repo("web", "acme/web-template"),
            repo("rust", "other/second-rust"),
            repo("docs", "acme/docs"),
        ],
    }
}

#[test]
fn names_are_offered_in_file_order() {
    assert_eq!(sample_config().names(), vec!["rust", "web", "rust", "docs"]);
    assert_eq!(Config { configs: Vec::new() }.names(), Vec::<String>::new());
}

#[test]
fn resolve_substitutes_the_link_of_a_configured_name() {
    assert_eq!(sample_config().resolve("web"), repo("web", "acme/web-template"));
    assert_eq!(sample_config().resolve("docs"), repo("docs", "acme/docs"));
}

#[test]
fn resolve_takes_the_first_of_equal_names() {
    assert_eq!(sample_config().resolve("rust"), repo("rust", "acme/rust-template"));
}

#[test]
fn resolve_keeps_an_unknown_name_verbatim() {
    assert_eq!(sample_config().resolve("someone/thing"), repo("someone/thing", "someone/thing"));
    assert_eq!(sample_config().resolve("Rust"), repo("Rust", "Rust"));
    assert_eq!(sample_config().resolve(""), repo("", ""));
    assert_eq!(Config { configs: Vec::new() }.resolve("a/b"), repo("a/b", "a/b"));
}

fn command(name: &str, private: bool, owner: &str, desc: &str) -> RepoCommand {
    RepoCommand {
        name: name.to_string(),
        private,
        owner: owner.to_string(),
        desc: desc.to_string(),
    }
}

#[test]
fn concat_attaches_the_owner_only_when_given() {
    assert_eq!(
        command("demo", true, "", "a test").concat(),
        vec!["-F", "name=demo", "-F", "description=a test", "-F", "private=true"]
    );
    assert_eq!(
        command("demo", false, "acme", "").concat(),
        vec!["-F", "name=demo", "-F", "description=", "-F", "private=false", "-F", "owner=acme"]
    );
}

#[test]
fn generate_command_posts_to_the_template_endpoint() {
    assert_eq!(
        generate_command("acme/rust-template", &command("demo", false, "me", "d")),
        vec![
            "api",
            "/repos/acme/rust-template/generate",
            "-X",
            "POST",
            "-F",
            "name=demo",
            "-F",
            "description=d",
            "-F",
            "private=false",
            "-F",
            "owner=me"
        ]
    );
}

#[test]
fn bin_dir_file_places_the_file_beside_the_executable() {
    assert_eq!(
        bin_dir_file("/usr/local/bin/tool", "config.yaml"),
        Ok(SiblingFile {
            dir: "/usr/local/bin".to_string(),
            stem: "config".to_string(),
            extension: "yaml".to_string(),
        })
    );
    assert_eq!(
        bin_dir_file("bin/tool", "a.b.c"),
        Ok(SiblingFile { dir: "bin".to_string(), stem: "a".to_string(), extension: "b".to_string() })
    );
    assert_eq!(
        bin_dir_file("rel/ünï/tool", ".hidden"),
        Ok(SiblingFile {
            dir: "rel/ünï".to_string(),
            stem: "".to_string(),
            extension: "hidden".to_string(),
        })
    );
}

#[test]
fn bin_dir_file_keeps_the_root_for_an_executable_directly_under_it() {
    let place = bin_dir_file("/ghtpl", "config.yaml");
    assert_eq!(
        place,
        Ok(SiblingFile {
            dir: "/".to_string(),
            stem: "config".to_string(),
            extension: "yaml".to_string(),
        })
    );
    let mut path = std::path::PathBuf::new();
    match place {
        Ok(file) => {
            path.push(file.dir);
            path.push(file.stem);
            path.set_extension(file.extension);
        }
        Err(error) => panic!("no directory: {:?}", error),
    }
    assert_eq!(path, std::path::PathBuf::from("/config.yaml"));
    assert_eq!(
        bin_dir_file("//tool", "config.yaml"),
        Ok(SiblingFile {
            dir: "/".to_string(),
            stem: "config".to_string(),
            extension: "yaml".to_string(),
        })
    );
}

#[test]
fn bin_dir_file_fails_without_a_directory() {
    assert_eq!(bin_dir_file("tool", "config.yaml"), Err(NoDirectory));
    assert_eq!(bin_dir_file("", "config.yaml"), Err(NoDirectory));
}
