use rocket_syntaxes::error::StartupError;
use rocket_syntaxes::path::Configured;
use rocket_syntaxes::registry::{Access, Syntaxes};
use rocket_syntaxes::startup::{Action, Event};
use syntect::parsing::{SyntaxDefinition, SyntaxSet, SyntaxSetBuilder};

const FOO: &str = "name: Foo\nfile_extensions: [foo]\nscope: source.foo\ncontexts:\n  main:\n    - match: '\\bfoo\\b'\n      scope: keyword.other.foo\n";

fn one_definition() -> SyntaxSet {
    let mut builder = SyntaxSetBuilder::new();
    match SyntaxDefinition::load_from_str(FOO, false, Some("foo")) {
        Ok(definition) => builder.add(definition),
        Err(error) => panic!("the definition does not parse: {}", error),
    }
    builder.build()
}

fn registry_of(path: &str, set: SyntaxSet) -> Syntaxes {
    let root = "/app".to_string();
    let (fairing, _) =
        Syntaxes::fairing().step(Event::Configuration { root, value: Configured::Absent });
    let (fairing, _) = fairing.step(Event::Normalized(Ok(path.to_string())));
    match fairing.step(Event::Loaded(Ok(set))) {
        (_, Action::Install(registry)) => registry,
        _ => panic!("the registry was not handed over"),
    }
}

#[test]
fn access_without_a_registry_is_forwarded() {
    assert!(matches!(Syntaxes::from_request(None), Access::Forward));
}

#[test]
fn access_with_a_registry_grants_that_registry() {
    let registry = registry_of("/app/syntaxes", one_definition());
    match Syntaxes::from_request(Some(&registry)) {
        Access::Granted(granted) => {
            assert!(std::ptr::eq(granted, &registry));
            assert_eq!(granted.path(), "/app/syntaxes");
            assert_eq!(granted.syntaxes().len(), 1);
        }
        Access::Forward => panic!("the registry was withheld"),
    }
}

#[test]
fn a_registry_dereferences_to_its_definitions() {
    let registry = registry_of("/app/syntaxes", one_definition());
    let by_deref: &SyntaxSet = &registry;
    assert!(std::ptr::eq(by_deref, registry.syntax_set()));
    assert_eq!(registry.syntax_set().syntaxes().len(), 1);
    assert_eq!(by_deref.syntaxes()[0].name, "Foo");
    let found = match registry.find_syntax_by_name("Foo") {
        Some(syntax) => syntax,
        None => panic!("the definition is missing"),
    };
    assert_eq!(found.file_extensions, vec!["foo".to_string()]);
}

#[test]
fn errors_tell_their_directory_and_cause() {
    let config = StartupError::Config { cause: "not a path".to_string() };
    assert_eq!(config.path(), None);
    assert_eq!(config.cause(), "not a path");

    let normalization = StartupError::Normalization {
        path: "/app/defs".to_string(),
        cause: "No such file or directory".to_string(),
    };
    assert_eq!(normalization.path(), Some("/app/defs"));
    assert_eq!(normalization.cause(), "No such file or directory");

    let parse = StartupError::Parse {
        path: "/app/syntaxes".to_string(),
        cause: "Invalid YAML file syntax".to_string(),
    };
    assert_eq!(parse.path(), Some("/app/syntaxes"));
    assert_eq!(parse.cause(), "Invalid YAML file syntax");
}

#[test]
fn messages_name_the_directory_and_the_cause() {
    let config = StartupError::Config { cause: "invalid type: found 3".to_string() };
    assert_eq!(config.message(), "invalid type: found 3");

    let normalization = StartupError::Normalization {
        path: "/app/defs".to_string(),
        cause: "No such file or directory (os error 2)".to_string(),
    };
    assert_eq!(
        normalization.message(),
        "Invalid syntaxes path '/app/defs': No such file or directory (os error 2)."
    );

    let parse = StartupError::Parse {
        path: "syntaxes".to_string(),
        cause: "Invalid YAML file syntax".to_string(),
    };
    assert_eq!(parse.message(), "Couldn't load syntaxes from 'syntaxes': Invalid YAML file syntax");
}

#[test]
fn messages_keep_characters_beyond_ascii() {
    let parse = StartupError::Parse {
        path: "/d\u{e9}p\u{f4}t".to_string(),
        cause: "\u{2603}".to_string(),
    };
    assert_eq!(parse.message(), "Couldn't load syntaxes from '/d\u{e9}p\u{f4}t': \u{2603}");
}
