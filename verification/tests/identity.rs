use cargo_template::errors::Error;
use cargo_template::identity::{
    email_sources, format_author, get_environment_variable, get_name_and_email, name_sources, trim,
    Identity, Source,
};

fn some(text: &str) -> Option<String> {
    Some(text.to_string())
}

#[test]
fn login_name_alone_gives_name_without_email() {
    let names = vec![None, None, None, None, some("ada"), None];
    let emails = vec![None, None, None, None, None];
    let identity = get_name_and_email(&names, &emails, false).unwrap();
    assert_eq!(identity.name, "ada");
    assert_eq!(identity.email, None);
}

#[test]
fn first_source_with_a_value_wins() {
    let names = vec![None, some(""), some(" Grace Hopper\t"), some("git"), some("login"), some("n")];
    let emails = vec![some(""), None, None, some("  g@example.com \n"), some("later@example.com")];
    let identity = get_name_and_email(&names, &emails, true).unwrap();
    assert_eq!(identity.name, "Grace Hopper");
    assert_eq!(identity.email.as_deref(), Some("g@example.com"));
}

#[test]
fn no_name_is_an_error_that_names_the_variable() {
    let names = vec![None, None, some(""), None, None, None];
    let emails = vec![some("a@example.com")];
    assert!(matches!(
        get_name_and_email(&names, &emails, false),
        Err(Error::NameUnresolved(ref v)) if v == "USER"
    ));
    assert!(matches!(
        get_name_and_email(&names, &emails, true),
        Err(Error::NameUnresolved(ref v)) if v == "USERNAME"
    ));
    assert!(matches!(
        get_name_and_email(&Vec::new(), &Vec::new(), false),
        Err(Error::NameUnresolved(_))
    ));
}

#[test]
fn name_of_white_space_alone_is_no_name() {
    let names = vec![some(" \t\u{a0}\u{2003} "), some("later")];
    assert!(matches!(
        get_name_and_email(&names, &Vec::new(), false),
        Err(Error::NameUnresolved(_))
    ));
}

#[test]
fn first_value_passes_over_what_is_unset_or_empty() {
    assert_eq!(get_environment_variable(&vec![None, some(""), some("x"), some("y")]), some("x"));
    assert_eq!(get_environment_variable(&vec![some(" "), some("y")]), some(" "));
    assert_eq!(get_environment_variable(&vec![None, some("")]), None);
    assert_eq!(get_environment_variable(&Vec::new()), None);
}

#[test]
fn trim_removes_the_white_space_around() {
    assert_eq!(trim("  Ada Lovelace \n"), "Ada Lovelace");
    assert_eq!(trim("Ada"), "Ada");
    assert_eq!(trim(""), "");
    assert_eq!(trim(" \t\r\n"), "");
    assert_eq!(trim("\u{a0}\u{3000}x y\u{2028}"), "x y");
    assert_eq!(trim(" \u{e9}t\u{e9} "), "\u{e9}t\u{e9}");
    assert_eq!(trim("a"), "a");
    assert_eq!(trim(" a"), "a");
    assert_eq!(trim("a "), "a");
    assert_eq!(trim("_ _"), "_ _");
}

#[test]
fn author_is_formatted_with_and_without_email() {
    assert_eq!(format_author("Ada", &some("ada@example.com")), "Ada <ada@example.com>");
    assert_eq!(format_author("Ada", &None), "Ada");
    assert_eq!(format_author("", &some("")), " <>");
    let identity = Identity { name: "Ada".to_string(), email: some("a@b") };
    assert_eq!(identity.line(), "Ada <a@b>");
}

fn names_of(sources: &[Source]) -> Vec<String> {
    let mut out = Vec::new();
    for source in sources {
        match source {
            Source::Variable(name) => out.push(format!("env:{}", name)),
            Source::VcsSetting(key) => out.push(format!("vcs:{}", key)),
        }
    }
    out
}

#[test]
fn name_chain_has_its_order() {
    assert_eq!(
        names_of(&name_sources(false)),
        vec![
            "env:CARGO_NAME",
            "env:GIT_AUTHOR_NAME",
            "env:GIT_COMMITTER_NAME",
            "vcs:user.name",
            "env:USER",
            "env:NAME"
        ]
    );
    assert_eq!(names_of(&name_sources(true))[4], "env:USERNAME");
}

#[test]
fn email_chain_has_its_order() {
    assert_eq!(
        names_of(&email_sources()),
        vec![
            "env:CARGO_EMAIL",
            "env:GIT_AUTHOR_EMAIL",
            "env:GIT_COMMITTER_EMAIL",
            "vcs:user.email",
            "env:EMAIL"
        ]
    );
}

fn has_white_space_property(code: u32) -> bool {
    matches!(
        code,
        0x09..=0x0D
            | 0x20
            | 0x85
            | 0xA0
            | 0x1680
            | 0x2000..=0x200A
            | 0x2028
            | 0x2029
            | 0x202F
            | 0x205F
            | 0x3000
    )
}

#[test]
fn white_space_is_the_set_of_the_character_database() {
    let mut count = 0;
    for code in 0..=0x10FFFFu32 {
        if let Some(c) = char::from_u32(code) {
            let mut text = String::new();
            text.push(c);
            let blank = trim(&text).is_empty();
            assert_eq!(blank, has_white_space_property(code), "U+{:04X}", code);
            if blank {
                count += 1;
            }
        }
    }
    assert_eq!(count, 25);
}

#[test]
fn plain_name_is_kept_as_it_is() {
    let names = vec![None, None, None, None, Some("alice".to_string()), None];
    let identity = get_name_and_email(&names, &vec![None; 5], false).unwrap();
    assert_eq!(identity.name, "alice");
    assert_eq!(identity.email, None);
    assert_eq!(trim("alice"), "alice");
}
