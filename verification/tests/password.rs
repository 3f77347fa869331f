use clap::{App, Arg, ArgMatches};
use ffsend_cli::cmd::arg::password::ArgPassword;
use ffsend_cli::cmd::arg::{ArgSpec, FlagState};
use std::cell::Cell;

fn flag(spec: &ArgSpec) -> Arg<'static, 'static> {
    Arg::with_name(spec.name)
        .long(spec.long)
        .short(spec.short)
        .alias(spec.alias)
        .value_name(spec.value_name)
        .min_values(spec.min_values)
        .max_values(spec.max_values)
        .help(spec.help)
}

fn parse(args: &[&str]) -> ArgMatches<'static> {
    let mut line = vec!["ffsend"];
    line.extend_from_slice(args);
    App::new("ffsend")
        .arg(flag(&ArgPassword::build()))
        .arg(Arg::with_name("verbose").long("verbose"))
        .get_matches_from_safe(line)
        .expect("the command line parses")
}

fn never() -> String {
    panic!("the prompt must not be called")
}

#[test]
fn name_is_password() {
    assert_eq!(ArgPassword::name(), "password");
}

#[test]
fn build_describes_the_flag() {
    let spec = ArgPassword::build();
    assert_eq!(spec.name, "password");
    assert_eq!(spec.long, "password");
    assert_eq!(spec.short, "p");
    assert_eq!(spec.alias, "pass");
    assert_eq!(spec.value_name, "PASSWORD");
    assert_eq!(spec.min_values, 0);
    assert_eq!(spec.max_values, 1);
    assert_eq!(spec.help, "Unlock a password protected file");
}

#[test]
fn bare_flag_asks_the_prompt() {
    let matches = parse(&["--password"]);
    let calls = Cell::new(0u32);
    let password = ArgPassword::value(&matches, || {
        calls.set(calls.get() + 1);
        "hunter2".to_string()
    });
    assert_eq!(password, Some("hunter2".to_string()));
    assert_eq!(calls.get(), 1);
}

#[test]
fn attached_value_is_the_password() {
    let matches = parse(&["--password=secret"]);
    assert_eq!(ArgPassword::value(&matches, never), Some("secret".to_string()));
}

#[test]
fn absent_flag_gives_no_password() {
    let matches = parse(&[]);
    assert_eq!(ArgPassword::value(&matches, never), None);
}

#[test]
fn other_flags_do_not_count() {
    let matches = parse(&["--verbose"]);
    assert_eq!(ArgPassword::value(&matches, never), None);
    assert!(!ArgPassword::is_present(&matches));
    assert_eq!(ArgPassword::value_raw(&matches), None);
}

#[test]
fn value_after_a_space() {
    let matches = parse(&["--password", "secret"]);
    assert_eq!(ArgPassword::value(&matches, never), Some("secret".to_string()));
}

#[test]
fn short_form() {
    let matches = parse(&["-p", "secret"]);
    assert_eq!(ArgPassword::value(&matches, never), Some("secret".to_string()));
    let bare = parse(&["-p"]);
    assert_eq!(
        ArgPassword::value(&bare, || "typed".to_string()),
        Some("typed".to_string())
    );
}

#[test]
fn alias_form() {
    let matches = parse(&["--pass=secret"]);
    assert_eq!(ArgPassword::value(&matches, never), Some("secret".to_string()));
    let bare = parse(&["--pass"]);
    assert!(ArgPassword::is_present(&bare));
    assert_eq!(
        ArgPassword::value(&bare, || "typed".to_string()),
        Some("typed".to_string())
    );
}

#[test]
fn value_is_not_trimmed() {
    let matches = parse(&["--password=  a b  "]);
    assert_eq!(ArgPassword::value(&matches, never), Some("  a b  ".to_string()));
}

#[test]
fn empty_prompt_answer_is_kept() {
    let matches = parse(&["--password"]);
    assert_eq!(ArgPassword::value(&matches, String::new), Some(String::new()));
}

#[test]
fn more_than_one_value_is_refused_by_the_parser() {
    let parsed = App::new("ffsend")
        .arg(flag(&ArgPassword::build()))
        .get_matches_from_safe(vec!["ffsend", "--password", "a", "b"]);
    assert!(parsed.is_err());
}

#[test]
fn lookups_read_the_invocation() {
    let with_value = parse(&["--password=secret"]);
    assert!(ArgPassword::is_present(&with_value));
    assert_eq!(ArgPassword::value_raw(&with_value), Some("secret".to_string()));
    let bare = parse(&["--password"]);
    assert!(ArgPassword::is_present(&bare));
    assert_eq!(ArgPassword::value_raw(&bare), None);
    let absent = parse(&[]);
    assert!(!ArgPassword::is_present(&absent));
    assert_eq!(ArgPassword::value_raw(&absent), None);
}

#[test]
fn state_tells_the_three_cases_apart() {
    assert!(matches!(ArgPassword::state(&parse(&[])), FlagState::Absent));
    assert!(matches!(ArgPassword::state(&parse(&["--password"])), FlagState::Bare));
    match ArgPassword::state(&parse(&["--password=secret"])) {
        FlagState::Value(v) => assert_eq!(v, "secret"),
        other => panic!("unexpected state {:?}", other),
    }
}

#[test]
fn state_of_any_flag() {
    let matches = parse(&["--verbose", "--password=x"]);
    assert!(matches!(FlagState::of(&matches, "verbose"), FlagState::Bare));
    assert!(matches!(FlagState::of(&matches, "unknown"), FlagState::Absent));
    match FlagState::of(&matches, "password") {
        FlagState::Value(v) => assert_eq!(v, "x"),
        other => panic!("unexpected state {:?}", other),
    }
}

#[test]
fn classify_asks_presence_first() {
    assert!(matches!(FlagState::classify(false, None), FlagState::Absent));
    assert!(matches!(
        FlagState::classify(false, Some("ignored".to_string())),
        FlagState::Absent
    ));
    assert!(matches!(FlagState::classify(true, None), FlagState::Bare));
    match FlagState::classify(true, Some(String::new())) {
        FlagState::Value(v) => assert_eq!(v, ""),
        other => panic!("unexpected state {:?}", other),
    }
}

#[test]
fn only_the_bare_flag_needs_the_prompt() {
    assert!(!ArgPassword::needs_prompt(&FlagState::Absent));
    assert!(ArgPassword::needs_prompt(&FlagState::Bare));
    assert!(!ArgPassword::needs_prompt(&FlagState::Value("v".to_string())));
    assert!(!ArgPassword::needs_prompt(&FlagState::Value(String::new())));
}

#[test]
fn resolve_follows_the_state() {
    assert_eq!(ArgPassword::resolve(FlagState::Absent, never), None);
    assert_eq!(
        ArgPassword::resolve(FlagState::Value(String::new()), never),
        Some(String::new())
    );
    assert_eq!(
        ArgPassword::resolve(FlagState::Value("secret".to_string()), never),
        Some("secret".to_string())
    );
    let calls = Cell::new(0u32);
    let password = ArgPassword::resolve(FlagState::Bare, || {
        calls.set(calls.get() + 1);
        "hunter2".to_string()
    });
    assert_eq!(password, Some("hunter2".to_string()));
    assert_eq!(calls.get(), 1);
}

#[test]
fn resolving_twice_gives_the_same() {
    for args in [vec![], vec!["--password"], vec!["--password=secret"], vec!["--password="]] {
        let matches = parse(&args);
        let first = ArgPassword::value(&matches, || "fixed".to_string());
        let second = ArgPassword::value(&matches, || "fixed".to_string());
        assert_eq!(first, second);
    }
}
