use runice::config::{ClassesMapping, RuniceClassConfig, RuniceRuleConfig, RulesMapping};
use runice::matcher::{join_args, match_process, match_rule, select_rule, ProcessInfo};
use runice::validate::{validate_config, ClassFault, ConfigError, RuleFault};

fn rule(class: &str, name: Option<&str>, exe: Option<&str>, cmdline: Option<&str>) -> RuniceRuleConfig {
    RuniceRuleConfig {
        class: class.to_string(),
        name: name.map(|s| s.to_string()),
        exe: exe.map(|s| s.to_string()),
        cmdline: cmdline.map(|s| s.to_string()),
        user: None,
    }
}

fn class(niceness: i8) -> RuniceClassConfig {
    RuniceClassConfig {
        niceness: Some(niceness),
        sched_policy: None,
        sched_priority: None,
        iosched_class: None,
        iosched_priority: None,
        oom_score_adj: None,
        cgroup: None,
        affinity: None,
    }
}

fn process(name: &str, exe: Option<&str>, args: Option<Vec<&str>>) -> ProcessInfo {
    ProcessInfo::new(
        42,
        name.to_string(),
        exe.map(|s| s.to_string()),
        args.map(|a| a.into_iter().map(|s| s.to_string()).collect()),
    )
}

fn classes() -> ClassesMapping {
    vec![("bg".to_string(), class(10)), ("fg".to_string(), class(-5))]
}

#[test]
fn no_rule_matches_gives_no_class() {
    let rules: RulesMapping = vec![
        ("a".to_string(), rule("bg", Some("foo"), None, None)),
        ("b".to_string(), rule("fg", None, Some("/usr/bin/bar"), None)),
        ("c".to_string(), rule("fg", None, None, Some("^baz "))),
    ];
    let classes = classes();
    let p = process("qux", Some("/usr/bin/qux"), Some(vec!["qux", "--baz"]));
    assert_eq!(match_rule(&p, &rules), None);
    assert!(match_process(&p, &rules, &classes).is_none());
}

#[test]
fn empty_rule_set_gives_no_class() {
    let rules: RulesMapping = vec![];
    let classes = classes();
    let p = process("foo", None, None);
    assert!(match_process(&p, &rules, &classes).is_none());
}

#[test]
fn first_matching_rule_wins() {
    let rules: RulesMapping = vec![
        ("first".to_string(), rule("bg", Some("foo"), None, None)),
        ("second".to_string(), rule("fg", None, Some("/usr/bin/foo"), None)),
    ];
    let classes = classes();
    let p = process("foo", Some("/usr/bin/foo"), Some(vec!["foo"]));
    assert_eq!(match_rule(&p, &rules), Some(0));
    assert_eq!(match_process(&p, &rules, &classes).unwrap().niceness, Some(10));

    let reversed: RulesMapping = vec![rules[1].clone(), rules[0].clone()];
    assert_eq!(match_process(&p, &reversed, &classes).unwrap().niceness, Some(-5));
}

#[test]
fn name_predicate_alone() {
    let rules: RulesMapping = vec![("r".to_string(), rule("bg", Some("foo"), None, None))];
    assert_eq!(match_rule(&process("foo", Some("/x"), Some(vec!["y"])), &rules), Some(0));
    assert_eq!(match_rule(&process("foobar", Some("/x"), Some(vec!["foo"])), &rules), None);
}

#[test]
fn exe_predicate_alone() {
    let rules: RulesMapping = vec![("r".to_string(), rule("bg", None, Some("/usr/bin/foo"), None))];
    assert_eq!(match_rule(&process("x", Some("/usr/bin/foo"), None), &rules), Some(0));
    assert_eq!(match_rule(&process("foo", Some("/usr/bin/foo2"), Some(vec!["/usr/bin/foo"])), &rules), None);
}

#[test]
fn cmdline_predicate_alone() {
    let rules: RulesMapping = vec![("r".to_string(), rule("bg", None, None, Some("fo+ --fast")))];
    assert_eq!(match_rule(&process("x", None, Some(vec!["run", "fooo", "--fast"])), &rules), Some(0));
    assert_eq!(match_rule(&process("fooo", None, Some(vec!["fooo", "--slow"])), &rules), None);
    assert_eq!(match_rule(&process("x", None, None), &rules), None);
}

#[test]
fn invalid_pattern_matches_nothing() {
    let rules: RulesMapping = vec![("r".to_string(), rule("bg", None, None, Some("(unclosed")))];
    assert_eq!(match_rule(&process("x", None, Some(vec!["(unclosed"])), &rules), None);
}

#[test]
fn rule_with_several_fields_needs_one() {
    let rules: RulesMapping = vec![("r".to_string(), rule("bg", Some("nomatch"), Some("/nomatch"), Some("needle")))];
    assert_eq!(match_rule(&process("x", Some("/y"), Some(vec!["a", "needle"])), &rules), Some(0));
}

#[test]
fn select_rule_uses_given_pattern_results() {
    let rules: RulesMapping = vec![
        ("a".to_string(), rule("bg", None, None, Some("p"))),
        ("b".to_string(), rule("fg", None, None, Some("q"))),
    ];
    let p = process("x", None, None);
    assert_eq!(select_rule(&rules, &p, &vec![false, true]), Some(1));
    assert_eq!(select_rule(&rules, &p, &vec![true, true]), Some(0));
    assert_eq!(select_rule(&rules, &p, &vec![false, false]), None);
}

#[test]
fn unreadable_exe_does_not_match_empty_exe_rule() {
    let rules: RulesMapping = vec![("r".to_string(), rule("bg", None, Some(""), None))];
    let classes = classes();
    assert_eq!(
        validate_config(&rules, &classes),
        Err(ConfigError::Rule { index: 0, fault: RuleFault::EmptyField })
    );
    let p = process("gone", None, None);
    assert_eq!(p.exe, "");
    let valid: RulesMapping = vec![("r".to_string(), rule("bg", None, Some("/usr/bin/gone"), None))];
    assert_eq!(validate_config(&valid, &classes), Ok(()));
    assert_eq!(match_rule(&p, &valid), None);
}

#[test]
fn arguments_are_joined_with_spaces() {
    let args = vec!["a".to_string(), "bc".to_string(), "d".to_string()];
    assert_eq!(join_args(&args), "a bc d");
    assert_eq!(join_args(&vec![]), "");
    let p = process("x", None, Some(vec!["one", "two"]));
    assert_eq!(p.cmdline, "one two");
}

#[test]
fn missing_class_is_refused() {
    let rules: RulesMapping = vec![
        ("ok".to_string(), rule("bg", Some("a"), None, None)),
        ("bad".to_string(), rule("nosuch", Some("b"), None, None)),
    ];
    assert_eq!(
        validate_config(&rules, &classes()),
        Err(ConfigError::Rule { index: 1, fault: RuleFault::UnknownClass })
    );
}

#[test]
fn invalid_pattern_is_refused() {
    let rules: RulesMapping = vec![("r".to_string(), rule("bg", None, None, Some("a[")))];
    assert_eq!(
        validate_config(&rules, &classes()),
        Err(ConfigError::Rule { index: 0, fault: RuleFault::InvalidPattern })
    );
}

#[test]
fn unknown_symbol_in_class_is_refused() {
    let mut bad = class(0);
    bad.iosched_class = Some("besteffort".to_string());
    let classes: ClassesMapping = vec![("bg".to_string(), class(1)), ("odd".to_string(), bad)];
    let rules: RulesMapping = vec![("r".to_string(), rule("bg", Some("a"), None, None))];
    assert_eq!(
        validate_config(&rules, &classes),
        Err(ConfigError::Class { index: 1, fault: ClassFault::UnknownRepresentation })
    );
}

fn one_class(c: RuniceClassConfig) -> Result<(), ConfigError> {
    let rules: RulesMapping = vec![("r".to_string(), rule("bg", Some("a"), None, None))];
    validate_config(&rules, &vec![("bg".to_string(), c)])
}

#[test]
fn niceness_range_is_checked() {
    assert_eq!(
        one_class(class(100)),
        Err(ConfigError::Class { index: 0, fault: ClassFault::NicenessOutOfRange })
    );
    assert_eq!(
        one_class(class(-21)),
        Err(ConfigError::Class { index: 0, fault: ClassFault::NicenessOutOfRange })
    );
    assert_eq!(one_class(class(-20)), Ok(()));
    assert_eq!(one_class(class(19)), Ok(()));
}

#[test]
fn io_priority_range_is_checked() {
    let mut c = class(0);
    c.iosched_priority = Some(9);
    assert_eq!(one_class(c.clone()), Err(ConfigError::Class { index: 0, fault: ClassFault::IoPriorityOutOfRange }));
    c.iosched_priority = Some(-1);
    assert_eq!(one_class(c.clone()), Err(ConfigError::Class { index: 0, fault: ClassFault::IoPriorityOutOfRange }));
    c.iosched_priority = Some(7);
    assert_eq!(one_class(c.clone()), Ok(()));
    c.iosched_priority = Some(0);
    assert_eq!(one_class(c), Ok(()));
}

#[test]
fn reserved_policy_is_refused() {
    let mut c = class(0);
    c.sched_policy = Some("other".to_string());
    assert_eq!(one_class(c.clone()), Err(ConfigError::Class { index: 0, fault: ClassFault::ReservedPolicy }));
    c.sched_policy = Some("fifo".to_string());
    assert_eq!(one_class(c), Ok(()));
}

#[test]
fn duplicate_names_are_refused() {
    let rules: RulesMapping = vec![
        ("r".to_string(), rule("bg", Some("a"), None, None)),
        ("r".to_string(), rule("fg", Some("b"), None, None)),
    ];
    assert_eq!(
        validate_config(&rules, &classes()),
        Err(ConfigError::Rule { index: 1, fault: RuleFault::DuplicateName })
    );
    let twice: ClassesMapping = vec![("bg".to_string(), class(1)), ("bg".to_string(), class(2))];
    let one: RulesMapping = vec![("r".to_string(), rule("bg", Some("a"), None, None))];
    assert_eq!(
        validate_config(&one, &twice),
        Err(ConfigError::Class { index: 1, fault: ClassFault::DuplicateName })
    );
}

#[test]
fn rule_description() {
    let r = rule("bg", Some("foo"), None, Some("x y"));
    assert_eq!(r.describe(), "class=bg, name=foo, exe=, cmdline=x y, user=\n");
}
