use rbuilder_cli::{parse_verb, UsageError, Verb};

#[test]
fn each_verb_is_recognised() {
    assert_eq!(parse_verb("run"), Ok(Verb::Run));
    assert_eq!(parse_verb("config"), Ok(Verb::Config));
    assert_eq!(parse_verb("version"), Ok(Verb::Version));
    assert_eq!(parse_verb("sysperf"), Ok(Verb::SysPerf));
}

#[test]
fn unknown_verb_is_a_usage_error() {
    assert_eq!(parse_verb("start"), Err(UsageError::UnknownVerb("start".to_string())));
    assert_eq!(parse_verb("Run"), Err(UsageError::UnknownVerb("Run".to_string())));
    assert_eq!(parse_verb("runs"), Err(UsageError::UnknownVerb("runs".to_string())));
    assert_eq!(parse_verb(""), Err(UsageError::UnknownVerb(String::new())));
}

#[test]
fn verbs_map_to_their_effects() {
    assert!(Verb::Run.loads_config());
    assert!(!Verb::Run.exits_at_once());
    assert!(Verb::Config.loads_config());
    assert!(Verb::Config.exits_at_once());
    assert!(!Verb::Version.loads_config());
    assert!(Verb::Version.exits_at_once());
    assert!(!Verb::SysPerf.loads_config());
    assert!(Verb::SysPerf.exits_at_once());
}
