use vstd::prelude::*;

use crate::text::same_text;

verus! {

/// The verbs the command line answers to.
#[derive(Clone, Copy, Debug, PartialEq, Eq, Structural)]
pub enum Verb {
    /// Start the builder and keep it running until it is interrupted.
    Run,
    /// Resolve the settings, print them and exit.
    Config,
    /// Print version information and exit.
    Version,
    /// Run the system benchmarks, print the results and exit.
    SysPerf,
}

/// A command line that names no known verb.
#[derive(Clone, Debug, PartialEq, Eq)]
pub enum UsageError {
    UnknownVerb(String),
}

/// The verb that a word names, if it names one.
pub open spec fn verb_named(word: Seq<char>) -> Option<Verb> {
    if word == "run"@ {
        Some(Verb::Run)
    } else if word == "config"@ {
        Some(Verb::Config)
    } else if word == "version"@ {
        Some(Verb::Version)
    } else if word == "sysperf"@ {
        Some(Verb::SysPerf)
    } else {
        None
    }
}

/// Reads the verb of a command line.
pub fn parse_verb(word: &str) -> (r: Result<Verb, UsageError>)
    ensures
        match verb_named(word@) {
            Some(v) => r == Ok::<Verb, UsageError>(v),
            None => r matches Err(UsageError::UnknownVerb(w)) && w@ == word@,
        },
{
    if same_text(word, "run") {
        Ok(Verb::Run)
    } else if same_text(word, "config") {
        Ok(Verb::Config)
    } else if same_text(word, "version") {
        Ok(Verb::Version)
    } else if same_text(word, "sysperf") {
        Ok(Verb::SysPerf)
    } else {
        Err(UsageError::UnknownVerb(word.to_owned()))
    }
}

impl Verb {
    /// Whether the verb loads the settings file and applies the overrides.
    pub open spec fn spec_loads_config(self) -> bool {
        self == Verb::Run || self == Verb::Config
    }

    /// Whether the verb prints its result and exits at once, rather than
    /// running until it is interrupted.
    pub open spec fn spec_exits_at_once(self) -> bool {
        self != Verb::Run
    }

    pub fn loads_config(self) -> (r: bool)
        ensures
            r == self.spec_loads_config(),
    {
        match self {
            Verb::Run | Verb::Config => true,
            Verb::Version | Verb::SysPerf => false,
        }
    }

    pub fn exits_at_once(self) -> (r: bool)
        ensures
            r == self.spec_exits_at_once(),
    {
        match self {
            Verb::Run => false,
            Verb::Config | Verb::Version | Verb::SysPerf => true,
        }
    }
}

/// Each of the four verb words names its own verb, any other word names
/// none, and only `run` keeps the process running; `run` and `config` are
/// the two that resolve the settings.
pub proof fn lemma_verbs_exhaustive(word: Seq<char>)
    ensures
        verb_named("run"@) == Some(Verb::Run),
        verb_named("config"@) == Some(Verb::Config),
        verb_named("version"@) == Some(Verb::Version),
        verb_named("sysperf"@) == Some(Verb::SysPerf),
        (word != "run"@ && word != "config"@ && word != "version"@ && word != "sysperf"@)
            ==> verb_named(word) is None,
        forall|v: Verb| #[trigger] v.spec_exits_at_once() == (v != Verb::Run),
        forall|v: Verb| #[trigger] v.spec_loads_config() == (v == Verb::Run || v == Verb::Config),
{
    reveal_strlit("run");
    reveal_strlit("config");
    reveal_strlit("version");
    reveal_strlit("sysperf");
    assert("run"@.len() != "config"@.len());
    assert("config"@.len() != "version"@.len());
    assert("version"@[0] != "sysperf"@[0]);
}

} // verus!
