//! The user-configuration data model: settings and custom scout
//! definitions, validated before any scan starts.  Loading the file and
//! deserializing it belong to the caller; the checks and the construction of
//! the custom scouts are here.

use vstd::prelude::*;
use vstd::string::{StrSliceExecFns, StringExecFns};

use crate::error::LintScoutError;
use crate::pattern::pattern_compiles;
use crate::rule::Rule;
use crate::scout::Scout;

verus! {

/// One custom rule: id, description and the pattern text to compile.
pub struct CustomRuleConfig {
    pub id: String,
    pub description: String,
    pub pattern: String,
}

/// One custom scout: name, linter and language tags, the extensions it owns
/// and its rules.
pub struct CustomScoutConfig {
    pub name: String,
    pub linter: String,
    pub language: String,
    pub extensions: Vec<String>,
    pub rules: Vec<CustomRuleConfig>,
}

/// Scouts disabled by the configuration.
pub struct DisableConfig {
    pub scouts: Vec<String>,
}

/// The run settings of a configuration file.
pub struct Settings {
    pub exclude: Vec<String>,
    pub respect_gitignore: bool,
    pub output: String,
    pub pass_threshold: Option<u64>,
    pub disable: DisableConfig,
}

/// A validated user configuration: settings plus custom scouts.
pub struct Config {
    pub settings: Settings,
    pub scouts: Vec<CustomScoutConfig>,
}

impl Default for DisableConfig {
    /// No scout disabled.
    fn default() -> (r: DisableConfig)
        ensures
            r.scouts@.len() == 0,
    {
        DisableConfig { scouts: Vec::new() }
    }
}

impl Default for Settings {
    /// The defaults: the usual dependency directories excluded, ignore rules
    /// honored, plain text output, no pass threshold.
    fn default() -> (r: Settings)
        ensures
            r.exclude@.len() == 4,
            r.exclude@[0]@ == "node_modules"@,
            r.exclude@[1]@ == "vendor"@,
            r.exclude@[2]@ == "target"@,
            r.exclude@[3]@ == "dist"@,
            r.respect_gitignore,
            r.output@ == "text"@,
            r.pass_threshold is None,
            r.disable.scouts@.len() == 0,
    {
        let mut exclude: Vec<String> = Vec::new();
        exclude.push("node_modules".to_owned());
        exclude.push("vendor".to_owned());
        exclude.push("target".to_owned());
        exclude.push("dist".to_owned());
        Settings {
            exclude,
            respect_gitignore: true,
            output: "text".to_owned(),
            pass_threshold: None,
            disable: DisableConfig { scouts: Vec::new() },
        }
    }
}

impl Default for Config {
    /// The default settings and no custom scouts.
    fn default() -> (r: Config)
        ensures
            r.scouts@.len() == 0,
            r.settings.respect_gitignore,
            r.settings.output@ == "text"@,
            r.settings.pass_threshold is None,
    {
        Config { settings: Settings::default(), scouts: Vec::new() }
    }
}

/// What validation finds wrong first, if anything: a scout without
/// extensions, one without rules, or a pattern the engine rejects.
pub enum ValidationIssue {
    MissingExtensions { name: Seq<char> },
    MissingRules { name: Seq<char> },
    BadPattern { name: Seq<char>, pattern: Seq<char> },
}

/// The first pattern among `rules` from position `j` on that does not
/// compile.
pub open spec fn first_bad_rule_pattern(rules: Seq<CustomRuleConfig>, j: int) -> Option<Seq<char>>
    decreases rules.len() - j,
{
    if j < 0 || j >= rules.len() {
        Option::None
    } else if !pattern_compiles(rules[j].pattern@) {
        Option::Some(rules[j].pattern@)
    } else {
        first_bad_rule_pattern(rules, j + 1)
    }
}

/// The first issue among the scouts from position `i` on: for each scout in
/// order, empty extensions, then empty rules, then its patterns in order.
pub open spec fn first_issue(scouts: Seq<CustomScoutConfig>, i: int) -> Option<ValidationIssue>
    decreases scouts.len() - i,
{
    if i < 0 || i >= scouts.len() {
        Option::None
    } else if scouts[i].extensions@.len() == 0 {
        Option::Some(ValidationIssue::MissingExtensions { name: scouts[i].name@ })
    } else if scouts[i].rules@.len() == 0 {
        Option::Some(ValidationIssue::MissingRules { name: scouts[i].name@ })
    } else {
        match first_bad_rule_pattern(scouts[i].rules@, 0) {
            Option::Some(p) => Option::Some(
                ValidationIssue::BadPattern { name: scouts[i].name@, pattern: p },
            ),
            Option::None => first_issue(scouts, i + 1),
        }
    }
}

/// The first pattern among the scouts from position `i` on that does not
/// compile, paired with its scout's name; emptiness is not checked.
pub open spec fn first_bad_pattern(scouts: Seq<CustomScoutConfig>, i: int) -> Option<
    (Seq<char>, Seq<char>),
>
    decreases scouts.len() - i,
{
    if i < 0 || i >= scouts.len() {
        Option::None
    } else {
        match first_bad_rule_pattern(scouts[i].rules@, 0) {
            Option::Some(p) => Option::Some((scouts[i].name@, p)),
            Option::None => first_bad_pattern(scouts, i + 1),
        }
    }
}

/// The message of an invalid-pattern configuration error: it names the scout
/// and the offending pattern text.
pub open spec fn bad_pattern_message(name: Seq<char>, pattern: Seq<char>) -> Seq<char> {
    "custom scout '"@ + name + "' has invalid pattern '"@ + pattern + "'"@
}

/// Whether `s` is the scout built from `cfg`: same tags, same extensions,
/// one rule per configured rule with the same id, description and pattern
/// text, and no capture pattern.
pub open spec fn built_scout(s: Scout, cfg: CustomScoutConfig) -> bool {
    &&& s.name@ == cfg.name@
    &&& s.linter@ == cfg.linter@
    &&& s.language@ == cfg.language@
    &&& s.extensions@ == cfg.extensions@
    &&& s.rules@.len() == cfg.rules@.len()
    &&& forall|j: int|
        0 <= j < cfg.rules@.len() ==> {
            let ru = #[trigger] s.rules@[j];
            &&& ru.id@ == cfg.rules@[j].id@
            &&& ru.description@ == cfg.rules@[j].description@
            &&& ru.pattern_str@ == cfg.rules@[j].pattern@
            &&& ru.capture_pattern_str is None
            &&& ru.wf()
        }
}

fn message_missing(name: &str, what: &str) -> (r: String)
    ensures
        r@ == "custom scout '"@ + name@ + "' must have at least one "@ + what@,
{
    let mut m = String::from_str("custom scout '");
    m.append(name);
    m.append("' must have at least one ");
    m.append(what);
    m
}

fn message_bad_pattern(name: &str, pattern: &str) -> (r: String)
    ensures
        r@ == bad_pattern_message(name@, pattern@),
{
    let mut m = String::from_str("custom scout '");
    m.append(name);
    m.append("' has invalid pattern '");
    m.append(pattern);
    m.append("'");
    m
}

impl Config {
    /// Checks every custom scout in order: it must declare at least one
    /// extension and one rule, and each of its patterns must compile.  The
    /// error reports the first issue found, naming the scout and, for a
    /// rejected pattern, the offending text.
    pub fn validate(&self) -> (r: Result<(), LintScoutError>)
        ensures
            r is Ok <==> first_issue(self.scouts@, 0) is None,
            r is Err ==> match first_issue(self.scouts@, 0) {
                Option::Some(issue) => match issue {
                    ValidationIssue::MissingExtensions { name } => (
                    r->Err_0 matches LintScoutError::Config(m) && m@ == "custom scout '"@ + name
                        + "' must have at least one "@ + "extension"@),
                    ValidationIssue::MissingRules { name } => (
                    r->Err_0 matches LintScoutError::Config(m) && m@ == "custom scout '"@ + name
                        + "' must have at least one "@ + "rule"@),
                    ValidationIssue::BadPattern { name, pattern } => (
                    r->Err_0 matches LintScoutError::Config(m) && m@ == bad_pattern_message(
                        name,
                        pattern,
                    )),
                },
                Option::None => false,
            },
    {
        let n = self.scouts.len();
        let mut i: usize = 0;
        while i < n
            invariant
                i <= n,
                n == self.scouts@.len(),
                first_issue(self.scouts@, 0) == first_issue(self.scouts@, i as int),
            decreases n - i,
        {
            let sc = &self.scouts[i];
            if sc.extensions.len() == 0 {
                return Err(LintScoutError::Config(message_missing(sc.name.as_str(), "extension")));
            }
            if sc.rules.len() == 0 {
                return Err(LintScoutError::Config(message_missing(sc.name.as_str(), "rule")));
            }
            let m = sc.rules.len();
            let mut j: usize = 0;
            while j < m
                invariant
                    j <= m,
                    m == sc.rules@.len(),
                    i < n,
                    n == self.scouts@.len(),
                    sc == &self.scouts@[i as int],
                    sc.extensions@.len() > 0,
                    sc.rules@.len() > 0,
                    first_issue(self.scouts@, 0) == first_issue(self.scouts@, i as int),
                    first_bad_rule_pattern(sc.rules@, 0) == first_bad_rule_pattern(
                        sc.rules@,
                        j as int,
                    ),
                decreases m - j,
            {
                let rc = &sc.rules[j];
                match Rule::new(rc.id.as_str(), rc.description.as_str(), rc.pattern.as_str()) {
                    Ok(_) => {},
                    Err(_) => {
                        return Err(
                            LintScoutError::Config(
                                message_bad_pattern(sc.name.as_str(), rc.pattern.as_str()),
                            ),
                        );
                    },
                }
                j += 1;
            }
            i += 1;
        }
        Ok(())
    }

    /// Builds one scout per custom configuration, in order, each rule
    /// compiled from its pattern text; fails on the first pattern the engine
    /// rejects, naming the scout and the pattern.
    pub fn build_custom_scouts(&self) -> (r: Result<Vec<Scout>, LintScoutError>)
        ensures
            r is Ok <==> first_bad_pattern(self.scouts@, 0) is None,
            r is Ok ==> {
                &&& r->Ok_0@.len() == self.scouts@.len()
                &&& forall|i: int|
                    0 <= i < self.scouts@.len() ==> built_scout(
                        #[trigger] r->Ok_0@[i],
                        self.scouts@[i],
                    )
            },
            r is Err ==> match first_bad_pattern(self.scouts@, 0) {
                Option::Some((name, pattern)) => (r->Err_0 matches LintScoutError::Config(m)
                    && m@ == bad_pattern_message(name, pattern)),
                Option::None => false,
            },
    {
        let n = self.scouts.len();
        let mut scouts: Vec<Scout> = Vec::new();
        let mut i: usize = 0;
        while i < n
            invariant
                i <= n,
                n == self.scouts@.len(),
                scouts@.len() == i,
                first_bad_pattern(self.scouts@, 0) == first_bad_pattern(self.scouts@, i as int),
                forall|k: int|
                    0 <= k < i ==> built_scout(#[trigger] scouts@[k], self.scouts@[k]),
            decreases n - i,
        {
            let cfg = &self.scouts[i];
            let m = cfg.rules.len();
            let mut rules: Vec<Rule> = Vec::new();
            let mut j: usize = 0;
            while j < m
                invariant
                    j <= m,
                    m == cfg.rules@.len(),
                    i < n,
                    n == self.scouts@.len(),
                    cfg == &self.scouts@[i as int],
                    rules@.len() == j,
                    first_bad_pattern(self.scouts@, 0) == first_bad_pattern(
                        self.scouts@,
                        i as int,
                    ),
                    first_bad_rule_pattern(cfg.rules@, 0) == first_bad_rule_pattern(
                        cfg.rules@,
                        j as int,
                    ),
                    forall|k: int|
                        0 <= k < j ==> {
                            let ru = #[trigger] rules@[k];
                            &&& ru.id@ == cfg.rules@[k].id@
                            &&& ru.description@ == cfg.rules@[k].description@
                            &&& ru.pattern_str@ == cfg.rules@[k].pattern@
                            &&& ru.capture_pattern_str is None
                            &&& ru.wf()
                        },
                decreases m - j,
            {
                let rc = &cfg.rules[j];
                match Rule::new(rc.id.as_str(), rc.description.as_str(), rc.pattern.as_str()) {
                    Ok(ru) => {
                        rules.push(ru);
                    },
                    Err(_) => {
                        return Err(
                            LintScoutError::Config(
                                message_bad_pattern(cfg.name.as_str(), rc.pattern.as_str()),
                            ),
                        );
                    },
                }
                j += 1;
            }
            scouts.push(
                Scout {
                    name: cfg.name.clone(),
                    linter: cfg.linter.clone(),
                    language: cfg.language.clone(),
                    extensions: crate::text::clone_strings(&cfg.extensions),
                    rules,
                },
            );
            i += 1;
        }
        Ok(scouts)
    }
}

} // verus!
