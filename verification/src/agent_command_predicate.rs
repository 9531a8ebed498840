//! Predicates over commands, for the command allowlist and denylist in the
//! settings: a predicate is a regular expression that must match a whole
//! command.

use vstd::prelude::*;

verus! {

#[verifier::external_type_specification]
#[verifier::external_body]
pub struct ExRegex(regex::Regex);

#[verifier::external_type_specification]
#[verifier::external_body]
pub struct ExRegexError(regex::Error);

/// Whether `regex::Regex::new` accepts `pattern` (it is a valid pattern
/// within the default size limit).
pub uninterp spec fn regex_compiles(pattern: Seq<char>) -> bool;

/// Whether the regex compiled from `pattern` matches somewhere in `text`.
pub uninterp spec fn regex_matches(pattern: Seq<char>, text: Seq<char>) -> bool;

/// Calls `regex::Regex::new(pattern)`. The contract claims that it succeeds
/// exactly for the patterns that compile, which depends on the pattern
/// alone.
#[verifier::external_body]
fn compile_regex(pattern: &str) -> (r: Result<regex::Regex, regex::Error>)
    ensures
        r is Ok <==> regex_compiles(pattern@),
{
    regex::Regex::new(pattern)
}

/// `regex` between the anchors `^` and `$`.
pub open spec fn anchored(regex: Seq<char>) -> Seq<char> {
    seq!['^'] + regex + seq!['$']
}

/// The pattern between the first and the last character.
pub open spec fn unanchored(pattern: Seq<char>) -> Seq<char> {
    pattern.subrange(1, pattern.len() - 1)
}

/// The error of a pattern that does not compile.
#[derive(Debug)]
pub struct InvalidCommandPattern(pub regex::Error);

/// A predicate that matches the commands its regular expression matches in
/// full.
pub struct AgentModeCommandExecutionPredicate {
    /// The pattern the regex was compiled from, with its anchors.
    pattern: String,
    regex: regex::Regex,
}

impl AgentModeCommandExecutionPredicate {
    /// The anchored pattern of the predicate.
    pub closed spec fn spec_pattern(&self) -> Seq<char> {
        self.pattern@
    }

    #[verifier::type_invariant]
    closed spec fn anchored_pattern(&self) -> bool {
        &&& self.pattern@.len() >= 2
        &&& self.pattern@ == anchored(unanchored(self.pattern@))
    }

    /// A predicate for `regex`, anchored at both ends so that it must match
    /// the whole command. Fails when the anchored pattern does not compile.
    pub fn new_regex(regex: &str) -> (r: Result<Self, InvalidCommandPattern>)
        ensures
            r is Ok <==> regex_compiles(anchored(regex@)),
            r matches Ok(p) ==> p.spec_pattern() == anchored(regex@),
    {
        let mut pattern = String::from_str("^");
        pattern.append(regex);
        pattern.append("$");
        proof {
            reveal_strlit("^");
            reveal_strlit("$");
            assert(pattern@ =~= anchored(regex@));
            assert(unanchored(pattern@) =~= regex@);
        }
        match compile_regex(pattern.as_str()) {
            Ok(compiled) => Ok(AgentModeCommandExecutionPredicate { pattern, regex: compiled }),
            Err(e) => Err(InvalidCommandPattern(e)),
        }
    }

    /// Whether `cmd` matches the predicate.
    pub fn matches(&self, cmd: &str) -> (r: bool)
        ensures
            r == regex_matches(self.spec_pattern(), cmd@),
    {
        predicate_is_match(self, cmd)
    }

    /// The predicate as written in the settings: its pattern without the
    /// anchors.
    pub fn to_setting_string(&self) -> (r: String)
        ensures
            r@ == unanchored(self.spec_pattern()),
    {
        proof {
            use_type_invariant(self);
        }
        let n = self.pattern.as_str().unicode_len();
        String::from_str(self.pattern.as_str().substring_char(1, n - 1))
    }

    /// Whether two predicates hold the same pattern.
    pub fn same_as(&self, other: &Self) -> (r: bool)
        ensures
            r == (unanchored(self.spec_pattern()) == unanchored(other.spec_pattern())),
    {
        proof {
            use_type_invariant(self);
            use_type_invariant(other);
        }
        self.pattern == other.pattern
    }
}

/// Calls `is_match` of the predicate's compiled regex on `cmd`. The
/// contract claims that the regex is the one compiled from the predicate's
/// pattern, which holds because only `new_regex` builds a predicate.
#[verifier::external_body]
fn predicate_is_match(p: &AgentModeCommandExecutionPredicate, cmd: &str) -> (r: bool)
    ensures
        r == regex_matches(p.spec_pattern(), cmd@),
{
    p.regex.is_match(cmd)
}

/// The pattern that admits optional arguments after a command name.
pub const OPTIONAL_ARGS_PATTERN: &'static str = "(\\s.*)?";

/// The commands allowed by default, as unanchored patterns.
pub open spec fn default_allowlist() -> Seq<Seq<char>> {
    seq![
        "cat"@ + OPTIONAL_ARGS_PATTERN@,
        "echo"@ + OPTIONAL_ARGS_PATTERN@,
        "find .*"@,
        "grep"@ + OPTIONAL_ARGS_PATTERN@,
        "ls"@ + OPTIONAL_ARGS_PATTERN@,
        "which .*"@,
    ]
}

/// The commands denied by default, as unanchored patterns.
pub open spec fn default_denylist() -> Seq<Seq<char>> {
    seq![
        "bash"@ + OPTIONAL_ARGS_PATTERN@,
        "fish"@ + OPTIONAL_ARGS_PATTERN@,
        "pwsh"@ + OPTIONAL_ARGS_PATTERN@,
        "sh"@ + OPTIONAL_ARGS_PATTERN@,
        "zsh"@ + OPTIONAL_ARGS_PATTERN@,
        "curl"@ + OPTIONAL_ARGS_PATTERN@,
        "eval"@ + OPTIONAL_ARGS_PATTERN@,
        "exec"@ + OPTIONAL_ARGS_PATTERN@,
        "source"@ + OPTIONAL_ARGS_PATTERN@,
        "wget"@ + OPTIONAL_ARGS_PATTERN@,
        "dig"@ + OPTIONAL_ARGS_PATTERN@,
        "nslookup"@ + OPTIONAL_ARGS_PATTERN@,
        "host"@ + OPTIONAL_ARGS_PATTERN@,
        "ssh"@ + OPTIONAL_ARGS_PATTERN@,
        "scp"@ + OPTIONAL_ARGS_PATTERN@,
        "rsync"@ + OPTIONAL_ARGS_PATTERN@,
        "telnet"@ + OPTIONAL_ARGS_PATTERN@,
        "rm"@ + OPTIONAL_ARGS_PATTERN@,
    ]
}

/// The commands allowed by default, as unanchored patterns.
pub fn default_allowlist_patterns() -> (r: Vec<String>)
    ensures
        r@.map_values(|x: String| x@) == default_allowlist(),
{
    let mut r: Vec<String> = Vec::new();
    r.push(with_optional_args("cat"));
    r.push(with_optional_args("echo"));
    r.push(String::from_str("find .*"));
    r.push(with_optional_args("grep"));
    r.push(with_optional_args("ls"));
    r.push(String::from_str("which .*"));
    proof {
        assert(r@.map_values(|x: String| x@) =~= default_allowlist());
    }
    r
}

/// The commands denied by default, as unanchored patterns.
pub fn default_denylist_patterns() -> (r: Vec<String>)
    ensures
        r@.map_values(|x: String| x@) == default_denylist(),
{
    let mut r: Vec<String> = Vec::new();
    r.push(with_optional_args("bash"));
    r.push(with_optional_args("fish"));
    r.push(with_optional_args("pwsh"));
    r.push(with_optional_args("sh"));
    r.push(with_optional_args("zsh"));
    r.push(with_optional_args("curl"));
    r.push(with_optional_args("eval"));
    r.push(with_optional_args("exec"));
    r.push(with_optional_args("source"));
    r.push(with_optional_args("wget"));
    r.push(with_optional_args("dig"));
    r.push(with_optional_args("nslookup"));
    r.push(with_optional_args("host"));
    r.push(with_optional_args("ssh"));
    r.push(with_optional_args("scp"));
    r.push(with_optional_args("rsync"));
    r.push(with_optional_args("telnet"));
    r.push(with_optional_args("rm"));
    proof {
        assert(r@.map_values(|x: String| x@) =~= default_denylist());
    }
    r
}

/// `command` followed by optional arguments.
pub fn with_optional_args(command: &str) -> (r: String)
    ensures
        r@ == command@ + OPTIONAL_ARGS_PATTERN@,
{
    let mut r = String::from_str(command);
    r.append(OPTIONAL_ARGS_PATTERN);
    r
}

/// Writing a predicate to the settings and reading it back gives the same
/// pattern.
pub proof fn lemma_anchor_round_trip(regex: Seq<char>)
    ensures
        unanchored(anchored(regex)) == regex,
        anchored(regex).len() == regex.len() + 2,
{
    assert(unanchored(anchored(regex)) =~= regex);
}

} // verus!
