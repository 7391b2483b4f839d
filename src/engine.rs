use vstd::prelude::*;

use crate::command::RegexCommand;
use crate::resolve::{validated, Failure, MatchConfig};

verus! {

#[verifier::external_type_specification]
#[verifier::external_body]
pub struct ExRegex(regex::Regex);

#[verifier::external_type_specification]
#[verifier::external_body]
pub struct ExRegexError(regex::Error);

/// Whether the regex engine accepts `pattern` under `config`.
pub uninterp spec fn compiles(pattern: Seq<char>, config: MatchConfig) -> bool;

/// What is left of `haystack` once every non-overlapping match of `pattern`,
/// compiled under `config`, is removed.
pub uninterp spec fn erased(pattern: Seq<char>, config: MatchConfig, haystack: Seq<char>) -> Seq<
    char,
>;

/// Relies on regex::RegexBuilder (`new`, its option setters and `build`) to
/// compile `pattern` under `config`, and on regex::Regex::replace_all with an
/// empty replacement to remove every non-overlapping match from `haystack`.
/// Both results depend on these values alone.
#[verifier::external_body]
fn compile_and_erase(pattern: &str, config: &MatchConfig, haystack: &str) -> (r: Result<
    String,
    regex::Error,
>)
    ensures
        r is Ok == compiles(pattern@, *config),
        r matches Ok(s) ==> s@ == erased(pattern@, *config, haystack@),
{
    let re = regex::RegexBuilder::new(pattern)
        .case_insensitive(config.case_insensitive)
        .ignore_whitespace(config.ignore_whitespace)
        .dot_matches_new_line(config.dot_matches_new_line)
        .multi_line(config.multi_line)
        .octal(config.octal)
        .swap_greed(config.swap_greed)
        .unicode(config.unicode)
        .line_terminator(config.line_terminator)
        .crlf(config.crlf)
        .build()?;
    Ok(re.replace_all(haystack, "").into_owned())
}

/// The exit status for what remains of the haystack once every match is
/// erased: 0 when nothing remains, 1 otherwise.
pub open spec fn status_of(residue: Seq<char>) -> i32 {
    if residue.len() == 0 {
        0
    } else {
        1
    }
}

/// Gives the exit status for the text left after erasing every match.
pub fn exit_status(residue: &String) -> (r: i32)
    ensures
        r == status_of(residue@),
{
    if residue.as_str().is_empty() {
        0
    } else {
        1
    }
}

impl RegexCommand {
    /// Validates the resolved command, compiles its pattern and erases every
    /// match from its haystack; gives the exit status.
    pub fn evaluate(&self) -> (r: Result<i32, Failure>)
        requires
            self.wf(),
        ensures
            validated(*self) matches Err(e) ==> r == Err::<i32, Failure>(e),
            validated(*self) matches Ok(config) ==> {
                &&& (r is Err <==> !compiles(self.pattern@, config))
                &&& (r matches Err(e) ==> e is Pattern)
                &&& (r matches Ok(status) ==> self.haystack matches Some(h) && status == status_of(
                    erased(self.pattern@, config, h@),
                ))
            },
    {
        let config = match self.match_config() {
            Ok(config) => config,
            Err(e) => return Err(e),
        };
        let haystack = match &self.haystack {
            Some(h) => h,
            None => return Err(Failure::EmptyHaystack),
        };
        match compile_and_erase(self.pattern.as_str(), &config, haystack.as_str()) {
            Ok(residue) => Ok(exit_status(&residue)),
            Err(e) => Err(Failure::Pattern(e)),
        }
    }
}

/// Verbosity never changes the outcome: two commands that differ only in
/// `verbose` are validated alike and, once valid, compile alike and leave the
/// same residue.
pub proof fn lemma_verbose_does_not_change_outcome(a: RegexCommand, b: RegexCommand)
    requires
        a.pattern == b.pattern,
        a.haystack == b.haystack,
        a.case_insensitive == b.case_insensitive,
        a.line_endings == b.line_endings,
        a.single_line == b.single_line,
        a.multiline == b.multiline,
        a.ignore_whitespace == b.ignore_whitespace,
        a.swap_greed == b.swap_greed,
        a.octal == b.octal,
        a.disable_unicode == b.disable_unicode,
    ensures
        validated(a) == validated(b),
        validated(a) matches Ok(config) ==> compiles(a.pattern@, config) == compiles(
            b.pattern@,
            config,
        ),
        validated(a) matches Ok(config) ==> (a.haystack matches Some(h) && b.haystack matches Some(
            k,
        ) ==> erased(a.pattern@, config, h@) == erased(b.pattern@, config, k@)),
{
}

} // verus!
