use vstd::prelude::*;

use crate::command::{is_stdin_marker, stdin_marker, RegexCommand};

verus! {

/// The options handed to the regex engine once the invocation is validated.
#[derive(Debug, Clone, Copy, PartialEq, Eq, Structural)]
pub struct MatchConfig {
    pub case_insensitive: bool,
    pub ignore_whitespace: bool,
    pub dot_matches_new_line: bool,
    pub multi_line: bool,
    pub octal: bool,
    pub swap_greed: bool,
    pub unicode: bool,
    /// Both `\r` and `\n` are line terminators; this takes precedence over
    /// `line_terminator`.
    pub crlf: bool,
    /// The line terminator byte; always ASCII.
    pub line_terminator: u8,
}

/// Why an invocation cannot be run.
#[derive(Debug, PartialEq)]
pub enum Failure {
    /// The haystack is absent or empty.
    EmptyHaystack,
    /// The custom line terminator does not fit in one ASCII byte.
    NonAsciiTerminator,
    /// The regex engine rejected the pattern under the given options.
    Pattern(regex::Error),
}

/// The line feed, the terminator used when none is chosen.
pub const LINE_FEED: u8 = 10;

/// Whether a character is ASCII.
pub open spec fn is_ascii_char(c: char) -> bool {
    (c as u32) < 128
}

/// Whether a haystack is absent or empty.
pub open spec fn haystack_missing(haystack: Option<String>) -> bool {
    match haystack {
        Some(h) => h@.len() == 0,
        None => true,
    }
}

/// Whether a custom line terminator is given that is not ASCII.
pub open spec fn terminator_not_ascii(cmd: RegexCommand) -> bool {
    match cmd.line_endings.line_ending {
        Some(c) => !is_ascii_char(c),
        None => false,
    }
}

/// The engine options that a command asks for. Without a custom terminator,
/// the terminator is the line feed.
pub open spec fn config_of(cmd: RegexCommand) -> MatchConfig {
    MatchConfig {
        case_insensitive: cmd.case_insensitive,
        ignore_whitespace: cmd.ignore_whitespace,
        dot_matches_new_line: cmd.single_line,
        multi_line: cmd.multiline,
        octal: cmd.octal,
        swap_greed: cmd.swap_greed,
        unicode: !cmd.disable_unicode,
        crlf: cmd.line_endings.crlf,
        line_terminator: match cmd.line_endings.line_ending {
            Some(c) => (c as u32) as u8,
            None => LINE_FEED,
        },
    }
}

/// The outcome of validating a command, before the engine is involved.
pub open spec fn validated(cmd: RegexCommand) -> Result<MatchConfig, Failure> {
    if haystack_missing(cmd.haystack) {
        Err(Failure::EmptyHaystack)
    } else if terminator_not_ascii(cmd) {
        Err(Failure::NonAsciiTerminator)
    } else {
        Ok(config_of(cmd))
    }
}

/// Whether the haystack is read from standard input: when standard input is
/// piped and has not served the pattern, or when the haystack asks for it.
pub open spec fn reads_haystack_from_stdin(
    haystack: Option<String>,
    pattern_from_stdin: bool,
    stdin_is_terminal: bool,
) -> bool {
    (!pattern_from_stdin && !stdin_is_terminal) || match haystack {
        Some(h) => h@ == stdin_marker(),
        None => false,
    }
}

impl RegexCommand {
    /// Whether the pattern and haystack, as given, are the same text. Such an
    /// invocation succeeds at once, without validation or matching.
    pub fn is_equivalent(&self) -> (r: bool)
        ensures
            r == (self.haystack matches Some(h) && h@ == self.pattern@),
    {
        match &self.haystack {
            Some(h) => h.eq(&self.pattern),
            None => false,
        }
    }

    /// Whether the pattern is to be read from standard input.
    pub fn pattern_from_stdin(&self) -> (r: bool)
        ensures
            r == (self.pattern@ == stdin_marker()),
    {
        is_stdin_marker(&self.pattern)
    }

    /// Whether the haystack is to be read from standard input, once the
    /// pattern is resolved; `pattern_from_stdin` tells whether the pattern
    /// took standard input already.
    pub fn haystack_from_stdin(&self, pattern_from_stdin: bool, stdin_is_terminal: bool) -> (r:
        bool)
        ensures
            r == reads_haystack_from_stdin(self.haystack, pattern_from_stdin, stdin_is_terminal),
    {
        if !pattern_from_stdin && !stdin_is_terminal {
            return true;
        }
        match &self.haystack {
            Some(h) => is_stdin_marker(h),
            None => false,
        }
    }

    /// Checks the resolved haystack and the line terminator, in that order,
    /// and gives the engine options.
    pub fn match_config(&self) -> (r: Result<MatchConfig, Failure>)
        requires
            self.wf(),
        ensures
            r == validated(*self),
            haystack_missing(self.haystack) ==> r == Err::<MatchConfig, Failure>(
                Failure::EmptyHaystack,
            ),
            !haystack_missing(self.haystack) && terminator_not_ascii(*self) ==> r == Err::<
                MatchConfig,
                Failure,
            >(Failure::NonAsciiTerminator),
            !haystack_missing(self.haystack) && !terminator_not_ascii(*self) ==> r == Ok::<
                MatchConfig,
                Failure,
            >(config_of(*self)),
    {
        let empty = match &self.haystack {
            Some(h) => h.as_str().is_empty(),
            None => true,
        };
        if empty {
            return Err(Failure::EmptyHaystack);
        }
        let crlf: bool;
        let line_terminator: u8;
        match self.line_endings.line_ending {
            Some(c) => {
                let code: u32 = c as u32;
                if code >= 128 {
                    return Err(Failure::NonAsciiTerminator);
                }
                crlf = self.line_endings.crlf;
                line_terminator = code as u8;
            },
            None => {
                crlf = self.line_endings.crlf;
                line_terminator = LINE_FEED;
            },
        }
        Ok(
            MatchConfig {
                case_insensitive: self.case_insensitive,
                ignore_whitespace: self.ignore_whitespace,
                dot_matches_new_line: self.single_line,
                multi_line: self.multiline,
                octal: self.octal,
                swap_greed: self.swap_greed,
                unicode: !self.disable_unicode,
                crlf,
                line_terminator,
            },
        )
    }
}

/// Standard input is not read twice by accident: once the pattern has taken
/// it, the haystack comes from standard input only where the haystack
/// argument itself is the marker `-`.
pub proof fn lemma_stdin_serves_pattern_first(cmd: RegexCommand, stdin_is_terminal: bool)
    requires
        cmd.pattern@ == stdin_marker(),
    ensures
        reads_haystack_from_stdin(cmd.haystack, true, stdin_is_terminal) <==> (
        cmd.haystack matches Some(h) && h@ == stdin_marker()),
{
}

} // verus!
