use vstd::prelude::*;

verus! {

/// The text that asks for a value to be read from standard input.
pub open spec fn stdin_marker() -> Seq<char> {
    seq!['-']
}

/// Returns whether `s` is the standard-input marker `-`.
pub fn is_stdin_marker(s: &String) -> (r: bool)
    ensures
        r == (s@ == stdin_marker()),
{
    let marker = "-".to_owned();
    proof {
        reveal_strlit("-");
        assert(marker@ =~= stdin_marker());
    }
    s.eq(&marker)
}

/// The choice of line terminator: CRLF-aware boundaries or one custom
/// character, never both.
#[derive(Debug, Clone)]
pub struct LineEndings {
    /// Both `\r` and `\n` are line terminators.
    pub crlf: bool,
    /// A custom line terminator; it has to be ASCII.
    pub line_ending: Option<char>,
}

impl LineEndings {
    /// CRLF-aware boundaries and a custom terminator exclude each other.
    pub open spec fn wf(&self) -> bool {
        !(self.crlf && self.line_ending is Some)
    }

    /// Whether at most one of the two choices is made.
    pub fn is_exclusive(&self) -> (r: bool)
        ensures
            r == self.wf(),
    {
        !(self.crlf && self.line_ending.is_some())
    }
}

/// One invocation: the pattern, the haystack and the matching options.
#[derive(Debug, Clone)]
pub struct RegexCommand {
    /// The pattern, or `-` to read it from standard input.
    pub pattern: String,
    /// The haystack, or `-` to read it from standard input.
    pub haystack: Option<String>,
    /// Ignore case.
    pub case_insensitive: bool,
    /// Which line terminator anchors and `.` use.
    pub line_endings: LineEndings,
    /// `.` also matches the line terminator.
    pub single_line: bool,
    /// `^` and `$` match at line boundaries.
    pub multiline: bool,
    /// Unescaped whitespace in the pattern is insignificant and `#` starts a comment.
    pub ignore_whitespace: bool,
    /// Greedy and lazy quantifiers trade places.
    pub swap_greed: bool,
    /// Octal escapes are accepted in the pattern.
    pub octal: bool,
    /// Unicode-aware matching is turned off.
    pub disable_unicode: bool,
    /// Diagnostics are printed.
    pub verbose: bool,
}

impl RegexCommand {
    /// The line-ending choices of a command exclude each other.
    pub open spec fn wf(&self) -> bool {
        self.line_endings.wf()
    }

    /// Runs `func` on this command only where verbose output is enabled.
    pub fn debug_fn(&self, func: impl Fn(&Self))
        requires
            self.wf(),
            self.verbose ==> call_requires(func, (self,)),
        ensures
            self.verbose ==> call_ensures(func, (self,), ()),
    {
        if self.verbose {
            func(self);
        }
    }
}

} // verus!
