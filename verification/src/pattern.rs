//! The readiness pattern: the rule that finds, in a line of the server's
//! output, the address it serves on.

use vstd::prelude::*;

verus! {

#[verifier::external_type_specification]
#[verifier::external_body]
pub struct ExRegex(regex::Regex);

#[verifier::external_type_specification]
#[verifier::external_body]
pub struct ExRegexError(regex::Error);

/// Whether `regex::Regex::new` accepts `pattern`: the text is a valid
/// expression and its compiled form stays within the compiler's default size
/// limit.
pub uninterp spec fn regex_compiles(pattern: Seq<char>) -> bool;

/// The pattern text that a compiled expression was built from: what
/// `regex::Regex::as_str` returns for it.
pub uninterp spec fn regex_source(re: regex::Regex) -> Seq<char>;

/// What capture group `index` holds when `regex::Regex::captures` searches
/// `haystack` with the compiled expression `re`: `None` where nothing in the
/// haystack matches, the expression has no such group, or the group took no
/// part in the match.
pub uninterp spec fn regex_group(re: regex::Regex, haystack: Seq<char>, index: usize) -> Option<
    Seq<char>,
>;

/// The characters of an optional string.
pub open spec fn text_of(s: Option<String>) -> Option<Seq<char>> {
    match s {
        Some(t) => Some(t@),
        None => None,
    }
}

/// The readiness pattern as text. Group 1 is the address: scheme, host or
/// bracketed IPv6 literal, optional port, optional trailing slash.
pub open spec fn readiness_pattern() -> Seq<char> {
    r"Server running on (https?://(?:[a-zA-Z0-9.-]+|\[[0-9a-fA-F:]+\])(?::\d+)?/?)"@
}

/// The capture group that holds the address in a readiness line.
pub const ADDRESS_GROUP: usize = 1;

/// `regex::Regex::new`. Trusted: the compiler's answer depends on the
/// pattern text alone, and an expression that compiles remembers the text it
/// was compiled from.
#[verifier::external_body]
fn compile(pattern: &str) -> (r: Result<regex::Regex, regex::Error>)
    ensures
        r is Ok <==> regex_compiles(pattern@),
        r matches Ok(re) ==> regex_source(re) == pattern@,
{
    regex::Regex::new(pattern)
}

/// `regex::Regex::captures`, then `Captures::get` and `Match::as_str` to
/// hand the group out as an owned string. Trusted: the result is what group
/// `index` of the leftmost match holds, a function of the compiled
/// expression, the haystack and the index alone; an index without a group
/// gives `None`.
#[verifier::external_body]
fn group(re: &regex::Regex, haystack: &str, index: usize) -> (r: Option<String>)
    ensures
        text_of(r) == regex_group(*re, haystack@, index),
{
    match re.captures(haystack) {
        Some(caps) => match caps.get(index) {
            Some(m) => Some(m.as_str().to_owned()),
            None => None,
        },
        None => None,
    }
}

/// Why no readiness pattern could be made.
#[derive(Clone, Copy, Debug, PartialEq, Eq, Structural)]
pub enum PatternError {
    /// The expression compiler refused the pattern.
    Rejected,
}

/// The compiled readiness pattern. It is built once and never changes.
pub struct ReadinessPattern {
    re: regex::Regex,
}

impl ReadinessPattern {
    /// The pattern text this value was compiled from.
    pub closed spec fn source(&self) -> Seq<char> {
        regex_source(self.re)
    }

    /// The address that this pattern finds in `line`, if any.
    pub closed spec fn capture(&self, line: Seq<char>) -> Option<Seq<char>> {
        regex_group(self.re, line, ADDRESS_GROUP)
    }

    /// Compiles the readiness pattern. It succeeds exactly where the
    /// expression compiler accepts `readiness_pattern()`, and the pattern
    /// that comes back was compiled from that text; a refusal is reported as
    /// `PatternError::Rejected`.
    pub fn new() -> (r: Result<ReadinessPattern, PatternError>)
        ensures
            r is Ok <==> regex_compiles(readiness_pattern()),
            r matches Ok(p) ==> p.source() == readiness_pattern(),
            r matches Err(e) ==> e == PatternError::Rejected,
    {
        ReadinessPattern::from_compiled(
            compile(r"Server running on (https?://(?:[a-zA-Z0-9.-]+|\[[0-9a-fA-F:]+\])(?::\d+)?/?)"),
        )
    }

    /// Takes the compiler's answer: a compiled expression becomes the
    /// pattern, a refusal becomes `PatternError::Rejected`.
    fn from_compiled(compiled: Result<regex::Regex, regex::Error>) -> (r: Result<
        ReadinessPattern,
        PatternError,
    >)
        ensures
            r is Ok <==> compiled is Ok,
            r matches Err(e) ==> e == PatternError::Rejected,
            r matches Ok(p) ==> p.source() == regex_source(compiled->Ok_0) && forall|line: Seq<char>|
                #[trigger] p.capture(line) == regex_group(compiled->Ok_0, line, ADDRESS_GROUP),
    {
        match compiled {
            Ok(re) => Ok(ReadinessPattern { re }),
            Err(_) => Err(PatternError::Rejected),
        }
    }

    /// Applies the pattern to one line of output and returns the address it
    /// advertises, or `None` where the line is no readiness line.
    pub fn extract(&self, line: &str) -> (r: Option<String>)
        ensures
            text_of(r) == self.capture(line@),
    {
        group(&self.re, line, ADDRESS_GROUP)
    }
}

} // verus!
