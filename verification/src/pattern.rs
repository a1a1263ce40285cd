use vstd::prelude::*;

verus! {

/// `regex::Regex`, declared so that a compiled pattern can stand in fields
/// and signatures of this crate.
#[verifier::external_type_specification]
#[verifier::external_body]
pub struct ExRegex(regex::Regex);

/// Whether `regex::Regex::new` accepts the pattern: compilation succeeds or
/// fails as a function of the pattern text alone.
pub uninterp spec fn regex_compiles(pattern: Seq<char>) -> bool;

/// What `regex::Regex::captures_len` reports for a compiled pattern: the
/// number of capture groups, the implicit whole-match group included; a
/// function of the pattern text alone.
pub uninterp spec fn regex_group_count(pattern: Seq<char>) -> nat;

/// The text of capture group 1 when the pattern matches the line and that
/// group takes part in the match, `None` otherwise: a function of the
/// pattern text and the line alone.
pub uninterp spec fn capture_of(pattern: Seq<char>, line: Seq<char>) -> Option<Seq<char>>;

/// A grouping pattern is usable when its text compiles and holds exactly one
/// capture group (`regex_group_count` counts the whole match as well).
pub open spec fn valid_group_pattern(pattern: Seq<char>) -> bool {
    regex_compiles(pattern) && regex_group_count(pattern) == 2
}

/// A compiled grouping pattern, kept beside the text it was compiled from so
/// that contracts can speak of that text.
pub struct GroupPattern {
    pattern: String,
    re: regex::Regex,
}

impl GroupPattern {
    /// The pattern text this value was compiled from.
    pub closed spec fn text(&self) -> Seq<char> {
        self.pattern@
    }

    /// Relies on `regex::Regex::new`: whether a pattern compiles is decided
    /// by the pattern text alone; the compiled value is kept beside its text.
    #[verifier::external_body]
    fn compile(pattern: &str) -> (r: Option<GroupPattern>)
        ensures
            r is Some <==> regex_compiles(pattern@),
            r matches Some(p) ==> p.text() == pattern@,
    {
        match regex::Regex::new(pattern) {
            Ok(re) => Some(GroupPattern { pattern: pattern.to_string(), re }),
            Err(_) => None,
        }
    }

    /// Relies on `regex::Regex::captures_len`: the group count of a compiled
    /// regex is decided by the pattern text it was compiled from.
    #[verifier::external_body]
    fn group_count(&self) -> (r: usize)
        ensures
            r as nat == regex_group_count(self.text()),
    {
        self.re.captures_len()
    }

    /// Compiles the grouping pattern the streaming runner demands: the text
    /// must compile and must hold exactly one capture group.
    pub fn new(pattern: &str) -> (r: Option<GroupPattern>)
        ensures
            r is Some <==> valid_group_pattern(pattern@),
            r matches Some(p) ==> p.text() == pattern@,
    {
        match Self::compile(pattern) {
            Some(p) => {
                if p.group_count() == 2 {
                    Some(p)
                } else {
                    None
                }
            },
            None => None,
        }
    }

    /// Relies on `regex::Regex::captures` (read through `Captures::get` and
    /// `Match::as_str`): whether the pattern matches the line and what text
    /// capture group 1 covers are decided by pattern and line alone.
    #[verifier::external_body]
    pub(crate) fn first_capture(&self, line: &str) -> (r: Option<String>)
        ensures
            r is Some <==> capture_of(self.text(), line@) is Some,
            r matches Some(c) ==> capture_of(self.text(), line@) == Some(c@),
    {
        self.re.captures(line).and_then(|caps| caps.get(1)).map(|m| m.as_str().to_string())
    }
}

} // verus!
