use regex::Regex;
use vstd::prelude::*;
use vstd::string::*;

verus! {

#[verifier::external_type_specification]
#[verifier::external_body]
pub struct ExRegex(regex::Regex);

#[verifier::external_type_specification]
#[verifier::external_body]
pub struct ExRegexError(regex::Error);

/// Whether `pattern` is a regular expression that compiles.
pub uninterp spec fn pattern_compiles(pattern: Seq<char>) -> bool;

/// Whether `pattern` matches somewhere in `text`.
pub uninterp spec fn matches_in(pattern: Seq<char>, text: Seq<char>) -> bool;

/// `text` with every match of `pattern` removed.
pub uninterp spec fn matches_removed(pattern: Seq<char>, text: Seq<char>) -> Seq<char>;

/// The first match of `pattern` in `text`: the text before it, and the capture
/// groups, group 0 being the whole match.
pub uninterp spec fn first_captures(pattern: Seq<char>, text: Seq<char>) -> Option<
    (Seq<char>, Seq<Option<Seq<char>>>),
>;

/// The characters that have a meaning of their own in a regular expression.
pub open spec fn is_meta_char(c: char) -> bool {
    c == '\\' || c == '.' || c == '+' || c == '*' || c == '?' || c == '(' || c == ')' || c
        == '|' || c == '[' || c == ']' || c == '{' || c == '}' || c == '^' || c == '$' || c
        == '#' || c == '&' || c == '-' || c == '~'
}

/// `s` with a backslash before each meta character, so that it matches itself.
pub open spec fn escaped(s: Seq<char>) -> Seq<char>
    decreases s.len(),
{
    if s.len() == 0 {
        Seq::empty()
    } else {
        escaped(s.drop_last()) + if is_meta_char(s.last()) {
            seq!['\\', s.last()]
        } else {
            seq![s.last()]
        }
    }
}

/// Relies on `regex::escape`: a backslash is put before each meta character.
#[verifier::external_body]
pub(crate) fn escape(s: &str) -> (r: String)
    ensures
        r@ == escaped(s@),
{
    regex::escape(s)
}

/// Relies on `Regex::new`: whether a pattern compiles depends on its text alone.
#[verifier::external_body]
fn compile_regex(source: &str) -> (r: Result<Regex, regex::Error>)
    ensures
        r is Ok <==> pattern_compiles(source@),
{
    Regex::new(source)
}

/// A compiled regular expression together with the text it was compiled from.
#[derive(Debug)]
pub struct Pattern {
    source: String,
    compiled: Regex,
}

impl View for Pattern {
    type V = Seq<char>;

    closed spec fn view(&self) -> Seq<char> {
        self.source@
    }
}

impl Pattern {
    /// Compiles `source`; fails exactly when it is not a valid regular expression.
    pub fn new(source: &str) -> (r: Result<Pattern, regex::Error>)
        ensures
            r is Ok <==> pattern_compiles(source@),
            r matches Ok(p) ==> p@ == source@,
    {
        match compile_regex(source) {
            Ok(compiled) => Ok(Pattern { source: String::from_str(source), compiled }),
            Err(e) => Err(e),
        }
    }

    /// The text this pattern was compiled from.
    pub fn as_str(&self) -> (r: &str)
        ensures
            r@ == self@,
    {
        self.source.as_str()
    }
}

/// Relies on `Regex::is_match` on the expression compiled from the pattern's
/// source: the answer depends on the two texts alone.
#[verifier::external_body]
pub(crate) fn pattern_is_match(p: &Pattern, text: &str) -> (r: bool)
    ensures
        r == matches_in(p@, text@),
{
    p.compiled.is_match(text)
}

/// Relies on `Regex::replace_all` with an empty replacement, on the expression
/// compiled from the pattern's source: the matches are removed, and the result
/// depends on the two texts alone.
#[verifier::external_body]
pub(crate) fn pattern_remove_all(p: &Pattern, text: &str) -> (r: String)
    ensures
        r@ == matches_removed(p@, text@),
{
    p.compiled.replace_all(text, "").into_owned()
}

/// The first match of a pattern in a text: what stands before it, and each
/// capture group's text (`None` for a group that took no part in the match).
#[derive(Debug)]
pub struct Captured {
    pub before: String,
    pub groups: Vec<Option<String>>,
}

pub open spec fn group_view(g: Option<String>) -> Option<Seq<char>> {
    match g {
        Some(s) => Some(s@),
        None => None,
    }
}

pub open spec fn captured_view(c: Captured) -> (Seq<char>, Seq<Option<Seq<char>>>) {
    (c.before@, c.groups@.map_values(|g: Option<String>| group_view(g)))
}

/// Relies on `Regex::captures` on the expression compiled from the pattern's
/// source: the first match depends on the two texts alone; group 0 is always
/// present and is the matched text, which stands in `text` right after `before`.
/// A `str` holds at most `isize::MAX` bytes, so its character counts fit a `usize`.
#[verifier::external_body]
pub(crate) fn pattern_captures(p: &Pattern, text: &str) -> (r: Option<Captured>)
    ensures
        r is None <==> first_captures(p@, text@) is None,
        r matches Some(c) ==> {
            &&& first_captures(p@, text@) == Some(captured_view(c))
            &&& c.groups@.len() >= 1
            &&& c.groups@[0] matches Some(whole) && (c.before@ + whole@).is_prefix_of(text@) && (
            c.before@ + whole@).len() <= usize::MAX
        },
{
    p.compiled.captures(text).and_then(
        |caps| caps.get(0).map(|whole| Captured {
            before: text[..whole.start()].to_string(),
            groups: caps.iter().map(|g| g.map(|m| m.as_str().to_string())).collect(),
        }),
    )
}

} // verus!
