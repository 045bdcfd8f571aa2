use crate::cache::Cache;
use crate::date::{valid_date, Date};
use crate::pattern::{captured_view, first_captures, pattern_captures, pattern_compiles, Captured, Pattern};
use crate::regex_container::RegexContainer;
use crate::show::ConfigError;
use std::ops::Range;
use std::rc::Rc;
use vstd::prelude::*;
use vstd::string::*;

verus! {

/// Month, day and year of one or two digits each, the year of two to four.
pub const AMERICAN_CONVENTIONAL_PATTERN: &'static str = "(\\d{1,2})[\\-/](\\d{1,2})[\\-/](\\d{2,4})";

/// The ways a date can be written inside an episode title.
#[derive(Clone, Copy, Debug, PartialEq, Eq, Structural)]
pub enum DateFormat {
    /// month/day/year, with `/` or `-` between the parts
    AmericanConventional,
}

pub type CapturesView = Option<(Seq<char>, Seq<Option<Seq<char>>>)>;

pub open spec fn is_ascii_digit(c: char) -> bool {
    '0' <= c && c <= '9'
}

pub open spec fn all_digits(s: Seq<char>) -> bool {
    forall|i: int| 0 <= i < s.len() ==> is_ascii_digit(#[trigger] s[i])
}

/// The number that a string of decimal digits writes.
pub open spec fn digits_value(s: Seq<char>) -> int
    decreases s.len(),
{
    if s.len() == 0 {
        0
    } else {
        digits_value(s.drop_last()) * 10 + (s.last() as int - '0' as int)
    }
}

/// The number a run of one or more decimal digits writes, if it is at most `limit`.
pub open spec fn bounded_digits(s: Seq<char>, limit: int) -> Option<int> {
    if s.len() > 0 && all_digits(s) && digits_value(s) <= limit {
        Some(digits_value(s))
    } else {
        None
    }
}

/// What parsing `s` as a `u32` gives: an optional `+`, then decimal digits.
pub open spec fn parsed_unsigned(s: Seq<char>) -> Option<int> {
    if s.len() > 0 && s[0] == '+' {
        bounded_digits(s.drop_first(), u32::MAX as int)
    } else {
        bounded_digits(s, u32::MAX as int)
    }
}

/// What parsing `s` as an `i32` gives: an optional sign, then decimal digits.
pub open spec fn parsed_signed(s: Seq<char>) -> Option<int> {
    if s.len() > 0 && s[0] == '-' {
        match bounded_digits(s.drop_first(), 0x8000_0000) {
            Some(v) => Some(-v),
            None => None,
        }
    } else if s.len() > 0 && s[0] == '+' {
        bounded_digits(s.drop_first(), i32::MAX as int)
    } else {
        bounded_digits(s, i32::MAX as int)
    }
}

/// Two-digit years (and smaller) are taken as years of this century.
pub open spec fn full_year(y: int) -> int {
    if y < 100 {
        y + 2000
    } else {
        y
    }
}

/// The date written by month, day and year groups of a match, and the character
/// range of the whole match.
pub open spec fn extracted_date(c: CapturesView) -> Option<(Date, int, int)> {
    match c {
        None => None,
        Some((before, groups)) => {
            if groups.len() != 4 || groups[0] is None || groups[1] is None || groups[2] is None
                || groups[3] is None {
                None
            } else {
                let month = parsed_unsigned(groups[1]->0);
                let day = parsed_unsigned(groups[2]->0);
                let year = parsed_signed(groups[3]->0);
                if month is None || day is None || year is None {
                    None
                } else {
                    let y = full_year(year->0);
                    if valid_date(y, month->0, day->0) {
                        Some(
                            (
                                Date { year: y as i32, month: month->0 as u32, day: day->0 as u32 },
                                before.len() as int,
                                (before.len() + groups[0]->0.len()) as int,
                            ),
                        )
                    } else {
                        None
                    }
                }
            }
        },
    }
}

/// The pattern that finds a date: the format's own, with the edge pattern on both sides if given.
pub open spec fn composed_source(edge: Option<Seq<char>>) -> Seq<char> {
    match edge {
        Some(e) => e + AMERICAN_CONVENTIONAL_PATTERN@ + e,
        None => AMERICAN_CONVENTIONAL_PATTERN@,
    }
}

proof fn lemma_digits_value_step(s: Seq<char>, k: int)
    requires
        0 <= k < s.len(),
    ensures
        digits_value(s.subrange(0, k + 1)) == digits_value(s.subrange(0, k)) * 10 + (s[k] as int
            - '0' as int),
{
    assert(s.subrange(0, k + 1).drop_last() =~= s.subrange(0, k));
}

proof fn lemma_digits_value_nonneg(s: Seq<char>)
    requires
        all_digits(s),
    ensures
        digits_value(s) >= 0,
    decreases s.len(),
{
    if s.len() > 0 {
        assert(all_digits(s.drop_last())) by {
            assert forall|i: int| 0 <= i < s.drop_last().len() implies is_ascii_digit(
                #[trigger] s.drop_last()[i],
            ) by {
                assert(s.drop_last()[i] == s[i]);
            }
        }
        lemma_digits_value_nonneg(s.drop_last());
        assert(is_ascii_digit(s[s.len() - 1]));
    }
}

/// Reads the decimal digits of `s` from char index `from` on, if there is at
/// least one, they are all digits and their value is at most `limit`.
fn parse_digits(s: &str, from: usize, limit: u64) -> (r: Option<u64>)
    requires
        from <= s@.len(),
        limit <= 0x1_0000_0000,
    ensures
        r matches Some(v) ==> bounded_digits(s@.subrange(from as int, s@.len() as int), limit as int)
            == Some(v as int),
        r is None ==> bounded_digits(s@.subrange(from as int, s@.len() as int), limit as int) is None,
{
    let n = s.unicode_len();
    let ghost body = s@.subrange(from as int, s@.len() as int);
    if from >= n {
        return None;
    }
    let mut value: u64 = 0;
    let mut i: usize = from;
    while i < n
        invariant
            from <= i <= n,
            n == s@.len(),
            limit <= 0x1_0000_0000,
            body == s@.subrange(from as int, s@.len() as int),
            all_digits(body.subrange(0, i - from)),
            value as int == if digits_value(body.subrange(0, i - from)) <= limit {
                digits_value(body.subrange(0, i - from))
            } else {
                limit + 1
            },
        decreases n - i,
    {
        let c = s.get_char(i);
        if c < '0' || c > '9' {
            assert(body[i - from] == c);
            assert(!all_digits(body));
            return None;
        }
        let d = (c as u32 - '0' as u32) as u64;
        proof {
            lemma_digits_value_step(body, i - from);
            lemma_digits_value_nonneg(body.subrange(0, i - from));
            assert(body[i - from] == c);
        }
        let next = value * 10 + d;
        value = if next > limit {
            limit + 1
        } else {
            next
        };
        proof {
            assert(all_digits(body.subrange(0, i + 1 - from))) by {
                assert forall|j: int| 0 <= j < body.subrange(0, i + 1 - from).len() implies is_ascii_digit(
                    #[trigger] body.subrange(0, i + 1 - from)[j],
                ) by {
                    if j < i - from {
                        assert(body.subrange(0, i + 1 - from)[j] == body.subrange(0, i - from)[j]);
                    }
                }
            }
        }
        i = i + 1;
    }
    assert(body.subrange(0, n - from) =~= body);
    if value > limit {
        None
    } else {
        Some(value)
    }
}

/// Parses `s` as a `u32`: an optional `+`, then one or more decimal digits.
pub fn parse_unsigned(s: &str) -> (r: Option<u32>)
    ensures
        r matches Some(v) ==> parsed_unsigned(s@) == Some(v as int),
        r is None ==> parsed_unsigned(s@) is None,
{
    let n = s.unicode_len();
    let from: usize = if n > 0 && s.get_char(0) == '+' {
        1
    } else {
        0
    };
    assert(s@.subrange(0, s@.len() as int) =~= s@);
    assert(s@.len() > 0 ==> s@.subrange(1, s@.len() as int) =~= s@.drop_first());
    match parse_digits(s, from, 0xFFFF_FFFF) {
        Some(v) => Some(v as u32),
        None => None,
    }
}

/// Parses `s` as an `i32`: an optional sign, then one or more decimal digits.
pub fn parse_signed(s: &str) -> (r: Option<i32>)
    ensures
        r matches Some(v) ==> parsed_signed(s@) == Some(v as int),
        r is None ==> parsed_signed(s@) is None,
{
    let n = s.unicode_len();
    assert(s@.subrange(0, s@.len() as int) =~= s@);
    assert(s@.len() > 0 ==> s@.subrange(1, s@.len() as int) =~= s@.drop_first());
    if n > 0 && s.get_char(0) == '-' {
        match parse_digits(s, 1, 0x8000_0000) {
            Some(v) => Some((0 - (v as i64)) as i32),
            None => None,
        }
    } else {
        let from: usize = if n > 0 && s.get_char(0) == '+' {
            1
        } else {
            0
        };
        match parse_digits(s, from, 0x7FFF_FFFF) {
            Some(v) => Some(v as i32),
            None => None,
        }
    }
}

/// The date that a match of the date pattern writes, with the character range
/// of the whole match; `None` where the groups do not make a valid date.
pub fn date_from_captures(c: Option<Captured>) -> (r: Option<(Date, Range<usize>)>)
    requires
        c matches Some(cap) ==> (cap.groups@.len() >= 1 ==> (cap.groups@[0] matches Some(w)
            ==> cap.before@.len() + w@.len() <= usize::MAX)),
    ensures
        match extracted_date(
            match c {
                Some(cap) => Some(captured_view(cap)),
                None => None,
            },
        ) {
            None => r is None,
            Some((d, a, b)) => r matches Some((d2, range)) && d2 == d && range.start == a
                && range.end == b,
        },
{
    let cap = match c {
        Some(cap) => cap,
        None => return None,
    };
    let ghost view = captured_view(cap);
    assert(view.1.len() == cap.groups@.len());
    if cap.groups.len() != 4 {
        return None;
    }
    proof {
        assert(forall|i: int| 0 <= i < 4 ==> view.1[i] == crate::pattern::group_view(cap.groups@[i]));
    }
    let whole = match &cap.groups[0] {
        Some(g) => g,
        None => return None,
    };
    let month_text = match &cap.groups[1] {
        Some(g) => g,
        None => return None,
    };
    let day_text = match &cap.groups[2] {
        Some(g) => g,
        None => return None,
    };
    let year_text = match &cap.groups[3] {
        Some(g) => g,
        None => return None,
    };
    let month = match parse_unsigned(month_text.as_str()) {
        Some(v) => v,
        None => return None,
    };
    let day = match parse_unsigned(day_text.as_str()) {
        Some(v) => v,
        None => return None,
    };
    let mut year = match parse_signed(year_text.as_str()) {
        Some(v) => v,
        None => return None,
    };
    if year < 100 {
        year = year + 2000;
    }
    let date = match Date::from_ymd_opt(year, month, day) {
        Some(d) => d,
        None => return None,
    };
    let start = cap.before.as_str().unicode_len();
    let len = whole.as_str().unicode_len();
    Some((date, Range { start, end: start + len }))
}

/// Finds a date of one format in a title, with what may stand around it.
#[derive(Debug)]
pub struct DateExtractor {
    format: DateFormat,
    composed_pattern: Pattern,
}

impl View for DateExtractor {
    type V = Seq<char>;

    /// The pattern that the extractor searches for.
    closed spec fn view(&self) -> Seq<char> {
        self.composed_pattern@
    }
}

impl DateExtractor {
    pub closed spec fn spec_format(&self) -> DateFormat {
        self.format
    }

    fn new(format: DateFormat, composed_pattern: Pattern) -> (r: Self)
        ensures
            r.spec_format() == format,
            r@ == composed_pattern@,
    {
        DateExtractor { format, composed_pattern }
    }

    /// The first date in `s` and the character range it takes up, edges included.
    pub fn extract_date(&self, s: &str) -> (r: Option<(Date, Range<usize>)>)
        ensures
            match extracted_date(first_captures(self@, s@)) {
                None => r is None,
                Some((d, a, b)) => r matches Some((d2, range)) && d2 == d && range.start == a
                    && range.end == b,
            },
            r matches Some((d, range)) ==> d.valid() && range.start <= range.end <= s@.len(),
    {
        self.format.extract_date(s, &self.composed_pattern)
    }
}

impl DateFormat {
    /// Compiles the extractor for this format, with `edge_strip_raw_pattern`
    /// on both sides of the date pattern where given.
    pub fn make_extractor(self, edge_strip_raw_pattern: Option<&str>) -> (r: Result<
        DateExtractor,
        ConfigError,
    >)
        ensures
            extractor_built(
                r,
                self,
                match edge_strip_raw_pattern {
                    Some(e) => Some(e@),
                    None => None,
                },
            ),
    {
        let composed = Self::composite_pattern(self.pattern(), edge_strip_raw_pattern);
        match RegexContainer::compile_pattern(composed.as_str()) {
            Ok(p) => Ok(DateExtractor::new(self, p)),
            Err(e) => Err(e),
        }
    }

    /// The format's own pattern.
    pub fn pattern(self) -> (r: &'static str)
        ensures
            r@ == AMERICAN_CONVENTIONAL_PATTERN@,
    {
        match self {
            DateFormat::AmericanConventional => AMERICAN_CONVENTIONAL_PATTERN,
        }
    }

    fn extract_date(self, string: &str, composed_pattern: &Pattern) -> (r: Option<
        (Date, Range<usize>),
    >)
        ensures
            match extracted_date(first_captures(composed_pattern@, string@)) {
                None => r is None,
                Some((d, a, b)) => r matches Some((d2, range)) && d2 == d && range.start == a
                    && range.end == b,
            },
            r matches Some((d, range)) ==> d.valid() && range.start <= range.end <= string@.len(),
    {
        match self {
            DateFormat::AmericanConventional => Self::extract_date_american(
                string,
                composed_pattern,
            ),
        }
    }

    fn extract_date_american(string: &str, composed_pattern: &Pattern) -> (r: Option<
        (Date, Range<usize>),
    >)
        ensures
            match extracted_date(first_captures(composed_pattern@, string@)) {
                None => r is None,
                Some((d, a, b)) => r matches Some((d2, range)) && d2 == d && range.start == a
                    && range.end == b,
            },
            r matches Some((d, range)) ==> d.valid() && range.start <= range.end <= string@.len(),
    {
        let captures = pattern_captures(composed_pattern, string);
        let ghost facts = match captures {
            Some(ref c) => (c.before@, c.groups@[0]),
            None => (Seq::empty(), None),
        };
        let r = date_from_captures(captures);
        proof {
            if r is Some {
                let (b, w) = facts;
                assert(w is Some);
                let whole = w->0;
                assert((b + whole@).len() <= string@.len());
                assert(crate::pattern::group_view(w) == Some(whole@));
            }
        }
        r
    }

    fn composite_pattern(base: &str, edge_strip_raw_pattern: Option<&str>) -> (r: String)
        ensures
            r@ == match edge_strip_raw_pattern {
                Some(e) => e@ + base@ + e@,
                None => base@,
            },
    {
        match edge_strip_raw_pattern {
            None => String::from_str(base),
            Some(esrp) => {
                let mut s = String::from_str(esrp);
                s.append(base);
                s.append(esrp);
                s
            },
        }
    }
}

/// Whether `r` is what compiling the extractor for `format` and `edge` gives.
pub open spec fn extractor_built(
    r: Result<DateExtractor, ConfigError>,
    format: DateFormat,
    edge: Option<Seq<char>>,
) -> bool {
    match r {
        Ok(x) => pattern_compiles(composed_source(edge)) && x.spec_format() == format && x@
            == composed_source(edge),
        Err(e) => !pattern_compiles(composed_source(edge)) && (e matches ConfigError::InvalidPattern(
            p,
        ) && p@ == composed_source(edge)),
    }
}

/// Date extraction as a show configures it, with its extractor built on first use.
#[derive(Debug)]
pub struct DateExtraction {
    format: DateFormat,
    edge_strip_pattern_raw: Option<String>,
    date_extractor: Cache<Result<DateExtractor, ConfigError>>,
}

impl DateExtraction {
    pub closed spec fn spec_format(&self) -> DateFormat {
        self.format
    }

    pub closed spec fn spec_edge(&self) -> Option<Seq<char>> {
        match self.edge_strip_pattern_raw {
            Some(e) => Some(e@),
            None => None,
        }
    }

    /// The extractor stored so far, if any.
    pub closed spec fn cached_extractor(&self) -> Option<Result<DateExtractor, ConfigError>> {
        self.date_extractor@
    }

    /// A stored extractor is the one this configuration compiles to.
    pub closed spec fn wf(&self) -> bool {
        self.date_extractor@ matches Some(r) ==> extractor_built(r, self.format, self.spec_edge())
    }

    pub fn new(format: DateFormat, edge_strip_pattern_raw: Option<String>) -> (r: Self)
        ensures
            r.wf(),
            r.cached_extractor() is None,
            r.spec_format() == format,
            r.spec_edge() == match edge_strip_pattern_raw {
                Some(e) => Some(e@),
                None => None,
            },
    {
        DateExtraction { format, edge_strip_pattern_raw, date_extractor: Cache::default() }
    }

    pub fn format(&self) -> (r: &DateFormat)
        ensures
            *r == self.spec_format(),
    {
        &self.format
    }

    pub fn edge_strip_pattern(&self) -> (r: Option<&str>)
        ensures
            match r {
                Some(e) => self.spec_edge() == Some(e@),
                None => self.spec_edge() is None,
            },
    {
        match &self.edge_strip_pattern_raw {
            Some(e) => Some(e.as_str()),
            None => None,
        }
    }

    /// The extractor, compiled on the first call and shared afterwards.
    pub fn date_extractor(&mut self) -> (r: Rc<Result<DateExtractor, ConfigError>>)
        requires
            old(self).wf(),
        ensures
            final(self).wf(),
            final(self).spec_format() == old(self).spec_format(),
            final(self).spec_edge() == old(self).spec_edge(),
            extractor_built(*r, final(self).spec_format(), final(self).spec_edge()),
            old(self).cached_extractor() matches Some(v) ==> *r == v,
            final(self).cached_extractor() == Some(*r),
    {
        let format = self.format;
        let esrp = match &self.edge_strip_pattern_raw {
            Some(s) => Some(s.as_str()),
            None => None,
        };
        let generator = || -> (r: Result<DateExtractor, ConfigError>)
            ensures
                extractor_built(
                    r,
                    format,
                    match esrp {
                        Some(e) => Some(e@),
                        None => None,
                    },
                ),
            { format.make_extractor(esrp) };
        self.date_extractor.get(generator)
    }
}

} // verus!
