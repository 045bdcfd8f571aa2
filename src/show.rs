use crate::cache::Cache;
use crate::date::Date;
use crate::date_format::{extractor_built, DateExtraction, DateExtractor, DateFormat};
use crate::regex_container::{
    container_built, container_for, raw_clusions_view, string_views, ClusionsView, ContainerView,
    RegexContainer,
};
use std::rc::Rc;
use vstd::prelude::*;
use vstd::string::*;

verus! {

/// A key of a show's configuration.
#[derive(Clone, Copy, Debug, PartialEq, Eq, Structural)]
pub enum ConfigField {
    Title,
    Url,
    DateExtraction,
    StripWholeTitle,
    TitleStripPatterns,
    InclusionPatterns,
    ExclusionPatterns,
    NotBefore,
}

/// Why a show's configuration was rejected.
#[derive(Debug)]
pub enum ConfigError {
    /// Both keys were given, and only one of them is allowed.
    Conflict(ConfigField, ConfigField),
    /// A required key was not given.
    MissingField(ConfigField),
    /// This pattern is not a valid regular expression.
    InvalidPattern(String),
}

/// The error that names `source` as an invalid pattern.
pub fn invalid_pattern(source: &str) -> (r: ConfigError)
    ensures
        r matches ConfigError::InvalidPattern(p) && p@ == source@,
{
    ConfigError::InvalidPattern(String::from_str(source))
}


/// The name of a key as it is shown in messages.
pub open spec fn field_name(f: ConfigField) -> Seq<char> {
    match f {
        ConfigField::Title => "Title"@,
        ConfigField::Url => "Url"@,
        ConfigField::DateExtraction => "DateExtraction"@,
        ConfigField::StripWholeTitle => "StripWholeTitle"@,
        ConfigField::TitleStripPatterns => "TitleStripPatterns"@,
        ConfigField::InclusionPatterns => "InclusionPatterns"@,
        ConfigField::ExclusionPatterns => "ExclusionPatterns"@,
        ConfigField::NotBefore => "NotBefore"@,
    }
}

/// What follows a listed key when `remaining` keys, itself included, are left.
pub open spec fn list_separator(remaining: int) -> Seq<char> {
    if remaining == 1 {
        ""@
    } else if remaining == 2 {
        " or "@
    } else {
        ", "@
    }
}

/// The first `k` keys of `fs`, quoted: `'A', 'B' or 'C'`.
pub open spec fn joined_fields(fs: Seq<ConfigField>, k: int) -> Seq<char>
    decreases k,
{
    if k <= 0 {
        Seq::empty()
    } else {
        joined_fields(fs, k - 1) + "'"@ + field_name(fs[k - 1]) + "'"@ + list_separator(
            fs.len() - (k - 1),
        )
    }
}

impl ConfigField {
    pub fn name(self) -> (r: &'static str)
        ensures
            r@ == field_name(self),
    {
        match self {
            ConfigField::Title => "Title",
            ConfigField::Url => "Url",
            ConfigField::DateExtraction => "DateExtraction",
            ConfigField::StripWholeTitle => "StripWholeTitle",
            ConfigField::TitleStripPatterns => "TitleStripPatterns",
            ConfigField::InclusionPatterns => "InclusionPatterns",
            ConfigField::ExclusionPatterns => "ExclusionPatterns",
            ConfigField::NotBefore => "NotBefore",
        }
    }
}

/// The keys quoted and listed: `'A'`, `'A' or 'B'`, `'A', 'B' or 'C'`.
pub fn join_fields(fields: &[ConfigField]) -> (r: String)
    ensures
        r@ == joined_fields(fields@, fields@.len() as int),
{
    let count = fields.len();
    let mut joined = String::new();
    let mut i: usize = 0;
    while i < count
        invariant
            i <= count,
            count == fields@.len(),
            joined@ == joined_fields(fields@, i as int),
        decreases count - i,
    {
        joined.append("'");
        joined.append(fields[i].name());
        joined.append("'");
        let remaining = count - i;
        let separator = if remaining == 1 {
            ""
        } else if remaining == 2 {
            " or "
        } else {
            ", "
        };
        joined.append(separator);
        i = i + 1;
    }
    joined
}

/// The message that explains a configuration error.
pub open spec fn error_message(e: ConfigError) -> Seq<char> {
    match e {
        ConfigError::Conflict(a, b) => "Only one of "@ + joined_fields(seq![a, b], 2)
            + " is allowed at a time"@,
        ConfigError::MissingField(f) => "Field not initialized: "@ + field_name(f),
        ConfigError::InvalidPattern(p) => "Bad Regex: "@ + p@,
    }
}

impl ConfigError {
    pub fn message(&self) -> (r: String)
        ensures
            r@ == error_message(*self),
    {
        match self {
            ConfigError::Conflict(a, b) => {
                let fields = [*a, *b];
                let mut m = String::from_str("Only one of ");
                let joined = join_fields(&fields);
                assert(fields@ =~= seq![*a, *b]);
                m.append(joined.as_str());
                m.append(" is allowed at a time");
                m
            },
            ConfigError::MissingField(f) => {
                let mut m = String::from_str("Field not initialized: ");
                m.append(f.name());
                m
            },
            ConfigError::InvalidPattern(p) => {
                let mut m = String::from_str("Bad Regex: ");
                m.append(p.as_str());
                m
            },
        }
    }
}

/// The same error, made anew.
pub fn copy_config_error(e: &ConfigError) -> (r: ConfigError)
    ensures
        r == *e,
{
    match e {
        ConfigError::Conflict(a, b) => ConfigError::Conflict(*a, *b),
        ConfigError::MissingField(f) => ConfigError::MissingField(*f),
        ConfigError::InvalidPattern(p) => ConfigError::InvalidPattern(p.clone()),
    }
}

/// How episode titles are trimmed before they go into file names.
#[derive(Debug)]
pub enum TitleHandling {
    /// Remove every match of each pattern, in order, after the default ones.
    StripPatterns(Vec<String>),
    /// Drop the title altogether: the file name keeps the show and the date.
    StripAll,
}

impl TitleHandling {
    pub open spec fn strips_all(&self) -> bool {
        self is StripAll
    }

    pub open spec fn pattern_texts(&self) -> Seq<Seq<char>> {
        match self {
            TitleHandling::StripPatterns(v) => string_views(v@),
            TitleHandling::StripAll => Seq::empty(),
        }
    }

    pub fn from_strip_patterns(patterns: Vec<String>) -> (r: Self)
        ensures
            !r.strips_all(),
            r.pattern_texts() == string_views(patterns@),
    {
        TitleHandling::StripPatterns(patterns)
    }

    /// The custom strip patterns, if there is at least one.
    pub fn strip_patterns(&self) -> (r: Option<&[String]>)
        ensures
            r is Some <==> (!self.strips_all() && self.pattern_texts().len() > 0),
            r matches Some(s) ==> string_views(s@) == self.pattern_texts(),
    {
        match self {
            TitleHandling::StripPatterns(v) => {
                if v.len() == 0 {
                    None
                } else {
                    Some(v.as_slice())
                }
            },
            TitleHandling::StripAll => None,
        }
    }
}

impl Default for TitleHandling {
    fn default() -> (r: Self)
        ensures
            !r.strips_all(),
            r.pattern_texts().len() == 0,
    {
        TitleHandling::StripPatterns(Vec::new())
    }
}

/// A filter on episode names: keep only those that match (inclusion), or drop
/// those that match (exclusion) one of the patterns.
#[derive(Debug)]
pub enum Clusions<T> {
    Inclusion(Vec<T>),
    Exclusion(Vec<T>),
}

impl<T> Clusions<T> {
    pub open spec fn is_inclusion(&self) -> bool {
        self is Inclusion
    }

    pub open spec fn items(&self) -> Vec<T> {
        match self {
            Clusions::Inclusion(v) => *v,
            Clusions::Exclusion(v) => *v,
        }
    }

    /// The same kind of filter, over what `f` makes of the patterns.
    pub fn map<R, F: Fn(&Vec<T>) -> Vec<R>>(&self, f: F) -> (r: Clusions<R>)
        requires
            f.requires((&self.items(),)),
        ensures
            r.is_inclusion() == self.is_inclusion(),
            f.ensures((&self.items(),), r.items()),
    {
        match self {
            Clusions::Inclusion(v) => Clusions::Inclusion(f(v)),
            Clusions::Exclusion(v) => Clusions::Exclusion(f(v)),
        }
    }
}

/// The configuration of a show, as a model.
pub ghost struct ShowView {
    pub title: Seq<char>,
    pub url: Seq<char>,
    pub strips_all: bool,
    pub strip_patterns: Seq<Seq<char>>,
    pub date_extraction: Option<(DateFormat, Option<Seq<char>>)>,
    pub clusions: ClusionsView,
    pub not_before: Option<Date>,
}

impl ShowView {
    pub open spec fn container(self) -> ContainerView {
        container_for(self.title, self.strips_all, self.strip_patterns, self.clusions)
    }
}

pub open spec fn date_extraction_view(d: Option<DateExtraction>) -> Option<
    (DateFormat, Option<Seq<char>>),
> {
    match d {
        Some(de) => Some((de.spec_format(), de.spec_edge())),
        None => None,
    }
}

/// How one feed's episodes are named and filtered.
#[derive(Debug)]
pub struct Show {
    title: String,
    url: String,
    title_handling: TitleHandling,
    regex_container: Cache<Result<RegexContainer, ConfigError>>,
    date_extraction: Option<DateExtraction>,
    raw_clusions: Option<Clusions<String>>,
    not_before_date: Option<Date>,
}

impl View for Show {
    type V = ShowView;

    closed spec fn view(&self) -> ShowView {
        ShowView {
            title: self.title@,
            url: self.url@,
            strips_all: self.title_handling.strips_all(),
            strip_patterns: self.title_handling.pattern_texts(),
            date_extraction: date_extraction_view(self.date_extraction),
            clusions: raw_clusions_view(self.raw_clusions),
            not_before: self.not_before_date,
        }
    }
}

impl Show {
    /// What is cached agrees with the configuration.
    pub closed spec fn wf(&self) -> bool {
        &&& self.regex_container@ matches Some(r) ==> container_built(r, self@.container())
        &&& self.date_extraction matches Some(de) ==> de.wf()
    }

    /// The compiled patterns stored so far, if any.
    pub closed spec fn cached_container(&self) -> Option<Result<RegexContainer, ConfigError>> {
        self.regex_container@
    }

    /// The date extractor stored so far, if any.
    pub closed spec fn cached_extractor(&self) -> Option<Result<DateExtractor, ConfigError>> {
        match self.date_extraction {
            Some(de) => de.cached_extractor(),
            None => None,
        }
    }

    pub fn title(&self) -> (r: &str)
        ensures
            r@ == self@.title,
    {
        self.title.as_str()
    }

    pub fn url(&self) -> (r: &str)
        ensures
            r@ == self@.url,
    {
        self.url.as_str()
    }

    pub fn title_handling(&self) -> (r: &TitleHandling)
        ensures
            r.strips_all() == self@.strips_all,
            r.pattern_texts() == self@.strip_patterns,
    {
        &self.title_handling
    }

    pub fn title_strip_patterns(&self) -> (r: Option<&[String]>)
        ensures
            r is Some <==> (!self@.strips_all && self@.strip_patterns.len() > 0),
            r matches Some(s) ==> string_views(s@) == self@.strip_patterns,
    {
        self.title_handling.strip_patterns()
    }

    pub fn date_extraction(&self) -> (r: &Option<DateExtraction>)
        ensures
            date_extraction_view(*r) == self@.date_extraction,
    {
        &self.date_extraction
    }

    pub fn raw_clusions(&self) -> (r: &Option<Clusions<String>>)
        ensures
            raw_clusions_view(*r) == self@.clusions,
    {
        &self.raw_clusions
    }

    pub fn not_before_date(&self) -> (r: Option<Date>)
        ensures
            r == self@.not_before,
    {
        self.not_before_date
    }

    /// The show's compiled patterns, built on the first call and shared afterwards.
    pub fn regex_container(&mut self) -> (r: Rc<Result<RegexContainer, ConfigError>>)
        requires
            old(self).wf(),
        ensures
            final(self).wf(),
            final(self)@ == old(self)@,
            container_built(*r, final(self)@.container()),
            old(self).cached_container() matches Some(v) ==> *r == v,
            final(self).cached_container() == Some(*r),
    {
        let title = self.title.as_str();
        let handling = &self.title_handling;
        let clusions = &self.raw_clusions;
        let generator = || -> (r: Result<RegexContainer, ConfigError>)
            ensures
                container_built(
                    r,
                    container_for(
                        title@,
                        handling.strips_all(),
                        handling.pattern_texts(),
                        raw_clusions_view(*clusions),
                    ),
                ),
            { RegexContainer::new(title, handling, clusions) };
        self.regex_container.get(generator)
    }

    /// The show's date extractor, if it extracts dates; built on the first call
    /// and shared afterwards.
    pub fn date_extractor(&mut self) -> (r: Option<Rc<Result<DateExtractor, ConfigError>>>)
        requires
            old(self).wf(),
        ensures
            final(self).wf(),
            final(self)@ == old(self)@,
            r is None <==> final(self)@.date_extraction is None,
            r matches Some(x) ==> (final(self)@.date_extraction matches Some((f, e))
                && extractor_built(*x, f, e)),
            r matches Some(x) ==> (old(self).cached_extractor() matches Some(v) ==> *x == v),
            r matches Some(x) ==> final(self).cached_extractor() == Some(*x),
            final(self).cached_container() == old(self).cached_container(),
    {
        match &mut self.date_extraction {
            Some(de) => Some(de.date_extractor()),
            None => None,
        }
    }
}

/// One key of a show's configuration with its value.
#[derive(Debug)]
pub enum ConfigValue {
    Title(String),
    Url(String),
    DateExtraction(Option<DateExtraction>),
    StripWholeTitle(bool),
    TitleStripPatterns(Vec<String>),
    InclusionPatterns(Vec<String>),
    ExclusionPatterns(Vec<String>),
    NotBefore(Option<Date>),
}

/// What a builder has been given so far.
pub ghost struct BuilderView {
    pub title: Option<Seq<char>>,
    pub url: Option<Seq<char>>,
    pub title_handling: Option<(bool, Seq<Seq<char>>)>,
    pub date_extraction: Option<(DateFormat, Option<Seq<char>>)>,
    pub clusions: ClusionsView,
    /// Whether clusions were set, to any value.
    pub clusions_given: bool,
    pub not_before: Option<Date>,
}

pub open spec fn empty_builder() -> BuilderView {
    BuilderView {
        title: None,
        url: None,
        title_handling: None,
        date_extraction: None,
        clusions: None,
        clusions_given: false,
        not_before: None,
    }
}

/// What one configuration value does to a builder, or the two keys that conflict.
pub open spec fn config_step(b: BuilderView, v: ConfigValue) -> Result<
    BuilderView,
    (ConfigField, ConfigField),
> {
    match v {
        ConfigValue::Title(t) => Ok(BuilderView { title: Some(t@), ..b }),
        ConfigValue::Url(u) => Ok(BuilderView { url: Some(u@), ..b }),
        ConfigValue::DateExtraction(d) => Ok(
            BuilderView { date_extraction: date_extraction_view(d), ..b },
        ),
        ConfigValue::NotBefore(d) => Ok(BuilderView { not_before: d, ..b }),
        ConfigValue::StripWholeTitle(all) => if b.title_handling is Some {
            Err((ConfigField::StripWholeTitle, ConfigField::TitleStripPatterns))
        } else {
            Ok(BuilderView { title_handling: Some((all, Seq::empty())), ..b })
        },
        ConfigValue::TitleStripPatterns(ps) => if b.title_handling is Some {
            Err((ConfigField::StripWholeTitle, ConfigField::TitleStripPatterns))
        } else {
            Ok(BuilderView { title_handling: Some((false, string_views(ps@))), ..b })
        },
        ConfigValue::InclusionPatterns(ps) => if b.clusions_given {
            Err((ConfigField::InclusionPatterns, ConfigField::ExclusionPatterns))
        } else {
            Ok(
                BuilderView {
                    clusions: Some((true, string_views(ps@))),
                    clusions_given: true,
                    ..b
                },
            )
        },
        ConfigValue::ExclusionPatterns(ps) => if b.clusions_given {
            Err((ConfigField::InclusionPatterns, ConfigField::ExclusionPatterns))
        } else {
            Ok(
                BuilderView {
                    clusions: Some((false, string_views(ps@))),
                    clusions_given: true,
                    ..b
                },
            )
        },
    }
}

/// The builder after all of `vs`, in order, or the first conflict.
pub open spec fn config_run(b: BuilderView, vs: Seq<ConfigValue>) -> Result<
    BuilderView,
    (ConfigField, ConfigField),
>
    decreases vs.len(),
{
    if vs.len() == 0 {
        Ok(b)
    } else {
        match config_step(b, vs[0]) {
            Ok(next) => config_run(next, vs.drop_first()),
            Err(e) => Err(e),
        }
    }
}

/// The show a complete builder makes.
pub open spec fn built_show(b: BuilderView) -> ShowView {
    let (strips_all, strip_patterns) = match b.title_handling {
        Some(h) => h,
        None => (false, Seq::empty()),
    };
    ShowView {
        title: b.title->0,
        url: b.url->0,
        strips_all,
        strip_patterns,
        date_extraction: b.date_extraction,
        clusions: b.clusions,
        not_before: b.not_before,
    }
}

/// Collects the parts of a show one key at a time.
#[derive(Debug)]
pub struct ShowBuilder {
    title: Option<String>,
    url: Option<String>,
    title_handling: Option<TitleHandling>,
    date_extraction: Option<DateExtraction>,
    /// `None` until the clusions are set, to any value.
    raw_clusions: Option<Option<Clusions<String>>>,
    not_before_date: Option<Date>,
}

impl View for ShowBuilder {
    type V = BuilderView;

    closed spec fn view(&self) -> BuilderView {
        BuilderView {
            title: match self.title {
                Some(t) => Some(t@),
                None => None,
            },
            url: match self.url {
                Some(u) => Some(u@),
                None => None,
            },
            title_handling: match self.title_handling {
                Some(h) => Some((h.strips_all(), h.pattern_texts())),
                None => None,
            },
            date_extraction: date_extraction_view(self.date_extraction),
            clusions: match self.raw_clusions {
                Some(c) => raw_clusions_view(c),
                None => None,
            },
            clusions_given: self.raw_clusions is Some,
            not_before: self.not_before_date,
        }
    }
}

impl Default for ShowBuilder {
    fn default() -> (r: Self)
        ensures
            r@ == empty_builder(),
            r.wf(),
    {
        ShowBuilder {
            title: None,
            url: None,
            title_handling: None,
            date_extraction: None,
            raw_clusions: None,
            not_before_date: None,
        }
    }
}

impl ShowBuilder {
    pub closed spec fn wf(&self) -> bool {
        self.date_extraction matches Some(de) ==> de.wf()
    }

    pub fn title(&mut self, title: String)
        ensures
            final(self)@ == (BuilderView { title: Some(title@), ..old(self)@ }),
            final(self).wf() == old(self).wf(),
    {
        self.title = Some(title);
    }

    pub fn url(&mut self, url: String)
        ensures
            final(self)@ == (BuilderView { url: Some(url@), ..old(self)@ }),
            final(self).wf() == old(self).wf(),
    {
        self.url = Some(url);
    }

    pub fn title_handling(&mut self, title_handling: TitleHandling)
        ensures
            final(self)@ == (BuilderView {
                title_handling: Some((title_handling.strips_all(), title_handling.pattern_texts())),
                ..old(self)@
            }),
            final(self).wf() == old(self).wf(),
    {
        self.title_handling = Some(title_handling);
    }

    pub fn date_extraction(&mut self, date_extraction: Option<DateExtraction>)
        requires
            date_extraction matches Some(de) ==> de.wf(),
        ensures
            final(self)@ == (BuilderView {
                date_extraction: date_extraction_view(date_extraction),
                ..old(self)@
            }),
            final(self).wf(),
    {
        self.date_extraction = date_extraction;
    }

    pub fn raw_clusions(&mut self, raw_clusions: Option<Clusions<String>>)
        ensures
            final(self)@ == (BuilderView {
                clusions: raw_clusions_view(raw_clusions),
                clusions_given: true,
                ..old(self)@
            }),
            final(self).wf() == old(self).wf(),
    {
        self.raw_clusions = Some(raw_clusions);
    }

    pub fn not_before_date(&mut self, not_before_date: Option<Date>)
        ensures
            final(self)@ == (BuilderView { not_before: not_before_date, ..old(self)@ }),
            final(self).wf() == old(self).wf(),
    {
        self.not_before_date = not_before_date;
    }

    /// Whether the clusions were set since `default()`, whatever the value.
    pub fn has_raw_clusions(&self) -> (r: bool)
        ensures
            r == self@.clusions_given,
    {
        self.raw_clusions.is_some()
    }

    pub fn has_title_handling(&self) -> (r: bool)
        ensures
            r == self@.title_handling is Some,
    {
        self.title_handling.is_some()
    }

    /// Takes one key of the configuration; a second key of a pair that
    /// excludes each other is refused, and the builder is left as it was.
    pub fn apply(&mut self, value: ConfigValue) -> (r: Result<(), ConfigError>)
        requires
            old(self).wf(),
            value matches ConfigValue::DateExtraction(Some(de)) ==> de.wf(),
        ensures
            final(self).wf(),
            match config_step(old(self)@, value) {
                Ok(b) => r is Ok && final(self)@ == b,
                Err((f, g)) => r matches Err(ConfigError::Conflict(f2, g2)) && f2 == f && g2 == g
                    && final(self)@ == old(self)@,
            },
    {
        match value {
            ConfigValue::Title(t) => self.title(t),
            ConfigValue::Url(u) => self.url(u),
            ConfigValue::DateExtraction(d) => self.date_extraction(d),
            ConfigValue::NotBefore(d) => self.not_before_date(d),
            ConfigValue::StripWholeTitle(all) => {
                if self.has_title_handling() {
                    return Err(
                        ConfigError::Conflict(
                            ConfigField::StripWholeTitle,
                            ConfigField::TitleStripPatterns,
                        ),
                    );
                }
                if all {
                    self.title_handling(TitleHandling::StripAll);
                } else {
                    let h = TitleHandling::StripPatterns(Vec::new());
                    assert(h.pattern_texts() =~= Seq::<Seq<char>>::empty());
                    self.title_handling(h);
                }
            },
            ConfigValue::TitleStripPatterns(ps) => {
                if self.has_title_handling() {
                    return Err(
                        ConfigError::Conflict(
                            ConfigField::StripWholeTitle,
                            ConfigField::TitleStripPatterns,
                        ),
                    );
                }
                self.title_handling(TitleHandling::StripPatterns(ps));
            },
            ConfigValue::InclusionPatterns(ps) => {
                if self.has_raw_clusions() {
                    return Err(
                        ConfigError::Conflict(
                            ConfigField::InclusionPatterns,
                            ConfigField::ExclusionPatterns,
                        ),
                    );
                }
                self.raw_clusions(Some(Clusions::Inclusion(ps)));
            },
            ConfigValue::ExclusionPatterns(ps) => {
                if self.has_raw_clusions() {
                    return Err(
                        ConfigError::Conflict(
                            ConfigField::InclusionPatterns,
                            ConfigField::ExclusionPatterns,
                        ),
                    );
                }
                self.raw_clusions(Some(Clusions::Exclusion(ps)));
            },
        }
        Ok(())
    }

    /// The show; title and URL must have been given.
    pub fn build(self) -> (r: Result<Show, ConfigError>)
        requires
            self.wf(),
        ensures
            self@.title is None ==> r matches Err(ConfigError::MissingField(ConfigField::Title)),
            self@.title is Some && self@.url is None ==> r matches Err(
                ConfigError::MissingField(ConfigField::Url),
            ),
            self@.title is Some && self@.url is Some ==> (r matches Ok(show) && show.wf() && show@
                == built_show(self@) && show.cached_container() is None),
    {
        let title = match self.title {
            Some(t) => t,
            None => return Err(ConfigError::MissingField(ConfigField::Title)),
        };
        let url = match self.url {
            Some(u) => u,
            None => return Err(ConfigError::MissingField(ConfigField::Url)),
        };
        let title_handling = match self.title_handling {
            Some(h) => h,
            None => {
                let h = TitleHandling::default();
                assert(h.pattern_texts() =~= Seq::<Seq<char>>::empty());
                h
            },
        };
        let show = Show {
            title,
            url,
            title_handling,
            regex_container: Cache::default(),
            date_extraction: self.date_extraction,
            raw_clusions: match self.raw_clusions {
                Some(c) => c,
                None => None,
            },
            not_before_date: self.not_before_date,
        };
        assert(show@ =~= built_show(self@));
        Ok(show)
    }
}

/// Whether every date extraction among `vs` has nothing cached that disagrees with it.
pub open spec fn values_wf(vs: Seq<ConfigValue>) -> bool {
    forall|i: int|
        0 <= i < vs.len() ==> (#[trigger] vs[i] matches ConfigValue::DateExtraction(Some(de))
            ==> de.wf())
}

impl Show {
    /// The show that the keys `values` describe, taken in order: a conflicting
    /// pair of keys, or a missing title or URL, is refused.
    pub fn from_config_values(values: Vec<ConfigValue>) -> (r: Result<Show, ConfigError>)
        requires
            values_wf(values@),
        ensures
            match config_run(empty_builder(), values@) {
                Err((f, g)) => r matches Err(ConfigError::Conflict(f2, g2)) && f2 == f && g2 == g,
                Ok(b) => if b.title is None {
                    r matches Err(ConfigError::MissingField(ConfigField::Title))
                } else if b.url is None {
                    r matches Err(ConfigError::MissingField(ConfigField::Url))
                } else {
                    r matches Ok(show) && show.wf() && show@ == built_show(b)
                },
            },
    {
        let mut builder = ShowBuilder::default();
        let mut rest = values;
        let ghost all = rest@;
        let ghost mut done: int = 0;
        while rest.len() > 0
            invariant
                builder.wf(),
                all == values@,
                values_wf(rest@),
                0 <= done <= all.len(),
                rest@ == all.skip(done),
                config_run(empty_builder(), all) == config_run(builder@, rest@),
            decreases rest@.len(),
        {
            let ghost rest_old = rest@;
            let ghost before = builder@;
            let v = rest.remove(0);
            proof {
                assert(rest_old[0] == v);
                assert(rest_old.drop_first() =~= rest@);
                assert(v == all.skip(done)[0]);
                assert(rest@ =~= all.skip(done).drop_first());
                assert(all.skip(done + 1) =~= all.skip(done).drop_first());
                assert(values_wf(rest@)) by {
                    assert forall|i: int| 0 <= i < rest@.len() implies (#[trigger] rest@[i] matches ConfigValue::DateExtraction(Some(de))
                        ==> de.wf()) by {
                        assert(rest@[i] == all.skip(done)[i + 1]);
                    }
                }
                assert(v matches ConfigValue::DateExtraction(Some(de)) ==> de.wf()) by {
                    assert(all.skip(done)[0] == v);
                }
            }
            match builder.apply(v) {
                Ok(()) => {},
                Err(e) => {
                    assert(config_step(before, v) is Err);
                    assert(config_run(before, rest_old) == config_step(before, v));
                    return Err(e);
                },
            }
            proof {
                done = done + 1;
            }
        }
        builder.build()
    }
}

} // verus!
