use crate::pattern::{escape, escaped, pattern_compiles, Pattern};
use crate::show::{invalid_pattern, Clusions, ConfigError, TitleHandling};
use vstd::prelude::*;
use vstd::string::*;

verus! {

/// Ties the show's title to the start of an episode title, so that the title
/// is left alone where it stands further in.
pub const LEADING_TITLE_ANCHOR: &'static str = "^";

/// What follows the show's title at the start of an episode title: a colon or blanks.
pub const LEADING_TITLE_SUFFIX: &'static str = "[:\\s]+";

/// Blanks at either end of a title.
pub const EDGE_TRIM_PATTERN: &'static str = "^\\s+|\\s+$";

/// The file extension at the end of a URL's path, before an optional query.
pub const ENCLOSURE_EXTENSION_PATTERN: &'static str = "(?i)\\.([a-z0-9]+)(?:\\?.*?)?$";

pub open spec fn string_views(v: Seq<String>) -> Seq<Seq<char>> {
    v.map_values(|s: String| s@)
}

pub open spec fn pattern_views(v: Seq<Pattern>) -> Seq<Seq<char>> {
    v.map_values(|p: Pattern| p@)
}

/// An inclusion (`true`) or exclusion (`false`) rule, with its patterns' texts.
pub type ClusionsView = Option<(bool, Seq<Seq<char>>)>;

pub open spec fn raw_clusions_view(c: Option<Clusions<String>>) -> ClusionsView {
    match c {
        Some(Clusions::Inclusion(v)) => Some((true, string_views(v@))),
        Some(Clusions::Exclusion(v)) => Some((false, string_views(v@))),
        None => None,
    }
}

pub open spec fn compiled_clusions_view(c: Option<Clusions<Pattern>>) -> ClusionsView {
    match c {
        Some(Clusions::Inclusion(v)) => Some((true, pattern_views(v@))),
        Some(Clusions::Exclusion(v)) => Some((false, pattern_views(v@))),
        None => None,
    }
}

/// The pattern that removes the show's title, with the colon or blanks after
/// it, from the start of an episode title.
pub open spec fn leading_strip_source(title: Seq<char>) -> Seq<char> {
    LEADING_TITLE_ANCHOR@ + escaped(title) + LEADING_TITLE_SUFFIX@
}

/// The texts of the patterns a container holds.
pub ghost struct ContainerView {
    pub leading: Seq<char>,
    pub edge_trim: Seq<char>,
    pub extension: Seq<char>,
    pub custom: Seq<Seq<char>>,
    pub clusions: ClusionsView,
    pub strips_whole_title: bool,
}

impl ContainerView {
    /// The patterns removed from a title, in the order they are applied.
    pub open spec fn strip_sequence(self) -> Seq<Seq<char>> {
        seq![self.leading, self.edge_trim] + self.custom
    }

    /// Every pattern, in the order they are compiled.
    pub open spec fn sources(self) -> Seq<Seq<char>> {
        seq![self.leading, self.edge_trim, self.extension] + self.custom + match self.clusions {
            Some((_, ps)) => ps,
            None => Seq::empty(),
        }
    }
}

/// The patterns derived from a show's title, title handling and clusions.
pub open spec fn container_for(
    title: Seq<char>,
    strips_all: bool,
    strip_patterns: Seq<Seq<char>>,
    clusions: ClusionsView,
) -> ContainerView {
    ContainerView {
        leading: leading_strip_source(title),
        edge_trim: EDGE_TRIM_PATTERN@,
        extension: ENCLOSURE_EXTENSION_PATTERN@,
        custom: if strips_all {
            Seq::empty()
        } else {
            strip_patterns
        },
        clusions,
        strips_whole_title: strips_all,
    }
}

/// The first of `srcs` that does not compile.
pub open spec fn first_failing(srcs: Seq<Seq<char>>) -> Option<Seq<char>>
    decreases srcs.len(),
{
    if srcs.len() == 0 {
        None
    } else if !pattern_compiles(srcs[0]) {
        Some(srcs[0])
    } else {
        first_failing(srcs.drop_first())
    }
}

/// Whether `r` is what compiling the patterns of `v` gives: the container, or
/// the error that names the first pattern that does not compile.
pub open spec fn container_built(r: Result<RegexContainer, ConfigError>, v: ContainerView) -> bool {
    match r {
        Ok(c) => first_failing(v.sources()) is None && c@ == v,
        Err(e) => first_failing(v.sources()) matches Some(p) && (e matches ConfigError::InvalidPattern(
            q,
        ) && q@ == p),
    }
}

proof fn lemma_first_failing_append(a: Seq<Seq<char>>, b: Seq<Seq<char>>)
    ensures
        first_failing(a + b) == if first_failing(a) is Some {
            first_failing(a)
        } else {
            first_failing(b)
        },
    decreases a.len(),
{
    if a.len() == 0 {
        assert(a + b =~= b);
    } else {
        assert((a + b).drop_first() =~= a.drop_first() + b);
        assert((a + b)[0] == a[0]);
        lemma_first_failing_append(a.drop_first(), b);
    }
}

proof fn lemma_first_failing_three(x: Seq<char>, y: Seq<char>, z: Seq<char>)
    ensures
        first_failing(seq![x, y, z]) == if !pattern_compiles(x) {
            Some(x)
        } else if !pattern_compiles(y) {
            Some(y)
        } else if !pattern_compiles(z) {
            Some(z)
        } else {
            None
        },
{
    reveal_with_fuel(first_failing, 4);
    assert(seq![x, y, z][0] == x);
    assert(seq![x, y, z].drop_first() =~= seq![y, z]);
    assert(seq![y, z][0] == y);
    assert(seq![y, z].drop_first() =~= seq![z]);
    assert(seq![z][0] == z);
    assert(seq![z].drop_first() =~= Seq::<Seq<char>>::empty());
}

/// Compiles each pattern of `sources`, in order, stopping at the first that fails.
fn compile_list(sources: &Vec<String>) -> (r: Result<Vec<Pattern>, ConfigError>)
    ensures
        match r {
            Ok(v) => first_failing(string_views(sources@)) is None && pattern_views(v@)
                == string_views(sources@),
            Err(e) => first_failing(string_views(sources@)) matches Some(p) && (
            e matches ConfigError::InvalidPattern(q) && q@ == p),
        },
{
    let ghost srcs = string_views(sources@);
    let mut compiled: Vec<Pattern> = Vec::new();
    let mut i: usize = 0;
    while i < sources.len()
        invariant
            i <= sources@.len(),
            srcs == string_views(sources@),
            first_failing(srcs.take(i as int)) is None,
            pattern_views(compiled@) =~= srcs.take(i as int),
        decreases sources@.len() - i,
    {
        proof {
            assert(srcs =~= srcs.take(i as int) + srcs.skip(i as int));
            lemma_first_failing_append(srcs.take(i as int), srcs.skip(i as int));
            assert(srcs.skip(i as int)[0] == sources@[i as int]@);
        }
        match RegexContainer::compile_pattern(sources[i].as_str()) {
            Ok(p) => {
                proof {
                    reveal_with_fuel(first_failing, 2);
                    assert(srcs.take(i + 1) =~= srcs.take(i as int) + seq![srcs[i as int]]);
                    lemma_first_failing_append(srcs.take(i as int), seq![srcs[i as int]]);
                    assert(pattern_compiles(srcs[i as int]));
                    assert(seq![srcs[i as int]][0] == srcs[i as int]);
                    assert(seq![srcs[i as int]].drop_first() =~= Seq::<Seq<char>>::empty());
                    assert(first_failing(seq![srcs[i as int]]) is None);
                }
                compiled.push(p);
            },
            Err(e) => {
                return Err(e);
            },
        }
        i = i + 1;
    }
    assert(srcs.take(sources@.len() as int) =~= srcs);
    Ok(compiled)
}

/// The compiled patterns that a show's episodes are built and filtered with.
#[derive(Debug)]
pub struct RegexContainer {
    leading_show_title_strip: Pattern,
    edge_trim: Pattern,
    enclosure_extension: Pattern,
    custom_episode_title_strips: Vec<Pattern>,
    clusions: Option<Clusions<Pattern>>,
    strips_whole_title: bool,
}

impl View for RegexContainer {
    type V = ContainerView;

    closed spec fn view(&self) -> ContainerView {
        ContainerView {
            leading: self.leading_show_title_strip@,
            edge_trim: self.edge_trim@,
            extension: self.enclosure_extension@,
            custom: pattern_views(self.custom_episode_title_strips@),
            clusions: compiled_clusions_view(self.clusions),
            strips_whole_title: self.strips_whole_title,
        }
    }
}

impl RegexContainer {
    /// Compiles one pattern; one that is not a valid regular expression is a
    /// configuration error that names it.
    pub fn compile_pattern(pattern: &str) -> (r: Result<Pattern, ConfigError>)
        ensures
            match r {
                Ok(p) => pattern_compiles(pattern@) && p@ == pattern@,
                Err(e) => !pattern_compiles(pattern@) && (e matches ConfigError::InvalidPattern(q)
                    && q@ == pattern@),
            },
    {
        match Pattern::new(pattern) {
            Ok(p) => Ok(p),
            Err(_) => Err(invalid_pattern(pattern)),
        }
    }

    /// Compiles the patterns of a show: its title, its title handling and its clusions.
    pub fn new(title: &str, title_handling: &TitleHandling, raw_clusions: &Option<
        Clusions<String>,
    >) -> (r: Result<RegexContainer, ConfigError>)
        ensures
            container_built(
                r,
                container_for(
                    title@,
                    title_handling.strips_all(),
                    title_handling.pattern_texts(),
                    raw_clusions_view(*raw_clusions),
                ),
            ),
    {
        let ghost v = container_for(
            title@,
            title_handling.strips_all(),
            title_handling.pattern_texts(),
            raw_clusions_view(*raw_clusions),
        );
        let ghost fixed = seq![v.leading, v.edge_trim, v.extension];
        let ghost clusion_srcs = match v.clusions {
            Some((_, ps)) => ps,
            None => Seq::empty(),
        };
        proof {
            assert(v.sources() == fixed + v.custom + clusion_srcs);
            lemma_first_failing_append(fixed + v.custom, clusion_srcs);
            lemma_first_failing_append(fixed, v.custom);
            lemma_first_failing_three(v.leading, v.edge_trim, v.extension);
        }
        let mut leading_source = String::from_str(LEADING_TITLE_ANCHOR);
        let escaped_title = escape(title);
        leading_source.append(escaped_title.as_str());
        leading_source.append(LEADING_TITLE_SUFFIX);
        let leading_show_title_strip = match Self::compile_pattern(leading_source.as_str()) {
            Ok(p) => p,
            Err(e) => return Err(e),
        };
        let edge_trim = match Self::compile_pattern(EDGE_TRIM_PATTERN) {
            Ok(p) => p,
            Err(e) => return Err(e),
        };
        let enclosure_extension = match Self::compile_pattern(ENCLOSURE_EXTENSION_PATTERN) {
            Ok(p) => p,
            Err(e) => return Err(e),
        };
        let (custom_episode_title_strips, strips_whole_title) = match title_handling {
            TitleHandling::StripPatterns(v) => match compile_list(v) {
                Ok(c) => (c, false),
                Err(e) => return Err(e),
            },
            TitleHandling::StripAll => {
                let empty: Vec<Pattern> = Vec::new();
                assert(pattern_views(empty@) =~= Seq::<Seq<char>>::empty());
                (empty, true)
            },
        };
        let clusions = match raw_clusions {
            None => None,
            Some(Clusions::Inclusion(v)) => match compile_list(v) {
                Ok(c) => Some(Clusions::Inclusion(c)),
                Err(e) => return Err(e),
            },
            Some(Clusions::Exclusion(v)) => match compile_list(v) {
                Ok(c) => Some(Clusions::Exclusion(c)),
                Err(e) => return Err(e),
            },
        };
        let r = RegexContainer {
            leading_show_title_strip,
            edge_trim,
            enclosure_extension,
            custom_episode_title_strips,
            clusions,
            strips_whole_title,
        };
        assert(r@ == v);
        Ok(r)
    }

    pub fn leading_show_title_strip(&self) -> (r: &Pattern)
        ensures
            r@ == self@.leading,
    {
        &self.leading_show_title_strip
    }

    pub fn edge_trim(&self) -> (r: &Pattern)
        ensures
            r@ == self@.edge_trim,
    {
        &self.edge_trim
    }

    pub fn enclosure_extension(&self) -> (r: &Pattern)
        ensures
            r@ == self@.extension,
    {
        &self.enclosure_extension
    }

    pub fn custom_episode_title_strips(&self) -> (r: &Vec<Pattern>)
        ensures
            pattern_views(r@) == self@.custom,
    {
        &self.custom_episode_title_strips
    }

    pub fn clusions(&self) -> (r: &Option<Clusions<Pattern>>)
        ensures
            compiled_clusions_view(*r) == self@.clusions,
    {
        &self.clusions
    }

    pub fn strips_whole_title(&self) -> (r: bool)
        ensures
            r == self@.strips_whole_title,
    {
        self.strips_whole_title
    }

    /// Whether the container holds no custom strip pattern and no clusions.
    pub fn has_only_default_title_strip(&self) -> (r: bool)
        ensures
            r == (self@.custom.len() == 0 && self@.clusions is None),
    {
        self.custom_episode_title_strips.len() == 0 && self.clusions.is_none()
    }
}

} // verus!
