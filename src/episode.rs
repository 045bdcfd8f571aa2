use crate::date::{decimal_digits, iso_date_string, iso_date_text, push_char, year_text, zero_padded, Date};
use crate::date_format::{composed_source, extracted_date, CapturesView, DateExtractor};
use crate::pattern::{
    captured_view, first_captures, matches_removed, pattern_captures, pattern_compiles,
    pattern_remove_all, Captured,
};
use crate::regex_container::{first_failing, ContainerView, RegexContainer};
use crate::show::{copy_config_error, ConfigError, Show, ShowView};
use chrono::Datelike;
use std::ops::Range;
use vstd::prelude::*;
use vstd::string::*;

verus! {

#[verifier::external_type_specification]
#[verifier::external_body]
pub struct ExRssError(rss::Error);

#[verifier::external_type_specification]
#[verifier::external_body]
pub struct ExChronoParseError(chrono::ParseError);

/// The calendar date (in the text's own offset) of an RFC 2822 date-time, if
/// the text is one.
pub uninterp spec fn rfc2822_date_of(text: Seq<char>) -> Option<(i32, u32, u32)>;

/// Title, publication date and enclosure URL of one feed item.
pub type FeedItemView = (Option<Seq<char>>, Option<Seq<char>>, Option<Seq<char>>);

/// The items of an RSS document, if the bytes are one.
pub uninterp spec fn feed_items_in(xml: Seq<u8>) -> Option<Seq<FeedItemView>>;

/// Relies on chrono's `DateTime::parse_from_rfc2822`: the result depends on the
/// text alone, and a parsed date is a valid one within chrono's range of years.
#[verifier::external_body]
fn parse_rfc2822_date(text: &str) -> (r: Result<Date, chrono::ParseError>)
    ensures
        match r {
            Ok(d) => rfc2822_date_of(text@) == Some((d.year, d.month, d.day)) && d.valid(),
            Err(_) => rfc2822_date_of(text@) is None,
        },
{
    chrono::DateTime::parse_from_rfc2822(text).map(
        |dt| {
            let d = dt.naive_local().date();
            Date { year: d.year(), month: d.month(), day: d.day() }
        },
    )
}

/// Relies on rss's `Channel::read_from`: the items of a document, with their
/// title, publication date and enclosure URL, depend on the bytes alone.
#[verifier::external_body]
fn read_feed_items(xml: &[u8]) -> (r: Result<Vec<FeedItem>, rss::Error>)
    ensures
        match r {
            Ok(items) => feed_items_in(xml@) == Some(items@.map_values(|i: FeedItem| i@)),
            Err(_) => feed_items_in(xml@) is None,
        },
{
    rss::Channel::read_from(xml).map(
        |channel|
            channel.items().iter().map(
                |item|
                    FeedItem {
                        title: item.title().map(String::from),
                        pub_date: item.pub_date().map(String::from),
                        enclosure_url: item.enclosure().map(|e| e.url().to_string()),
                    },
            ).collect(),
    )
}

/// The parts of one feed entry that an episode is made from.
#[derive(Debug)]
pub struct FeedItem {
    pub title: Option<String>,
    /// RFC 2822 date-time text
    pub pub_date: Option<String>,
    pub enclosure_url: Option<String>,
}

pub open spec fn opt_view(s: Option<String>) -> Option<Seq<char>> {
    match s {
        Some(t) => Some(t@),
        None => None,
    }
}

impl View for FeedItem {
    type V = FeedItemView;

    open spec fn view(&self) -> FeedItemView {
        (opt_view(self.title), opt_view(self.pub_date), opt_view(self.enclosure_url))
    }
}

/// Why a feed entry gives no episode.
#[derive(Debug)]
pub enum ParsingError {
    Document(rss::Error),
    EpisodeTitleMissing,
    EpisodePubDateMissing,
    EpisodePubDate(chrono::ParseError),
    EpisodeEnclosureURLMissing,
    /// The show's patterns do not compile.
    Config(ConfigError),
}

/// What is wrong with a feed entry, in the order it is checked.
pub ghost enum ItemFault {
    TitleMissing,
    PubDateMissing,
    PubDateMalformed,
    EnclosureMissing,
}

pub open spec fn item_fault(item: FeedItemView) -> Option<ItemFault> {
    if item.0 is None {
        Some(ItemFault::TitleMissing)
    } else if item.1 is None {
        Some(ItemFault::PubDateMissing)
    } else if rfc2822_date_of(item.1->0) is None {
        Some(ItemFault::PubDateMalformed)
    } else if item.2 is None {
        Some(ItemFault::EnclosureMissing)
    } else {
        None
    }
}

pub open spec fn is_fault(e: ParsingError, f: ItemFault) -> bool {
    match f {
        ItemFault::TitleMissing => e is EpisodeTitleMissing,
        ItemFault::PubDateMissing => e is EpisodePubDateMissing,
        ItemFault::PubDateMalformed => e is EpisodePubDate,
        ItemFault::EnclosureMissing => e is EpisodeEnclosureURLMissing,
    }
}

/// The character a file name holds for `c`: no-break spaces become spaces
/// and slashes become hyphens.
pub open spec fn normalized_char(c: char) -> char {
    if c == '\u{a0}' {
        ' '
    } else if c == '/' {
        '-'
    } else {
        c
    }
}

pub open spec fn normalized(s: Seq<char>) -> Seq<char> {
    s.map_values(|c: char| normalized_char(c))
}

/// `t` after removing the matches of each pattern of `ps`, in order.
pub open spec fn strip_chain(ps: Seq<Seq<char>>, t: Seq<char>) -> Seq<char>
    decreases ps.len(),
{
    if ps.len() == 0 {
        t
    } else {
        matches_removed(ps.last(), strip_chain(ps.drop_last(), t))
    }
}

/// The episode name that goes into a file name, made from a raw title.
pub open spec fn processed_title(c: ContainerView, raw: Seq<char>) -> Seq<char> {
    if c.strips_whole_title {
        Seq::empty()
    } else {
        normalized(strip_chain(c.strip_sequence(), raw))
    }
}

/// The file extension found in a URL, `mp3` where there is none.
pub open spec fn extension_from(c: CapturesView) -> Seq<char> {
    match c {
        Some((_, groups)) => if groups.len() > 1 && groups[1] is Some {
            groups[1]->0
        } else {
            "mp3"@
        },
        None => "mp3"@,
    }
}

pub open spec fn opt_captured_view(c: Option<Captured>) -> CapturesView {
    match c {
        Some(cap) => Some(captured_view(cap)),
        None => None,
    }
}

/// `t` without the characters from `a` up to `b`.
pub open spec fn excised(t: Seq<char>, a: int, b: int) -> Seq<char> {
    t.subrange(0, a) + t.subrange(b, t.len() as int)
}

/// The title and date after looking for a date in the title: a date found
/// there wins over the feed's and is cut out of the title.
pub open spec fn dated_title(extractor: Option<Seq<char>>, raw: Seq<char>, feed_date: Date) -> (
    Seq<char>,
    Date,
) {
    match extractor {
        None => (raw, feed_date),
        Some(p) => match extracted_date(first_captures(p, raw)) {
            Some((d, a, b)) => (excised(raw, a, b), d),
            None => (raw, feed_date),
        },
    }
}

/// `{show title} - {date} - {title}`: the part of a file name before the extension.
pub open spec fn name_part(show_title: Seq<char>, date: Date, title: Seq<char>) -> Seq<char> {
    show_title + " - "@ + iso_date_text(date) + " - "@ + title
}

pub open spec fn filename_text(show_title: Seq<char>, date: Date, title: Seq<char>, extension: Seq<
    char,
>) -> Seq<char> {
    name_part(show_title, date, title) + "."@ + extension
}

/// An episode as a model: where it is fetched from, its file name, the range
/// of the name that identifies it, and its date.
pub ghost struct EpisodeView {
    pub enclosure_url: Seq<char>,
    pub filename: Seq<char>,
    pub name_start: int,
    pub name_end: int,
    pub pub_date: Date,
}

impl EpisodeView {
    pub open spec fn episode_name(self) -> Seq<char> {
        self.filename.subrange(self.name_start, self.name_end)
    }
}

pub open spec fn feed_date_of(item: FeedItemView) -> Date {
    let d = rfc2822_date_of(item.1->0)->0;
    Date { year: d.0, month: d.1, day: d.2 }
}

/// The episode made from a feed entry that has all its parts.
pub open spec fn episode_of(
    show_title: Seq<char>,
    c: ContainerView,
    extractor: Option<Seq<char>>,
    item: FeedItemView,
) -> EpisodeView {
    let (t, date) = dated_title(extractor, item.0->0, feed_date_of(item));
    let title = processed_title(c, t);
    let url = item.2->0;
    let extension = extension_from(first_captures(c.extension, url));
    EpisodeView {
        enclosure_url: url,
        filename: filename_text(show_title, date, title, extension),
        name_start: 0,
        name_end: name_part(show_title, date, title).len() as int,
        pub_date: date,
    }
}

/// The episodes made from the entries that have all their parts, in feed order.
pub open spec fn kept_episodes(
    show_title: Seq<char>,
    c: ContainerView,
    extractor: Option<Seq<char>>,
    items: Seq<FeedItemView>,
) -> Seq<EpisodeView>
    decreases items.len(),
{
    if items.len() == 0 {
        Seq::empty()
    } else {
        let before = kept_episodes(show_title, c, extractor, items.drop_last());
        if item_fault(items.last()) is None {
            before.push(episode_of(show_title, c, extractor, items.last()))
        } else {
            before
        }
    }
}

/// The date extractor's pattern of a show, or the first of its patterns that
/// does not compile.
pub open spec fn show_patterns(s: ShowView) -> Result<Option<Seq<char>>, Seq<char>> {
    match first_failing(s.container().sources()) {
        Some(p) => Err(p),
        None => match s.date_extraction {
            None => Ok(None),
            Some((_, edge)) => if pattern_compiles(composed_source(edge)) {
                Ok(Some(composed_source(edge)))
            } else {
                Err(composed_source(edge))
            },
        },
    }
}

pub open spec fn extractor_view(x: Option<&DateExtractor>) -> Option<Seq<char>> {
    match x {
        Some(d) => Some(d@),
        None => None,
    }
}

pub open spec fn episode_views(s: Seq<Episode>) -> Seq<EpisodeView> {
    s.map_values(|e: Episode| e@)
}

/// Replaces no-break spaces with spaces and slashes with hyphens.
pub fn normalize_characters(s: &str) -> (r: String)
    ensures
        r@ == normalized(s@),
{
    let n = s.unicode_len();
    let mut out = String::new();
    let mut i: usize = 0;
    while i < n
        invariant
            i <= n,
            n == s@.len(),
            out@ =~= normalized(s@.take(i as int)),
        decreases n - i,
    {
        let c = s.get_char(i);
        let m = if c == '\u{a0}' {
            ' '
        } else if c == '/' {
            '-'
        } else {
            c
        };
        push_char(&mut out, m);
        assert(s@.take(i + 1) =~= s@.take(i as int).push(c));
        i = i + 1;
    }
    assert(s@.take(n as int) =~= s@);
    out
}

/// The extension that a match of the extension pattern gives, `mp3` where there is none.
pub fn extension_from_captures(c: Option<Captured>) -> (r: String)
    ensures
        r@ == extension_from(opt_captured_view(c)),
{
    match c {
        Some(cap) => {
            let ghost v = captured_view(cap);
            if cap.groups.len() > 1 {
                assert(v.1[1] == crate::pattern::group_view(cap.groups@[1]));
                match &cap.groups[1] {
                    Some(g) => return g.clone(),
                    None => {},
                }
            }
            String::from_str("mp3")
        },
        None => String::from_str("mp3"),
    }
}


proof fn lemma_decimal_digits_no_slash(n: nat)
    ensures
        !decimal_digits(n).contains('/'),
    decreases n,
{
    if n >= 10 {
        lemma_decimal_digits_no_slash(n / 10);
        let ds = decimal_digits(n / 10);
        assert forall|i: int| 0 <= i < decimal_digits(n).len() implies decimal_digits(n)[i] != '/' by {
            if i < ds.len() {
                assert(decimal_digits(n)[i] == ds[i]);
            }
        }
    } else {
        assert(decimal_digits(n)[0] != '/');
    }
}

proof fn lemma_zero_padded_no_slash(n: nat, width: nat)
    ensures
        !zero_padded(n, width).contains('/'),
{
    lemma_decimal_digits_no_slash(n);
    let ds = decimal_digits(n);
    if ds.len() < width {
        let pad = Seq::new((width - ds.len()) as nat, |i: int| '0');
        assert forall|i: int| 0 <= i < (pad + ds).len() implies (pad + ds)[i] != '/' by {
            if i >= pad.len() {
                assert((pad + ds)[i] == ds[i - pad.len()]);
            }
        }
    }
}

proof fn lemma_concat_no_slash(a: Seq<char>, b: Seq<char>)
    requires
        !a.contains('/'),
        !b.contains('/'),
    ensures
        !(a + b).contains('/'),
{
    assert forall|i: int| 0 <= i < (a + b).len() implies (a + b)[i] != '/' by {
        if i < a.len() {
            assert((a + b)[i] == a[i]);
        } else {
            assert((a + b)[i] == b[i - a.len()]);
        }
    }
}

proof fn lemma_iso_date_no_slash(d: Date)
    ensures
        !iso_date_text(d).contains('/'),
{
    let y = d.year as int;
    lemma_zero_padded_no_slash(d.month as nat, 2);
    lemma_zero_padded_no_slash(d.day as nat, 2);
    if 0 <= y <= 9999 {
        lemma_zero_padded_no_slash(y as nat, 4);
    } else if y < 0 {
        lemma_zero_padded_no_slash((-y) as nat, 4);
        lemma_concat_no_slash(seq!['-'], zero_padded((-y) as nat, 4));
    } else {
        lemma_zero_padded_no_slash(y as nat, 4);
        lemma_concat_no_slash(seq!['+'], zero_padded(y as nat, 4));
    }
    let yt = year_text(y);
    lemma_concat_no_slash(yt, seq!['-']);
    lemma_concat_no_slash(yt + seq!['-'], zero_padded(d.month as nat, 2));
    lemma_concat_no_slash(yt + seq!['-'] + zero_padded(d.month as nat, 2), seq!['-']);
    lemma_concat_no_slash(
        yt + seq!['-'] + zero_padded(d.month as nat, 2) + seq!['-'],
        zero_padded(d.day as nat, 2),
    );
}

/// Every slash of a title becomes a hyphen, one for one, and no slash is left.
pub proof fn slashes_become_hyphens(s: Seq<char>)
    ensures
        normalized(s).len() == s.len(),
        forall|i: int| 0 <= i < s.len() && s[i] == '/' ==> normalized(s)[i] == '-',
        !normalized(s).contains('/'),
{
    assert forall|i: int| 0 <= i < normalized(s).len() implies normalized(s)[i] != '/' by {
        assert(normalized(s)[i] == normalized_char(s[i]));
    }
}

/// The name of an episode holds no slash, provided the show's title holds none.
pub proof fn episode_name_has_no_slash(
    show_title: Seq<char>,
    c: ContainerView,
    extractor: Option<Seq<char>>,
    item: FeedItemView,
)
    requires
        item_fault(item) is None,
        !show_title.contains('/'),
    ensures
        !episode_of(show_title, c, extractor, item).episode_name().contains('/'),
{
    reveal_strlit(" - ");
    let (t, date) = dated_title(extractor, item.0->0, feed_date_of(item));
    let title = processed_title(c, t);
    if !c.strips_whole_title {
        slashes_become_hyphens(strip_chain(c.strip_sequence(), t));
    }
    assert(!title.contains('/'));
    lemma_iso_date_no_slash(date);
    let sep = " - "@;
    assert(!sep.contains('/')) by {
        assert forall|i: int| 0 <= i < sep.len() implies sep[i] != '/' by {}
    }
    lemma_concat_no_slash(show_title, sep);
    lemma_concat_no_slash(show_title + sep, iso_date_text(date));
    lemma_concat_no_slash(show_title + sep + iso_date_text(date), sep);
    lemma_concat_no_slash(show_title + sep + iso_date_text(date) + sep, title);
    let e = episode_of(show_title, c, extractor, item);
    let np = name_part(show_title, date, title);
    assert(e.filename.subrange(0, np.len() as int) =~= np);
}

/// An episode of a show: where it is fetched from, the file it is saved as,
/// and its date.
#[derive(Debug)]
pub struct Episode {
    enclosure_url: String,
    filename: String,
    episode_name_range: Range<usize>,
    pub_date: Date,
}

impl View for Episode {
    type V = EpisodeView;

    closed spec fn view(&self) -> EpisodeView {
        EpisodeView {
            enclosure_url: self.enclosure_url@,
            filename: self.filename@,
            name_start: self.episode_name_range.start as int,
            name_end: self.episode_name_range.end as int,
            pub_date: self.pub_date,
        }
    }
}

impl Episode {
    /// The name range lies within the file name, and the date is valid.
    pub closed spec fn wf(&self) -> bool {
        &&& self.episode_name_range.start <= self.episode_name_range.end <= self.filename@.len()
        &&& self.pub_date.valid()
    }

    /// An episode from its parts; `None` where the range does not lie within
    /// the file name or the date is not valid.
    pub fn from_parts(
        enclosure_url: String,
        filename: String,
        episode_name_range: Range<usize>,
        pub_date: Date,
    ) -> (r: Option<Episode>)
        ensures
            r is Some <==> (episode_name_range.start <= episode_name_range.end <= filename@.len()
                && pub_date.valid()),
            r matches Some(e) ==> e.wf() && e@ == (EpisodeView {
                enclosure_url: enclosure_url@,
                filename: filename@,
                name_start: episode_name_range.start as int,
                name_end: episode_name_range.end as int,
                pub_date,
            }),
    {
        let n = filename.as_str().unicode_len();
        if episode_name_range.start <= episode_name_range.end && episode_name_range.end <= n
            && Date::from_ymd_opt(pub_date.year, pub_date.month, pub_date.day).is_some() {
            Some(Episode { enclosure_url, filename, episode_name_range, pub_date })
        } else {
            None
        }
    }

    pub fn enclosure_url(&self) -> (r: &str)
        ensures
            r@ == self@.enclosure_url,
    {
        self.enclosure_url.as_str()
    }

    pub fn filename(&self) -> (r: &str)
        ensures
            r@ == self@.filename,
    {
        self.filename.as_str()
    }

    /// The part of the file name that identifies the episode.
    pub fn episode_name(&self) -> (r: &str)
        requires
            self.wf(),
        ensures
            r@ == self@.episode_name(),
    {
        self.filename.as_str().substring_char(
            self.episode_name_range.start,
            self.episode_name_range.end,
        )
    }

    pub fn pub_date(&self) -> (r: Date)
        ensures
            r == self@.pub_date,
    {
        self.pub_date
    }

    /// The extension of the file that a URL names, `mp3` where it names none.
    pub fn get_enclosure_extension(container: &RegexContainer, url: &str) -> (r: String)
        ensures
            r@ == extension_from(first_captures(container@.extension, url@)),
    {
        extension_from_captures(pattern_captures(container.enclosure_extension(), url))
    }

    /// The file name `{show title} - {date} - {title}.{extension}`, and the
    /// character range of all but the dot and the extension.
    pub fn generate_filename(show: &Show, pub_date: &Date, title: &str, extension: &str) -> (r: (
        String,
        Range<usize>,
    ))
        ensures
            r.0@ == filename_text(show@.title, *pub_date, title@, extension@),
            r.1.start == 0,
            r.1.end == name_part(show@.title, *pub_date, title@).len(),
    {
        let mut filename = String::from_str(show.title());
        filename.append(" - ");
        let date_text = iso_date_string(pub_date);
        filename.append(date_text.as_str());
        filename.append(" - ");
        filename.append(title);
        let name_end = filename.as_str().unicode_len();
        filename.append(".");
        filename.append(extension);
        (filename, Range { start: 0, end: name_end })
    }

    /// The episode name made from a raw title: the show's title at its start
    /// and blanks at its ends are removed, then each custom pattern's matches; then no-break
    /// spaces become spaces and slashes become hyphens. A show that strips
    /// whole titles gets an empty name.
    pub fn process_raw_title(raw_title: &str, regex_cont: &RegexContainer) -> (r: String)
        ensures
            r@ == processed_title(regex_cont@, raw_title@),
    {
        if regex_cont.strips_whole_title() {
            return String::new();
        }
        let ghost ps = regex_cont@.strip_sequence();
        let mut title = pattern_remove_all(regex_cont.leading_show_title_strip(), raw_title);
        title = pattern_remove_all(regex_cont.edge_trim(), title.as_str());
        proof {
            reveal_with_fuel(strip_chain, 3);
            assert(ps.take(2).drop_last() =~= ps.take(1));
            assert(ps.take(1).drop_last() =~= ps.take(0));
            assert(ps.take(0) =~= Seq::<Seq<char>>::empty());
        }
        let customs = regex_cont.custom_episode_title_strips();
        let mut i: usize = 0;
        while i < customs.len()
            invariant
                i <= customs@.len(),
                ps == regex_cont@.strip_sequence(),
                crate::regex_container::pattern_views(customs@) == regex_cont@.custom,
                title@ == strip_chain(ps.take(2 + i), raw_title@),
            decreases customs@.len() - i,
        {
            title = pattern_remove_all(&customs[i], title.as_str());
            proof {
                assert(ps.take(2 + i + 1).drop_last() =~= ps.take(2 + i));
                assert(ps.take(2 + i + 1).last() == customs@[i as int]@);
            }
            i = i + 1;
        }
        assert(ps.take(2 + customs@.len() as int) =~= ps);
        normalize_characters(title.as_str())
    }

    /// The title with the date cut out and the date found, where the extractor
    /// finds one; else the title and the feed's date.
    fn apply_date_extraction(extractor: Option<&DateExtractor>, raw_title: &str, feed_date: Date) -> (r: (
        String,
        Date,
    ))
        requires
            feed_date.valid(),
        ensures
            (r.0@, r.1) == dated_title(extractor_view(extractor), raw_title@, feed_date),
            r.1.valid(),
    {
        match extractor {
            Some(x) => match x.extract_date(raw_title) {
                Some((date, range)) => {
                    let n = raw_title.unicode_len();
                    let mut title = String::from_str(raw_title.substring_char(0, range.start));
                    title.append(raw_title.substring_char(range.end, n));
                    (title, date)
                },
                None => (String::from_str(raw_title), feed_date),
            },
            None => (String::from_str(raw_title), feed_date),
        }
    }

    /// The episode that a feed entry gives, with the show's title, compiled
    /// patterns and date extractor; each missing or malformed part is its own error.
    pub fn from_item(
        show: &Show,
        container: &RegexContainer,
        extractor: Option<&DateExtractor>,
        item: &FeedItem,
    ) -> (r: Result<Episode, ParsingError>)
        ensures
            match item_fault(item@) {
                Some(f) => r matches Err(e) && is_fault(e, f),
                None => r matches Ok(ep) && ep.wf() && ep@ == episode_of(
                    show@.title,
                    container@,
                    extractor_view(extractor),
                    item@,
                ),
            },
    {
        let raw_title = match &item.title {
            Some(t) => t,
            None => return Err(ParsingError::EpisodeTitleMissing),
        };
        let pub_date_text = match &item.pub_date {
            Some(d) => d,
            None => return Err(ParsingError::EpisodePubDateMissing),
        };
        let feed_date = match parse_rfc2822_date(pub_date_text.as_str()) {
            Ok(d) => d,
            Err(e) => return Err(ParsingError::EpisodePubDate(e)),
        };
        let (title, pub_date) = Self::apply_date_extraction(extractor, raw_title.as_str(), feed_date);
        let title = Self::process_raw_title(title.as_str(), container);
        let enclosure_url = match &item.enclosure_url {
            Some(u) => u.clone(),
            None => return Err(ParsingError::EpisodeEnclosureURLMissing),
        };
        let extension = Self::get_enclosure_extension(container, enclosure_url.as_str());
        let (filename, episode_name_range) = Self::generate_filename(
            show,
            &pub_date,
            title.as_str(),
            extension.as_str(),
        );
        proof {
            assert(filename@.len() >= episode_name_range.end);
        }
        Ok(Episode { enclosure_url, filename, episode_name_range, pub_date })
    }

    /// The episode that a feed entry gives for `show`, whose patterns are
    /// compiled on first use.
    pub fn new(show: &mut Show, item: &FeedItem) -> (r: Result<Episode, ParsingError>)
        requires
            old(show).wf(),
        ensures
            final(show).wf(),
            final(show)@ == old(show)@,
            match show_patterns(final(show)@) {
                Err(p) => r matches Err(ParsingError::Config(ConfigError::InvalidPattern(q))) && q@
                    == p,
                Ok(ext) => match item_fault(item@) {
                    Some(f) => r matches Err(e) && is_fault(e, f),
                    None => r matches Ok(ep) && ep.wf() && ep@ == episode_of(
                        final(show)@.title,
                        final(show)@.container(),
                        ext,
                        item@,
                    ),
                },
            },
    {
        let rc = show.regex_container();
        let container = match &*rc {
            Ok(c) => c,
            Err(e) => return Err(ParsingError::Config(copy_config_error(e))),
        };
        let ex = show.date_extractor();
        let extractor = match &ex {
            Some(x) => match &**x {
                Ok(d) => Some(d),
                Err(e) => return Err(ParsingError::Config(copy_config_error(e))),
            },
            None => None,
        };
        Self::from_item(show, container, extractor, item)
    }
}

/// The episodes of an RSS document for `show`; entries that lack a part are
/// left out, a document that does not parse or patterns that do not compile
/// fail the whole.
pub fn episodes_from_reader(reader: &[u8], show: &mut Show) -> (r: Result<Vec<Episode>, ParsingError>)
    requires
        old(show).wf(),
    ensures
        final(show).wf(),
        final(show)@ == old(show)@,
        match feed_items_in(reader@) {
            None => r matches Err(ParsingError::Document(_)),
            Some(items) => match show_patterns(final(show)@) {
                Err(p) => r matches Err(ParsingError::Config(ConfigError::InvalidPattern(q))) && q@
                    == p,
                Ok(ext) => r matches Ok(eps) && episode_views(eps@) == kept_episodes(
                    final(show)@.title,
                    final(show)@.container(),
                    ext,
                    items,
                ) && forall|i: int| 0 <= i < eps@.len() ==> (#[trigger] eps@[i]).wf(),
            },
        },
{
    let items = match read_feed_items(reader) {
        Ok(items) => items,
        Err(e) => return Err(ParsingError::Document(e)),
    };
    let rc = show.regex_container();
    let container = match &*rc {
        Ok(c) => c,
        Err(e) => return Err(ParsingError::Config(copy_config_error(e))),
    };
    let ex = show.date_extractor();
    let extractor = match &ex {
        Some(x) => match &**x {
            Ok(d) => Some(d),
            Err(e) => return Err(ParsingError::Config(copy_config_error(e))),
        },
        None => None,
    };
    let ghost views = items@.map_values(|i: FeedItem| i@);
    let ghost title = show@.title;
    let ghost ext = extractor_view(extractor);
    let mut episodes: Vec<Episode> = Vec::new();
    let mut i: usize = 0;
    while i < items.len()
        invariant
            i <= items@.len(),
            views.len() == items@.len(),
            forall|k: int| 0 <= k < views.len() ==> #[trigger] views[k] == items@[k]@,
            title == show@.title,
            ext == extractor_view(extractor),
            episode_views(episodes@) == kept_episodes(title, container@, ext, views.take(i as int)),
            forall|k: int| 0 <= k < episodes@.len() ==> (#[trigger] episodes@[k]).wf(),
        decreases items@.len() - i,
    {
        proof {
            assert(views.take(i + 1).drop_last() =~= views.take(i as int));
            assert(views.take(i + 1).last() == items@[i as int]@);
        }
        let ghost prev = kept_episodes(title, container@, ext, views.take(i as int));
        proof {
            assert(views[i as int] == items@[i as int]@);
            assert(kept_episodes(title, container@, ext, views.take(i + 1)) == if item_fault(
                views[i as int],
            ) is None {
                prev.push(episode_of(title, container@, ext, views[i as int]))
            } else {
                prev
            });
        }
        match Episode::from_item(show, container, extractor, &items[i]) {
            Ok(ep) => {
                episodes.push(ep);
                assert(episode_views(episodes@) =~= kept_episodes(
                    title,
                    container@,
                    ext,
                    views.take(i as int),
                ).push(ep@));
            },
            Err(_) => {
            },
        }
        i = i + 1;
    }
    assert(views.take(items@.len() as int) =~= views);
    Ok(episodes)
}

} // verus!
