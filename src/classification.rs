use crate::config::Config;
use crate::date::{precedes, Date};
use crate::episode::{Episode, EpisodeView};
use crate::pattern::{matches_in, pattern_is_match, Pattern};
use crate::regex_container::{
    compiled_clusions_view, first_failing, pattern_views, string_views, ClusionsView,
};
use crate::show::{copy_config_error, Clusions, ConfigError, Show};
use vstd::prelude::*;
use vstd::string::*;

verus! {

/// What is to be done with an episode.
#[derive(Clone, Copy, Debug, PartialEq, Eq, Structural)]
pub enum EpisodeStatus {
    /// Its file is missing and it is to be fetched.
    Need,
    /// Its file is already present.
    Have,
    /// The show's rules leave it out.
    ShouldSkip,
}

/// Whether one of `ps` matches somewhere in `s`.
pub open spec fn any_matches(ps: Seq<Seq<char>>, s: Seq<char>) -> bool {
    exists|i: int| 0 <= i < ps.len() && matches_in(ps[i], s)
}

/// The status an episode gets: `filter` is `Some(true)` for an inclusion rule
/// and `Some(false)` for an exclusion rule; `name_matches` whether one of its
/// patterns matches the episode's name.
pub open spec fn status_from(
    filter: Option<bool>,
    name_matches: bool,
    already_have: bool,
    pub_date: Date,
    not_before: Option<Date>,
) -> EpisodeStatus {
    let provisional = if filter == Some(true) && !name_matches {
        EpisodeStatus::ShouldSkip
    } else if filter == Some(false) && name_matches {
        EpisodeStatus::ShouldSkip
    } else if already_have {
        EpisodeStatus::Have
    } else {
        EpisodeStatus::Need
    };
    if provisional == EpisodeStatus::Need && (not_before matches Some(nb) && precedes(
        pub_date,
        nb,
    )) {
        EpisodeStatus::ShouldSkip
    } else {
        provisional
    }
}

/// The status of episode `e` under a show's clusions and cut-off date, with
/// `existing` the names of the files already present.
pub open spec fn status_of(
    clusions: ClusionsView,
    e: EpisodeView,
    existing: Seq<Seq<char>>,
    not_before: Option<Date>,
) -> EpisodeStatus {
    status_from(
        match clusions {
            Some((inclusion, _)) => Some(inclusion),
            None => None,
        },
        match clusions {
            Some((_, ps)) => any_matches(ps, e.episode_name()),
            None => false,
        },
        existing.contains(e.filename),
        e.pub_date,
        not_before,
    )
}

/// Whether one of `regexes` matches somewhere in `string`.
pub fn any_match(regexes: &[Pattern], string: &str) -> (r: bool)
    ensures
        r == any_matches(pattern_views(regexes@), string@),
{
    let ghost ps = pattern_views(regexes@);
    let mut i: usize = 0;
    while i < regexes.len()
        invariant
            i <= regexes@.len(),
            ps == pattern_views(regexes@),
            forall|k: int| 0 <= k < i ==> !matches_in(#[trigger] ps[k], string@),
        decreases regexes@.len() - i,
    {
        if pattern_is_match(&regexes[i], string) {
            assert(matches_in(ps[i as int], string@));
            return true;
        }
        i = i + 1;
    }
    false
}

/// The status of an episode, given what was found out about it.
pub fn decide_status(
    filter: Option<bool>,
    name_matches: bool,
    already_have: bool,
    pub_date: &Date,
    not_before: Option<Date>,
) -> (r: EpisodeStatus)
    ensures
        r == status_from(filter, name_matches, already_have, *pub_date, not_before),
{
    let provisional = match filter {
        Some(true) if !name_matches => EpisodeStatus::ShouldSkip,
        Some(false) if name_matches => EpisodeStatus::ShouldSkip,
        _ => if already_have {
            EpisodeStatus::Have
        } else {
            EpisodeStatus::Need
        },
    };
    match not_before {
        Some(nb) => {
            if provisional == EpisodeStatus::Need && pub_date.is_before(&nb) {
                EpisodeStatus::ShouldSkip
            } else {
                provisional
            }
        },
        None => provisional,
    }
}

/// Whether `name` is one of `names`.
pub fn contains_name(names: &[String], name: &str) -> (r: bool)
    ensures
        r == string_views(names@).contains(name@),
{
    let ghost vs = string_views(names@);
    let wanted = String::from_str(name);
    let mut i: usize = 0;
    while i < names.len()
        invariant
            i <= names@.len(),
            vs == string_views(names@),
            wanted@ == name@,
            forall|k: int| 0 <= k < i ==> #[trigger] vs[k] != name@,
        decreases names@.len() - i,
    {
        if names[i].eq(&wanted) {
            assert(vs[i as int] == name@);
            return true;
        }
        i = i + 1;
    }
    false
}

/// An episode together with its status.
#[derive(Debug)]
pub struct ClassifiedEpisode<'a> {
    status: EpisodeStatus,
    episode: &'a Episode,
}

impl<'a> ClassifiedEpisode<'a> {
    pub closed spec fn spec_status(&self) -> EpisodeStatus {
        self.status
    }

    pub closed spec fn spec_episode(&self) -> Episode {
        *self.episode
    }

    pub fn take(self) -> (r: (EpisodeStatus, &'a Episode))
        ensures
            r.0 == self.spec_status(),
            *r.1 == self.spec_episode(),
    {
        (self.status, self.episode)
    }
}

/// The status of one episode under the compiled clusions.
fn status_for_episode(
    clusions: &Option<Clusions<Pattern>>,
    not_before: Option<Date>,
    episode: &Episode,
    existing_files: &[String],
) -> (r: EpisodeStatus)
    requires
        episode.wf(),
    ensures
        r == status_of(
            compiled_clusions_view(*clusions),
            episode@,
            string_views(existing_files@),
            not_before,
        ),
{
    let (filter, name_matches) = match clusions {
        Some(Clusions::Inclusion(regs)) => (Some(true), any_match(regs.as_slice(), episode.episode_name())),
        Some(Clusions::Exclusion(regs)) => (Some(false), any_match(regs.as_slice(), episode.episode_name())),
        None => (None, false),
    };
    let already_have = contains_name(existing_files, episode.filename());
    decide_status(filter, name_matches, already_have, &episode.pub_date(), not_before)
}

/// Each episode with its status, oldest first (the feed lists the newest
/// first): a limit on fetched episodes then takes the oldest missing ones.
pub fn classify<'a>(
    clusions: &Option<Clusions<Pattern>>,
    not_before: Option<Date>,
    all_episodes: &'a [Episode],
    existing_files: &[String],
) -> (r: Vec<ClassifiedEpisode<'a>>)
    requires
        forall|i: int| 0 <= i < all_episodes@.len() ==> (#[trigger] all_episodes@[i]).wf(),
    ensures
        r@.len() == all_episodes@.len(),
        forall|i: int|
            0 <= i < r@.len() ==> {
                let e = all_episodes@[all_episodes@.len() - 1 - i];
                &&& (#[trigger] r@[i]).spec_episode() == e
                &&& r@[i].spec_status() == status_of(
                    compiled_clusions_view(*clusions),
                    e@,
                    string_views(existing_files@),
                    not_before,
                )
            },
{
    let n = all_episodes.len();
    let mut out: Vec<ClassifiedEpisode<'a>> = Vec::new();
    let mut k: usize = 0;
    while k < n
        invariant
            k <= n,
            n == all_episodes@.len(),
            out@.len() == k,
            forall|i: int| 0 <= i < all_episodes@.len() ==> (#[trigger] all_episodes@[i]).wf(),
            forall|i: int|
                0 <= i < k ==> {
                    let e = all_episodes@[n - 1 - i];
                    &&& (#[trigger] out@[i]).spec_episode() == e
                    &&& out@[i].spec_status() == status_of(
                        compiled_clusions_view(*clusions),
                        e@,
                        string_views(existing_files@),
                        not_before,
                    )
                },
        decreases n - k,
    {
        let episode = &all_episodes[n - 1 - k];
        let status = status_for_episode(clusions, not_before, episode, existing_files);
        out.push(ClassifiedEpisode { status, episode });
        k = k + 1;
    }
    out
}

/// The episodes of `show` with their statuses, oldest first, given the names
/// of the files already present; fails where the show's patterns do not compile.
pub fn classified_episodes_from_set<'a>(
    show: &mut Show,
    all_episodes: &'a [Episode],
    existing_files: &[String],
) -> (r: Result<Vec<ClassifiedEpisode<'a>>, ConfigError>)
    requires
        old(show).wf(),
        forall|i: int| 0 <= i < all_episodes@.len() ==> (#[trigger] all_episodes@[i]).wf(),
    ensures
        final(show).wf(),
        final(show)@ == old(show)@,
        match first_failing(final(show)@.container().sources()) {
            Some(p) => r matches Err(ConfigError::InvalidPattern(q)) && q@ == p,
            None => r matches Ok(v) && v@.len() == all_episodes@.len() && forall|i: int|
                0 <= i < v@.len() ==> {
                    let e = all_episodes@[all_episodes@.len() - 1 - i];
                    &&& (#[trigger] v@[i]).spec_episode() == e
                    &&& v@[i].spec_status() == status_of(
                        final(show)@.clusions,
                        e@,
                        string_views(existing_files@),
                        final(show)@.not_before,
                    )
                },
        },
{
    let rc = show.regex_container();
    let container = match &*rc {
        Ok(c) => c,
        Err(e) => return Err(copy_config_error(e)),
    };
    Ok(classify(container.clusions(), show.not_before_date(), all_episodes, existing_files))
}


/// Under an exclusion rule, an episode whose name matches one of the rule's
/// patterns is skipped, whether or not its file is already present.
pub proof fn exclusion_outranks_existing_files(
    patterns: Seq<Seq<char>>,
    e: EpisodeView,
    existing: Seq<Seq<char>>,
    not_before: Option<Date>,
)
    requires
        any_matches(patterns, e.episode_name()),
    ensures
        status_of(Some((false, patterns)), e, existing, not_before) == EpisodeStatus::ShouldSkip,
{
}

/// An episode that is fetched when there is no cut-off date is skipped under a
/// cut-off that falls after its date, and still fetched under one on or before it.
pub proof fn not_before_date_precedence(
    clusions: ClusionsView,
    e: EpisodeView,
    existing: Seq<Seq<char>>,
    cutoff: Date,
)
    requires
        status_of(clusions, e, existing, None) == EpisodeStatus::Need,
    ensures
        precedes(e.pub_date, cutoff) ==> status_of(clusions, e, existing, Some(cutoff))
            == EpisodeStatus::ShouldSkip,
        !precedes(e.pub_date, cutoff) ==> status_of(clusions, e, existing, Some(cutoff))
            == EpisodeStatus::Need,
{
}

/// What a run does next with a classified episode.
#[derive(Clone, Copy, Debug, PartialEq, Eq, Structural)]
pub enum Action {
    /// The limit is reached: process no further episode.
    Stop,
    /// Report that the episode's file is present.
    ReportExisting,
    /// Report that the episode would be fetched.
    ReportWouldDownload,
    /// Fetch the episode.
    Download,
    /// Go on to the next episode.
    Nothing,
}

/// The action for an episode of `status` after `processed` missing episodes,
/// and the count after it: a missing episode counts once it is fetched, or
/// reported under `pretend`.
pub fn next_action(config: &Config, processed: usize, status: EpisodeStatus) -> (r: (
    Action,
    usize,
))
    ensures
        processed >= config.spec_limit() ==> r == (Action::Stop, processed),
        processed < config.spec_limit() ==> r == match status {
            EpisodeStatus::Have => if config.spec_print_existing_episodes() {
                (Action::ReportExisting, processed)
            } else {
                (Action::Nothing, processed)
            },
            EpisodeStatus::Need => if config.spec_pretend() {
                (Action::ReportWouldDownload, (processed + 1) as usize)
            } else {
                (Action::Download, (processed + 1) as usize)
            },
            EpisodeStatus::ShouldSkip => (Action::Nothing, processed),
        },
{
    if processed >= config.number_to_download() {
        return (Action::Stop, processed);
    }
    match status {
        EpisodeStatus::Have => if config.print_existing_episodes() {
            (Action::ReportExisting, processed)
        } else {
            (Action::Nothing, processed)
        },
        EpisodeStatus::Need => if config.pretend() {
            (Action::ReportWouldDownload, processed + 1)
        } else {
            (Action::Download, processed + 1)
        },
        EpisodeStatus::ShouldSkip => (Action::Nothing, processed),
    }
}

/// The episodes of `eps` whose file is not among `existing`, in order.
pub open spec fn missing_from(eps: Seq<Episode>, existing: Seq<Seq<char>>) -> Seq<Episode>
    decreases eps.len(),
{
    if eps.len() == 0 {
        Seq::empty()
    } else {
        let before = missing_from(eps.drop_last(), existing);
        if existing.contains(eps.last()@.filename) {
            before
        } else {
            before.push(eps.last())
        }
    }
}

/// The episodes whose file is not among `existing_files`, in order.
pub fn missing_episodes_from_set<'a>(all_episodes: &'a [Episode], existing_files: &[String]) -> (r: Vec<
    &'a Episode,
>)
    ensures
        r@.map_values(|e: &Episode| *e) == missing_from(all_episodes@, string_views(existing_files@)),
{
    let mut out: Vec<&'a Episode> = Vec::new();
    let mut i: usize = 0;
    while i < all_episodes.len()
        invariant
            i <= all_episodes@.len(),
            out@.map_values(|e: &Episode| *e) == missing_from(
                all_episodes@.take(i as int),
                string_views(existing_files@),
            ),
        decreases all_episodes@.len() - i,
    {
        let e = &all_episodes[i];
        proof {
            assert(all_episodes@.take(i + 1).drop_last() =~= all_episodes@.take(i as int));
            assert(all_episodes@.take(i + 1).last() == *e);
        }
        if !contains_name(existing_files, e.filename()) {
            out.push(e);
            assert(out@.map_values(|e: &Episode| *e) =~= missing_from(
                all_episodes@.take(i as int),
                string_views(existing_files@),
            ).push(*e));
        }
        i = i + 1;
    }
    assert(all_episodes@.take(all_episodes@.len() as int) =~= all_episodes@);
    out
}

} // verus!
