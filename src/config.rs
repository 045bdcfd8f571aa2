use vstd::prelude::*;
use vstd::string::*;

verus! {

/// The options of one run.
#[derive(Debug)]
pub struct Config {
    destination: String,
    config_file_path: String,
    pretend: bool,
    print_existing_episodes: bool,
    number_to_download: Option<usize>,
}

impl Config {
    pub closed spec fn spec_destination(&self) -> Seq<char> {
        self.destination@
    }

    pub closed spec fn spec_config_file_path(&self) -> Seq<char> {
        self.config_file_path@
    }

    pub closed spec fn spec_pretend(&self) -> bool {
        self.pretend
    }

    pub closed spec fn spec_print_existing_episodes(&self) -> bool {
        self.print_existing_episodes
    }

    /// How many missing episodes a run may fetch.
    pub closed spec fn spec_limit(&self) -> usize {
        match self.number_to_download {
            Some(n) => n,
            None => usize::MAX,
        }
    }

    pub fn new(
        destination: String,
        config_file_path: String,
        pretend: bool,
        print_existing_episodes: bool,
        number_to_download: Option<usize>,
    ) -> (r: Self)
        ensures
            r.spec_destination() == destination@,
            r.spec_config_file_path() == config_file_path@,
            r.spec_pretend() == pretend,
            r.spec_print_existing_episodes() == print_existing_episodes,
            r.spec_limit() == match number_to_download {
                Some(n) => n,
                None => usize::MAX,
            },
    {
        Config { destination, config_file_path, pretend, print_existing_episodes, number_to_download }
    }

    /// The directory episodes are saved in.
    pub fn destination(&self) -> (r: &str)
        ensures
            r@ == self.spec_destination(),
    {
        self.destination.as_str()
    }

    /// The show's configuration file.
    pub fn config_file_path(&self) -> (r: &str)
        ensures
            r@ == self.spec_config_file_path(),
    {
        self.config_file_path.as_str()
    }

    /// Whether to only report what would be fetched.
    pub fn pretend(&self) -> (r: bool)
        ensures
            r == self.spec_pretend(),
    {
        self.pretend
    }

    /// Whether to report episodes that are already present.
    pub fn print_existing_episodes(&self) -> (r: bool)
        ensures
            r == self.spec_print_existing_episodes(),
    {
        self.print_existing_episodes
    }

    /// The limit on fetched episodes; without one, `usize::MAX`.
    pub fn number_to_download(&self) -> (r: usize)
        ensures
            r == self.spec_limit(),
    {
        match self.number_to_download {
            Some(n) => n,
            None => usize::MAX,
        }
    }
}

} // verus!
