//! The program's configuration, as resolved from the command line.

use vstd::prelude::*;
use vstd::string::StringExecFns;

use crate::stations::Station;

verus! {

/// Settings the user can override on the command line.
#[derive(Debug)]
pub struct Config {
    /// How many songs can be in the queue at any given time.
    pub max_queue_size: usize,
    /// Where queued songs get stored if the user does not save them
    /// permanently.
    pub temp_song_location: String,
    /// Where permanently saved songs go.
    pub saved_song_location: String,
    /// Start the program already playing some station (URL).
    pub initial_station: Option<String>,
}

impl Config {
    /// The station to start playing, if one was asked for: the URL serves
    /// as its id, url and name, with a placeholder country and no votes.
    pub fn station(&self) -> (station: Option<Station>)
        ensures
            self.initial_station matches Some(url) ==> (station matches Some(s) && s.id@ == url@
                && s.url@ == url@ && s.name@ == url@ && s.country@ == "Local"@ && s.votes == 0),
            self.initial_station is None ==> station is None,
    {
        if let Some(url) = &self.initial_station {
            return Some(
                Station {
                    id: url.clone(),
                    url: url.clone(),
                    name: url.clone(),
                    country: String::from_str("Local"),
                    votes: 0,
                },
            );
        }
        None
    }
}

} // verus!
