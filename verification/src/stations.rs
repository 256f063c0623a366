//! Station records and the operations a station directory offers.

use vstd::prelude::*;
use vstd::string::StringExecFns;

use crate::text::contains_seq;
use crate::text::lower_of;
use crate::text::str_contains;
use crate::text::str_eq;
use crate::text::to_lowercase;

verus! {

/// One radio station from the directory.
#[derive(Debug, PartialEq, Eq, PartialOrd, Ord, Clone)]
pub struct Station {
    pub votes: i32,
    pub id: String,
    pub url: String,
    pub country: String,
    pub name: String,
}

impl Station {
    /// A station with just a name and a country, for exercising the
    /// directory operations.
    pub fn mock(name: &str, country: &str) -> (s: Station)
        ensures
            s.name@ == name@,
            s.country@ == country@,
            s.id@ == Seq::<char>::empty(),
            s.url@ == Seq::<char>::empty(),
            s.votes == 0,
    {
        Station {
            url: String::new(),
            id: String::new(),
            country: country.to_owned(),
            name: name.to_owned(),
            votes: 0,
        }
    }
}

/// The stations a sequence of references points at.
pub open spec fn deref_stations(v: Seq<&Station>) -> Seq<Station> {
    v.map_values(|s: &Station| *s)
}

/// A station matches a search query when its lowercased name contains the
/// lowercased query.
pub open spec fn matches_query(s: Station, query: Seq<char>) -> bool {
    contains_seq(lower_of(s.name@), lower_of(query))
}

/// Operations on a list of stations.
pub trait StationList {
    /// The list's contents, abstractly.
    spec fn stations(&self) -> Seq<Station>;

    /// The stations whose country equals `country`, in order.
    fn get_all_in_country<'a>(&'a self, country: &str) -> (found: Vec<&'a Station>)
        ensures
            deref_stations(found@) == self.stations().filter(
                |s: Station| s.country@ == country@,
            ),
    ;

    /// The stations matching the query, case-insensitively, in order.
    fn search<'a>(&'a self, query: &str) -> (found: Vec<&'a Station>)
        ensures
            deref_stations(found@) == self.stations().filter(
                |s: Station| matches_query(s, query@),
            ),
    ;
}

impl StationList for Vec<Station> {
    open spec fn stations(&self) -> Seq<Station> {
        self@
    }

    fn get_all_in_country<'a>(&'a self, country: &str) -> (found: Vec<&'a Station>)
        ensures
            deref_stations(found@) == self.stations().filter(
                |s: Station| s.country@ == country@,
            ),
    {
        let ghost pred = |s: Station| s.country@ == country@;
        let mut found: Vec<&'a Station> = Vec::new();
        let n = self.len();
        let mut i: usize = 0;
        proof {
            reveal(Seq::filter);
            assert(deref_stations(found@) =~= self@.take(0).filter(pred));
        }
        while i < n
            invariant
                n == self@.len(),
                0 <= i <= n,
                pred == (|s: Station| s.country@ == country@),
                deref_stations(found@) == self@.take(i as int).filter(pred),
            decreases n - i,
        {
            let station = &self[i];
            let keep = str_eq(station.country.as_str(), country);
            if keep {
                found.push(station);
            }
            proof {
                reveal(Seq::filter);
                let t1 = self@.take(i + 1);
                assert(keep == pred(self@[i as int]));
                assert(t1.drop_last() =~= self@.take(i as int));
                assert(t1.last() == self@[i as int]);
                assert(deref_stations(found@) =~= t1.filter(pred));
            }
            i += 1;
        }
        proof {
            assert(self@.take(n as int) =~= self@);
        }
        found
    }

    fn search<'a>(&'a self, query: &str) -> (found: Vec<&'a Station>)
        ensures
            deref_stations(found@) == self.stations().filter(
                |s: Station| matches_query(s, query@),
            ),
    {
        let ghost pred = |s: Station| matches_query(s, query@);
        let query_lower = to_lowercase(query);
        let mut found: Vec<&'a Station> = Vec::new();
        let n = self.len();
        let mut i: usize = 0;
        proof {
            reveal(Seq::filter);
            assert(deref_stations(found@) =~= self@.take(0).filter(pred));
        }
        while i < n
            invariant
                n == self@.len(),
                0 <= i <= n,
                pred == (|s: Station| matches_query(s, query@)),
                query_lower@ == lower_of(query@),
                deref_stations(found@) == self@.take(i as int).filter(pred),
            decreases n - i,
        {
            let station = &self[i];
            let name_lower = to_lowercase(station.name.as_str());
            let keep = str_contains(name_lower.as_str(), query_lower.as_str());
            if keep {
                found.push(station);
            }
            proof {
                reveal(Seq::filter);
                let t1 = self@.take(i + 1);
                assert(keep == pred(self@[i as int]));
                assert(t1.drop_last() =~= self@.take(i as int));
                assert(t1.last() == self@[i as int]);
                assert(deref_stations(found@) =~= t1.filter(pred));
            }
            i += 1;
        }
        proof {
            assert(self@.take(n as int) =~= self@);
        }
        found
    }
}

} // verus!
