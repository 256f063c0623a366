//! The computations behind the station-directory cache: download progress
//! percentages, and normalizing a freshly decoded station list — trimming
//! names and sorting by popularity — before it is written back out.

use vstd::multiset::Multiset;
use vstd::prelude::*;

use crate::stations::Station;
use crate::text::lemma_lex_lt_irrefl;
use crate::text::lemma_lex_lt_trans;
use crate::text::lex_lt;
use crate::text::str_eq;
use crate::text::str_lt;
use crate::text::trim_of;
use crate::text::trim_owned;

verus! {

/// What is downloaded so far, as a percentage of the expected total.
pub fn loading_percent(downloaded: u64, total: u64) -> (percent: u64)
    requires
        total > 0,
        downloaded * 100 <= u64::MAX,
    ensures
        percent == downloaded * 100 / (total as int),
{
    downloaded * 100 / total
}

/// The default size assumed for the station download when the server does
/// not announce one.
pub const FALLBACK_DOWNLOAD_SIZE: u64 = 60_000_000;

/// The expected total size of the station download: the announced content
/// length if it is positive, the fallback otherwise.
pub fn effective_total(content_length: Option<u64>) -> (total: u64)
    ensures
        total > 0,
        content_length matches Some(len) ==> total == (if len > 0 {
            len
        } else {
            FALLBACK_DOWNLOAD_SIZE
        }),
        content_length is None ==> total == FALLBACK_DOWNLOAD_SIZE,
{
    match content_length {
        Some(len) if len > 0 => len,
        _ => FALLBACK_DOWNLOAD_SIZE,
    }
}

/// Everything the station order and the cache contract read of a station.
pub type StationKey = (int, Seq<char>, Seq<char>, Seq<char>, Seq<char>);

/// The station, abstracted to its fields.
pub open spec fn station_key(s: Station) -> StationKey {
    (s.votes as int, s.id@, s.url@, s.country@, s.name@)
}

/// The station's fields with the name trimmed: what normalization turns an
/// entry into.
pub open spec fn trimmed_key(s: Station) -> StationKey {
    (s.votes as int, s.id@, s.url@, s.country@, trim_of(s.name@))
}

/// The keys of a station sequence, in order.
pub open spec fn keys_of(s: Seq<Station>) -> Seq<StationKey> {
    s.map_values(|x: Station| station_key(x))
}

/// Strict order on stations: by votes, then by each remaining field
/// lexicographically — the order the station directory is kept in,
/// reversed, so the most popular station sorts first.
pub open spec fn station_lt(a: Station, b: Station) -> bool {
    if a.votes != b.votes {
        a.votes < b.votes
    } else if a.id@ != b.id@ {
        lex_lt(a.id@, b.id@)
    } else if a.url@ != b.url@ {
        lex_lt(a.url@, b.url@)
    } else if a.country@ != b.country@ {
        lex_lt(a.country@, b.country@)
    } else if a.name@ != b.name@ {
        lex_lt(a.name@, b.name@)
    } else {
        false
    }
}

/// Sorted most popular first: no entry orders strictly before a later one.
pub open spec fn sorted_desc(s: Seq<Station>) -> bool {
    forall|i: int, j: int| 0 <= i < j < s.len() ==> !station_lt(#[trigger] s[i], #[trigger] s[j])
}

/// The facts about lexicographic order on three sequences that the station
/// order inherits.
proof fn lex_facts(x: Seq<char>, y: Seq<char>, z: Seq<char>)
    ensures
        lex_lt(x, y) && lex_lt(y, z) ==> lex_lt(x, z),
        !(lex_lt(x, y) && lex_lt(y, x)),
        !(lex_lt(y, z) && lex_lt(z, y)),
        !(lex_lt(x, z) && lex_lt(z, x)),
{
    if lex_lt(x, y) && lex_lt(y, z) {
        lemma_lex_lt_trans(x, y, z);
    }
    if lex_lt(x, y) && lex_lt(y, x) {
        lemma_lex_lt_trans(x, y, x);
        lemma_lex_lt_irrefl(x);
    }
    if lex_lt(y, z) && lex_lt(z, y) {
        lemma_lex_lt_trans(y, z, y);
        lemma_lex_lt_irrefl(y);
    }
    if lex_lt(x, z) && lex_lt(z, x) {
        lemma_lex_lt_trans(x, z, x);
        lemma_lex_lt_irrefl(x);
    }
}

/// The station order is transitive.
proof fn lemma_station_lt_trans(a: Station, b: Station, c: Station)
    requires
        station_lt(a, b),
        station_lt(b, c),
    ensures
        station_lt(a, c),
{
    lex_facts(a.id@, b.id@, c.id@);
    lex_facts(a.url@, b.url@, c.url@);
    lex_facts(a.country@, b.country@, c.country@);
    lex_facts(a.name@, b.name@, c.name@);
}

/// Whether `a` orders strictly before `b` in the station order.
fn station_lt_exec(a: &Station, b: &Station) -> (r: bool)
    ensures
        r == station_lt(*a, *b),
{
    if a.votes != b.votes {
        return a.votes < b.votes;
    }
    if !str_eq(a.id.as_str(), b.id.as_str()) {
        return str_lt(a.id.as_str(), b.id.as_str());
    }
    if !str_eq(a.url.as_str(), b.url.as_str()) {
        return str_lt(a.url.as_str(), b.url.as_str());
    }
    if !str_eq(a.country.as_str(), b.country.as_str()) {
        return str_lt(a.country.as_str(), b.country.as_str());
    }
    if !str_eq(a.name.as_str(), b.name.as_str()) {
        return str_lt(a.name.as_str(), b.name.as_str());
    }
    false
}

/// A copy of the station with its name trimmed.
fn trim_station(s: &Station) -> (t: Station)
    ensures
        station_key(t) == trimmed_key(*s),
{
    Station {
        votes: s.votes,
        id: s.id.clone(),
        url: s.url.clone(),
        country: s.country.clone(),
        name: trim_owned(s.name.as_str()),
    }
}

/// Normalize a freshly decoded station list: trim every station's name and
/// sort the list from most popular to least.  The result holds exactly the
/// input entries, names trimmed, in sorted order.
pub fn normalize_stations(stations: Vec<Station>) -> (r: Vec<Station>)
    ensures
        r@.len() == stations@.len(),
        keys_of(r@).to_multiset() == stations@.map_values(
            |s: Station| trimmed_key(s),
        ).to_multiset(),
        sorted_desc(r@),
{
    let n = stations.len();
    let mut trimmed: Vec<Station> = Vec::new();
    let mut i: usize = 0;
    while i < n
        invariant
            n == stations@.len(),
            0 <= i <= n,
            trimmed@.len() == i,
            forall|j: int| 0 <= j < i ==> station_key(#[trigger] trimmed@[j]) == trimmed_key(
                stations@[j],
            ),
        decreases n - i,
    {
        trimmed.push(trim_station(&stations[i]));
        i += 1;
    }
    proof {
        assert(keys_of(trimmed@) =~= stations@.map_values(|s: Station| trimmed_key(s)));
    }
    sort_stations_desc(trimmed)
}

/// Sort stations from most popular to least, keeping exactly the same
/// entries.
fn sort_stations_desc(input: Vec<Station>) -> (r: Vec<Station>)
    ensures
        r@.len() == input@.len(),
        keys_of(r@).to_multiset() == keys_of(input@).to_multiset(),
        sorted_desc(r@),
{
    let ghost total = input@.len();
    let ghost orig_ms = keys_of(input@).to_multiset();
    let mut rest = input;
    let mut out: Vec<Station> = Vec::new();
    proof {
        broadcast use vstd::seq_lib::group_to_multiset_ensures;
        broadcast use vstd::multiset::group_multiset_axioms;

        assert(keys_of(out@) =~= Seq::<StationKey>::empty());
        assert(keys_of(out@).to_multiset().add(keys_of(rest@).to_multiset()) =~= orig_ms);
    }
    while rest.len() > 0
        invariant
            out@.len() + rest@.len() == total,
            keys_of(out@).to_multiset().add(keys_of(rest@).to_multiset()) == orig_ms,
            sorted_desc(out@),
            forall|i: int, j: int|
                0 <= i < out@.len() && 0 <= j < rest@.len() ==> !station_lt(
                    #[trigger] out@[i],
                    #[trigger] rest@[j],
                ),
        decreases rest.len(),
    {
        let m = rest.len();
        let mut mi: usize = 0;
        let mut k: usize = 1;
        while k < m
            invariant
                m == rest@.len(),
                0 <= mi < m,
                1 <= k <= m,
                forall|j: int| 0 <= j < k ==> !station_lt(rest@[mi as int], #[trigger] rest@[j]),
            decreases m - k,
        {
            if station_lt_exec(&rest[mi], &rest[k]) {
                proof {
                    assert forall|j: int| 0 <= j < k + 1 implies !station_lt(
                        rest@[k as int],
                        #[trigger] rest@[j],
                    ) by {
                        if j < k + 1 && station_lt(rest@[k as int], rest@[j]) {
                            if j == k {
                            } else {
                                lemma_station_lt_trans(
                                    rest@[mi as int],
                                    rest@[k as int],
                                    rest@[j],
                                );
                            }
                        }
                    }
                }
                mi = k;
            }
            k += 1;
        }
        let ghost old_rest = rest@;
        let ghost old_out = out@;
        let picked = rest.remove(mi);
        out.push(picked);
        proof {
            lemma_selection_step(old_out, old_rest, out@, rest@, picked, mi as int);
        }
    }
    proof {
        broadcast use vstd::seq_lib::group_to_multiset_ensures;
        broadcast use vstd::multiset::group_multiset_axioms;

        assert(keys_of(rest@).to_multiset() =~= Multiset::<StationKey>::empty());
        assert(keys_of(out@).to_multiset() =~= orig_ms);
    }
    out
}

/// Moving one entry from the pool to the end of the output keeps the
/// combined key multiset unchanged.
proof fn lemma_selection_step(
    old_out: Seq<Station>,
    old_rest: Seq<Station>,
    new_out: Seq<Station>,
    new_rest: Seq<Station>,
    picked: Station,
    mi: int,
)
    requires
        0 <= mi < old_rest.len(),
        picked == old_rest[mi],
        new_rest == old_rest.remove(mi),
        new_out == old_out.push(picked),
    ensures
        keys_of(new_out).to_multiset().add(keys_of(new_rest).to_multiset()) == keys_of(
            old_out,
        ).to_multiset().add(keys_of(old_rest).to_multiset()),
{
    broadcast use vstd::seq_lib::group_to_multiset_ensures;
    broadcast use vstd::multiset::group_multiset_axioms;

    let kx = station_key(picked);
    assert(keys_of(old_rest)[mi] == kx);
    assert(keys_of(old_rest).contains(kx));
    assert(keys_of(new_rest) =~= keys_of(old_rest).remove(mi));
    assert(keys_of(old_rest).remove(mi).to_multiset() =~= keys_of(old_rest).to_multiset().remove(
        kx,
    ));
    assert(keys_of(new_out) =~= keys_of(old_out).push(kx));
    assert(keys_of(old_out).push(kx).to_multiset() =~= keys_of(old_out).to_multiset().insert(kx));
    assert(keys_of(old_rest).to_multiset().count(kx) > 0);
    assert(keys_of(new_out).to_multiset().add(keys_of(new_rest).to_multiset()) =~= keys_of(
        old_out,
    ).to_multiset().add(keys_of(old_rest).to_multiset()));
}

} // verus!
