//! The bounded, insertion-ordered queue of finished recordings.
//!
//! Entries sit newest-first.  Inserting into a full queue evicts the entry
//! at the back and hands it to the caller, whose job it is to delete the
//! evicted backing file (best effort: a failed delete must never block the
//! insertion itself).

use std::collections::VecDeque;
use vstd::prelude::*;
use vstd::string::StringExecFns;

use crate::text::str_eq;

verus! {

/// A queued recording: the track's title and its backing file.
#[derive(Debug, PartialEq, Eq)]
pub struct Song {
    pub title: String,
    pub path: String,
}

/// The backing path given to a song created from a bare title.
pub open spec fn default_song_path(title: Seq<char>) -> Seq<char> {
    "/tmp/"@ + title + ".ogg"@
}

impl Song {
    /// A song named by a bare title, recorded under the default temporary
    /// location.
    pub fn from(value: &str) -> (song: Song)
        ensures
            song.title@ == value@,
            song.path@ == default_song_path(value@),
    {
        let mut path = String::from_str("/tmp/");
        path.append(value);
        path.append(".ogg");
        Song { title: value.to_owned(), path }
    }
}

/// The queue after inserting `song` at the front, evicting the back entry
/// if the queue already held `capacity` entries.
pub open spec fn insert_entries(entries: Seq<Song>, capacity: int, song: Song) -> Seq<Song> {
    if entries.len() >= capacity {
        seq![song] + entries.drop_last()
    } else {
        seq![song] + entries
    }
}

/// What inserting into a queue of the given contents evicts: the back entry
/// exactly when the queue is full.
pub open spec fn insert_evicted(entries: Seq<Song>, capacity: int) -> Option<Song> {
    if entries.len() >= capacity && entries.len() > 0 {
        Some(entries.last())
    } else {
        None
    }
}

/// Some entry carries the given title.
pub open spec fn has_title(entries: Seq<Song>, title: Seq<char>) -> bool {
    exists|i: int| 0 <= i < entries.len() && #[trigger] entries[i].title@ == title
}

/// A bounded queue of recordings, newest first.
#[derive(Debug)]
pub struct SongQueue {
    /// Maximum number of entries kept at once.
    max_size: usize,
    queue: VecDeque<Song>,
}

impl View for SongQueue {
    type V = Seq<Song>;

    closed spec fn view(&self) -> Seq<Song> {
        self.queue@
    }
}

impl SongQueue {
    /// Greatest number of entries the queue may hold.
    pub closed spec fn capacity(&self) -> usize {
        self.max_size
    }

    /// Well-formed: a positive capacity that the contents never exceed.
    pub open spec fn wf(&self) -> bool {
        self@.len() <= self.capacity() && self.capacity() >= 1
    }

    /// An empty queue holding at most `max_size` entries.
    pub fn new(max_size: usize) -> (q: SongQueue)
        requires
            max_size >= 1,
        ensures
            q.wf(),
            q@ == Seq::<Song>::empty(),
            q.capacity() == max_size,
    {
        SongQueue { max_size, queue: VecDeque::new() }
    }

    /// Insert a song at the front.  If the queue is full the back entry is
    /// evicted and returned so the caller can delete its backing file.
    pub fn insert(&mut self, song: Song) -> (evicted: Option<Song>)
        requires
            old(self).wf(),
        ensures
            final(self).wf(),
            final(self).capacity() == old(self).capacity(),
            final(self)@ == insert_entries(old(self)@, old(self).capacity() as int, song),
            evicted == insert_evicted(old(self)@, old(self).capacity() as int),
    {
        let mut evicted: Option<Song> = None;
        if self.queue.len() == self.max_size {
            evicted = self.queue.pop_back();
        }
        self.queue.push_front(song);
        proof {
            assert(self@ =~= insert_entries(old(self)@, old(self).capacity() as int, song));
        }
        evicted
    }

    /// Paths of every entry, front to back: the files to delete when the
    /// transient queue is discarded at shutdown.
    pub fn discard(&self) -> (paths: Vec<String>)
        ensures
            paths@.len() == self@.len(),
            forall|i: int| 0 <= i < self@.len() ==> #[trigger] paths@[i]@ == self@[i].path@,
    {
        let mut paths: Vec<String> = Vec::new();
        let n = self.queue.len();
        let mut i: usize = 0;
        while i < n
            invariant
                n == self@.len(),
                0 <= i <= n,
                paths@.len() == i,
                forall|j: int| 0 <= j < i ==> #[trigger] paths@[j]@ == self@[j].path@,
            decreases n - i,
        {
            paths.push(self.queue[i].path.clone());
            i += 1;
        }
        paths
    }

    /// The entries in order, front (most recent) to back.
    pub fn iter(&self) -> (entries: &VecDeque<Song>)
        ensures
            entries@ == self@,
    {
        &self.queue
    }

    /// The entry at `index`, front being index 0: the most recent entry,
    /// whose file may still be open for writing.
    pub fn get(&self, index: usize) -> (found: Option<&Song>)
        ensures
            index < self@.len() ==> (found matches Some(song) && *song == self@[index as int]),
            index >= self@.len() ==> found is None,
    {
        if index < self.queue.len() {
            Some(&self.queue[index])
        } else {
            None
        }
    }

    /// Remove and return the entry at `index`; the rest keep their order.
    pub fn remove(&mut self, index: usize) -> (removed: Option<Song>)
        ensures
            final(self).capacity() == old(self).capacity(),
            index < old(self)@.len() ==> (final(self)@ == old(self)@.remove(index as int)
                && (removed matches Some(song) && song == old(self)@[index as int])),
            index >= old(self)@.len() ==> final(self)@ == old(self)@ && removed is None,
            old(self).wf() ==> final(self).wf(),
    {
        self.queue.remove(index)
    }

    /// The first entry carrying the given title, if any: used to suppress
    /// re-recording a track still within the queue's retention window.
    pub fn find_by_title(&self, title: &str) -> (found: Option<&Song>)
        ensures
            found is Some <==> has_title(self@, title@),
            found matches Some(song) ==> exists|i: int|
                {
                    &&& 0 <= i < self@.len()
                    &&& *song == self@[i]
                    &&& #[trigger] self@[i].title@ == title@
                    &&& forall|j: int| 0 <= j < i ==> self@[j].title@ != title@
                },
    {
        let n = self.queue.len();
        let mut i: usize = 0;
        while i < n
            invariant
                n == self@.len(),
                0 <= i <= n,
                forall|j: int| 0 <= j < i ==> #[trigger] self@[j].title@ != title@,
            decreases n - i,
        {
            let song = &self.queue[i];
            if str_eq(song.title.as_str(), title) {
                return Some(song);
            }
            i += 1;
        }
        None
    }
}

/// Law: however the queue was built, an insert never grows it beyond its
/// capacity, and the entry at index 0 is always the one inserted most
/// recently.
pub proof fn lemma_insert_bounded(entries: Seq<Song>, capacity: int, song: Song)
    requires
        entries.len() <= capacity,
        capacity >= 1,
    ensures
        insert_entries(entries, capacity, song).len() <= capacity,
        insert_entries(entries, capacity, song)[0] == song,
{
}

/// Law: inserting into a full queue evicts exactly the back entry — the
/// oldest — whose file the caller is to delete if it exists; inserting into
/// a queue with room evicts nothing.
pub proof fn lemma_insert_evicts_oldest(entries: Seq<Song>, capacity: int, song: Song)
    requires
        entries.len() <= capacity,
        capacity >= 1,
    ensures
        entries.len() == capacity ==> insert_evicted(entries, capacity) == Some(entries.last())
            && insert_entries(entries, capacity, song) == seq![song] + entries.drop_last(),
        entries.len() < capacity ==> insert_evicted(entries, capacity) is None && insert_entries(
            entries,
            capacity,
            song,
        ) == seq![song] + entries,
{
}

} // verus!
