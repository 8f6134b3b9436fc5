//! The play queue: an ordered list of tracks with a movable cursor.
//!
//! A queue is built from a listing by keeping the suffix that starts at the
//! chosen track; navigation moves the cursor by one position and is a no-op
//! at either end. The queue is never reordered in place: all reordering
//! happens by rebuilding it from a listing.
use vstd::prelude::*;

use crate::models::SoundCloudTrack;

verus! {

/// True when `s` holds a track with id `id`.
pub open spec fn contains_track_id(s: Seq<SoundCloudTrack>, id: u64) -> bool {
    exists|i: int| 0 <= i < s.len() && s[i].id == id
}

/// The index of the first track in `s` with id `id`; meaningful only when
/// `contains_track_id(s, id)` holds.
pub open spec fn first_track_index(s: Seq<SoundCloudTrack>, id: u64) -> int
    decreases s.len(),
{
    if s.len() == 0 {
        0
    } else if s[0].id == id {
        0
    } else {
        1 + first_track_index(s.drop_first(), id)
    }
}

/// When a first occurrence is known by position, `first_track_index` agrees
/// with it.
proof fn lemma_first_track_index_at(s: Seq<SoundCloudTrack>, id: u64, i: int)
    requires
        0 <= i < s.len(),
        s[i].id == id,
        forall|j: int| 0 <= j < i ==> s[j].id != id,
    ensures
        first_track_index(s, id) == i,
    decreases i,
{
    if i > 0 {
        lemma_first_track_index_at(s.drop_first(), id, i - 1);
    }
}

/// When some track matches, the first matching index is in bounds, matches,
/// and nothing before it matches.
pub proof fn lemma_first_track_index_props(s: Seq<SoundCloudTrack>, id: u64)
    requires
        contains_track_id(s, id),
    ensures
        0 <= first_track_index(s, id) < s.len(),
        s[first_track_index(s, id)].id == id,
        forall|j: int| 0 <= j < first_track_index(s, id) ==> s[j].id != id,
    decreases s.len(),
{
    if s.len() > 0 && s[0].id != id {
        let i = choose|i: int| 0 <= i < s.len() && s[i].id == id;
        assert(s.drop_first()[i - 1].id == id);
        lemma_first_track_index_props(s.drop_first(), id);
        assert forall|j: int| 0 <= j < first_track_index(s, id) implies s[j].id != id by {
            if j > 0 {
                assert(s.drop_first()[j - 1] == s[j]);
            }
        }
    }
}

/// The position of the first track with id `track_id`, or `None` when the
/// list holds no such track.
fn find_first_index(tracks: &Vec<SoundCloudTrack>, track_id: u64) -> (r: Option<usize>)
    ensures
        match r {
            Some(p) => contains_track_id(tracks@, track_id) && first_track_index(
                tracks@,
                track_id,
            ) == p,
            None => !contains_track_id(tracks@, track_id),
        },
{
    let n = tracks.len();
    let mut i: usize = 0;
    while i < n
        invariant
            i <= n,
            n == tracks@.len(),
            forall|j: int| 0 <= j < i ==> tracks@[j].id != track_id,
        decreases n - i,
    {
        if tracks[i].id == track_id {
            proof {
                lemma_first_track_index_at(tracks@, track_id, i as int);
            }
            return Some(i);
        }
        i = i + 1;
    }
    None
}

/// The suffix of `tracks` that starts at the first track with id `track_id`,
/// or an empty list when no track matches.
pub fn get_track_queue(track_id: u64, tracks: Vec<SoundCloudTrack>) -> (r: Vec<SoundCloudTrack>)
    ensures
        contains_track_id(tracks@, track_id) ==> r@ == tracks@.subrange(
            first_track_index(tracks@, track_id),
            tracks@.len() as int,
        ),
        !contains_track_id(tracks@, track_id) ==> r@.len() == 0,
{
    let mut rest = tracks;
    match find_first_index(&rest, track_id) {
        Some(pos) => {
            proof {
                lemma_first_track_index_props(rest@, track_id);
            }
            rest.split_off(pos)
        },
        None => Vec::new(),
    }
}

/// Deterministic linear playback ordering with a movable cursor.
#[derive(Debug, Clone)]
pub struct QueueManager {
    queue: Vec<SoundCloudTrack>,
    current_index: Option<usize>,
}

impl View for QueueManager {
    type V = Seq<SoundCloudTrack>;

    closed spec fn view(&self) -> Seq<SoundCloudTrack> {
        self.queue@
    }
}

impl QueueManager {
    /// The cursor: the index of the current track, when one is selected.
    pub closed spec fn cursor(&self) -> Option<usize> {
        self.current_index
    }

    /// The cursor, when present, is a valid index into the queue.
    pub open spec fn wf(&self) -> bool {
        match self.cursor() {
            Some(i) => i < self@.len(),
            None => true,
        }
    }

    /// An empty queue with no cursor.
    pub fn new() -> (r: Self)
        ensures
            r@ == Seq::<SoundCloudTrack>::empty(),
            r.cursor() is None,
            r.wf(),
    {
        QueueManager { queue: Vec::new(), current_index: None }
    }

    /// Rebuild the queue as the suffix of `tracks` that starts at the first
    /// track with id `track_id`, with the cursor on that track; when no track
    /// matches, the queue becomes empty and the cursor is unset.
    pub fn start_queue_from_track(&mut self, track_id: u64, tracks: Vec<SoundCloudTrack>)
        ensures
            final(self).wf(),
            contains_track_id(tracks@, track_id) ==> {
                &&& final(self)@ == tracks@.subrange(
                    first_track_index(tracks@, track_id),
                    tracks@.len() as int,
                )
                &&& final(self).cursor() == Some(0usize)
                &&& final(self)@.len() > 0 && final(self)@[0].id == track_id
            },
            !contains_track_id(tracks@, track_id) ==> {
                &&& final(self)@.len() == 0
                &&& final(self).cursor() is None
            },
    {
        proof {
            if contains_track_id(tracks@, track_id) {
                lemma_first_track_index_props(tracks@, track_id);
            }
        }
        let q = get_track_queue(track_id, tracks);
        self.current_index = if q.len() == 0 {
            None
        } else {
            Some(0)
        };
        self.queue = q;
    }

    /// The track under the cursor, when one is selected.
    pub fn current_track(&self) -> (r: Option<&SoundCloudTrack>)
        requires
            self.wf(),
        ensures
            match self.cursor() {
                Some(i) => r matches Some(t) && *t == self@[i as int],
                None => r is None,
            },
    {
        match self.current_index {
            Some(i) => Some(&self.queue[i]),
            None => None,
        }
    }

    /// Move the cursor forward by one and return the new current track; a
    /// no-op returning `None` when already at the last index or when no
    /// cursor is set.
    pub fn next_track(&mut self) -> (r: Option<&SoundCloudTrack>)
        requires
            old(self).wf(),
        ensures
            final(self).wf(),
            final(self)@ == old(self)@,
            match old(self).cursor() {
                Some(i) => if i + 1 < old(self)@.len() {
                    &&& final(self).cursor() == Some((i + 1) as usize)
                    &&& r matches Some(t) && *t == old(self)@[i + 1]
                } else {
                    &&& final(self).cursor() == old(self).cursor()
                    &&& r is None
                },
                None => final(self).cursor() is None && r is None,
            },
    {
        let n = self.queue.len();
        match self.current_index {
            Some(current) => {
                if current + 1 < n {
                    self.current_index = Some(current + 1);
                    Some(&self.queue[current + 1])
                } else {
                    None
                }
            },
            None => None,
        }
    }

    /// Move the cursor back by one and return the new current track; a no-op
    /// returning `None` when already at index 0 or when no cursor is set.
    pub fn previous_track(&mut self) -> (r: Option<&SoundCloudTrack>)
        requires
            old(self).wf(),
        ensures
            final(self).wf(),
            final(self)@ == old(self)@,
            match old(self).cursor() {
                Some(i) => if i > 0 {
                    &&& final(self).cursor() == Some((i - 1) as usize)
                    &&& r matches Some(t) && *t == old(self)@[i - 1]
                } else {
                    &&& final(self).cursor() == old(self).cursor()
                    &&& r is None
                },
                None => final(self).cursor() is None && r is None,
            },
    {
        match self.current_index {
            Some(current) => {
                if current > 0 {
                    self.current_index = Some(current - 1);
                    Some(&self.queue[current - 1])
                } else {
                    None
                }
            },
            None => None,
        }
    }

    /// Whether a track follows the current one.
    pub fn has_next(&self) -> (r: bool)
        ensures
            r == match self.cursor() {
                Some(i) => i + 1 < self@.len(),
                None => false,
            },
    {
        let n = self.queue.len();
        match self.current_index {
            // The first comparison keeps `current + 1` from overflowing when
            // the cursor is stale.
            Some(current) => current < n && current + 1 < n,
            None => false,
        }
    }

    /// Whether a track precedes the current one.
    pub fn has_previous(&self) -> (r: bool)
        ensures
            r == match self.cursor() {
                Some(i) => i > 0,
                None => false,
            },
    {
        match self.current_index {
            Some(current) => current > 0,
            None => false,
        }
    }

    /// The queued tracks, in order, for display.
    pub fn get_queue(&self) -> (r: Vec<&SoundCloudTrack>)
        ensures
            r@.len() == self@.len(),
            forall|i: int| 0 <= i < self@.len() ==> *(#[trigger] r@[i]) == self@[i],
    {
        let n = self.queue.len();
        let mut out: Vec<&SoundCloudTrack> = Vec::new();
        let mut i: usize = 0;
        while i < n
            invariant
                i <= n,
                n == self@.len(),
                out@.len() == i,
                forall|j: int| 0 <= j < i ==> *(#[trigger] out@[j]) == self@[j],
            decreases n - i,
        {
            out.push(&self.queue[i]);
            i = i + 1;
        }
        out
    }

    /// The cursor position, 0-based, when one is set.
    pub fn current_position(&self) -> (r: Option<usize>)
        ensures
            r == self.cursor(),
    {
        self.current_index
    }

    /// The number of queued tracks.
    pub fn queue_length(&self) -> (r: usize)
        ensures
            r == self@.len(),
    {
        self.queue.len()
    }

    /// Move the cursor to index 0 without altering the queue contents; used
    /// for repeat-all wraparound. With an empty queue the cursor stays unset.
    pub fn reset_to_beginning(&mut self)
        ensures
            final(self).wf(),
            final(self)@ == old(self)@,
            old(self)@.len() > 0 ==> final(self).cursor() == Some(0usize),
            old(self)@.len() == 0 ==> final(self).cursor() is None,
    {
        self.current_index = if self.queue.len() == 0 {
            None
        } else {
            Some(0)
        };
    }

    /// Empty the queue and unset the cursor.
    pub fn clear(&mut self)
        ensures
            final(self).wf(),
            final(self)@.len() == 0,
            final(self).cursor() is None,
    {
        self.queue.clear();
        self.current_index = None;
    }

    /// Whether the queue holds no tracks.
    pub fn is_empty(&self) -> (r: bool)
        ensures
            r == (self@.len() == 0),
    {
        self.queue.len() == 0
    }
}

impl Default for QueueManager {
    /// The default queue is empty with no cursor.
    fn default() -> (r: Self)
        ensures
            r@ == Seq::<SoundCloudTrack>::empty(),
            r.cursor() is None,
            r.wf(),
    {
        QueueManager::new()
    }
}

} // verus!
