//! Decisions around fetching a track's stream: which URL to download, what
//! extra artifacts to fetch, and how listing endpoints shape their calls.
//! The network transfers themselves happen in the surrounding driver.
use vstd::prelude::*;

use crate::models::SoundCloudActivityCollection;
use crate::models::SoundCloudTrack;
use crate::text::contains_seq;
use crate::text::str_contains;

verus! {

/// The URL to download a track's stream from, or the error shown when the
/// track carries none; a track without a stream URL is "nothing to play",
/// never a crash.
pub fn plan_track_download(track: &SoundCloudTrack) -> (r: Result<String, String>)
    ensures
        track.stream_url matches Some(u) ==> (r matches Ok(s) && s == u),
        track.stream_url is None ==> (r matches Err(e) && e@ == "Track has no stream URL"@),
{
    match &track.stream_url {
        Some(u) => Ok(u.clone()),
        None => Err("Track has no stream URL".to_owned()),
    }
}

/// Whether a track carries artwork worth fetching.
pub fn has_artwork(track: &SoundCloudTrack) -> (r: bool)
    ensures
        r == (track.artwork_url@.len() != 0),
{
    !track.artwork_url.as_str().is_empty()
}

/// Whether a track carries a waveform image worth fetching.
pub fn has_waveform(track: &SoundCloudTrack) -> (r: bool)
    ensures
        r == (track.waveform_url@.len() != 0),
{
    !track.waveform_url.as_str().is_empty()
}

/// The tracks an activity feed page originates from, in feed order.
pub fn get_activity_feed_tracks(body: SoundCloudActivityCollection) -> (r: Vec<SoundCloudTrack>)
    ensures
        r@.len() == body.collection@.len(),
        forall|i: int| 0 <= i < r@.len() ==> r@[i] == body.collection@[i].origin,
{
    let mut acts = body.collection;
    let mut out: Vec<SoundCloudTrack> = Vec::new();
    let ghost orig = acts@;
    let n = acts.len();
    let mut i: usize = 0;
    while i < n
        invariant
            i <= n,
            n == orig.len(),
            acts@ == orig.skip(i as int),
            out@.len() == i,
            forall|k: int| 0 <= k < i ==> out@[k] == orig[k].origin,
        decreases n - i,
    {
        let a = acts.remove(0);
        assert(a == orig[i as int]);
        out.push(a.origin);
        i = i + 1;
        assert(acts@ =~= orig.skip(i as int));
    }
    out
}

/// Whether a listing URL still needs the default query parameters: a
/// pagination URL already carries its own query.
pub fn needs_default_query(url: &str) -> (r: bool)
    ensures
        r == !contains_seq(url@, "?"@),
{
    !str_contains(url, "?")
}

} // verus!
