//! The audio transport: one live output sink, position and progress
//! tracking, and the backward-seek recovery algorithm.
//!
//! The controller is a state machine over everything the surrounding driver
//! can observe of the audio stack: whether the sink holds a source, whether
//! it is paused, the polled playback clock, and whether each fallible sink
//! operation (a direct seek, a decode of the retained bytes, a forward seek
//! on a rebuilt source) succeeded. The driver performs those operations on
//! the real sink and hands their outcomes in; every decision and every field
//! update is made here, so it is verified for every possible outcome.
//!
//! Positions and durations are in milliseconds; the progress fraction is in
//! hundredths of a percent (0 to 10000).
use vstd::prelude::*;

verus! {

/// What the OS media-control surface was last told.
#[derive(Debug, Clone, Copy, PartialEq, Eq, Structural)]
pub enum MediaStatus {
    /// Playing, with the progress position in milliseconds.
    Playing(u64),
    /// Paused, with the progress position in milliseconds.
    Paused(u64),
    /// No track loaded.
    Stopped,
}

/// The retained bytes of the current track could not be decoded.
#[derive(Debug, Clone, Copy, PartialEq, Eq, Structural)]
pub struct DecodeError;

/// A track has ended and the caller chose a repeat mode; what to do next.
#[derive(Debug, Clone, Copy, PartialEq, Eq, Structural)]
pub enum TrackEndAction {
    /// Reload the retained bytes of the current track.
    ReloadCurrent,
    /// Advance the queue and play the following track.
    PlayNext,
    /// Move the queue cursor back to the start and play from there.
    RestartQueue,
    /// Stop playback and report a stopped state.
    StopPlayback,
    /// Leave everything as it is.
    NoAction,
}

/// Whether a finished track repeats itself or the whole queue wraps around.
#[derive(Debug, Clone, Copy, PartialEq, Eq, Structural)]
pub enum RepeatMode {
    One,
    All,
}

impl RepeatMode {
    /// Switch to the other repeat mode.
    pub fn toggle(self) -> (r: Self)
        ensures
            self is One ==> r is All,
            self is All ==> r is One,
    {
        match self {
            RepeatMode::One => RepeatMode::All,
            RepeatMode::All => RepeatMode::One,
        }
    }
}

/// Everything the controller tracks, as one mathematical record.
pub struct PlayerModel {
    /// Duration of the current track in milliseconds.
    pub duration_ms: u64,
    /// Last known playback position in milliseconds.
    pub position_ms: u64,
    /// Progress through the track in hundredths of a percent, 0 to 10000.
    pub progress_centi_percent: u64,
    /// A stream download has started and its bytes have not been loaded yet.
    pub loading: bool,
    /// A replacement stream download is in flight; suppresses end-of-track
    /// detection so the next track is not triggered twice.
    pub pending_download: bool,
    /// The raw bytes of the current track, retained for seek recovery.
    pub data: Option<Seq<u8>>,
    /// Whether the live sink holds no source.
    pub sink_empty: bool,
    /// Whether the live sink is paused.
    pub sink_paused: bool,
    /// What the OS media-control surface was last told about playback.
    pub media: MediaStatus,
    /// Track title last pushed to the OS surface.
    pub media_title: Seq<char>,
    /// Artist name last pushed to the OS surface.
    pub media_artist: Seq<char>,
    /// Track duration last pushed to the OS surface, in milliseconds.
    pub media_duration_ms: u64,
}

/// `a - b`, stopping at zero.
pub open spec fn sat_sub_u64(a: u64, b: u64) -> u64 {
    if a >= b {
        (a - b) as u64
    } else {
        0
    }
}

/// `a + b`, stopping at `u64::MAX`.
pub open spec fn sat_add_u64(a: u64, b: u64) -> u64 {
    if a + b <= u64::MAX {
        (a + b) as u64
    } else {
        u64::MAX
    }
}

/// Progress through a track in hundredths of a percent, clamped to 10000.
pub open spec fn progress_of(position_ms: u64, duration_ms: u64) -> u64 {
    if duration_ms == 0 {
        0
    } else if position_ms >= duration_ms {
        10000
    } else {
        ((position_ms as int) * 10000 / (duration_ms as int)) as u64
    }
}

/// A track counts as ended once the position is within 500 milliseconds of
/// the duration and a source is loaded. The tolerance exists because the
/// sink's clock is polled, not frame-exact.
pub open spec fn track_ended(m: PlayerModel) -> bool {
    !m.sink_empty && m.position_ms >= sat_sub_u64(m.duration_ms, 500)
}

/// Owns the live audio sink state, position and duration tracking, the
/// retained bytes for seek recovery, and the last state pushed to the OS
/// media-control surface.
#[derive(Debug)]
pub struct AudioManager {
    /// Duration of the current track in milliseconds.
    pub track_duration_ms: u64,
    /// Last known playback position in milliseconds.
    pub track_position_ms: u64,
    /// Progress in hundredths of a percent, 0 to 10000.
    pub progress_centi_percent: u64,
    /// A stream download has started and its bytes are not loaded yet.
    pub stream_loading: bool,
    /// A replacement stream download is in flight.
    pub pending_download: bool,
    /// Raw bytes of the current track, retained for backward-seek recovery.
    pub current_track_data: Option<Vec<u8>>,
    sink_empty: bool,
    sink_paused: bool,
    media_status: MediaStatus,
    media_title: String,
    media_artist: String,
    media_duration_ms: u64,
}

impl View for AudioManager {
    type V = PlayerModel;

    closed spec fn view(&self) -> PlayerModel {
        PlayerModel {
            duration_ms: self.track_duration_ms,
            position_ms: self.track_position_ms,
            progress_centi_percent: self.progress_centi_percent,
            loading: self.stream_loading,
            pending_download: self.pending_download,
            data: match self.current_track_data {
                Some(d) => Some(d@),
                None => None,
            },
            sink_empty: self.sink_empty,
            sink_paused: self.sink_paused,
            media: self.media_status,
            media_title: self.media_title@,
            media_artist: self.media_artist@,
            media_duration_ms: self.media_duration_ms,
        }
    }
}

impl AudioManager {
    /// A fresh controller: empty unpaused sink, zeroed clock, no retained
    /// bytes, stopped OS surface.
    pub fn new() -> (r: Self)
        ensures
            r@ == (PlayerModel {
                duration_ms: 0,
                position_ms: 0,
                progress_centi_percent: 0,
                loading: false,
                pending_download: false,
                data: None,
                sink_empty: true,
                sink_paused: false,
                media: MediaStatus::Stopped,
                media_title: Seq::<char>::empty(),
                media_artist: Seq::<char>::empty(),
                media_duration_ms: 0,
            }),
    {
        AudioManager {
            track_duration_ms: 0,
            track_position_ms: 0,
            progress_centi_percent: 0,
            stream_loading: false,
            pending_download: false,
            current_track_data: None,
            sink_empty: true,
            sink_paused: false,
            media_status: MediaStatus::Stopped,
            media_title: String::new(),
            media_artist: String::new(),
            media_duration_ms: 0,
        }
    }

    /// A new track was chosen and its stream download has started: remember
    /// its duration, drop the current source, and mark the download as in
    /// flight so end-of-track detection stays quiet.
    pub fn begin_stream_download(&mut self, duration_ms: u64)
        ensures
            final(self)@ == (PlayerModel {
                duration_ms: duration_ms,
                loading: true,
                pending_download: true,
                sink_empty: true,
                sink_paused: true,
                ..old(self)@
            }),
    {
        self.track_duration_ms = duration_ms;
        self.stream_loading = true;
        self.pending_download = true;
        self.sink_empty = true;
        self.sink_paused = true;
    }

    /// The in-flight stream download failed: clear the loading flags and
    /// leave everything else untouched.
    pub fn stream_download_failed(&mut self)
        ensures
            final(self)@ == (PlayerModel {
                loading: false,
                pending_download: false,
                ..old(self)@
            }),
    {
        self.stream_loading = false;
        self.pending_download = false;
    }

    /// Load a downloaded track: retain its bytes for seek recovery, attach a
    /// fresh source to the sink, and start playing from position zero.
    ///
    /// `decode_ok` is the outcome of decoding `track_data` on the real audio
    /// stack. On failure the fresh sink stays empty, nothing is retained
    /// from the failed decode beyond the bytes themselves, and the error is
    /// returned for the caller to log and abandon; the process never dies on
    /// undecodable bytes.
    ///
    /// Immediately after a successful load of a track longer than the
    /// end-of-track tolerance, `has_track_ended` is false.
    pub fn load_track(&mut self, track_data: Vec<u8>, decode_ok: bool) -> (r: Result<
        (),
        DecodeError,
    >)
        ensures
            decode_ok ==> r is Ok && final(self)@ == (PlayerModel {
                position_ms: 0,
                progress_centi_percent: 0,
                loading: false,
                pending_download: false,
                data: Some(track_data@),
                sink_empty: false,
                sink_paused: false,
                ..old(self)@
            }),
            !decode_ok ==> r is Err && final(self)@ == (PlayerModel {
                pending_download: false,
                data: Some(track_data@),
                sink_empty: true,
                sink_paused: false,
                ..old(self)@
            }),
            decode_ok && old(self)@.duration_ms > 500 ==> !track_ended(final(self)@),
    {
        self.current_track_data = Some(track_data);
        self.sink_empty = true;
        self.sink_paused = false;
        self.pending_download = false;
        if !decode_ok {
            return Err(DecodeError);
        }
        self.sink_empty = false;
        self.track_position_ms = 0;
        self.progress_centi_percent = 0;
        self.stream_loading = false;
        Ok(())
    }

    /// Push new track metadata to the OS media-control surface and report
    /// playback starting at position zero.
    pub fn update_metadata(&mut self, title: &str, artist: &str, duration_ms: u64)
        ensures
            final(self)@ == (PlayerModel {
                media: MediaStatus::Playing(0),
                media_title: title@,
                media_artist: artist@,
                media_duration_ms: duration_ms,
                ..old(self)@
            }),
    {
        self.media_title = title.to_owned();
        self.media_artist = artist.to_owned();
        self.media_duration_ms = duration_ms;
        self.media_status = MediaStatus::Playing(0);
    }

    /// Flip between playing and paused and mirror the new state to the OS
    /// surface; a no-op when the sink is empty.
    pub fn toggle_play_pause(&mut self)
        ensures
            old(self)@.sink_empty ==> final(self)@ == old(self)@,
            !old(self)@.sink_empty && old(self)@.sink_paused ==> final(self)@ == (PlayerModel {
                sink_paused: false,
                media: MediaStatus::Playing(old(self)@.position_ms),
                ..old(self)@
            }),
            !old(self)@.sink_empty && !old(self)@.sink_paused ==> final(self)@ == (PlayerModel {
                sink_paused: true,
                media: MediaStatus::Paused(old(self)@.position_ms),
                ..old(self)@
            }),
    {
        if !self.sink_empty {
            if self.sink_paused {
                self.sink_paused = false;
                self.media_status = MediaStatus::Playing(self.track_position_ms);
            } else {
                self.sink_paused = true;
                self.media_status = MediaStatus::Paused(self.track_position_ms);
            }
        }
    }

    /// Resume playback; idempotent: a no-op when already playing or when the
    /// sink is empty.
    pub fn play(&mut self)
        ensures
            !old(self)@.sink_empty && old(self)@.sink_paused ==> final(self)@ == (PlayerModel {
                sink_paused: false,
                media: MediaStatus::Playing(old(self)@.position_ms),
                ..old(self)@
            }),
            old(self)@.sink_empty || !old(self)@.sink_paused ==> final(self)@ == old(self)@,
    {
        if !self.sink_empty && self.sink_paused {
            self.sink_paused = false;
            self.media_status = MediaStatus::Playing(self.track_position_ms);
        }
    }

    /// Pause playback; idempotent: a no-op when already paused or when the
    /// sink is empty.
    pub fn pause(&mut self)
        ensures
            !old(self)@.sink_empty && !old(self)@.sink_paused ==> final(self)@ == (PlayerModel {
                sink_paused: true,
                media: MediaStatus::Paused(old(self)@.position_ms),
                ..old(self)@
            }),
            old(self)@.sink_empty || old(self)@.sink_paused ==> final(self)@ == old(self)@,
    {
        if !self.sink_empty && !self.sink_paused {
            self.sink_paused = true;
            self.media_status = MediaStatus::Paused(self.track_position_ms);
        }
    }

    /// The target of a forward seek by `amount_ms` from the polled position
    /// `cur_pos_ms`, or `None` when the sink is empty. The caller attempts
    /// the seek on the live sink; on failure nothing is updated, so the
    /// indicator is left where it was rather than guessing.
    pub fn seek_forward(&self, cur_pos_ms: u64, amount_ms: u64) -> (r: Option<u64>)
        ensures
            self@.sink_empty ==> r is None,
            !self@.sink_empty ==> r == Some(sat_add_u64(cur_pos_ms, amount_ms)),
    {
        if self.sink_empty {
            None
        } else {
            Some(cur_pos_ms.saturating_add(amount_ms))
        }
    }

    /// Seek backward by `amount_ms` from the polled position `cur_pos_ms`,
    /// recovering by source reconstruction when the live sink cannot seek
    /// backward.
    ///
    /// The driver first attempts a direct seek on the live sink
    /// (`direct_seek_ok`). When that fails and bytes are retained, it
    /// rebuilds a sink on the same output stream, re-decodes the retained
    /// bytes (`decode_ok`), and, for a target greater than zero,
    /// forward-seeks the fresh source (`fresh_seek_ok`); a target of exactly
    /// zero needs no further seek. The paused/playing state observed before
    /// reconstruction is reapplied afterwards, so a successful recovery
    /// leaves `sink_paused` exactly as it was.
    ///
    /// Returns `false` only when the sink was empty, no bytes were retained,
    /// or reconstruction itself failed; in those cases the caller leaves the
    /// progress indicator untouched.
    pub fn seek_backward(
        &mut self,
        cur_pos_ms: u64,
        amount_ms: u64,
        direct_seek_ok: bool,
        decode_ok: bool,
        fresh_seek_ok: bool,
    ) -> (r: bool)
        ensures
            ({
                let target = sat_sub_u64(cur_pos_ms, amount_ms);
                &&& old(self)@.sink_empty ==> !r && final(self)@ == old(self)@
                &&& !old(self)@.sink_empty && direct_seek_ok ==> r && final(self)@ == (PlayerModel {
                    position_ms: target,
                    ..old(self)@
                })
                &&& !old(self)@.sink_empty && !direct_seek_ok && old(self)@.data is None ==> !r
                    && final(self)@ == old(self)@
                &&& !old(self)@.sink_empty && !direct_seek_ok && old(self)@.data is Some
                    && !decode_ok ==> !r && final(self)@ == (PlayerModel {
                    sink_empty: true,
                    sink_paused: false,
                    ..old(self)@
                })
                &&& !old(self)@.sink_empty && !direct_seek_ok && old(self)@.data is Some
                    && decode_ok && target == 0 ==> r && final(self)@ == (PlayerModel {
                    position_ms: 0,
                    ..old(self)@
                })
                &&& !old(self)@.sink_empty && !direct_seek_ok && old(self)@.data is Some
                    && decode_ok && target > 0 && fresh_seek_ok ==> r && final(self)@
                    == (PlayerModel { position_ms: target, ..old(self)@ })
                &&& !old(self)@.sink_empty && !direct_seek_ok && old(self)@.data is Some
                    && decode_ok && target > 0 && !fresh_seek_ok ==> !r && final(self)@
                    == (PlayerModel { sink_paused: false, ..old(self)@ })
            }),
    {
        if self.sink_empty {
            return false;
        }
        let target = cur_pos_ms.saturating_sub(amount_ms);
        if direct_seek_ok {
            self.track_position_ms = target;
            return true;
        }
        if self.current_track_data.is_none() {
            return false;
        }
        // Reconstruction: the driver has replaced the sink and re-decoded
        // the retained bytes; `was_paused` is reapplied below on success.
        let was_paused = self.sink_paused;
        if !decode_ok {
            self.sink_empty = true;
            self.sink_paused = false;
            return false;
        }
        if target > 0 {
            if fresh_seek_ok {
                self.track_position_ms = target;
                self.sink_paused = was_paused;
                true
            } else {
                self.sink_paused = false;
                false
            }
        } else {
            self.track_position_ms = 0;
            self.sink_paused = was_paused;
            true
        }
    }

    /// Seek to an absolute position given in hundredths of a percent of the
    /// duration, dispatching on direction: a target behind the polled
    /// position goes through backward-seek recovery, a target at or ahead of
    /// it uses a single direct forward seek. The dispatch matters because
    /// only backward seeks may pay the reconstruction cost.
    ///
    /// `live_seek_ok` is the outcome of the one seek attempted on the live
    /// sink (backward or forward); `decode_ok` and `fresh_seek_ok` describe
    /// the reconstruction, as in `seek_backward`, and are consulted only on
    /// the backward path. The progress indicator is updated exactly when
    /// the seek succeeded.
    pub fn seek_to_position(
        &mut self,
        percent_centi: u32,
        cur_pos_ms: u64,
        live_seek_ok: bool,
        decode_ok: bool,
        fresh_seek_ok: bool,
    )
        requires
            percent_centi <= 10000,
        ensures
            ({
                let target = ((old(self)@.duration_ms as int) * (percent_centi as int) / 10000)
                    as u64;
                &&& old(self)@.sink_empty ==> final(self)@ == old(self)@
                &&& !old(self)@.sink_empty && target >= cur_pos_ms ==> (if live_seek_ok {
                    final(self)@ == (PlayerModel {
                        position_ms: target,
                        progress_centi_percent: percent_centi as u64,
                        ..old(self)@
                    })
                } else {
                    final(self)@ == old(self)@
                })
                &&& !old(self)@.sink_empty && target < cur_pos_ms && live_seek_ok ==> final(self)@
                    == (PlayerModel {
                    position_ms: target,
                    progress_centi_percent: percent_centi as u64,
                    ..old(self)@
                })
                &&& !old(self)@.sink_empty && target < cur_pos_ms && !live_seek_ok ==> {
                    &&& old(self)@.data is None ==> final(self)@ == old(self)@
                    &&& old(self)@.data is Some && !decode_ok ==> final(self)@ == (PlayerModel {
                        sink_empty: true,
                        sink_paused: false,
                        ..old(self)@
                    })
                    &&& old(self)@.data is Some && decode_ok && target == 0 ==> final(self)@
                        == (PlayerModel {
                        position_ms: 0,
                        progress_centi_percent: percent_centi as u64,
                        ..old(self)@
                    })
                    &&& old(self)@.data is Some && decode_ok && target > 0 && fresh_seek_ok
                        ==> final(self)@ == (PlayerModel {
                        position_ms: target,
                        progress_centi_percent: percent_centi as u64,
                        ..old(self)@
                    })
                    &&& old(self)@.data is Some && decode_ok && target > 0 && !fresh_seek_ok
                        ==> final(self)@ == (PlayerModel { sink_paused: false, ..old(self)@ })
                }
            }),
    {
        if self.sink_empty {
            return;
        }
        proof {
            vstd::arithmetic::mul::lemma_mul_is_commutative(
                self@.duration_ms as int,
                percent_centi as int,
            );
            vstd::arithmetic::mul::lemma_mul_inequality(
                percent_centi as int,
                10000,
                self@.duration_ms as int,
            );
            let a = (self@.duration_ms as int) * (percent_centi as int);
            vstd::arithmetic::div_mod::lemma_div_pos_is_pos(a, 10000);
            vstd::arithmetic::div_mod::lemma_multiply_divide_le(
                a,
                10000,
                self@.duration_ms as int,
            );
        }
        let target_wide: u128 = (self.track_duration_ms as u128) * (percent_centi as u128) / 10000;
        let target: u64 = target_wide as u64;
        if target < cur_pos_ms {
            let amount = cur_pos_ms - target;
            assert(sat_sub_u64(cur_pos_ms, amount) == target);
            if self.seek_backward(cur_pos_ms, amount, live_seek_ok, decode_ok, fresh_seek_ok) {
                self.progress_centi_percent = percent_centi as u64;
            }
        } else {
            if live_seek_ok {
                self.track_position_ms = target;
                self.progress_centi_percent = percent_centi as u64;
            }
        }
    }

    /// Apply one poll of the sink's playback clock: record the position,
    /// recompute the progress fraction, and republish the playing or paused
    /// state with the fresh position to the OS surface. A no-op when the
    /// sink is empty. Called on a fixed cadence by the driver, strictly
    /// before end-of-track detection in the same tick.
    pub fn update_position(&mut self, cur_pos_ms: u64)
        ensures
            old(self)@.sink_empty ==> final(self)@ == old(self)@,
            !old(self)@.sink_empty ==> final(self)@ == (PlayerModel {
                position_ms: cur_pos_ms,
                progress_centi_percent: progress_of(cur_pos_ms, old(self)@.duration_ms),
                media: if old(self)@.sink_paused {
                    MediaStatus::Paused(cur_pos_ms)
                } else {
                    MediaStatus::Playing(cur_pos_ms)
                },
                ..old(self)@
            }),
    {
        if self.sink_empty {
            return;
        }
        self.track_position_ms = cur_pos_ms;
        self.progress_centi_percent = if self.track_duration_ms == 0 {
            0
        } else if cur_pos_ms >= self.track_duration_ms {
            10000
        } else {
            let q: u128 = (cur_pos_ms as u128) * 10000 / (self.track_duration_ms as u128);
            proof {
                vstd::arithmetic::mul::lemma_mul_strict_inequality(
                    cur_pos_ms as int,
                    self@.duration_ms as int,
                    10000,
                );
                vstd::arithmetic::div_mod::lemma_multiply_divide_lt(
                    (cur_pos_ms as int) * 10000,
                    self@.duration_ms as int,
                    10000,
                );
                vstd::arithmetic::div_mod::lemma_div_pos_is_pos(
                    (cur_pos_ms as int) * 10000,
                    self@.duration_ms as int,
                );
            }
            q as u64
        };
        self.media_status = if self.sink_paused {
            MediaStatus::Paused(cur_pos_ms)
        } else {
            MediaStatus::Playing(cur_pos_ms)
        };
    }

    /// Whether the current track has reached its end, within the 500
    /// millisecond polling tolerance.
    pub fn has_track_ended(&self) -> (r: bool)
        ensures
            r == track_ended(self@),
    {
        !self.sink_empty && self.track_position_ms >= self.track_duration_ms.saturating_sub(500)
    }

    /// Whether this tick should raise the end-of-track signal: the track has
    /// ended and no replacement download is already in flight.
    pub fn should_signal_track_end(&self) -> (r: bool)
        ensures
            r == (track_ended(self@) && !self@.pending_download),
    {
        self.has_track_ended() && !self.pending_download
    }

    /// Stop playback, drop the source, and tell the OS surface the player
    /// stopped; used when the queue is exhausted and no repeat applies.
    pub fn clear(&mut self)
        ensures
            final(self)@ == (PlayerModel {
                sink_empty: true,
                sink_paused: true,
                media: MediaStatus::Stopped,
                ..old(self)@
            }),
    {
        self.sink_empty = true;
        self.sink_paused = true;
        self.media_status = MediaStatus::Stopped;
    }

    /// Whether the sink holds no source.
    pub fn is_empty(&self) -> (r: bool)
        ensures
            r == self@.sink_empty,
    {
        self.sink_empty
    }

    /// Whether the sink is paused.
    pub fn is_paused(&self) -> (r: bool)
        ensures
            r == self@.sink_paused,
    {
        self.sink_paused
    }

    /// What the OS media-control surface was last told.
    pub fn media_status(&self) -> (r: MediaStatus)
        ensures
            r == self@.media,
    {
        self.media_status
    }
}

/// What to do when the current track ends, given the repeat mode, whether
/// bytes are retained for replay, whether the queue has a next track, and
/// the queue length. Repeat-one replays the retained bytes without touching
/// the queue; repeat-all advances, wraps around a non-empty exhausted queue,
/// and stops on an empty one.
pub fn end_of_track_action(
    repeat: RepeatMode,
    has_data: bool,
    has_next: bool,
    queue_len: usize,
) -> (r: TrackEndAction)
    ensures
        repeat is One && has_data ==> r is ReloadCurrent,
        repeat is One && !has_data ==> r is NoAction,
        repeat is All && has_next ==> r is PlayNext,
        repeat is All && !has_next && queue_len > 0 ==> r is RestartQueue,
        repeat is All && !has_next && queue_len == 0 ==> r is StopPlayback,
{
    match repeat {
        RepeatMode::One => if has_data {
            TrackEndAction::ReloadCurrent
        } else {
            TrackEndAction::NoAction
        },
        RepeatMode::All => if has_next {
            TrackEndAction::PlayNext
        } else if queue_len > 0 {
            TrackEndAction::RestartQueue
        } else {
            TrackEndAction::StopPlayback
        },
    }
}

} // verus!
