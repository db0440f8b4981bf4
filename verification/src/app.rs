//! The playback/playlist controller: a state machine over plain values.
//!
//! Every user command and clock event is a method that mutates the state and
//! returns the [`SinkRequest`] the audio backend should perform. The driver
//! performs the request and reports outcomes back through
//! [`App::set_track_duration`] and [`App::on_play_started`]; the controller
//! itself never touches the audio device, the file system or the clock.
//! Times and durations are carried in whole milliseconds.

use vstd::prelude::*;

use crate::play_mode::PlayMode;
use crate::playlist::{
    find_index, identity_playlist, identity_seq, is_index_permutation, lemma_perm_facts,
    lemma_perm_transfer, shuffle_in_place,
};

verus! {

/// How far a single seek command moves, in milliseconds.
pub const SEEK_STEP_MS: u64 = 5000;

/// How far a single volume command moves, in percent.
pub const VOLUME_STEP: u32 = 5;

/// The soft cap on the volume, in percent.
pub const MAX_VOLUME: u32 = 200;

/// The volume a fresh controller starts with, in percent.
pub const INITIAL_VOLUME: u32 = 100;

/// The side effect the audio backend should perform after a controller call.
#[derive(Clone, Copy, Debug, PartialEq, Eq, Structural)]
pub enum SinkRequest {
    /// No side effect is owed.
    Nothing,
    /// Probe the duration of catalog track `track`, then load and play it at
    /// the controller's volume, and report the outcomes back.
    Start { track: usize },
    /// Pause the active stream.
    Pause,
    /// Resume the paused stream.
    Resume,
    /// Move the active stream to `position_ms`.
    Seek { position_ms: u64 },
    /// Push a new volume to the sink.
    SetVolume { volume: u32 },
}

/// The controller state: catalog, play order, cursor, browse selection and
/// elapsed-time accounting.
pub struct App {
    /// The directory the catalog was scanned from.
    pub music_path: String,
    /// The catalog: file names, fixed after construction.
    pub songs: Vec<String>,
    /// The play order: a permutation of the catalog indices `0..songs.len()`.
    pub playlist: Vec<usize>,
    /// The catalog index of the active track.
    pub current_track: usize,
    /// The playlist slot the active track sits in.
    pub playlist_position: usize,
    /// The catalog index the browse selection points at.
    pub selected_index: usize,
    /// The first catalog row the viewport shows.
    pub scroll_offset: usize,
    /// Whether playback is running (as opposed to paused or never started).
    pub is_playing: bool,
    /// The current play mode.
    pub play_mode: PlayMode,
    /// The total length of the active track, in milliseconds.
    pub current_song_duration: u64,
    /// The playback position accounted so far, in milliseconds.
    pub elapsed_time: u64,
    /// The timestamp of the last elapsed-time update, in milliseconds.
    pub last_update: u64,
    /// The volume, in percent, within `0..=MAX_VOLUME`.
    pub volume: u32,
    /// Whether an audio sink is available; with none, playback commands are
    /// no-ops and the controller degrades to a browser.
    pub sink_ready: bool,
}

/// The cursor slot after one forward step: one slot on, wrapping from the
/// last slot to slot 0.
pub open spec fn next_position(pos: int, len: int) -> int {
    if pos + 1 < len {
        pos + 1
    } else {
        0
    }
}

/// The cursor slot after one backward step: one slot back, wrapping from
/// slot 0 to the last slot.
pub open spec fn prev_position(pos: int, len: int) -> int {
    if pos > 0 {
        pos - 1
    } else {
        len - 1
    }
}

/// The cursor slot after `k` forward steps.
pub open spec fn iter_next_position(pos: int, len: int, k: nat) -> int
    decreases k,
{
    if k == 0 {
        pos
    } else {
        next_position(iter_next_position(pos, len, (k - 1) as nat), len)
    }
}

/// The request that starting the active track produces: owed exactly when a
/// sink is available and the catalog is non-empty.
pub open spec fn start_request(a: App) -> SinkRequest {
    if a.sink_ready && a.songs@.len() > 0 {
        SinkRequest::Start { track: a.current_track }
    } else {
        SinkRequest::Nothing
    }
}

/// What `next_track` does to the state: nothing on an empty catalog; a track
/// restart without cursor movement under RepeatOne; otherwise one circular
/// forward step of the cursor, with the active track and the browse
/// selection re-synced to the new slot.
pub open spec fn advance_rel(pre: App, post: App) -> bool {
    if pre.songs@.len() == 0 || pre.play_mode == PlayMode::RepeatOne {
        post == pre
    } else {
        &&& post == (App {
            playlist_position: post.playlist_position,
            current_track: post.current_track,
            selected_index: post.selected_index,
            ..pre
        })
        &&& post.playlist_position == next_position(
            pre.playlist_position as int,
            pre.playlist@.len() as int,
        )
        &&& post.current_track == post.playlist@[post.playlist_position as int]
        &&& post.selected_index == post.current_track
    }
}

/// What `previous_track` does to the state: nothing on an empty catalog;
/// otherwise one circular backward step of the cursor, with the active track
/// and the browse selection re-synced to the new slot.
pub open spec fn retreat_rel(pre: App, post: App) -> bool {
    if pre.songs@.len() == 0 {
        post == pre
    } else {
        &&& post == (App {
            playlist_position: post.playlist_position,
            current_track: post.current_track,
            selected_index: post.selected_index,
            ..pre
        })
        &&& post.playlist_position == prev_position(
            pre.playlist_position as int,
            pre.playlist@.len() as int,
        )
        &&& post.current_track == post.playlist@[post.playlist_position as int]
        &&& post.selected_index == post.current_track
    }
}

/// What `toggle_play_mode` does to the state: the mode takes one step along
/// the cycle; the playlist is reordered — ascending for every mode but
/// Shuffle, some permutation for Shuffle — and the cursor is relocated to the
/// first slot that holds the active track.
pub open spec fn reorder_rel(pre: App, post: App) -> bool {
    &&& post == (App {
        play_mode: post.play_mode,
        playlist: post.playlist,
        playlist_position: post.playlist_position,
        ..pre
    })
    &&& post.play_mode == pre.play_mode.next_spec()
    &&& is_index_permutation(post.playlist@, pre.songs@.len())
    &&& (post.play_mode != PlayMode::Shuffle ==> post.playlist@ == identity_seq(
        pre.songs@.len(),
    ))
    &&& (pre.songs@.len() == 0 ==> post.playlist_position == pre.playlist_position)
    &&& (pre.songs@.len() > 0 ==> {
        &&& (post.playlist_position as int) < post.playlist@.len()
        &&& post.playlist@[post.playlist_position as int] == pre.current_track
        &&& (forall|j: int|
            0 <= j < post.playlist_position ==> post.playlist@[j] != pre.current_track)
    })
}

/// The elapsed time after a clock tick at `now_ms`: the span since the last
/// update is added, saturating at the largest representable value; a clock
/// that stepped backwards adds nothing.
pub open spec fn elapsed_after(pre: App, now_ms: int) -> int {
    let delta = if now_ms >= pre.last_update {
        now_ms - pre.last_update
    } else {
        0
    };
    if pre.elapsed_time + delta > u64::MAX {
        u64::MAX as int
    } else {
        pre.elapsed_time + delta
    }
}

/// The scroll offset that keeps the selection visible in a viewport of
/// `height` rows, moving minimally: up to the selection when it sits above
/// the viewport, down just far enough when it sits below.
pub open spec fn scroll_after(offset: int, selected: int, height: int) -> int {
    if selected < offset {
        selected
    } else if selected >= offset + height {
        selected - height + 1
    } else {
        offset
    }
}

impl App {
    /// The number of tracks in the catalog.
    pub open spec fn track_count(self) -> nat {
        self.songs@.len()
    }

    /// Well-formedness: the playlist is a permutation of the catalog indices;
    /// the volume respects the cap; on a non-empty catalog the cursor, the
    /// active track and the selection are in range and the cursor's slot
    /// holds the active track; on an empty catalog they all sit at 0.
    pub open spec fn wf(self) -> bool {
        &&& is_index_permutation(self.playlist@, self.track_count())
        &&& self.volume <= MAX_VOLUME
        &&& if self.track_count() == 0 {
            &&& self.playlist_position == 0
            &&& self.current_track == 0
            &&& self.selected_index == 0
        } else {
            &&& (self.playlist_position as int) < self.playlist@.len()
            &&& (self.current_track as nat) < self.track_count()
            &&& (self.selected_index as nat) < self.track_count()
            &&& self.playlist@[self.playlist_position as int] == self.current_track
        }
    }

    /// A fresh controller over a scanned catalog: ascending play order,
    /// cursor and selection at 0, Normal mode, nothing playing, volume at
    /// the initial level.
    pub fn new(music_path: String, songs: Vec<String>, sink_ready: bool) -> (r: App)
        ensures
            r.wf(),
            r.music_path == music_path,
            r.songs == songs,
            r.playlist@ == identity_seq(songs@.len()),
            r.current_track == 0,
            r.playlist_position == 0,
            r.selected_index == 0,
            r.scroll_offset == 0,
            !r.is_playing,
            r.play_mode == PlayMode::Normal,
            r.current_song_duration == 0,
            r.elapsed_time == 0,
            r.last_update == 0,
            r.volume == INITIAL_VOLUME,
            r.sink_ready == sink_ready,
    {
        let n = songs.len();
        let playlist = identity_playlist(n);
        App {
            music_path,
            songs,
            playlist,
            current_track: 0,
            playlist_position: 0,
            selected_index: 0,
            scroll_offset: 0,
            is_playing: false,
            play_mode: PlayMode::Normal,
            current_song_duration: 0,
            elapsed_time: 0,
            last_update: 0,
            volume: INITIAL_VOLUME,
            sink_ready,
        }
    }

    /// Scroll minimally so the browse selection stays inside a viewport of
    /// `visible_height` rows; a zero-height viewport changes nothing.
    pub fn update_scroll(&mut self, visible_height: usize)
        requires
            old(self).wf(),
        ensures
            final(self).wf(),
            *final(self) == (App { scroll_offset: final(self).scroll_offset, ..*old(self) }),
            visible_height == 0 ==> final(self).scroll_offset == old(self).scroll_offset,
            visible_height > 0 ==> final(self).scroll_offset as int == scroll_after(
                old(self).scroll_offset as int,
                old(self).selected_index as int,
                visible_height as int,
            ),
    {
        if visible_height == 0 {
            return;
        }
        if self.selected_index < self.scroll_offset {
            self.scroll_offset = self.selected_index;
        } else if self.selected_index - self.scroll_offset >= visible_height {
            self.scroll_offset = self.selected_index - visible_height + 1;
        }
    }

    /// Step the play mode one position along its cycle and reorder the
    /// playlist accordingly: a fresh random permutation for Shuffle,
    /// ascending order for every other mode; then relocate the cursor to the
    /// first slot holding the active track.
    pub fn toggle_play_mode(&mut self)
        requires
            old(self).wf(),
        ensures
            final(self).wf(),
            reorder_rel(*old(self), *final(self)),
    {
        self.play_mode = self.play_mode.next();
        if self.play_mode == PlayMode::Shuffle {
            proof {
                lemma_perm_facts(self.playlist@, self.songs@.len());
            }
            shuffle_in_place(&mut self.playlist);
            proof {
                lemma_perm_transfer(
                    old(self).playlist@,
                    self.playlist@,
                    self.songs@.len(),
                );
            }
        } else {
            self.playlist = identity_playlist(self.songs.len());
        }
        proof {
            lemma_perm_facts(self.playlist@, self.songs@.len());
        }
        let found = find_index(&self.playlist, self.current_track);
        match found {
            Some(pos) => {
                self.playlist_position = pos;
            },
            None => {
                proof {
                    if self.songs@.len() > 0 {
                        assert(self.playlist@.contains(self.current_track));
                        assert(false);
                    }
                }
            },
        }
    }

    /// Raise the volume one step, capped at `MAX_VOLUME`, and push the new
    /// level to the sink if one is available.
    pub fn volume_up(&mut self) -> (r: SinkRequest)
        requires
            old(self).wf(),
        ensures
            final(self).wf(),
            *final(self) == (App { volume: final(self).volume, ..*old(self) }),
            final(self).volume as int == if old(self).volume + VOLUME_STEP >= MAX_VOLUME {
                MAX_VOLUME as int
            } else {
                old(self).volume + VOLUME_STEP
            },
            old(self).sink_ready ==> r == (SinkRequest::SetVolume {
                volume: final(self).volume,
            }),
            !old(self).sink_ready ==> r == SinkRequest::Nothing,
    {
        if self.volume + VOLUME_STEP >= MAX_VOLUME {
            self.volume = MAX_VOLUME;
        } else {
            self.volume = self.volume + VOLUME_STEP;
        }
        if self.sink_ready {
            SinkRequest::SetVolume { volume: self.volume }
        } else {
            SinkRequest::Nothing
        }
    }

    /// Lower the volume one step, floored at 0, and push the new level to
    /// the sink if one is available.
    pub fn volume_down(&mut self) -> (r: SinkRequest)
        requires
            old(self).wf(),
        ensures
            final(self).wf(),
            *final(self) == (App { volume: final(self).volume, ..*old(self) }),
            final(self).volume as int == if old(self).volume >= VOLUME_STEP {
                old(self).volume - VOLUME_STEP
            } else {
                0
            },
            old(self).sink_ready ==> r == (SinkRequest::SetVolume {
                volume: final(self).volume,
            }),
            !old(self).sink_ready ==> r == SinkRequest::Nothing,
    {
        if self.volume >= VOLUME_STEP {
            self.volume = self.volume - VOLUME_STEP;
        } else {
            self.volume = 0;
        }
        if self.sink_ready {
            SinkRequest::SetVolume { volume: self.volume }
        } else {
            SinkRequest::Nothing
        }
    }

    /// The request that (re)starts the active track: owed exactly when a
    /// sink is available and the catalog is non-empty. The state itself only
    /// changes once the driver reports the outcomes back.
    pub fn play_current(&self) -> (r: SinkRequest)
        requires
            self.wf(),
        ensures
            r == start_request(*self),
    {
        if self.sink_ready && self.current_track < self.songs.len() {
            SinkRequest::Start { track: self.current_track }
        } else {
            SinkRequest::Nothing
        }
    }

    /// Record the probed duration of the track being started; a failed probe
    /// counts as zero.
    pub fn set_track_duration(&mut self, probed_ms: Option<u64>)
        ensures
            *final(self) == (App {
                current_song_duration: final(self).current_song_duration,
                ..*old(self)
            }),
            final(self).current_song_duration == (match probed_ms {
                Some(d) => d,
                None => 0u64,
            }),
            old(self).wf() ==> final(self).wf(),
    {
        self.current_song_duration = match probed_ms {
            Some(d) => d,
            None => 0,
        };
    }

    /// Record that the sink accepted a track start at time `now_ms`: the
    /// elapsed time restarts from zero and playback is running.
    pub fn on_play_started(&mut self, now_ms: u64)
        ensures
            *final(self) == (App {
                elapsed_time: 0u64,
                last_update: now_ms,
                is_playing: true,
                ..*old(self)
            }),
            old(self).wf() ==> final(self).wf(),
    {
        self.elapsed_time = 0;
        self.last_update = now_ms;
        self.is_playing = true;
    }

    /// Pause when playing; when paused, resume the loaded track, or request
    /// a start of the active track if the sink holds none. Entering play
    /// re-stamps the accounting clock so paused time never counts as
    /// elapsed. Without a sink, or on an empty catalog, nothing happens.
    pub fn toggle_playback(&mut self, sink_has_track: bool, now_ms: u64) -> (r: SinkRequest)
        requires
            old(self).wf(),
        ensures
            final(self).wf(),
            !old(self).sink_ready || old(self).songs@.len() == 0 ==> *final(self) == *old(self)
                && r == SinkRequest::Nothing,
            old(self).sink_ready && old(self).songs@.len() > 0 && old(self).is_playing ==> *final(self) == (App { is_playing: false, ..*old(self) }) && r == SinkRequest::Pause,
            old(self).sink_ready && old(self).songs@.len() > 0 && !old(self).is_playing ==> *final(self) == (App { is_playing: true, last_update: now_ms, ..*old(self) }),
            old(self).sink_ready && old(self).songs@.len() > 0 && !old(self).is_playing
                && sink_has_track ==> r == SinkRequest::Resume,
            old(self).sink_ready && old(self).songs@.len() > 0 && !old(self).is_playing
                && !sink_has_track ==> r == (SinkRequest::Start { track: old(self).current_track }),
    {
        if !self.sink_ready || self.songs.len() == 0 {
            return SinkRequest::Nothing;
        }
        if self.is_playing {
            self.is_playing = false;
            SinkRequest::Pause
        } else {
            self.is_playing = true;
            self.last_update = now_ms;
            if sink_has_track {
                SinkRequest::Resume
            } else {
                SinkRequest::Start { track: self.current_track }
            }
        }
    }

    /// Move to the next track: a circular forward step of the cursor, except
    /// under RepeatOne, which restarts the active track in place. On an
    /// empty catalog nothing happens.
    pub fn next_track(&mut self) -> (r: SinkRequest)
        requires
            old(self).wf(),
        ensures
            final(self).wf(),
            advance_rel(*old(self), *final(self)),
            r == start_request(*final(self)),
    {
        if self.songs.len() == 0 {
            return SinkRequest::Nothing;
        }
        if self.play_mode == PlayMode::RepeatOne {
            return self.play_current();
        }
        proof {
            lemma_perm_facts(self.playlist@, self.songs@.len());
        }
        let slots = self.playlist.len();
        if self.playlist_position + 1 < slots {
            self.playlist_position = self.playlist_position + 1;
        } else {
            self.playlist_position = 0;
        }
        self.current_track = self.playlist[self.playlist_position];
        self.selected_index = self.current_track;
        self.play_current()
    }

    /// Move to the previous track: a circular backward step of the cursor.
    /// On an empty catalog nothing happens.
    pub fn previous_track(&mut self) -> (r: SinkRequest)
        requires
            old(self).wf(),
        ensures
            final(self).wf(),
            retreat_rel(*old(self), *final(self)),
            r == start_request(*final(self)),
    {
        if self.songs.len() == 0 {
            return SinkRequest::Nothing;
        }
        proof {
            lemma_perm_facts(self.playlist@, self.songs@.len());
        }
        let slots = self.playlist.len();
        if self.playlist_position > 0 {
            self.playlist_position = self.playlist_position - 1;
        } else {
            self.playlist_position = slots - 1;
        }
        self.current_track = self.playlist[self.playlist_position];
        self.selected_index = self.current_track;
        self.play_current()
    }

    /// Seek one step forward. A seek that would reach or pass the end of the
    /// track counts as its natural completion and advances instead, exactly
    /// as `next_track` does; the elapsed time is never pushed beyond the
    /// duration. Without a sink nothing happens.
    pub fn seek_forward(&mut self) -> (r: SinkRequest)
        requires
            old(self).wf(),
        ensures
            final(self).wf(),
            !old(self).sink_ready ==> *final(self) == *old(self) && r == SinkRequest::Nothing,
            old(self).sink_ready && old(self).elapsed_time + SEEK_STEP_MS
                < old(self).current_song_duration ==> *final(self) == (App {
                elapsed_time: (old(self).elapsed_time + SEEK_STEP_MS) as u64,
                ..*old(self)
            }) && r == (SinkRequest::Seek { position_ms: final(self).elapsed_time }),
            old(self).sink_ready && old(self).elapsed_time + SEEK_STEP_MS
                >= old(self).current_song_duration ==> advance_rel(*old(self), *final(self)) && r
                == start_request(*final(self)),
            final(self).elapsed_time != old(self).elapsed_time ==> final(self).elapsed_time
                < final(self).current_song_duration,
    {
        if !self.sink_ready {
            return SinkRequest::Nothing;
        }
        if SEEK_STEP_MS < self.current_song_duration && self.elapsed_time
            < self.current_song_duration - SEEK_STEP_MS {
            self.elapsed_time = self.elapsed_time + SEEK_STEP_MS;
            SinkRequest::Seek { position_ms: self.elapsed_time }
        } else {
            self.next_track()
        }
    }

    /// Seek one step backward, flooring the elapsed time at zero. Without a
    /// sink nothing happens.
    pub fn seek_backward(&mut self) -> (r: SinkRequest)
        requires
            old(self).wf(),
        ensures
            final(self).wf(),
            !old(self).sink_ready ==> *final(self) == *old(self) && r == SinkRequest::Nothing,
            old(self).sink_ready ==> *final(self) == (App {
                elapsed_time: final(self).elapsed_time,
                ..*old(self)
            }) && final(self).elapsed_time as int == (if old(self).elapsed_time >= SEEK_STEP_MS {
                old(self).elapsed_time - SEEK_STEP_MS
            } else {
                0
            }) && r == (SinkRequest::Seek { position_ms: final(self).elapsed_time }),
    {
        if !self.sink_ready {
            return SinkRequest::Nothing;
        }
        if self.elapsed_time >= SEEK_STEP_MS {
            self.elapsed_time = self.elapsed_time - SEEK_STEP_MS;
        } else {
            self.elapsed_time = 0;
        }
        SinkRequest::Seek { position_ms: self.elapsed_time }
    }

    /// The clock tick: while playing, account the span since the last update
    /// into the elapsed time (saturating) and re-stamp; while paused,
    /// nothing changes, so paused time never counts.
    pub fn update_time(&mut self, now_ms: u64)
        requires
            old(self).wf(),
        ensures
            final(self).wf(),
            !old(self).is_playing ==> *final(self) == *old(self),
            old(self).is_playing ==> *final(self) == (App {
                elapsed_time: final(self).elapsed_time,
                last_update: now_ms,
                ..*old(self)
            }) && final(self).elapsed_time as int == elapsed_after(*old(self), now_ms as int),
    {
        if self.is_playing {
            let delta: u64 = if now_ms >= self.last_update {
                now_ms - self.last_update
            } else {
                0
            };
            self.elapsed_time = if self.elapsed_time <= u64::MAX - delta {
                self.elapsed_time + delta
            } else {
                u64::MAX
            };
            self.last_update = now_ms;
        }
    }

    /// Move the browse selection one row down, clamped to the last catalog
    /// row; playback is unaffected.
    pub fn next_song_in_list(&mut self)
        requires
            old(self).wf(),
        ensures
            final(self).wf(),
            *final(self) == (App { selected_index: final(self).selected_index, ..*old(self) }),
            final(self).selected_index as int == if old(self).selected_index + 1
                < old(self).songs@.len() {
                old(self).selected_index + 1
            } else {
                old(self).selected_index as int
            },
    {
        let n = self.songs.len();
        if n > 0 && self.selected_index < n - 1 {
            self.selected_index = self.selected_index + 1;
        }
    }

    /// Move the browse selection one row up, clamped to the first catalog
    /// row; playback is unaffected.
    pub fn previous_song_in_list(&mut self)
        requires
            old(self).wf(),
        ensures
            final(self).wf(),
            *final(self) == (App { selected_index: final(self).selected_index, ..*old(self) }),
            final(self).selected_index as int == if old(self).selected_index > 0 {
                old(self).selected_index - 1
            } else {
                0
            },
    {
        if self.selected_index > 0 {
            self.selected_index = self.selected_index - 1;
        }
    }

    /// Make the browsed track the active one: the cursor is relocated to the
    /// first playlist slot holding it, and a start is requested. On an empty
    /// catalog nothing happens.
    pub fn play_selected(&mut self) -> (r: SinkRequest)
        requires
            old(self).wf(),
        ensures
            final(self).wf(),
            old(self).songs@.len() == 0 ==> *final(self) == *old(self) && r
                == SinkRequest::Nothing,
            old(self).songs@.len() > 0 ==> *final(self) == (App {
                current_track: old(self).selected_index,
                playlist_position: final(self).playlist_position,
                ..*old(self)
            }) && final(self).playlist@[final(self).playlist_position as int] == final(self).current_track && (forall|j: int|
                0 <= j < final(self).playlist_position ==> final(self).playlist@[j] != final(self).current_track) && r == start_request(*final(self)),
    {
        if self.songs.len() == 0 {
            return SinkRequest::Nothing;
        }
        self.current_track = self.selected_index;
        proof {
            lemma_perm_facts(self.playlist@, self.songs@.len());
        }
        let found = find_index(&self.playlist, self.current_track);
        match found {
            Some(pos) => {
                self.playlist_position = pos;
            },
            None => {
                proof {
                    assert(self.playlist@.contains(self.current_track));
                    assert(false);
                }
            },
        }
        self.play_current()
    }

    /// The completion check, run right after the clock tick: a track whose
    /// elapsed time has reached its duration ends naturally, which advances
    /// exactly as `next_track` does — a restart of the same track under
    /// RepeatOne, the circular forward step otherwise.
    pub fn check_track_finished(&mut self) -> (r: SinkRequest)
        requires
            old(self).wf(),
        ensures
            final(self).wf(),
            old(self).is_playing && old(self).elapsed_time >= old(self).current_song_duration
                ==> advance_rel(*old(self), *final(self)) && r == start_request(*final(self)),
            !(old(self).is_playing && old(self).elapsed_time >= old(self).current_song_duration)
                ==> *final(self) == *old(self) && r == SinkRequest::Nothing,
    {
        if self.is_playing && self.elapsed_time >= self.current_song_duration {
            self.next_track()
        } else {
            SinkRequest::Nothing
        }
    }
}

} // verus!
