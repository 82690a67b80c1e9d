//! The playback session controller: transport state, the current track,
//! volume and progress, driven by user commands, ticks and the outcome of
//! each load. Every transition hands back the engine work it calls for; the
//! caller performs it and reports how a load went.

use vstd::prelude::*;
use crate::meta::{text_of, AudioMetadata};
use crate::tracks::{collect_tracks, is_sorted_paths, track_paths, views, TrackListError};
use crate::volume::{
    clamp_volume, clamped, lemma_raise_then_lower, lower_volume, lowered, raise_volume, raised,
    DEFAULT_VOLUME, VOLUME_MAX, VOLUME_STEP,
};

verus! {

/// Progress, in whole seconds, past which an empty sink means that the
/// current track has finished rather than not yet started.
pub const AUTOPLAY_THRESHOLD_SECS: u64 = 1;

/// Which way a track step goes.
#[derive(Debug, Clone, Copy, PartialEq, Eq)]
pub enum Direction {
    Forward,
    Backward,
}

/// The three transport states.
#[derive(Debug, Clone, Copy, PartialEq, Eq)]
pub enum Transport {
    Stopped,
    Playing,
    Paused,
}

/// A discrete user command.
#[derive(Debug, Clone, Copy, PartialEq, Eq)]
pub enum Command {
    Quit,
    TogglePlayPause,
    Stop,
    Next,
    Previous,
    VolumeUp,
    VolumeDown,
    /// Input that means nothing here.
    Ignore,
}

/// Engine work that a transition calls for.
#[derive(Debug, Clone, Copy, PartialEq, Eq)]
pub enum Effect {
    /// Nothing to do.
    Idle,
    /// Leave the command loop.
    Exit,
    /// Pause output, keeping its position.
    Pause,
    /// Resume the buffered output in place.
    Resume,
    /// Discard the engine session.
    Stop,
    /// Apply the controller's volume to the engine and persist the session.
    ApplyVolume,
    /// The current track changed: discard the engine session, refresh the
    /// track's metadata and persist the session; where `load`, then load and
    /// play the current track and report the outcome.
    ChangeTrack { load: bool },
    /// Load and play the current track and report the outcome.
    Load,
    /// Every track of the list failed to load; playback has stopped.
    Exhausted,
}

/// What persists between runs: the current track and the volume.
#[derive(Debug, Clone, Copy, PartialEq, Eq)]
pub struct AppState {
    pub track_index: usize,
    /// Thousandths of full scale.
    pub volume: u16,
}

impl Default for AppState {
    /// The state of a first run: the first track at the default volume.
    fn default() -> (r: AppState)
        ensures
            r.track_index == 0,
            r.volume == DEFAULT_VOLUME,
    {
        AppState { track_index: 0, volume: DEFAULT_VOLUME }
    }
}

/// The index one step from `i` in a list of `n`, where there is one: a step
/// past either end wraps round under `looping` and goes nowhere otherwise.
pub open spec fn step_index(i: int, n: int, dir: Direction, looping: bool) -> Option<int> {
    match dir {
        Direction::Forward => if i + 1 < n {
            Some(i + 1)
        } else if looping {
            Some(0)
        } else {
            None
        },
        Direction::Backward => if i > 0 {
            Some(i - 1)
        } else if looping {
            Some(n - 1)
        } else {
            None
        },
    }
}

/// The transport state that two flags stand for.
pub open spec fn transport_of(playing: bool, paused: bool) -> Transport {
    if !playing {
        Transport::Stopped
    } else if paused {
        Transport::Paused
    } else {
        Transport::Playing
    }
}

/// The text of an optional field, empty where it is absent.
pub open spec fn text_or_empty(o: Option<String>) -> Seq<char> {
    match text_of(o) {
        Some(t) => t,
        None => Seq::empty(),
    }
}

fn text_or_new(o: Option<String>) -> (r: String)
    ensures
        r@ == text_or_empty(o),
{
    match o {
        Some(s) => s,
        None => String::new(),
    }
}

/// The four display fields (file, title, artist, album) that a metadata
/// lookup gives: `None` where it failed, which leaves them all blank.
pub open spec fn display_of(result: Option<AudioMetadata>) -> (
    Seq<char>,
    Seq<char>,
    Seq<char>,
    Seq<char>,
) {
    match result {
        Some(md) => (
            text_or_empty(md.file),
            text_or_empty(md.title),
            text_or_empty(md.artist),
            text_or_empty(md.album),
        ),
        None => (Seq::empty(), Seq::empty(), Seq::empty(), Seq::empty()),
    }
}

/// The session state of the controller.
///
/// `Paused` is a sub-state of playing: `playing` stays set while `paused` is,
/// and `paused` is never set alone.
#[derive(Debug)]
pub struct App {
    pub running: bool,
    pub track_index: usize,
    /// The engine has no more buffered audio; refreshed from outside.
    pub sink_empty: bool,
    pub playing: bool,
    pub paused: bool,
    pub track_list: Vec<String>,
    /// Thousandths of full scale.
    pub volume: u16,
    pub loop_playlist: bool,
    pub track_duration: u64,
    /// Whole seconds into the current track; refreshed from outside.
    pub track_progress: u64,
    pub track_file: String,
    pub track_title: String,
    pub track_artist: String,
    pub track_album: String,
    /// The way that loads failing in a row step through the list.
    pub retry_direction: Direction,
    /// Loads that have failed in a row since the last command or advance.
    pub failed_loads: usize,
}

impl App {
    /// The state of a controller just made: nothing loaded, stopped, looping
    /// on, the default volume, no progress, blank display fields.
    pub open spec fn is_fresh(self) -> bool {
        &&& self.running
        &&& self.track_index == 0
        &&& self.sink_empty
        &&& !self.playing
        &&& !self.paused
        &&& self.track_list@.len() == 0
        &&& self.volume == DEFAULT_VOLUME
        &&& self.loop_playlist
        &&& self.track_duration == 0
        &&& self.track_progress == 0
        &&& self.track_file@.len() == 0
        &&& self.track_title@.len() == 0
        &&& self.track_artist@.len() == 0
        &&& self.track_album@.len() == 0
        &&& self.retry_direction == Direction::Forward
        &&& self.failed_loads == 0
    }

    /// Transport flags and volume are consistent.
    pub open spec fn settled(self) -> bool {
        &&& !(!self.playing && self.paused)
        &&& self.volume <= VOLUME_MAX
    }

    /// A controller over a loaded, non-empty list, with its index in range.
    pub open spec fn wf(self) -> bool {
        &&& self.settled()
        &&& 0 < self.track_list@.len() <= usize::MAX
        &&& self.track_index < self.track_list@.len()
        &&& self.failed_loads < self.track_list@.len()
    }

    pub open spec fn transport_spec(self) -> Transport {
        transport_of(self.playing, self.paused)
    }

    /// The target of one step from the current track.
    pub open spec fn step_spec(self, dir: Direction) -> Option<int> {
        step_index(
            self.track_index as int,
            self.track_list@.len() as int,
            dir,
            self.loop_playlist,
        )
    }

    /// Transport stopped, progress back at zero.
    pub open spec fn stopped(self) -> App {
        App { playing: false, paused: false, track_progress: 0, ..self }
    }

    /// `Next` or `Previous`: the current track moves one step, and the new
    /// track is loaded only where the transport was `Playing`; a paused
    /// transport stays paused with nothing buffered. At an end of a list that
    /// does not loop, nothing changes.
    pub open spec fn stepped(self, dir: Direction) -> (App, Effect) {
        match self.step_spec(dir) {
            Some(j) => (
                App {
                    track_index: j as usize,
                    track_progress: 0,
                    retry_direction: dir,
                    failed_loads: 0,
                    ..self
                },
                Effect::ChangeTrack { load: self.playing && !self.paused },
            ),
            None => (self, Effect::Idle),
        }
    }

    /// `Play`: paused or stopped output with audio still buffered resumes in
    /// place; paused or stopped output with nothing buffered loads the
    /// current track afresh; playing output stays as it is.
    pub open spec fn played(self) -> (App, Effect) {
        if (self.paused || !self.playing) && !self.sink_empty {
            (App { playing: true, paused: false, ..self }, Effect::Resume)
        } else if self.paused || !self.playing {
            (
                App {
                    playing: true,
                    paused: false,
                    track_progress: 0,
                    retry_direction: Direction::Forward,
                    failed_loads: 0,
                    ..self
                },
                Effect::Load,
            )
        } else {
            (self, Effect::Idle)
        }
    }

    /// `Pause`: only playing output pauses.
    pub open spec fn paused_spec(self) -> (App, Effect) {
        if self.playing && !self.paused {
            (App { paused: true, ..self }, Effect::Pause)
        } else {
            (self, Effect::Idle)
        }
    }

    /// The volume set to `v`, held to full scale.
    pub open spec fn with_volume(self, v: int) -> (App, Effect) {
        (App { volume: clamped(v) as u16, ..self }, Effect::ApplyVolume)
    }

    /// The controller after `cmd`, and the engine work it calls for.
    pub open spec fn commanded(self, cmd: Command) -> (App, Effect) {
        match cmd {
            Command::Quit => (App { running: false, ..self }, Effect::Exit),
            Command::TogglePlayPause => if self.paused || !self.playing {
                self.played()
            } else {
                self.paused_spec()
            },
            Command::Stop => (self.stopped(), Effect::Stop),
            Command::Next => self.stepped(Direction::Forward),
            Command::Previous => self.stepped(Direction::Backward),
            Command::VolumeUp => self.with_volume(raised(self.volume as int)),
            Command::VolumeDown => self.with_volume(lowered(self.volume as int)),
            Command::Ignore => (self, Effect::Idle),
        }
    }

    /// The current track has finished: playing output whose sink ran empty
    /// past the threshold. Then the controller does as `Next` does: the next
    /// track is loaded, or at the end of a list that does not loop, nothing
    /// changes.
    pub open spec fn advanced(self) -> (App, Effect) {
        if self.playing && !self.paused && self.sink_empty && self.track_progress
            > AUTOPLAY_THRESHOLD_SECS {
            self.stepped(Direction::Forward)
        } else {
            (self, Effect::Idle)
        }
    }

    /// A tick: progress and sink state refreshed from the engine, then the
    /// finished-track check.
    pub open spec fn ticked(self, progress: u64, sink_empty: bool) -> (App, Effect) {
        App { track_progress: progress, sink_empty: sink_empty, ..self }.advanced()
    }

    /// The outcome of a load. A success ends the run of failures. A failure steps on in the same direction
    /// and loads again, until as many loads have failed in a row as the list
    /// holds tracks, or the step meets the end of a list that does not loop;
    /// then playback stops.
    pub open spec fn after_load(self, ok: bool) -> (App, Effect) {
        if ok {
            (App { failed_loads: 0, ..self }, Effect::Idle)
        } else if self.failed_loads + 1 >= self.track_list@.len() {
            (App { failed_loads: 0, ..self.stopped() }, Effect::Exhausted)
        } else {
            match self.step_spec(self.retry_direction) {
                Some(j) => (
                    App {
                        track_index: j as usize,
                        track_progress: 0,
                        failed_loads: (self.failed_loads + 1) as usize,
                        ..self
                    },
                    Effect::ChangeTrack { load: true },
                ),
                None => (App { failed_loads: 0, ..self.stopped() }, Effect::Stop),
            }
        }
    }

    /// A step from an index in range lands in range.
    pub proof fn lemma_step_in_range(self, dir: Direction)
        requires
            self.wf(),
        ensures
            self.step_spec(dir) matches Some(j) ==> 0 <= j < self.track_list@.len(),
    {
    }

    /// Every command keeps the controller well formed.
    pub proof fn lemma_commanded_wf(self, cmd: Command)
        requires
            self.wf(),
        ensures
            self.commanded(cmd).0.wf(),
    {
        self.lemma_step_in_range(Direction::Forward);
        self.lemma_step_in_range(Direction::Backward);
    }

    /// A controller with nothing loaded, playback stopped, looping on and the
    /// default volume.
    pub fn new() -> (r: App)
        ensures
            r.is_fresh(),
            r.settled(),
    {
        App {
            running: true,
            track_index: 0,
            sink_empty: true,
            playing: false,
            paused: false,
            track_list: Vec::new(),
            volume: DEFAULT_VOLUME,
            loop_playlist: true,
            track_duration: 0,
            track_progress: 0,
            track_file: String::new(),
            track_title: String::new(),
            track_artist: String::new(),
            track_album: String::new(),
            retry_direction: Direction::Forward,
            failed_loads: 0,
        }
    }

    /// The transport state.
    pub fn transport(&self) -> (r: Transport)
        ensures
            r == self.transport_spec(),
    {
        if !self.playing {
            Transport::Stopped
        } else if self.paused {
            Transport::Paused
        } else {
            Transport::Playing
        }
    }

    /// What persists of this session.
    pub fn state(&self) -> (r: AppState)
        ensures
            r.track_index == self.track_index,
            r.volume == self.volume,
    {
        AppState { track_index: self.track_index, volume: self.volume }
    }

    /// Takes the outcome of the metadata lookup for the track at `index`:
    /// `None` where it failed. A lookup for a track that is no longer current
    /// changes nothing. Otherwise the four display fields take the text that
    /// the lookup gave, each blank where the metadata lacks it, and all blank
    /// where the lookup failed.
    pub fn update_meta(&mut self, index: usize, result: Option<AudioMetadata>)
        ensures
            index == old(self).track_index ==> {
                &&& final(self).track_file@ == display_of(result).0
                &&& final(self).track_title@ == display_of(result).1
                &&& final(self).track_artist@ == display_of(result).2
                &&& final(self).track_album@ == display_of(result).3
                &&& *final(self) == (App {
                    track_file: final(self).track_file,
                    track_title: final(self).track_title,
                    track_artist: final(self).track_artist,
                    track_album: final(self).track_album,
                    ..*old(self)
                })
            },
            index != old(self).track_index ==> *final(self) == *old(self),
    {
        if index == self.track_index {
            match result {
                Some(md) => {
                    self.track_file = text_or_new(md.file);
                    self.track_title = text_or_new(md.title);
                    self.track_artist = text_or_new(md.artist);
                    self.track_album = text_or_new(md.album);
                },
                None => {
                    self.track_file = String::new();
                    self.track_title = String::new();
                    self.track_artist = String::new();
                    self.track_album = String::new();
                },
            }
        }
    }

    /// Takes the metadata looked up for the track at `index`, the one that
    /// would play next, and returns the title shown. Where the lookup gave
    /// metadata, title, artist and album take its text, each blank where it
    /// lacks the field; where it failed, or `index` is not the next track,
    /// nothing changes and the title shown stays.
    pub fn get_next_track(&mut self, index: usize, result: Option<AudioMetadata>) -> (r: String)
        requires
            old(self).wf(),
        ensures
            match result {
                Some(md) => if old(self).step_spec(Direction::Forward) == Some(index as int) {
                    &&& final(self).track_title@ == text_or_empty(md.title)
                    &&& final(self).track_artist@ == text_or_empty(md.artist)
                    &&& final(self).track_album@ == text_or_empty(md.album)
                    &&& *final(self) == (App {
                        track_title: final(self).track_title,
                        track_artist: final(self).track_artist,
                        track_album: final(self).track_album,
                        ..*old(self)
                    })
                } else {
                    *final(self) == *old(self)
                },
                None => *final(self) == *old(self),
            },
            r@ == final(self).track_title@,
    {
        if let Some(md) = result {
            if let Some(next) = self.step_target(Direction::Forward) {
                if next == index {
                    self.track_title = text_or_new(md.title);
                    self.track_artist = text_or_new(md.artist);
                    self.track_album = text_or_new(md.album);
                }
            }
        }
        self.track_title.clone()
    }

    /// Sets `running` to false, so that the command loop ends.
    pub fn quit(&mut self)
        ensures
            *final(self) == (App { running: false, ..*old(self) }),
    {
        self.running = false;
    }

    /// The index one step from the current one, where there is one.
    pub fn step_target(&self, dir: Direction) -> (r: Option<usize>)
        requires
            self.wf(),
        ensures
            match r {
                Some(j) => self.step_spec(dir) == Some(j as int),
                None => self.step_spec(dir) is None,
            },
    {
        let n: usize = self.track_list.len();
        match dir {
            Direction::Forward => {
                if self.track_index + 1 < n {
                    Some(self.track_index + 1)
                } else if self.loop_playlist {
                    Some(0)
                } else {
                    None
                }
            },
            Direction::Backward => {
                if self.track_index > 0 {
                    Some(self.track_index - 1)
                } else if self.loop_playlist {
                    Some(n - 1)
                } else {
                    None
                }
            },
        }
    }

    fn step_track(&mut self, dir: Direction) -> (r: Effect)
        requires
            old(self).wf(),
        ensures
            (*final(self), r) == old(self).stepped(dir),
            final(self).wf(),
    {
        match self.step_target(dir) {
            Some(j) => {
                self.track_index = j;
                self.track_progress = 0;
                self.retry_direction = dir;
                self.failed_loads = 0;
                Effect::ChangeTrack { load: self.playing && !self.paused }
            },
            None => Effect::Idle,
        }
    }

    /// `Next`: one track forward, wrapping past the last under looping.
    pub fn increment_track(&mut self) -> (r: Effect)
        requires
            old(self).wf(),
        ensures
            (*final(self), r) == old(self).stepped(Direction::Forward),
            final(self).wf(),
    {
        self.step_track(Direction::Forward)
    }

    /// `Previous`: one track back, wrapping past the first under looping.
    pub fn decrement_track(&mut self) -> (r: Effect)
        requires
            old(self).wf(),
        ensures
            (*final(self), r) == old(self).stepped(Direction::Backward),
            final(self).wf(),
    {
        self.step_track(Direction::Backward)
    }

    /// Sets the volume, held to full scale.
    pub fn set_volume(&mut self, volume: u16) -> (r: Effect)
        ensures
            (*final(self), r) == old(self).with_volume(volume as int),
    {
        self.volume = clamp_volume(volume);
        Effect::ApplyVolume
    }

    /// One volume step up, held at full scale.
    pub fn increase_volume(&mut self) -> (r: Effect)
        requires
            old(self).volume <= VOLUME_MAX,
        ensures
            (*final(self), r) == old(self).with_volume(raised(old(self).volume as int)),
            final(self).volume <= VOLUME_MAX,
    {
        let v: u16 = raise_volume(self.volume);
        self.set_volume(v)
    }

    /// One volume step down, held at silence.
    pub fn decrease_volume(&mut self) -> (r: Effect)
        requires
            old(self).volume <= VOLUME_MAX,
        ensures
            (*final(self), r) == old(self).with_volume(lowered(old(self).volume as int)),
            final(self).volume <= VOLUME_MAX,
    {
        let v: u16 = lower_volume(self.volume);
        self.set_volume(v)
    }

    /// `Play`.
    pub fn play_audio(&mut self) -> (r: Effect)
        requires
            old(self).wf(),
        ensures
            (*final(self), r) == old(self).played(),
            final(self).wf(),
    {
        if (self.paused || !self.playing) && !self.sink_empty {
            self.playing = true;
            self.paused = false;
            Effect::Resume
        } else if self.paused || !self.playing {
            self.playing = true;
            self.paused = false;
            self.track_progress = 0;
            self.retry_direction = Direction::Forward;
            self.failed_loads = 0;
            Effect::Load
        } else {
            Effect::Idle
        }
    }

    /// `Pause`.
    pub fn pause_audio(&mut self) -> (r: Effect)
        requires
            old(self).wf(),
        ensures
            (*final(self), r) == old(self).paused_spec(),
            final(self).wf(),
    {
        if self.playing && !self.paused {
            self.paused = true;
            Effect::Pause
        } else {
            Effect::Idle
        }
    }

    /// `Stop`: from any state, the transport stops and progress returns to
    /// zero.
    pub fn stop_audio(&mut self) -> (r: Effect)
        requires
            old(self).wf(),
        ensures
            *final(self) == old(self).stopped(),
            r == Effect::Stop,
            final(self).wf(),
            final(self).transport_spec() == Transport::Stopped,
            final(self).track_progress == 0,
    {
        self.playing = false;
        self.paused = false;
        self.track_progress = 0;
        Effect::Stop
    }

    /// Turns looping over the list on or off.
    pub fn disable_loop_playlist(&mut self)
        ensures
            *final(self) == (App { loop_playlist: !old(self).loop_playlist, ..*old(self) }),
    {
        self.loop_playlist = !self.loop_playlist;
    }

    /// Records the length of the current track, in seconds.
    pub fn set_track_duration(&mut self, duration: u64)
        ensures
            *final(self) == (App { track_duration: duration, ..*old(self) }),
    {
        self.track_duration = duration;
    }

    /// The finished-track check, on the progress and sink state as they
    /// stand.
    pub fn check_and_advance_track(&mut self) -> (r: Effect)
        requires
            old(self).wf(),
        ensures
            (*final(self), r) == old(self).advanced(),
            final(self).wf(),
    {
        if self.playing && !self.paused && self.sink_empty && self.track_progress
            > AUTOPLAY_THRESHOLD_SECS {
            self.step_track(Direction::Forward)
        } else {
            Effect::Idle
        }
    }

    /// A tick: takes the engine's progress and sink state, then runs the
    /// finished-track check.
    pub fn tick(&mut self, progress: u64, sink_empty: bool) -> (r: Effect)
        requires
            old(self).wf(),
        ensures
            (*final(self), r) == old(self).ticked(progress, sink_empty),
            final(self).wf(),
    {
        self.track_progress = progress;
        self.sink_empty = sink_empty;
        self.check_and_advance_track()
    }

    /// Takes the outcome of the load that the last effect asked for.
    pub fn load_finished(&mut self, ok: bool) -> (r: Effect)
        requires
            old(self).wf(),
        ensures
            (*final(self), r) == old(self).after_load(ok),
            final(self).wf(),
    {
        if ok {
            self.failed_loads = 0;
            Effect::Idle
        } else if self.failed_loads >= self.track_list.len() - 1 {
            self.playing = false;
            self.paused = false;
            self.track_progress = 0;
            self.failed_loads = 0;
            Effect::Exhausted
        } else {
            match self.step_target(self.retry_direction) {
                Some(j) => {
                    self.track_index = j;
                    self.track_progress = 0;
                    self.failed_loads = self.failed_loads + 1;
                    Effect::ChangeTrack { load: true }
                },
                None => {
                    self.playing = false;
                    self.paused = false;
                    self.track_progress = 0;
                    self.failed_loads = 0;
                    Effect::Stop
                },
            }
        }
    }

    /// Applies one user command.
    pub fn handle_command(&mut self, cmd: Command) -> (r: Effect)
        requires
            old(self).wf(),
        ensures
            (*final(self), r) == old(self).commanded(cmd),
            final(self).wf(),
    {
        match cmd {
            Command::Quit => {
                self.quit();
                Effect::Exit
            },
            Command::TogglePlayPause => {
                if self.paused || !self.playing {
                    self.play_audio()
                } else {
                    self.pause_audio()
                }
            },
            Command::Stop => self.stop_audio(),
            Command::Next => self.increment_track(),
            Command::Previous => self.decrement_track(),
            Command::VolumeUp => self.increase_volume(),
            Command::VolumeDown => self.decrease_volume(),
            Command::Ignore => Effect::Idle,
        }
    }

    /// Takes a persisted session: the volume always, held to full scale; the
    /// track only where the session continues and the index is in range.
    pub fn initialize_state(&mut self, continue_session: bool, stored: AppState)
        requires
            old(self).wf(),
        ensures
            *final(self) == (App {
                track_index: if continue_session && stored.track_index
                    < old(self).track_list@.len() {
                    stored.track_index
                } else {
                    old(self).track_index
                },
                volume: clamped(stored.volume as int) as u16,
                ..*old(self)
            }),
            final(self).wf(),
    {
        if continue_session && stored.track_index < self.track_list.len() {
            self.track_index = stored.track_index;
        }
        self.volume = clamp_volume(stored.volume);
    }

    /// Makes the track list from candidate file paths: those that name
    /// visible files with a playable extension, in lexicographic order. Where
    /// there are none, nothing changes and `NotFound` comes back.
    pub fn load_tracks(&mut self, candidates: &Vec<String>) -> (r: Result<(), TrackListError>)
        requires
            old(self).settled(),
        ensures
            match r {
                Ok(()) => {
                    &&& final(self).wf()
                    &&& views(final(self).track_list@).to_multiset() == track_paths(
                        views(candidates@),
                    ).to_multiset()
                    &&& is_sorted_paths(views(final(self).track_list@))
                    &&& *final(self) == (App {
                        track_list: final(self).track_list,
                        track_index: if old(self).track_index
                            < final(self).track_list@.len() {
                            old(self).track_index
                        } else {
                            0
                        },
                        failed_loads: 0,
                        ..*old(self)
                    })
                },
                Err(e) => {
                    &&& e == TrackListError::NotFound
                    &&& track_paths(views(candidates@)).len() == 0
                    &&& *final(self) == *old(self)
                },
            },
    {
        match collect_tracks(candidates) {
            Ok(list) => {
                proof {
                    broadcast use vstd::seq_lib::group_to_multiset_ensures;

                    assert(views(list@).len() == views(list@).to_multiset().len());
                }
                self.track_list = list;
                if self.track_index >= self.track_list.len() {
                    self.track_index = 0;
                }
                self.failed_loads = 0;
                Ok(())
            },
            Err(e) => Err(e),
        }
    }
}

/// The controller after each command of `cmds` in turn.
pub open spec fn run(app: App, cmds: Seq<Command>) -> App
    decreases cmds.len(),
{
    if cmds.len() == 0 {
        app
    } else {
        run(app.commanded(cmds[0]).0, cmds.drop_first())
    }
}

/// Whatever commands come, the track list stays as loaded, the current index
/// stays within it, and the volume between silence and full scale.
pub proof fn lemma_run_stays_in_range(app: App, cmds: Seq<Command>)
    requires
        app.wf(),
    ensures
        run(app, cmds).wf(),
        run(app, cmds).track_list == app.track_list,
        run(app, cmds).track_index < app.track_list@.len(),
        run(app, cmds).volume <= VOLUME_MAX,
    decreases cmds.len(),
{
    if cmds.len() > 0 {
        app.lemma_commanded_wf(cmds[0]);
        lemma_run_stays_in_range(app.commanded(cmds[0]).0, cmds.drop_first());
    }
}

/// With looping on, `Next` from the last track goes to the first and
/// `Previous` from the first goes to the last; elsewhere each moves by one.
pub proof fn lemma_looping_wraps(app: App)
    requires
        app.wf(),
        app.loop_playlist,
    ensures
        app.commanded(Command::Next).0.track_index == if app.track_index + 1
            == app.track_list@.len() {
            0
        } else {
            app.track_index + 1
        },
        app.commanded(Command::Previous).0.track_index == if app.track_index == 0 {
            app.track_list@.len() - 1
        } else {
            app.track_index - 1
        },
{
    app.lemma_step_in_range(Direction::Forward);
    app.lemma_step_in_range(Direction::Backward);
}

/// With looping off, `Next` on the last track and `Previous` on the first
/// change nothing and call for no engine work.
pub proof fn lemma_ends_without_loop(app: App)
    requires
        app.wf(),
        !app.loop_playlist,
    ensures
        app.track_index + 1 == app.track_list@.len() ==> app.commanded(Command::Next) == (
        app,
        Effect::Idle,
        ),
        app.track_index == 0 ==> app.commanded(Command::Previous) == (app, Effect::Idle),
{
}

/// `VolumeUp` then `VolumeDown` restores the volume wherever the step up was
/// not held at full scale.
pub proof fn lemma_volume_up_then_down(app: App)
    requires
        app.settled(),
        app.volume + VOLUME_STEP <= VOLUME_MAX,
    ensures
        app.commanded(Command::VolumeUp).0.commanded(Command::VolumeDown).0.volume == app.volume,
{
    lemma_raise_then_lower(app.volume as int);
}

/// After `Stop`, from any state, the transport is stopped and progress is
/// zero.
pub proof fn lemma_stop_resets(app: App)
    requires
        app.wf(),
    ensures
        app.commanded(Command::Stop).0.transport_spec() == Transport::Stopped,
        app.commanded(Command::Stop).0.track_progress == 0,
        app.commanded(Command::Stop).1 == Effect::Stop,
{
}

/// A tick that finds playing output with an empty sink past the threshold
/// moves exactly one track forward, loads it and resets progress; checking
/// again in the state it leaves does not advance a second time.
pub proof fn lemma_autoplay_advances_once(app: App, progress: u64)
    requires
        app.wf(),
        app.playing,
        !app.paused,
        progress > AUTOPLAY_THRESHOLD_SECS,
        app.step_spec(Direction::Forward) is Some,
    ensures
        app.ticked(progress, true).0.track_index == app.step_spec(Direction::Forward)->0,
        app.ticked(progress, true).0.track_progress == 0,
        app.ticked(progress, true).1 == (Effect::ChangeTrack { load: true }),
        app.ticked(progress, true).0.wf(),
        app.ticked(progress, true).0.advanced() == (app.ticked(progress, true).0, Effect::Idle),
{
    let refreshed = App { track_progress: progress, sink_empty: true, ..app };
    refreshed.lemma_step_in_range(Direction::Forward);
}

impl Default for App {
    fn default() -> (r: App)
        ensures
            r.is_fresh(),
            r.settled(),
    {
        App::new()
    }
}

} // verus!
