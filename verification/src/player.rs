//! The playback controller: a state machine over the preview clip of at
//! most one active song.
//!
//! The audio output resource is owned exclusively by this controller and
//! held exactly while the machine is away from `Stopped`; activating a
//! new song stops the previous one first, so the resource is never held
//! twice and never leaked. Decoding and actual output are external
//! collaborators that report back as events (`loaded`, `buffered`,
//! `stalled`, `load_failed`); a load or buffer failure always lands in
//! `Stopped` with a distinct error, never stuck in `Loading` or
//! `Buffering`.
//!
//! `pause` and `resume` are valid only from `Playing` and `Paused`
//! respectively; anywhere else they are documented no-ops that report
//! `false`.

use vstd::prelude::*;

use crate::error::PlaybackError;
use crate::song::{Song, SongModel};

verus! {

/// Where playback of the active preview clip stands.
#[derive(Clone, Copy, Debug, PartialEq, Eq, Structural)]
pub enum PlaybackState {
    /// Nothing active; the output resource is free.
    Stopped,
    /// The preview link of the active song is being fetched.
    Loading,
    /// Data arrived but is not yet sufficient to play.
    Buffering,
    /// The clip is audible.
    Playing,
    /// Playback is halted but the clip and resource are kept.
    Paused,
}

/// Mathematical model of a [`PlaybackController`]: its state, the active
/// song, and how many holds it has on the output resource.
pub ghost struct PlayerModel {
    pub state: PlaybackState,
    pub active: Option<SongModel>,
    pub holds: nat,
}

/// What a play request leaves: a song with a preview link is activated
/// through `Loading` (stopping whatever was active); one without is
/// refused, the machine stopped and the resource released.
pub open spec fn step_play(s: PlayerModel, song: SongModel) -> (PlayerModel, Result<
    (),
    PlaybackError,
>) {
    if song.preview_link is Some {
        (
            PlayerModel { state: PlaybackState::Loading, active: Some(song), holds: 1 },
            Ok(()),
        )
    } else {
        (
            PlayerModel { state: PlaybackState::Stopped, active: None, holds: 0 },
            Err(PlaybackError::MissingPreviewLink),
        )
    }
}

/// The load completed: `Loading` moves to `Buffering`; elsewhere the
/// report is stale and discarded.
pub open spec fn step_loaded(s: PlayerModel) -> PlayerModel {
    if s.state is Loading {
        PlayerModel { state: PlaybackState::Buffering, ..s }
    } else {
        s
    }
}

/// Enough data to play: `Buffering` moves to `Playing`; elsewhere
/// discarded.
pub open spec fn step_buffered(s: PlayerModel) -> PlayerModel {
    if s.state is Buffering {
        PlayerModel { state: PlaybackState::Playing, ..s }
    } else {
        s
    }
}

/// An underrun: `Playing` falls back to `Buffering`; elsewhere
/// discarded.
pub open spec fn step_stalled(s: PlayerModel) -> PlayerModel {
    if s.state is Playing {
        PlayerModel { state: PlaybackState::Buffering, ..s }
    } else {
        s
    }
}

/// The preview link could not be loaded or buffered: from `Loading` or
/// `Buffering` the machine stops and releases the resource; elsewhere
/// discarded.
pub open spec fn step_load_failed(s: PlayerModel) -> PlayerModel {
    if s.state is Loading || s.state is Buffering {
        PlayerModel { state: PlaybackState::Stopped, active: None, holds: 0 }
    } else {
        s
    }
}

/// A pause request: effective exactly from `Playing`.
pub open spec fn step_pause(s: PlayerModel) -> PlayerModel {
    if s.state is Playing {
        PlayerModel { state: PlaybackState::Paused, ..s }
    } else {
        s
    }
}

/// A resume request: effective exactly from `Paused`.
pub open spec fn step_resume(s: PlayerModel) -> PlayerModel {
    if s.state is Paused {
        PlayerModel { state: PlaybackState::Playing, ..s }
    } else {
        s
    }
}

/// A stop request: from anywhere, the machine stops, forgets the active
/// song and releases the resource.
pub open spec fn step_stop(s: PlayerModel) -> PlayerModel {
    PlayerModel { state: PlaybackState::Stopped, active: None, holds: 0 }
}

/// Whether `song` is the active one, by identifier.
pub open spec fn is_active(s: PlayerModel, song: SongModel) -> bool {
    match s.active {
        Some(active) => active.id == song.id,
        None => false,
    }
}

/// A toggle request for `song`: pauses when exactly that song is active
/// and audible, and otherwise activates it afresh.
pub open spec fn step_toggle(s: PlayerModel, song: SongModel) -> PlayerModel {
    if is_active(s, song) && s.state is Playing {
        step_pause(s)
    } else {
        step_play(s, song).0
    }
}

/// Two back-to-back play requests leave exactly the second song active
/// and the output resource held exactly once: no leak from the first
/// activation, no double hold.
pub proof fn lemma_play_play_single_hold(s: PlayerModel, a: SongModel, b: SongModel)
    requires
        b.preview_link is Some,
    ensures
        step_play(step_play(s, a).0, b).0.active == Some(b),
        step_play(step_play(s, a).0, b).0.holds == 1,
{
}

/// Plays the preview clip of at most one song at a time, owning the
/// audio output resource exclusively while doing so.
pub struct PlaybackController {
    state: PlaybackState,
    active: Option<Song>,
    resource_held: bool,
}

impl View for PlaybackController {
    type V = PlayerModel;

    closed spec fn view(&self) -> PlayerModel {
        PlayerModel {
            state: self.state,
            active: match self.active {
                Some(song) => Some(song@),
                None => None,
            },
            holds: if self.resource_held {
                1nat
            } else {
                0nat
            },
        }
    }
}

impl PlaybackController {
    /// Well-formedness: a song is active exactly away from `Stopped`,
    /// and the resource is held exactly then, exactly once.
    pub open spec fn wf(&self) -> bool {
        &&& self@.state is Stopped <==> self@.active is None
        &&& self@.holds == (if self@.state is Stopped {
            0nat
        } else {
            1nat
        })
    }

    /// A stopped controller holding nothing.
    pub fn new() -> (r: PlaybackController)
        ensures
            r.wf(),
            r@.state is Stopped,
            r@.active is None,
            r@.holds == 0,
    {
        PlaybackController { state: PlaybackState::Stopped, active: None, resource_held: false }
    }

    /// The current playback state.
    pub fn state(&self) -> (r: PlaybackState)
        ensures
            r == self@.state,
    {
        self.state
    }

    /// The active song, if any.
    pub fn active_song(&self) -> (r: &Option<Song>)
        ensures
            match r {
                Some(song) => self@.active == Some(song@),
                None => self@.active is None,
            },
    {
        &self.active
    }

    /// Whether `song` is the one currently active, by identifier.
    pub fn is_active_song(&self, song: &Song) -> (r: bool)
        ensures
            r == match self@.active {
                Some(active) => active.id == song@.id,
                None => false,
            },
    {
        match &self.active {
            Some(active) => active.same_song(song),
            None => false,
        }
    }

    /// Activates `song`: whatever was active is stopped first, then a
    /// song with a preview link is taken through `Loading`; one without
    /// a link is refused with a distinct error, leaving the machine
    /// stopped and the resource free.
    pub fn play(&mut self, song: Song) -> (r: Result<(), PlaybackError>)
        requires
            old(self).wf(),
        ensures
            final(self).wf(),
            final(self)@ == step_play(old(self)@, song@).0,
            r == step_play(old(self)@, song@).1,
    {
        if song.preview_link.is_some() {
            self.state = PlaybackState::Loading;
            self.active = Some(song);
            self.resource_held = true;
            Ok(())
        } else {
            self.state = PlaybackState::Stopped;
            self.active = None;
            self.resource_held = false;
            Err(PlaybackError::MissingPreviewLink)
        }
    }

    /// Takes the backend's report that the preview link finished
    /// loading.
    pub fn loaded(&mut self)
        requires
            old(self).wf(),
        ensures
            final(self).wf(),
            final(self)@ == step_loaded(old(self)@),
    {
        if matches!(self.state, PlaybackState::Loading) {
            self.state = PlaybackState::Buffering;
        }
    }

    /// Takes the backend's report that enough data arrived to play.
    pub fn buffered(&mut self)
        requires
            old(self).wf(),
        ensures
            final(self).wf(),
            final(self)@ == step_buffered(old(self)@),
    {
        if matches!(self.state, PlaybackState::Buffering) {
            self.state = PlaybackState::Playing;
        }
    }

    /// Takes the backend's report of an underrun while playing.
    pub fn stalled(&mut self)
        requires
            old(self).wf(),
        ensures
            final(self).wf(),
            final(self)@ == step_stalled(old(self)@),
    {
        if matches!(self.state, PlaybackState::Playing) {
            self.state = PlaybackState::Buffering;
        }
    }

    /// Takes the backend's report that the preview link could not be
    /// loaded or buffered: the machine stops and surfaces the error
    /// rather than staying stuck.
    pub fn load_failed(&mut self) -> (r: Option<PlaybackError>)
        requires
            old(self).wf(),
        ensures
            final(self).wf(),
            final(self)@ == step_load_failed(old(self)@),
            r == (if old(self)@.state is Loading || old(self)@.state is Buffering {
                Some(PlaybackError::LoadFailed)
            } else {
                None::<PlaybackError>
            }),
    {
        if matches!(self.state, PlaybackState::Loading | PlaybackState::Buffering) {
            self.state = PlaybackState::Stopped;
            self.active = None;
            self.resource_held = false;
            Some(PlaybackError::LoadFailed)
        } else {
            None
        }
    }

    /// Pauses playback. Effective exactly from `Playing`; elsewhere a
    /// no-op that reports `false`.
    pub fn pause(&mut self) -> (effective: bool)
        requires
            old(self).wf(),
        ensures
            final(self).wf(),
            final(self)@ == step_pause(old(self)@),
            effective == old(self)@.state is Playing,
    {
        if matches!(self.state, PlaybackState::Playing) {
            self.state = PlaybackState::Paused;
            true
        } else {
            false
        }
    }

    /// Resumes playback. Effective exactly from `Paused`; elsewhere a
    /// no-op that reports `false`.
    pub fn resume(&mut self) -> (effective: bool)
        requires
            old(self).wf(),
        ensures
            final(self).wf(),
            final(self)@ == step_resume(old(self)@),
            effective == old(self)@.state is Paused,
    {
        if matches!(self.state, PlaybackState::Paused) {
            self.state = PlaybackState::Playing;
            true
        } else {
            false
        }
    }

    /// One tap on a song's playback button: pauses when exactly that
    /// song is already audible, and otherwise activates it afresh
    /// (stopping whatever else was active).
    pub fn toggle_playback(&mut self, song: Song)
        requires
            old(self).wf(),
        ensures
            final(self).wf(),
            final(self)@ == step_toggle(old(self)@, song@),
    {
        if self.is_active_song(&song) && matches!(self.state, PlaybackState::Playing) {
            self.pause();
        } else {
            let _ = self.play(song);
        }
    }

    /// Stops playback from any state, releasing the output resource and
    /// forgetting the active song.
    pub fn stop(&mut self)
        requires
            old(self).wf(),
        ensures
            final(self).wf(),
            final(self)@ == step_stop(old(self)@),
    {
        self.state = PlaybackState::Stopped;
        self.active = None;
        self.resource_held = false;
    }
}

} // verus!
