//! The session controller: the single orchestrator of a recognition
//! attempt, from capture through upload to commit.
//!
//! One attempt runs at a time. Every attempt carries a generation token,
//! handed out when the attempt starts; completions from the capture and
//! recognition collaborators must present that token, and one belonging
//! to a generation the controller has left is discarded without any
//! effect. Cancellation is immediate and authoritative for the
//! controller's state, whatever the underlying I/O still does.
//!
//! Policy for a start request while an attempt is already running
//! (`Listening` or `Recognizing`): the request is rejected; the running
//! attempt is never cancelled implicitly.

use vstd::prelude::*;

use crate::error::{DeviceError, ErrorKind, SampleError};
use crate::history::{committed, unique_ids, HistoryStore};
use crate::recognizer::{
    interpret_response, interpretation, sample_ok, validate_sample, ProviderResponse,
    ResponseModel,
};
use crate::song::{Song, SongModel};

verus! {

/// Mathematical model of the controller's observable state.
pub ghost enum SessionStateModel {
    Idle,
    Listening,
    Recognizing,
    Recognized(SongModel),
    Failed(ErrorKind),
}

/// The controller's observable state: exactly one of these at any time,
/// changed only by the transitions below.
pub enum SessionState {
    /// No attempt is running.
    Idle,
    /// The recorder is capturing for the current attempt.
    Listening,
    /// The sample was sent; the provider's answer is awaited.
    Recognizing,
    /// The attempt ended in a recognized song, already committed.
    Recognized(Song),
    /// The attempt ended without a song; the kind says why.
    Failed(ErrorKind),
}

impl View for SessionState {
    type V = SessionStateModel;

    open spec fn view(&self) -> SessionStateModel {
        match self {
            SessionState::Idle => SessionStateModel::Idle,
            SessionState::Listening => SessionStateModel::Listening,
            SessionState::Recognizing => SessionStateModel::Recognizing,
            SessionState::Recognized(song) => SessionStateModel::Recognized(song@),
            SessionState::Failed(kind) => SessionStateModel::Failed(*kind),
        }
    }
}

/// Mathematical model of a [`SessionController`].
pub ghost struct SessionModel {
    pub state: SessionStateModel,
    /// The token of the current attempt; grows by one per started attempt.
    pub generation: int,
    /// The history's entries, front first.
    pub history: Seq<SongModel>,
}

/// Whether a start request is accepted in `s`: only while no attempt is
/// running, and only while a fresh generation token is still available.
pub open spec fn start_accepted(s: SessionModel) -> bool {
    &&& match s.state {
        SessionStateModel::Idle => true,
        SessionStateModel::Recognized(_) => true,
        SessionStateModel::Failed(_) => true,
        SessionStateModel::Listening => false,
        SessionStateModel::Recognizing => false,
    }
    &&& s.generation < u64::MAX
}

/// A start request: begins a fresh attempt under a fresh generation, or
/// is rejected without any effect.
pub open spec fn step_start(s: SessionModel) -> SessionModel {
    if start_accepted(s) {
        SessionModel { state: SessionStateModel::Listening, generation: s.generation + 1, ..s }
    } else {
        s
    }
}

/// A cancel request: authoritative and immediate while an attempt runs,
/// a no-op otherwise. The history is never touched.
pub open spec fn step_cancel(s: SessionModel) -> SessionModel {
    match s.state {
        SessionStateModel::Listening => SessionModel { state: SessionStateModel::Idle, ..s },
        SessionStateModel::Recognizing => SessionModel { state: SessionStateModel::Idle, ..s },
        _ => s,
    }
}

/// The error a locally refused sample reports.
pub open spec fn sample_error_of(sample: Seq<u8>) -> SampleError {
    if sample.len() == 0 {
        SampleError::Empty
    } else {
        SampleError::Oversized
    }
}

/// Capture completion for generation `generation`: accepted only while
/// listening for exactly that generation. A usable sample moves the
/// attempt to `Recognizing`; an unusable one fails the attempt locally;
/// anything stale is discarded.
pub open spec fn step_capture_completed(s: SessionModel, generation: int, sample: Seq<u8>) -> SessionModel {
    if s.state is Listening && generation == s.generation {
        if sample_ok(sample) {
            SessionModel { state: SessionStateModel::Recognizing, ..s }
        } else {
            SessionModel {
                state: SessionStateModel::Failed(ErrorKind::Sample(sample_error_of(sample))),
                ..s
            }
        }
    } else {
        s
    }
}

/// Capture failure for generation `generation`: fails the attempt while
/// listening for that generation, is discarded otherwise.
pub open spec fn step_capture_failed(s: SessionModel, generation: int, error: DeviceError) -> SessionModel {
    if s.state is Listening && generation == s.generation {
        SessionModel { state: SessionStateModel::Failed(ErrorKind::Device(error)), ..s }
    } else {
        s
    }
}

/// A provider response for generation `generation`, interpreted at time
/// `now`: accepted only while recognizing for exactly that generation.
/// A recognized song is committed to the history; every failure leaves
/// the history untouched; anything stale is discarded entirely.
pub open spec fn step_recognition(
    s: SessionModel,
    generation: int,
    resp: ResponseModel,
    now: u64,
) -> SessionModel {
    if s.state is Recognizing && generation == s.generation {
        match interpretation(resp, now) {
            Ok(song) => SessionModel {
                state: SessionStateModel::Recognized(song),
                history: committed(s.history, song),
                ..s
            },
            Err(e) => SessionModel {
                state: SessionStateModel::Failed(ErrorKind::Recognition(e)),
                ..s
            },
        }
    } else {
        s
    }
}

/// Acknowledging a terminal state returns the controller to `Idle`;
/// a no-op elsewhere.
pub open spec fn step_acknowledge(s: SessionModel) -> SessionModel {
    match s.state {
        SessionStateModel::Recognized(_) => SessionModel { state: SessionStateModel::Idle, ..s },
        SessionStateModel::Failed(_) => SessionModel { state: SessionStateModel::Idle, ..s },
        _ => s,
    }
}

/// Cancelling while listening is immediate and authoritative: the
/// controller is `Idle` with its history untouched, and whatever the
/// device still delivers for that attempt — data or a failure — is
/// discarded, so the cancelled attempt can never surface `Recognized`
/// or `Failed`.
pub proof fn lemma_cancel_listening_is_final(
    s: SessionModel,
    sample: Seq<u8>,
    error: DeviceError,
    resp: ResponseModel,
    now: u64,
)
    requires
        s.state is Listening,
    ensures
        step_cancel(s).state is Idle,
        step_cancel(s).history == s.history,
        step_capture_completed(step_cancel(s), s.generation, sample) == step_cancel(s),
        step_capture_failed(step_cancel(s), s.generation, error) == step_cancel(s),
        step_recognition(step_cancel(s), s.generation, resp, now) == step_cancel(s),
{
}

/// A recognition result belonging to a generation the controller has
/// left — or arriving in any state but `Recognizing` — changes nothing:
/// in particular it never mutates the history.
pub proof fn lemma_stale_result_discarded(
    s: SessionModel,
    generation: int,
    resp: ResponseModel,
    now: u64,
)
    requires
        !(s.state is Recognizing) || generation != s.generation,
    ensures
        step_recognition(s, generation, resp, now) == s,
{
}

/// A start request while an attempt is running is rejected and changes
/// nothing: at most one attempt is ever in flight.
pub proof fn lemma_start_while_busy_rejected(s: SessionModel)
    requires
        s.state is Listening || s.state is Recognizing,
    ensures
        !start_accepted(s),
        step_start(s) == s,
{
}

/// Each attempt reaches at most one terminal state: once a response for
/// the current generation has been taken, a second response for the same
/// generation is discarded.
pub proof fn lemma_one_terminal_state_per_attempt(
    s: SessionModel,
    first: ResponseModel,
    second: ResponseModel,
    now1: u64,
    now2: u64,
)
    requires
        s.state is Recognizing,
    ensures
        step_recognition(step_recognition(s, s.generation, first, now1), s.generation, second, now2)
            == step_recognition(s, s.generation, first, now1),
{
}

/// Drives one recognition attempt at a time and owns the history the
/// results are committed into.
pub struct SessionController {
    state: SessionState,
    generation: u64,
    history: HistoryStore,
}

impl View for SessionController {
    type V = SessionModel;

    closed spec fn view(&self) -> SessionModel {
        SessionModel {
            state: self.state@,
            generation: self.generation as int,
            history: self.history@,
        }
    }
}

impl SessionController {
    /// Well-formedness: the owned history is well-formed.
    pub open spec fn wf(&self) -> bool {
        unique_ids(self@.history)
    }

    /// A controller starting idle over the given history (as loaded at
    /// startup from the persistence collaborator).
    pub fn new(history: HistoryStore) -> (r: SessionController)
        requires
            history.wf(),
        ensures
            r.wf(),
            r@.state is Idle,
            r@.generation == 0,
            r@.history == history@,
    {
        SessionController { state: SessionState::Idle, generation: 0, history }
    }

    /// The observable state.
    pub fn state(&self) -> (r: &SessionState)
        ensures
            r@ == self@.state,
    {
        &self.state
    }

    /// The current generation token.
    pub fn generation(&self) -> (r: u64)
        ensures
            r as int == self@.generation,
    {
        self.generation
    }

    /// The history of recognized songs, for consumers.
    pub fn history(&self) -> (r: &HistoryStore)
        ensures
            r@ == self@.history,
    {
        &self.history
    }

    /// Requests a fresh attempt. Accepted only while no attempt runs
    /// (and while generation tokens remain, which a `u64` never runs out
    /// of in practice); the returned token identifies the new attempt
    /// and must accompany every completion for it. A rejected request
    /// changes nothing.
    pub fn request_start(&mut self) -> (token: Option<u64>)
        requires
            old(self).wf(),
        ensures
            final(self).wf(),
            final(self)@ == step_start(old(self)@),
            token is Some <==> start_accepted(old(self)@),
            match token {
                Some(g) => g as int == final(self)@.generation,
                None => true,
            },
    {
        match self.state {
            SessionState::Listening | SessionState::Recognizing => None,
            _ => {
                if self.generation < u64::MAX {
                    self.generation = self.generation + 1;
                    self.state = SessionState::Listening;
                    Some(self.generation)
                } else {
                    None
                }
            },
        }
    }

    /// Cancels the running attempt, immediately and authoritatively:
    /// the controller is `Idle` at once, and completions of the
    /// cancelled generation will be discarded. A no-op outside an
    /// attempt. The history is never touched.
    pub fn cancel(&mut self)
        requires
            old(self).wf(),
        ensures
            final(self).wf(),
            final(self)@ == step_cancel(old(self)@),
    {
        match self.state {
            SessionState::Listening | SessionState::Recognizing => {
                self.state = SessionState::Idle;
            },
            _ => {},
        }
    }

    /// Takes a completed capture for attempt `generation`. Returns the
    /// sample to upload when the attempt moves on to `Recognizing`;
    /// returns `None` when the sample was refused locally or the
    /// completion was stale and discarded.
    pub fn capture_completed(&mut self, generation: u64, sample: Vec<u8>) -> (send: Option<
        Vec<u8>,
    >)
        requires
            old(self).wf(),
        ensures
            final(self).wf(),
            final(self)@ == step_capture_completed(old(self)@, generation as int, sample@),
            match send {
                Some(s) => s@ == sample@,
                None => true,
            },
            send is Some <==> (old(self)@.state is Listening && generation as int == old(
                self,
            )@.generation && sample_ok(sample@)),
    {
        let listening = matches!(self.state, SessionState::Listening);
        if listening && generation == self.generation {
            match validate_sample(&sample) {
                Ok(()) => {
                    self.state = SessionState::Recognizing;
                    Some(sample)
                },
                Err(e) => {
                    self.state = SessionState::Failed(ErrorKind::Sample(e));
                    None
                },
            }
        } else {
            None
        }
    }

    /// Takes a capture failure for attempt `generation`: fails the
    /// attempt with the device's error kind, or discards a stale report.
    pub fn capture_failed(&mut self, generation: u64, error: DeviceError)
        requires
            old(self).wf(),
        ensures
            final(self).wf(),
            final(self)@ == step_capture_failed(old(self)@, generation as int, error),
    {
        let listening = matches!(self.state, SessionState::Listening);
        if listening && generation == self.generation {
            self.state = SessionState::Failed(ErrorKind::Device(error));
        }
    }

    /// Takes the provider's response for attempt `generation`,
    /// interpreted at time `now`. A recognized song is committed into
    /// the history and surfaced as `Recognized`; a failure becomes
    /// `Failed` with its kind and leaves the history untouched; a stale
    /// response — the controller has left `Recognizing`, or the token
    /// does not match — is discarded without any effect at all.
    pub fn recognition_finished(&mut self, generation: u64, resp: ProviderResponse, now: u64)
        requires
            old(self).wf(),
        ensures
            final(self).wf(),
            final(self)@ == step_recognition(old(self)@, generation as int, resp@, now),
    {
        let recognizing = matches!(self.state, SessionState::Recognizing);
        if recognizing && generation == self.generation {
            match interpret_response(resp, now) {
                Ok(song) => {
                    self.history.commit(song.clone());
                    self.state = SessionState::Recognized(song);
                },
                Err(e) => {
                    self.state = SessionState::Failed(ErrorKind::Recognition(e));
                },
            }
        }
    }

    /// Acknowledges a terminal state, returning the controller to
    /// `Idle`. A no-op elsewhere.
    pub fn acknowledge(&mut self)
        requires
            old(self).wf(),
        ensures
            final(self).wf(),
            final(self)@ == step_acknowledge(old(self)@),
    {
        match self.state {
            SessionState::Recognized(_) | SessionState::Failed(_) => {
                self.state = SessionState::Idle;
            },
            _ => {},
        }
    }
}

} // verus!
