use mousai::error::{DeviceError, ErrorKind, RecognitionError, SampleError};
use mousai::history::HistoryStore;
use mousai::recognizer::{ProviderMatch, ProviderResponse};
use mousai::session::{SessionController, SessionState};

fn controller() -> SessionController {
    SessionController::new(HistoryStore::new())
}

fn match_response(id: &str, title: &str) -> ProviderResponse {
    ProviderResponse::Match(ProviderMatch {
        id: Some(id.to_string()),
        title: Some(title.to_string()),
        artist: Some("Artist".to_string()),
        album_art_link: None,
        preview_link: Some("https://example.net/clip".to_string()),
    })
}

#[test]
fn full_attempt_commits_the_recognized_song() {
    let mut c = controller();
    let token = c.request_start().expect("start from idle is accepted");
    assert!(matches!(c.state(), SessionState::Listening));

    let sample = c
        .capture_completed(token, vec![1, 2, 3, 4])
        .expect("a usable sample moves on to recognition");
    assert_eq!(sample, vec![1, 2, 3, 4]);
    assert!(matches!(c.state(), SessionState::Recognizing));

    c.recognition_finished(token, match_response("song-1", "Title"), 777);
    match c.state() {
        SessionState::Recognized(song) => {
            assert_eq!(song.id, "song-1");
            assert_eq!(song.title, "Title");
            assert_eq!(song.recognized_at, 777);
            assert!(song.is_newly_recognized);
        }
        other => panic!("expected Recognized, got {:?}", state_name(other)),
    }
    assert_eq!(c.history().len(), 1);
    assert_eq!(c.history().get(0).id, "song-1");

    c.acknowledge();
    assert!(matches!(c.state(), SessionState::Idle));
}

fn state_name(state: &SessionState) -> &'static str {
    match state {
        SessionState::Idle => "Idle",
        SessionState::Listening => "Listening",
        SessionState::Recognizing => "Recognizing",
        SessionState::Recognized(_) => "Recognized",
        SessionState::Failed(_) => "Failed",
    }
}

#[test]
fn cancel_while_listening_is_final_for_that_attempt() {
    let mut c = controller();
    let token = c.request_start().unwrap();
    assert!(matches!(c.state(), SessionState::Listening));

    c.cancel();
    assert!(matches!(c.state(), SessionState::Idle));

    // The device later delivers data for the cancelled attempt: discarded.
    assert!(c.capture_completed(token, vec![9, 9, 9]).is_none());
    assert!(matches!(c.state(), SessionState::Idle));

    // A late device failure for the cancelled attempt: discarded too.
    c.capture_failed(token, DeviceError::Hardware);
    assert!(matches!(c.state(), SessionState::Idle));
    assert_eq!(c.history().len(), 0);
}

#[test]
fn stale_recognition_result_never_mutates_history() {
    let mut c = controller();
    let token = c.request_start().unwrap();
    c.capture_completed(token, vec![1, 2, 3]).unwrap();
    assert!(matches!(c.state(), SessionState::Recognizing));

    // The user cancels while the request is in flight.
    c.cancel();
    assert!(matches!(c.state(), SessionState::Idle));

    // The provider's answer arrives afterwards: generation mismatch, dropped.
    c.recognition_finished(token, match_response("late", "Late"), 1);
    assert!(matches!(c.state(), SessionState::Idle));
    assert_eq!(c.history().len(), 0);

    // Even a fresh attempt ignores the old token.
    let token2 = c.request_start().unwrap();
    assert_ne!(token, token2);
    c.capture_completed(token2, vec![5]).unwrap();
    c.recognition_finished(token, match_response("late", "Late"), 2);
    assert!(matches!(c.state(), SessionState::Recognizing));
    assert_eq!(c.history().len(), 0);
}

#[test]
fn silence_with_no_match_fails_without_touching_history() {
    let mut c = controller();
    let token = c.request_start().unwrap();

    // Five seconds of silence at 8 kHz, one byte per sample.
    let silence = vec![0u8; 5 * 8000];
    c.capture_completed(token, silence).unwrap();
    assert!(matches!(c.state(), SessionState::Recognizing));

    c.recognition_finished(token, ProviderResponse::NoMatch, 42);
    match c.state() {
        SessionState::Failed(kind) => {
            assert_eq!(*kind, ErrorKind::Recognition(RecognitionError::NoMatch));
        }
        other => panic!("expected Failed, got {:?}", state_name(other)),
    }
    assert_eq!(c.history().len(), 0);
}

#[test]
fn second_start_while_recognizing_is_rejected() {
    let mut c = controller();
    let token = c.request_start().unwrap();
    c.capture_completed(token, vec![1]).unwrap();
    assert!(matches!(c.state(), SessionState::Recognizing));

    // Two rapid start requests while the attempt is still in flight.
    assert!(c.request_start().is_none());
    assert!(c.request_start().is_none());
    assert!(matches!(c.state(), SessionState::Recognizing));

    // The running attempt still reaches exactly one terminal state.
    c.recognition_finished(token, match_response("one", "One"), 3);
    assert!(matches!(c.state(), SessionState::Recognized(_)));
    assert_eq!(c.history().len(), 1);

    // A second response for the same attempt is discarded.
    c.recognition_finished(token, match_response("two", "Two"), 4);
    assert!(matches!(c.state(), SessionState::Recognized(_)));
    assert_eq!(c.history().len(), 1);
    assert_eq!(c.history().get(0).id, "one");
}

#[test]
fn empty_capture_fails_locally() {
    let mut c = controller();
    let token = c.request_start().unwrap();
    assert!(c.capture_completed(token, vec![]).is_none());
    match c.state() {
        SessionState::Failed(kind) => {
            assert_eq!(*kind, ErrorKind::Sample(SampleError::Empty));
        }
        _ => panic!("expected Failed"),
    }
    assert_eq!(c.history().len(), 0);
}

#[test]
fn device_failure_fails_the_attempt() {
    let mut c = controller();
    let token = c.request_start().unwrap();
    c.capture_failed(token, DeviceError::PermissionDenied);
    match c.state() {
        SessionState::Failed(kind) => {
            assert_eq!(*kind, ErrorKind::Device(DeviceError::PermissionDenied));
        }
        _ => panic!("expected Failed"),
    }
    // The attempt can be acknowledged and a new one started.
    c.acknowledge();
    assert!(matches!(c.state(), SessionState::Idle));
    assert!(c.request_start().is_some());
}

#[test]
fn start_is_accepted_from_terminal_states() {
    let mut c = controller();
    let token = c.request_start().unwrap();
    c.capture_failed(token, DeviceError::Unavailable);
    assert!(matches!(c.state(), SessionState::Failed(_)));
    // Starting again straight from the terminal state is allowed.
    let token2 = c.request_start().unwrap();
    assert!(matches!(c.state(), SessionState::Listening));
    assert!(token2 > token);
}
