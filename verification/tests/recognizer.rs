use mousai::error::{RecognitionError, SampleError};
use mousai::recognizer::{
    interpret_response, validate_sample, ProviderMatch, ProviderResponse, MAX_SAMPLE_BYTES,
};

fn full_match() -> ProviderMatch {
    ProviderMatch {
        id: Some("id-1".to_string()),
        title: Some("Title".to_string()),
        artist: Some("Artist".to_string()),
        album_art_link: Some("https://example.net/art".to_string()),
        preview_link: Some("https://example.net/clip".to_string()),
    }
}

#[test]
fn empty_sample_is_refused_before_sending() {
    assert_eq!(validate_sample(&vec![]), Err(SampleError::Empty));
}

#[test]
fn oversized_sample_is_refused_before_sending() {
    let sample = vec![0u8; MAX_SAMPLE_BYTES + 1];
    assert_eq!(validate_sample(&sample), Err(SampleError::Oversized));
}

#[test]
fn sample_at_the_ceiling_is_accepted() {
    let sample = vec![0u8; MAX_SAMPLE_BYTES];
    assert_eq!(validate_sample(&sample), Ok(()));
    assert_eq!(validate_sample(&vec![1]), Ok(()));
}

#[test]
fn complete_match_becomes_a_new_song() {
    let song = interpret_response(ProviderResponse::Match(full_match()), 1234).unwrap();
    assert_eq!(song.id, "id-1");
    assert_eq!(song.title, "Title");
    assert_eq!(song.artist, "Artist");
    assert_eq!(song.album_art_link, Some("https://example.net/art".to_string()));
    assert_eq!(song.preview_link, Some("https://example.net/clip".to_string()));
    assert_eq!(song.recognized_at, 1234);
    assert!(song.is_newly_recognized);
}

#[test]
fn missing_artist_defaults_to_empty() {
    let mut m = full_match();
    m.artist = None;
    let song = interpret_response(ProviderResponse::Match(m), 0).unwrap();
    assert_eq!(song.artist, "");
}

#[test]
fn match_without_identifier_is_invalid() {
    let mut m = full_match();
    m.id = None;
    let r = interpret_response(ProviderResponse::Match(m), 0);
    assert_eq!(r.unwrap_err(), RecognitionError::InvalidResponse);
}

#[test]
fn match_with_empty_identifier_is_invalid() {
    let mut m = full_match();
    m.id = Some(String::new());
    let r = interpret_response(ProviderResponse::Match(m), 0);
    assert_eq!(r.unwrap_err(), RecognitionError::InvalidResponse);
}

#[test]
fn match_without_title_is_invalid() {
    let mut m = full_match();
    m.title = None;
    let r = interpret_response(ProviderResponse::Match(m), 0);
    assert_eq!(r.unwrap_err(), RecognitionError::InvalidResponse);
}

#[test]
fn negative_and_error_outcomes_map_one_to_one() {
    assert_eq!(
        interpret_response(ProviderResponse::NoMatch, 0).unwrap_err(),
        RecognitionError::NoMatch
    );
    assert_eq!(
        interpret_response(ProviderResponse::Rejected, 0).unwrap_err(),
        RecognitionError::ProviderRejected
    );
    assert_eq!(
        interpret_response(ProviderResponse::TransportFailure, 0).unwrap_err(),
        RecognitionError::Network
    );
    assert_eq!(
        interpret_response(ProviderResponse::Malformed, 0).unwrap_err(),
        RecognitionError::InvalidResponse
    );
}
