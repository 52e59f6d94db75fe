//! The recognition client's local half: which samples may be sent at all,
//! and how a provider's already-parsed response becomes a [`Song`] or a
//! typed failure.
//!
//! The network round trip itself is an external collaborator; the
//! transport layer hands this module a [`ProviderResponse`] of plain
//! values, exactly one per request. Recognition is not idempotent and the
//! client neither caches nor retries: retry policy belongs to the session
//! controller.

use vstd::prelude::*;

use crate::error::{RecognitionError, SampleError};
use crate::song::{Song, SongModel};

verus! {

/// The provider's ceiling on sample size, in bytes: larger samples are
/// refused locally instead of being sent.
pub const MAX_SAMPLE_BYTES: usize = 1048576;

/// Whether a captured sample may be sent: non-empty and within the
/// provider's size ceiling.
pub open spec fn sample_ok(sample: Seq<u8>) -> bool {
    0 < sample.len() <= MAX_SAMPLE_BYTES
}

/// Mathematical model of a [`ProviderMatch`].
pub ghost struct MatchModel {
    pub id: Option<Seq<char>>,
    pub title: Option<Seq<char>>,
    pub artist: Option<Seq<char>>,
    pub album_art_link: Option<Seq<char>>,
    pub preview_link: Option<Seq<char>>,
}

/// Mathematical model of a [`ProviderResponse`].
pub ghost enum ResponseModel {
    Match(MatchModel),
    NoMatch,
    Rejected,
    TransportFailure,
    Malformed,
}

/// The metadata fields of a provider response that announced a match.
/// Every field is optional here: whether the response is usable is
/// decided by [`interpret_response`], not by the transport layer.
pub struct ProviderMatch {
    pub id: Option<String>,
    pub title: Option<String>,
    pub artist: Option<String>,
    pub album_art_link: Option<String>,
    pub preview_link: Option<String>,
}

/// A provider response as the transport layer delivers it, already
/// parsed into plain values.
pub enum ProviderResponse {
    /// The provider announced a match, with whatever fields it supplied.
    Match(ProviderMatch),
    /// The provider understood the sample and found nothing.
    NoMatch,
    /// The provider refused the request (quota, authentication).
    Rejected,
    /// The request never completed: the transport failed.
    TransportFailure,
    /// The provider's answer could not be parsed at all.
    Malformed,
}

pub open spec fn link_model(link: Option<String>) -> Option<Seq<char>> {
    match link {
        Some(s) => Some(s@),
        None => None,
    }
}

impl View for ProviderMatch {
    type V = MatchModel;

    open spec fn view(&self) -> MatchModel {
        MatchModel {
            id: link_model(self.id),
            title: link_model(self.title),
            artist: link_model(self.artist),
            album_art_link: link_model(self.album_art_link),
            preview_link: link_model(self.preview_link),
        }
    }
}

impl View for ProviderResponse {
    type V = ResponseModel;

    open spec fn view(&self) -> ResponseModel {
        match self {
            ProviderResponse::Match(m) => ResponseModel::Match(m@),
            ProviderResponse::NoMatch => ResponseModel::NoMatch,
            ProviderResponse::Rejected => ResponseModel::Rejected,
            ProviderResponse::TransportFailure => ResponseModel::TransportFailure,
            ProviderResponse::Malformed => ResponseModel::Malformed,
        }
    }
}

/// What interpreting a response yields, stated over models: a match with
/// a non-empty identifier and a title becomes a song recognized at `now`
/// and flagged as new; a missing or empty identifier or a missing title
/// is an invalid response; the artist defaults to empty; the remaining
/// outcomes map one-to-one onto [`RecognitionError`].
pub open spec fn interpretation(resp: ResponseModel, now: u64) -> Result<
    SongModel,
    RecognitionError,
> {
    match resp {
        ResponseModel::Match(m) => match (m.id, m.title) {
            (Some(id), Some(title)) => if id.len() > 0 {
                Ok(
                    SongModel {
                        id: id,
                        title: title,
                        artist: match m.artist {
                            Some(a) => a,
                            None => Seq::empty(),
                        },
                        album_art_link: m.album_art_link,
                        preview_link: m.preview_link,
                        recognized_at: now,
                        is_newly_recognized: true,
                    },
                )
            } else {
                Err(RecognitionError::InvalidResponse)
            },
            _ => Err(RecognitionError::InvalidResponse),
        },
        ResponseModel::NoMatch => Err(RecognitionError::NoMatch),
        ResponseModel::Rejected => Err(RecognitionError::ProviderRejected),
        ResponseModel::TransportFailure => Err(RecognitionError::Network),
        ResponseModel::Malformed => Err(RecognitionError::InvalidResponse),
    }
}

/// A song-or-error result, as its model.
pub open spec fn song_result_model(r: Result<Song, RecognitionError>) -> Result<
    SongModel,
    RecognitionError,
> {
    match r {
        Ok(s) => Ok(s@),
        Err(e) => Err(e),
    }
}

/// Decides locally whether a captured sample may be sent at all:
/// an empty capture and one over the provider's ceiling each fail fast
/// with their own kind, and are never transmitted.
pub fn validate_sample(sample: &Vec<u8>) -> (r: Result<(), SampleError>)
    ensures
        r is Ok <==> sample_ok(sample@),
        sample@.len() == 0 ==> r == Err::<(), SampleError>(SampleError::Empty),
        sample@.len() > MAX_SAMPLE_BYTES ==> r == Err::<(), SampleError>(SampleError::Oversized),
{
    if sample.len() == 0 {
        Err(SampleError::Empty)
    } else if sample.len() > MAX_SAMPLE_BYTES {
        Err(SampleError::Oversized)
    } else {
        Ok(())
    }
}

/// Adapts a provider response into a [`Song`] recognized at `now`, or
/// the error it stands for, exactly as [`interpretation`] states.
pub fn interpret_response(resp: ProviderResponse, now: u64) -> (r: Result<Song, RecognitionError>)
    ensures
        song_result_model(r) == interpretation(resp@, now),
{
    match resp {
        ProviderResponse::Match(m) => match (m.id, m.title) {
            (Some(id), Some(title)) => if !id.as_str().is_empty() {
                Ok(
                    Song {
                        id,
                        title,
                        artist: match m.artist {
                            Some(a) => a,
                            None => String::new(),
                        },
                        album_art_link: m.album_art_link,
                        preview_link: m.preview_link,
                        recognized_at: now,
                        is_newly_recognized: true,
                    },
                )
            } else {
                Err(RecognitionError::InvalidResponse)
            },
            _ => Err(RecognitionError::InvalidResponse),
        },
        ProviderResponse::NoMatch => Err(RecognitionError::NoMatch),
        ProviderResponse::Rejected => Err(RecognitionError::ProviderRejected),
        ProviderResponse::TransportFailure => Err(RecognitionError::Network),
        ProviderResponse::Malformed => Err(RecognitionError::InvalidResponse),
    }
}

} // verus!
