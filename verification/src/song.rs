//! The song record: metadata fixed at recognition time plus one mutable
//! local flag. Two records with the same identifier denote the same
//! logical song; the history store merges them rather than keeping both.

use vstd::prelude::*;

verus! {

/// Mathematical model of a [`Song`]: every field as a plain spec value.
pub ghost struct SongModel {
    pub id: Seq<char>,
    pub title: Seq<char>,
    pub artist: Seq<char>,
    pub album_art_link: Option<Seq<char>>,
    pub preview_link: Option<Seq<char>>,
    /// When the song was recognized, in seconds of the caller's clock.
    pub recognized_at: u64,
    pub is_newly_recognized: bool,
}

/// A recognized song, or a placeholder for a failed recognition.
///
/// Identity is the opaque `id`; all other metadata is descriptive.
/// `is_newly_recognized` is a transient flag, set when the song enters the
/// history through a fresh recognition and cleared once a consumer has
/// observed it.
#[derive(Debug)]
pub struct Song {
    pub id: String,
    pub title: String,
    pub artist: String,
    pub album_art_link: Option<String>,
    pub preview_link: Option<String>,
    pub recognized_at: u64,
    pub is_newly_recognized: bool,
}

impl View for Song {
    type V = SongModel;

    open spec fn view(&self) -> SongModel {
        SongModel {
            id: self.id@,
            title: self.title@,
            artist: self.artist@,
            album_art_link: match self.album_art_link {
                Some(s) => Some(s@),
                None => None,
            },
            preview_link: match self.preview_link {
                Some(s) => Some(s@),
                None => None,
            },
            recognized_at: self.recognized_at,
            is_newly_recognized: self.is_newly_recognized,
        }
    }
}

impl Clone for Song {
    fn clone(&self) -> (res: Song)
        ensures
            res@ == self@,
    {
        Song {
            id: self.id.clone(),
            title: self.title.clone(),
            artist: self.artist.clone(),
            album_art_link: clone_link(&self.album_art_link),
            preview_link: clone_link(&self.preview_link),
            recognized_at: self.recognized_at,
            is_newly_recognized: self.is_newly_recognized,
        }
    }
}

/// Clones an optional link, preserving its value.
fn clone_link(link: &Option<String>) -> (res: Option<String>)
    ensures
        match (link, &res) {
            (Some(a), Some(b)) => a@ == b@,
            (None, None) => true,
            _ => false,
        },
{
    match link {
        Some(s) => Some(s.clone()),
        None => None,
    }
}

impl Song {
    /// Whether `self` and `other` denote the same logical song:
    /// equality is defined by identifier alone.
    pub fn same_song(&self, other: &Song) -> (r: bool)
        ensures
            r == (self@.id == other@.id),
    {
        self.id == other.id
    }

    /// Whether this record carries the given identifier.
    pub fn has_id(&self, id: &String) -> (r: bool)
        ensures
            r == (self@.id == id@),
    {
        self.id == *id
    }
}

} // verus!
