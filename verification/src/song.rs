//! Catalog entry: identity and metadata for one playable item.

use vstd::prelude::*;

verus! {

/// Domain model for a song. The engine reads it and never mutates it;
/// `id` is caller-assigned and immutable once created. `duration` is the
/// track length in milliseconds.
#[derive(Debug, PartialEq)]
pub struct Song {
    pub id: String,
    pub title: String,
    pub artist: String,
    pub album: String,
    pub duration: u64,
    pub file_path: String,
}

impl Clone for Song {
    /// A clone carries exactly the same identity and metadata.
    fn clone(&self) -> (res: Self)
        ensures
            res == self,
    {
        Song {
            id: self.id.clone(),
            title: self.title.clone(),
            artist: self.artist.clone(),
            album: self.album.clone(),
            duration: self.duration,
            file_path: self.file_path.clone(),
        }
    }
}

} // verus!
