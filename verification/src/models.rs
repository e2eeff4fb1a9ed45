//! The records of the catalogue.

use vstd::prelude::*;
use crate::ident::{fresh_id, is_entry_id};

verus! {

/// Where the user stands with a show.
#[derive(Debug, Clone, Copy, PartialEq, Eq, Structural)]
pub enum AnimeStatus {
    Completed,
    Dropped,
    Waiting,
    /// No status has been chosen.
    Unset,
}

/// An entry of the catalogue.
///
/// `score` holds the rating as the bit pattern of a binary64 number, so that
/// any rating is kept exactly as it was given.
#[derive(Debug, Clone)]
pub struct Anime {
    pub id: String,
    pub name: String,
    pub score: u64,
    pub review: String,
    pub link: String,
    pub status: AnimeStatus,
}

/// The mathematical value of an [`Anime`].
pub struct AnimeView {
    pub id: Seq<char>,
    pub name: Seq<char>,
    pub score: u64,
    pub review: Seq<char>,
    pub link: Seq<char>,
    pub status: AnimeStatus,
}

impl View for Anime {
    type V = AnimeView;

    open spec fn view(&self) -> AnimeView {
        AnimeView {
            id: self.id@,
            name: self.name@,
            score: self.score,
            review: self.review@,
            link: self.link@,
            status: self.status,
        }
    }
}

impl Anime {
    /// Makes an entry with the given fields and a fresh identifier.
    pub fn new(name: String, score: u64, review: String, link: String, status: AnimeStatus) -> (r:
        Anime)
        ensures
            is_entry_id(r.id@),
            r@ == (AnimeView {
                id: r.id@,
                name: name@,
                score,
                review: review@,
                link: link@,
                status,
            }),
    {
        Anime { id: fresh_id(), name, score, review, link, status }
    }
}

/// A cover image as it was fetched, keyed by the link of the page it came from.
#[derive(Debug, Clone)]
pub struct AnimeImage {
    pub link: String,
    pub image_data: Vec<u8>,
    pub content_type: String,
}

/// The mathematical value of an [`AnimeImage`].
pub struct ImageView {
    pub link: Seq<char>,
    pub image_data: Seq<u8>,
    pub content_type: Seq<char>,
}

impl View for AnimeImage {
    type V = ImageView;

    open spec fn view(&self) -> ImageView {
        ImageView {
            link: self.link@,
            image_data: self.image_data@,
            content_type: self.content_type@,
        }
    }
}

} // verus!
