use vstd::prelude::*;

verus! {

/// The mathematical value of a [`Track`]: its title and its source locator.
pub struct TrackModel {
    pub title: Seq<char>,
    pub source: Seq<char>,
}

/// One playable item: a display title and a locator that the audio backend
/// resolves into a stream. Tracks have no identity beyond their value.
pub struct Track {
    pub title: String,
    pub source: String,
}

impl View for Track {
    type V = TrackModel;

    open spec fn view(&self) -> TrackModel {
        TrackModel { title: self.title@, source: self.source@ }
    }
}

impl Track {
    /// Builds a track from its title and its source locator.
    pub fn new(title: String, source: String) -> (r: Track)
        ensures
            r@ == (TrackModel { title: title@, source: source@ }),
    {
        Track { title, source }
    }

    /// A copy of this track.
    pub fn duplicate(&self) -> (r: Track)
        ensures
            r@ == self@,
    {
        Track { title: self.title.clone(), source: self.source.clone() }
    }

    /// The display title.
    pub fn title(&self) -> (r: &String)
        ensures
            r@ == self@.title,
    {
        &self.title
    }

    /// The source locator.
    pub fn source(&self) -> (r: &String)
        ensures
            r@ == self@.source,
    {
        &self.source
    }
}

} // verus!

verus! {

/// The value of an optional track.
pub open spec fn view_opt(t: Option<Track>) -> Option<TrackModel> {
    match t {
        Some(t) => Some(t@),
        None => None,
    }
}

/// The values of a sequence of tracks, in order.
pub open spec fn view_seq(ts: Seq<Track>) -> Seq<TrackModel> {
    ts.map_values(|t: Track| t@)
}

} // verus!
