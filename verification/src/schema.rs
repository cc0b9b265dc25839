//! Wire types of the plain REST surface. The catalog types themselves live
//! in [`crate::spotify::types`]; here are only the shapes that exist for
//! serialization across that surface.

use vstd::prelude::*;

use crate::spotify::types::{Image, Track};

verus! {

/// The authenticated user's profile, as sent over the wire.
#[derive(Clone, Debug)]
pub struct CurrentUser {
    pub id: String,
    pub href: String,
    pub uri: String,
    pub display_name: Option<String>,
    pub images: Vec<Image>,
}

/// An external-ids object: a map of id systems to ids, kept as pairs.
#[derive(Clone, Debug)]
pub struct ExternalIds(pub Vec<(String, String)>);

/// A track link object.
#[derive(Clone, Debug)]
pub struct TrackLink {
    pub href: String,
    pub id: String,
    pub uri: String,
}

/// A track search result: one page of tracks.
#[derive(Clone, Debug)]
pub struct TracksSearchResponse {
    pub tracks: crate::spotify::types::PaginatedResponse<Track>,
}

/// A track annotated with its tag metadata.
#[derive(Clone, Debug)]
pub struct TaggedTrack {
    pub track: Track,
    pub tags: Vec<String>,
}

/// Summary information for a tag.
#[derive(Clone, Debug)]
pub struct TagSummary {
    pub tag: String,
    /// The number of tracks that have this tag assigned.
    pub num_tracks: usize,
}

/// Details for a tag.
#[derive(Clone, Debug)]
pub struct TagDetails {
    pub tag: String,
    /// All tracks with this tag.
    pub tracks: Vec<TaggedTrack>,
}

/// Input body for tagging a track.
#[derive(Clone, Debug)]
pub struct CreateTagBody {
    pub tag: String,
}

impl crate::util::Validate for CreateTagBody {
    type Output = crate::graphql::tag::Tag;

    /// The tag text must be non-empty.
    fn validate(self, field: &str) -> (r: Result<
        crate::graphql::tag::Tag,
        crate::error::InputValidationError,
    >) {
        match crate::graphql::tag::Tag::parse(self.tag.as_str()) {
            Ok(tag) => Ok(tag),
            Err(_) => Err(crate::error::InputValidationError {
                field: field.to_owned(),
                message: String::from_str("Tag cannot be empty"),
            }),
        }
    }
}

} // verus!
