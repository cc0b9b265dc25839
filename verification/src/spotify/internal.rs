//! Utility types used for upstream catalog interactions, but not exported
//! outside the [`crate::spotify`] module family.

use vstd::prelude::*;

use crate::spotify::types::{AlbumSimplified, Artist, Item, Track};

verus! {

/// The shape in which items arrive from the upstream API. It mirrors [`Item`]
/// variant for variant; the wire layer produces this type and the rest of the
/// crate works with [`Item`].
#[derive(Clone, Debug)]
pub enum ItemDeserialize {
    Track(Track),
    Album(AlbumSimplified),
    Artist(Artist),
}

impl From<ItemDeserialize> for Item {
    /// Convert a wire-shaped item to the item type used everywhere else;
    /// the payload is carried over unchanged.
    fn from(other: ItemDeserialize) -> (r: Item) {
        match other {
            ItemDeserialize::Track(track) => Item::Track(track),
            ItemDeserialize::Album(album) => Item::Album(album),
            ItemDeserialize::Artist(artist) => Item::Artist(artist),
        }
    }
}

impl vstd::std_specs::convert::FromSpecImpl<ItemDeserialize> for Item {
    open spec fn obeys_from_spec() -> bool {
        true
    }

    open spec fn from_spec(other: ItemDeserialize) -> Item {
        match other {
            ItemDeserialize::Track(track) => Item::Track(track),
            ItemDeserialize::Album(album) => Item::Album(album),
            ItemDeserialize::Artist(artist) => Item::Artist(artist),
        }
    }
}

} // verus!
