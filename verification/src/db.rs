//! The document-store schema of tagged items, and the pure regrouping of
//! fetched documents by item type. The queries themselves run outside this
//! crate; what they return is plain documents, handled here.

use vstd::prelude::*;

use crate::auth::UserId;
use crate::graphql::tag::Tag;
use crate::spotify::types::{SpotifyItemType, SpotifyUri};

verus! {

/// A stored document associating one user's tags with one catalog item. Only
/// the URI is stored, never item data: that is re-fetched live from the
/// catalog whenever it is needed.
#[derive(Clone, Debug)]
pub struct TaggedItemDocument {
    pub user_id: UserId,
    pub tags: Vec<Tag>,
    pub uri: SpotifyUri,
}

/// The lookup entries of the documents whose URI has type `t`, in document
/// order: each document's URI paired with its tags.
pub open spec fn entries_of_type(docs: Seq<TaggedItemDocument>, t: SpotifyItemType) -> Seq<
    (SpotifyUri, Vec<Tag>),
>
    decreases docs.len(),
{
    if docs.len() == 0 {
        Seq::empty()
    } else {
        let rest = entries_of_type(docs.drop_last(), t);
        if docs.last().uri.item_type_spec() == t {
            rest.push((docs.last().uri, docs.last().tags))
        } else {
            rest
        }
    }
}

impl TaggedItemDocument {
    /// Split fetched documents into one tag-lookup table per taggable item
    /// type (tracks, albums, artists, in that order), each keeping document
    /// order. Documents for any other item type are dropped.
    pub fn group_tags(docs: Vec<TaggedItemDocument>) -> (r: (
        Vec<(SpotifyUri, Vec<Tag>)>,
        Vec<(SpotifyUri, Vec<Tag>)>,
        Vec<(SpotifyUri, Vec<Tag>)>,
    ))
        ensures
            r.0@ == entries_of_type(docs@, SpotifyItemType::Track),
            r.1@ == entries_of_type(docs@, SpotifyItemType::Album),
            r.2@ == entries_of_type(docs@, SpotifyItemType::Artist),
    {
        let ghost orig = docs@;
        let n = docs.len();
        proof {
            assert(orig.len() <= usize::MAX) by {
                assert(n == orig.len());
            }
        }
        let mut rest = docs;
        let mut tracks: Vec<(SpotifyUri, Vec<Tag>)> = Vec::new();
        let mut albums: Vec<(SpotifyUri, Vec<Tag>)> = Vec::new();
        let mut artists: Vec<(SpotifyUri, Vec<Tag>)> = Vec::new();
        let mut k: usize = 0;
        while rest.len() > 0
            invariant
                k <= orig.len() <= usize::MAX,
                k + rest@.len() == orig.len(),
                forall|i: int| 0 <= i < rest@.len() ==> rest@[i] == orig[k + i],
                tracks@ == entries_of_type(orig.take(k as int), SpotifyItemType::Track),
                albums@ == entries_of_type(orig.take(k as int), SpotifyItemType::Album),
                artists@ == entries_of_type(orig.take(k as int), SpotifyItemType::Artist),
            decreases rest@.len(),
        {
            let doc = rest.remove(0);
            proof {
                assert(orig.take(k + 1).drop_last() =~= orig.take(k as int));
                assert(orig.take(k + 1).last() == orig[k as int]);
            }
            match doc.uri.item_type() {
                SpotifyItemType::Track => tracks.push((doc.uri, doc.tags)),
                SpotifyItemType::Album => albums.push((doc.uri, doc.tags)),
                SpotifyItemType::Artist => artists.push((doc.uri, doc.tags)),
                SpotifyItemType::User => {},
            }
            k += 1;
        }
        proof {
            assert(orig.take(orig.len() as int) =~= orig);
        }
        (tracks, albums, artists)
    }
}

} // verus!
