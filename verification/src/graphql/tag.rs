//! User-created tags and the connections that page through them.

use vstd::prelude::*;

use crate::error::ParseError;
use crate::graphql::internal::GenericEdge;
use crate::graphql::pagination::PageInfo;
use crate::spotify::types::SpotifyUri;

verus! {

/// A user-created tag. Tags have a many-to-many relationship with catalog
/// items; all tag data lives in the local document store.
#[derive(Debug)]
pub struct Tag(String);

impl Tag {
    /// The text of this tag.
    pub closed spec fn tag_spec(self) -> Seq<char> {
        self.0@
    }

    pub fn new(tag: String) -> (r: Tag)
        ensures
            r.tag_spec() == tag@,
    {
        Tag(tag)
    }

    pub fn tag(&self) -> (r: &str)
        ensures
            r@ == self.tag_spec(),
    {
        self.0.as_str()
    }

    /// Parse user input as a tag; only the empty string is rejected.
    pub fn parse(s: &str) -> (r: Result<Tag, ParseError>)
        ensures
            match r {
                Ok(t) => s@.len() > 0 && t.tag_spec() == s@,
                Err(_) => s@.len() == 0,
            },
    {
        if s.unicode_len() == 0 {
            Err(ParseError {
                message: String::from_str("Tag cannot be empty"),
                value: s.to_owned(),
            })
        } else {
            Ok(Tag(s.to_owned()))
        }
    }
}

impl Clone for Tag {
    /// Cloning preserves the tag exactly.
    fn clone(&self) -> (r: Tag)
        ensures
            r == *self,
    {
        Tag(self.0.clone())
    }
}

impl PartialEq for Tag {
    fn eq(&self, other: &Tag) -> (r: bool) {
        self.0 == other.0
    }
}

impl Eq for Tag {}

impl vstd::std_specs::cmp::PartialEqSpecImpl for Tag {
    open spec fn obeys_eq_spec() -> bool {
        true
    }

    open spec fn eq_spec(&self, other: &Tag) -> bool {
        self.tag_spec() == other.tag_spec()
    }
}

/// A tag with the items it is applied to. The item URIs can be preloaded
/// (`Some`) or left to be fetched from the document store when first needed
/// (`None`).
#[derive(Clone, Debug)]
pub struct TagNode {
    pub tag: Tag,
    pub item_uris: Option<Vec<SpotifyUri>>,
}

pub type TagEdge = GenericEdge<TagNode>;

/// A pageable collection of tags. The list may be preloaded, or defined by a
/// lookup the document store runs lazily: all of a user's tags, or the tags
/// on one item.
#[derive(Clone, Debug)]
pub enum TagConnection {
    /// The list of tags is already in hand; resolving fields needs no I/O.
    Preloaded { tags: Vec<Tag> },
    /// All tags this user has created, fetched lazily.
    All,
    /// The tags applied to one item, fetched lazily.
    ByItem { item_uri: SpotifyUri },
}

impl TagConnection {
    /// The number of tags in this connection. The lazy variants are counted
    /// by the document store; the caller passes that count in as
    /// `db_count`.
    pub fn total_count(&self, db_count: usize) -> (r: usize)
        ensures
            r == match self {
                TagConnection::Preloaded { tags } => tags@.len(),
                _ => db_count as nat,
            },
    {
        match self {
            TagConnection::Preloaded { tags } => tags.len(),
            _ => db_count,
        }
    }

    /// Page info for this connection. Tags are not paginated yet, so the
    /// offset is always 0 and there are never adjacent pages; only the page
    /// length varies, counted as in [`TagConnection::total_count`].
    pub fn page_info(&self, db_count: usize) -> (r: PageInfo)
        ensures
            r.offset == 0,
            r.page_len == match self {
                TagConnection::Preloaded { tags } => tags@.len(),
                _ => db_count as nat,
            },
            !r.has_previous_page,
            !r.has_next_page,
    {
        PageInfo {
            offset: 0,
            page_len: self.total_count(db_count),
            has_previous_page: false,
            has_next_page: false,
        }
    }

    /// The edges of this connection, one per tag, in order, each deferring
    /// its item list. The lazy variants are resolved by the document store;
    /// the caller passes the fetched list in as `db_tags`, which is ignored
    /// for the preloaded variant.
    pub fn edges(self, db_tags: Vec<Tag>) -> (r: Vec<TagEdge>)
        ensures
            ({
                let tags = match self {
                    TagConnection::Preloaded { tags } => tags@,
                    _ => db_tags@,
                };
                &&& r@.len() == tags.len()
                &&& forall|i: int|
                    0 <= i < tags.len() ==> (#[trigger] r@[i]).node.tag == tags[i]
                        && r@[i].node.item_uris is None && r@[i].cursor.offset == i
            }),
    {
        let tags = match self {
            TagConnection::Preloaded { tags } => tags,
            _ => db_tags,
        };
        let ghost orig = tags@;
        let mut rest = tags;
        let mut nodes: Vec<TagNode> = Vec::new();
        while rest.len() > 0
            invariant
                nodes@.len() + rest@.len() == orig.len(),
                forall|i: int|
                    0 <= i < nodes@.len() ==> (#[trigger] nodes@[i]).tag == orig[i]
                        && nodes@[i].item_uris is None,
                forall|i: int| 0 <= i < rest@.len() ==> rest@[i] == orig[nodes@.len() + i],
            decreases rest@.len(),
        {
            let tag = rest.remove(0);
            nodes.push(TagNode { tag, item_uris: None });
        }
        let n = nodes.len();
        proof {
            assert(0 + nodes@.len() <= usize::MAX) by {
                assert(n == nodes@.len());
            }
        }
        GenericEdge::from_nodes(nodes, 0)
    }
}

} // verus!
