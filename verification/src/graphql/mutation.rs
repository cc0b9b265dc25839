//! Inputs, payloads, and the pure assembly parts of the mutations. The
//! document store update itself happens outside; the builders here turn the
//! fetched item and the stored tag set into the payload shape.

use vstd::prelude::*;

use crate::graphql::internal::GenericEdge;
use crate::graphql::item::{TaggedItemEdge, TaggedItemNode};
use crate::graphql::tag::{Tag, TagEdge, TagNode};
use crate::spotify::types::{Item, SpotifyUri};

verus! {

/// Root mutation object.
pub struct Mutation;

/// Input for the mutation that applies a tag to an item.
#[derive(Clone, Debug)]
pub struct AddTagInput {
    pub item_uri: SpotifyUri,
    pub tag: Tag,
}

/// Output of the mutation that applies a tag to an item.
#[derive(Clone, Debug)]
pub struct AddTagPayload {
    pub item_edge: Option<TaggedItemEdge>,
    pub tag_edge: TagEdge,
}

/// Input for the mutation that removes a tag from an item.
#[derive(Clone, Debug)]
pub struct DeleteTagInput {
    pub item_uri: SpotifyUri,
    pub tag: Tag,
}

/// Output of the mutation that removes a tag from an item.
#[derive(Clone, Debug)]
pub struct DeleteTagPayload {
    pub item_edge: Option<TaggedItemEdge>,
    pub tag_edge: TagEdge,
}

impl Mutation {
    /// Assemble the payload of the add-tag mutation: the fetched item (absent
    /// when the URI matched nothing upstream, in which case nothing was
    /// stored) with the tag set the store reported after the update, and the
    /// tag's own node with its items deferred.
    pub fn add_tag_payload(item: Option<Item>, stored_tags: Vec<Tag>, tag: Tag) -> (r:
        AddTagPayload)
        ensures
            match item {
                Some(it) => r.item_edge matches Some(edge) && edge.0.node.item == it
                    && edge.0.node.tags == Some(stored_tags) && edge.0.cursor.offset == 0,
                None => r.item_edge is None,
            },
            r.tag_edge.node.tag == tag,
            r.tag_edge.node.item_uris is None,
            r.tag_edge.cursor.offset == 0,
    {
        Self::tag_mutation_payload(item, stored_tags, tag)
    }

    /// Assemble the payload of the delete-tag mutation; the shape matches
    /// [`Mutation::add_tag_payload`], with the store reporting the tags that
    /// remain after the removal (empty when the item was never stored).
    pub fn delete_tag_payload(item: Option<Item>, remaining_tags: Vec<Tag>, tag: Tag) -> (r:
        DeleteTagPayload)
        ensures
            match item {
                Some(it) => r.item_edge matches Some(edge) && edge.0.node.item == it
                    && edge.0.node.tags == Some(remaining_tags) && edge.0.cursor.offset == 0,
                None => r.item_edge is None,
            },
            r.tag_edge.node.tag == tag,
            r.tag_edge.node.item_uris is None,
            r.tag_edge.cursor.offset == 0,
    {
        let payload = Self::tag_mutation_payload(item, remaining_tags, tag);
        DeleteTagPayload { item_edge: payload.item_edge, tag_edge: payload.tag_edge }
    }

    fn tag_mutation_payload(item: Option<Item>, tags: Vec<Tag>, tag: Tag) -> (r: AddTagPayload)
        ensures
            match item {
                Some(it) => r.item_edge matches Some(edge) && edge.0.node.item == it
                    && edge.0.node.tags == Some(tags) && edge.0.cursor.offset == 0,
                None => r.item_edge is None,
            },
            r.tag_edge.node.tag == tag,
            r.tag_edge.node.item_uris is None,
            r.tag_edge.cursor.offset == 0,
    {
        let item_edge = match item {
            Some(it) => Some(
                TaggedItemEdge(
                    GenericEdge::from(TaggedItemNode { item: it, tags: Some(tags) }),
                ),
            ),
            None => None,
        };
        let tag_edge = GenericEdge::from(TagNode { tag, item_uris: None });
        AddTagPayload { item_edge, tag_edge }
    }
}

} // verus!
