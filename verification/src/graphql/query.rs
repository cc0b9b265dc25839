//! The pure decision parts of the top-level queries: node lookup by global
//! id with its ownership check, and assembly of the search request and
//! response.

use vstd::prelude::*;

use crate::auth::UserId;
use crate::graphql::internal::{Node, NodeType};
use crate::graphql::item::{TaggedItemNode};
use crate::graphql::tag::{Tag, TagNode};
use crate::spotify::types::Item;
use crate::util::{dec_val, format_usize};

verus! {

/// Root query object.
pub struct Query;

impl Query {
    /// Assemble the result of a node lookup once the id is parsed and any
    /// item data fetched. A node owned by another user is reported as
    /// absent, never revealed. For item nodes the fetched item decides
    /// presence; a tag node exists for any tag text, holding no preloaded
    /// items.
    pub fn node_from_parts(
        node_type: NodeType,
        value_id: String,
        owner: UserId,
        requester: &UserId,
        fetched_item: Option<Item>,
    ) -> (r: Option<Node>)
        ensures
            owner.0@ != requester.0@ ==> r is None,
            owner.0@ == requester.0@ ==> match node_type {
                NodeType::TaggedItemNode => match fetched_item {
                    Some(item) => r == Some(
                        Node::TaggedItemNode(TaggedItemNode { item, tags: None }),
                    ),
                    None => r is None,
                },
                NodeType::TagNode => r matches Some(Node::TagNode(n)) && n.tag.tag_spec()
                    == value_id@ && n.item_uris is None,
            },
    {
        if !(owner == *requester) {
            // Another user owns the node: pretend it does not exist.
            return None;
        }
        match node_type {
            NodeType::TaggedItemNode => match fetched_item {
                Some(item) => Some(Node::TaggedItemNode(TaggedItemNode { item, tags: None })),
                None => None,
            },
            NodeType::TagNode => Some(
                Node::TagNode(TagNode { tag: Tag::new(value_id), item_uris: None }),
            ),
        }
    }

    /// The query parameters of a search request: the free-text query, the
    /// fixed filter to the taggable item types, and the window bounds when
    /// given, each rendered as a decimal numeral.
    pub fn search_query_params(query: &str, limit: Option<usize>, offset: Option<usize>) -> (r:
        Vec<(String, String)>)
        ensures
            r@.len() == 2 + (if limit is Some {
                1int
            } else {
                0int
            }) + (if offset is Some {
                1int
            } else {
                0int
            }),
            r@[0].0@ == "q"@ && r@[0].1@ == query@,
            r@[1].0@ == "type"@ && r@[1].1@ == "track,album,artist"@,
            limit matches Some(l) ==> r@[2].0@ == "limit"@ && dec_val(r@[2].1@) == l,
            offset matches Some(o) ==> {
                let at = if limit is Some {
                    3int
                } else {
                    2int
                };
                r@[at].0@ == "offset"@ && dec_val(r@[at].1@) == o
            },
    {
        let mut params: Vec<(String, String)> = Vec::new();
        params.push((String::from_str("q"), query.to_owned()));
        params.push((String::from_str("type"), String::from_str("track,album,artist")));
        if let Some(l) = limit {
            params.push((String::from_str("limit"), format_usize(l)));
        }
        if let Some(o) = offset {
            params.push((String::from_str("offset"), format_usize(o)));
        }
        params
    }
}

} // verus!
