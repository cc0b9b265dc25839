//! Catalog items with their applied tags: nodes, paged connections, and the
//! pure join of fetched items with locally stored tag sets.

use vstd::prelude::*;

use crate::graphql::internal::GenericEdge;
use crate::graphql::pagination::PageInfo;
use crate::graphql::tag::Tag;
use crate::spotify::types::{
    Artist, Item, PaginatedResponse, SearchResponse, SpotifyUri, Track,
};
use crate::spotify::types::AlbumSimplified;

verus! {

/// A catalog item with its applied tags. The item is always in hand, while
/// the tags can be preloaded (`Some`) or left to be fetched from the
/// document store when first needed (`None`).
#[derive(Clone, Debug)]
pub struct TaggedItemNode {
    pub item: Item,
    pub tags: Option<Vec<Tag>>,
}

/// An edge of a tagged-item connection.
#[derive(Clone, Debug)]
pub struct TaggedItemEdge(pub GenericEdge<TaggedItemNode>);

impl TaggedItemEdge {
    pub fn node(&self) -> (r: &TaggedItemNode)
        ensures
            r == &self.0.node,
    {
        &self.0.node
    }

    pub fn cursor(&self) -> (r: &crate::graphql::pagination::Cursor)
        ensures
            r == &self.0.cursor,
    {
        &self.0.cursor
    }
}

/// A pageable collection of tagged items. The items may be preloaded from
/// the upstream catalog, or defined by a list of URIs or by a tag and
/// fetched when first needed.
#[derive(Clone, Debug)]
pub enum TaggedItemConnection {
    /// All item data is preloaded; resolving the first level of fields
    /// needs no I/O. This variant is the one that supports pagination.
    Preloaded { paginated_response: PaginatedResponse<Item> },
    /// The collection is the given URIs; item data is fetched in a single
    /// batched call when needed. No pagination: the URIs are the full set.
    ByUris { uris: Vec<SpotifyUri> },
    /// The collection is every item carrying `tag`; the document store
    /// lists the URIs, then item data is fetched. No pagination.
    ByTag { tag: Tag },
}

impl TaggedItemConnection {
    /// The number of items in this connection, across all pages. The
    /// `ByTag` variant is counted by the document store; the caller passes
    /// that count in as `db_count`.
    pub fn total_count(&self, db_count: usize) -> (r: usize)
        ensures
            r == match self {
                TaggedItemConnection::Preloaded { paginated_response } => (
                paginated_response.total as nat),
                TaggedItemConnection::ByUris { uris } => uris@.len(),
                TaggedItemConnection::ByTag { .. } => db_count as nat,
            },
    {
        match self {
            TaggedItemConnection::Preloaded { paginated_response } => paginated_response.total,
            TaggedItemConnection::ByUris { uris } => uris.len(),
            TaggedItemConnection::ByTag { .. } => db_count,
        }
    }

    /// Page info for this connection. For preloaded data this is the
    /// upstream page: its offset and length, with a previous or next page
    /// exactly when the envelope carried the corresponding link. The lazy
    /// variants are unpaginated: one page at offset 0 holding everything,
    /// the `ByTag` length counted by the document store as `db_count`.
    pub fn page_info(&self, db_count: usize) -> (r: PageInfo)
        ensures
            match self {
                TaggedItemConnection::Preloaded { paginated_response } => {
                    &&& r.offset == paginated_response.offset
                    &&& r.page_len == paginated_response.items@.len()
                    &&& r.has_previous_page <==> paginated_response.previous is Some
                    &&& r.has_next_page <==> paginated_response.next is Some
                },
                TaggedItemConnection::ByUris { uris } => r == (PageInfo {
                    offset: 0,
                    page_len: uris.len(),
                    has_previous_page: false,
                    has_next_page: false,
                }),
                TaggedItemConnection::ByTag { .. } => r == (PageInfo {
                    offset: 0,
                    page_len: db_count,
                    has_previous_page: false,
                    has_next_page: false,
                }),
            },
    {
        match self {
            TaggedItemConnection::Preloaded { paginated_response } => PageInfo {
                offset: paginated_response.offset,
                page_len: paginated_response.items.len(),
                has_previous_page: paginated_response.previous.is_some(),
                has_next_page: paginated_response.next.is_some(),
            },
            TaggedItemConnection::ByUris { uris } => PageInfo {
                offset: 0,
                page_len: uris.len(),
                has_previous_page: false,
                has_next_page: false,
            },
            TaggedItemConnection::ByTag { .. } => PageInfo {
                offset: 0,
                page_len: db_count,
                has_previous_page: false,
                has_next_page: false,
            },
        }
    }

    /// The edges of this connection, one per item, in order, each deferring
    /// its tag list. Preloaded items come with their page offset; for the
    /// lazy variants the caller passes the fetched items in as `fetched`
    /// (ignored when preloaded), and the offset is 0.
    pub fn edges(self, fetched: Vec<Item>) -> (r: Vec<TaggedItemEdge>)
        requires
            self matches TaggedItemConnection::Preloaded { paginated_response }
                ==> paginated_response.offset + paginated_response.items@.len() <= usize::MAX,
        ensures
            ({
                let (items, offset) = match self {
                    TaggedItemConnection::Preloaded { paginated_response } => (
                        paginated_response.items@,
                        paginated_response.offset as int,
                    ),
                    _ => (fetched@, 0int),
                };
                &&& r@.len() == items.len()
                &&& forall|i: int|
                    0 <= i < items.len() ==> (#[trigger] r@[i]).0.node.item == items[i]
                        && r@[i].0.node.tags is None && r@[i].0.cursor.offset == offset + i
            }),
    {
        let ghost conn = self;
        let (items, offset): (Vec<Item>, usize) = match self {
            TaggedItemConnection::Preloaded { paginated_response } => {
                let offset = paginated_response.offset;
                (paginated_response.items, offset)
            },
            _ => (fetched, 0),
        };
        let ghost orig = items@;
        let items_len = items.len();
        proof {
            assert(items_len == orig.len());
            match conn {
                TaggedItemConnection::Preloaded { paginated_response } => {
                    assert(offset == paginated_response.offset);
                    assert(orig == paginated_response.items@);
                },
                _ => {},
            }
            assert(offset + orig.len() <= usize::MAX);
        }
        let mut rest = items;
        let mut nodes: Vec<TaggedItemNode> = Vec::new();
        while rest.len() > 0
            invariant
                nodes@.len() + rest@.len() == orig.len(),
                forall|i: int|
                    0 <= i < nodes@.len() ==> (#[trigger] nodes@[i]).item == orig[i]
                        && nodes@[i].tags is None,
                forall|i: int| 0 <= i < rest@.len() ==> rest@[i] == orig[nodes@.len() + i],
            decreases rest@.len(),
        {
            let item = rest.remove(0);
            nodes.push(TaggedItemNode { item, tags: None });
        }
        proof {
            assert(offset + nodes@.len() <= usize::MAX);
        }
        let edges = GenericEdge::from_nodes(nodes, offset);
        let ghost edges_view = edges@;
        let mut rest_edges = edges;
        let mut out: Vec<TaggedItemEdge> = Vec::new();
        while rest_edges.len() > 0
            invariant
                out@.len() + rest_edges@.len() == edges_view.len(),
                forall|i: int| 0 <= i < out@.len() ==> (#[trigger] out@[i]).0 == edges_view[i],
                forall|i: int|
                    0 <= i < rest_edges@.len() ==> rest_edges@[i] == edges_view[out@.len() + i],
            decreases rest_edges@.len(),
        {
            let edge = rest_edges.remove(0);
            out.push(TaggedItemEdge(edge));
        }
        out
    }
}

/// Result of a search among taggable items: one connection per item type,
/// as the upstream API groups them, paginating in lockstep.
#[derive(Clone, Debug)]
pub struct ItemSearch {
    pub tracks: TaggedItemConnection,
    pub albums: TaggedItemConnection,
    pub artists: TaggedItemConnection,
}

impl ItemSearch {
    /// Wrap the three pages of a search response as preloaded connections,
    /// each item tagged with its variant. Everything else about each page
    /// (offsets, totals, links) is carried over unchanged.
    pub fn from_search_response(response: SearchResponse) -> (r: ItemSearch)
        ensures
            ({
                &&& r.tracks matches TaggedItemConnection::Preloaded { paginated_response: p }
                    && p.items@ == response.tracks.items@.map_values(|t: Track| Item::Track(t))
                    && p.href == response.tracks.href && p.limit == response.tracks.limit
                    && p.offset == response.tracks.offset && p.total == response.tracks.total
                    && p.next == response.tracks.next && p.previous == response.tracks.previous
            }),
            ({
                &&& r.albums matches TaggedItemConnection::Preloaded { paginated_response: p }
                    && p.items@ == response.albums.items@.map_values(
                    |a: AlbumSimplified| Item::Album(a),
                ) && p.href == response.albums.href && p.limit == response.albums.limit
                    && p.offset == response.albums.offset && p.total == response.albums.total
                    && p.next == response.albums.next && p.previous == response.albums.previous
            }),
            ({
                &&& r.artists matches TaggedItemConnection::Preloaded { paginated_response: p }
                    && p.items@ == response.artists.items@.map_values(|a: Artist| Item::Artist(a))
                    && p.href == response.artists.href && p.limit == response.artists.limit
                    && p.offset == response.artists.offset && p.total == response.artists.total
                    && p.next == response.artists.next && p.previous == response.artists.previous
            }),
    {
        let tracks = response.tracks.map_items(tracks_to_item_vec);
        let albums = response.albums.map_items(albums_to_item_vec);
        let artists = response.artists.map_items(artists_to_item_vec);
        ItemSearch {
            tracks: TaggedItemConnection::Preloaded { paginated_response: tracks },
            albums: TaggedItemConnection::Preloaded { paginated_response: albums },
            artists: TaggedItemConnection::Preloaded { paginated_response: artists },
        }
    }
}

/// Wrap a page of tracks as items.
fn tracks_to_item_vec(tracks: Vec<Track>) -> (r: Vec<Item>)
    ensures
        r@ == tracks@.map_values(|t: Track| Item::Track(t)),
{
    let ghost orig = tracks@;
    let mut rest = tracks;
    let mut out: Vec<Item> = Vec::new();
    while rest.len() > 0
        invariant
            out@.len() + rest@.len() == orig.len(),
            forall|i: int| 0 <= i < out@.len() ==> out@[i] == Item::Track(orig[i]),
            forall|i: int| 0 <= i < rest@.len() ==> rest@[i] == orig[out@.len() + i],
        decreases rest@.len(),
    {
        let t = rest.remove(0);
        out.push(Item::Track(t));
    }
    proof {
        assert(out@ =~= orig.map_values(|t: Track| Item::Track(t)));
    }
    out
}

/// Wrap a page of albums as items.
fn albums_to_item_vec(albums: Vec<AlbumSimplified>) -> (r: Vec<Item>)
    ensures
        r@ == albums@.map_values(|a: AlbumSimplified| Item::Album(a)),
{
    let ghost orig = albums@;
    let mut rest = albums;
    let mut out: Vec<Item> = Vec::new();
    while rest.len() > 0
        invariant
            out@.len() + rest@.len() == orig.len(),
            forall|i: int| 0 <= i < out@.len() ==> out@[i] == Item::Album(orig[i]),
            forall|i: int| 0 <= i < rest@.len() ==> rest@[i] == orig[out@.len() + i],
        decreases rest@.len(),
    {
        let a = rest.remove(0);
        out.push(Item::Album(a));
    }
    proof {
        assert(out@ =~= orig.map_values(|a: AlbumSimplified| Item::Album(a)));
    }
    out
}

/// Wrap a page of artists as items.
fn artists_to_item_vec(artists: Vec<Artist>) -> (r: Vec<Item>)
    ensures
        r@ == artists@.map_values(|a: Artist| Item::Artist(a)),
{
    let ghost orig = artists@;
    let mut rest = artists;
    let mut out: Vec<Item> = Vec::new();
    while rest.len() > 0
        invariant
            out@.len() + rest@.len() == orig.len(),
            forall|i: int| 0 <= i < out@.len() ==> out@[i] == Item::Artist(orig[i]),
            forall|i: int| 0 <= i < rest@.len() ==> rest@[i] == orig[out@.len() + i],
        decreases rest@.len(),
    {
        let a = rest.remove(0);
        out.push(Item::Artist(a));
    }
    proof {
        assert(out@ =~= orig.map_values(|a: Artist| Item::Artist(a)));
    }
    out
}

/// A catalog item together with its full set of applied tags.
#[derive(Clone, Debug)]
pub struct TaggedItem {
    pub item: Item,
    pub tags: Vec<Tag>,
}

/// Whether two URIs name the same item.
pub open spec fn same_uri(a: SpotifyUri, b: SpotifyUri) -> bool {
    a.item_type_spec() == b.item_type_spec() && a.id_spec() == b.id_spec()
}

/// The tag set a lookup table assigns to `uri`: the tags of its first entry
/// for that URI, or the empty set when no entry matches.
pub open spec fn lookup_tags(lookup: Seq<(SpotifyUri, Vec<Tag>)>, uri: SpotifyUri) -> Seq<Tag>
    decreases lookup.len(),
{
    if lookup.len() == 0 {
        Seq::empty()
    } else if same_uri(lookup.first().0, uri) {
        lookup.first().1@
    } else {
        lookup_tags(lookup.drop_first(), uri)
    }
}

/// Join fetched items with locally stored tag sets: each item is paired
/// with the tags its URI maps to, items missing from the lookup getting the
/// empty set. Pure and deterministic, and the items keep their input order
/// exactly.
pub fn join_tags(tag_lookup: &Vec<(SpotifyUri, Vec<Tag>)>, items: Vec<Item>) -> (r: Vec<
    TaggedItem,
>)
    ensures
        r@.len() == items@.len(),
        forall|i: int|
            0 <= i < items@.len() ==> (#[trigger] r@[i]).item == items@[i] && r@[i].tags@
                == lookup_tags(tag_lookup@, items@[i].uri_spec()),
{
    let ghost orig = items@;
    let mut rest = items;
    let mut out: Vec<TaggedItem> = Vec::new();
    while rest.len() > 0
        invariant
            out@.len() + rest@.len() == orig.len(),
            forall|i: int|
                0 <= i < out@.len() ==> (#[trigger] out@[i]).item == orig[i] && out@[i].tags@
                    == lookup_tags(tag_lookup@, orig[i].uri_spec()),
            forall|i: int| 0 <= i < rest@.len() ==> rest@[i] == orig[out@.len() + i],
        decreases rest@.len(),
    {
        let item = rest.remove(0);
        let tags = find_tags(tag_lookup, item.uri_());
        out.push(TaggedItem { item, tags });
    }
    out
}

/// Look up the tags of one URI, defaulting to the empty set.
fn find_tags(tag_lookup: &Vec<(SpotifyUri, Vec<Tag>)>, uri: &SpotifyUri) -> (r: Vec<Tag>)
    ensures
        r@ == lookup_tags(tag_lookup@, *uri),
{
    proof {
        assert(tag_lookup@.skip(0) =~= tag_lookup@);
    }
    let mut j: usize = 0;
    while j < tag_lookup.len()
        invariant
            j <= tag_lookup@.len(),
            lookup_tags(tag_lookup@, *uri) == lookup_tags(tag_lookup@.skip(j as int), *uri),
            forall|k: int| 0 <= k < j ==> !same_uri((#[trigger] tag_lookup@[k]).0, *uri),
        decreases tag_lookup@.len() - j,
    {
        proof {
            assert(tag_lookup@.skip(j as int).first() == tag_lookup@[j as int]);
            assert(tag_lookup@.skip(j as int).drop_first() =~= tag_lookup@.skip(j + 1));
        }
        let entry_uri = &tag_lookup[j].0;
        let same = entry_uri.item_type() == uri.item_type() && crate::util::str_eq(
            entry_uri.id(),
            uri.id(),
        );
        if same {
            let tags = tag_lookup[j].1.clone();
            proof {
                assert(tags@ =~= tag_lookup@[j as int].1@) by {
                    assert(forall|k: int|
                        0 <= k < tags@.len() ==> vstd::pervasive::cloned::<Tag>(
                            tag_lookup@[j as int].1@[k],
                            #[trigger] tags@[k],
                        ));
                }
            }
            return tags;
        }
        j += 1;
    }
    proof {
        assert(tag_lookup@.skip(tag_lookup@.len() as int).len() == 0);
    }
    Vec::new()
}

} // verus!
