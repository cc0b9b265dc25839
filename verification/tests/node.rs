//! Tests of node ids, node lookup decisions, search assembly, and mutation
//! payloads.

use laulud::auth::UserId;
use laulud::graphql::internal::{Node, NodeType};
use laulud::graphql::item::{ItemSearch, TaggedItemConnection, TaggedItemNode};
use laulud::graphql::mutation::Mutation;
use laulud::graphql::query::Query;
use laulud::graphql::tag::{Tag, TagNode};
use laulud::spotify::types::{
    Artist, ExternalUrls, Item, PaginatedResponse, SearchResponse, SpotifyUri,
};

fn artist_item(id: &str) -> Item {
    Item::Artist(Artist {
        external_urls: ExternalUrls { spotify: String::new() },
        genres: vec![],
        href: String::new(),
        id: id.to_owned(),
        images: vec![],
        name: String::new(),
        popularity: 0,
        uri: SpotifyUri::parse(&format!("spotify:artist:{}", id)).unwrap(),
    })
}

fn empty_page<T>() -> PaginatedResponse<T> {
    PaginatedResponse {
        href: String::new(),
        limit: 0,
        offset: 0,
        total: 0,
        next: None,
        previous: None,
        items: vec![],
    }
}

#[test]
fn node_ids_embed_type_value_and_user() {
    let user = UserId("alice".to_owned());
    let id = Node::id_string(NodeType::TagNode, "rock", &user);
    assert_eq!(id, "TagNode_rock_alice");

    let node = Node::TaggedItemNode(TaggedItemNode { item: artist_item("a1"), tags: None });
    let id = node.get_id(&user);
    assert_eq!(id, "TaggedItemNode_spotify:artist:a1_alice");
}

#[test]
fn node_id_parsing_inverts_building() {
    let (node_type, value, user) = NodeType::parse_id("TagNode_rock_alice").unwrap();
    assert_eq!(node_type, NodeType::TagNode);
    assert_eq!(value, "rock");
    assert_eq!(user.0, "alice");
}

#[test]
fn node_id_parsing_rejects_other_shapes() {
    assert!(NodeType::parse_id("TagNode_rock").is_err());
    assert!(NodeType::parse_id("TagNode_a_b_c").is_err());
    assert!(NodeType::parse_id("Widget_rock_alice").is_err());
    assert!(NodeType::parse_id("").is_err());
}

#[test]
fn node_types_parse_by_name() {
    assert_eq!(NodeType::parse("TaggedItemNode").unwrap(), NodeType::TaggedItemNode);
    assert_eq!(NodeType::parse("TagNode").unwrap(), NodeType::TagNode);
    assert!(NodeType::parse("Other").is_err());
    let node = Node::TagNode(TagNode { tag: Tag::new("t".to_owned()), item_uris: None });
    assert_eq!(node.node_type(), NodeType::TagNode);
}

#[test]
fn foreign_nodes_are_invisible() {
    let fetched = Some(artist_item("a1"));
    let r = Query::node_from_parts(
        NodeType::TaggedItemNode,
        "spotify:artist:a1".to_owned(),
        UserId("bob".to_owned()),
        &UserId("alice".to_owned()),
        fetched,
    );
    assert!(r.is_none());
}

#[test]
fn item_nodes_follow_the_fetch() {
    let owner = UserId("alice".to_owned());
    let requester = UserId("alice".to_owned());
    let r = Query::node_from_parts(
        NodeType::TaggedItemNode,
        "spotify:artist:a1".to_owned(),
        owner,
        &requester,
        Some(artist_item("a1")),
    );
    match r {
        Some(Node::TaggedItemNode(node)) => assert!(node.tags.is_none()),
        other => panic!("expected an item node, got {:?}", other),
    }
    let r = Query::node_from_parts(
        NodeType::TaggedItemNode,
        "spotify:artist:a1".to_owned(),
        UserId("alice".to_owned()),
        &UserId("alice".to_owned()),
        None,
    );
    assert!(r.is_none());
}

#[test]
fn tag_nodes_exist_for_any_tag() {
    let r = Query::node_from_parts(
        NodeType::TagNode,
        "rock".to_owned(),
        UserId("alice".to_owned()),
        &UserId("alice".to_owned()),
        None,
    );
    match r {
        Some(Node::TagNode(node)) => {
            assert_eq!(node.tag.tag(), "rock");
            assert!(node.item_uris.is_none());
        }
        other => panic!("expected a tag node, got {:?}", other),
    }
}

#[test]
fn search_params_include_the_window_when_given() {
    let params = Query::search_query_params("query text", Some(20), Some(40));
    let as_pairs: Vec<(&str, &str)> =
        params.iter().map(|(k, v)| (k.as_str(), v.as_str())).collect();
    assert_eq!(
        as_pairs,
        vec![
            ("q", "query text"),
            ("type", "track,album,artist"),
            ("limit", "20"),
            ("offset", "40"),
        ]
    );
    let bare = Query::search_query_params("x", None, None);
    assert_eq!(bare.len(), 2);
}

#[test]
fn search_response_becomes_three_preloaded_connections() {
    let response = SearchResponse {
        tracks: empty_page(),
        albums: empty_page(),
        artists: PaginatedResponse {
            href: String::new(),
            limit: 2,
            offset: 0,
            total: 2,
            next: None,
            previous: None,
            items: vec![
                match artist_item("a1") {
                    Item::Artist(a) => a,
                    _ => unreachable!(),
                },
                match artist_item("a2") {
                    Item::Artist(a) => a,
                    _ => unreachable!(),
                },
            ],
        },
    };
    let search = ItemSearch::from_search_response(response);
    match &search.artists {
        TaggedItemConnection::Preloaded { paginated_response } => {
            assert_eq!(paginated_response.items.len(), 2);
            match &paginated_response.items[0] {
                Item::Artist(a) => assert_eq!(a.id, "a1"),
                other => panic!("expected artist, got {:?}", other),
            }
        }
        other => panic!("expected preloaded artists, got {:?}", other),
    }
    match &search.tracks {
        TaggedItemConnection::Preloaded { paginated_response } => {
            assert!(paginated_response.items.is_empty());
        }
        other => panic!("expected preloaded tracks, got {:?}", other),
    }
}

#[test]
fn add_tag_payload_carries_the_stored_tags() {
    let payload = Mutation::add_tag_payload(
        Some(artist_item("a1")),
        vec![Tag::new("rock".to_owned()), Tag::new("loud".to_owned())],
        Tag::new("rock".to_owned()),
    );
    let edge = payload.item_edge.expect("item exists upstream");
    assert_eq!(edge.cursor().offset, 0);
    let tags = edge.node().tags.as_ref().unwrap();
    assert_eq!(tags.len(), 2);
    assert_eq!(payload.tag_edge.node.tag.tag(), "rock");
    assert!(payload.tag_edge.node.item_uris.is_none());
}

#[test]
fn missing_item_makes_no_item_edge() {
    let payload = Mutation::add_tag_payload(None, vec![], Tag::new("rock".to_owned()));
    assert!(payload.item_edge.is_none());

    let payload = Mutation::delete_tag_payload(None, vec![], Tag::new("rock".to_owned()));
    assert!(payload.item_edge.is_none());
    assert_eq!(payload.tag_edge.node.tag.tag(), "rock");
}

#[test]
fn delete_tag_payload_carries_the_remaining_tags() {
    let payload = Mutation::delete_tag_payload(
        Some(artist_item("a1")),
        vec![Tag::new("jazz".to_owned())],
        Tag::new("rock".to_owned()),
    );
    let edge = payload.item_edge.unwrap();
    let tags = edge.node().tags.as_ref().unwrap();
    assert_eq!(tags.len(), 1);
    assert_eq!(tags[0].tag(), "jazz");
}
