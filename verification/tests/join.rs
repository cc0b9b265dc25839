//! Tests of the pure tag join and of document regrouping.

use laulud::db::TaggedItemDocument;
use laulud::graphql::item::join_tags;
use laulud::graphql::tag::Tag;
use laulud::auth::UserId;
use laulud::spotify::types::{Artist, ExternalUrls, Item, SpotifyUri};

fn uri(s: &str) -> SpotifyUri {
    SpotifyUri::parse(s).unwrap()
}

fn artist_item(id: &str) -> Item {
    Item::Artist(Artist {
        external_urls: ExternalUrls { spotify: String::new() },
        genres: vec![],
        href: String::new(),
        id: id.to_owned(),
        images: vec![],
        name: String::new(),
        popularity: 0,
        uri: uri(&format!("spotify:artist:{}", id)),
    })
}

fn tag_names(tags: &[Tag]) -> Vec<&str> {
    tags.iter().map(|t| t.tag()).collect()
}

#[test]
fn join_pairs_each_item_with_its_tags_in_order() {
    // A lookup holding tags only for the first item: the other two get the
    // empty set, and the output preserves item order exactly.
    let a = artist_item("a");
    let b = artist_item("b");
    let c = artist_item("c");
    let lookup = vec![(uri("spotify:artist:a"), vec![Tag::new("x".to_owned())])];

    let joined = join_tags(&lookup, vec![a, b, c]);
    assert_eq!(joined.len(), 3);
    let ids: Vec<&str> = joined
        .iter()
        .map(|t| match &t.item {
            Item::Artist(artist) => artist.id.as_str(),
            other => panic!("expected artist, got {:?}", other),
        })
        .collect();
    assert_eq!(ids, vec!["a", "b", "c"]);
    assert_eq!(tag_names(&joined[0].tags), vec!["x"]);
    assert!(joined[1].tags.is_empty());
    assert!(joined[2].tags.is_empty());
}

#[test]
fn join_of_no_items_is_empty() {
    let lookup = vec![(uri("spotify:artist:a"), vec![Tag::new("x".to_owned())])];
    assert!(join_tags(&lookup, Vec::new()).is_empty());
}

#[test]
fn join_takes_the_first_matching_entry() {
    let lookup = vec![
        (uri("spotify:artist:a"), vec![Tag::new("first".to_owned())]),
        (uri("spotify:artist:a"), vec![Tag::new("second".to_owned())]),
    ];
    let joined = join_tags(&lookup, vec![artist_item("a")]);
    assert_eq!(tag_names(&joined[0].tags), vec!["first"]);
}

#[test]
fn documents_regroup_by_item_type() {
    let user = || UserId("u".to_owned());
    let docs = vec![
        TaggedItemDocument {
            user_id: user(),
            tags: vec![Tag::new("rock".to_owned())],
            uri: uri("spotify:track:t1"),
        },
        TaggedItemDocument {
            user_id: user(),
            tags: vec![Tag::new("jazz".to_owned())],
            uri: uri("spotify:album:b1"),
        },
        TaggedItemDocument {
            user_id: user(),
            tags: vec![],
            uri: uri("spotify:track:t2"),
        },
        TaggedItemDocument {
            user_id: user(),
            tags: vec![Tag::new("loud".to_owned())],
            uri: uri("spotify:artist:a1"),
        },
    ];
    let (tracks, albums, artists) = TaggedItemDocument::group_tags(docs);
    assert_eq!(tracks.len(), 2);
    assert_eq!(tracks[0].0, uri("spotify:track:t1"));
    assert_eq!(tag_names(&tracks[0].1), vec!["rock"]);
    assert_eq!(tracks[1].0, uri("spotify:track:t2"));
    assert_eq!(albums.len(), 1);
    assert_eq!(tag_names(&albums[0].1), vec!["jazz"]);
    assert_eq!(artists.len(), 1);
    assert_eq!(tag_names(&artists[0].1), vec!["loud"]);
}

#[test]
fn tag_parsing_rejects_only_the_empty_string() {
    assert!(Tag::parse("").is_err());
    let t = Tag::parse("focus").unwrap();
    assert_eq!(t.tag(), "focus");
    assert_eq!(t, Tag::new("focus".to_owned()));
}
