//! Tests of type-based request batching: planning, id joining, and result
//! assembly.

use laulud::error::ApiError;
use laulud::spotify::batch::{
    batch_endpoint, collect_items, group_uris, join_ids, tracks_to_items,
};
use laulud::spotify::types::{
    Artist, ArtistsResponse, ExternalUrls, Item, SpotifyItemType, SpotifyUri, Track,
    TracksResponse,
};

fn uri(s: &str) -> SpotifyUri {
    SpotifyUri::parse(s).unwrap()
}

fn uris(strings: &[&str]) -> Vec<SpotifyUri> {
    strings.iter().map(|s| uri(s)).collect()
}

#[test]
fn empty_input_plans_zero_calls() {
    let plan = group_uris(&Vec::new()).unwrap();
    assert_eq!(plan.len(), 0);
}

#[test]
fn one_batched_call_per_type_present() {
    // 3 tracks + 2 albums + 10 artists make exactly 3 batched calls, one
    // per distinct type, however many ids each type has.
    let mut input = vec![
        "spotify:track:t1",
        "spotify:track:t2",
        "spotify:track:t3",
        "spotify:album:b1",
        "spotify:album:b2",
    ];
    for i in 0..10 {
        input.push(match i {
            0 => "spotify:artist:a0",
            1 => "spotify:artist:a1",
            2 => "spotify:artist:a2",
            3 => "spotify:artist:a3",
            4 => "spotify:artist:a4",
            5 => "spotify:artist:a5",
            6 => "spotify:artist:a6",
            7 => "spotify:artist:a7",
            8 => "spotify:artist:a8",
            _ => "spotify:artist:a9",
        });
    }
    let plan = group_uris(&uris(&input)).unwrap();
    assert_eq!(plan.len(), 3);
    assert_eq!(plan[0].item_type, SpotifyItemType::Track);
    assert_eq!(plan[0].ids, vec!["t1", "t2", "t3"]);
    assert_eq!(plan[1].item_type, SpotifyItemType::Album);
    assert_eq!(plan[1].ids, vec!["b1", "b2"]);
    assert_eq!(plan[2].item_type, SpotifyItemType::Artist);
    assert_eq!(plan[2].ids.len(), 10);
}

#[test]
fn grouping_keeps_first_seen_type_order() {
    let plan = group_uris(&uris(&[
        "spotify:album:b1",
        "spotify:track:t1",
        "spotify:album:b2",
        "spotify:track:t2",
    ]))
    .unwrap();
    assert_eq!(plan.len(), 2);
    assert_eq!(plan[0].item_type, SpotifyItemType::Album);
    assert_eq!(plan[0].ids, vec!["b1", "b2"]);
    assert_eq!(plan[1].item_type, SpotifyItemType::Track);
    assert_eq!(plan[1].ids, vec!["t1", "t2"]);
}

#[test]
fn unsupported_type_aborts_the_whole_batch() {
    let result = group_uris(&uris(&[
        "spotify:track:t1",
        "spotify:user:someone",
        "spotify:album:b1",
    ]));
    match result {
        Err(ApiError::UnsupportedItemType { item_type }) => {
            assert_eq!(item_type, SpotifyItemType::User);
        }
        other => panic!("expected UnsupportedItemType, got {:?}", other),
    }
}

#[test]
fn ids_join_with_commas() {
    assert_eq!(join_ids(&Vec::new()), "");
    assert_eq!(join_ids(&vec!["a".to_owned()]), "a");
    assert_eq!(join_ids(&vec!["a".to_owned(), "b".to_owned(), "c".to_owned()]), "a,b,c");
}

#[test]
fn batch_endpoints_by_type() {
    assert_eq!(batch_endpoint(SpotifyItemType::Track), "/v1/tracks");
    assert_eq!(batch_endpoint(SpotifyItemType::Album), "/v1/albums");
    assert_eq!(batch_endpoint(SpotifyItemType::Artist), "/v1/artists");
}

fn artist(id: &str) -> Artist {
    Artist {
        external_urls: ExternalUrls { spotify: String::new() },
        genres: vec![],
        href: String::new(),
        id: id.to_owned(),
        images: vec![],
        name: format!("artist {}", id),
        popularity: 10,
        uri: uri(&format!("spotify:artist:{}", id)),
    }
}

#[test]
fn holes_are_dropped_and_order_kept() {
    let track = |id: &str| -> Track {
        Track {
            album: laulud::spotify::types::AlbumSimplified {
                album_group: None,
                album_type: "album".to_owned(),
                artists: vec![],
                available_markets: vec![],
                external_urls: ExternalUrls { spotify: String::new() },
                href: String::new(),
                id: "b".to_owned(),
                images: vec![],
                name: String::new(),
                release_date: String::new(),
                release_date_precision: String::new(),
                uri: uri("spotify:album:b"),
            },
            artists: vec![],
            available_markets: vec![],
            disc_number: 1,
            duration_ms: 1,
            explicit: false,
            external_urls: ExternalUrls { spotify: String::new() },
            href: String::new(),
            id: id.to_owned(),
            is_playable: None,
            name: String::new(),
            popularity: 0,
            preview_url: None,
            track_number: 1,
            uri: uri(&format!("spotify:track:{}", id)),
        }
    };
    let response = TracksResponse {
        tracks: vec![Some(track("t1")), None, Some(track("t2")), None],
    };
    let items = tracks_to_items(response);
    assert_eq!(items.len(), 2);
    match (&items[0], &items[1]) {
        (Item::Track(a), Item::Track(b)) => {
            assert_eq!(a.id, "t1");
            assert_eq!(b.id, "t2");
        }
        other => panic!("expected two tracks, got {:?}", other),
    }
}

#[test]
fn group_results_concatenate_in_group_order() {
    let a = ArtistsResponse { artists: vec![Some(artist("a1")), None, Some(artist("a2"))] };
    let first = laulud::spotify::batch::artists_to_items(a);
    let b = ArtistsResponse { artists: vec![Some(artist("a3"))] };
    let second = laulud::spotify::batch::artists_to_items(b);
    let all = collect_items(vec![first, second, Vec::new()]);
    let ids: Vec<&str> = all
        .iter()
        .map(|item| match item {
            Item::Artist(artist) => artist.id.as_str(),
            other => panic!("expected artists, got {:?}", other),
        })
        .collect();
    assert_eq!(ids, vec!["a1", "a2", "a3"]);
}
