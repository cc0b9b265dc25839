//! End-to-end scenario: a batched multi-item fetch whose three type-group
//! requests all start with an expired credential. The store refreshes once,
//! every group request carries the refreshed secret, and the mock transport's
//! answers assemble into the final item list.

use laulud::auth::{AuthenticationToken, OAuthHandler};
use laulud::spotify::batch::{
    albums_to_items, artists_to_items, batch_endpoint, collect_items, group_uris, join_ids,
    tracks_to_items,
};
use laulud::spotify::http::authorization_header_value;
use laulud::spotify::types::{
    AlbumSimplified, AlbumsResponse, Artist, ArtistsResponse, ExternalUrls, Item,
    SpotifyItemType, SpotifyUri, Track, TracksResponse,
};

fn uri(s: &str) -> SpotifyUri {
    SpotifyUri::parse(s).unwrap()
}

fn album(id: &str) -> AlbumSimplified {
    AlbumSimplified {
        album_group: None,
        album_type: "album".to_owned(),
        artists: vec![],
        available_markets: vec![],
        external_urls: ExternalUrls { spotify: String::new() },
        href: String::new(),
        id: id.to_owned(),
        images: vec![],
        name: String::new(),
        release_date: String::new(),
        release_date_precision: String::new(),
        uri: uri(&format!("spotify:album:{}", id)),
    }
}

fn track(id: &str) -> Track {
    Track {
        album: album("b0"),
        artists: vec![],
        available_markets: vec![],
        disc_number: 1,
        duration_ms: 1,
        explicit: false,
        external_urls: ExternalUrls { spotify: String::new() },
        href: String::new(),
        id: id.to_owned(),
        is_playable: None,
        name: String::new(),
        popularity: 0,
        preview_url: None,
        track_number: 1,
        uri: uri(&format!("spotify:track:{}", id)),
    }
}

fn artist(id: &str) -> Artist {
    Artist {
        external_urls: ExternalUrls { spotify: String::new() },
        genres: vec![],
        href: String::new(),
        id: id.to_owned(),
        images: vec![],
        name: String::new(),
        popularity: 0,
        uri: uri(&format!("spotify:artist:{}", id)),
    }
}

#[test]
fn expired_token_refreshes_once_across_a_three_group_batch() {
    // The stored token expired 10 seconds ago and a valid refresh token is
    // present; the mock refresh endpoint answers with a fresh credential.
    let now: i64 = 50_000;
    let mut store = OAuthHandler::new(AuthenticationToken {
        secret: "stale-secret".to_owned(),
        refresh_token: Some("refresh-me".to_owned()),
        expires_at: now - 10,
    });
    let refreshed = AuthenticationToken {
        secret: "fresh-secret".to_owned(),
        refresh_token: Some("refresh-me".to_owned()),
        expires_at: now + 3600,
    };

    // Plan the batch: one group per type present.
    let input = vec![
        uri("spotify:track:t1"),
        uri("spotify:album:b1"),
        uri("spotify:artist:a1"),
        uri("spotify:track:t2"),
    ];
    let plan = group_uris(&input).unwrap();
    assert_eq!(plan.len(), 3);

    // Each of the three concurrent group requests asks the store for a
    // valid secret; the provider is hit exactly once.
    let (secrets, provider_calls) = store.serve_callers(plan.len(), now, &refreshed);
    assert_eq!(provider_calls, 1);

    // Every request is authenticated with the refreshed secret.
    for secret in &secrets {
        assert_eq!(authorization_header_value(secret), "Bearer fresh-secret");
    }

    // The mock transport answers each group's endpoint.
    let mut replies: Vec<Vec<Item>> = Vec::new();
    for group in &plan {
        let ids = join_ids(&group.ids);
        match group.item_type {
            SpotifyItemType::Track => {
                assert_eq!(batch_endpoint(group.item_type), "/v1/tracks");
                assert_eq!(ids, "t1,t2");
                replies.push(tracks_to_items(TracksResponse {
                    tracks: vec![Some(track("t1")), Some(track("t2"))],
                }));
            }
            SpotifyItemType::Album => {
                assert_eq!(batch_endpoint(group.item_type), "/v1/albums");
                assert_eq!(ids, "b1");
                replies.push(albums_to_items(AlbumsResponse {
                    albums: vec![Some(album("b1"))],
                }));
            }
            SpotifyItemType::Artist => {
                assert_eq!(batch_endpoint(group.item_type), "/v1/artists");
                assert_eq!(ids, "a1");
                replies.push(artists_to_items(ArtistsResponse {
                    artists: vec![Some(artist("a1"))],
                }));
            }
            SpotifyItemType::User => panic!("user groups cannot be planned"),
        }
    }

    // Reassembled output: group order, order kept within each group.
    let items = collect_items(replies);
    let ids: Vec<&str> = items
        .iter()
        .map(|item| match item {
            Item::Track(t) => t.id.as_str(),
            Item::Album(a) => a.id.as_str(),
            Item::Artist(a) => a.id.as_str(),
        })
        .collect();
    assert_eq!(ids, vec!["t1", "t2", "b1", "a1"]);
}
