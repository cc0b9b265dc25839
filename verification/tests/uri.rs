//! Tests of the canonical URI codec.

use laulud::spotify::types::{SpotifyItemType, SpotifyUri};

fn parse_ok(s: &str) -> SpotifyUri {
    SpotifyUri::parse(s).expect("expected a valid URI")
}

#[test]
fn parse_valid_track_uri() {
    let uri = parse_ok("spotify:track:6rqhFgbbKwnb9MLmUQDhG6");
    assert_eq!(uri.item_type(), SpotifyItemType::Track);
    assert_eq!(uri.id(), "6rqhFgbbKwnb9MLmUQDhG6");
}

#[test]
fn parse_valid_album_artist_user_uris() {
    assert_eq!(parse_ok("spotify:album:abc").item_type(), SpotifyItemType::Album);
    assert_eq!(parse_ok("spotify:artist:xyz").item_type(), SpotifyItemType::Artist);
    assert_eq!(parse_ok("spotify:user:someone").item_type(), SpotifyItemType::User);
}

#[test]
fn parse_rejects_malformed_input() {
    assert!(SpotifyUri::parse("bogus").is_err());
    assert!(SpotifyUri::parse("spotify:track").is_err());
    assert!(SpotifyUri::parse("spotify:unknown:123").is_err());
    assert!(SpotifyUri::parse("").is_err());
    assert!(SpotifyUri::parse("spotify:track:a:b").is_err());
    assert!(SpotifyUri::parse("notspotify:track:abc").is_err());
    assert!(SpotifyUri::parse("spotify:Track:abc").is_err());
}

#[test]
fn parse_accepts_empty_id() {
    let uri = parse_ok("spotify:track:");
    assert_eq!(uri.id(), "");
    assert_eq!(uri.to_uri_string(), "spotify:track:");
}

#[test]
fn format_is_canonical() {
    let uri = parse_ok("spotify:artist:4Z8W4fKeB5YxbusRsdQVPb");
    assert_eq!(uri.to_uri_string(), "spotify:artist:4Z8W4fKeB5YxbusRsdQVPb");
}

#[test]
fn parse_format_round_trip() {
    for s in [
        "spotify:track:6rqhFgbbKwnb9MLmUQDhG6",
        "spotify:album:0sNOF9WDwhWunNAHPD3Baj",
        "spotify:artist:4Z8W4fKeB5YxbusRsdQVPb",
        "spotify:user:alice",
        "spotify:track:",
    ] {
        let uri = parse_ok(s);
        let formatted = uri.to_uri_string();
        assert_eq!(formatted, s);
        let reparsed = parse_ok(&formatted);
        assert_eq!(reparsed, uri);
    }
}

#[test]
fn item_type_names_parse_back() {
    for t in [
        SpotifyItemType::Track,
        SpotifyItemType::Album,
        SpotifyItemType::Artist,
        SpotifyItemType::User,
    ] {
        assert_eq!(SpotifyItemType::parse(t.name()).unwrap(), t);
    }
    assert!(SpotifyItemType::parse("playlist").is_err());
    assert!(SpotifyItemType::parse("TRACK").is_err());
}
