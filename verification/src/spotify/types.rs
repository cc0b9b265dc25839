//! Definitions of the catalog item types and the canonical item identifier
//! (URI), together with its verified parser and formatter.
//!
//! A URI has the wire form `"spotify:<type>:<id>"` with a lowercase type name.
//! A parsed [`SpotifyUri`] is only constructible through a successful parse,
//! so every value in circulation satisfies [`SpotifyUri::wf`].

use vstd::prelude::*;

use crate::error::ParseError;
use crate::util::{count_of, free_of, lemma_count_of_add, lemma_free_of_count, str_eq};

verus! {

/// Any item type that can get a URI.
///
/// Note: not every type of the upstream catalog is supported here, just the
/// ones the app uses.
#[derive(Copy, Clone, Debug, PartialEq, Eq, Hash, Structural)]
pub enum SpotifyItemType {
    Track,
    Album,
    Artist,
    User,
}

impl SpotifyItemType {
    /// The lowercase wire name of this item type.
    pub open spec fn name_spec(self) -> Seq<char> {
        match self {
            SpotifyItemType::Track => "track"@,
            SpotifyItemType::Album => "album"@,
            SpotifyItemType::Artist => "artist"@,
            SpotifyItemType::User => "user"@,
        }
    }

    /// The lowercase wire name of this item type.
    pub fn name(self) -> (r: &'static str)
        ensures
            r@ == self.name_spec(),
    {
        match self {
            SpotifyItemType::Track => "track",
            SpotifyItemType::Album => "album",
            SpotifyItemType::Artist => "artist",
            SpotifyItemType::User => "user",
        }
    }

    /// Parse a lowercase item type name; exactly the four wire names are
    /// accepted.
    pub fn parse(s: &str) -> (r: Result<SpotifyItemType, ParseError>)
        ensures
            match r {
                Ok(t) => s@ == t.name_spec(),
                Err(_) => forall|t: SpotifyItemType| s@ != t.name_spec(),
            },
    {
        if str_eq(s, "track") {
            Ok(SpotifyItemType::Track)
        } else if str_eq(s, "album") {
            Ok(SpotifyItemType::Album)
        } else if str_eq(s, "artist") {
            Ok(SpotifyItemType::Artist)
        } else if str_eq(s, "user") {
            Ok(SpotifyItemType::User)
        } else {
            Err(ParseError {
                message: String::from_str("Unknown Spotify object type"),
                value: s.to_owned(),
            })
        }
    }
}

/// Facts about the item type names needed by the URI proofs: their lengths,
/// their freedom from `':'`, and their pairwise distinctness.
pub proof fn lemma_name_facts()
    ensures
        forall|t: SpotifyItemType| free_of(#[trigger] t.name_spec(), ':'),
        free_of("spotify"@, ':'),
        "spotify"@.len() == 7,
        SpotifyItemType::Track.name_spec().len() == 5,
        SpotifyItemType::Album.name_spec().len() == 5,
        SpotifyItemType::Artist.name_spec().len() == 6,
        SpotifyItemType::User.name_spec().len() == 4,
        forall|t1: SpotifyItemType, t2: SpotifyItemType|
            t1.name_spec() == t2.name_spec() ==> t1 == t2,
{
    reveal_strlit("spotify");
    reveal_strlit("track");
    reveal_strlit("album");
    reveal_strlit("artist");
    reveal_strlit("user");
    assert("spotify"@ =~= seq!['s', 'p', 'o', 't', 'i', 'f', 'y']);
    assert("track"@ =~= seq!['t', 'r', 'a', 'c', 'k']);
    assert("album"@ =~= seq!['a', 'l', 'b', 'u', 'm']);
    assert("artist"@ =~= seq!['a', 'r', 't', 'i', 's', 't']);
    assert("user"@ =~= seq!['u', 's', 'e', 'r']);
    assert forall|t: SpotifyItemType| free_of(#[trigger] t.name_spec(), ':') by {
        match t {
            SpotifyItemType::Track => {},
            SpotifyItemType::Album => {},
            SpotifyItemType::Artist => {},
            SpotifyItemType::User => {},
        }
    }
    assert forall|t1: SpotifyItemType, t2: SpotifyItemType|
        t1.name_spec() == t2.name_spec() implies t1 == t2 by {
        if t1 != t2 {
            assert(t1.name_spec() != t2.name_spec());
        }
    }
}

/// The canonical character sequence of the URI for an item of type `t` with
/// identifier `id`.
pub open spec fn uri_chars(t: SpotifyItemType, id: Seq<char>) -> Seq<char> {
    "spotify"@ + seq![':'] + t.name_spec() + seq![':'] + id
}

/// Whether `s` is the canonical URI of some item: scheme `spotify`, a known
/// type name, and an id containing no `':'`.
pub open spec fn is_uri_chars(s: Seq<char>) -> bool {
    exists|t: SpotifyItemType, id: Seq<char>| free_of(id, ':') && s == uri_chars(t, id)
}

/// The item type encoded in a canonical URI string.
pub open spec fn uri_type_of(s: Seq<char>) -> SpotifyItemType {
    (choose|t: SpotifyItemType, id: Seq<char>| free_of(id, ':') && s == uri_chars(t, id)).0
}

/// The identifier encoded in a canonical URI string.
pub open spec fn uri_id_of(s: Seq<char>) -> Seq<char> {
    (choose|t: SpotifyItemType, id: Seq<char>| free_of(id, ':') && s == uri_chars(t, id)).1
}

/// A canonical URI string determines its item type and id: the encoding is
/// injective on well-formed inputs.
pub proof fn lemma_uri_chars_injective(
    t1: SpotifyItemType,
    id1: Seq<char>,
    t2: SpotifyItemType,
    id2: Seq<char>,
)
    requires
        free_of(id1, ':'),
        free_of(id2, ':'),
        uri_chars(t1, id1) == uri_chars(t2, id2),
    ensures
        t1 == t2,
        id1 == id2,
{
    lemma_name_facts();
    let s = uri_chars(t1, id1);
    let n1 = t1.name_spec();
    let n2 = t2.name_spec();
    if n1.len() < n2.len() {
        // In decomposition 1 the second ':' sits at 8 + |n1|, but in
        // decomposition 2 that position lies inside the type name.
        assert(s[8 + n1.len() as int] == ':');
        assert(s[8 + n1.len() as int] == n2[n1.len() as int]);
        assert(false);
    }
    if n2.len() < n1.len() {
        assert(s[8 + n2.len() as int] == ':');
        assert(s[8 + n2.len() as int] == n1[n2.len() as int]);
        assert(false);
    }
    assert(n1 =~= n2) by {
        assert(forall|i: int| 0 <= i < n1.len() ==> s[8 + i] == n1[i]);
        assert(forall|i: int| 0 <= i < n2.len() ==> s[8 + i] == n2[i]);
    }
    assert(t1 == t2);
    assert(id1 =~= id2) by {
        assert(s.len() == 9 + n1.len() + id1.len());
        assert(uri_chars(t2, id2).len() == 9 + n2.len() + id2.len());
        assert(id1.len() == id2.len());
        assert(forall|i: int| 0 <= i < id1.len() ==> s[9 + n1.len() + i] == id1[i]);
        assert(forall|i: int| 0 <= i < id2.len() ==> s[9 + n2.len() + i] == id2[i]);
    }
}

/// Round-trip law: the canonical string of a well-formed URI parses back to
/// the same item type and identifier.
pub proof fn lemma_parse_format_roundtrip(t: SpotifyItemType, id: Seq<char>)
    requires
        free_of(id, ':'),
    ensures
        is_uri_chars(uri_chars(t, id)),
        uri_type_of(uri_chars(t, id)) == t,
        uri_id_of(uri_chars(t, id)) == id,
{
    let s = uri_chars(t, id);
    assert(is_uri_chars(s)) by {
        assert(free_of(id, ':') && s == uri_chars(t, id));
    }
    let (t2, id2) = choose|t2: SpotifyItemType, id2: Seq<char>|
        free_of(id2, ':') && s == uri_chars(t2, id2);
    lemma_uri_chars_injective(t, id, t2, id2);
}

/// A parsed and validated Spotify URI. A URI uniquely identifies a Spotify
/// item, and also includes its type. Note that in this context, "valid" just
/// means it's not malformed; it does not mean that the URI actually exists
/// upstream.
#[derive(Debug)]
pub struct SpotifyUri {
    item_type: SpotifyItemType,
    id: String,
}

impl Clone for SpotifyUri {
    /// Cloning preserves the value exactly, so well-formedness survives.
    fn clone(&self) -> (r: SpotifyUri)
        ensures
            r == *self,
    {
        SpotifyUri { item_type: self.item_type, id: self.id.clone() }
    }
}

impl SpotifyUri {
    /// The item type carried by this URI.
    pub closed spec fn item_type_spec(self) -> SpotifyItemType {
        self.item_type
    }

    /// The identifier carried by this URI.
    pub closed spec fn id_spec(self) -> Seq<char> {
        self.id@
    }

    /// Every URI built by [`SpotifyUri::parse`] satisfies this: the id holds
    /// no `':'`, so the canonical form splits back into the same parts.
    pub open spec fn wf(self) -> bool {
        free_of(self.id_spec(), ':')
    }

    /// The canonical character sequence of this URI.
    pub open spec fn chars_spec(self) -> Seq<char> {
        uri_chars(self.item_type_spec(), self.id_spec())
    }

    pub fn item_type(&self) -> (t: SpotifyItemType)
        ensures
            t == self.item_type_spec(),
    {
        self.item_type
    }

    pub fn id(&self) -> (r: &str)
        ensures
            r@ == self.id_spec(),
    {
        self.id.as_str()
    }

    /// Parse the wire form `"spotify:<type>:<id>"`. Succeeds exactly on
    /// canonical URI strings; malformed input and unknown type names are
    /// rejected, never panicked on.
    pub fn parse(s: &str) -> (r: Result<SpotifyUri, ParseError>)
        ensures
            match r {
                Ok(u) => {
                    &&& u.wf()
                    &&& is_uri_chars(s@)
                    &&& s@ == u.chars_spec()
                    &&& u.item_type_spec() == uri_type_of(s@)
                    &&& u.id_spec() == uri_id_of(s@)
                },
                Err(_) => !is_uri_chars(s@),
            },
    {
        proof {
            lemma_name_facts();
        }
        let n = s.unicode_len();
        let mut i: usize = 0;
        let mut count: usize = 0;
        let mut c1: usize = 0;
        let mut c2: usize = 0;
        while i < n
            invariant
                i <= n,
                count <= i,
                n == s@.len(),
                count == count_of(s@.take(i as int), ':'),
                count == 0 ==> forall|j: int| 0 <= j < i ==> s@[j] != ':',
                count == 1 ==> c1 < i && s@[c1 as int] == ':' && forall|j: int|
                    0 <= j < i && s@[j] == ':' ==> j == c1,
                count >= 2 ==> c1 < c2 < i && s@[c1 as int] == ':' && s@[c2 as int] == ':',
                count == 2 ==> forall|j: int|
                    0 <= j < i && s@[j] == ':' ==> j == c1 || j == c2,
            decreases n - i,
        {
            proof {
                assert(s@.take(i + 1).drop_last() =~= s@.take(i as int));
            }
            if s.get_char(i) == ':' {
                if count == 0 {
                    c1 = i;
                } else if count == 1 {
                    c2 = i;
                }
                count += 1;
            }
            i += 1;
        }
        proof {
            assert(s@.take(n as int) =~= s@);
        }
        if count != 2 {
            proof {
                if is_uri_chars(s@) {
                    let (t, id) = choose|t: SpotifyItemType, id: Seq<char>|
                        free_of(id, ':') && s@ == uri_chars(t, id);
                    lemma_uri_count(t, id);
                }
            }
            return Err(uri_parse_error(s));
        }
        let seg_scheme = s.substring_char(0, c1);
        if !str_eq(seg_scheme, "spotify") {
            proof {
                if is_uri_chars(s@) {
                    let (t, id) = choose|t: SpotifyItemType, id: Seq<char>|
                        free_of(id, ':') && s@ == uri_chars(t, id);
                    lemma_uri_colon_positions(t, id, c1 as int, c2 as int);
                    assert(seg_scheme@ =~= "spotify"@);
                }
            }
            return Err(uri_parse_error(s));
        }
        let seg_type = s.substring_char(c1 + 1, c2);
        let item_type = match SpotifyItemType::parse(seg_type) {
            Ok(t) => t,
            Err(_) => {
                proof {
                    if is_uri_chars(s@) {
                        let (t, id) = choose|t: SpotifyItemType, id: Seq<char>|
                            free_of(id, ':') && s@ == uri_chars(t, id);
                        lemma_uri_colon_positions(t, id, c1 as int, c2 as int);
                        assert(seg_type@ =~= t.name_spec());
                    }
                }
                return Err(uri_parse_error(s));
            },
        };
        let id = s.substring_char(c2 + 1, n).to_owned();
        let uri = SpotifyUri { item_type, id };
        proof {
            // The scheme segment pins the first colon at index 7.
            assert(c1 == 7) by {
                assert(s@.subrange(0, c1 as int) == "spotify"@);
                assert(s@.subrange(0, c1 as int).len() == c1);
            }
            // The type segment then pins the second colon.
            assert(c2 == 8 + item_type.name_spec().len()) by {
                assert(s@.subrange(c1 + 1, c2 as int) == item_type.name_spec());
                assert(s@.subrange(c1 + 1, c2 as int).len() == c2 - c1 - 1);
            }
            assert(uri.wf()) by {
                assert(forall|j: int|
                    0 <= j < uri.id_spec().len() ==> uri.id_spec()[j] == s@[c2 + 1 + j]);
            }
            assert(s@ =~= uri_chars(item_type, uri.id_spec())) by {
                assert(forall|j: int| 0 <= j < 7 ==> s@[j] == "spotify"@[j]);
                assert(forall|j: int|
                    0 <= j < item_type.name_spec().len() ==> s@[8 + j]
                        == item_type.name_spec()[j]);
                assert(forall|j: int|
                    0 <= j < uri.id_spec().len() ==> s@[c2 + 1 + j] == uri.id_spec()[j]);
            }
            lemma_parse_format_roundtrip(item_type, uri.id_spec());
        }
        Ok(uri)
    }

    /// Format this URI back into its canonical wire form
    /// `"spotify:<type>:<id>"`; the exact inverse of [`SpotifyUri::parse`].
    pub fn to_uri_string(&self) -> (r: String)
        requires
            self.wf(),
        ensures
            r@ == self.chars_spec(),
            is_uri_chars(r@),
            uri_type_of(r@) == self.item_type_spec(),
            uri_id_of(r@) == self.id_spec(),
    {
        let mut out = String::from_str("spotify");
        out.append(":");
        out.append(self.item_type.name());
        out.append(":");
        out.append(self.id.as_str());
        proof {
            reveal_strlit(":");
            assert(":"@ =~= seq![':']);
            assert(out@ =~= self.chars_spec());
            lemma_parse_format_roundtrip(self.item_type_spec(), self.id_spec());
        }
        out
    }
}

impl PartialEq for SpotifyUri {
    fn eq(&self, other: &SpotifyUri) -> (r: bool) {
        self.item_type == other.item_type && self.id == other.id
    }
}

impl Eq for SpotifyUri {}

impl vstd::std_specs::cmp::PartialEqSpecImpl for SpotifyUri {
    open spec fn obeys_eq_spec() -> bool {
        true
    }

    open spec fn eq_spec(&self, other: &SpotifyUri) -> bool {
        self.item_type_spec() == other.item_type_spec() && self.id_spec() == other.id_spec()
    }
}

/// The canonical URI of an item has exactly two colons.
proof fn lemma_uri_count(t: SpotifyItemType, id: Seq<char>)
    requires
        free_of(id, ':'),
    ensures
        count_of(uri_chars(t, id), ':') == 2,
{
    lemma_name_facts();
    let head = "spotify"@ + seq![':'];
    let mid = head + t.name_spec();
    let mid2 = mid + seq![':'];
    lemma_count_of_add("spotify"@, seq![':'], ':');
    lemma_count_of_add(head, t.name_spec(), ':');
    lemma_count_of_add(mid, seq![':'], ':');
    lemma_count_of_add(mid2, id, ':');
    lemma_free_of_count("spotify"@, ':');
    lemma_free_of_count(t.name_spec(), ':');
    lemma_free_of_count(id, ':');
    assert(count_of(seq![':'], ':') == 1) by {
        let one = seq![':'];
        assert(one.len() == 1);
        assert(one.last() == ':');
        assert(one.drop_last() =~= Seq::<char>::empty());
        assert(count_of(Seq::<char>::empty(), ':') == 0);
    }
    assert(uri_chars(t, id) == mid2 + id);
}

/// In the canonical URI of an item, the only colons are the one after the
/// scheme (index 7) and the one after the type name.
proof fn lemma_uri_colon_positions(t: SpotifyItemType, id: Seq<char>, c1: int, c2: int)
    requires
        free_of(id, ':'),
        0 <= c1 < c2 < uri_chars(t, id).len(),
        uri_chars(t, id)[c1] == ':',
        uri_chars(t, id)[c2] == ':',
        forall|j: int|
            0 <= j < uri_chars(t, id).len() && uri_chars(t, id)[j] == ':' ==> j == c1 || j == c2,
    ensures
        c1 == 7,
        c2 == 8 + t.name_spec().len(),
        uri_chars(t, id).subrange(0, 7) == "spotify"@,
        uri_chars(t, id).subrange(8, 8 + t.name_spec().len() as int) == t.name_spec(),
{
    lemma_name_facts();
    let s = uri_chars(t, id);
    let nl = t.name_spec().len() as int;
    assert(s[7] == ':');
    assert(s[8 + nl] == ':');
    assert(forall|j: int| 0 <= j < 7 ==> s[j] == "spotify"@[j] && s[j] != ':');
    assert(forall|j: int| 0 <= j < nl ==> s[8 + j] == t.name_spec()[j] && s[8 + j] != ':');
    assert(forall|j: int| 0 <= j < id.len() ==> s[9 + nl + j] == id[j] && s[9 + nl + j] != ':');
    // 7 and 8 + |name| are colons, so they are c1 and c2 in some order;
    // order follows from c1 < c2.
    assert(c1 == 7 && c2 == 8 + nl);
    assert(s.subrange(0, 7) =~= "spotify"@);
    assert(s.subrange(8, 8 + nl) =~= t.name_spec());
}

fn uri_parse_error(s: &str) -> ParseError {
    ParseError {
        message: String::from_str("Invalid Spotify URI"),
        value: s.to_owned(),
    }
}

/// An external-URL object of the upstream catalog.
#[derive(Clone, Debug)]
pub struct ExternalUrls {
    pub spotify: String,
}

/// An image object of the upstream catalog.
#[derive(Clone, Debug)]
pub struct Image {
    pub url: String,
    pub width: Option<i32>,
    pub height: Option<i32>,
}

/// A simplified artist object.
#[derive(Clone, Debug)]
pub struct ArtistSimplified {
    pub external_urls: ExternalUrls,
    pub href: String,
    pub id: String,
    pub name: String,
    pub uri: SpotifyUri,
}

/// A full artist object.
#[derive(Clone, Debug)]
pub struct Artist {
    pub external_urls: ExternalUrls,
    pub genres: Vec<String>,
    pub href: String,
    pub id: String,
    pub images: Vec<Image>,
    pub name: String,
    pub popularity: i32,
    pub uri: SpotifyUri,
}

/// A simplified album object.
#[derive(Clone, Debug)]
pub struct AlbumSimplified {
    pub album_group: Option<String>,
    pub album_type: String,
    pub artists: Vec<ArtistSimplified>,
    pub available_markets: Vec<String>,
    pub external_urls: ExternalUrls,
    pub href: String,
    pub id: String,
    pub images: Vec<Image>,
    pub name: String,
    pub release_date: String,
    pub release_date_precision: String,
    pub uri: SpotifyUri,
}

/// A full track object.
#[derive(Clone, Debug)]
pub struct Track {
    pub album: AlbumSimplified,
    pub artists: Vec<ArtistSimplified>,
    pub available_markets: Vec<String>,
    pub disc_number: i32,
    pub duration_ms: i32,
    pub explicit: bool,
    pub external_urls: ExternalUrls,
    pub href: String,
    pub id: String,
    pub is_playable: Option<bool>,
    pub name: String,
    pub popularity: i32,
    pub preview_url: Option<String>,
    pub track_number: i32,
    pub uri: SpotifyUri,
}

/// The private profile of the authenticated user.
#[derive(Clone, Debug)]
pub struct PrivateUser {
    pub id: String,
    pub href: String,
    pub uri: SpotifyUri,
    pub display_name: Option<String>,
    pub images: Vec<Image>,
}

/// Response of the batched several-tracks endpoint. Each element is `None`
/// when the corresponding requested id matched nothing.
#[derive(Clone, Debug)]
pub struct TracksResponse {
    pub tracks: Vec<Option<Track>>,
}

/// Response of the batched several-albums endpoint.
#[derive(Clone, Debug)]
pub struct AlbumsResponse {
    /// The endpoint actually returns full album objects, but the simplified
    /// form is used here to keep compatibility with the search endpoint.
    pub albums: Vec<Option<AlbumSimplified>>,
}

/// Response of the batched several-artists endpoint.
#[derive(Clone, Debug)]
pub struct ArtistsResponse {
    pub artists: Vec<Option<Artist>>,
}

/// A page of results from the upstream catalog: a window of `items` at
/// `offset`, with the total collection size and opaque links to the adjacent
/// pages when they exist.
#[derive(Clone, Debug)]
pub struct PaginatedResponse<T> {
    pub href: String,
    pub limit: usize,
    pub offset: usize,
    pub total: usize,
    pub next: Option<String>,
    pub previous: Option<String>,
    pub items: Vec<T>,
}

impl<T> PaginatedResponse<T> {
    /// Create a new instance that has all the same values as this one,
    /// except that `items` has had the mapper function applied to it. Useful
    /// for type transformations on the `items` field.
    pub fn map_items<U, F: FnOnce(Vec<T>) -> Vec<U>>(self, mapper: F) -> (r: PaginatedResponse<U>)
        requires
            call_requires(mapper, (self.items,)),
        ensures
            r.href == self.href,
            r.limit == self.limit,
            r.offset == self.offset,
            r.total == self.total,
            r.next == self.next,
            r.previous == self.previous,
            call_ensures(mapper, (self.items,), r.items),
    {
        PaginatedResponse {
            href: self.href,
            limit: self.limit,
            offset: self.offset,
            total: self.total,
            next: self.next,
            previous: self.previous,
            items: mapper(self.items),
        }
    }
}

/// Search results are returned grouped by item type, one page per type; the
/// three pages paginate in lockstep.
#[derive(Clone, Debug)]
pub struct SearchResponse {
    pub tracks: PaginatedResponse<Track>,
    pub albums: PaginatedResponse<AlbumSimplified>,
    pub artists: PaginatedResponse<Artist>,
}

/// An item is a polymorphic type that includes anything that can be fetched
/// from the upstream catalog and tagged in the API.
#[derive(Clone, Debug)]
pub enum Item {
    Track(Track),
    Album(AlbumSimplified),
    Artist(Artist),
}

impl Item {
    /// The URI carried by this item, whatever its variant.
    pub open spec fn uri_spec(self) -> SpotifyUri {
        match self {
            Item::Track(track) => track.uri,
            Item::Album(album) => album.uri,
            Item::Artist(artist) => artist.uri,
        }
    }

    /// Get the item's URI. The underscored name avoids a clash with the
    /// equivalent field resolver of the query layer.
    pub fn uri_(&self) -> (r: &SpotifyUri)
        ensures
            *r == self.uri_spec(),
    {
        match self {
            Item::Track(track) => &track.uri,
            Item::Album(album) => &album.uri,
            Item::Artist(artist) => &artist.uri,
        }
    }

    /// The id shared by every item variant.
    pub open spec fn id_spec(self) -> Seq<char> {
        match self {
            Item::Track(track) => track.id@,
            Item::Album(album) => album.id@,
            Item::Artist(artist) => artist.id@,
        }
    }

    /// Get the item's id, whatever its variant.
    pub fn id_(&self) -> (r: &str)
        ensures
            r@ == self.id_spec(),
    {
        match self {
            Item::Track(track) => track.id.as_str(),
            Item::Album(album) => album.id.as_str(),
            Item::Artist(artist) => artist.id.as_str(),
        }
    }

    /// The href shared by every item variant.
    pub open spec fn href_spec(self) -> Seq<char> {
        match self {
            Item::Track(track) => track.href@,
            Item::Album(album) => album.href@,
            Item::Artist(artist) => artist.href@,
        }
    }

    /// Get the item's href, whatever its variant.
    pub fn href_(&self) -> (r: &str)
        ensures
            r@ == self.href_spec(),
    {
        match self {
            Item::Track(track) => track.href.as_str(),
            Item::Album(album) => album.href.as_str(),
            Item::Artist(artist) => artist.href.as_str(),
        }
    }
}

} // verus!
