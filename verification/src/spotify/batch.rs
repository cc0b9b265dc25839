//! Type-based request batching.
//!
//! Fetching many items makes one batched call per item *type* present in the
//! input, not one per item. The functions here plan those calls (grouping ids
//! by type in first-seen order, joining them into one request, naming the
//! endpoint) and reassemble the per-group results, dropping the holes the
//! upstream API returns for unmatched ids. The transport layer only walks the
//! plan and brings back one response per group.

use vstd::prelude::*;

use crate::error::{ApiError, ApiResult};
use crate::spotify::types::{
    AlbumSimplified, AlbumsResponse, Artist, ArtistsResponse, Item, SpotifyItemType, SpotifyUri,
    Track, TracksResponse,
};

verus! {

/// Whether items of this type can be fetched and tagged here. The upstream
/// API has no batched lookup for users, so they are not taggable.
pub open spec fn is_taggable(t: SpotifyItemType) -> bool {
    t != SpotifyItemType::User
}

/// The distinct item types of `uris`, in order of first appearance.
pub open spec fn seen_types(uris: Seq<SpotifyUri>) -> Seq<SpotifyItemType>
    decreases uris.len(),
{
    if uris.len() == 0 {
        Seq::empty()
    } else {
        let rest = seen_types(uris.drop_last());
        if rest.contains(uris.last().item_type_spec()) {
            rest
        } else {
            rest.push(uris.last().item_type_spec())
        }
    }
}

/// The ids of the uris of type `t`, in input order.
pub open spec fn ids_of_type(uris: Seq<SpotifyUri>, t: SpotifyItemType) -> Seq<Seq<char>>
    decreases uris.len(),
{
    if uris.len() == 0 {
        Seq::empty()
    } else {
        let rest = ids_of_type(uris.drop_last(), t);
        if uris.last().item_type_spec() == t {
            rest.push(uris.last().id_spec())
        } else {
            rest
        }
    }
}

/// A type appears among the seen types exactly when some uri has it.
pub proof fn lemma_seen_types_contains(uris: Seq<SpotifyUri>, t: SpotifyItemType)
    ensures
        seen_types(uris).contains(t) <==> exists|i: int|
            0 <= i < uris.len() && uris[i].item_type_spec() == t,
    decreases uris.len(),
{
    if uris.len() > 0 {
        lemma_seen_types_contains(uris.drop_last(), t);
        if seen_types(uris).contains(t) {
            if uris.last().item_type_spec() == t {
                assert(uris[uris.len() - 1].item_type_spec() == t);
            } else {
                assert(seen_types(uris.drop_last()).contains(t)) by {
                    let rest = seen_types(uris.drop_last());
                    if !rest.contains(uris.last().item_type_spec()) {
                        assert(seen_types(uris) == rest.push(uris.last().item_type_spec()));
                        let j = choose|j: int|
                            0 <= j < seen_types(uris).len() && seen_types(uris)[j] == t;
                        assert(j < rest.len());
                    }
                }
                let i = choose|i: int|
                    0 <= i < uris.drop_last().len() && uris.drop_last()[i].item_type_spec() == t;
                assert(uris[i].item_type_spec() == t);
            }
        }
        if exists|i: int| 0 <= i < uris.len() && uris[i].item_type_spec() == t {
            let i = choose|i: int| 0 <= i < uris.len() && uris[i].item_type_spec() == t;
            if i < uris.len() - 1 {
                assert(uris.drop_last()[i].item_type_spec() == t);
                assert(seen_types(uris.drop_last()).contains(t));
                let rest = seen_types(uris.drop_last());
                let j = choose|j: int| 0 <= j < rest.len() && rest[j] == t;
                if rest.contains(uris.last().item_type_spec()) {
                    assert(seen_types(uris)[j] == t);
                } else {
                    assert(seen_types(uris)[j] == t);
                }
            } else {
                let rest = seen_types(uris.drop_last());
                if rest.contains(t) {
                    let j = choose|j: int| 0 <= j < rest.len() && rest[j] == t;
                    assert(seen_types(uris)[j] == t);
                } else {
                    assert(seen_types(uris).last() == t);
                }
            }
        }
    }
}

/// An ephemeral, request-scoped group of ids that share an item type; one
/// batched call is issued per group.
#[derive(Clone, Debug)]
pub struct BatchGroup {
    pub item_type: SpotifyItemType,
    pub ids: Vec<String>,
}

impl BatchGroup {
    /// The ids of this group, as character sequences.
    pub open spec fn ids_spec(self) -> Seq<Seq<char>> {
        self.ids@.map_values(|s: String| s@)
    }
}

/// Group the input uris by item type for batched fetching.
///
/// Types keep their first-seen order and each group keeps its ids in input
/// order. The whole call fails fast with `UnsupportedItemType` when any input
/// uri has a type that cannot be fetched; no partial plan is returned. An
/// empty input yields an empty plan: no calls will be issued.
pub fn group_uris(uris: &Vec<SpotifyUri>) -> (r: ApiResult<Vec<BatchGroup>>)
    ensures
        match r {
            Ok(groups) => {
                &&& forall|i: int|
                    0 <= i < uris@.len() ==> is_taggable(#[trigger] uris@[i].item_type_spec())
                &&& groups@.len() == seen_types(uris@).len()
                &&& uris@.len() == 0 ==> groups@.len() == 0
                &&& forall|g: int|
                    0 <= g < groups@.len() ==> (#[trigger] groups@[g]).item_type == seen_types(
                        uris@,
                    )[g]
                &&& forall|g: int|
                    0 <= g < groups@.len() ==> (#[trigger] groups@[g]).ids_spec() == ids_of_type(
                        uris@,
                        seen_types(uris@)[g],
                    )
            },
            Err(e) => {
                &&& exists|i: int|
                    0 <= i < uris@.len() && !is_taggable(#[trigger] uris@[i].item_type_spec())
                &&& e == (ApiError::UnsupportedItemType { item_type: SpotifyItemType::User })
            },
        },
{
    // First pass: collect the distinct types in first-seen order, rejecting
    // unsupported ones.
    let mut types: Vec<SpotifyItemType> = Vec::new();
    let mut k: usize = 0;
    while k < uris.len()
        invariant
            k <= uris@.len(),
            types@ == seen_types(uris@.take(k as int)),
            forall|i: int| 0 <= i < k ==> is_taggable(#[trigger] uris@[i].item_type_spec()),
        decreases uris@.len() - k,
    {
        let t = uris[k].item_type();
        if matches!(t, SpotifyItemType::User) {
            return Err(ApiError::UnsupportedItemType { item_type: SpotifyItemType::User });
        }
        let mut seen = false;
        let mut g: usize = 0;
        while g < types.len()
            invariant
                g <= types@.len(),
                seen <==> exists|j: int| 0 <= j < g && types@[j] == t,
            decreases types@.len() - g,
        {
            if types[g] == t {
                seen = true;
            }
            g += 1;
        }
        proof {
            if seen {
                assert(types@.contains(t));
            }
            if types@.contains(t) {
                let j = choose|j: int| 0 <= j < types@.len() && types@[j] == t;
                assert(seen);
            }
        }
        proof {
            assert(uris@.take(k + 1).drop_last() =~= uris@.take(k as int));
            assert(uris@.take(k + 1).last() == uris@[k as int]);
        }
        if !seen {
            types.push(t);
        }
        k += 1;
    }
    proof {
        assert(uris@.take(uris@.len() as int) =~= uris@);
    }
    // Second pass: collect the ids of each type, in input order.
    let mut groups: Vec<BatchGroup> = Vec::new();
    let mut g: usize = 0;
    while g < types.len()
        invariant
            g <= types@.len(),
            types@ == seen_types(uris@),
            groups@.len() == g,
            forall|h: int|
                0 <= h < g ==> (#[trigger] groups@[h]).item_type == seen_types(uris@)[h],
            forall|h: int|
                0 <= h < g ==> (#[trigger] groups@[h]).ids_spec() == ids_of_type(
                    uris@,
                    seen_types(uris@)[h],
                ),
        decreases types@.len() - g,
    {
        let t = types[g];
        let mut ids: Vec<String> = Vec::new();
        let mut k: usize = 0;
        while k < uris.len()
            invariant
                k <= uris@.len(),
                ids@.map_values(|s: String| s@) == ids_of_type(uris@.take(k as int), t),
            decreases uris@.len() - k,
        {
            proof {
                assert(uris@.take(k + 1).drop_last() =~= uris@.take(k as int));
                assert(uris@.take(k + 1).last() == uris@[k as int]);
            }
            if uris[k].item_type() == t {
                let id = uris[k].id().to_owned();
                ids.push(id);
                proof {
                    assert(ids@.map_values(|s: String| s@) =~= ids@.drop_last().map_values(
                        |s: String| s@,
                    ).push(ids@.last()@));
                }
            } else {
                proof {
                    assert(ids@.map_values(|s: String| s@) == ids_of_type(
                        uris@.take(k + 1),
                        t,
                    ));
                }
            }
            k += 1;
        }
        proof {
            assert(uris@.take(uris@.len() as int) =~= uris@);
        }
        groups.push(BatchGroup { item_type: t, ids });
        g += 1;
    }
    Ok(groups)
}

/// The comma-joined form of a list of ids, as sent in a batched request.
pub open spec fn joined_ids(ids: Seq<Seq<char>>) -> Seq<char>
    decreases ids.len(),
{
    if ids.len() == 0 {
        Seq::empty()
    } else if ids.len() == 1 {
        ids[0]
    } else {
        joined_ids(ids.drop_last()) + seq![','] + ids.last()
    }
}

/// Join the ids of one batch group with commas, for the `ids` query
/// parameter of the batched endpoint. No chunking happens here: callers must
/// pre-chunk oversized id lists.
pub fn join_ids(ids: &Vec<String>) -> (r: String)
    ensures
        r@ == joined_ids(ids@.map_values(|s: String| s@)),
{
    let ghost idseq = ids@.map_values(|s: String| s@);
    let mut out = String::new();
    let mut i: usize = 0;
    while i < ids.len()
        invariant
            i <= ids@.len(),
            idseq == ids@.map_values(|s: String| s@),
            out@ == joined_ids(idseq.take(i as int)),
        decreases ids@.len() - i,
    {
        proof {
            reveal_strlit(",");
            assert(","@ =~= seq![',']);
            assert(idseq.take(i + 1).drop_last() =~= idseq.take(i as int));
            assert(idseq.take(i + 1).last() == idseq[i as int]);
        }
        if i > 0 {
            out.append(",");
        }
        out.append(ids[i].as_str());
        proof {
            if i == 0 {
                assert(out@ =~= idseq.take(1)[0]);
            }
        }
        i += 1;
    }
    proof {
        assert(idseq.take(idseq.len() as int) =~= idseq);
    }
    out
}

/// The endpoint path of the batched lookup for one item type.
pub open spec fn batch_endpoint_spec(t: SpotifyItemType) -> Seq<char> {
    match t {
        SpotifyItemType::Track => "/v1/tracks"@,
        SpotifyItemType::Album => "/v1/albums"@,
        SpotifyItemType::Artist => "/v1/artists"@,
        SpotifyItemType::User => Seq::empty(),
    }
}

/// The endpoint path for the batched lookup of one item type.
pub fn batch_endpoint(t: SpotifyItemType) -> (r: &'static str)
    requires
        is_taggable(t),
    ensures
        r@ == batch_endpoint_spec(t),
{
    match t {
        SpotifyItemType::Track => "/v1/tracks",
        SpotifyItemType::Album => "/v1/albums",
        SpotifyItemType::Artist => "/v1/artists",
        SpotifyItemType::User => "",
    }
}

/// The endpoint path of the single-item lookup for an item type and id.
pub open spec fn single_endpoint_spec(t: SpotifyItemType, id: Seq<char>) -> Seq<char> {
    match t {
        SpotifyItemType::Track => "/v1/tracks/"@ + id,
        SpotifyItemType::Album => "/v1/albums/"@ + id,
        SpotifyItemType::Artist => "/v1/artists/"@ + id,
        SpotifyItemType::User => Seq::empty(),
    }
}

/// The endpoint path for fetching the single item a URI names. Fails with
/// `UnsupportedItemType` exactly when the URI's type cannot be fetched.
pub fn single_item_endpoint(uri: &SpotifyUri) -> (r: ApiResult<String>)
    ensures
        match r {
            Ok(s) => is_taggable(uri.item_type_spec()) && s@ == single_endpoint_spec(
                uri.item_type_spec(),
                uri.id_spec(),
            ),
            Err(e) => !is_taggable(uri.item_type_spec()) && e == (
            ApiError::UnsupportedItemType { item_type: SpotifyItemType::User }),
        },
{
    let prefix = match uri.item_type() {
        SpotifyItemType::Track => "/v1/tracks/",
        SpotifyItemType::Album => "/v1/albums/",
        SpotifyItemType::Artist => "/v1/artists/",
        SpotifyItemType::User => {
            return Err(ApiError::UnsupportedItemType { item_type: SpotifyItemType::User });
        },
    };
    let mut endpoint = prefix.to_owned();
    endpoint.append(uri.id());
    Ok(endpoint)
}

/// The items present in a batched response, in response order, each wrapped
/// as an [`Item`] by `f`; the holes the API returns for unmatched ids are
/// dropped.
pub open spec fn present_as<T>(results: Seq<Option<T>>, f: spec_fn(T) -> Item) -> Seq<Item>
    decreases results.len(),
{
    if results.len() == 0 {
        Seq::empty()
    } else {
        let rest = present_as(results.drop_last(), f);
        match results.last() {
            Some(v) => rest.push(f(v)),
            None => rest,
        }
    }
}

/// Dropping holes never grows a response: at most one output item per
/// requested id.
pub proof fn lemma_present_as_len<T>(results: Seq<Option<T>>, f: spec_fn(T) -> Item)
    ensures
        present_as(results, f).len() <= results.len(),
    decreases results.len(),
{
    if results.len() > 0 {
        lemma_present_as_len(results.drop_last(), f);
    }
}

/// Convert a batched tracks response into items, dropping holes.
pub fn tracks_to_items(response: TracksResponse) -> (r: Vec<Item>)
    ensures
        r@ == present_as(response.tracks@, |t: Track| Item::Track(t)),
{
    let mut rest = response.tracks;
    let mut out: Vec<Item> = Vec::new();
    while rest.len() > 0
        invariant
            present_as(rest@, |t: Track| Item::Track(t)) + out@ == present_as(
                response.tracks@,
                |t: Track| Item::Track(t),
            ),
        decreases rest@.len(),
    {
        let ghost before = rest@;
        let last = rest.pop();
        proof {
            assert(before.drop_last() =~= rest@);
        }
        if let Some(Some(v)) = last {
            out.insert(0, Item::Track(v));
        } else {
            proof {
                assert(present_as(before, |t: Track| Item::Track(t)) == present_as(
                    rest@,
                    |t: Track| Item::Track(t),
                ));
            }
        }
        proof {
            assert(present_as(rest@, |t: Track| Item::Track(t)) + out@ =~= present_as(
                response.tracks@,
                |t: Track| Item::Track(t),
            ));
        }
    }
    proof {
        assert(out@ =~= present_as(response.tracks@, |t: Track| Item::Track(t)));
    }
    out
}

/// Convert a batched albums response into items, dropping holes.
pub fn albums_to_items(response: AlbumsResponse) -> (r: Vec<Item>)
    ensures
        r@ == present_as(response.albums@, |a: AlbumSimplified| Item::Album(a)),
{
    let mut rest = response.albums;
    let mut out: Vec<Item> = Vec::new();
    while rest.len() > 0
        invariant
            present_as(rest@, |a: AlbumSimplified| Item::Album(a)) + out@ == present_as(
                response.albums@,
                |a: AlbumSimplified| Item::Album(a),
            ),
        decreases rest@.len(),
    {
        let ghost before = rest@;
        let last = rest.pop();
        proof {
            assert(before.drop_last() =~= rest@);
        }
        if let Some(Some(v)) = last {
            out.insert(0, Item::Album(v));
        } else {
            proof {
                assert(present_as(before, |a: AlbumSimplified| Item::Album(a)) == present_as(
                    rest@,
                    |a: AlbumSimplified| Item::Album(a),
                ));
            }
        }
        proof {
            assert(present_as(rest@, |a: AlbumSimplified| Item::Album(a)) + out@ =~= present_as(
                response.albums@,
                |a: AlbumSimplified| Item::Album(a),
            ));
        }
    }
    proof {
        assert(out@ =~= present_as(response.albums@, |a: AlbumSimplified| Item::Album(a)));
    }
    out
}

/// Convert a batched artists response into items, dropping holes.
pub fn artists_to_items(response: ArtistsResponse) -> (r: Vec<Item>)
    ensures
        r@ == present_as(response.artists@, |a: Artist| Item::Artist(a)),
{
    let mut rest = response.artists;
    let mut out: Vec<Item> = Vec::new();
    while rest.len() > 0
        invariant
            present_as(rest@, |a: Artist| Item::Artist(a)) + out@ == present_as(
                response.artists@,
                |a: Artist| Item::Artist(a),
            ),
        decreases rest@.len(),
    {
        let ghost before = rest@;
        let last = rest.pop();
        proof {
            assert(before.drop_last() =~= rest@);
        }
        if let Some(Some(v)) = last {
            out.insert(0, Item::Artist(v));
        } else {
            proof {
                assert(present_as(before, |a: Artist| Item::Artist(a)) == present_as(
                    rest@,
                    |a: Artist| Item::Artist(a),
                ));
            }
        }
        proof {
            assert(present_as(rest@, |a: Artist| Item::Artist(a)) + out@ =~= present_as(
                response.artists@,
                |a: Artist| Item::Artist(a),
            ));
        }
    }
    proof {
        assert(out@ =~= present_as(response.artists@, |a: Artist| Item::Artist(a)));
    }
    out
}

/// Concatenate the per-group item lists, in group (first-seen type) order.
/// Order is kept within each group; nothing reorders across groups.
pub fn collect_items(lists: Vec<Vec<Item>>) -> (r: Vec<Item>)
    ensures
        r@ == lists@.map_values(|v: Vec<Item>| v@).flatten(),
{
    let ghost orig = lists@.map_values(|v: Vec<Item>| v@);
    let mut rest = lists;
    let mut out: Vec<Item> = Vec::new();
    while rest.len() > 0
        invariant
            out@ + rest@.map_values(|v: Vec<Item>| v@).flatten() == orig.flatten(),
        decreases rest@.len(),
    {
        let ghost before = rest@.map_values(|v: Vec<Item>| v@);
        let mut first = rest.remove(0);
        let ghost first_view = first@;
        out.append(&mut first);
        proof {
            assert(rest@.map_values(|v: Vec<Item>| v@) =~= before.drop_first());
            assert(before.flatten() == before.first() + before.drop_first().flatten());
            assert(out@ + rest@.map_values(|v: Vec<Item>| v@).flatten() =~= orig.flatten());
        }
    }
    proof {
        assert(rest@.map_values(|v: Vec<Item>| v@).flatten().len() == 0);
        assert(out@ =~= orig.flatten());
    }
    out
}

} // verus!
