//! Classification of upstream HTTP responses.
//!
//! The transport layer issues the actual GET and hands back the status code
//! and the body text (captured before any branching, since reading the body
//! consumes it). Everything decided about a response afterwards is here:
//! success means deserialize, a caller-nominated pass-through status means
//! typed absence, anything else is a hard upstream error.

use vstd::prelude::*;

use crate::error::{ApiError, ApiResult};
use crate::spotify::types::Item;

verus! {

/// The fixed base URL of the upstream catalog API.
pub const SPOTIFY_BASE_URL: &'static str = "https://api.spotify.com";

/// Whether `status` is an HTTP success (2xx) status.
pub open spec fn is_success_status(status: u16) -> bool {
    200 <= status < 300
}

/// Executable check for [`is_success_status`].
pub fn status_is_success(status: u16) -> (r: bool)
    ensures
        r == is_success_status(status),
{
    200 <= status && status < 300
}

/// Whether `status` is among the statuses the caller asked to pass through
/// as typed absence instead of a hard error.
pub fn status_passes_through(pass_through: &Vec<u16>, status: u16) -> (r: bool)
    ensures
        r == pass_through@.contains(status),
{
    let mut i: usize = 0;
    while i < pass_through.len()
        invariant
            i <= pass_through@.len(),
            forall|j: int| 0 <= j < i ==> pass_through@[j] != status,
        decreases pass_through@.len() - i,
    {
        if pass_through[i] == status {
            return true;
        }
        i += 1;
    }
    false
}

/// The endpoint path of the free-text search.
pub fn search_endpoint() -> (r: &'static str)
    ensures
        r@ == "/v1/search"@,
{
    "/v1/search"
}

/// The endpoint path of the authenticated user's own profile.
pub fn current_user_endpoint() -> (r: &'static str)
    ensures
        r@ == "/v1/me"@,
{
    "/v1/me"
}

/// The full URL for a request against an endpoint path.
pub fn full_url(endpoint: &str) -> (r: String)
    ensures
        r@ == SPOTIFY_BASE_URL@ + endpoint@,
{
    let mut url = SPOTIFY_BASE_URL.to_owned();
    url.append(endpoint);
    url
}

/// The value of the `Authorization` header carrying a bearer secret.
pub fn authorization_header_value(secret: &str) -> (r: String)
    ensures
        r@ == "Bearer "@ + secret@,
{
    let mut value = "Bearer ".to_owned();
    value.append(secret);
    value
}

/// Decide what a response means.
///
/// `parsed` is the outcome of attempting to deserialize the body as the
/// expected type; on non-success statuses it is ignored, since the body is
/// an error description then, not a value.
///
/// - 2xx with a deserialized value: that value.
/// - 2xx without one: schema drift, reported as a distinct deserialization
///   error carrying the raw body for diagnostics.
/// - a non-2xx status the caller nominated: typed absence (`None`).
/// - any other non-2xx status: an upstream HTTP error with status and body.
pub fn interpret_response<T>(
    status: u16,
    body: String,
    pass_through: &Vec<u16>,
    parsed: Option<T>,
) -> (r: ApiResult<Option<T>>)
    ensures
        is_success_status(status) ==> match parsed {
            Some(v) => r == Ok::<Option<T>, ApiError>(Some(v)),
            None => r == Err::<Option<T>, ApiError>(
                (ApiError::SpotifyApiDeserialization { body }),
            ),
        },
        !is_success_status(status) && pass_through@.contains(status) ==> r == Ok::<
            Option<T>,
            ApiError,
        >(None),
        !is_success_status(status) && !pass_through@.contains(status) ==> r == Err::<
            Option<T>,
            ApiError,
        >((ApiError::SpotifyApiHttp { status, body })),
{
    if status_is_success(status) {
        match parsed {
            Some(v) => Ok(Some(v)),
            None => Err(ApiError::SpotifyApiDeserialization { body }),
        }
    } else if status_passes_through(pass_through, status) {
        Ok(None)
    } else {
        Err(ApiError::SpotifyApiHttp { status, body })
    }
}

/// Decide what the response to a single-item lookup means. The one
/// pass-through status here is 404: a URI that matches nothing upstream is
/// reported as `None`, the typed absence, while every other failure is a
/// hard error as in [`interpret_response`].
pub fn interpret_item_response(status: u16, body: String, parsed: Option<Item>) -> (r: ApiResult<
    Option<Item>,
>)
    ensures
        is_success_status(status) ==> match parsed {
            Some(item) => r == Ok::<Option<Item>, ApiError>(Some(item)),
            None => r == Err::<Option<Item>, ApiError>(
                (ApiError::SpotifyApiDeserialization { body }),
            ),
        },
        !is_success_status(status) && status == 404 ==> r == Ok::<Option<Item>, ApiError>(None),
        !is_success_status(status) && status != 404 ==> r == Err::<Option<Item>, ApiError>(
            (ApiError::SpotifyApiHttp { status, body }),
        ),
{
    let mut pass_through: Vec<u16> = Vec::new();
    pass_through.push(404);
    proof {
        assert(pass_through@.len() == 1);
        assert(pass_through@[0] == 404u16);
        assert(pass_through@.contains(404u16)) by {
            assert(pass_through@[0] == 404u16);
        }
        assert(forall|st: u16| pass_through@.contains(st) ==> st == 404);
    }
    interpret_response(status, body, &pass_through, parsed)
}

} // verus!
