//! Client-side core of a music tagging service: canonical item-identifier
//! parsing, OAuth2 token lifecycle decisions, HTTP response classification,
//! type-based request batching, pagination normalization, and joining of
//! locally stored tags with live catalog items.
//!
//! Network and database traffic stay outside this crate; every function here
//! is pure computation over plain values, specified and verified.

pub mod auth;
pub mod db;
pub mod error;
pub mod graphql;
pub mod schema;
pub mod spotify;
pub mod util;

use vstd::prelude::*;

verus! {

/// App-wide configuration settings.
pub struct LauludConfig {
    /// Connection string for the document store.
    pub database_url: String,
    /// The host server, for use with the OAuth flow.
    pub hostname: String,
    /// ID for the Spotify app.
    pub spotify_client_id: String,
    /// Secret for the Spotify app.
    pub spotify_client_secret: String,
}

} // verus!
