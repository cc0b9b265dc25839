//! The client core for the external music catalog: item and identifier
//! types, request batching, and HTTP response classification.

pub mod batch;
pub mod http;
pub mod internal;
pub mod types;

pub use types::AlbumSimplified;
pub use types::AlbumsResponse;
pub use types::Artist;
pub use types::ArtistSimplified;
pub use types::ArtistsResponse;
pub use types::ExternalUrls;
pub use types::Image;
pub use types::Item;
pub use types::PaginatedResponse;
pub use types::PrivateUser;
pub use types::SearchResponse;
pub use types::SpotifyItemType;
pub use types::SpotifyUri;
pub use types::Track;
pub use types::TracksResponse;
