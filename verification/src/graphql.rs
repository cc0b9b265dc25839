//! The query layer: pagination primitives, nodes and edges, tag and item
//! connections, and the pure decision parts of queries and mutations.

pub mod internal;
pub mod item;
pub mod mutation;
pub mod pagination;
pub mod query;
pub mod tag;

pub use internal::{GenericEdge, LimitOffset, Node, NodeType};
pub use item::{ItemSearch, TaggedItem, TaggedItemConnection, TaggedItemEdge, TaggedItemNode};
pub use mutation::{AddTagInput, AddTagPayload, DeleteTagInput, DeleteTagPayload, Mutation};
pub use pagination::{Cursor, PageInfo};
pub use query::Query;
pub use tag::{Tag, TagConnection, TagEdge, TagNode};
