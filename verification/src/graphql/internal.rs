//! Types internal to the API implementation: validated pagination
//! parameters, the polymorphic node with its globally unique ids, and the
//! generic edge type.

use vstd::prelude::*;

use crate::auth::UserId;
use crate::error::{InputValidationError, ParseError};
use crate::graphql::item::TaggedItemNode;
use crate::graphql::pagination::Cursor;
use crate::graphql::tag::TagNode;
use crate::util::{count_of, free_of, lemma_count_of_add, lemma_free_of_count, split3, str_eq};

verus! {

/// A parsed version of user pagination params, for paging through the
/// document store or the upstream catalog. Values in this struct have been
/// validated, so it can be passed around internally; build it with
/// [`LimitOffset::try_from_first_after`].
#[derive(Clone, Debug)]
pub struct LimitOffset {
    limit: Option<usize>,
    offset: Option<usize>,
}

impl LimitOffset {
    /// The page-size limit, when the caller gave one.
    pub closed spec fn limit_spec(self) -> Option<usize> {
        self.limit
    }

    /// The start offset, when the caller gave one.
    pub closed spec fn offset_spec(self) -> Option<usize> {
        self.offset
    }

    /// Map a caller's `first` and `after` pagination params to limit/offset
    /// values. `first` must be non-negative; `after` is exclusive, so the
    /// offset lands one past the cursor. An invalid `first` is reported
    /// against that field and propagated to the user.
    pub fn try_from_first_after(first: Option<i32>, after: Option<Cursor>) -> (r: Result<
        LimitOffset,
        InputValidationError,
    >)
        requires
            after matches Some(c) ==> c.offset < usize::MAX,
        ensures
            match r {
                Ok(lo) => {
                    &&& match first {
                        Some(f) => f >= 0 && lo.limit_spec() == Some(f as usize),
                        None => lo.limit_spec() is None,
                    }
                    &&& match after {
                        Some(c) => lo.offset_spec() == Some((c.offset + 1) as usize),
                        None => lo.offset_spec() is None,
                    }
                },
                Err(e) => first matches Some(f) && f < 0 && e.field@ == "first"@,
            },
    {
        let limit: Option<usize> = match first {
            Some(f) => {
                if f < 0 {
                    return Err(InputValidationError {
                        field: String::from_str("first"),
                        message: String::from_str(
                            "Invalid quantity, must be non-negative integer",
                        ),
                    });
                }
                let l: usize = f as u32 as usize;
                Some(l)
            },
            None => None,
        };
        let offset: Option<usize> = match after {
            // The first element shown is the one directly after the cursor.
            Some(cursor) => Some(cursor.offset() + 1),
            None => None,
        };
        Ok(LimitOffset { limit, offset })
    }

    pub fn limit(&self) -> (r: Option<usize>)
        ensures
            r == self.limit_spec(),
    {
        self.limit
    }

    pub fn offset(&self) -> (r: Option<usize>)
        ensures
            r == self.offset_spec(),
    {
        self.offset
    }
}

/// A discriminants-only mirror of the [`Node`] enum, used to generate and
/// parse node ids.
#[derive(Copy, Clone, Debug, PartialEq, Eq, Structural)]
pub enum NodeType {
    TaggedItemNode,
    TagNode,
}

impl NodeType {
    /// The name of this node type, as embedded in node ids.
    pub open spec fn name_spec(self) -> Seq<char> {
        match self {
            NodeType::TaggedItemNode => "TaggedItemNode"@,
            NodeType::TagNode => "TagNode"@,
        }
    }

    /// The name of this node type, as embedded in node ids.
    pub fn name(self) -> (r: &'static str)
        ensures
            r@ == self.name_spec(),
    {
        match self {
            NodeType::TaggedItemNode => "TaggedItemNode",
            NodeType::TagNode => "TagNode",
        }
    }

    /// Parse a node type name; exactly the declared names are accepted.
    pub fn parse(s: &str) -> (r: Result<NodeType, ParseError>)
        ensures
            match r {
                Ok(t) => s@ == t.name_spec(),
                Err(_) => forall|t: NodeType| s@ != t.name_spec(),
            },
    {
        if str_eq(s, "TaggedItemNode") {
            Ok(NodeType::TaggedItemNode)
        } else if str_eq(s, "TagNode") {
            Ok(NodeType::TagNode)
        } else {
            Err(ParseError {
                message: String::from_str("Unknown GraphQL node type"),
                value: s.to_owned(),
            })
        }
    }

    /// Parse a node id into its components. See [`node_id_chars`] for the
    /// id format.
    pub fn parse_id(id: &str) -> (r: Result<(NodeType, String, UserId), ParseError>)
        ensures
            match r {
                Ok(parts) => {
                    &&& free_of(parts.1@, '_')
                    &&& free_of(parts.2.0@, '_')
                    &&& id@ == node_id_chars(parts.0, parts.1@, parts.2.0@)
                },
                Err(_) => !is_node_id_chars(id@),
            },
    {
        let (type_part, value_part, user_part) = match split3(id, '_') {
            Some(parts) => parts,
            None => {
                proof {
                    if is_node_id_chars(id@) {
                        let (nt, v, u) = choose|nt: NodeType, v: Seq<char>, u: Seq<char>|
                            free_of(v, '_') && free_of(u, '_') && id@ == node_id_chars(nt, v, u);
                        lemma_node_id_count(nt, v, u);
                    }
                }
                return Err(node_id_parse_error(id));
            },
        };
        let node_type = match NodeType::parse(type_part.as_str()) {
            Ok(t) => t,
            Err(_) => {
                proof {
                    if is_node_id_chars(id@) {
                        let (nt, v, u) = choose|nt: NodeType, v: Seq<char>, u: Seq<char>|
                            free_of(v, '_') && free_of(u, '_') && id@ == node_id_chars(nt, v, u);
                        lemma_node_name_facts();
                        lemma_split3_unique(
                            '_',
                            type_part@,
                            value_part@,
                            user_part@,
                            nt.name_spec(),
                            v,
                            u,
                        );
                    }
                }
                return Err(node_id_parse_error(id));
            },
        };
        Ok((node_type, value_part, UserId(user_part)))
    }
}

fn node_id_parse_error(id: &str) -> ParseError {
    ParseError {
        message: String::from_str("Invalid GraphQL node ID"),
        value: id.to_owned(),
    }
}

/// The globally unique id of a node: the node type, some string that
/// identifies the node within its type (an item URI, a tag), and the owning
/// user's id, joined with underscores. The type name is embedded so that a
/// bare id says which data source can resolve it.
pub open spec fn node_id_chars(nt: NodeType, value: Seq<char>, user: Seq<char>) -> Seq<char> {
    nt.name_spec() + seq!['_'] + value + seq!['_'] + user
}

/// Whether `s` is a well-formed node id.
pub open spec fn is_node_id_chars(s: Seq<char>) -> bool {
    exists|nt: NodeType, value: Seq<char>, user: Seq<char>|
        free_of(value, '_') && free_of(user, '_') && s == node_id_chars(nt, value, user)
}

/// Facts about the node type names needed by the id proofs.
proof fn lemma_node_name_facts()
    ensures
        forall|t: NodeType| free_of(#[trigger] t.name_spec(), '_'),
        forall|t1: NodeType, t2: NodeType| t1.name_spec() == t2.name_spec() ==> t1 == t2,
{
    reveal_strlit("TaggedItemNode");
    reveal_strlit("TagNode");
    assert("TaggedItemNode"@ =~= seq![
        'T',
        'a',
        'g',
        'g',
        'e',
        'd',
        'I',
        't',
        'e',
        'm',
        'N',
        'o',
        'd',
        'e',
    ]);
    assert("TagNode"@ =~= seq!['T', 'a', 'g', 'N', 'o', 'd', 'e']);
    assert forall|t: NodeType| free_of(#[trigger] t.name_spec(), '_') by {
        match t {
            NodeType::TaggedItemNode => {},
            NodeType::TagNode => {},
        }
    }
    assert forall|t1: NodeType, t2: NodeType|
        t1.name_spec() == t2.name_spec() implies t1 == t2 by {
        if t1 != t2 {
            assert(t1.name_spec().len() != t2.name_spec().len());
        }
    }
}

/// A well-formed node id contains exactly two underscores.
proof fn lemma_node_id_count(nt: NodeType, value: Seq<char>, user: Seq<char>)
    requires
        free_of(value, '_'),
        free_of(user, '_'),
    ensures
        count_of(node_id_chars(nt, value, user), '_') == 2,
{
    lemma_node_name_facts();
    let head = nt.name_spec() + seq!['_'];
    let mid = head + value;
    let mid2 = mid + seq!['_'];
    lemma_count_of_add(nt.name_spec(), seq!['_'], '_');
    lemma_count_of_add(head, value, '_');
    lemma_count_of_add(mid, seq!['_'], '_');
    lemma_count_of_add(mid2, user, '_');
    lemma_free_of_count(nt.name_spec(), '_');
    lemma_free_of_count(value, '_');
    lemma_free_of_count(user, '_');
    assert(count_of(seq!['_'], '_') == 1) by {
        let one = seq!['_'];
        assert(one.len() == 1);
        assert(one.last() == '_');
        assert(one.drop_last() =~= Seq::<char>::empty());
        assert(count_of(Seq::<char>::empty(), '_') == 0);
    }
    assert(node_id_chars(nt, value, user) == mid2 + user);
}

/// A string splits into three separator-free parts in at most one way.
proof fn lemma_split3_unique(
    sep: char,
    a1: Seq<char>,
    b1: Seq<char>,
    c1: Seq<char>,
    a2: Seq<char>,
    b2: Seq<char>,
    c2: Seq<char>,
)
    requires
        free_of(a1, sep),
        free_of(b1, sep),
        free_of(c1, sep),
        free_of(a2, sep),
        free_of(b2, sep),
        free_of(c2, sep),
        a1 + seq![sep] + b1 + seq![sep] + c1 == a2 + seq![sep] + b2 + seq![sep] + c2,
    ensures
        a1 == a2,
        b1 == b2,
        c1 == c2,
{
    let s = a1 + seq![sep] + b1 + seq![sep] + c1;
    assert(s[a1.len() as int] == sep);
    assert(s[a2.len() as int] == sep);
    if a1.len() < a2.len() {
        assert(s[a1.len() as int] == a2[a1.len() as int]);
        assert(false);
    }
    if a2.len() < a1.len() {
        assert(s[a2.len() as int] == a1[a2.len() as int]);
        assert(false);
    }
    assert(a1 =~= a2) by {
        assert(forall|i: int| 0 <= i < a1.len() ==> s[i] == a1[i]);
        assert(forall|i: int| 0 <= i < a2.len() ==> s[i] == a2[i]);
    }
    let al = a1.len() as int;
    assert(s[al + 1 + b1.len()] == sep);
    assert(s[al + 1 + b2.len()] == sep);
    if b1.len() < b2.len() {
        assert(s[al + 1 + b1.len()] == b2[b1.len() as int]);
        assert(false);
    }
    if b2.len() < b1.len() {
        assert(s[al + 1 + b2.len()] == b1[b2.len() as int]);
        assert(false);
    }
    assert(b1 =~= b2) by {
        assert(forall|i: int| 0 <= i < b1.len() ==> s[al + 1 + i] == b1[i]);
        assert(forall|i: int| 0 <= i < b2.len() ==> s[al + 1 + i] == b2[i]);
    }
    assert(c1 =~= c2) by {
        assert(s.len() == al + 2 + b1.len() + c1.len());
        assert((a2 + seq![sep] + b2 + seq![sep] + c2).len() == al + 2 + b2.len() + c2.len());
        assert(c1.len() == c2.len());
        assert(forall|i: int| 0 <= i < c1.len() ==> s[al + 2 + b1.len() + i] == c1[i]);
        assert(forall|i: int| 0 <= i < c2.len() ==> s[al + 2 + b2.len() + i] == c2[i]);
    }
}

/// A node of the query graph: anything that can be looked up by a globally
/// unique id.
#[derive(Clone, Debug)]
pub enum Node {
    TaggedItemNode(TaggedItemNode),
    TagNode(TagNode),
}

impl Node {
    /// The [`NodeType`] of this node.
    pub open spec fn node_type_spec(self) -> NodeType {
        match self {
            Node::TaggedItemNode(_) => NodeType::TaggedItemNode,
            Node::TagNode(_) => NodeType::TagNode,
        }
    }

    /// Map this node to its discriminants-only [`NodeType`].
    pub fn node_type(&self) -> (r: NodeType)
        ensures
            r == self.node_type_spec(),
    {
        match self {
            Node::TaggedItemNode(_) => NodeType::TaggedItemNode,
            Node::TagNode(_) => NodeType::TagNode,
        }
    }

    /// The globally unique id of this node: for an item node the value part
    /// is the item's canonical URI, for a tag node the tag text.
    pub fn get_id(&self, user_id: &UserId) -> (r: String)
        requires
            self matches Node::TaggedItemNode(n) ==> n.item.uri_spec().wf(),
        ensures
            r@ == node_id_chars(
                self.node_type_spec(),
                match self {
                    Node::TaggedItemNode(n) => n.item.uri_spec().chars_spec(),
                    Node::TagNode(n) => n.tag.tag_spec(),
                },
                user_id.0@,
            ),
    {
        let value_id = match self {
            Node::TaggedItemNode(node) => node.item.uri_().to_uri_string(),
            Node::TagNode(node) => node.tag.tag().to_owned(),
        };
        Node::id_string(self.node_type(), value_id.as_str(), user_id)
    }

    /// Build the globally unique id for a node from its parts; the inverse
    /// direction is [`NodeType::parse_id`].
    pub fn id_string(node_type: NodeType, value_id: &str, user_id: &UserId) -> (r: String)
        ensures
            r@ == node_id_chars(node_type, value_id@, user_id.0@),
    {
        let mut out = node_type.name().to_owned();
        out.append("_");
        out.append(value_id);
        out.append("_");
        out.append(user_id.0.as_str());
        proof {
            reveal_strlit("_");
            assert("_"@ =~= seq!['_']);
            assert(out@ =~= node_id_chars(node_type, value_id@, user_id.0@));
        }
        out
    }
}

/// An edge of a paged connection: a node plus the cursor that locates it.
#[derive(Clone, Debug)]
pub struct GenericEdge<N> {
    pub node: N,
    pub cursor: Cursor,
}

impl<N> GenericEdge<N> {
    pub fn node(&self) -> (r: &N)
        ensures
            r == &self.node,
    {
        &self.node
    }

    pub fn cursor(&self) -> (r: &Cursor)
        ensures
            r == &self.cursor,
    {
        &self.cursor
    }

    /// Convert a list of nodes into edges. The edges keep the same ordering,
    /// and each edge gets a cursor from the given page offset plus its index
    /// within the page.
    pub fn from_nodes(rows: Vec<N>, offset: usize) -> (r: Vec<GenericEdge<N>>)
        requires
            offset + rows@.len() <= usize::MAX,
        ensures
            r@.len() == rows@.len(),
            forall|i: int|
                0 <= i < rows@.len() ==> (#[trigger] r@[i]).node == rows@[i] && r@[i].cursor.offset
                    == offset + i,
    {
        let ghost orig = rows@;
        let mut rest = rows;
        let mut out: Vec<GenericEdge<N>> = Vec::new();
        while rest.len() > 0
            invariant
                out@.len() + rest@.len() == orig.len(),
                offset + orig.len() <= usize::MAX,
                forall|i: int|
                    0 <= i < out@.len() ==> (#[trigger] out@[i]).node == orig[i]
                        && out@[i].cursor.offset == offset + i,
                forall|i: int| 0 <= i < rest@.len() ==> rest@[i] == orig[out@.len() + i],
            decreases rest@.len(),
        {
            let node = rest.remove(0);
            let index = out.len();
            out.push(GenericEdge { node, cursor: Cursor::from_offset_index(offset, index) });
        }
        out
    }
}

/// A conversion for mapping single nodes into edges, with a cursor pinned to
/// the top of the collection. Useful in mutations, which usually return one
/// edge.
impl<N> From<N> for GenericEdge<N> {
    fn from(node: N) -> (r: GenericEdge<N>) {
        GenericEdge { node, cursor: Cursor { offset: 0 } }
    }
}

impl<N> vstd::std_specs::convert::FromSpecImpl<N> for GenericEdge<N> {
    open spec fn obeys_from_spec() -> bool {
        true
    }

    open spec fn from_spec(node: N) -> GenericEdge<N> {
        GenericEdge { node, cursor: Cursor { offset: 0 } }
    }
}

} // verus!
