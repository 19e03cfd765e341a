//! The typed node/edge graph and the builder that decodes it from a JSON
//! document.
//!
//! Node keys of the document map to internal indices in document order: the
//! node inserted for the `i`-th object entry has index `i`. Edges name their
//! endpoints by key; an edge whose key maps to no node fails. Two edges that
//! target the same destination slot resolve last-write-wins: the later edge
//! replaces the earlier one in place.

use vstd::prelude::*;
use vstd::string::*;

use crate::constant::{json_u32, resolve_constant, resolve_constant_spec, u32_field_spec, TypedValue};
use crate::errors::{err_rel, error_message_spec, ErrorModel, Kind, ParseError};
use crate::fmt::{dec_of, push_dec_u64, str_eq};
use crate::json::{obj_get, obj_get_spec, parse_json_text, json_doc_of, JsonValue};
use crate::types::{resolve_type, resolve_type_spec, TypeName};

verus! {

/// One vertex of the shader graph.
#[derive(Clone, Copy, Debug, PartialEq, Eq, Structural)]
pub enum Node {
    /// Shader input at a location, of a type.
    Input(u32, TypeName),
    /// Shader output at a location, of a type.
    Output(u32, TypeName),
    /// Builds a composite value of a type from its operands.
    Construct(TypeName),
    /// Extracts the component at an index from a composite operand.
    Extract(u32),
    /// A typed constant.
    Constant(TypedValue),
    Normalize,
    Add,
    Subtract,
    Multiply,
    Divide,
    Modulus,
    Clamp,
    Dot,
    Cross,
    Floor,
    Ceil,
    Round,
    Sin,
    Cos,
    Tan,
    Pow,
    Min,
    Max,
    Length,
    Distance,
    Reflect,
    Refract,
}

/// One directed edge: from a source node to an input slot of a destination
/// node, all by internal index.
#[derive(Clone, Copy, Debug, PartialEq, Eq, Structural)]
pub struct Edge {
    /// Index of the source node.
    pub from: usize,
    /// Index of the destination node.
    pub to: usize,
    /// Input slot of the destination the edge feeds.
    pub input: u32,
}

/// The mathematical value of a [`Graph`].
pub ghost struct GraphModel {
    /// The nodes, in insertion order; a node's index is its position.
    pub nodes: Seq<Node>,
    /// The edges, in insertion order, at most one per destination slot.
    pub edges: Seq<Edge>,
}

/// The typed shader graph: nodes with stable indices, and edges between them.
#[derive(Debug)]
pub struct Graph {
    /// The nodes, in insertion order; a node's index is its position.
    pub nodes: Vec<Node>,
    /// The edges, in insertion order.
    pub edges: Vec<Edge>,
}

impl View for Graph {
    type V = GraphModel;

    open spec fn view(&self) -> GraphModel {
        GraphModel { nodes: self.nodes@, edges: self.edges@ }
    }
}

/// Whether two edges target the same destination slot.
pub open spec fn same_slot(a: Edge, b: Edge) -> bool {
    a.to == b.to && a.input == b.input
}

/// The position of the edge targeting the same slot as `e`, if one exists.
pub open spec fn find_slot_spec(edges: Seq<Edge>, e: Edge) -> Option<int>
    decreases edges.len(),
{
    if edges.len() == 0 {
        None
    } else if same_slot(edges[0], e) {
        Some(0)
    } else {
        match find_slot_spec(edges.skip(1), e) {
            Some(j) => Some(j + 1),
            None => None,
        }
    }
}

/// Adding an edge: a later edge to an already-taken destination slot replaces
/// the earlier one in place; otherwise the edge is appended.
pub open spec fn add_edge_spec(edges: Seq<Edge>, e: Edge) -> Seq<Edge> {
    match find_slot_spec(edges, e) {
        Some(j) => edges.update(j, e),
        None => edges.push(e),
    }
}

impl Graph {
    /// An empty graph.
    pub fn new() -> (r: Graph)
        ensures
            r@.nodes.len() == 0,
            r@.edges.len() == 0,
    {
        Graph { nodes: Vec::new(), edges: Vec::new() }
    }

    /// Inserts a node, handing back its index.
    pub fn add_node(&mut self, n: Node) -> (idx: usize)
        ensures
            final(self)@.nodes == old(self)@.nodes.push(n),
            final(self)@.edges == old(self)@.edges,
            idx == old(self)@.nodes.len(),
    {
        let idx = self.nodes.len();
        self.nodes.push(n);
        idx
    }

    /// Inserts an edge; a later edge to an already-taken destination slot
    /// wins, replacing the earlier edge in place.
    pub fn add_edge(&mut self, from: usize, to: usize, input: u32)
        ensures
            final(self)@.nodes == old(self)@.nodes,
            final(self)@.edges == add_edge_spec(
                old(self)@.edges,
                (Edge { from: from, to: to, input: input }),
            ),
    {
        let e = Edge { from, to, input };
        let n = self.edges.len();
        proof {
            assert(self.edges@.skip(0) =~= self.edges@);
        }
        let mut i: usize = 0;
        while i < n
            invariant
                i <= n,
                n == self.edges@.len(),
                self == old(self),
                e == (Edge { from: from, to: to, input: input }),
                (match find_slot_spec(self.edges@.skip(i as int), e) {
                    Some(k) => find_slot_spec(self.edges@, e) == Some(k + i),
                    None => find_slot_spec(self.edges@, e) is None,
                }),
            decreases n - i,
        {
            proof {
                assert(self.edges@.skip(i as int)[0] == self.edges@[i as int]);
                assert(self.edges@.skip(i as int).skip(1) =~= self.edges@.skip(i as int + 1));
            }
            let cur = self.edges[i];
            if cur.to == e.to && cur.input == e.input {
                assert(find_slot_spec(self.edges@.skip(i as int), e) == Some(0int));
                self.edges.set(i, e);
                return ;
            }
            i += 1;
        }
        assert(self.edges@.skip(n as int).len() == 0);
        self.edges.push(e);
    }
}

// ---------------------------------------------------------------------------
// Key-to-index mapping
// ---------------------------------------------------------------------------

/// The internal index a node key maps to: the position of the last object
/// entry bearing that key, as map insertion order would leave it.
pub open spec fn lookup_key_spec(entries: Seq<(String, JsonValue)>, key: Seq<char>) -> Option<int>
    decreases entries.len(),
{
    if entries.len() == 0 {
        None
    } else if entries.last().0@ == key {
        Some(entries.len() - 1)
    } else {
        lookup_key_spec(entries.drop_last(), key)
    }
}

/// A mapped key points at an entry bearing it.
pub proof fn lemma_lookup_hits(entries: Seq<(String, JsonValue)>, key: Seq<char>)
    ensures
        lookup_key_spec(entries, key) matches Some(i) ==> 0 <= i < entries.len() && entries[i].0@
            == key,
    decreases entries.len(),
{
    if entries.len() > 0 && entries.last().0@ != key {
        lemma_lookup_hits(entries.drop_last(), key);
    }
}

/// The key-to-index mapping is injective: two distinct mapped keys always
/// map to two distinct internal indices.
pub proof fn lemma_key_mapping_injective(
    entries: Seq<(String, JsonValue)>,
    a: Seq<char>,
    b: Seq<char>,
)
    requires
        a != b,
        lookup_key_spec(entries, a) is Some,
        lookup_key_spec(entries, b) is Some,
    ensures
        lookup_key_spec(entries, a) != lookup_key_spec(entries, b),
{
    lemma_lookup_hits(entries, a);
    lemma_lookup_hits(entries, b);
}

/// Finds the index a key maps to, last entry with the key winning.
pub fn lookup_key(entries: &Vec<(String, JsonValue)>, key: &Vec<char>) -> (r: Option<usize>)
    ensures
        match r {
            Some(i) => lookup_key_spec(entries@, key@) == Some(i as int),
            None => lookup_key_spec(entries@, key@) is None,
        },
{
    let n = entries.len();
    proof {
        assert(entries@.take(n as int) =~= entries@);
    }
    let mut i: usize = n;
    while i > 0
        invariant
            i <= n,
            n == entries@.len(),
            lookup_key_spec(entries@.take(i as int), key@) == lookup_key_spec(entries@, key@),
        decreases i,
    {
        proof {
            assert(entries@.take(i as int).last() == entries@[i as int - 1]);
            assert(entries@.take(i as int).drop_last() =~= entries@.take(i as int - 1));
        }
        if chars_eq_str(key, entries[i - 1].0.as_str()) {
            return Some(i - 1);
        }
        i -= 1;
    }
    None
}

/// Whether a character buffer holds the same characters as a string slice.
fn chars_eq_str(v: &Vec<char>, s: &str) -> (r: bool)
    ensures
        r == (s@ == v@),
{
    let n = s.unicode_len();
    if n != v.len() {
        return false;
    }
    let mut i: usize = 0;
    while i < n
        invariant
            i <= n,
            n == s@.len(),
            n == v@.len(),
            forall|j: int| 0 <= j < i ==> s@[j] == v@[j],
        decreases n - i,
    {
        if s.get_char(i) != v[i] {
            return false;
        }
        i += 1;
    }
    assert(s@ =~= v@);
    true
}

// ---------------------------------------------------------------------------
// Decoding one node
// ---------------------------------------------------------------------------

/// Decodes the fields of an `Input` or `Output` node: a location, then a
/// type name resolved against the vocabulary.
pub open spec fn io_node_spec(is_input: bool, fields: Seq<(String, JsonValue)>) -> Result<
    Node,
    ErrorModel,
> {
    let ctx = if is_input {
        "input"@
    } else {
        "output"@
    };
    let loc_ctx = if is_input {
        "input location"@
    } else {
        "output location"@
    };
    let ty_ctx = if is_input {
        "input type"@
    } else {
        "output type"@
    };
    match obj_get_spec(fields, "location"@) {
        None => Err(ErrorModel::Missing(ctx, "location"@)),
        Some(loc) => match u32_field_spec(loc, loc_ctx) {
            Err(e) => Err(e),
            Ok(location) => match obj_get_spec(fields, "type"@) {
                None => Err(ErrorModel::Missing(ctx, "type"@)),
                Some(tv) => match tv {
                    JsonValue::Text(s) => match resolve_type_spec(s@) {
                        Some(ty) => Ok(
                            if is_input {
                                Node::Input(location, ty)
                            } else {
                                Node::Output(location, ty)
                            },
                        ),
                        None => Err(ErrorModel::UnknownType(ctx, s@)),
                    },
                    _ => Err(ErrorModel::WrongKind(ty_ctx, Kind::Str)),
                },
            },
        },
    }
}

/// Decodes the fields of a `Construct` node: one type name.
pub open spec fn construct_node_spec(fields: Seq<(String, JsonValue)>) -> Result<
    Node,
    ErrorModel,
> {
    match obj_get_spec(fields, "type"@) {
        None => Err(ErrorModel::Missing("construct"@, "type"@)),
        Some(tv) => match tv {
            JsonValue::Text(s) => match resolve_type_spec(s@) {
                Some(ty) => Ok(Node::Construct(ty)),
                None => Err(ErrorModel::UnknownType("construct"@, s@)),
            },
            _ => Err(ErrorModel::WrongKind("construct type"@, Kind::Str)),
        },
    }
}

/// Decodes the fields of an `Extract` node: one component index.
pub open spec fn extract_node_spec(fields: Seq<(String, JsonValue)>) -> Result<Node, ErrorModel> {
    match obj_get_spec(fields, "index"@) {
        None => Err(ErrorModel::Missing("extract"@, "index"@)),
        Some(iv) => match u32_field_spec(iv, "extract index"@) {
            Ok(index) => Ok(Node::Extract(index)),
            Err(e) => Err(e),
        },
    }
}

/// Decodes the fields of a `Constant` node: a type name and a literal,
/// decoded all-or-nothing by the constant resolver.
pub open spec fn constant_node_spec(fields: Seq<(String, JsonValue)>) -> Result<Node, ErrorModel> {
    match obj_get_spec(fields, "type"@) {
        None => Err(ErrorModel::Missing("constant"@, "type"@)),
        Some(tv) => match tv {
            JsonValue::Text(s) => match obj_get_spec(fields, "value"@) {
                None => Err(ErrorModel::Missing("constant"@, "value"@)),
                Some(val) => match resolve_type_spec(s@) {
                    Some(ty) => match resolve_constant_spec(ty, val) {
                        Ok(tv2) => Ok(Node::Constant(tv2)),
                        Err(e) => Err(e),
                    },
                    None => Err(ErrorModel::UnknownType("constant"@, s@)),
                },
            },
            _ => Err(ErrorModel::WrongKind("constant type"@, Kind::Str)),
        },
    }
}

/// Dispatches a node on its title: the five structured kinds, the closed set
/// of operator titles, and the unimplemented-node fault for everything else.
pub open spec fn titled_node_spec(t: Seq<char>, fields: Seq<(String, JsonValue)>) -> Result<
    Node,
    ErrorModel,
> {
    if t == "Input"@ {
        io_node_spec(true, fields)
    } else if t == "Output"@ {
        io_node_spec(false, fields)
    } else if t == "Construct"@ {
        construct_node_spec(fields)
    } else if t == "Extract"@ {
        extract_node_spec(fields)
    } else if t == "Constant"@ {
        constant_node_spec(fields)
    } else if t == "Normalize"@ {
        Ok(Node::Normalize)
    } else if t == "Add"@ {
        Ok(Node::Add)
    } else if t == "Subtract"@ {
        Ok(Node::Subtract)
    } else if t == "Multiply"@ {
        Ok(Node::Multiply)
    } else if t == "Divide"@ {
        Ok(Node::Divide)
    } else if t == "Modulus"@ {
        Ok(Node::Modulus)
    } else if t == "Clamp"@ {
        Ok(Node::Clamp)
    } else if t == "Dot"@ {
        Ok(Node::Dot)
    } else if t == "Cross"@ {
        Ok(Node::Cross)
    } else if t == "Floor"@ {
        Ok(Node::Floor)
    } else if t == "Ceil"@ {
        Ok(Node::Ceil)
    } else if t == "Round"@ {
        Ok(Node::Round)
    } else if t == "Sin"@ {
        Ok(Node::Sin)
    } else if t == "Cos"@ {
        Ok(Node::Cos)
    } else if t == "Tan"@ {
        Ok(Node::Tan)
    } else if t == "Pow"@ {
        Ok(Node::Pow)
    } else if t == "Min"@ {
        Ok(Node::Min)
    } else if t == "Max"@ {
        Ok(Node::Max)
    } else if t == "Length"@ {
        Ok(Node::Length)
    } else if t == "Distance"@ {
        Ok(Node::Distance)
    } else if t == "Reflect"@ {
        Ok(Node::Reflect)
    } else if t == "Refract"@ {
        Ok(Node::Refract)
    } else {
        Err(ErrorModel::UnimplementedNode(t))
    }
}

/// Decodes one node specification: an object bearing a string `title`,
/// dispatched on the title.
pub open spec fn parse_node_spec(v: JsonValue) -> Result<Node, ErrorModel> {
    match v {
        JsonValue::Object(fields) => match obj_get_spec(fields@, "title"@) {
            None => Err(ErrorModel::Missing("node"@, "title"@)),
            Some(tv) => match tv {
                JsonValue::Text(t) => titled_node_spec(t@, fields@),
                _ => Err(ErrorModel::WrongKind("node title"@, Kind::Str)),
            },
        },
        _ => Err(ErrorModel::NotObject("node"@)),
    }
}

fn io_node(is_input: bool, fields: &Vec<(String, JsonValue)>) -> (r: Result<Node, ParseError>)
    ensures
        err_rel(r, io_node_spec(is_input, fields@)),
{
    let ctx: &str = if is_input {
        "input"
    } else {
        "output"
    };
    let loc = match obj_get(fields, "location") {
        Some(v) => v,
        None => {
            return Err(ParseError::Missing(ctx.to_owned(), String::from_str("location")));
        },
    };
    let loc_ctx: &str = if is_input {
        "input location"
    } else {
        "output location"
    };
    let location = match json_u32(loc, loc_ctx) {
        Ok(x) => x,
        Err(e) => return Err(e),
    };
    let tv = match obj_get(fields, "type") {
        Some(v) => v,
        None => {
            return Err(ParseError::Missing(ctx.to_owned(), String::from_str("type")));
        },
    };
    match tv {
        JsonValue::Text(s) => match resolve_type(s.as_str()) {
            Some(ty) => {
                if is_input {
                    Ok(Node::Input(location, ty))
                } else {
                    Ok(Node::Output(location, ty))
                }
            },
            None => Err(ParseError::UnknownType(ctx.to_owned(), s.clone())),
        },
        _ => {
            let ty_ctx: &str = if is_input {
                "input type"
            } else {
                "output type"
            };
            Err(ParseError::WrongKind(ty_ctx.to_owned(), Kind::Str))
        },
    }
}

fn construct_node(fields: &Vec<(String, JsonValue)>) -> (r: Result<Node, ParseError>)
    ensures
        err_rel(r, construct_node_spec(fields@)),
{
    let tv = match obj_get(fields, "type") {
        Some(v) => v,
        None => {
            return Err(
                ParseError::Missing(String::from_str("construct"), String::from_str("type")),
            );
        },
    };
    match tv {
        JsonValue::Text(s) => match resolve_type(s.as_str()) {
            Some(ty) => Ok(Node::Construct(ty)),
            None => Err(ParseError::UnknownType(String::from_str("construct"), s.clone())),
        },
        _ => Err(ParseError::WrongKind(String::from_str("construct type"), Kind::Str)),
    }
}

fn extract_node(fields: &Vec<(String, JsonValue)>) -> (r: Result<Node, ParseError>)
    ensures
        err_rel(r, extract_node_spec(fields@)),
{
    let iv = match obj_get(fields, "index") {
        Some(v) => v,
        None => {
            return Err(
                ParseError::Missing(String::from_str("extract"), String::from_str("index")),
            );
        },
    };
    match json_u32(iv, "extract index") {
        Ok(index) => Ok(Node::Extract(index)),
        Err(e) => Err(e),
    }
}

fn constant_node(fields: &Vec<(String, JsonValue)>) -> (r: Result<Node, ParseError>)
    ensures
        err_rel(r, constant_node_spec(fields@)),
{
    let tv = match obj_get(fields, "type") {
        Some(v) => v,
        None => {
            return Err(
                ParseError::Missing(String::from_str("constant"), String::from_str("type")),
            );
        },
    };
    let s = match tv {
        JsonValue::Text(s) => s,
        _ => {
            return Err(ParseError::WrongKind(String::from_str("constant type"), Kind::Str));
        },
    };
    let val = match obj_get(fields, "value") {
        Some(v) => v,
        None => {
            return Err(
                ParseError::Missing(String::from_str("constant"), String::from_str("value")),
            );
        },
    };
    match resolve_type(s.as_str()) {
        Some(ty) => {
            proof {
                crate::types::lemma_resolver_total(s@);
            }
            match resolve_constant(&ty, val) {
                Ok(v2) => Ok(Node::Constant(v2)),
                Err(e) => Err(e),
            }
        },
        None => Err(ParseError::UnknownType(String::from_str("constant"), s.clone())),
    }
}

/// Decodes one node specification.
pub fn parse_node(v: &JsonValue) -> (r: Result<Node, ParseError>)
    ensures
        err_rel(r, parse_node_spec(*v)),
{
    let fields = match v {
        JsonValue::Object(fields) => fields,
        _ => {
            return Err(ParseError::NotObject(String::from_str("node")));
        },
    };
    let tv = match obj_get(fields, "title") {
        Some(t) => t,
        None => {
            return Err(ParseError::Missing(String::from_str("node"), String::from_str("title")));
        },
    };
    let t = match tv {
        JsonValue::Text(t) => t,
        _ => {
            return Err(ParseError::WrongKind(String::from_str("node title"), Kind::Str));
        },
    };
    let title = t.as_str();
    if str_eq(title, "Input") {
        io_node(true, fields)
    } else if str_eq(title, "Output") {
        io_node(false, fields)
    } else if str_eq(title, "Construct") {
        construct_node(fields)
    } else if str_eq(title, "Extract") {
        extract_node(fields)
    } else if str_eq(title, "Constant") {
        constant_node(fields)
    } else if str_eq(title, "Normalize") {
        Ok(Node::Normalize)
    } else if str_eq(title, "Add") {
        Ok(Node::Add)
    } else if str_eq(title, "Subtract") {
        Ok(Node::Subtract)
    } else if str_eq(title, "Multiply") {
        Ok(Node::Multiply)
    } else if str_eq(title, "Divide") {
        Ok(Node::Divide)
    } else if str_eq(title, "Modulus") {
        Ok(Node::Modulus)
    } else if str_eq(title, "Clamp") {
        Ok(Node::Clamp)
    } else if str_eq(title, "Dot") {
        Ok(Node::Dot)
    } else if str_eq(title, "Cross") {
        Ok(Node::Cross)
    } else if str_eq(title, "Floor") {
        Ok(Node::Floor)
    } else if str_eq(title, "Ceil") {
        Ok(Node::Ceil)
    } else if str_eq(title, "Round") {
        Ok(Node::Round)
    } else if str_eq(title, "Sin") {
        Ok(Node::Sin)
    } else if str_eq(title, "Cos") {
        Ok(Node::Cos)
    } else if str_eq(title, "Tan") {
        Ok(Node::Tan)
    } else if str_eq(title, "Pow") {
        Ok(Node::Pow)
    } else if str_eq(title, "Min") {
        Ok(Node::Min)
    } else if str_eq(title, "Max") {
        Ok(Node::Max)
    } else if str_eq(title, "Length") {
        Ok(Node::Length)
    } else if str_eq(title, "Distance") {
        Ok(Node::Distance)
    } else if str_eq(title, "Reflect") {
        Ok(Node::Reflect)
    } else if str_eq(title, "Refract") {
        Ok(Node::Refract)
    } else {
        Err(ParseError::UnimplementedNode(t.clone()))
    }
}

// ---------------------------------------------------------------------------
// Decoding edges
// ---------------------------------------------------------------------------

/// A numeric field of an edge: the unsigned reading of a JSON number.
pub open spec fn edge_num_spec(v: JsonValue, ctx: Seq<char>) -> Result<u64, ErrorModel> {
    match v {
        JsonValue::Num(n) => match n.unsigned {
            Some(x) => Ok(x),
            None => Err(ErrorModel::WrongKind(ctx, Kind::Number)),
        },
        _ => Err(ErrorModel::WrongKind(ctx, Kind::Number)),
    }
}

fn edge_num(v: &JsonValue, ctx: &str) -> (r: Result<u64, ParseError>)
    ensures
        err_rel(r, edge_num_spec(*v, ctx@)),
{
    match v {
        JsonValue::Num(n) => match n.unsigned {
            Some(x) => Ok(x),
            None => Err(ParseError::WrongKind(ctx.to_owned(), Kind::Number)),
        },
        _ => Err(ParseError::WrongKind(ctx.to_owned(), Kind::Number)),
    }
}

/// Decodes one edge specification: an object with numeric `from`, `to` and
/// `input` fields; the endpoint numbers, written in decimal, are the node
/// keys the edge cites, and each must be mapped.
pub open spec fn parse_edge_spec(entries: Seq<(String, JsonValue)>, v: JsonValue) -> Result<
    Edge,
    ErrorModel,
> {
    match v {
        JsonValue::Object(fields) => match obj_get_spec(fields@, "from"@) {
            None => Err(ErrorModel::Missing("edge"@, "from"@)),
            Some(fv) => match edge_num_spec(fv, "edge origin"@) {
                Err(e) => Err(e),
                Ok(from_n) => match obj_get_spec(fields@, "to"@) {
                    None => Err(ErrorModel::Missing("edge"@, "to"@)),
                    Some(tv) => match edge_num_spec(tv, "edge destination"@) {
                        Err(e) => Err(e),
                        Ok(to_n) => match obj_get_spec(fields@, "input"@) {
                            None => Err(ErrorModel::Missing("edge"@, "input"@)),
                            Some(iv) => match edge_num_spec(iv, "edge input"@) {
                                Err(e) => Err(e),
                                Ok(slot) => match lookup_key_spec(entries, dec_of(from_n as nat)) {
                                    None => Err(ErrorModel::UndefinedEndpoint(true)),
                                    Some(fi) => match lookup_key_spec(
                                        entries,
                                        dec_of(to_n as nat),
                                    ) {
                                        None => Err(ErrorModel::UndefinedEndpoint(false)),
                                        Some(ti) => Ok(
                                            (Edge {
                                                from: fi as usize,
                                                to: ti as usize,
                                                input: slot as u32,
                                            }),
                                        ),
                                    },
                                },
                            },
                        },
                    },
                },
            },
        },
        _ => Err(ErrorModel::NotObject("edge"@)),
    }
}

/// Decodes one edge specification against the node entries.
pub fn parse_edge(entries: &Vec<(String, JsonValue)>, v: &JsonValue) -> (r: Result<
    Edge,
    ParseError,
>)
    ensures
        err_rel(r, parse_edge_spec(entries@, *v)),
{
    let fields = match v {
        JsonValue::Object(fields) => fields,
        _ => {
            return Err(ParseError::NotObject(String::from_str("edge")));
        },
    };
    let fv = match obj_get(fields, "from") {
        Some(x) => x,
        None => {
            return Err(ParseError::Missing(String::from_str("edge"), String::from_str("from")));
        },
    };
    let from_n = match edge_num(fv, "edge origin") {
        Ok(x) => x,
        Err(e) => return Err(e),
    };
    let tv = match obj_get(fields, "to") {
        Some(x) => x,
        None => {
            return Err(ParseError::Missing(String::from_str("edge"), String::from_str("to")));
        },
    };
    let to_n = match edge_num(tv, "edge destination") {
        Ok(x) => x,
        Err(e) => return Err(e),
    };
    let iv = match obj_get(fields, "input") {
        Some(x) => x,
        None => {
            return Err(ParseError::Missing(String::from_str("edge"), String::from_str("input")));
        },
    };
    let slot = match edge_num(iv, "edge input") {
        Ok(x) => x,
        Err(e) => return Err(e),
    };
    let mut from_key: Vec<char> = Vec::new();
    push_dec_u64(&mut from_key, from_n);
    let fi = match lookup_key(entries, &from_key) {
        Some(i) => i,
        None => {
            return Err(ParseError::UndefinedEndpoint(true));
        },
    };
    let mut to_key: Vec<char> = Vec::new();
    push_dec_u64(&mut to_key, to_n);
    let ti = match lookup_key(entries, &to_key) {
        Some(i) => i,
        None => {
            return Err(ParseError::UndefinedEndpoint(false));
        },
    };
    Ok(Edge { from: fi, to: ti, input: #[verifier::truncate] (slot as u32) })
}

/// An edge that decodes points at nodes the entry list really holds.
pub proof fn lemma_edge_indices(entries: Seq<(String, JsonValue)>, v: JsonValue)
    ensures
        parse_edge_spec(entries, v) matches Ok(ed) ==> ed.from < entries.len() && ed.to
            < entries.len(),
{
    if parse_edge_spec(entries, v) is Ok {
        let ed = parse_edge_spec(entries, v)->Ok_0;
        let fields = v->Object_0;
        let from_n = edge_num_spec(obj_get_spec(fields@, "from"@)->Some_0, "edge origin"@)->Ok_0;
        let to_n = edge_num_spec(obj_get_spec(fields@, "to"@)->Some_0, "edge destination"@)->Ok_0;
        lemma_lookup_hits(entries, dec_of(from_n as nat));
        lemma_lookup_hits(entries, dec_of(to_n as nat));
    }
}

// ---------------------------------------------------------------------------
// Decoding the whole document
// ---------------------------------------------------------------------------

/// Decodes the node entries in document order; the first fault wins.
pub open spec fn parse_nodes_spec(entries: Seq<(String, JsonValue)>) -> Result<
    Seq<Node>,
    ErrorModel,
>
    decreases entries.len(),
{
    if entries.len() == 0 {
        Ok(Seq::empty())
    } else {
        match parse_nodes_spec(entries.drop_last()) {
            Err(e) => Err(e),
            Ok(nodes) => match parse_node_spec(entries.last().1) {
                Err(e) => Err(e),
                Ok(n) => Ok(nodes.push(n)),
            },
        }
    }
}

/// Decodes the edge list in order; the first fault wins, and a later edge to
/// a taken destination slot replaces the earlier one.
pub open spec fn parse_edges_spec(
    entries: Seq<(String, JsonValue)>,
    list: Seq<JsonValue>,
) -> Result<Seq<Edge>, ErrorModel>
    decreases list.len(),
{
    if list.len() == 0 {
        Ok(Seq::empty())
    } else {
        match parse_edges_spec(entries, list.drop_last()) {
            Err(e) => Err(e),
            Ok(edges) => match parse_edge_spec(entries, list.last()) {
                Err(e) => Err(e),
                Ok(ed) => Ok(add_edge_spec(edges, ed)),
            },
        }
    }
}

/// What parsing a whole document yields: the typed graph of its nodes and
/// edges, or the first fault found.
pub open spec fn parse_graph_spec(doc: JsonValue) -> Result<GraphModel, ErrorModel> {
    match doc {
        JsonValue::Object(data) => match obj_get_spec(data@, "nodes"@) {
            None => Err(ErrorModel::Missing("data"@, "nodes"@)),
            Some(nv) => match nv {
                JsonValue::Object(entries) => match parse_nodes_spec(entries@) {
                    Err(e) => Err(e),
                    Ok(nodes) => match obj_get_spec(data@, "edges"@) {
                        None => Err(ErrorModel::Missing("data"@, "edges"@)),
                        Some(ev) => match ev {
                            JsonValue::Array(list) => match parse_edges_spec(entries@, list@) {
                                Err(e) => Err(e),
                                Ok(edges) => Ok((GraphModel { nodes: nodes, edges: edges })),
                            },
                            _ => Err(ErrorModel::NotArray("edges"@)),
                        },
                    },
                },
                _ => Err(ErrorModel::NotObject("nodes"@)),
            },
        },
        _ => Err(ErrorModel::NotObject("JSON input"@)),
    }
}

proof fn lemma_parse_nodes_snoc(entries: Seq<(String, JsonValue)>, i: int)
    requires
        0 <= i < entries.len(),
    ensures
        parse_nodes_spec(entries.take(i + 1)) == (match parse_nodes_spec(entries.take(i)) {
            Err(e) => Err(e),
            Ok(nodes) => match parse_node_spec(entries[i].1) {
                Err(e) => Err(e),
                Ok(n) => Ok(nodes.push(n)),
            },
        }),
{
    assert(entries.take(i + 1).drop_last() =~= entries.take(i));
    assert(entries.take(i + 1).last() == entries[i]);
}

proof fn lemma_parse_nodes_error(entries: Seq<(String, JsonValue)>, i: int)
    requires
        0 <= i < entries.len(),
        parse_nodes_spec(entries.take(i)) is Ok,
        parse_node_spec(entries[i].1) is Err,
    ensures
        parse_nodes_spec(entries) == Err::<Seq<Node>, ErrorModel>(
            parse_node_spec(entries[i].1)->Err_0,
        ),
    decreases entries.len(),
{
    if entries.len() == i + 1 {
        assert(entries.take(i + 1) =~= entries);
        lemma_parse_nodes_snoc(entries, i);
    } else {
        assert(entries.drop_last().take(i) =~= entries.take(i));
        assert(entries.drop_last()[i] == entries[i]);
        lemma_parse_nodes_error(entries.drop_last(), i);
    }
}

proof fn lemma_parse_edges_snoc(
    entries: Seq<(String, JsonValue)>,
    list: Seq<JsonValue>,
    i: int,
)
    requires
        0 <= i < list.len(),
    ensures
        parse_edges_spec(entries, list.take(i + 1)) == (match parse_edges_spec(
            entries,
            list.take(i),
        ) {
            Err(e) => Err(e),
            Ok(edges) => match parse_edge_spec(entries, list[i]) {
                Err(e) => Err(e),
                Ok(ed) => Ok(add_edge_spec(edges, ed)),
            },
        }),
{
    assert(list.take(i + 1).drop_last() =~= list.take(i));
    assert(list.take(i + 1).last() == list[i]);
}

proof fn lemma_parse_edges_error(entries: Seq<(String, JsonValue)>, list: Seq<JsonValue>, i: int)
    requires
        0 <= i < list.len(),
        parse_edges_spec(entries, list.take(i)) is Ok,
        parse_edge_spec(entries, list[i]) is Err,
    ensures
        parse_edges_spec(entries, list) == Err::<Seq<Edge>, ErrorModel>(
            parse_edge_spec(entries, list[i])->Err_0,
        ),
    decreases list.len(),
{
    if list.len() == i + 1 {
        assert(list.take(i + 1) =~= list);
        lemma_parse_edges_snoc(entries, list, i);
    } else {
        assert(list.drop_last().take(i) =~= list.take(i));
        assert(list.drop_last()[i] == list[i]);
        lemma_parse_edges_error(entries, list.drop_last(), i);
    }
}

/// Relates an executable parse result to its model.
pub open spec fn graph_rel(r: Result<Graph, ParseError>, s: Result<GraphModel, ErrorModel>) -> bool {
    &&& r is Ok <==> s is Ok
    &&& r is Ok ==> (r->Ok_0)@ == s->Ok_0
    &&& r is Err ==> (r->Err_0)@ == s->Err_0
}

/// Decodes a parsed JSON document into the typed graph: first every node in
/// document order, then every edge, stopping at the first fault.
#[verifier::loop_isolation(false)]
pub fn parse_document(doc: &JsonValue) -> (r: Result<Graph, ParseError>)
    ensures
        graph_rel(r, parse_graph_spec(*doc)),
{
    let data = match doc {
        JsonValue::Object(data) => data,
        _ => {
            return Err(ParseError::NotObject(String::from_str("JSON input")));
        },
    };
    let nv = match obj_get(data, "nodes") {
        Some(x) => x,
        None => {
            return Err(ParseError::Missing(String::from_str("data"), String::from_str("nodes")));
        },
    };
    let entries = match nv {
        JsonValue::Object(entries) => entries,
        _ => {
            return Err(ParseError::NotObject(String::from_str("nodes")));
        },
    };
    let mut graph = Graph::new();
    proof {
        assert(graph@.nodes =~= Seq::<Node>::empty());
        assert(graph@.edges =~= Seq::<Edge>::empty());
        assert(entries@.take(0) =~= Seq::<(String, JsonValue)>::empty());
    }
    let n = entries.len();
    let mut i: usize = 0;
    while i < n
        invariant
            i <= n,
            n == entries@.len(),
            parse_nodes_spec(entries@.take(i as int)) is Ok,
            graph@.nodes == parse_nodes_spec(entries@.take(i as int))->Ok_0,
            graph@.edges =~= Seq::<Edge>::empty(),
        decreases n - i,
    {
        proof {
            lemma_parse_nodes_snoc(entries@, i as int);
        }
        match parse_node(&entries[i].1) {
            Ok(node) => {
                graph.add_node(node);
            },
            Err(e) => {
                proof {
                    lemma_parse_nodes_error(entries@, i as int);
                }
                return Err(e);
            },
        }
        i += 1;
    }
    proof {
        assert(entries@.take(n as int) =~= entries@);
    }
    let ev = match obj_get(data, "edges") {
        Some(x) => x,
        None => {
            return Err(ParseError::Missing(String::from_str("data"), String::from_str("edges")));
        },
    };
    let list = match ev {
        JsonValue::Array(list) => list,
        _ => {
            return Err(ParseError::NotArray(String::from_str("edges")));
        },
    };
    proof {
        assert(list@.take(0) =~= Seq::<JsonValue>::empty());
    }
    let m = list.len();
    let mut j: usize = 0;
    while j < m
        invariant
            j <= m,
            m == list@.len(),
            n == entries@.len(),
            parse_nodes_spec(entries@) is Ok,
            graph@.nodes == parse_nodes_spec(entries@)->Ok_0,
            parse_edges_spec(entries@, list@.take(j as int)) is Ok,
            graph@.edges == parse_edges_spec(entries@, list@.take(j as int))->Ok_0,
        decreases m - j,
    {
        proof {
            lemma_parse_edges_snoc(entries@, list@, j as int);
        }
        match parse_edge(entries, &list[j]) {
            Ok(ed) => {
                graph.add_edge(ed.from, ed.to, ed.input);
            },
            Err(e) => {
                proof {
                    lemma_parse_edges_error(entries@, list@, j as int);
                }
                return Err(e);
            },
        }
        j += 1;
    }
    proof {
        assert(list@.take(m as int) =~= list@);
    }
    Ok(graph)
}

/// Decodes a JSON text into the typed graph, or the message of the first
/// fault: the malformed-input message for text that is not JSON, and the
/// decoder's message for a document that does not describe a graph.
pub fn parse_input(input: String) -> (r: Result<Graph, String>)
    ensures
        (match json_doc_of(input@) {
            Err(etext) => r is Err && (r->Err_0)@ == "JSON error: "@ + etext,
            Ok(doc) => match parse_graph_spec(doc) {
                Ok(m) => r is Ok && (r->Ok_0)@ == m,
                Err(e) => r is Err && (r->Err_0)@ == error_message_spec(e),
            },
        }),
{
    let doc = match parse_json_text(input.as_str()) {
        Ok(doc) => doc,
        Err(msg) => {
            let e = ParseError::Json(msg);
            return Err(e.message());
        },
    };
    match parse_document(&doc) {
        Ok(g) => Ok(g),
        Err(e) => Err(e.message()),
    }
}

// ---------------------------------------------------------------------------
// Validity of the decoded graph
// ---------------------------------------------------------------------------

/// A graph model is valid when every edge points at nodes the graph holds.
pub open spec fn graph_valid(m: GraphModel) -> bool {
    forall|k: int|
        0 <= k < m.edges.len() ==> (#[trigger] m.edges[k]).from < m.nodes.len()
            && m.edges[k].to < m.nodes.len()
}

proof fn lemma_nodes_len(entries: Seq<(String, JsonValue)>)
    ensures
        parse_nodes_spec(entries) matches Ok(ns) ==> ns.len() == entries.len(),
    decreases entries.len(),
{
    if entries.len() > 0 {
        lemma_nodes_len(entries.drop_last());
    }
}

proof fn lemma_find_slot_in_range(edges: Seq<Edge>, e: Edge)
    ensures
        find_slot_spec(edges, e) matches Some(j) ==> 0 <= j < edges.len(),
    decreases edges.len(),
{
    if edges.len() > 0 && !same_slot(edges[0], e) {
        lemma_find_slot_in_range(edges.skip(1), e);
    }
}

proof fn lemma_edges_valid(entries: Seq<(String, JsonValue)>, list: Seq<JsonValue>)
    ensures
        parse_edges_spec(entries, list) matches Ok(es) ==> forall|k: int|
            0 <= k < es.len() ==> (#[trigger] es[k]).from < entries.len() && es[k].to
                < entries.len(),
    decreases list.len(),
{
    if list.len() > 0 && parse_edges_spec(entries, list) is Ok {
        lemma_edges_valid(entries, list.drop_last());
        lemma_edge_indices(entries, list.last());
        let es0 = parse_edges_spec(entries, list.drop_last())->Ok_0;
        let ed = parse_edge_spec(entries, list.last())->Ok_0;
        let es = add_edge_spec(es0, ed);
        lemma_find_slot_in_range(es0, ed);
        assert forall|k: int|
            0 <= k < es.len() implies (#[trigger] es[k]).from < entries.len() && es[k].to
            < entries.len() by {
            match find_slot_spec(es0, ed) {
                Some(j) => {
                    assert(es[k] == if k == j {
                        ed
                    } else {
                        es0[k]
                    });
                },
                None => {
                    assert(es[k] == if k == es0.len() {
                        ed
                    } else {
                        es0[k]
                    });
                },
            }
        }
    }
}

/// A graph the builder hands back is always valid: no edge ever cites a node
/// the graph does not hold, and no partial graph is produced on a fault.
pub proof fn lemma_parsed_graph_valid(doc: JsonValue)
    ensures
        parse_graph_spec(doc) matches Ok(m) ==> graph_valid(m),
{
    if parse_graph_spec(doc) is Ok {
        let data = doc->Object_0;
        let entries = (obj_get_spec(data@, "nodes"@)->Some_0)->Object_0;
        let list = (obj_get_spec(data@, "edges"@)->Some_0)->Array_0;
        lemma_nodes_len(entries@);
        lemma_edges_valid(entries@, list@);
    }
}

// ---------------------------------------------------------------------------
// The first fault decides the whole parse
// ---------------------------------------------------------------------------

/// The node entries of a well-shaped document.
pub open spec fn doc_node_entries(doc: JsonValue) -> Seq<(String, JsonValue)> {
    ((obj_get_spec((doc->Object_0)@, "nodes"@)->Some_0)->Object_0)@
}

/// The edge list of a well-shaped document.
pub open spec fn doc_edge_list(doc: JsonValue) -> Seq<JsonValue> {
    ((obj_get_spec((doc->Object_0)@, "edges"@)->Some_0)->Array_0)@
}

/// The first failing node decides the whole parse: in any document whose
/// entries up to position `i` decode, a fault in the node at `i` — an
/// unknown title, a wrong-length or unsupported constant literal, a missing
/// field — is the document's result, and no graph is produced.
pub proof fn lemma_node_fault_aborts(doc: JsonValue, i: int)
    requires
        doc is Object,
        obj_get_spec((doc->Object_0)@, "nodes"@) matches Some(nv) && nv is Object,
        0 <= i < doc_node_entries(doc).len(),
        parse_nodes_spec(doc_node_entries(doc).take(i)) is Ok,
        parse_node_spec(doc_node_entries(doc)[i].1) is Err,
    ensures
        parse_graph_spec(doc) == Err::<GraphModel, ErrorModel>(
            parse_node_spec(doc_node_entries(doc)[i].1)->Err_0,
        ),
{
    lemma_parse_nodes_error(doc_node_entries(doc), i);
}

/// The first failing edge decides the whole parse once every node decoded:
/// in any document, a fault in the edge at position `j` — an undefined
/// origin or destination, a missing or non-numeric field — is the document's
/// result, and no graph is produced.
pub proof fn lemma_edge_fault_aborts(doc: JsonValue, j: int)
    requires
        doc is Object,
        obj_get_spec((doc->Object_0)@, "nodes"@) matches Some(nv) && nv is Object,
        parse_nodes_spec(doc_node_entries(doc)) is Ok,
        obj_get_spec((doc->Object_0)@, "edges"@) matches Some(ev) && ev is Array,
        0 <= j < doc_edge_list(doc).len(),
        parse_edges_spec(doc_node_entries(doc), doc_edge_list(doc).take(j)) is Ok,
        parse_edge_spec(doc_node_entries(doc), doc_edge_list(doc)[j]) is Err,
    ensures
        parse_graph_spec(doc) == Err::<GraphModel, ErrorModel>(
            parse_edge_spec(doc_node_entries(doc), doc_edge_list(doc)[j])->Err_0,
        ),
{
    lemma_parse_edges_error(doc_node_entries(doc), doc_edge_list(doc), j);
}

} // verus!
