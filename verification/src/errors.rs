//! The single error channel of the graph ingestion layer: every fault is a
//! value naming the offending input and its context, and renders to one
//! human-readable line.

use vstd::prelude::*;

use crate::fmt::{chars_to_string, json_escape, push_chars, push_json_escaped};
use crate::types::{type_string, type_string_spec, TypeName};

verus! {

/// The JSON kind a field was expected to hold.
#[derive(Clone, Copy, Debug, PartialEq, Eq, Structural)]
pub enum Kind {
    /// A string.
    Str,
    /// A single-precision number.
    Float,
    /// A double-precision number.
    Double,
    /// A signed integer.
    Int,
    /// An unsigned integer.
    UInt,
    /// A boolean.
    Bool,
    /// Any number.
    Number,
}

/// A fault found while decoding the input document.
#[derive(Debug)]
pub enum ParseError {
    /// The document text is not JSON; carries the parser's description.
    Json(String),
    /// The named value is not an object.
    NotObject(String),
    /// The named value is not an array.
    NotArray(String),
    /// The named context lacks the named field.
    Missing(String, String),
    /// The named value does not hold the expected kind.
    WrongKind(String, Kind),
    /// The named context declares an unknown type name.
    UnknownType(String, String),
    /// A node's title is outside the vocabulary; carries the title.
    UnimplementedNode(String),
    /// A vector constant's literal array length differs from the arity.
    WrongArrayLength(TypeName),
    /// Constant literals of this type are unsupported.
    UnsupportedConstant(TypeName),
    /// An edge endpoint names no node; `true` marks the origin side.
    UndefinedEndpoint(bool),
}

/// The mathematical value of a [`ParseError`]: the same fault over character
/// sequences.
pub ghost enum ErrorModel {
    Json(Seq<char>),
    NotObject(Seq<char>),
    NotArray(Seq<char>),
    Missing(Seq<char>, Seq<char>),
    WrongKind(Seq<char>, Kind),
    UnknownType(Seq<char>, Seq<char>),
    UnimplementedNode(Seq<char>),
    WrongArrayLength(TypeName),
    UnsupportedConstant(TypeName),
    UndefinedEndpoint(bool),
}

impl View for ParseError {
    type V = ErrorModel;

    open spec fn view(&self) -> ErrorModel {
        match self {
            ParseError::Json(s) => ErrorModel::Json(s@),
            ParseError::NotObject(s) => ErrorModel::NotObject(s@),
            ParseError::NotArray(s) => ErrorModel::NotArray(s@),
            ParseError::Missing(c, f) => ErrorModel::Missing(c@, f@),
            ParseError::WrongKind(c, k) => ErrorModel::WrongKind(c@, *k),
            ParseError::UnknownType(c, n) => ErrorModel::UnknownType(c@, n@),
            ParseError::UnimplementedNode(t) => ErrorModel::UnimplementedNode(t@),
            ParseError::WrongArrayLength(t) => ErrorModel::WrongArrayLength(*t),
            ParseError::UnsupportedConstant(t) => ErrorModel::UnsupportedConstant(*t),
            ParseError::UndefinedEndpoint(o) => ErrorModel::UndefinedEndpoint(*o),
        }
    }
}

/// The words naming an expected kind, article included.
pub open spec fn kind_text_spec(k: Kind) -> Seq<char> {
    match k {
        Kind::Str => "a string"@,
        Kind::Float => "a float"@,
        Kind::Double => "a double"@,
        Kind::Int => "an integer"@,
        Kind::UInt => "an unsigned integer"@,
        Kind::Bool => "a boolean"@,
        Kind::Number => "a number"@,
    }
}

/// A value quoted for a diagnostic: double quotes around the JSON escape of
/// its characters.
pub open spec fn quoted_spec(s: Seq<char>) -> Seq<char> {
    seq!['"'] + json_escape(s) + seq!['"']
}

/// Relates an executable decode result to its model: same success, same
/// value, same fault.
pub open spec fn err_rel<T>(r: Result<T, ParseError>, s: Result<T, ErrorModel>) -> bool {
    &&& r is Ok <==> s is Ok
    &&& r is Ok ==> r->Ok_0 == s->Ok_0
    &&& r is Err ==> (r->Err_0)@ == s->Err_0
}

/// The one-line message of each fault.
pub open spec fn error_message_spec(e: ErrorModel) -> Seq<char> {
    match e {
        ErrorModel::Json(s) => "JSON error: "@ + s,
        ErrorModel::NotObject(s) => s + " is not an object"@,
        ErrorModel::NotArray(s) => s + " is not an array"@,
        ErrorModel::Missing(c, f) => c + "."@ + f + " is undefined"@,
        ErrorModel::WrongKind(c, k) => c + " is not "@ + kind_text_spec(k),
        ErrorModel::UnknownType(c, n) => "Unknown "@ + c + " type "@ + quoted_spec(n),
        ErrorModel::UnimplementedNode(t) => "Unimplemented node "@ + quoted_spec(t),
        ErrorModel::WrongArrayLength(t) => "Wrong array length for "@ + type_string_spec(t),
        ErrorModel::UnsupportedConstant(t) => "Unknown constant type "@ + quoted_spec(
            type_string_spec(t),
        ),
        ErrorModel::UndefinedEndpoint(origin) => if origin {
            "edge origin node is undefined"@
        } else {
            "edge destination node is undefined"@
        },
    }
}

fn push_quoted(out: &mut Vec<char>, s: &str)
    ensures
        final(out)@ == old(out)@ + quoted_spec(s@),
{
    out.push('"');
    push_json_escaped(out, s);
    out.push('"');
    assert(final(out)@ =~= old(out)@ + quoted_spec(s@));
}

impl ParseError {
    /// Renders the fault as its one-line message.
    pub fn message(&self) -> (r: String)
        ensures
            r@ == error_message_spec(self@),
    {
        let mut out: Vec<char> = Vec::new();
        match self {
            ParseError::Json(s) => {
                push_chars(&mut out, "JSON error: ");
                push_chars(&mut out, s.as_str());
            },
            ParseError::NotObject(s) => {
                push_chars(&mut out, s.as_str());
                push_chars(&mut out, " is not an object");
            },
            ParseError::NotArray(s) => {
                push_chars(&mut out, s.as_str());
                push_chars(&mut out, " is not an array");
            },
            ParseError::Missing(c, f) => {
                push_chars(&mut out, c.as_str());
                push_chars(&mut out, ".");
                push_chars(&mut out, f.as_str());
                push_chars(&mut out, " is undefined");
            },
            ParseError::WrongKind(c, k) => {
                push_chars(&mut out, c.as_str());
                push_chars(&mut out, " is not ");
                match k {
                    Kind::Str => push_chars(&mut out, "a string"),
                    Kind::Float => push_chars(&mut out, "a float"),
                    Kind::Double => push_chars(&mut out, "a double"),
                    Kind::Int => push_chars(&mut out, "an integer"),
                    Kind::UInt => push_chars(&mut out, "an unsigned integer"),
                    Kind::Bool => push_chars(&mut out, "a boolean"),
                    Kind::Number => push_chars(&mut out, "a number"),
                }
            },
            ParseError::UnknownType(c, n) => {
                push_chars(&mut out, "Unknown ");
                push_chars(&mut out, c.as_str());
                push_chars(&mut out, " type ");
                push_quoted(&mut out, n.as_str());
            },
            ParseError::UnimplementedNode(t) => {
                push_chars(&mut out, "Unimplemented node ");
                push_quoted(&mut out, t.as_str());
            },
            ParseError::WrongArrayLength(t) => {
                push_chars(&mut out, "Wrong array length for ");
                let name = type_string(t);
                push_chars(&mut out, name.as_str());
            },
            ParseError::UnsupportedConstant(t) => {
                push_chars(&mut out, "Unknown constant type ");
                let name = type_string(t);
                push_quoted(&mut out, name.as_str());
            },
            ParseError::UndefinedEndpoint(origin) => {
                if *origin {
                    push_chars(&mut out, "edge origin node is undefined");
                } else {
                    push_chars(&mut out, "edge destination node is undefined");
                }
            },
        }
        assert(out@ =~= error_message_spec(self@));
        chars_to_string(&out)
    }
}

} // verus!
