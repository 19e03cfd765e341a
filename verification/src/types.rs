//! The closed shader type vocabulary and its typed constant values.

use vstd::prelude::*;

use crate::fmt::{chars_to_string, dec_of, push_chars, push_dec_u32, str_eq};

verus! {

/// A scalar component type: the only types a vector may carry.
#[derive(Clone, Copy, Debug, PartialEq, Eq, Structural)]
pub enum Scalar {
    /// Boolean.
    Bool,
    /// Integer; the payload tells whether it is signed.
    Int(bool),
    /// Floating point; the payload tells whether it is double-precision.
    Float(bool),
}

/// A shader data type. A vector's component is a [`Scalar`] by construction,
/// so the data-model invariant that a vector never nests a vector or matrix
/// holds in the type itself; `wf` adds the arity range.
#[derive(Clone, Copy, Debug, PartialEq, Eq, Structural)]
pub enum TypeName {
    /// Boolean.
    Bool,
    /// Integer; the payload tells whether it is signed.
    Int(bool),
    /// Floating point; the payload tells whether it is double-precision.
    Float(bool),
    /// Vector of 2, 3 or 4 components of one scalar type.
    Vector(u32, Scalar),
    /// Square matrix of 2, 3 or 4 columns.
    Matrix(u32),
}

impl TypeName {
    /// The arity of a vector or matrix stays in the closed range 2 to 4.
    pub open spec fn wf(self) -> bool {
        match self {
            TypeName::Vector(n, _) => 2 <= n <= 4,
            TypeName::Matrix(n) => 2 <= n <= 4,
            _ => true,
        }
    }
}

/// What `resolve_type` yields on each possible name: one of the 23 names of
/// the closed vocabulary resolves to its type, every other string to nothing.
pub open spec fn resolve_type_spec(s: Seq<char>) -> Option<TypeName> {
    if s == "bool"@ {
        Some(TypeName::Bool)
    } else if s == "int"@ {
        Some(TypeName::Int(true))
    } else if s == "uint"@ {
        Some(TypeName::Int(false))
    } else if s == "float"@ {
        Some(TypeName::Float(false))
    } else if s == "double"@ {
        Some(TypeName::Float(true))
    } else if s == "bvec2"@ {
        Some(TypeName::Vector(2, Scalar::Bool))
    } else if s == "bvec3"@ {
        Some(TypeName::Vector(3, Scalar::Bool))
    } else if s == "bvec4"@ {
        Some(TypeName::Vector(4, Scalar::Bool))
    } else if s == "ivec2"@ {
        Some(TypeName::Vector(2, Scalar::Int(true)))
    } else if s == "ivec3"@ {
        Some(TypeName::Vector(3, Scalar::Int(true)))
    } else if s == "ivec4"@ {
        Some(TypeName::Vector(4, Scalar::Int(true)))
    } else if s == "uvec2"@ {
        Some(TypeName::Vector(2, Scalar::Int(false)))
    } else if s == "uvec3"@ {
        Some(TypeName::Vector(3, Scalar::Int(false)))
    } else if s == "uvec4"@ {
        Some(TypeName::Vector(4, Scalar::Int(false)))
    } else if s == "vec2"@ {
        Some(TypeName::Vector(2, Scalar::Float(false)))
    } else if s == "vec3"@ {
        Some(TypeName::Vector(3, Scalar::Float(false)))
    } else if s == "vec4"@ {
        Some(TypeName::Vector(4, Scalar::Float(false)))
    } else if s == "dvec2"@ {
        Some(TypeName::Vector(2, Scalar::Float(true)))
    } else if s == "dvec3"@ {
        Some(TypeName::Vector(3, Scalar::Float(true)))
    } else if s == "dvec4"@ {
        Some(TypeName::Vector(4, Scalar::Float(true)))
    } else if s == "mat2"@ {
        Some(TypeName::Matrix(2))
    } else if s == "mat3"@ {
        Some(TypeName::Matrix(3))
    } else if s == "mat4"@ {
        Some(TypeName::Matrix(4))
    } else {
        None
    }
}

/// The 23 type names the resolver understands.
pub open spec fn type_vocabulary() -> Set<Seq<char>> {
    set![
        "bool"@,
        "int"@,
        "uint"@,
        "float"@,
        "double"@,
        "bvec2"@,
        "bvec3"@,
        "bvec4"@,
        "ivec2"@,
        "ivec3"@,
        "ivec4"@,
        "uvec2"@,
        "uvec3"@,
        "uvec4"@,
        "vec2"@,
        "vec3"@,
        "vec4"@,
        "dvec2"@,
        "dvec3"@,
        "dvec4"@,
        "mat2"@,
        "mat3"@,
        "mat4"@,
    ]
}

/// The resolver is total and deterministic: it answers on every string, and
/// it yields a type exactly on the strings of the closed vocabulary — every
/// string outside the vocabulary yields nothing. What it yields is always a
/// well-formed type.
pub proof fn lemma_resolver_total(s: Seq<char>)
    ensures
        resolve_type_spec(s) is Some <==> type_vocabulary().contains(s),
        resolve_type_spec(s) matches Some(t) ==> t.wf(),
{
}

/// Decodes a textual type name against the closed vocabulary.
pub fn resolve_type(name: &str) -> (r: Option<TypeName>)
    ensures
        r == resolve_type_spec(name@),
{
    if str_eq(name, "bool") {
        Some(TypeName::Bool)
    } else if str_eq(name, "int") {
        Some(TypeName::Int(true))
    } else if str_eq(name, "uint") {
        Some(TypeName::Int(false))
    } else if str_eq(name, "float") {
        Some(TypeName::Float(false))
    } else if str_eq(name, "double") {
        Some(TypeName::Float(true))
    } else if str_eq(name, "bvec2") {
        Some(TypeName::Vector(2, Scalar::Bool))
    } else if str_eq(name, "bvec3") {
        Some(TypeName::Vector(3, Scalar::Bool))
    } else if str_eq(name, "bvec4") {
        Some(TypeName::Vector(4, Scalar::Bool))
    } else if str_eq(name, "ivec2") {
        Some(TypeName::Vector(2, Scalar::Int(true)))
    } else if str_eq(name, "ivec3") {
        Some(TypeName::Vector(3, Scalar::Int(true)))
    } else if str_eq(name, "ivec4") {
        Some(TypeName::Vector(4, Scalar::Int(true)))
    } else if str_eq(name, "uvec2") {
        Some(TypeName::Vector(2, Scalar::Int(false)))
    } else if str_eq(name, "uvec3") {
        Some(TypeName::Vector(3, Scalar::Int(false)))
    } else if str_eq(name, "uvec4") {
        Some(TypeName::Vector(4, Scalar::Int(false)))
    } else if str_eq(name, "vec2") {
        Some(TypeName::Vector(2, Scalar::Float(false)))
    } else if str_eq(name, "vec3") {
        Some(TypeName::Vector(3, Scalar::Float(false)))
    } else if str_eq(name, "vec4") {
        Some(TypeName::Vector(4, Scalar::Float(false)))
    } else if str_eq(name, "dvec2") {
        Some(TypeName::Vector(2, Scalar::Float(true)))
    } else if str_eq(name, "dvec3") {
        Some(TypeName::Vector(3, Scalar::Float(true)))
    } else if str_eq(name, "dvec4") {
        Some(TypeName::Vector(4, Scalar::Float(true)))
    } else if str_eq(name, "mat2") {
        Some(TypeName::Matrix(2))
    } else if str_eq(name, "mat3") {
        Some(TypeName::Matrix(3))
    } else if str_eq(name, "mat4") {
        Some(TypeName::Matrix(4))
    } else {
        None
    }
}

/// The vocabulary prefix a scalar contributes to a vector name.
pub open spec fn scalar_prefix_spec(sc: Scalar) -> Seq<char> {
    match sc {
        Scalar::Bool => "b"@,
        Scalar::Int(true) => "i"@,
        Scalar::Int(false) => "u"@,
        Scalar::Float(false) => Seq::empty(),
        Scalar::Float(true) => "d"@,
    }
}

/// The vocabulary name of a type, the inverse of the resolver on well-formed
/// types.
pub open spec fn type_string_spec(t: TypeName) -> Seq<char> {
    match t {
        TypeName::Bool => "bool"@,
        TypeName::Int(true) => "int"@,
        TypeName::Int(false) => "uint"@,
        TypeName::Float(false) => "float"@,
        TypeName::Float(true) => "double"@,
        TypeName::Vector(n, sc) => scalar_prefix_spec(sc) + "vec"@ + dec_of(n as nat),
        TypeName::Matrix(n) => "mat"@ + dec_of(n as nat),
    }
}

/// Renders the vocabulary name of a type.
pub fn type_string(t: &TypeName) -> (r: String)
    ensures
        r@ == type_string_spec(*t),
{
    let mut out: Vec<char> = Vec::new();
    match t {
        TypeName::Bool => push_chars(&mut out, "bool"),
        TypeName::Int(signed) => {
            if *signed {
                push_chars(&mut out, "int");
            } else {
                push_chars(&mut out, "uint");
            }
        },
        TypeName::Float(double) => {
            if *double {
                push_chars(&mut out, "double");
            } else {
                push_chars(&mut out, "float");
            }
        },
        TypeName::Vector(n, sc) => {
            match sc {
                Scalar::Bool => push_chars(&mut out, "b"),
                Scalar::Int(signed) => {
                    if *signed {
                        push_chars(&mut out, "i");
                    } else {
                        push_chars(&mut out, "u");
                    }
                },
                Scalar::Float(double) => {
                    if *double {
                        push_chars(&mut out, "d");
                    }
                },
            }
            push_chars(&mut out, "vec");
            push_dec_u32(&mut out, *n);
            assert(out@ =~= type_string_spec(*t));
        },
        TypeName::Matrix(n) => {
            push_chars(&mut out, "mat");
            push_dec_u32(&mut out, *n);
        },
    }
    assert(out@ =~= type_string_spec(*t));
    chars_to_string(&out)
}

/// Naming is the inverse of resolving: the rendered name of any well-formed
/// type resolves back to that type.
pub proof fn lemma_type_name_round_trip(t: TypeName)
    requires
        t.wf(),
    ensures
        resolve_type_spec(type_string_spec(t)) == Some(t),
{
    reveal_strlit("bool");
    reveal_strlit("int");
    reveal_strlit("uint");
    reveal_strlit("float");
    reveal_strlit("double");
    reveal_strlit("bvec2");
    reveal_strlit("bvec3");
    reveal_strlit("bvec4");
    reveal_strlit("ivec2");
    reveal_strlit("ivec3");
    reveal_strlit("ivec4");
    reveal_strlit("uvec2");
    reveal_strlit("uvec3");
    reveal_strlit("uvec4");
    reveal_strlit("vec2");
    reveal_strlit("vec3");
    reveal_strlit("vec4");
    reveal_strlit("dvec2");
    reveal_strlit("dvec3");
    reveal_strlit("dvec4");
    reveal_strlit("mat2");
    reveal_strlit("mat3");
    reveal_strlit("mat4");
    reveal_strlit("b");
    reveal_strlit("i");
    reveal_strlit("u");
    reveal_strlit("d");
    reveal_strlit("vec");
    reveal_strlit("mat");
    assert("bool"@.len() == 4 && "bool"@[0] == 'b' && "bool"@[1] == 'o' && "bool"@[2] == 'o' && "bool"@[3] == 'l');
    assert("int"@.len() == 3 && "int"@[0] == 'i' && "int"@[1] == 'n' && "int"@[2] == 't');
    assert("uint"@.len() == 4 && "uint"@[0] == 'u' && "uint"@[1] == 'i' && "uint"@[2] == 'n' && "uint"@[3] == 't');
    assert("float"@.len() == 5 && "float"@[0] == 'f' && "float"@[1] == 'l' && "float"@[2] == 'o' && "float"@[3] == 'a' && "float"@[4] == 't');
    assert("double"@.len() == 6 && "double"@[0] == 'd' && "double"@[1] == 'o' && "double"@[2] == 'u' && "double"@[3] == 'b' && "double"@[4] == 'l' && "double"@[5] == 'e');
    assert("bvec2"@.len() == 5 && "bvec2"@[0] == 'b' && "bvec2"@[1] == 'v' && "bvec2"@[2] == 'e' && "bvec2"@[3] == 'c' && "bvec2"@[4] == '2');
    assert("bvec3"@.len() == 5 && "bvec3"@[0] == 'b' && "bvec3"@[1] == 'v' && "bvec3"@[2] == 'e' && "bvec3"@[3] == 'c' && "bvec3"@[4] == '3');
    assert("bvec4"@.len() == 5 && "bvec4"@[0] == 'b' && "bvec4"@[1] == 'v' && "bvec4"@[2] == 'e' && "bvec4"@[3] == 'c' && "bvec4"@[4] == '4');
    assert("ivec2"@.len() == 5 && "ivec2"@[0] == 'i' && "ivec2"@[1] == 'v' && "ivec2"@[2] == 'e' && "ivec2"@[3] == 'c' && "ivec2"@[4] == '2');
    assert("ivec3"@.len() == 5 && "ivec3"@[0] == 'i' && "ivec3"@[1] == 'v' && "ivec3"@[2] == 'e' && "ivec3"@[3] == 'c' && "ivec3"@[4] == '3');
    assert("ivec4"@.len() == 5 && "ivec4"@[0] == 'i' && "ivec4"@[1] == 'v' && "ivec4"@[2] == 'e' && "ivec4"@[3] == 'c' && "ivec4"@[4] == '4');
    assert("uvec2"@.len() == 5 && "uvec2"@[0] == 'u' && "uvec2"@[1] == 'v' && "uvec2"@[2] == 'e' && "uvec2"@[3] == 'c' && "uvec2"@[4] == '2');
    assert("uvec3"@.len() == 5 && "uvec3"@[0] == 'u' && "uvec3"@[1] == 'v' && "uvec3"@[2] == 'e' && "uvec3"@[3] == 'c' && "uvec3"@[4] == '3');
    assert("uvec4"@.len() == 5 && "uvec4"@[0] == 'u' && "uvec4"@[1] == 'v' && "uvec4"@[2] == 'e' && "uvec4"@[3] == 'c' && "uvec4"@[4] == '4');
    assert("vec2"@.len() == 4 && "vec2"@[0] == 'v' && "vec2"@[1] == 'e' && "vec2"@[2] == 'c' && "vec2"@[3] == '2');
    assert("vec3"@.len() == 4 && "vec3"@[0] == 'v' && "vec3"@[1] == 'e' && "vec3"@[2] == 'c' && "vec3"@[3] == '3');
    assert("vec4"@.len() == 4 && "vec4"@[0] == 'v' && "vec4"@[1] == 'e' && "vec4"@[2] == 'c' && "vec4"@[3] == '4');
    assert("dvec2"@.len() == 5 && "dvec2"@[0] == 'd' && "dvec2"@[1] == 'v' && "dvec2"@[2] == 'e' && "dvec2"@[3] == 'c' && "dvec2"@[4] == '2');
    assert("dvec3"@.len() == 5 && "dvec3"@[0] == 'd' && "dvec3"@[1] == 'v' && "dvec3"@[2] == 'e' && "dvec3"@[3] == 'c' && "dvec3"@[4] == '3');
    assert("dvec4"@.len() == 5 && "dvec4"@[0] == 'd' && "dvec4"@[1] == 'v' && "dvec4"@[2] == 'e' && "dvec4"@[3] == 'c' && "dvec4"@[4] == '4');
    assert("mat2"@.len() == 4 && "mat2"@[0] == 'm' && "mat2"@[1] == 'a' && "mat2"@[2] == 't' && "mat2"@[3] == '2');
    assert("mat3"@.len() == 4 && "mat3"@[0] == 'm' && "mat3"@[1] == 'a' && "mat3"@[2] == 't' && "mat3"@[3] == '3');
    assert("mat4"@.len() == 4 && "mat4"@[0] == 'm' && "mat4"@[1] == 'a' && "mat4"@[2] == 't' && "mat4"@[3] == '4');
    assert("b"@.len() == 1 && "b"@[0] == 'b');
    assert("i"@.len() == 1 && "i"@[0] == 'i');
    assert("u"@.len() == 1 && "u"@[0] == 'u');
    assert("d"@.len() == 1 && "d"@[0] == 'd');
    assert("vec"@.len() == 3 && "vec"@[0] == 'v' && "vec"@[1] == 'e' && "vec"@[2] == 'c');
    assert("mat"@.len() == 3 && "mat"@[0] == 'm' && "mat"@[1] == 'a' && "mat"@[2] == 't');
    let s = type_string_spec(t);
    match t {
        TypeName::Vector(n, sc) => {
            match sc {
                Scalar::Bool => {
                    if n == 2 {
                        assert(s =~= "bvec2"@);
                    } else if n == 3 {
                        assert(s =~= "bvec3"@);
                    } else {
                        assert(s =~= "bvec4"@);
                    }
                },
                Scalar::Int(signed) => {
                    if signed {
                        if n == 2 {
                            assert(s =~= "ivec2"@);
                        } else if n == 3 {
                            assert(s =~= "ivec3"@);
                        } else {
                            assert(s =~= "ivec4"@);
                        }
                    } else {
                        if n == 2 {
                            assert(s =~= "uvec2"@);
                        } else if n == 3 {
                            assert(s =~= "uvec3"@);
                        } else {
                            assert(s =~= "uvec4"@);
                        }
                    }
                },
                Scalar::Float(double) => {
                    if double {
                        if n == 2 {
                            assert(s =~= "dvec2"@);
                        } else if n == 3 {
                            assert(s =~= "dvec3"@);
                        } else {
                            assert(s =~= "dvec4"@);
                        }
                    } else {
                        if n == 2 {
                            assert(s =~= "vec2"@);
                        } else if n == 3 {
                            assert(s =~= "vec3"@);
                        } else {
                            assert(s =~= "vec4"@);
                        }
                    }
                },
            }
        },
        TypeName::Matrix(n) => {
            if n == 2 {
                assert(s =~= "mat2"@);
            } else if n == 3 {
                assert(s =~= "mat3"@);
            } else {
                assert(s =~= "mat4"@);
            }
        },
        _ => {},
    }
}

} // verus!
