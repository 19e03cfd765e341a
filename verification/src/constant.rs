//! Decoding JSON literals into typed constant values.
//!
//! Floating-point payloads are carried as IEEE-754 bit patterns; the
//! single-precision decoder narrows the double-precision reading of the JSON
//! number with the explicit rounding function of [`crate::bits`].

use vstd::prelude::*;
use vstd::string::*;

use crate::bits::{f32_bits_of_f64_bits, narrow_f64_bits};
use crate::errors::{err_rel, ErrorModel, Kind, ParseError};
use crate::json::JsonValue;
use crate::types::{Scalar, TypeName};

verus! {

/// A typed constant value. The variant mirrors the declared type; vector
/// variants carry their components in order. `Float`, `Double` and the
/// vector variants over them hold IEEE-754 bit patterns.
#[derive(Clone, Copy, Debug, PartialEq, Eq, Structural)]
pub enum TypedValue {
    Bool(bool),
    Int(i32),
    UInt(u32),
    Float(u32),
    Double(u64),
    BVec2(bool, bool),
    BVec3(bool, bool, bool),
    BVec4(bool, bool, bool, bool),
    IVec2(i32, i32),
    IVec3(i32, i32, i32),
    IVec4(i32, i32, i32, i32),
    UVec2(u32, u32),
    UVec3(u32, u32, u32),
    UVec4(u32, u32, u32, u32),
    Vec2(u32, u32),
    Vec3(u32, u32, u32),
    Vec4(u32, u32, u32, u32),
    DVec2(u64, u64),
    DVec3(u64, u64, u64),
    DVec4(u64, u64, u64, u64),
}

impl TypedValue {
    /// The type a value's shape declares.
    pub open spec fn type_of(self) -> TypeName {
        match self {
            TypedValue::Bool(..) => TypeName::Bool,
            TypedValue::Int(..) => TypeName::Int(true),
            TypedValue::UInt(..) => TypeName::Int(false),
            TypedValue::Float(..) => TypeName::Float(false),
            TypedValue::Double(..) => TypeName::Float(true),
            TypedValue::BVec2(..) => TypeName::Vector(2, Scalar::Bool),
            TypedValue::BVec3(..) => TypeName::Vector(3, Scalar::Bool),
            TypedValue::BVec4(..) => TypeName::Vector(4, Scalar::Bool),
            TypedValue::IVec2(..) => TypeName::Vector(2, Scalar::Int(true)),
            TypedValue::IVec3(..) => TypeName::Vector(3, Scalar::Int(true)),
            TypedValue::IVec4(..) => TypeName::Vector(4, Scalar::Int(true)),
            TypedValue::UVec2(..) => TypeName::Vector(2, Scalar::Int(false)),
            TypedValue::UVec3(..) => TypeName::Vector(3, Scalar::Int(false)),
            TypedValue::UVec4(..) => TypeName::Vector(4, Scalar::Int(false)),
            TypedValue::Vec2(..) => TypeName::Vector(2, Scalar::Float(false)),
            TypedValue::Vec3(..) => TypeName::Vector(3, Scalar::Float(false)),
            TypedValue::Vec4(..) => TypeName::Vector(4, Scalar::Float(false)),
            TypedValue::DVec2(..) => TypeName::Vector(2, Scalar::Float(true)),
            TypedValue::DVec3(..) => TypeName::Vector(3, Scalar::Float(true)),
            TypedValue::DVec4(..) => TypeName::Vector(4, Scalar::Float(true)),
        }
    }
}

// ---------------------------------------------------------------------------
// Field decoders: one JSON value read as one scalar kind
// ---------------------------------------------------------------------------

/// A boolean field: the value must be a JSON boolean.
pub open spec fn bool_field_spec(v: JsonValue, ctx: Seq<char>) -> Result<bool, ErrorModel> {
    match v {
        JsonValue::Bool(b) => Ok(b),
        _ => Err(ErrorModel::WrongKind(ctx, Kind::Bool)),
    }
}

/// A signed integer field: the signed reading of a JSON number, truncated to
/// 32 bits.
pub open spec fn i32_field_spec(v: JsonValue, ctx: Seq<char>) -> Result<i32, ErrorModel> {
    match v {
        JsonValue::Num(n) => match n.signed {
            Some(x) => Ok(x as i32),
            None => Err(ErrorModel::WrongKind(ctx, Kind::Int)),
        },
        _ => Err(ErrorModel::WrongKind(ctx, Kind::Int)),
    }
}

/// An unsigned integer field: the unsigned reading of a JSON number,
/// truncated to 32 bits.
pub open spec fn u32_field_spec(v: JsonValue, ctx: Seq<char>) -> Result<u32, ErrorModel> {
    match v {
        JsonValue::Num(n) => match n.unsigned {
            Some(x) => Ok(x as u32),
            None => Err(ErrorModel::WrongKind(ctx, Kind::UInt)),
        },
        _ => Err(ErrorModel::WrongKind(ctx, Kind::UInt)),
    }
}

/// A single-precision field: the double reading of a JSON number, rounded to
/// the nearest single-precision value.
pub open spec fn f32_field_spec(v: JsonValue, ctx: Seq<char>) -> Result<u32, ErrorModel> {
    match v {
        JsonValue::Num(n) => Ok(f32_bits_of_f64_bits(n.double_bits)),
        _ => Err(ErrorModel::WrongKind(ctx, Kind::Float)),
    }
}

/// A double-precision field: the double reading of a JSON number, unchanged.
pub open spec fn f64_field_spec(v: JsonValue, ctx: Seq<char>) -> Result<u64, ErrorModel> {
    match v {
        JsonValue::Num(n) => Ok(n.double_bits),
        _ => Err(ErrorModel::WrongKind(ctx, Kind::Double)),
    }
}

/// Reads a boolean field.
pub fn json_bool(v: &JsonValue, ctx: &str) -> (r: Result<bool, ParseError>)
    ensures
        err_rel(r, bool_field_spec(*v, ctx@)),
{
    match v {
        JsonValue::Bool(b) => Ok(*b),
        _ => Err(ParseError::WrongKind(ctx.to_owned(), Kind::Bool)),
    }
}

/// Reads a signed integer field.
pub fn json_i32(v: &JsonValue, ctx: &str) -> (r: Result<i32, ParseError>)
    ensures
        err_rel(r, i32_field_spec(*v, ctx@)),
{
    match v {
        JsonValue::Num(n) => match n.signed {
            Some(x) => Ok(#[verifier::truncate] (x as i32)),
            None => Err(ParseError::WrongKind(ctx.to_owned(), Kind::Int)),
        },
        _ => Err(ParseError::WrongKind(ctx.to_owned(), Kind::Int)),
    }
}

/// Reads an unsigned integer field.
pub fn json_u32(v: &JsonValue, ctx: &str) -> (r: Result<u32, ParseError>)
    ensures
        err_rel(r, u32_field_spec(*v, ctx@)),
{
    match v {
        JsonValue::Num(n) => match n.unsigned {
            Some(x) => Ok(#[verifier::truncate] (x as u32)),
            None => Err(ParseError::WrongKind(ctx.to_owned(), Kind::UInt)),
        },
        _ => Err(ParseError::WrongKind(ctx.to_owned(), Kind::UInt)),
    }
}

/// Reads a single-precision field as its bit pattern.
pub fn json_f32_bits(v: &JsonValue, ctx: &str) -> (r: Result<u32, ParseError>)
    ensures
        err_rel(r, f32_field_spec(*v, ctx@)),
{
    match v {
        JsonValue::Num(n) => Ok(narrow_f64_bits(n.double_bits)),
        _ => Err(ParseError::WrongKind(ctx.to_owned(), Kind::Float)),
    }
}

/// Reads a double-precision field as its bit pattern.
pub fn json_f64_bits(v: &JsonValue, ctx: &str) -> (r: Result<u64, ParseError>)
    ensures
        err_rel(r, f64_field_spec(*v, ctx@)),
{
    match v {
        JsonValue::Num(n) => Ok(n.double_bits),
        _ => Err(ParseError::WrongKind(ctx.to_owned(), Kind::Double)),
    }
}

// ---------------------------------------------------------------------------
// Vector constants
// ---------------------------------------------------------------------------

/// Whether one element decodes under the given scalar kind.
pub open spec fn elem_ok(sc: Scalar, v: JsonValue) -> bool {
    match sc {
        Scalar::Bool => v is Bool,
        Scalar::Int(true) => v matches JsonValue::Num(n) && n.signed is Some,
        Scalar::Int(false) => v matches JsonValue::Num(n) && n.unsigned is Some,
        Scalar::Float(_) => v is Num,
    }
}

/// Decodes a boolean vector of arity `n` from exactly `n` elements.
pub open spec fn vec_bools_spec(n: u32, elems: Seq<JsonValue>) -> Result<TypedValue, ErrorModel> {
    let ve = "vector element"@;
    let r0 = bool_field_spec(elems[0], ve);
    let r1 = bool_field_spec(elems[1], ve);
    if r0 is Err {
        Err(r0->Err_0)
    } else if r1 is Err {
        Err(r1->Err_0)
    } else if n == 2 {
        Ok(TypedValue::BVec2(r0->Ok_0, r1->Ok_0))
    } else {
        let r2 = bool_field_spec(elems[2], ve);
        if r2 is Err {
            Err(r2->Err_0)
        } else if n == 3 {
            Ok(TypedValue::BVec3(r0->Ok_0, r1->Ok_0, r2->Ok_0))
        } else {
            let r3 = bool_field_spec(elems[3], ve);
            if r3 is Err {
                Err(r3->Err_0)
            } else {
                Ok(TypedValue::BVec4(r0->Ok_0, r1->Ok_0, r2->Ok_0, r3->Ok_0))
            }
        }
    }
}

/// Decodes a signed integer vector of arity `n`.
pub open spec fn vec_i32s_spec(n: u32, elems: Seq<JsonValue>) -> Result<TypedValue, ErrorModel> {
    let ve = "vector element"@;
    let r0 = i32_field_spec(elems[0], ve);
    let r1 = i32_field_spec(elems[1], ve);
    if r0 is Err {
        Err(r0->Err_0)
    } else if r1 is Err {
        Err(r1->Err_0)
    } else if n == 2 {
        Ok(TypedValue::IVec2(r0->Ok_0, r1->Ok_0))
    } else {
        let r2 = i32_field_spec(elems[2], ve);
        if r2 is Err {
            Err(r2->Err_0)
        } else if n == 3 {
            Ok(TypedValue::IVec3(r0->Ok_0, r1->Ok_0, r2->Ok_0))
        } else {
            let r3 = i32_field_spec(elems[3], ve);
            if r3 is Err {
                Err(r3->Err_0)
            } else {
                Ok(TypedValue::IVec4(r0->Ok_0, r1->Ok_0, r2->Ok_0, r3->Ok_0))
            }
        }
    }
}

/// Decodes an unsigned integer vector of arity `n`.
pub open spec fn vec_u32s_spec(n: u32, elems: Seq<JsonValue>) -> Result<TypedValue, ErrorModel> {
    let ve = "vector element"@;
    let r0 = u32_field_spec(elems[0], ve);
    let r1 = u32_field_spec(elems[1], ve);
    if r0 is Err {
        Err(r0->Err_0)
    } else if r1 is Err {
        Err(r1->Err_0)
    } else if n == 2 {
        Ok(TypedValue::UVec2(r0->Ok_0, r1->Ok_0))
    } else {
        let r2 = u32_field_spec(elems[2], ve);
        if r2 is Err {
            Err(r2->Err_0)
        } else if n == 3 {
            Ok(TypedValue::UVec3(r0->Ok_0, r1->Ok_0, r2->Ok_0))
        } else {
            let r3 = u32_field_spec(elems[3], ve);
            if r3 is Err {
                Err(r3->Err_0)
            } else {
                Ok(TypedValue::UVec4(r0->Ok_0, r1->Ok_0, r2->Ok_0, r3->Ok_0))
            }
        }
    }
}

/// Decodes a single-precision vector of arity `n`.
pub open spec fn vec_f32s_spec(n: u32, elems: Seq<JsonValue>) -> Result<TypedValue, ErrorModel> {
    let ve = "vector element"@;
    let r0 = f32_field_spec(elems[0], ve);
    let r1 = f32_field_spec(elems[1], ve);
    if r0 is Err {
        Err(r0->Err_0)
    } else if r1 is Err {
        Err(r1->Err_0)
    } else if n == 2 {
        Ok(TypedValue::Vec2(r0->Ok_0, r1->Ok_0))
    } else {
        let r2 = f32_field_spec(elems[2], ve);
        if r2 is Err {
            Err(r2->Err_0)
        } else if n == 3 {
            Ok(TypedValue::Vec3(r0->Ok_0, r1->Ok_0, r2->Ok_0))
        } else {
            let r3 = f32_field_spec(elems[3], ve);
            if r3 is Err {
                Err(r3->Err_0)
            } else {
                Ok(TypedValue::Vec4(r0->Ok_0, r1->Ok_0, r2->Ok_0, r3->Ok_0))
            }
        }
    }
}

/// Decodes a double-precision vector of arity `n`.
pub open spec fn vec_f64s_spec(n: u32, elems: Seq<JsonValue>) -> Result<TypedValue, ErrorModel> {
    let ve = "vector element"@;
    let r0 = f64_field_spec(elems[0], ve);
    let r1 = f64_field_spec(elems[1], ve);
    if r0 is Err {
        Err(r0->Err_0)
    } else if r1 is Err {
        Err(r1->Err_0)
    } else if n == 2 {
        Ok(TypedValue::DVec2(r0->Ok_0, r1->Ok_0))
    } else {
        let r2 = f64_field_spec(elems[2], ve);
        if r2 is Err {
            Err(r2->Err_0)
        } else if n == 3 {
            Ok(TypedValue::DVec3(r0->Ok_0, r1->Ok_0, r2->Ok_0))
        } else {
            let r3 = f64_field_spec(elems[3], ve);
            if r3 is Err {
                Err(r3->Err_0)
            } else {
                Ok(TypedValue::DVec4(r0->Ok_0, r1->Ok_0, r2->Ok_0, r3->Ok_0))
            }
        }
    }
}

// ---------------------------------------------------------------------------
// The constant resolver
// ---------------------------------------------------------------------------

/// What `resolve_constant` yields: scalar kinds read one matching JSON value;
/// vector kinds read an array of exactly the declared arity, each element
/// under the scalar decoder; matrix literals are unsupported. Decoding is
/// all-or-nothing: the first fault is the result.
pub open spec fn resolve_constant_spec(t: TypeName, v: JsonValue) -> Result<
    TypedValue,
    ErrorModel,
> {
    let cv = "constant value"@;
    match t {
        TypeName::Bool => match bool_field_spec(v, cv) {
            Ok(b) => Ok(TypedValue::Bool(b)),
            Err(e) => Err(e),
        },
        TypeName::Int(signed) => if signed {
            match i32_field_spec(v, cv) {
                Ok(x) => Ok(TypedValue::Int(x)),
                Err(e) => Err(e),
            }
        } else {
            match u32_field_spec(v, cv) {
                Ok(x) => Ok(TypedValue::UInt(x)),
                Err(e) => Err(e),
            }
        },
        TypeName::Float(double) => if double {
            match f64_field_spec(v, cv) {
                Ok(x) => Ok(TypedValue::Double(x)),
                Err(e) => Err(e),
            }
        } else {
            match f32_field_spec(v, cv) {
                Ok(x) => Ok(TypedValue::Float(x)),
                Err(e) => Err(e),
            }
        },
        TypeName::Vector(n, sc) => match v {
            JsonValue::Array(elems) => if elems@.len() != n {
                Err(ErrorModel::WrongArrayLength(t))
            } else {
                match sc {
                    Scalar::Bool => vec_bools_spec(n, elems@),
                    Scalar::Int(true) => vec_i32s_spec(n, elems@),
                    Scalar::Int(false) => vec_u32s_spec(n, elems@),
                    Scalar::Float(false) => vec_f32s_spec(n, elems@),
                    Scalar::Float(true) => vec_f64s_spec(n, elems@),
                }
            },
            _ => Err(ErrorModel::NotArray(cv)),
        },
        TypeName::Matrix(..) => Err(ErrorModel::UnsupportedConstant(t)),
    }
}

/// Decodes a JSON literal against a declared type, all-or-nothing.
pub fn resolve_constant(t: &TypeName, literal: &JsonValue) -> (r: Result<TypedValue, ParseError>)
    requires
        t.wf(),
    ensures
        err_rel(r, resolve_constant_spec(*t, *literal)),
{
    match t {
        TypeName::Bool => match json_bool(literal, "constant value") {
            Ok(b) => Ok(TypedValue::Bool(b)),
            Err(e) => Err(e),
        },
        TypeName::Int(signed) => if *signed {
            match json_i32(literal, "constant value") {
                Ok(x) => Ok(TypedValue::Int(x)),
                Err(e) => Err(e),
            }
        } else {
            match json_u32(literal, "constant value") {
                Ok(x) => Ok(TypedValue::UInt(x)),
                Err(e) => Err(e),
            }
        },
        TypeName::Float(double) => if *double {
            match json_f64_bits(literal, "constant value") {
                Ok(x) => Ok(TypedValue::Double(x)),
                Err(e) => Err(e),
            }
        } else {
            match json_f32_bits(literal, "constant value") {
                Ok(x) => Ok(TypedValue::Float(x)),
                Err(e) => Err(e),
            }
        },
        TypeName::Vector(n, sc) => match literal {
            JsonValue::Array(elems) => {
                if elems.len() != (*n as usize) {
                    Err(ParseError::WrongArrayLength(*t))
                } else {
                    match sc {
                        Scalar::Bool => vec_bools(*n, elems),
                        Scalar::Int(signed) => if *signed {
                            vec_i32s(*n, elems)
                        } else {
                            vec_u32s(*n, elems)
                        },
                        Scalar::Float(double) => if *double {
                            vec_f64s(*n, elems)
                        } else {
                            vec_f32s(*n, elems)
                        },
                    }
                }
            },
            _ => Err(ParseError::NotArray(String::from_str("constant value"))),
        },
        TypeName::Matrix(..) => Err(ParseError::UnsupportedConstant(*t)),
    }
}

fn vec_bools(n: u32, elems: &Vec<JsonValue>) -> (r: Result<TypedValue, ParseError>)
    requires
        2 <= n <= 4,
        elems@.len() == n,
    ensures
        err_rel(r, vec_bools_spec(n, elems@)),
{
    let b0 = match json_bool(&elems[0], "vector element") {
        Ok(b) => b,
        Err(e) => return Err(e),
    };
    let b1 = match json_bool(&elems[1], "vector element") {
        Ok(b) => b,
        Err(e) => return Err(e),
    };
    if n == 2 {
        return Ok(TypedValue::BVec2(b0, b1));
    }
    let b2 = match json_bool(&elems[2], "vector element") {
        Ok(b) => b,
        Err(e) => return Err(e),
    };
    if n == 3 {
        return Ok(TypedValue::BVec3(b0, b1, b2));
    }
    let b3 = match json_bool(&elems[3], "vector element") {
        Ok(b) => b,
        Err(e) => return Err(e),
    };
    Ok(TypedValue::BVec4(b0, b1, b2, b3))
}

fn vec_i32s(n: u32, elems: &Vec<JsonValue>) -> (r: Result<TypedValue, ParseError>)
    requires
        2 <= n <= 4,
        elems@.len() == n,
    ensures
        err_rel(r, vec_i32s_spec(n, elems@)),
{
    let x0 = match json_i32(&elems[0], "vector element") {
        Ok(x) => x,
        Err(e) => return Err(e),
    };
    let x1 = match json_i32(&elems[1], "vector element") {
        Ok(x) => x,
        Err(e) => return Err(e),
    };
    if n == 2 {
        return Ok(TypedValue::IVec2(x0, x1));
    }
    let x2 = match json_i32(&elems[2], "vector element") {
        Ok(x) => x,
        Err(e) => return Err(e),
    };
    if n == 3 {
        return Ok(TypedValue::IVec3(x0, x1, x2));
    }
    let x3 = match json_i32(&elems[3], "vector element") {
        Ok(x) => x,
        Err(e) => return Err(e),
    };
    Ok(TypedValue::IVec4(x0, x1, x2, x3))
}

fn vec_u32s(n: u32, elems: &Vec<JsonValue>) -> (r: Result<TypedValue, ParseError>)
    requires
        2 <= n <= 4,
        elems@.len() == n,
    ensures
        err_rel(r, vec_u32s_spec(n, elems@)),
{
    let x0 = match json_u32(&elems[0], "vector element") {
        Ok(x) => x,
        Err(e) => return Err(e),
    };
    let x1 = match json_u32(&elems[1], "vector element") {
        Ok(x) => x,
        Err(e) => return Err(e),
    };
    if n == 2 {
        return Ok(TypedValue::UVec2(x0, x1));
    }
    let x2 = match json_u32(&elems[2], "vector element") {
        Ok(x) => x,
        Err(e) => return Err(e),
    };
    if n == 3 {
        return Ok(TypedValue::UVec3(x0, x1, x2));
    }
    let x3 = match json_u32(&elems[3], "vector element") {
        Ok(x) => x,
        Err(e) => return Err(e),
    };
    Ok(TypedValue::UVec4(x0, x1, x2, x3))
}

fn vec_f32s(n: u32, elems: &Vec<JsonValue>) -> (r: Result<TypedValue, ParseError>)
    requires
        2 <= n <= 4,
        elems@.len() == n,
    ensures
        err_rel(r, vec_f32s_spec(n, elems@)),
{
    let x0 = match json_f32_bits(&elems[0], "vector element") {
        Ok(x) => x,
        Err(e) => return Err(e),
    };
    let x1 = match json_f32_bits(&elems[1], "vector element") {
        Ok(x) => x,
        Err(e) => return Err(e),
    };
    if n == 2 {
        return Ok(TypedValue::Vec2(x0, x1));
    }
    let x2 = match json_f32_bits(&elems[2], "vector element") {
        Ok(x) => x,
        Err(e) => return Err(e),
    };
    if n == 3 {
        return Ok(TypedValue::Vec3(x0, x1, x2));
    }
    let x3 = match json_f32_bits(&elems[3], "vector element") {
        Ok(x) => x,
        Err(e) => return Err(e),
    };
    Ok(TypedValue::Vec4(x0, x1, x2, x3))
}

fn vec_f64s(n: u32, elems: &Vec<JsonValue>) -> (r: Result<TypedValue, ParseError>)
    requires
        2 <= n <= 4,
        elems@.len() == n,
    ensures
        err_rel(r, vec_f64s_spec(n, elems@)),
{
    let x0 = match json_f64_bits(&elems[0], "vector element") {
        Ok(x) => x,
        Err(e) => return Err(e),
    };
    let x1 = match json_f64_bits(&elems[1], "vector element") {
        Ok(x) => x,
        Err(e) => return Err(e),
    };
    if n == 2 {
        return Ok(TypedValue::DVec2(x0, x1));
    }
    let x2 = match json_f64_bits(&elems[2], "vector element") {
        Ok(x) => x,
        Err(e) => return Err(e),
    };
    if n == 3 {
        return Ok(TypedValue::DVec3(x0, x1, x2));
    }
    let x3 = match json_f64_bits(&elems[3], "vector element") {
        Ok(x) => x,
        Err(e) => return Err(e),
    };
    Ok(TypedValue::DVec4(x0, x1, x2, x3))
}

// ---------------------------------------------------------------------------
// Laws of the constant resolver
// ---------------------------------------------------------------------------

/// A vector constant whose literal array length differs from the declared
/// arity always fails with the wrong-array-length fault; with exactly the
/// declared length it succeeds precisely when every element decodes under
/// the declared scalar kind.
pub proof fn lemma_vector_constant(n: u32, sc: Scalar, v: JsonValue)
    requires
        2 <= n <= 4,
        v is Array,
    ensures
        (v->Array_0)@.len() != n ==> resolve_constant_spec(TypeName::Vector(n, sc), v) == Err::<
            TypedValue,
            ErrorModel,
        >(ErrorModel::WrongArrayLength(TypeName::Vector(n, sc))),
        (v->Array_0)@.len() == n ==> (resolve_constant_spec(TypeName::Vector(n, sc), v) is Ok
            <==> (forall|i: int| 0 <= i < n ==> elem_ok(sc, #[trigger] (v->Array_0)@[i]))),
{
    let elems = (v->Array_0)@;
    if elems.len() == n {
        if resolve_constant_spec(TypeName::Vector(n, sc), v) is Ok {
            assert forall|i: int| 0 <= i < n implies elem_ok(sc, #[trigger] elems[i]) by {
                assert(i == 0 || i == 1 || i == 2 || i == 3);
            }
        }
    }
}

/// A decoded constant's shape always matches the declared type: the decoder
/// establishes the data-model invariant once, at decode time.
pub proof fn lemma_constant_shape(t: TypeName, v: JsonValue)
    requires
        t.wf(),
        resolve_constant_spec(t, v) is Ok,
    ensures
        (resolve_constant_spec(t, v)->Ok_0).type_of() == t,
{
}

} // verus!
