//! Tests of the type and constant resolver.

use shader_graph::{
    narrow_f64_bits, resolve_constant, resolve_type, type_string, JsonNum, JsonValue, Scalar,
    TypeName, TypedValue,
};

fn num(x: f64) -> JsonValue {
    JsonValue::Num(JsonNum {
        signed: if x.fract() == 0.0 && x >= i64::MIN as f64 && x <= i64::MAX as f64 {
            Some(x as i64)
        } else {
            None
        },
        unsigned: if x.fract() == 0.0 && x >= 0.0 && x <= u64::MAX as f64 {
            Some(x as u64)
        } else {
            None
        },
        double_bits: x.to_bits(),
    })
}

fn uint(x: u64) -> JsonValue {
    JsonValue::Num(JsonNum {
        signed: if x <= i64::MAX as u64 { Some(x as i64) } else { None },
        unsigned: Some(x),
        double_bits: (x as f64).to_bits(),
    })
}

#[test]
fn vocabulary_resolves_completely() {
    let cases: Vec<(&str, TypeName)> = vec![
        ("bool", TypeName::Bool),
        ("int", TypeName::Int(true)),
        ("uint", TypeName::Int(false)),
        ("float", TypeName::Float(false)),
        ("double", TypeName::Float(true)),
        ("bvec2", TypeName::Vector(2, Scalar::Bool)),
        ("bvec3", TypeName::Vector(3, Scalar::Bool)),
        ("bvec4", TypeName::Vector(4, Scalar::Bool)),
        ("ivec2", TypeName::Vector(2, Scalar::Int(true))),
        ("ivec3", TypeName::Vector(3, Scalar::Int(true))),
        ("ivec4", TypeName::Vector(4, Scalar::Int(true))),
        ("uvec2", TypeName::Vector(2, Scalar::Int(false))),
        ("uvec3", TypeName::Vector(3, Scalar::Int(false))),
        ("uvec4", TypeName::Vector(4, Scalar::Int(false))),
        ("vec2", TypeName::Vector(2, Scalar::Float(false))),
        ("vec3", TypeName::Vector(3, Scalar::Float(false))),
        ("vec4", TypeName::Vector(4, Scalar::Float(false))),
        ("dvec2", TypeName::Vector(2, Scalar::Float(true))),
        ("dvec3", TypeName::Vector(3, Scalar::Float(true))),
        ("dvec4", TypeName::Vector(4, Scalar::Float(true))),
        ("mat2", TypeName::Matrix(2)),
        ("mat3", TypeName::Matrix(3)),
        ("mat4", TypeName::Matrix(4)),
    ];
    for (name, expected) in cases {
        assert_eq!(resolve_type(name), Some(expected));
        // the rendered name of each type is the name it resolves from
        assert_eq!(type_string(&expected), name);
    }
}

#[test]
fn unknown_type_names_resolve_to_nothing() {
    for name in ["", "Bool", "vec5", "vec", "mat1", "mat5", "vec3 ", "texture2D", "bvec"] {
        assert!(resolve_type(name).is_none(), "{:?} should be unknown", name);
    }
}

#[test]
fn scalar_constants_decode() {
    let t = resolve_type("bool").unwrap();
    assert_eq!(resolve_constant(&t, &JsonValue::Bool(true)).unwrap(), TypedValue::Bool(true));

    let t = resolve_type("int").unwrap();
    assert_eq!(resolve_constant(&t, &num(-7.0)).unwrap(), TypedValue::Int(-7));

    let t = resolve_type("uint").unwrap();
    assert_eq!(resolve_constant(&t, &uint(42)).unwrap(), TypedValue::UInt(42));

    let t = resolve_type("double").unwrap();
    assert_eq!(
        resolve_constant(&t, &num(0.1)).unwrap(),
        TypedValue::Double(0.1f64.to_bits())
    );

    let t = resolve_type("float").unwrap();
    assert_eq!(
        resolve_constant(&t, &num(0.1)).unwrap(),
        TypedValue::Float((0.1f64 as f32).to_bits())
    );
}

#[test]
fn scalar_constants_reject_wrong_kinds() {
    let t = resolve_type("bool").unwrap();
    let e = resolve_constant(&t, &num(1.0)).unwrap_err();
    assert_eq!(e.message(), "constant value is not a boolean");

    let t = resolve_type("int").unwrap();
    let e = resolve_constant(&t, &JsonValue::Text(String::from("3"))).unwrap_err();
    assert_eq!(e.message(), "constant value is not an integer");

    let t = resolve_type("uint").unwrap();
    let e = resolve_constant(&t, &num(-1.0)).unwrap_err();
    assert_eq!(e.message(), "constant value is not an unsigned integer");

    let t = resolve_type("float").unwrap();
    let e = resolve_constant(&t, &JsonValue::Null).unwrap_err();
    assert_eq!(e.message(), "constant value is not a float");

    let t = resolve_type("double").unwrap();
    let e = resolve_constant(&t, &JsonValue::Bool(false)).unwrap_err();
    assert_eq!(e.message(), "constant value is not a double");
}

#[test]
fn integer_constants_truncate_as_32_bit() {
    let t = resolve_type("uint").unwrap();
    assert_eq!(
        resolve_constant(&t, &uint(0x1_0000_0005)).unwrap(),
        TypedValue::UInt(5)
    );
}

#[test]
fn vector_constant_of_exact_length_decodes() {
    let t = resolve_type("vec3").unwrap();
    let v = JsonValue::Array(vec![num(0.25), num(1.0), num(0.1)]);
    assert_eq!(
        resolve_constant(&t, &v).unwrap(),
        TypedValue::Vec3(
            (0.25f64 as f32).to_bits(),
            (1.0f64 as f32).to_bits(),
            (0.1f64 as f32).to_bits(),
        )
    );

    let t = resolve_type("bvec2").unwrap();
    let v = JsonValue::Array(vec![JsonValue::Bool(true), JsonValue::Bool(false)]);
    assert_eq!(resolve_constant(&t, &v).unwrap(), TypedValue::BVec2(true, false));

    let t = resolve_type("ivec4").unwrap();
    let v = JsonValue::Array(vec![num(1.0), num(-2.0), num(3.0), num(-4.0)]);
    assert_eq!(resolve_constant(&t, &v).unwrap(), TypedValue::IVec4(1, -2, 3, -4));

    let t = resolve_type("uvec2").unwrap();
    let v = JsonValue::Array(vec![uint(7), uint(9)]);
    assert_eq!(resolve_constant(&t, &v).unwrap(), TypedValue::UVec2(7, 9));

    let t = resolve_type("dvec2").unwrap();
    let v = JsonValue::Array(vec![num(0.5), num(2.5)]);
    assert_eq!(
        resolve_constant(&t, &v).unwrap(),
        TypedValue::DVec2(0.5f64.to_bits(), 2.5f64.to_bits())
    );
}

#[test]
fn vector_constant_of_wrong_length_fails() {
    let t = resolve_type("vec3").unwrap();
    for len in [0usize, 1, 2, 4, 5] {
        let v = JsonValue::Array((0..len).map(|_| num(1.0)).collect());
        let e = resolve_constant(&t, &v).unwrap_err();
        assert_eq!(e.message(), "Wrong array length for vec3");
    }
    let t = resolve_type("bvec4").unwrap();
    let v = JsonValue::Array((0..3).map(|_| JsonValue::Bool(true)).collect());
    assert_eq!(
        resolve_constant(&t, &v).unwrap_err().message(),
        "Wrong array length for bvec4"
    );
}

#[test]
fn vector_constant_reports_first_bad_element() {
    let t = resolve_type("vec2").unwrap();
    let v = JsonValue::Array(vec![num(1.0), JsonValue::Text(String::from("x"))]);
    assert_eq!(
        resolve_constant(&t, &v).unwrap_err().message(),
        "vector element is not a float"
    );
    let t = resolve_type("bvec2").unwrap();
    let v = JsonValue::Array(vec![num(1.0), JsonValue::Bool(true)]);
    assert_eq!(
        resolve_constant(&t, &v).unwrap_err().message(),
        "vector element is not a boolean"
    );
}

#[test]
fn vector_constant_requires_an_array() {
    let t = resolve_type("vec2").unwrap();
    assert_eq!(
        resolve_constant(&t, &num(1.0)).unwrap_err().message(),
        "constant value is not an array"
    );
}

#[test]
fn matrix_constants_are_unsupported() {
    for name in ["mat2", "mat3", "mat4"] {
        let t = resolve_type(name).unwrap();
        let v = JsonValue::Array((0..4).map(|_| num(1.0)).collect());
        let e = resolve_constant(&t, &v).unwrap_err();
        assert_eq!(e.message(), format!("Unknown constant type \"{}\"", name));
    }
}

#[test]
fn narrowing_matches_the_hardware_conversion() {
    let cases: Vec<f64> = vec![
        0.0,
        -0.0,
        1.0,
        -1.0,
        0.1,
        0.5,
        1.5,
        -2.75,
        3.141592653589793,
        2.718281828459045,
        1e-40,           // subnormal in single precision
        -1e-40,
        1e-45,           // below half the smallest single subnormal
        7e-46,
        1.4e-45,         // around the smallest single subnormal
        1e-320,          // double subnormal
        3.4028234663852886e38,   // largest finite single
        3.4028235e38,
        3.4028236e38,            // rounds to infinity
        1e39,
        -1e39,
        1.7976931348623157e308,  // largest finite double
        5e-324,                  // smallest double subnormal
        f64::INFINITY,
        f64::NEG_INFINITY,
        1.0000000596046448,      // halfway between two singles
        1.0000000596046449,
        16777217.0,              // 2^24 + 1, not a single
        33554430.0,
        123456789.123456789,
    ];
    for x in cases {
        let expected = (x as f32).to_bits();
        let got = narrow_f64_bits(x.to_bits());
        assert_eq!(got, expected, "narrowing {:e} ({:#x})", x, x.to_bits());
    }
    // a sweep across exponents, with assorted mantissa patterns
    let mut x: f64 = 1.0;
    for _ in 0..700 {
        for m in [1.0, 1.25, 1.3333333333333333, 1.9999999999999998] {
            let y = x * m;
            assert_eq!(narrow_f64_bits(y.to_bits()), (y as f32).to_bits(), "value {:e}", y);
            let z = -y;
            assert_eq!(narrow_f64_bits(z.to_bits()), (z as f32).to_bits(), "value {:e}", z);
        }
        x *= 0.1;
    }
    let mut x: f64 = 1.0;
    for _ in 0..320 {
        for m in [1.0, 1.5, 1.0000000596046448, 1.7] {
            let y = x * m;
            assert_eq!(narrow_f64_bits(y.to_bits()), (y as f32).to_bits(), "value {:e}", y);
        }
        x *= 10.0;
    }
}

#[test]
fn narrowing_canonicalizes_nan() {
    let bits = f64::NAN.to_bits();
    let got = narrow_f64_bits(bits);
    assert!(f32::from_bits(got).is_nan());
}
