//! Tests of the instruction converter and the output formatters, on fixed
//! instruction-stream fixtures standing in for the graph compiler.

use shader_graph::{
    error_json, frame_buffer, module_disassembly, module_printer, CompiledModule, Decoration,
    Instruction, ShaderType, StorageClass,
};

/// The compiled module of a pass-through fragment shader: one `vec3` input
/// at location 0 copied to one `vec3` output at location 0.
fn pass_through_module() -> CompiledModule {
    CompiledModule {
        stage: ShaderType::Fragment,
        bound: 12,
        imports: vec![],
        interface: vec![6, 8],
        annotations: vec![
            Instruction::Decorate { target: 6, decoration: Decoration::Location(0) },
            Instruction::Decorate { target: 8, decoration: Decoration::Location(0) },
        ],
        declarations: vec![
            Instruction::TypeVoid { result_id: 1 },
            Instruction::TypeFunction { result_id: 2, return_type: 1 },
            Instruction::TypeFloat { result_id: 5, width: 32 },
            Instruction::TypeVector { result_id: 9, component: 5, count: 3 },
            Instruction::TypePointer { result_id: 7, storage: StorageClass::Input, pointee: 9 },
            Instruction::Variable {
                result_type: 7,
                result_id: 6,
                storage: StorageClass::Input,
                init: 0,
            },
            Instruction::TypePointer { result_id: 10, storage: StorageClass::Output, pointee: 9 },
            Instruction::Variable {
                result_type: 10,
                result_id: 8,
                storage: StorageClass::Output,
                init: 0,
            },
        ],
        body: vec![
            Instruction::Load { result_type: 9, result_id: 11, source: 6, memory_access: 0 },
            Instruction::Store { target: 8, value: 11, memory_access: 0 },
        ],
    }
}

fn empty_vertex_module() -> CompiledModule {
    CompiledModule {
        stage: ShaderType::Vertex,
        bound: 5,
        imports: vec![],
        interface: vec![],
        annotations: vec![],
        declarations: vec![],
        body: vec![],
    }
}

#[test]
fn disassembly_frames_the_pass_through_module() {
    let m = pass_through_module();
    let text = module_disassembly(&m).unwrap();

    // exactly one entry point
    assert_eq!(text.matches("OpEntryPoint").count(), 1);
    assert!(text.contains("OpEntryPoint Fragment %4 \"main\" %6 %8\n"));

    // location decorations on both interface variables
    assert!(text.contains("OpDecorate %6 Location 0\n"));
    assert!(text.contains("OpDecorate %8 Location 0\n"));

    // one execution mode, for the fragment stage
    assert!(text.contains("OpExecutionMode %4 OriginUpperLeft\n"));

    // the function body ends with a return and the function-end marker
    assert!(text.ends_with("OpReturn\nOpFunctionEnd\n"));

    // the header comment lines
    assert!(text.starts_with("; SPIR-V\n; Version: 1.0\n; Generator: Rasen; 1\n; Bound: 12\n; Schema: 0\n"));
}

#[test]
fn vertex_modules_take_no_execution_mode() {
    let m = empty_vertex_module();
    let text = module_disassembly(&m).unwrap();
    assert!(!text.contains("OpExecutionMode"));
    assert!(text.contains("OpEntryPoint Vertex %4 \"main\"\n"));
}

#[test]
fn dump_of_the_empty_vertex_module_is_exact() {
    let m = empty_vertex_module();
    let text = module_printer(&m).unwrap();
    let mut expected = String::new();
    expected.push_str("{\"bound\":5,\"instructions\":[");
    expected.push_str("{\"class\":\";\",\"operands\":[{\"operand\":\"Text\",\"value\":\"SPIR-V\"}]},");
    expected.push_str("{\"class\":\";\",\"operands\":[{\"operand\":\"Text\",\"value\":\"Version: 1.0\"}]},");
    expected.push_str("{\"class\":\";\",\"operands\":[{\"operand\":\"Text\",\"value\":\"Generator: Rasen; 1\"}]},");
    expected.push_str("{\"class\":\";\",\"operands\":[{\"operand\":\"Text\",\"value\":\"Bound: 5\"}]},");
    expected.push_str("{\"class\":\";\",\"operands\":[{\"operand\":\"Text\",\"value\":\"Schema: 0\"}]},");
    expected.push_str("{\"class\":\"OpCapability\",\"operands\":[{\"operand\":\"Text\",\"value\":\"Shader\"}]},");
    expected.push_str("{\"class\":\"OpMemoryModel\",\"operands\":[{\"operand\":\"Text\",\"value\":\"Logical\"},{\"operand\":\"Text\",\"value\":\"GLSL450\"}]},");
    expected.push_str("{\"class\":\"OpEntryPoint\",\"operands\":[{\"operand\":\"Text\",\"value\":\"Vertex\"},{\"operand\":\"Id\",\"value\":4},{\"operand\":\"String\",\"value\":\"main\"}]},");
    expected.push_str("{\"class\":\"OpFunction\",\"result_id\":4,\"operands\":[{\"operand\":\"Type\",\"value\":1},{\"operand\":\"Text\",\"value\":\"FunctionControl{}\"},{\"operand\":\"Type\",\"value\":2}]},");
    expected.push_str("{\"class\":\"OpLabel\",\"result_id\":3,\"operands\":[]},");
    expected.push_str("{\"class\":\"OpReturn\",\"operands\":[]},");
    expected.push_str("{\"class\":\"OpFunctionEnd\",\"operands\":[]}");
    expected.push_str("]}");
    assert_eq!(text, expected);
}

#[test]
fn formatting_is_deterministic() {
    let a = module_printer(&pass_through_module()).unwrap();
    let b = module_printer(&pass_through_module()).unwrap();
    assert_eq!(a, b);
    let c = module_disassembly(&pass_through_module()).unwrap();
    let d = module_disassembly(&pass_through_module()).unwrap();
    assert_eq!(c, d);
}

fn with_body(body: Vec<Instruction>) -> CompiledModule {
    let mut m = pass_through_module();
    m.body = body;
    m
}

#[test]
fn strict_formatter_refuses_unclassified_instructions() {
    let m = with_body(vec![Instruction::Other {
        name: String::from("OpFAdd"),
        result_id: Some(11),
        type_id: Some(9),
        new_type: None,
        operands: vec![5, 6],
    }]);
    let e = module_disassembly(&m).unwrap_err();
    assert_eq!(e, "Unimplemented instruction \"OpFAdd\"");

    // the permissive dump carries the same instruction as a generic record
    let text = module_printer(&m).unwrap();
    assert!(text.contains(
        "{\"class\":\"OpFAdd\",\"result_id\":11,\"operands\":[{\"operand\":\"Type\",\"value\":9},{\"operand\":\"Id\",\"value\":5},{\"operand\":\"Id\",\"value\":6}]}"
    ));
}

#[test]
fn unsupported_storage_class_fails_conversion() {
    let m = with_body(vec![Instruction::Variable {
        result_type: 7,
        result_id: 6,
        storage: StorageClass::Other(2),
        init: 0,
    }]);
    assert_eq!(module_printer(&m).unwrap_err(), "Unsupported storage class 2");
    assert_eq!(module_disassembly(&m).unwrap_err(), "Unsupported storage class 2");
}

#[test]
fn other_decorations_are_dropped() {
    let mut m = pass_through_module();
    m.annotations = vec![Instruction::Decorate { target: 6, decoration: Decoration::Other }];
    let text = module_disassembly(&m).unwrap();
    assert!(text.contains("OpDecorate %6\n"));
}

#[test]
fn constant_payload_width_selects_the_literal_kind() {
    // one word: a single-precision literal, reinterpreted from its bits
    let m = with_body(vec![Instruction::Constant {
        result_type: 5,
        result_id: 11,
        words: vec![1.5f32.to_bits()],
    }]);
    let text = module_printer(&m).unwrap();
    assert!(text.contains("{\"operand\":\"Float\",\"value\":1.5}"), "{}", text);
    // the disassembly renders the same literal in hexadecimal-significand form
    let listing = module_disassembly(&m).unwrap();
    assert!(listing.contains("%11 = OpConstant %5 0x1.8p0\n"), "{}", listing);

    // two words: a double-precision literal, low word first
    let bits = 0.5f64.to_bits();
    let lo = (bits & 0xffff_ffff) as u32;
    let hi = (bits >> 32) as u32;
    let m = with_body(vec![Instruction::Constant {
        result_type: 5,
        result_id: 11,
        words: vec![lo, hi],
    }]);
    let text = module_printer(&m).unwrap();
    assert!(text.contains("{\"operand\":\"Double\",\"value\":0.5}"), "{}", text);

    // sign and subnormals render exactly
    let m = with_body(vec![Instruction::Constant {
        result_type: 5,
        result_id: 11,
        words: vec![(-1.5f32).to_bits()],
    }]);
    let text = module_printer(&m).unwrap();
    assert!(text.contains("{\"operand\":\"Float\",\"value\":-1.5}"), "{}", text);

    // any other width fails
    let m = with_body(vec![Instruction::Constant {
        result_type: 5,
        result_id: 11,
        words: vec![1, 2, 3],
    }]);
    assert_eq!(module_printer(&m).unwrap_err(), "Unexpected constant size 3");
}

#[test]
fn extended_instructions_resolve_against_the_fixed_enumeration() {
    let m = with_body(vec![Instruction::ExtInst {
        result_type: 9,
        result_id: 11,
        set: 2,
        instruction: 69,
        operands: vec![6],
    }]);
    let text = module_disassembly(&m).unwrap();
    assert!(text.contains("%11 = OpExtInst %9 %2 Normalize %6\n"), "{}", text);

    let m = with_body(vec![Instruction::ExtInst {
        result_type: 9,
        result_id: 11,
        set: 2,
        instruction: 99,
        operands: vec![6],
    }]);
    assert_eq!(module_printer(&m).unwrap_err(), "Unknown extended instruction 99");
}

#[test]
fn import_table_is_emitted() {
    let mut m = pass_through_module();
    m.imports = vec![(2, String::from("GLSL.std.450"))];
    let text = module_disassembly(&m).unwrap();
    assert!(text.contains("%2 = OpExtInstImport \"GLSL.std.450\"\n"));
}

#[test]
fn variable_initializers_are_kept_when_present() {
    let m = with_body(vec![Instruction::Variable {
        result_type: 7,
        result_id: 6,
        storage: StorageClass::Input,
        init: 5,
    }]);
    let text = module_disassembly(&m).unwrap();
    assert!(text.contains("%6 = OpVariable %7 Input %5\n"));
}

#[test]
fn remaining_declaration_kinds_render() {
    let mut m = pass_through_module();
    m.declarations = vec![
        Instruction::TypeBool { result_id: 3 },
        Instruction::TypeInt { result_id: 4, width: 32, signed: true },
        Instruction::TypeInt { result_id: 5, width: 32, signed: false },
        Instruction::TypeMatrix { result_id: 6, column: 9, count: 4 },
    ];
    m.body = vec![Instruction::CompositeExtract {
        result_type: 5,
        result_id: 11,
        source: 7,
        indices: vec![0, 2],
    }];
    let text = module_disassembly(&m).unwrap();
    assert!(text.contains("%3 = OpTypeBool\n"));
    assert!(text.contains("%4 = OpTypeInt 32 1\n"));
    assert!(text.contains("%5 = OpTypeInt 32 0\n"));
    assert!(text.contains("%6 = OpTypeMatrix %9 4\n"));
    assert!(text.contains("%11 = OpCompositeExtract %5 %7 0 2\n"));
}

#[test]
fn unsupported_stages_fail() {
    let mut m = pass_through_module();
    m.stage = ShaderType::Geometry;
    assert_eq!(module_printer(&m).unwrap_err(), "Unsupported shader stage Geometry");
    m.stage = ShaderType::Compute;
    assert_eq!(module_disassembly(&m).unwrap_err(), "Unsupported shader stage Compute");
}

#[test]
fn error_wrapping_escapes_the_message() {
    assert_eq!(error_json("plain"), "{\"error\":\"plain\"}");
    assert_eq!(
        error_json("bad \"x\"\nline"),
        "{\"error\":\"bad \\\"x\\\"\\nline\"}"
    );
    assert_eq!(error_json("ctl \u{1}"), "{\"error\":\"ctl \\u0001\"}");
}

#[test]
fn framed_buffers_carry_a_little_endian_length() {
    assert_eq!(frame_buffer(&vec![]), vec![0u8; 8]);
    assert_eq!(
        frame_buffer(&vec![9, 8, 7]),
        vec![3, 0, 0, 0, 0, 0, 0, 0, 9, 8, 7]
    );
    let payload = vec![0u8; 0x0102];
    let framed = frame_buffer(&payload);
    assert_eq!(&framed[..8], &[0x02, 0x01, 0, 0, 0, 0, 0, 0]);
    assert_eq!(framed.len(), 8 + 0x0102);
}
