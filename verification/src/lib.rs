//! Shader node-graph front end and instruction serializer.
//!
//! The crate decodes a JSON-described node graph into a typed graph for a
//! shader compiler, and renders a compiled instruction stream into either a
//! structured JSON dump, a textual disassembly of the reconstructed module,
//! or a length-prefixed byte buffer.
//!
//! Floating-point values never appear in this crate as such: they are
//! carried as IEEE-754 bit patterns and rendered with integer arithmetic
//! alone. The structured dump renders the `Float` and `Double` operand kinds
//! as decimal JSON numbers — the exact decimal expansion of the stored
//! value, which parses back to the identical bits (it is exact rather than
//! shortest, so non-dyadic values render with their full digit strings).
//! The textual disassembly renders the same literals in compact
//! hexadecimal-significand notation.

pub mod assemble;
pub mod bits;
pub mod constant;
pub mod convert;
pub mod decimal;
pub mod errors;
pub mod fmt;
pub mod graph;
pub mod instruction;
pub mod json;
pub mod printer;
pub mod types;

pub use assemble::CompiledModule;
pub use bits::narrow_f64_bits;
pub use decimal::{f32_decimal, f64_decimal};
pub use constant::{resolve_constant, TypedValue};
pub use convert::{convert_instruction, convert_instruction_strict, EmitError, Operand, Record};
pub use errors::{Kind, ParseError};
pub use graph::{parse_document, parse_input, Edge, Graph, Node};
pub use instruction::{
    Capability, Decoration, ExecutionModel, GlslOp, Instruction, ShaderType, StorageClass,
};
pub use json::{JsonNum, JsonValue};
pub use printer::{error_json, frame_buffer, module_disassembly, module_printer};
pub use types::{resolve_type, type_string, Scalar, TypeName};
