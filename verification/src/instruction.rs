//! The compiled-instruction model: what the graph compiler hands back, one
//! low-level operation per value, ready for serialization.

use vstd::prelude::*;

verus! {

/// Module capabilities; shader modules declare exactly one.
#[derive(Clone, Copy, Debug, PartialEq, Eq, Structural)]
pub enum Capability {
    Shader,
}

/// The addressing model of the reconstructed module.
#[derive(Clone, Copy, Debug, PartialEq, Eq, Structural)]
pub enum AddressingModel {
    Logical,
}

/// The memory model of the reconstructed module.
#[derive(Clone, Copy, Debug, PartialEq, Eq, Structural)]
pub enum MemoryModelKind {
    Glsl450,
}

/// The execution model an entry point declares.
#[derive(Clone, Copy, Debug, PartialEq, Eq, Structural)]
pub enum ExecutionModel {
    Vertex,
    Fragment,
}

/// The execution mode an entry point declares.
#[derive(Clone, Copy, Debug, PartialEq, Eq, Structural)]
pub enum ExecMode {
    OriginUpperLeft,
}

/// The shader stage a caller asks a module to be framed for. Only the vertex
/// and fragment stages are supported; the others are named so that asking for
/// them can fail explicitly.
#[derive(Clone, Copy, Debug, PartialEq, Eq, Structural)]
pub enum ShaderType {
    Vertex,
    Fragment,
    Geometry,
    TessellationControl,
    TessellationEvaluation,
    Compute,
}

/// A variable's storage class. Only the shader interface classes are
/// supported; any other class is carried by number and fails conversion.
#[derive(Clone, Copy, Debug, PartialEq, Eq, Structural)]
pub enum StorageClass {
    Input,
    Output,
    Other(u32),
}

/// An id decoration. Only the interface location is re-emitted; every other
/// decoration kind is carried opaquely and silently dropped.
#[derive(Clone, Copy, Debug, PartialEq, Eq, Structural)]
pub enum Decoration {
    Location(u32),
    Other,
}

/// The extended geometry/trigonometry instructions of the GLSL instruction
/// set that the compiler emits.
#[derive(Clone, Copy, Debug, PartialEq, Eq, Structural)]
pub enum GlslOp {
    Round,
    Floor,
    Ceil,
    Sin,
    Cos,
    Tan,
    Pow,
    FMin,
    FMax,
    FClamp,
    Length,
    Distance,
    Cross,
    Normalize,
    Reflect,
    Refract,
}

/// The extended instruction a numeric opcode resolves to, against the fixed
/// enumeration of the GLSL instruction set.
pub open spec fn glsl_of_spec(n: u32) -> Option<GlslOp> {
    if n == 1 {
        Some(GlslOp::Round)
    } else if n == 8 {
        Some(GlslOp::Floor)
    } else if n == 9 {
        Some(GlslOp::Ceil)
    } else if n == 13 {
        Some(GlslOp::Sin)
    } else if n == 14 {
        Some(GlslOp::Cos)
    } else if n == 15 {
        Some(GlslOp::Tan)
    } else if n == 26 {
        Some(GlslOp::Pow)
    } else if n == 37 {
        Some(GlslOp::FMin)
    } else if n == 40 {
        Some(GlslOp::FMax)
    } else if n == 43 {
        Some(GlslOp::FClamp)
    } else if n == 66 {
        Some(GlslOp::Length)
    } else if n == 67 {
        Some(GlslOp::Distance)
    } else if n == 68 {
        Some(GlslOp::Cross)
    } else if n == 69 {
        Some(GlslOp::Normalize)
    } else if n == 71 {
        Some(GlslOp::Reflect)
    } else if n == 72 {
        Some(GlslOp::Refract)
    } else {
        None
    }
}

/// Resolves a numeric extended-instruction opcode.
pub fn glsl_of(n: u32) -> (r: Option<GlslOp>)
    ensures
        r == glsl_of_spec(n),
{
    if n == 1 {
        Some(GlslOp::Round)
    } else if n == 8 {
        Some(GlslOp::Floor)
    } else if n == 9 {
        Some(GlslOp::Ceil)
    } else if n == 13 {
        Some(GlslOp::Sin)
    } else if n == 14 {
        Some(GlslOp::Cos)
    } else if n == 15 {
        Some(GlslOp::Tan)
    } else if n == 26 {
        Some(GlslOp::Pow)
    } else if n == 37 {
        Some(GlslOp::FMin)
    } else if n == 40 {
        Some(GlslOp::FMax)
    } else if n == 43 {
        Some(GlslOp::FClamp)
    } else if n == 66 {
        Some(GlslOp::Length)
    } else if n == 67 {
        Some(GlslOp::Distance)
    } else if n == 68 {
        Some(GlslOp::Cross)
    } else if n == 69 {
        Some(GlslOp::Normalize)
    } else if n == 71 {
        Some(GlslOp::Reflect)
    } else if n == 72 {
        Some(GlslOp::Refract)
    } else {
        None
    }
}

/// The name of an extended instruction.
pub open spec fn glsl_name_spec(op: GlslOp) -> Seq<char> {
    match op {
        GlslOp::Round => "Round"@,
        GlslOp::Floor => "Floor"@,
        GlslOp::Ceil => "Ceil"@,
        GlslOp::Sin => "Sin"@,
        GlslOp::Cos => "Cos"@,
        GlslOp::Tan => "Tan"@,
        GlslOp::Pow => "Pow"@,
        GlslOp::FMin => "FMin"@,
        GlslOp::FMax => "FMax"@,
        GlslOp::FClamp => "FClamp"@,
        GlslOp::Length => "Length"@,
        GlslOp::Distance => "Distance"@,
        GlslOp::Cross => "Cross"@,
        GlslOp::Normalize => "Normalize"@,
        GlslOp::Reflect => "Reflect"@,
        GlslOp::Refract => "Refract"@,
    }
}

/// One compiled instruction. The closed variants carry the operations the
/// compiler emits for vertex and fragment pipelines; `Other` is the one
/// deliberately lossy catch-all for genuinely unclassified operations, and
/// carries the declared mnemonic, the declared result/type ids, and the raw
/// operand id list.
#[derive(Debug)]
pub enum Instruction {
    Capability { capability: Capability },
    ExtInstImport { result_id: u32, name: String },
    MemoryModel { addressing: AddressingModel, memory: MemoryModelKind },
    EntryPoint { execution_model: ExecutionModel, func: u32, name: String, interface: Vec<u32> },
    ExecutionMode { entry: u32, mode: ExecMode },
    Decorate { target: u32, decoration: Decoration },
    TypeVoid { result_id: u32 },
    TypeBool { result_id: u32 },
    TypeFunction { result_id: u32, return_type: u32 },
    TypeInt { result_id: u32, width: u32, signed: bool },
    TypeFloat { result_id: u32, width: u32 },
    TypeVector { result_id: u32, component: u32, count: u32 },
    TypeMatrix { result_id: u32, column: u32, count: u32 },
    TypePointer { result_id: u32, storage: StorageClass, pointee: u32 },
    Constant { result_type: u32, result_id: u32, words: Vec<u32> },
    Variable { result_type: u32, result_id: u32, storage: StorageClass, init: u32 },
    Load { result_type: u32, result_id: u32, source: u32, memory_access: u32 },
    Store { target: u32, value: u32, memory_access: u32 },
    CompositeExtract { result_type: u32, result_id: u32, source: u32, indices: Vec<u32> },
    ExtInst { result_type: u32, result_id: u32, set: u32, instruction: u32, operands: Vec<u32> },
    Function { result_type: u32, result_id: u32, control: u32, function_type: u32 },
    Label { result_id: u32 },
    Return,
    FunctionEnd,
    Other {
        name: String,
        result_id: Option<u32>,
        type_id: Option<u32>,
        new_type: Option<u32>,
        operands: Vec<u32>,
    },
}

} // verus!
