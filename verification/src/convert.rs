//! The instruction converter: one compiled instruction becomes one serialized
//! record of a closed set of operand kinds, with one explicit conversion per
//! source kind.
//!
//! Conversion can fail: on a storage class outside the shader interface, on a
//! constant payload that is neither one nor two words, and on an extended
//! opcode outside the fixed enumeration. The catch-all `Other` instruction
//! converts to a generic record; the strict entry point refuses it instead,
//! for the formatter that must not guess.

use vstd::prelude::*;
use vstd::string::*;

use crate::errors::quoted_spec;
use crate::fmt::{chars_to_string, dec_of, push_chars, push_dec_u32, push_dec_u64, push_json_escaped};
use crate::instruction::{
    glsl_of, glsl_of_spec, Decoration, GlslOp, Instruction, ShaderType, StorageClass,
};

verus! {

/// One serialized operand: a symbolic token, an id reference, a type
/// reference, or a literal.
#[derive(Debug)]
pub enum Operand {
    /// A descriptive token (an enumerant name, a flag set).
    Text(String),
    /// A reference to a value id.
    Id(u32),
    /// A reference to a type id.
    TypeRef(u32),
    /// A literal string.
    LitString(String),
    /// A literal integer.
    LitInt(u32),
    /// A literal single-precision value, as its bit pattern; rendered as the
    /// exact decimal expansion of the value.
    LitFloat(u32),
    /// A literal double-precision value, as its bit pattern; rendered like
    /// [`Operand::LitFloat`].
    LitDouble(u64),
    /// An extended-instruction symbol.
    ExtOp(GlslOp),
}

/// The mathematical value of an [`Operand`].
pub ghost enum OperandModel {
    Text(Seq<char>),
    Id(u32),
    TypeRef(u32),
    LitString(Seq<char>),
    LitInt(u32),
    LitFloat(u32),
    LitDouble(u64),
    ExtOp(GlslOp),
}

impl View for Operand {
    type V = OperandModel;

    open spec fn view(&self) -> OperandModel {
        match self {
            Operand::Text(s) => OperandModel::Text(s@),
            Operand::Id(n) => OperandModel::Id(*n),
            Operand::TypeRef(n) => OperandModel::TypeRef(*n),
            Operand::LitString(s) => OperandModel::LitString(s@),
            Operand::LitInt(n) => OperandModel::LitInt(*n),
            Operand::LitFloat(n) => OperandModel::LitFloat(*n),
            Operand::LitDouble(n) => OperandModel::LitDouble(*n),
            Operand::ExtOp(g) => OperandModel::ExtOp(*g),
        }
    }
}

/// One serialized instruction record: a class mnemonic, an optional result
/// id, and the operand list.
#[derive(Debug)]
pub struct Record {
    /// The instruction's class mnemonic.
    pub class: String,
    /// The result id the instruction defines, if any.
    pub result_id: Option<u32>,
    /// The operands, in order.
    pub operands: Vec<Operand>,
}

/// The mathematical value of a [`Record`].
pub ghost struct RecordModel {
    pub class: Seq<char>,
    pub result_id: Option<u32>,
    pub operands: Seq<OperandModel>,
}

impl View for Record {
    type V = RecordModel;

    open spec fn view(&self) -> RecordModel {
        RecordModel {
            class: self.class@,
            result_id: self.result_id,
            operands: self.operands@.map_values(|op: Operand| op@),
        }
    }
}

/// A fault found while serializing a module.
#[derive(Debug)]
pub enum EmitError {
    /// A storage class outside the shader Input/Output interface.
    UnsupportedStorage(u32),
    /// A constant payload that is neither one nor two words; carries the
    /// word count.
    ConstantSize(usize),
    /// An extended opcode outside the fixed enumeration.
    UnknownExtInst(u32),
    /// An instruction the strict converter does not carry; carries its
    /// mnemonic.
    UnimplementedInstruction(String),
    /// A shader stage the module assembler does not frame.
    UnsupportedStage(ShaderType),
}

/// The mathematical value of an [`EmitError`].
pub ghost enum EmitErrorModel {
    UnsupportedStorage(u32),
    ConstantSize(int),
    UnknownExtInst(u32),
    UnimplementedInstruction(Seq<char>),
    UnsupportedStage(ShaderType),
}

impl View for EmitError {
    type V = EmitErrorModel;

    open spec fn view(&self) -> EmitErrorModel {
        match self {
            EmitError::UnsupportedStorage(n) => EmitErrorModel::UnsupportedStorage(*n),
            EmitError::ConstantSize(n) => EmitErrorModel::ConstantSize(*n as int),
            EmitError::UnknownExtInst(n) => EmitErrorModel::UnknownExtInst(*n),
            EmitError::UnimplementedInstruction(s) => EmitErrorModel::UnimplementedInstruction(s@),
            EmitError::UnsupportedStage(s) => EmitErrorModel::UnsupportedStage(*s),
        }
    }
}

/// The name of a shader stage.
pub open spec fn stage_name_spec(s: ShaderType) -> Seq<char> {
    match s {
        ShaderType::Vertex => "Vertex"@,
        ShaderType::Fragment => "Fragment"@,
        ShaderType::Geometry => "Geometry"@,
        ShaderType::TessellationControl => "TessellationControl"@,
        ShaderType::TessellationEvaluation => "TessellationEvaluation"@,
        ShaderType::Compute => "Compute"@,
    }
}

/// The one-line message of each serialization fault.
pub open spec fn emit_message_spec(e: EmitErrorModel) -> Seq<char> {
    match e {
        EmitErrorModel::UnsupportedStorage(n) => "Unsupported storage class "@ + dec_of(n as nat),
        EmitErrorModel::ConstantSize(n) => "Unexpected constant size "@ + dec_of(n as nat),
        EmitErrorModel::UnknownExtInst(n) => "Unknown extended instruction "@ + dec_of(n as nat),
        EmitErrorModel::UnimplementedInstruction(s) => "Unimplemented instruction "@ + quoted_spec(
            s,
        ),
        EmitErrorModel::UnsupportedStage(s) => "Unsupported shader stage "@ + stage_name_spec(s),
    }
}

impl EmitError {
    /// Renders the fault as its one-line message.
    pub fn message(&self) -> (r: String)
        ensures
            r@ == emit_message_spec(self@),
    {
        let mut out: Vec<char> = Vec::new();
        match self {
            EmitError::UnsupportedStorage(n) => {
                push_chars(&mut out, "Unsupported storage class ");
                push_dec_u32(&mut out, *n);
            },
            EmitError::ConstantSize(n) => {
                push_chars(&mut out, "Unexpected constant size ");
                push_dec_u64(&mut out, *n as u64);
            },
            EmitError::UnknownExtInst(n) => {
                push_chars(&mut out, "Unknown extended instruction ");
                push_dec_u32(&mut out, *n);
            },
            EmitError::UnimplementedInstruction(s) => {
                push_chars(&mut out, "Unimplemented instruction ");
                out.push('"');
                push_json_escaped(&mut out, s.as_str());
                out.push('"');
                assert(out@ =~= "Unimplemented instruction "@ + quoted_spec(s@));
            },
            EmitError::UnsupportedStage(s) => {
                push_chars(&mut out, "Unsupported shader stage ");
                match s {
                    ShaderType::Vertex => push_chars(&mut out, "Vertex"),
                    ShaderType::Fragment => push_chars(&mut out, "Fragment"),
                    ShaderType::Geometry => push_chars(&mut out, "Geometry"),
                    ShaderType::TessellationControl => push_chars(
                        &mut out,
                        "TessellationControl",
                    ),
                    ShaderType::TessellationEvaluation => push_chars(
                        &mut out,
                        "TessellationEvaluation",
                    ),
                    ShaderType::Compute => push_chars(&mut out, "Compute"),
                }
            },
        }
        assert(out@ =~= emit_message_spec(self@));
        chars_to_string(&out)
    }
}

// ---------------------------------------------------------------------------
// Flag sets, rendered as descriptive tokens
// ---------------------------------------------------------------------------

/// Appends one flag name to a flag list: with a separator where the list
/// already holds one.
pub open spec fn flag_append(acc: Seq<char>, any: bool, present: bool, name: Seq<char>) -> Seq<
    char,
> {
    if present {
        if any {
            acc + " | "@ + name
        } else {
            acc + name
        }
    } else {
        acc
    }
}

/// The descriptive text of a function-control flag set.
pub open spec fn function_control_text(bits: u32) -> Seq<char> {
    let a1 = flag_append(Seq::empty(), false, bits % 2 == 1, "FnCtlInline"@);
    let y1 = bits % 2 == 1;
    let a2 = flag_append(a1, y1, (bits / 2) % 2 == 1, "FnCtlDontInline"@);
    let y2 = y1 || (bits / 2) % 2 == 1;
    let a3 = flag_append(a2, y2, (bits / 4) % 2 == 1, "FnCtlPure"@);
    let y3 = y2 || (bits / 4) % 2 == 1;
    let a4 = flag_append(a3, y3, (bits / 8) % 2 == 1, "FnCtlConst"@);
    "FunctionControl{"@ + a4 + "}"@
}

/// The descriptive text of a memory-access flag set.
pub open spec fn memory_access_text(bits: u32) -> Seq<char> {
    let a1 = flag_append(Seq::empty(), false, bits % 2 == 1, "MemAccVolatile"@);
    let y1 = bits % 2 == 1;
    let a2 = flag_append(a1, y1, (bits / 2) % 2 == 1, "MemAccAligned"@);
    let y2 = y1 || (bits / 2) % 2 == 1;
    let a3 = flag_append(a2, y2, (bits / 4) % 2 == 1, "MemAccNontemporal"@);
    "MemoryAccess{"@ + a3 + "}"@
}

fn push_flag(out: &mut Vec<char>, any: &mut bool, present: bool, name: &str)
    ensures
        final(out)@ == flag_append(old(out)@, *old(any), present, name@),
        *final(any) == (*old(any) || present),
{
    if present {
        if *any {
            push_chars(out, " | ");
        }
        push_chars(out, name);
        *any = true;
    }
    assert(final(out)@ =~= flag_append(old(out)@, *old(any), present, name@));
}

/// Renders a function-control flag set as its descriptive token.
fn push_function_control(out: &mut Vec<char>, bits: u32)
    ensures
        final(out)@ == old(out)@ + function_control_text(bits),
{
    let start: usize = out.len();
    push_chars(out, "FunctionControl{");
    let mut body: Vec<char> = Vec::new();
    let mut any: bool = false;
    push_flag(&mut body, &mut any, bits % 2 == 1, "FnCtlInline");
    push_flag(&mut body, &mut any, (bits / 2) % 2 == 1, "FnCtlDontInline");
    push_flag(&mut body, &mut any, (bits / 4) % 2 == 1, "FnCtlPure");
    push_flag(&mut body, &mut any, (bits / 8) % 2 == 1, "FnCtlConst");
    let rendered = chars_to_string(&body);
    push_chars(out, rendered.as_str());
    push_chars(out, "}");
    assert(final(out)@ =~= old(out)@ + function_control_text(bits));
}

/// Renders a memory-access flag set as its descriptive token.
fn push_memory_access(out: &mut Vec<char>, bits: u32)
    ensures
        final(out)@ == old(out)@ + memory_access_text(bits),
{
    push_chars(out, "MemoryAccess{");
    let mut body: Vec<char> = Vec::new();
    let mut any: bool = false;
    push_flag(&mut body, &mut any, bits % 2 == 1, "MemAccVolatile");
    push_flag(&mut body, &mut any, (bits / 2) % 2 == 1, "MemAccAligned");
    push_flag(&mut body, &mut any, (bits / 4) % 2 == 1, "MemAccNontemporal");
    let rendered = chars_to_string(&body);
    push_chars(out, rendered.as_str());
    push_chars(out, "}");
    assert(final(out)@ =~= old(out)@ + memory_access_text(bits));
}

pub(crate) fn flag_set_string(function_control: bool, bits: u32) -> (r: String)
    ensures
        function_control ==> r@ == function_control_text(bits),
        !function_control ==> r@ == memory_access_text(bits),
{
    let mut out: Vec<char> = Vec::new();
    if function_control {
        push_function_control(&mut out, bits);
    } else {
        push_memory_access(&mut out, bits);
    }
    chars_to_string(&out)
}

// ---------------------------------------------------------------------------
// The conversion itself
// ---------------------------------------------------------------------------

/// The models of a list of operands.
pub open spec fn ops_model(ops: Seq<Operand>) -> Seq<OperandModel> {
    ops.map_values(|op: Operand| op@)
}

/// Each id of a list as an id-reference operand.
pub open spec fn ids_ops(ids: Seq<u32>) -> Seq<OperandModel> {
    ids.map_values(|x: u32| OperandModel::Id(x))
}

/// Each integer of a list as a literal-integer operand.
pub open spec fn lit_ops(ids: Seq<u32>) -> Seq<OperandModel> {
    ids.map_values(|x: u32| OperandModel::LitInt(x))
}

/// The name of an execution model.
pub open spec fn execution_model_text(m: crate::instruction::ExecutionModel) -> Seq<char> {
    match m {
        crate::instruction::ExecutionModel::Vertex => "Vertex"@,
        crate::instruction::ExecutionModel::Fragment => "Fragment"@,
    }
}

/// The token of a supported storage class.
pub open spec fn storage_text(s: StorageClass) -> Seq<char> {
    match s {
        StorageClass::Input => "Input"@,
        StorageClass::Output => "Output"@,
        StorageClass::Other(..) => Seq::empty(),
    }
}

/// What converting one instruction yields: one record per closed variant,
/// the generic record for `Other`, and a fault for an unsupported storage
/// class, a malformed constant payload, or an unknown extended opcode.
pub open spec fn convert_spec(inst: Instruction) -> Result<RecordModel, EmitErrorModel> {
    match inst {
        Instruction::Capability { .. } => Ok(
            (RecordModel {
                class: "OpCapability"@,
                result_id: None,
                operands: seq![OperandModel::Text("Shader"@)],
            }),
        ),
        Instruction::ExtInstImport { result_id, name } => Ok(
            (RecordModel {
                class: "OpExtInstImport"@,
                result_id: Some(result_id),
                operands: seq![OperandModel::LitString(name@)],
            }),
        ),
        Instruction::MemoryModel { .. } => Ok(
            (RecordModel {
                class: "OpMemoryModel"@,
                result_id: None,
                operands: seq![OperandModel::Text("Logical"@), OperandModel::Text("GLSL450"@)],
            }),
        ),
        Instruction::EntryPoint { execution_model, func, name, interface } => Ok(
            (RecordModel {
                class: "OpEntryPoint"@,
                result_id: None,
                operands: seq![
                    OperandModel::Text(execution_model_text(execution_model)),
                    OperandModel::Id(func),
                    OperandModel::LitString(name@),
                ] + ids_ops(interface@),
            }),
        ),
        Instruction::ExecutionMode { entry, .. } => Ok(
            (RecordModel {
                class: "OpExecutionMode"@,
                result_id: None,
                operands: seq![OperandModel::Id(entry), OperandModel::Text("OriginUpperLeft"@)],
            }),
        ),
        Instruction::Decorate { target, decoration } => Ok(
            (RecordModel {
                class: "OpDecorate"@,
                result_id: None,
                operands: match decoration {
                    Decoration::Location(loc) => seq![
                        OperandModel::Id(target),
                        OperandModel::Text("Location"@),
                        OperandModel::LitInt(loc),
                    ],
                    Decoration::Other => seq![OperandModel::Id(target)],
                },
            }),
        ),
        Instruction::TypeVoid { result_id } => Ok(
            (RecordModel {
                class: "OpTypeVoid"@,
                result_id: Some(result_id),
                operands: Seq::empty(),
            }),
        ),
        Instruction::TypeBool { result_id } => Ok(
            (RecordModel {
                class: "OpTypeBool"@,
                result_id: Some(result_id),
                operands: Seq::empty(),
            }),
        ),
        Instruction::TypeFunction { result_id, return_type } => Ok(
            (RecordModel {
                class: "OpTypeFunction"@,
                result_id: Some(result_id),
                operands: seq![OperandModel::TypeRef(return_type)],
            }),
        ),
        Instruction::TypeInt { result_id, width, signed } => Ok(
            (RecordModel {
                class: "OpTypeInt"@,
                result_id: Some(result_id),
                operands: seq![
                    OperandModel::LitInt(width),
                    OperandModel::LitInt(
                        if signed {
                            1
                        } else {
                            0
                        },
                    ),
                ],
            }),
        ),
        Instruction::TypeFloat { result_id, width } => Ok(
            (RecordModel {
                class: "OpTypeFloat"@,
                result_id: Some(result_id),
                operands: seq![OperandModel::LitInt(width)],
            }),
        ),
        Instruction::TypeVector { result_id, component, count } => Ok(
            (RecordModel {
                class: "OpTypeVector"@,
                result_id: Some(result_id),
                operands: seq![OperandModel::TypeRef(component), OperandModel::LitInt(count)],
            }),
        ),
        Instruction::TypeMatrix { result_id, column, count } => Ok(
            (RecordModel {
                class: "OpTypeMatrix"@,
                result_id: Some(result_id),
                operands: seq![OperandModel::TypeRef(column), OperandModel::LitInt(count)],
            }),
        ),
        Instruction::TypePointer { result_id, storage, pointee } => match storage {
            StorageClass::Other(n) => Err(EmitErrorModel::UnsupportedStorage(n)),
            _ => Ok(
                (RecordModel {
                    class: "OpTypePointer"@,
                    result_id: Some(result_id),
                    operands: seq![
                        OperandModel::Text(storage_text(storage)),
                        OperandModel::TypeRef(pointee),
                    ],
                }),
            ),
        },
        Instruction::Constant { result_type, result_id, words } => if words@.len() == 1 {
            Ok(
                (RecordModel {
                    class: "OpConstant"@,
                    result_id: Some(result_id),
                    operands: seq![
                        OperandModel::TypeRef(result_type),
                        OperandModel::LitFloat(words@[0]),
                    ],
                }),
            )
        } else if words@.len() == 2 {
            Ok(
                (RecordModel {
                    class: "OpConstant"@,
                    result_id: Some(result_id),
                    operands: seq![
                        OperandModel::TypeRef(result_type),
                        OperandModel::LitDouble(
                            ((words@[0] + words@[1] * 0x1_0000_0000) as u64),
                        ),
                    ],
                }),
            )
        } else {
            Err(EmitErrorModel::ConstantSize(words@.len() as int))
        },
        Instruction::Variable { result_type, result_id, storage, init } => match storage {
            StorageClass::Other(n) => Err(EmitErrorModel::UnsupportedStorage(n)),
            _ => Ok(
                (RecordModel {
                    class: "OpVariable"@,
                    result_id: Some(result_id),
                    operands: seq![
                        OperandModel::TypeRef(result_type),
                        OperandModel::Text(storage_text(storage)),
                    ] + if init != 0 {
                        seq![OperandModel::Id(init)]
                    } else {
                        Seq::empty()
                    },
                }),
            ),
        },
        Instruction::Load { result_type, result_id, source, memory_access } => Ok(
            (RecordModel {
                class: "OpLoad"@,
                result_id: Some(result_id),
                operands: seq![
                    OperandModel::TypeRef(result_type),
                    OperandModel::Id(source),
                    OperandModel::Text(memory_access_text(memory_access)),
                ],
            }),
        ),
        Instruction::Store { target, value, memory_access } => Ok(
            (RecordModel {
                class: "OpStore"@,
                result_id: None,
                operands: seq![
                    OperandModel::Id(target),
                    OperandModel::Id(value),
                    OperandModel::Text(memory_access_text(memory_access)),
                ],
            }),
        ),
        Instruction::CompositeExtract { result_type, result_id, source, indices } => Ok(
            (RecordModel {
                class: "OpCompositeExtract"@,
                result_id: Some(result_id),
                operands: seq![OperandModel::TypeRef(result_type), OperandModel::Id(source)]
                    + lit_ops(indices@),
            }),
        ),
        Instruction::ExtInst { result_type, result_id, set, instruction, operands } => match
            glsl_of_spec(instruction) {
            None => Err(EmitErrorModel::UnknownExtInst(instruction)),
            Some(g) => Ok(
                (RecordModel {
                    class: "OpExtInst"@,
                    result_id: Some(result_id),
                    operands: seq![
                        OperandModel::TypeRef(result_type),
                        OperandModel::Id(set),
                        OperandModel::ExtOp(g),
                    ] + ids_ops(operands@),
                }),
            ),
        },
        Instruction::Function { result_type, result_id, control, function_type } => Ok(
            (RecordModel {
                class: "OpFunction"@,
                result_id: Some(result_id),
                operands: seq![
                    OperandModel::TypeRef(result_type),
                    OperandModel::Text(function_control_text(control)),
                    OperandModel::TypeRef(function_type),
                ],
            }),
        ),
        Instruction::Label { result_id } => Ok(
            (RecordModel {
                class: "OpLabel"@,
                result_id: Some(result_id),
                operands: Seq::empty(),
            }),
        ),
        Instruction::Return => Ok(
            (RecordModel { class: "OpReturn"@, result_id: None, operands: Seq::empty() }),
        ),
        Instruction::FunctionEnd => Ok(
            (RecordModel { class: "OpFunctionEnd"@, result_id: None, operands: Seq::empty() }),
        ),
        Instruction::Other { name, result_id, type_id, new_type, operands } => Ok(
            (RecordModel {
                class: name@,
                result_id: result_id,
                operands: (match type_id {
                    Some(t) => seq![OperandModel::TypeRef(t)],
                    None => Seq::empty(),
                }) + (match new_type {
                    Some(t) => seq![OperandModel::TypeRef(t)],
                    None => Seq::empty(),
                }) + ids_ops(operands@),
            }),
        ),
    }
}

/// What the strict converter yields: as the permissive one, but the
/// catch-all record is refused with an unimplemented-instruction fault
/// naming the mnemonic.
pub open spec fn convert_strict_spec(inst: Instruction) -> Result<RecordModel, EmitErrorModel> {
    match inst {
        Instruction::Other { name, .. } => Err(EmitErrorModel::UnimplementedInstruction(name@)),
        _ => convert_spec(inst),
    }
}

/// Relates an executable conversion result to its model.
pub open spec fn conv_rel(
    r: Result<Record, EmitError>,
    s: Result<RecordModel, EmitErrorModel>,
) -> bool {
    &&& r is Ok <==> s is Ok
    &&& r is Ok ==> (r->Ok_0)@ == s->Ok_0
    &&& r is Err ==> (r->Err_0)@ == s->Err_0
}

pub(crate) fn extend_ids(ops: &mut Vec<Operand>, ids: &Vec<u32>)
    ensures
        ops_model(final(ops)@) == ops_model(old(ops)@) + ids_ops(ids@),
{
    proof {
        assert(ops_model(ops@) =~= ops_model(ops@) + ids_ops(ids@.take(0)));
    }
    let n = ids.len();
    let mut i: usize = 0;
    while i < n
        invariant
            i <= n,
            n == ids@.len(),
            ops_model(ops@) == ops_model(old(ops)@) + ids_ops(ids@.take(i as int)),
        decreases n - i,
    {
        let ghost prev = ops@;
        ops.push(Operand::Id(ids[i]));
        proof {
            let x = Operand::Id(ids@[i as int]);
            assert(ops@ =~= prev.push(x));
            assert(ops_model(prev.push(x)) =~= ops_model(prev).push(x@));
            assert(ids_ops(ids@.take(i as int + 1)) =~= ids_ops(ids@.take(i as int)).push(x@));
            assert(ops_model(ops@) =~= ops_model(old(ops)@) + ids_ops(ids@.take(i as int + 1)));
        }
        i += 1;
    }
    assert(ids@.take(n as int) =~= ids@);
}

fn extend_lit_ints(ops: &mut Vec<Operand>, ids: &Vec<u32>)
    ensures
        ops_model(final(ops)@) == ops_model(old(ops)@) + lit_ops(ids@),
{
    proof {
        assert(ops_model(ops@) =~= ops_model(ops@) + lit_ops(ids@.take(0)));
    }
    let n = ids.len();
    let mut i: usize = 0;
    while i < n
        invariant
            i <= n,
            n == ids@.len(),
            ops_model(ops@) == ops_model(old(ops)@) + lit_ops(ids@.take(i as int)),
        decreases n - i,
    {
        let ghost prev = ops@;
        ops.push(Operand::LitInt(ids[i]));
        proof {
            let x = Operand::LitInt(ids@[i as int]);
            assert(ops@ =~= prev.push(x));
            assert(ops_model(prev.push(x)) =~= ops_model(prev).push(x@));
            assert(lit_ops(ids@.take(i as int + 1)) =~= lit_ops(ids@.take(i as int)).push(x@));
            assert(ops_model(ops@) =~= ops_model(old(ops)@) + lit_ops(ids@.take(i as int + 1)));
        }
        i += 1;
    }
    assert(ids@.take(n as int) =~= ids@);
}

fn storage_token(storage: &StorageClass) -> (r: String)
    requires
        !(storage is Other),
    ensures
        r@ == storage_text(*storage),
{
    match storage {
        StorageClass::Input => String::from_str("Input"),
        StorageClass::Output => String::from_str("Output"),
        StorageClass::Other(..) => String::from_str(""),
    }
}

/// Converts one compiled instruction into its serialized record, falling
/// back to the generic record for the catch-all instruction.
pub fn convert_instruction(inst: &Instruction) -> (r: Result<Record, EmitError>)
    ensures
        conv_rel(r, convert_spec(*inst)),
{
    match inst {
        Instruction::Capability { .. } => {
            let mut ops: Vec<Operand> = Vec::new();
            ops.push(Operand::Text(String::from_str("Shader")));
            let rec = Record {
                class: String::from_str("OpCapability"),
                result_id: None,
                operands: ops,
            };
            proof {
                assert(rec@.operands =~= convert_spec(*inst)->Ok_0.operands);
            }
            Ok(rec)
        },
        Instruction::ExtInstImport { result_id, name } => {
            let mut ops: Vec<Operand> = Vec::new();
            ops.push(Operand::LitString(name.clone()));
            let rec = Record {
                class: String::from_str("OpExtInstImport"),
                result_id: Some(*result_id),
                operands: ops,
            };
            proof {
                assert(rec@.operands =~= convert_spec(*inst)->Ok_0.operands);
            }
            Ok(rec)
        },
        Instruction::MemoryModel { .. } => {
            let mut ops: Vec<Operand> = Vec::new();
            ops.push(Operand::Text(String::from_str("Logical")));
            ops.push(Operand::Text(String::from_str("GLSL450")));
            let rec = Record {
                class: String::from_str("OpMemoryModel"),
                result_id: None,
                operands: ops,
            };
            proof {
                assert(rec@.operands =~= convert_spec(*inst)->Ok_0.operands);
            }
            Ok(rec)
        },
        Instruction::EntryPoint { execution_model, func, name, interface } => {
            let mut ops: Vec<Operand> = Vec::new();
            let model_name = match execution_model {
                crate::instruction::ExecutionModel::Vertex => String::from_str("Vertex"),
                crate::instruction::ExecutionModel::Fragment => String::from_str("Fragment"),
            };
            ops.push(Operand::Text(model_name));
            ops.push(Operand::Id(*func));
            ops.push(Operand::LitString(name.clone()));
            proof {
                assert(ops_model(ops@) =~= seq![
                    OperandModel::Text(execution_model_text(*execution_model)),
                    OperandModel::Id(*func),
                    OperandModel::LitString(name@),
                ]);
            }
            extend_ids(&mut ops, interface);
            let rec = Record {
                class: String::from_str("OpEntryPoint"),
                result_id: None,
                operands: ops,
            };
            Ok(rec)
        },
        Instruction::ExecutionMode { entry, .. } => {
            let mut ops: Vec<Operand> = Vec::new();
            ops.push(Operand::Id(*entry));
            ops.push(Operand::Text(String::from_str("OriginUpperLeft")));
            let rec = Record {
                class: String::from_str("OpExecutionMode"),
                result_id: None,
                operands: ops,
            };
            proof {
                assert(rec@.operands =~= convert_spec(*inst)->Ok_0.operands);
            }
            Ok(rec)
        },
        Instruction::Decorate { target, decoration } => {
            let mut ops: Vec<Operand> = Vec::new();
            ops.push(Operand::Id(*target));
            match decoration {
                Decoration::Location(loc) => {
                    ops.push(Operand::Text(String::from_str("Location")));
                    ops.push(Operand::LitInt(*loc));
                },
                Decoration::Other => {},
            }
            let rec = Record {
                class: String::from_str("OpDecorate"),
                result_id: None,
                operands: ops,
            };
            proof {
                assert(rec@.operands =~= convert_spec(*inst)->Ok_0.operands);
            }
            Ok(rec)
        },
        Instruction::TypeVoid { result_id } => {
            let rec = Record {
                class: String::from_str("OpTypeVoid"),
                result_id: Some(*result_id),
                operands: Vec::new(),
            };
            proof {
                assert(rec@.operands =~= convert_spec(*inst)->Ok_0.operands);
            }
            Ok(rec)
        },
        Instruction::TypeBool { result_id } => {
            let rec = Record {
                class: String::from_str("OpTypeBool"),
                result_id: Some(*result_id),
                operands: Vec::new(),
            };
            proof {
                assert(rec@.operands =~= convert_spec(*inst)->Ok_0.operands);
            }
            Ok(rec)
        },
        Instruction::TypeFunction { result_id, return_type } => {
            let mut ops: Vec<Operand> = Vec::new();
            ops.push(Operand::TypeRef(*return_type));
            let rec = Record {
                class: String::from_str("OpTypeFunction"),
                result_id: Some(*result_id),
                operands: ops,
            };
            proof {
                assert(rec@.operands =~= convert_spec(*inst)->Ok_0.operands);
            }
            Ok(rec)
        },
        Instruction::TypeInt { result_id, width, signed } => {
            let mut ops: Vec<Operand> = Vec::new();
            ops.push(Operand::LitInt(*width));
            ops.push(Operand::LitInt(if *signed { 1 } else { 0 }));
            let rec = Record {
                class: String::from_str("OpTypeInt"),
                result_id: Some(*result_id),
                operands: ops,
            };
            proof {
                assert(rec@.operands =~= convert_spec(*inst)->Ok_0.operands);
            }
            Ok(rec)
        },
        Instruction::TypeFloat { result_id, width } => {
            let mut ops: Vec<Operand> = Vec::new();
            ops.push(Operand::LitInt(*width));
            let rec = Record {
                class: String::from_str("OpTypeFloat"),
                result_id: Some(*result_id),
                operands: ops,
            };
            proof {
                assert(rec@.operands =~= convert_spec(*inst)->Ok_0.operands);
            }
            Ok(rec)
        },
        Instruction::TypeVector { result_id, component, count } => {
            let mut ops: Vec<Operand> = Vec::new();
            ops.push(Operand::TypeRef(*component));
            ops.push(Operand::LitInt(*count));
            let rec = Record {
                class: String::from_str("OpTypeVector"),
                result_id: Some(*result_id),
                operands: ops,
            };
            proof {
                assert(rec@.operands =~= convert_spec(*inst)->Ok_0.operands);
            }
            Ok(rec)
        },
        Instruction::TypeMatrix { result_id, column, count } => {
            let mut ops: Vec<Operand> = Vec::new();
            ops.push(Operand::TypeRef(*column));
            ops.push(Operand::LitInt(*count));
            let rec = Record {
                class: String::from_str("OpTypeMatrix"),
                result_id: Some(*result_id),
                operands: ops,
            };
            proof {
                assert(rec@.operands =~= convert_spec(*inst)->Ok_0.operands);
            }
            Ok(rec)
        },
        Instruction::TypePointer { result_id, storage, pointee } => {
            if let StorageClass::Other(n) = storage {
                return Err(EmitError::UnsupportedStorage(*n));
            }
            let mut ops: Vec<Operand> = Vec::new();
            ops.push(Operand::Text(storage_token(storage)));
            ops.push(Operand::TypeRef(*pointee));
            let rec = Record {
                class: String::from_str("OpTypePointer"),
                result_id: Some(*result_id),
                operands: ops,
            };
            proof {
                assert(rec@.operands =~= convert_spec(*inst)->Ok_0.operands);
            }
            Ok(rec)
        },
        Instruction::Constant { result_type, result_id, words } => {
            let mut ops: Vec<Operand> = Vec::new();
            ops.push(Operand::TypeRef(*result_type));
            if words.len() == 1 {
                ops.push(Operand::LitFloat(words[0]));
            } else if words.len() == 2 {
                let lo = words[0] as u64;
                let hi = words[1] as u64;
                ops.push(Operand::LitDouble(lo + hi * 0x1_0000_0000));
            } else {
                return Err(EmitError::ConstantSize(words.len()));
            }
            let rec = Record {
                class: String::from_str("OpConstant"),
                result_id: Some(*result_id),
                operands: ops,
            };
            proof {
                assert(rec@.operands =~= convert_spec(*inst)->Ok_0.operands);
            }
            Ok(rec)
        },
        Instruction::Variable { result_type, result_id, storage, init } => {
            if let StorageClass::Other(n) = storage {
                return Err(EmitError::UnsupportedStorage(*n));
            }
            let mut ops: Vec<Operand> = Vec::new();
            ops.push(Operand::TypeRef(*result_type));
            ops.push(Operand::Text(storage_token(storage)));
            if *init != 0 {
                ops.push(Operand::Id(*init));
            }
            let rec = Record {
                class: String::from_str("OpVariable"),
                result_id: Some(*result_id),
                operands: ops,
            };
            proof {
                assert(rec@.operands =~= convert_spec(*inst)->Ok_0.operands);
            }
            Ok(rec)
        },
        Instruction::Load { result_type, result_id, source, memory_access } => {
            let mut ops: Vec<Operand> = Vec::new();
            ops.push(Operand::TypeRef(*result_type));
            ops.push(Operand::Id(*source));
            ops.push(Operand::Text(flag_set_string(false, *memory_access)));
            let rec = Record {
                class: String::from_str("OpLoad"),
                result_id: Some(*result_id),
                operands: ops,
            };
            proof {
                assert(rec@.operands =~= convert_spec(*inst)->Ok_0.operands);
            }
            Ok(rec)
        },
        Instruction::Store { target, value, memory_access } => {
            let mut ops: Vec<Operand> = Vec::new();
            ops.push(Operand::Id(*target));
            ops.push(Operand::Id(*value));
            ops.push(Operand::Text(flag_set_string(false, *memory_access)));
            let rec = Record {
                class: String::from_str("OpStore"),
                result_id: None,
                operands: ops,
            };
            proof {
                assert(rec@.operands =~= convert_spec(*inst)->Ok_0.operands);
            }
            Ok(rec)
        },
        Instruction::CompositeExtract { result_type, result_id, source, indices } => {
            let mut ops: Vec<Operand> = Vec::new();
            ops.push(Operand::TypeRef(*result_type));
            ops.push(Operand::Id(*source));
            proof {
                assert(ops_model(ops@) =~= seq![
                    OperandModel::TypeRef(*result_type),
                    OperandModel::Id(*source),
                ]);
            }
            extend_lit_ints(&mut ops, indices);
            let rec = Record {
                class: String::from_str("OpCompositeExtract"),
                result_id: Some(*result_id),
                operands: ops,
            };
            Ok(rec)
        },
        Instruction::ExtInst { result_type, result_id, set, instruction, operands } => {
            let g = match glsl_of(*instruction) {
                Some(g) => g,
                None => {
                    return Err(EmitError::UnknownExtInst(*instruction));
                },
            };
            let mut ops: Vec<Operand> = Vec::new();
            ops.push(Operand::TypeRef(*result_type));
            ops.push(Operand::Id(*set));
            ops.push(Operand::ExtOp(g));
            proof {
                assert(ops_model(ops@) =~= seq![
                    OperandModel::TypeRef(*result_type),
                    OperandModel::Id(*set),
                    OperandModel::ExtOp(g),
                ]);
            }
            extend_ids(&mut ops, operands);
            let rec = Record {
                class: String::from_str("OpExtInst"),
                result_id: Some(*result_id),
                operands: ops,
            };
            Ok(rec)
        },
        Instruction::Function { result_type, result_id, control, function_type } => {
            let mut ops: Vec<Operand> = Vec::new();
            ops.push(Operand::TypeRef(*result_type));
            ops.push(Operand::Text(flag_set_string(true, *control)));
            ops.push(Operand::TypeRef(*function_type));
            let rec = Record {
                class: String::from_str("OpFunction"),
                result_id: Some(*result_id),
                operands: ops,
            };
            proof {
                assert(rec@.operands =~= convert_spec(*inst)->Ok_0.operands);
            }
            Ok(rec)
        },
        Instruction::Label { result_id } => {
            let rec = Record {
                class: String::from_str("OpLabel"),
                result_id: Some(*result_id),
                operands: Vec::new(),
            };
            proof {
                assert(rec@.operands =~= convert_spec(*inst)->Ok_0.operands);
            }
            Ok(rec)
        },
        Instruction::Return => {
            let rec = Record {
                class: String::from_str("OpReturn"),
                result_id: None,
                operands: Vec::new(),
            };
            proof {
                assert(rec@.operands =~= convert_spec(*inst)->Ok_0.operands);
            }
            Ok(rec)
        },
        Instruction::FunctionEnd => {
            let rec = Record {
                class: String::from_str("OpFunctionEnd"),
                result_id: None,
                operands: Vec::new(),
            };
            proof {
                assert(rec@.operands =~= convert_spec(*inst)->Ok_0.operands);
            }
            Ok(rec)
        },
        Instruction::Other { name, result_id, type_id, new_type, operands } => {
            let mut ops: Vec<Operand> = Vec::new();
            if let Some(t) = type_id {
                ops.push(Operand::TypeRef(*t));
            }
            if let Some(t) = new_type {
                ops.push(Operand::TypeRef(*t));
            }
            proof {
                assert(ops_model(ops@) =~= (match *type_id {
                    Some(t) => seq![OperandModel::TypeRef(t)],
                    None => Seq::<OperandModel>::empty(),
                }) + (match *new_type {
                    Some(t) => seq![OperandModel::TypeRef(t)],
                    None => Seq::<OperandModel>::empty(),
                }));
            }
            extend_ids(&mut ops, operands);
            let rec = Record { class: name.clone(), result_id: *result_id, operands: ops };
            Ok(rec)
        },
    }
}

/// Converts one compiled instruction for the formatter that must not guess:
/// as [`convert_instruction`], but the catch-all instruction is refused with
/// an unimplemented-instruction fault naming its mnemonic.
pub fn convert_instruction_strict(inst: &Instruction) -> (r: Result<Record, EmitError>)
    ensures
        conv_rel(r, convert_strict_spec(*inst)),
{
    match inst {
        Instruction::Other { name, .. } => Err(EmitError::UnimplementedInstruction(name.clone())),
        _ => convert_instruction(inst),
    }
}

} // verus!
