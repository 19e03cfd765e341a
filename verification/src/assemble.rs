//! The module assembler: drives the instruction converter over the whole
//! compiled stream and synthesizes the surrounding framing — capability,
//! imports, memory model, entry point, execution mode, and the single
//! function holding the body — with the module's fixed well-known ids.

use vstd::prelude::*;
use vstd::string::*;

use crate::convert::{
    conv_rel, convert_instruction, convert_instruction_strict, convert_spec, convert_strict_spec,
    extend_ids, flag_set_string, function_control_text, ids_ops, ops_model, EmitError,
    EmitErrorModel, Operand, OperandModel, Record, RecordModel,
};
use crate::fmt::{chars_to_string, dec_of, push_chars, push_dec_u32};
use crate::instruction::{Instruction, ShaderType};

verus! {

/// The id of the void type every module declares.
pub const VOID_TYPE_ID: u32 = 1;

/// The id of the void function type every module declares.
pub const FUNCTION_TYPE_ID: u32 = 2;

/// The id of the single basic block's label.
pub const BLOCK_LABEL_ID: u32 = 3;

/// The id of the single entry-point function.
pub const ENTRY_POINT_ID: u32 = 4;

/// A compiled module as the graph compiler hands it back: the id bound, the
/// extended-instruction import table, the interface (input/output) ids, and
/// the flat instruction lists — annotations, global declarations, and the
/// function body — plus the stage the caller asked for.
#[derive(Debug)]
pub struct CompiledModule {
    /// The stage the module is framed for.
    pub stage: ShaderType,
    /// One past the highest id used anywhere in the module.
    pub bound: u32,
    /// The import table: one (set id, set name) pair per instruction set.
    pub imports: Vec<(u32, String)>,
    /// The ids of the interface variables, inputs first.
    pub interface: Vec<u32>,
    /// The annotation (decoration) instructions.
    pub annotations: Vec<Instruction>,
    /// The global type, constant and variable declarations.
    pub declarations: Vec<Instruction>,
    /// The instructions of the function body.
    pub body: Vec<Instruction>,
}

/// The models of a list of records.
pub open spec fn recs_model(rs: Seq<Record>) -> Seq<RecordModel> {
    rs.map_values(|r: Record| r@)
}

/// Appends one record, at the model level.
pub(crate) fn push_record(recs: &mut Vec<Record>, rec: Record)
    ensures
        recs_model(final(recs)@) == recs_model(old(recs)@).push(rec@),
{
    let ghost prev = recs@;
    let ghost m = rec@;
    recs.push(rec);
    proof {
        assert(recs_model(recs@) =~= recs_model(prev).push(m));
    }
}

// ---------------------------------------------------------------------------
// The synthesized framing, as record models
// ---------------------------------------------------------------------------

/// The single capability declaration.
pub open spec fn capability_record() -> RecordModel {
    RecordModel {
        class: "OpCapability"@,
        result_id: None,
        operands: seq![OperandModel::Text("Shader"@)],
    }
}

/// The fixed addressing and memory model.
pub open spec fn memory_model_record() -> RecordModel {
    RecordModel {
        class: "OpMemoryModel"@,
        result_id: None,
        operands: seq![OperandModel::Text("Logical"@), OperandModel::Text("GLSL450"@)],
    }
}

/// The import table, one record per instruction set.
pub open spec fn import_records_spec(imports: Seq<(u32, String)>) -> Seq<RecordModel> {
    imports.map_values(
        |p: (u32, String)|
            RecordModel {
                class: "OpExtInstImport"@,
                result_id: Some(p.0),
                operands: seq![OperandModel::LitString(p.1@)],
            },
    )
}

/// The single entry point: the stage's execution model, the fixed function
/// id, the name `main`, and the interface ids.
pub open spec fn entry_point_record(stage: ShaderType, interface: Seq<u32>) -> RecordModel {
    RecordModel {
        class: "OpEntryPoint"@,
        result_id: None,
        operands: seq![
            OperandModel::Text(
                if stage is Vertex {
                    "Vertex"@
                } else {
                    "Fragment"@
                },
            ),
            OperandModel::Id(ENTRY_POINT_ID),
            OperandModel::LitString("main"@),
        ] + ids_ops(interface),
    }
}

/// The single execution mode, emitted for fragment modules.
pub open spec fn execution_mode_record() -> RecordModel {
    RecordModel {
        class: "OpExecutionMode"@,
        result_id: None,
        operands: seq![
            OperandModel::Id(ENTRY_POINT_ID),
            OperandModel::Text("OriginUpperLeft"@),
        ],
    }
}

/// The opening of the single void function.
pub open spec fn function_record() -> RecordModel {
    RecordModel {
        class: "OpFunction"@,
        result_id: Some(ENTRY_POINT_ID),
        operands: seq![
            OperandModel::TypeRef(VOID_TYPE_ID),
            OperandModel::Text(function_control_text(0)),
            OperandModel::TypeRef(FUNCTION_TYPE_ID),
        ],
    }
}

/// The label of the single basic block.
pub open spec fn label_record() -> RecordModel {
    RecordModel {
        class: "OpLabel"@,
        result_id: Some(BLOCK_LABEL_ID),
        operands: Seq::empty(),
    }
}

/// The synthesized return closing the basic block.
pub open spec fn return_record() -> RecordModel {
    RecordModel { class: "OpReturn"@, result_id: None, operands: Seq::empty() }
}

/// The function-end marker.
pub open spec fn function_end_record() -> RecordModel {
    RecordModel { class: "OpFunctionEnd"@, result_id: None, operands: Seq::empty() }
}

// ---------------------------------------------------------------------------
// Converting whole streams
// ---------------------------------------------------------------------------

/// Converting one instruction, under either policy.
pub open spec fn conv_either_spec(inst: Instruction, strict: bool) -> Result<
    RecordModel,
    EmitErrorModel,
> {
    if strict {
        convert_strict_spec(inst)
    } else {
        convert_spec(inst)
    }
}

/// Converting a stream of instructions in order; the first fault wins.
pub open spec fn conv_all_spec(insts: Seq<Instruction>, strict: bool) -> Result<
    Seq<RecordModel>,
    EmitErrorModel,
>
    decreases insts.len(),
{
    if insts.len() == 0 {
        Ok(Seq::empty())
    } else {
        match conv_all_spec(insts.drop_last(), strict) {
            Err(e) => Err(e),
            Ok(rs) => match conv_either_spec(insts.last(), strict) {
                Err(e) => Err(e),
                Ok(r) => Ok(rs.push(r)),
            },
        }
    }
}

proof fn lemma_conv_all_snoc(insts: Seq<Instruction>, strict: bool, i: int)
    requires
        0 <= i < insts.len(),
    ensures
        conv_all_spec(insts.take(i + 1), strict) == (match conv_all_spec(insts.take(i), strict) {
            Err(e) => Err(e),
            Ok(rs) => match conv_either_spec(insts[i], strict) {
                Err(e) => Err(e),
                Ok(r) => Ok(rs.push(r)),
            },
        }),
{
    assert(insts.take(i + 1).drop_last() =~= insts.take(i));
    assert(insts.take(i + 1).last() == insts[i]);
}

proof fn lemma_conv_all_error(insts: Seq<Instruction>, strict: bool, i: int)
    requires
        0 <= i < insts.len(),
        conv_all_spec(insts.take(i), strict) is Ok,
        conv_either_spec(insts[i], strict) is Err,
    ensures
        conv_all_spec(insts, strict) == Err::<Seq<RecordModel>, EmitErrorModel>(
            conv_either_spec(insts[i], strict)->Err_0,
        ),
    decreases insts.len(),
{
    if insts.len() == i + 1 {
        assert(insts.take(i + 1) =~= insts);
        lemma_conv_all_snoc(insts, strict, i);
    } else {
        assert(insts.drop_last().take(i) =~= insts.take(i));
        assert(insts.drop_last()[i] == insts[i]);
        lemma_conv_all_error(insts.drop_last(), strict, i);
    }
}

fn convert_either(inst: &Instruction, strict: bool) -> (r: Result<Record, EmitError>)
    ensures
        conv_rel(r, conv_either_spec(*inst, strict)),
{
    if strict {
        convert_instruction_strict(inst)
    } else {
        convert_instruction(inst)
    }
}

/// Converts a whole stream, appending the records.
#[verifier::loop_isolation(false)]
fn conv_append(recs: &mut Vec<Record>, insts: &Vec<Instruction>, strict: bool) -> (r: Result<
    (),
    EmitError,
>)
    ensures
        r is Ok ==> conv_all_spec(insts@, strict) is Ok && recs_model(final(recs)@) == recs_model(
            old(recs)@,
        ) + conv_all_spec(insts@, strict)->Ok_0,
        r is Err ==> conv_all_spec(insts@, strict) is Err && (r->Err_0)@ == conv_all_spec(
            insts@,
            strict,
        )->Err_0,
{
    proof {
        assert(insts@.take(0) =~= Seq::<Instruction>::empty());
        assert(recs_model(recs@) =~= recs_model(recs@) + Seq::<RecordModel>::empty());
    }
    let n = insts.len();
    let mut i: usize = 0;
    while i < n
        invariant
            i <= n,
            conv_all_spec(insts@.take(i as int), strict) is Ok,
            recs_model(recs@) == recs_model(old(recs)@) + conv_all_spec(
                insts@.take(i as int),
                strict,
            )->Ok_0,
        decreases n - i,
    {
        proof {
            lemma_conv_all_snoc(insts@, strict, i as int);
        }
        match convert_either(&insts[i], strict) {
            Ok(rec) => {
                push_record(recs, rec);
                proof {
                    assert(recs_model(recs@) =~= recs_model(old(recs)@) + conv_all_spec(
                        insts@.take(i as int + 1),
                        strict,
                    )->Ok_0);
                }
            },
            Err(e) => {
                proof {
                    lemma_conv_all_error(insts@, strict, i as int);
                }
                return Err(e);
            },
        }
        i += 1;
    }
    proof {
        assert(insts@.take(n as int) =~= insts@);
    }
    Ok(())
}

// ---------------------------------------------------------------------------
// The assembled record stream
// ---------------------------------------------------------------------------

/// What assembling a module yields: the synthesized framing around the
/// converted annotation, declaration and body streams, under the chosen
/// conversion policy — or the first fault. Only the vertex and fragment
/// stages are framed; any other stage fails, and the fixed origin-upper-left
/// execution mode is emitted for fragment modules alone.
pub open spec fn module_records_spec(m: CompiledModule, strict: bool) -> Result<
    Seq<RecordModel>,
    EmitErrorModel,
> {
    if !(m.stage is Vertex || m.stage is Fragment) {
        Err(EmitErrorModel::UnsupportedStage(m.stage))
    } else {
        match conv_all_spec(m.annotations@, strict) {
            Err(e) => Err(e),
            Ok(annos) => match conv_all_spec(m.declarations@, strict) {
                Err(e) => Err(e),
                Ok(decls) => match conv_all_spec(m.body@, strict) {
                    Err(e) => Err(e),
                    Ok(body) => Ok(
                        seq![capability_record()] + import_records_spec(m.imports@) + seq![
                            memory_model_record(),
                            entry_point_record(m.stage, m.interface@),
                        ] + (if m.stage is Fragment {
                            seq![execution_mode_record()]
                        } else {
                            Seq::empty()
                        }) + annos + decls + seq![function_record(), label_record()] + body + seq![
                            return_record(),
                            function_end_record(),
                        ],
                    ),
                },
            },
        }
    }
}

fn copy_ids(src: &Vec<u32>) -> (r: Vec<u32>)
    ensures
        r@ == src@,
{
    let mut r: Vec<u32> = Vec::new();
    let n = src.len();
    let mut i: usize = 0;
    while i < n
        invariant
            i <= n,
            n == src@.len(),
            r@ == src@.take(i as int),
        decreases n - i,
    {
        r.push(src[i]);
        assert(r@ =~= src@.take(i as int + 1));
        i += 1;
    }
    assert(src@.take(n as int) =~= src@);
    r
}

/// Assembles the full record stream of a module under the chosen policy.
#[verifier::loop_isolation(false)]
pub fn module_records(m: &CompiledModule, strict: bool) -> (r: Result<Vec<Record>, EmitError>)
    ensures
        (match module_records_spec(*m, strict) {
            Ok(rs) => r is Ok && recs_model((r->Ok_0)@) == rs,
            Err(e) => r is Err && (r->Err_0)@ == e,
        }),
{
    match m.stage {
        ShaderType::Vertex => {},
        ShaderType::Fragment => {},
        _ => {
            return Err(EmitError::UnsupportedStage(m.stage));
        },
    }
    let mut recs: Vec<Record> = Vec::new();

    // OpCapability Shader
    let mut ops: Vec<Operand> = Vec::new();
    ops.push(Operand::Text(String::from_str("Shader")));
    proof {
        assert(ops_model(ops@) =~= seq![OperandModel::Text("Shader"@)]);
    }
    push_record(
        &mut recs,
        Record { class: String::from_str("OpCapability"), result_id: None, operands: ops },
    );
    proof {
        assert(recs_model(recs@) =~= seq![capability_record()]);
    }

    // The import table
    let ghost prefix1 = seq![capability_record()];
    let n = m.imports.len();
    let mut i: usize = 0;
    while i < n
        invariant
            i <= n,
            recs_model(recs@) == prefix1 + import_records_spec(m.imports@.take(i as int)),
        decreases n - i,
    {
        let set_id = m.imports[i].0;
        let set_name = m.imports[i].1.clone();
        let mut ops: Vec<Operand> = Vec::new();
        ops.push(Operand::LitString(set_name));
        proof {
            assert(ops_model(ops@) =~= seq![OperandModel::LitString(m.imports@[i as int].1@)]);
        }
        push_record(
            &mut recs,
            Record {
                class: String::from_str("OpExtInstImport"),
                result_id: Some(set_id),
                operands: ops,
            },
        );
        proof {
            assert(import_records_spec(m.imports@.take(i as int + 1)) =~= import_records_spec(
                m.imports@.take(i as int),
            ).push(recs_model(recs@).last()));
            assert(recs_model(recs@) =~= prefix1 + import_records_spec(
                m.imports@.take(i as int + 1),
            ));
        }
        i += 1;
    }
    proof {
        assert(m.imports@.take(n as int) =~= m.imports@);
    }
    let ghost prefix2 = prefix1 + import_records_spec(m.imports@);

    // OpMemoryModel Logical GLSL450
    let mut ops: Vec<Operand> = Vec::new();
    ops.push(Operand::Text(String::from_str("Logical")));
    ops.push(Operand::Text(String::from_str("GLSL450")));
    proof {
        assert(ops_model(ops@) =~= seq![
            OperandModel::Text("Logical"@),
            OperandModel::Text("GLSL450"@),
        ]);
    }
    push_record(
        &mut recs,
        Record { class: String::from_str("OpMemoryModel"), result_id: None, operands: ops },
    );

    // OpEntryPoint <model> %entry "main" <interface>
    let mut ops: Vec<Operand> = Vec::new();
    let stage_token = match m.stage {
        ShaderType::Vertex => String::from_str("Vertex"),
        _ => String::from_str("Fragment"),
    };
    ops.push(Operand::Text(stage_token));
    ops.push(Operand::Id(ENTRY_POINT_ID));
    ops.push(Operand::LitString(String::from_str("main")));
    proof {
        assert(ops_model(ops@) =~= seq![
            OperandModel::Text(
                if m.stage is Vertex {
                    "Vertex"@
                } else {
                    "Fragment"@
                },
            ),
            OperandModel::Id(ENTRY_POINT_ID),
            OperandModel::LitString("main"@),
        ]);
    }
    extend_ids(&mut ops, &m.interface);
    push_record(
        &mut recs,
        Record { class: String::from_str("OpEntryPoint"), result_id: None, operands: ops },
    );
    proof {
        assert(recs_model(recs@) =~= prefix2 + seq![
            memory_model_record(),
            entry_point_record(m.stage, m.interface@),
        ]);
    }
    let ghost prefix3 = prefix2 + seq![
        memory_model_record(),
        entry_point_record(m.stage, m.interface@),
    ];

    // OpExecutionMode %entry OriginUpperLeft, for fragment modules
    let fragment = match m.stage {
        ShaderType::Fragment => true,
        _ => false,
    };
    if fragment {
        let mut ops: Vec<Operand> = Vec::new();
        ops.push(Operand::Id(ENTRY_POINT_ID));
        ops.push(Operand::Text(String::from_str("OriginUpperLeft")));
        proof {
            assert(ops_model(ops@) =~= seq![
                OperandModel::Id(ENTRY_POINT_ID),
                OperandModel::Text("OriginUpperLeft"@),
            ]);
        }
        push_record(
            &mut recs,
            Record { class: String::from_str("OpExecutionMode"), result_id: None, operands: ops },
        );
    }
    proof {
        assert(recs_model(recs@) =~= prefix3 + (if m.stage is Fragment {
            seq![execution_mode_record()]
        } else {
            Seq::<RecordModel>::empty()
        }));
    }
    let ghost prefix4 = prefix3 + (if m.stage is Fragment {
        seq![execution_mode_record()]
    } else {
        Seq::<RecordModel>::empty()
    });

    // The converted streams
    match conv_append(&mut recs, &m.annotations, strict) {
        Ok(_) => {},
        Err(e) => {
            return Err(e);
        },
    }
    match conv_append(&mut recs, &m.declarations, strict) {
        Ok(_) => {},
        Err(e) => {
            return Err(e);
        },
    }
    let ghost prefix5 = prefix4 + conv_all_spec(m.annotations@, strict)->Ok_0 + conv_all_spec(
        m.declarations@,
        strict,
    )->Ok_0;

    // OpFunction framing
    let mut ops: Vec<Operand> = Vec::new();
    ops.push(Operand::TypeRef(VOID_TYPE_ID));
    ops.push(Operand::Text(flag_set_string(true, 0)));
    ops.push(Operand::TypeRef(FUNCTION_TYPE_ID));
    proof {
        assert(ops_model(ops@) =~= seq![
            OperandModel::TypeRef(VOID_TYPE_ID),
            OperandModel::Text(function_control_text(0)),
            OperandModel::TypeRef(FUNCTION_TYPE_ID),
        ]);
    }
    push_record(
        &mut recs,
        Record {
            class: String::from_str("OpFunction"),
            result_id: Some(ENTRY_POINT_ID),
            operands: ops,
        },
    );
    let label_ops: Vec<Operand> = Vec::new();
    proof {
        assert(ops_model(label_ops@) =~= Seq::<OperandModel>::empty());
    }
    push_record(
        &mut recs,
        Record {
            class: String::from_str("OpLabel"),
            result_id: Some(BLOCK_LABEL_ID),
            operands: label_ops,
        },
    );
    proof {
        assert(recs_model(recs@) =~= prefix5 + seq![function_record(), label_record()]);
    }

    match conv_append(&mut recs, &m.body, strict) {
        Ok(_) => {},
        Err(e) => {
            return Err(e);
        },
    }

    let return_ops: Vec<Operand> = Vec::new();
    proof {
        assert(ops_model(return_ops@) =~= Seq::<OperandModel>::empty());
    }
    push_record(
        &mut recs,
        Record { class: String::from_str("OpReturn"), result_id: None, operands: return_ops },
    );
    let end_ops: Vec<Operand> = Vec::new();
    proof {
        assert(ops_model(end_ops@) =~= Seq::<OperandModel>::empty());
    }
    push_record(
        &mut recs,
        Record { class: String::from_str("OpFunctionEnd"), result_id: None, operands: end_ops },
    );
    proof {
        assert(recs_model(recs@) =~= module_records_spec(*m, strict)->Ok_0);
    }
    Ok(recs)
}

/// The five synthetic metadata records the structured dump and the
/// disassembly lead with: format name, version, generator identity, the id
/// bound restated as text, and the schema number.
pub open spec fn meta_records_spec(bound: u32) -> Seq<RecordModel> {
    seq![
        RecordModel {
            class: ";"@,
            result_id: None,
            operands: seq![OperandModel::Text("SPIR-V"@)],
        },
        RecordModel {
            class: ";"@,
            result_id: None,
            operands: seq![OperandModel::Text("Version: 1.0"@)],
        },
        RecordModel {
            class: ";"@,
            result_id: None,
            operands: seq![OperandModel::Text("Generator: Rasen; 1"@)],
        },
        RecordModel {
            class: ";"@,
            result_id: None,
            operands: seq![OperandModel::Text("Bound: "@ + dec_of(bound as nat))],
        },
        RecordModel {
            class: ";"@,
            result_id: None,
            operands: seq![OperandModel::Text("Schema: 0"@)],
        },
    ]
}

fn comment_record(text: String) -> (r: Record)
    ensures
        r@ == (RecordModel {
            class: ";"@,
            result_id: None,
            operands: seq![OperandModel::Text(text@)],
        }),
{
    let ghost t = text@;
    let mut ops: Vec<Operand> = Vec::new();
    ops.push(Operand::Text(text));
    proof {
        assert(ops_model(ops@) =~= seq![OperandModel::Text(t)]);
    }
    let r = Record { class: String::from_str(";"), result_id: None, operands: ops };
    r
}

/// Builds the five metadata records.
pub fn meta_records(bound: u32) -> (r: Vec<Record>)
    ensures
        recs_model(r@) == meta_records_spec(bound),
{
    let mut recs: Vec<Record> = Vec::new();
    push_record(&mut recs, comment_record(String::from_str("SPIR-V")));
    push_record(&mut recs, comment_record(String::from_str("Version: 1.0")));
    push_record(&mut recs, comment_record(String::from_str("Generator: Rasen; 1")));
    let mut bound_text: Vec<char> = Vec::new();
    push_chars(&mut bound_text, "Bound: ");
    push_dec_u32(&mut bound_text, bound);
    push_record(&mut recs, comment_record(chars_to_string(&bound_text)));
    push_record(&mut recs, comment_record(String::from_str("Schema: 0")));
    proof {
        assert(recs_model(recs@) =~= meta_records_spec(bound));
    }
    recs
}

} // verus!
