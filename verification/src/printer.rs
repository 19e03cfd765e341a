//! The output formatters.
//!
//! The structured dump renders the assembled record stream as one JSON
//! object, under the permissive conversion policy (unclassified instructions
//! keep their generic record). The disassembly renders the same stream as
//! plain text, one instruction per line, under the strict policy
//! (unclassified instructions fail). The byte-buffer framing wraps either
//! formatter's output — or an error message — behind an 8-byte little-endian
//! length prefix.
//!
//! Float and double literals render in the dump as decimal JSON numbers:
//! the exact decimal expansion of the bit pattern (`1.5`, or the full
//! 55-digit expansion of the double nearest one tenth), computed with
//! integer arithmetic alone. The expansion denotes precisely the stored
//! value, so it parses back to the identical bits; it is exact rather than
//! shortest, which a consumer re-serializing the dump may notice as longer
//! digit strings. The disassembly renders the same literals in
//! hexadecimal-significand notation, which is exact and compact.

use vstd::prelude::*;
use vstd::string::*;

use crate::assemble::{meta_records, meta_records_spec, module_records, module_records_spec, recs_model, CompiledModule};
use crate::convert::{emit_message_spec, Operand, OperandModel, Record, RecordModel};
use crate::errors::quoted_spec;
use crate::decimal::{dec_f32_text, dec_f64_text, push_dec_f32, push_dec_f64};
use crate::fmt::{
    chars_to_string, dec_of, hexfloat32, hexfloat64, push_chars, push_dec_u32, push_hexfloat32,
    push_hexfloat64, push_json_escaped,
};
use crate::instruction::{glsl_name_spec, GlslOp};

verus! {

// ---------------------------------------------------------------------------
// The structured JSON dump
// ---------------------------------------------------------------------------

/// One operand as a JSON object: its kind tag and its value. Floating-point
/// literals render as JSON numbers: the exact decimal expansion of the
/// stored value (`null` for the non-finite patterns, as JSON numbers cannot
/// carry those).
pub open spec fn operand_json(op: OperandModel) -> Seq<char> {
    match op {
        OperandModel::Text(s) => "{\"operand\":\"Text\",\"value\":"@ + quoted_spec(s) + "}"@,
        OperandModel::Id(n) => "{\"operand\":\"Id\",\"value\":"@ + dec_of(n as nat) + "}"@,
        OperandModel::TypeRef(n) => "{\"operand\":\"Type\",\"value\":"@ + dec_of(n as nat) + "}"@,
        OperandModel::LitString(s) => "{\"operand\":\"String\",\"value\":"@ + quoted_spec(s)
            + "}"@,
        OperandModel::LitInt(n) => "{\"operand\":\"Int\",\"value\":"@ + dec_of(n as nat) + "}"@,
        OperandModel::LitFloat(b) => "{\"operand\":\"Float\",\"value\":"@ + dec_f32_text(b)
            + "}"@,
        OperandModel::LitDouble(b) => "{\"operand\":\"Double\",\"value\":"@ + dec_f64_text(b)
            + "}"@,
        OperandModel::ExtOp(g) => "{\"operand\":\"ExtInst\",\"value\":\""@ + glsl_name_spec(g)
            + "\"}"@,
    }
}

/// A comma-separated operand list.
pub open spec fn operands_json_list(ops: Seq<OperandModel>) -> Seq<char>
    decreases ops.len(),
{
    if ops.len() == 0 {
        Seq::empty()
    } else if ops.len() == 1 {
        operand_json(ops.last())
    } else {
        operands_json_list(ops.drop_last()) + ","@ + operand_json(ops.last())
    }
}

/// One record as a JSON object: the class, the result id where one exists,
/// and the operand array.
pub open spec fn record_json(r: RecordModel) -> Seq<char> {
    "{\"class\":"@ + quoted_spec(r.class) + (match r.result_id {
        Some(n) => ",\"result_id\":"@ + dec_of(n as nat),
        None => Seq::empty(),
    }) + ",\"operands\":["@ + operands_json_list(r.operands) + "]}"@
}

/// A comma-separated record list.
pub open spec fn records_json_list(rs: Seq<RecordModel>) -> Seq<char>
    decreases rs.len(),
{
    if rs.len() == 0 {
        Seq::empty()
    } else if rs.len() == 1 {
        record_json(rs.last())
    } else {
        records_json_list(rs.drop_last()) + ","@ + record_json(rs.last())
    }
}

/// The whole dump: the id bound and the instruction records.
pub open spec fn dump_text_spec(bound: u32, rs: Seq<RecordModel>) -> Seq<char> {
    "{\"bound\":"@ + dec_of(bound as nat) + ",\"instructions\":["@ + records_json_list(rs)
        + "]}"@
}

/// What the structured dump yields: the metadata records and the assembled
/// stream under the permissive policy, as JSON text — or the fault's message.
pub open spec fn module_printer_spec(m: CompiledModule) -> Result<Seq<char>, Seq<char>> {
    match module_records_spec(m, false) {
        Err(e) => Err(emit_message_spec(e)),
        Ok(rs) => Ok(dump_text_spec(m.bound, meta_records_spec(m.bound) + rs)),
    }
}

fn push_glsl_name(out: &mut Vec<char>, g: &GlslOp)
    ensures
        final(out)@ == old(out)@ + glsl_name_spec(*g),
{
    match g {
        GlslOp::Round => push_chars(out, "Round"),
        GlslOp::Floor => push_chars(out, "Floor"),
        GlslOp::Ceil => push_chars(out, "Ceil"),
        GlslOp::Sin => push_chars(out, "Sin"),
        GlslOp::Cos => push_chars(out, "Cos"),
        GlslOp::Tan => push_chars(out, "Tan"),
        GlslOp::Pow => push_chars(out, "Pow"),
        GlslOp::FMin => push_chars(out, "FMin"),
        GlslOp::FMax => push_chars(out, "FMax"),
        GlslOp::FClamp => push_chars(out, "FClamp"),
        GlslOp::Length => push_chars(out, "Length"),
        GlslOp::Distance => push_chars(out, "Distance"),
        GlslOp::Cross => push_chars(out, "Cross"),
        GlslOp::Normalize => push_chars(out, "Normalize"),
        GlslOp::Reflect => push_chars(out, "Reflect"),
        GlslOp::Refract => push_chars(out, "Refract"),
    }
}

fn push_quoted_str(out: &mut Vec<char>, s: &str)
    ensures
        final(out)@ == old(out)@ + quoted_spec(s@),
{
    out.push('"');
    push_json_escaped(out, s);
    out.push('"');
    assert(final(out)@ =~= old(out)@ + quoted_spec(s@));
}

fn push_operand_json(out: &mut Vec<char>, op: &Operand)
    ensures
        final(out)@ == old(out)@ + operand_json(op@),
{
    match op {
        Operand::Text(s) => {
            push_chars(out, "{\"operand\":\"Text\",\"value\":");
            push_quoted_str(out, s.as_str());
            push_chars(out, "}");
        },
        Operand::Id(n) => {
            push_chars(out, "{\"operand\":\"Id\",\"value\":");
            push_dec_u32(out, *n);
            push_chars(out, "}");
        },
        Operand::TypeRef(n) => {
            push_chars(out, "{\"operand\":\"Type\",\"value\":");
            push_dec_u32(out, *n);
            push_chars(out, "}");
        },
        Operand::LitString(s) => {
            push_chars(out, "{\"operand\":\"String\",\"value\":");
            push_quoted_str(out, s.as_str());
            push_chars(out, "}");
        },
        Operand::LitInt(n) => {
            push_chars(out, "{\"operand\":\"Int\",\"value\":");
            push_dec_u32(out, *n);
            push_chars(out, "}");
        },
        Operand::LitFloat(b) => {
            push_chars(out, "{\"operand\":\"Float\",\"value\":");
            push_dec_f32(out, *b);
            push_chars(out, "}");
        },
        Operand::LitDouble(b) => {
            push_chars(out, "{\"operand\":\"Double\",\"value\":");
            push_dec_f64(out, *b);
            push_chars(out, "}");
        },
        Operand::ExtOp(g) => {
            push_chars(out, "{\"operand\":\"ExtInst\",\"value\":\"");
            push_glsl_name(out, g);
            push_chars(out, "\"}");
        },
    }
    assert(final(out)@ =~= old(out)@ + operand_json(op@));
}

proof fn lemma_operands_json_snoc(ops: Seq<OperandModel>, i: int)
    requires
        0 <= i < ops.len(),
    ensures
        operands_json_list(ops.take(i + 1)) == if i == 0 {
            operand_json(ops[0])
        } else {
            operands_json_list(ops.take(i)) + ","@ + operand_json(ops[i])
        },
{
    assert(ops.take(i + 1).drop_last() =~= ops.take(i));
    assert(ops.take(i + 1).last() == ops[i]);
}

#[verifier::loop_isolation(false)]
fn push_operands_json(out: &mut Vec<char>, ops: &Vec<Operand>)
    ensures
        final(out)@ == old(out)@ + operands_json_list(crate::convert::ops_model(ops@)),
{
    let ghost ms = crate::convert::ops_model(ops@);
    proof {
        assert(ms.take(0) =~= Seq::<OperandModel>::empty());
    }
    let n = ops.len();
    let mut i: usize = 0;
    while i < n
        invariant
            i <= n,
            n == ops@.len(),
            out@ == old(out)@ + operands_json_list(ms.take(i as int)),
        decreases n - i,
    {
        proof {
            lemma_operands_json_snoc(ms, i as int);
        }
        if i > 0 {
            push_chars(out, ",");
        }
        push_operand_json(out, &ops[i]);
        i += 1;
    }
    proof {
        assert(ms.take(n as int) =~= ms);
    }
}

/// Renders one record as JSON.
fn push_record_json(out: &mut Vec<char>, rec: &Record)
    ensures
        final(out)@ == old(out)@ + record_json(rec@),
{
    push_chars(out, "{\"class\":");
    push_quoted_str(out, rec.class.as_str());
    match &rec.result_id {
        Some(n) => {
            push_chars(out, ",\"result_id\":");
            push_dec_u32(out, *n);
        },
        None => {},
    }
    push_chars(out, ",\"operands\":[");
    push_operands_json(out, &rec.operands);
    push_chars(out, "]}");
    assert(final(out)@ =~= old(out)@ + record_json(rec@));
}

proof fn lemma_records_json_snoc(rs: Seq<RecordModel>, i: int)
    requires
        0 <= i < rs.len(),
    ensures
        records_json_list(rs.take(i + 1)) == if i == 0 {
            record_json(rs[0])
        } else {
            records_json_list(rs.take(i)) + ","@ + record_json(rs[i])
        },
{
    assert(rs.take(i + 1).drop_last() =~= rs.take(i));
    assert(rs.take(i + 1).last() == rs[i]);
}

#[verifier::loop_isolation(false)]
fn push_records_json(out: &mut Vec<char>, recs: &Vec<Record>)
    ensures
        final(out)@ == old(out)@ + records_json_list(recs_model(recs@)),
{
    let ghost ms = recs_model(recs@);
    proof {
        assert(ms.take(0) =~= Seq::<RecordModel>::empty());
    }
    let n = recs.len();
    let mut i: usize = 0;
    while i < n
        invariant
            i <= n,
            n == recs@.len(),
            out@ == old(out)@ + records_json_list(ms.take(i as int)),
        decreases n - i,
    {
        proof {
            lemma_records_json_snoc(ms, i as int);
        }
        if i > 0 {
            push_chars(out, ",");
        }
        push_record_json(out, &recs[i]);
        i += 1;
    }
    proof {
        assert(ms.take(n as int) =~= ms);
    }
}

/// Renders a compiled module as the structured dump: the id bound and the
/// assembled instruction records — five synthetic metadata records first —
/// as one JSON object, or the first fault's message. Unclassified
/// instructions keep their generic record here.
pub fn module_printer(module: &CompiledModule) -> (r: Result<String, String>)
    ensures
        (match module_printer_spec(*module) {
            Ok(t) => r is Ok && (r->Ok_0)@ == t,
            Err(t) => r is Err && (r->Err_0)@ == t,
        }),
{
    let mut rest = match module_records(module, false) {
        Ok(recs) => recs,
        Err(e) => {
            return Err(e.message());
        },
    };
    let mut all = meta_records(module.bound);
    all.append(&mut rest);
    proof {
        assert(recs_model(all@) =~= meta_records_spec(module.bound) + module_records_spec(
            *module,
            false,
        )->Ok_0);
    }
    let mut out: Vec<char> = Vec::new();
    push_chars(&mut out, "{\"bound\":");
    push_dec_u32(&mut out, module.bound);
    push_chars(&mut out, ",\"instructions\":[");
    push_records_json(&mut out, &all);
    push_chars(&mut out, "]}");
    assert(out@ =~= module_printer_spec(*module)->Ok_0);
    Ok(chars_to_string(&out))
}

// ---------------------------------------------------------------------------
// The textual disassembly
// ---------------------------------------------------------------------------

/// One operand as disassembly text: ids and types as `%n` references,
/// literals as themselves, strings quoted, floating-point literals in
/// hexadecimal-significand notation.
pub open spec fn operand_asm(op: OperandModel) -> Seq<char> {
    match op {
        OperandModel::Text(s) => s,
        OperandModel::Id(n) => seq!['%'] + dec_of(n as nat),
        OperandModel::TypeRef(n) => seq!['%'] + dec_of(n as nat),
        OperandModel::LitString(s) => quoted_spec(s),
        OperandModel::LitInt(n) => dec_of(n as nat),
        OperandModel::LitFloat(b) => hexfloat32(b),
        OperandModel::LitDouble(b) => hexfloat64(b),
        OperandModel::ExtOp(g) => glsl_name_spec(g),
    }
}

/// The operands of one line, each led by one space.
pub open spec fn operands_asm(ops: Seq<OperandModel>) -> Seq<char>
    decreases ops.len(),
{
    if ops.len() == 0 {
        Seq::empty()
    } else {
        operands_asm(ops.drop_last()) + seq![' '] + operand_asm(ops.last())
    }
}

/// One record as one disassembly line: the defined id, the class, and the
/// operands.
pub open spec fn record_asm(r: RecordModel) -> Seq<char> {
    (match r.result_id {
        Some(n) => seq!['%'] + dec_of(n as nat) + " = "@,
        None => Seq::empty(),
    }) + r.class + operands_asm(r.operands)
}

/// The lines of the whole stream, each closed by a newline.
pub open spec fn asm_lines(rs: Seq<RecordModel>) -> Seq<char>
    decreases rs.len(),
{
    if rs.len() == 0 {
        Seq::empty()
    } else {
        asm_lines(rs.drop_last()) + record_asm(rs.last()) + seq!['\n']
    }
}

/// What the disassembly yields: the metadata lines and the assembled stream
/// under the strict policy, one instruction per line — or the fault's
/// message.
pub open spec fn module_disassembly_spec(m: CompiledModule) -> Result<Seq<char>, Seq<char>> {
    match module_records_spec(m, true) {
        Err(e) => Err(emit_message_spec(e)),
        Ok(rs) => Ok(asm_lines(meta_records_spec(m.bound) + rs)),
    }
}

fn push_operand_asm(out: &mut Vec<char>, op: &Operand)
    ensures
        final(out)@ == old(out)@ + operand_asm(op@),
{
    match op {
        Operand::Text(s) => push_chars(out, s.as_str()),
        Operand::Id(n) => {
            out.push('%');
            push_dec_u32(out, *n);
        },
        Operand::TypeRef(n) => {
            out.push('%');
            push_dec_u32(out, *n);
        },
        Operand::LitString(s) => push_quoted_str(out, s.as_str()),
        Operand::LitInt(n) => push_dec_u32(out, *n),
        Operand::LitFloat(b) => push_hexfloat32(out, *b),
        Operand::LitDouble(b) => push_hexfloat64(out, *b),
        Operand::ExtOp(g) => push_glsl_name(out, g),
    }
    assert(final(out)@ =~= old(out)@ + operand_asm(op@));
}

proof fn lemma_operands_asm_snoc(ops: Seq<OperandModel>, i: int)
    requires
        0 <= i < ops.len(),
    ensures
        operands_asm(ops.take(i + 1)) == operands_asm(ops.take(i)) + seq![' '] + operand_asm(
            ops[i],
        ),
{
    assert(ops.take(i + 1).drop_last() =~= ops.take(i));
    assert(ops.take(i + 1).last() == ops[i]);
}

#[verifier::loop_isolation(false)]
fn push_operands_asm(out: &mut Vec<char>, ops: &Vec<Operand>)
    ensures
        final(out)@ == old(out)@ + operands_asm(crate::convert::ops_model(ops@)),
{
    let ghost ms = crate::convert::ops_model(ops@);
    proof {
        assert(ms.take(0) =~= Seq::<OperandModel>::empty());
    }
    let n = ops.len();
    let mut i: usize = 0;
    while i < n
        invariant
            i <= n,
            n == ops@.len(),
            out@ == old(out)@ + operands_asm(ms.take(i as int)),
        decreases n - i,
    {
        proof {
            lemma_operands_asm_snoc(ms, i as int);
        }
        out.push(' ');
        push_operand_asm(out, &ops[i]);
        i += 1;
    }
    proof {
        assert(ms.take(n as int) =~= ms);
    }
}

/// Renders one record as one disassembly line body.
fn push_record_asm(out: &mut Vec<char>, rec: &Record)
    ensures
        final(out)@ == old(out)@ + record_asm(rec@),
{
    match &rec.result_id {
        Some(n) => {
            out.push('%');
            push_dec_u32(out, *n);
            push_chars(out, " = ");
        },
        None => {},
    }
    push_chars(out, rec.class.as_str());
    push_operands_asm(out, &rec.operands);
    assert(final(out)@ =~= old(out)@ + record_asm(rec@));
}

proof fn lemma_asm_lines_snoc(rs: Seq<RecordModel>, i: int)
    requires
        0 <= i < rs.len(),
    ensures
        asm_lines(rs.take(i + 1)) == asm_lines(rs.take(i)) + record_asm(rs[i]) + seq!['\n'],
{
    assert(rs.take(i + 1).drop_last() =~= rs.take(i));
    assert(rs.take(i + 1).last() == rs[i]);
}

#[verifier::loop_isolation(false)]
fn push_asm_lines(out: &mut Vec<char>, recs: &Vec<Record>)
    ensures
        final(out)@ == old(out)@ + asm_lines(recs_model(recs@)),
{
    let ghost ms = recs_model(recs@);
    proof {
        assert(ms.take(0) =~= Seq::<RecordModel>::empty());
    }
    let n = recs.len();
    let mut i: usize = 0;
    while i < n
        invariant
            i <= n,
            n == recs@.len(),
            out@ == old(out)@ + asm_lines(ms.take(i as int)),
        decreases n - i,
    {
        proof {
            lemma_asm_lines_snoc(ms, i as int);
        }
        push_record_asm(out, &recs[i]);
        out.push('\n');
        i += 1;
    }
    proof {
        assert(ms.take(n as int) =~= ms);
    }
}

/// Renders a compiled module as plain-text disassembly: the metadata lines,
/// then the assembled instruction stream one line each — or the first
/// fault's message. The strict conversion policy holds here: an
/// unclassified instruction fails rather than guessing.
pub fn module_disassembly(module: &CompiledModule) -> (r: Result<String, String>)
    ensures
        (match module_disassembly_spec(*module) {
            Ok(t) => r is Ok && (r->Ok_0)@ == t,
            Err(t) => r is Err && (r->Err_0)@ == t,
        }),
{
    let mut rest = match module_records(module, true) {
        Ok(recs) => recs,
        Err(e) => {
            return Err(e.message());
        },
    };
    let mut all = meta_records(module.bound);
    all.append(&mut rest);
    proof {
        assert(recs_model(all@) =~= meta_records_spec(module.bound) + module_records_spec(
            *module,
            true,
        )->Ok_0);
    }
    let mut out: Vec<char> = Vec::new();
    push_asm_lines(&mut out, &all);
    assert(out@ =~= module_disassembly_spec(*module)->Ok_0);
    Ok(chars_to_string(&out))
}

/// Formatting is deterministic: both renderings are functions of the module
/// value alone — the same module always yields the same text, with no time,
/// randomness, or id reuse entering the output.
pub proof fn lemma_formatting_deterministic(a: CompiledModule, b: CompiledModule)
    requires
        a == b,
    ensures
        module_printer_spec(a) == module_printer_spec(b),
        module_disassembly_spec(a) == module_disassembly_spec(b),
{
}

// ---------------------------------------------------------------------------
// Error wrapping and the length-prefixed buffer
// ---------------------------------------------------------------------------

/// An error message wrapped as the structured-dump sinks report it.
pub open spec fn error_json_spec(msg: Seq<char>) -> Seq<char> {
    "{\"error\":"@ + quoted_spec(msg) + "}"@
}

/// Wraps an error message as the JSON object the structured-dump path
/// reports.
pub fn error_json(msg: &str) -> (r: String)
    ensures
        r@ == error_json_spec(msg@),
{
    let mut out: Vec<char> = Vec::new();
    push_chars(&mut out, "{\"error\":");
    push_quoted_str(&mut out, msg);
    push_chars(&mut out, "}");
    assert(out@ =~= error_json_spec(msg@));
    chars_to_string(&out)
}

/// The eight bytes of a 64-bit length, least significant first.
pub open spec fn u64_le_bytes(n: u64) -> Seq<u8> {
    seq![
        (n % 0x100) as u8,
        ((n / 0x100) % 0x100) as u8,
        ((n / 0x1_0000) % 0x100) as u8,
        ((n / 0x100_0000) % 0x100) as u8,
        ((n / 0x1_0000_0000) % 0x100) as u8,
        ((n / 0x100_0000_0000) % 0x100) as u8,
        ((n / 0x1_0000_0000_0000) % 0x100) as u8,
        ((n / 0x100_0000_0000_0000) % 0x100) as u8,
    ]
}

/// Wraps a payload for transfer across a boundary that cannot carry a native
/// length: the payload's byte count as an 8-byte little-endian prefix,
/// then the payload itself.
pub fn frame_buffer(payload: &Vec<u8>) -> (r: Vec<u8>)
    ensures
        r@ == u64_le_bytes(payload@.len() as u64) + payload@,
{
    let n: u64 = payload.len() as u64;
    let mut r: Vec<u8> = Vec::new();
    r.push((n % 0x100) as u8);
    r.push(((n / 0x100) % 0x100) as u8);
    r.push(((n / 0x1_0000) % 0x100) as u8);
    r.push(((n / 0x100_0000) % 0x100) as u8);
    r.push(((n / 0x1_0000_0000) % 0x100) as u8);
    r.push(((n / 0x100_0000_0000) % 0x100) as u8);
    r.push(((n / 0x1_0000_0000_0000) % 0x100) as u8);
    r.push(((n / 0x100_0000_0000_0000) % 0x100) as u8);
    proof {
        assert(r@ =~= u64_le_bytes(n));
    }
    let m = payload.len();
    let mut i: usize = 0;
    while i < m
        invariant
            i <= m,
            m == payload@.len(),
            n == payload@.len() as u64,
            r@ == u64_le_bytes(n) + payload@.take(i as int),
        decreases m - i,
    {
        r.push(payload[i]);
        assert(r@ =~= u64_le_bytes(n) + payload@.take(i as int + 1));
        i += 1;
    }
    assert(payload@.take(m as int) =~= payload@);
    r
}

} // verus!
