//! Properties that relate several parts of the interpreter.

use vstd::prelude::*;
use vstd::utf8::{encode_utf8, encode_utf8_decode_utf8, encode_utf8_valid_utf8};
use crate::bytes::{le16, le32};
use crate::error::OpcodeHandlerErr;
use crate::opcodes::{
    at_pc, bound_args, comparison, stored_all, wait_done, CmpOp, Comparison, PrintedView,
};
use crate::parser::{
    any_operand, float_operand, int_operand, string_operand, var_operand, ArgView, LOCAL_COUNT,
    TAG_FLOAT, TAG_GLOBAL, TAG_INT16, TAG_INT32, TAG_INT8, TAG_LOCAL, TAG_STRING,
};
use crate::script::{
    awake, chain_start, store, dispatch_opcode, fold_result, jump_target, opcode_word, restored, FrameView,
    LogicalOpcode, ScriptView,
};
use crate::variable::{CellValue, VariableType};
use crate::vm::{fetched, folded, handled, handler_at, stepped, Handler, Step};

verus! {

/// Four bytes of `v`, least significant first.
pub open spec fn le_bytes32(v: u32) -> Seq<u8> {
    seq![
        (v % 256) as u8,
        ((v / 256) % 256) as u8,
        (((v / 256) / 256) % 256) as u8,
        (((v / 256) / 256) / 256) as u8,
    ]
}

/// Two bytes of `v`, least significant first.
pub open spec fn le_bytes16(v: u16) -> Seq<u8> {
    seq![(v % 256) as u8, (v / 256) as u8]
}

pub open spec fn encode_int32(v: u32) -> Seq<u8> {
    seq![TAG_INT32] + le_bytes32(v)
}

pub open spec fn encode_int8(v: u8) -> Seq<u8> {
    seq![TAG_INT8, v]
}

pub open spec fn encode_int16(v: u16) -> Seq<u8> {
    seq![TAG_INT16] + le_bytes16(v)
}

pub open spec fn encode_float(bits: u32) -> Seq<u8> {
    seq![TAG_FLOAT] + le_bytes32(bits)
}

pub open spec fn encode_string(text: Seq<char>) -> Seq<u8> {
    seq![TAG_STRING, encode_utf8(text).len() as u8] + encode_utf8(text)
}

pub open spec fn encode_var(var: VariableType) -> Seq<u8> {
    match var {
        VariableType::Global(id) => seq![TAG_GLOBAL] + le_bytes16(id as u16),
        VariableType::Local(id) => seq![TAG_LOCAL] + le_bytes16(id as u16),
    }
}

proof fn lemma_le32(v: u32)
    ensures
        le32(le_bytes32(v)[0], le_bytes32(v)[1], le_bytes32(v)[2], le_bytes32(v)[3]) == v,
{
}

proof fn lemma_le16(v: u16)
    ensures
        le16(le_bytes16(v)[0], le_bytes16(v)[1]) == v,
{
}

/// Integer literals decode to the value encoded, wherever they stand, and
/// the offset moves by the encoding's width: 5, 2 and 3 bytes.
pub proof fn law_int_round_trip(prefix: Seq<u8>, suffix: Seq<u8>, v32: u32, v8: u8, v16: u16)
    ensures
        int_operand(prefix + encode_int32(v32) + suffix, prefix.len() as int) == Some(
            (v32, prefix.len() as int + 5),
        ),
        int_operand(prefix + encode_int8(v8) + suffix, prefix.len() as int) == Some(
            (v8 as u32, prefix.len() as int + 2),
        ),
        int_operand(prefix + encode_int16(v16) + suffix, prefix.len() as int) == Some(
            (v16 as u32, prefix.len() as int + 3),
        ),
        any_operand(prefix + encode_int32(v32) + suffix, prefix.len() as int) == Some(
            (ArgView::Integer(v32), prefix.len() as int + 5),
        ),
{
    lemma_le32(v32);
    lemma_le16(v16);
    let p = prefix.len() as int;
    let c32 = prefix + encode_int32(v32) + suffix;
    assert(c32[p] == TAG_INT32 && c32[p + 1] == le_bytes32(v32)[0] && c32[p + 2] == le_bytes32(v32)[1]
        && c32[p + 3] == le_bytes32(v32)[2] && c32[p + 4] == le_bytes32(v32)[3]);
    let c8 = prefix + encode_int8(v8) + suffix;
    assert(c8[p] == TAG_INT8 && c8[p + 1] == v8);
    let c16 = prefix + encode_int16(v16) + suffix;
    assert(c16[p] == TAG_INT16 && c16[p + 1] == le_bytes16(v16)[0] && c16[p + 2] == le_bytes16(v16)[1]);
}

/// A float literal decodes to the bit pattern encoded, 5 bytes on.
pub proof fn law_float_round_trip(prefix: Seq<u8>, suffix: Seq<u8>, bits: u32)
    ensures
        float_operand(prefix + encode_float(bits) + suffix, prefix.len() as int) == Some(
            (bits, prefix.len() as int + 5),
        ),
        any_operand(prefix + encode_float(bits) + suffix, prefix.len() as int) == Some(
            (ArgView::Float(bits), prefix.len() as int + 5),
        ),
{
    lemma_le32(bits);
    let p = prefix.len() as int;
    let c = prefix + encode_float(bits) + suffix;
    assert(c[p] == TAG_FLOAT && c[p + 1] == le_bytes32(bits)[0] && c[p + 2] == le_bytes32(bits)[1]
        && c[p + 3] == le_bytes32(bits)[2] && c[p + 4] == le_bytes32(bits)[3]);
}

/// A string literal of at most 255 UTF-8 bytes decodes to the text encoded,
/// and the offset moves past the tag, the length byte and the bytes.
pub proof fn law_string_round_trip(prefix: Seq<u8>, suffix: Seq<u8>, text: Seq<char>)
    requires
        encode_utf8(text).len() <= 255,
    ensures
        string_operand(prefix + encode_string(text) + suffix, prefix.len() as int) == Some(
            (text, prefix.len() as int + 2 + encode_utf8(text).len()),
        ),
        any_operand(prefix + encode_string(text) + suffix, prefix.len() as int) == Some(
            (ArgView::Str(text), prefix.len() as int + 2 + encode_utf8(text).len()),
        ),
{
    let p = prefix.len() as int;
    let bytes = encode_utf8(text);
    let c = prefix + encode_string(text) + suffix;
    assert(c[p] == TAG_STRING && c[p + 1] == bytes.len() as u8);
    assert(c.subrange(p + 2, p + 2 + bytes.len()) =~= bytes);
    encode_utf8_valid_utf8(text);
    encode_utf8_decode_utf8(text);
}

/// A variable reference decodes to the variable encoded, 3 bytes on; a
/// local one names one of the local cells.
pub proof fn law_var_round_trip(prefix: Seq<u8>, suffix: Seq<u8>, var: VariableType)
    requires
        match var {
            VariableType::Global(id) => id < 0x10000,
            VariableType::Local(id) => id < LOCAL_COUNT,
        },
    ensures
        var_operand(prefix + encode_var(var) + suffix, prefix.len() as int) == Some((var, prefix.len() as int + 3)),
        any_operand(prefix + encode_var(var) + suffix, prefix.len() as int) == Some(
            (ArgView::Var(var), prefix.len() as int + 3),
        ),
{
    let p = prefix.len() as int;
    let c = prefix + encode_var(var) + suffix;
    let id = match var {
        VariableType::Global(id) => id,
        VariableType::Local(id) => id,
    };
    lemma_le16(id as u16);
    assert(c[p + 1] == le_bytes16(id as u16)[0] && c[p + 2] == le_bytes16(id as u16)[1]);
}

/// Returning from a call undoes the call's binding of its arguments: the
/// caller's local cells come back as they were, and the frame goes.
pub proof fn law_call_return_restores(s: ScriptView, label: u32, args: Seq<CellValue>)
    requires
        args.len() <= s.locals.len(),
    ensures
        ({
            let called = ScriptView {
                pc: jump_target(label),
                locals: args + s.locals.skip(args.len() as int),
                frames: s.frames.push(FrameView { saved: s.locals.take(args.len() as int), return_pc: s.pc }),
                ..s
            };
            restored(called.locals, called.frames.last().saved) == s.locals
                && called.frames.drop_last() == s.frames
                && called.frames.last().return_pc == s.pc
        }),
{
    let n = args.len() as int;
    let called_locals = args + s.locals.skip(n);
    assert(s.locals.take(n) + called_locals.skip(n) =~= s.locals);
    assert(s.frames.push(FrameView { saved: s.locals.take(n), return_pc: s.pc }).drop_last() =~= s.frames);
}

/// The conditional register after folding in `results` one by one, each
/// without the NOT flag.
pub open spec fn fold_all(cond: bool, logical: LogicalOpcode, results: Seq<bool>) -> bool
    decreases results.len(),
{
    if results.len() == 0 {
        cond
    } else {
        fold_result(fold_all(cond, logical, results.drop_last()), logical, false, results.last())
    }
}

/// A chain of conditions started by `if` combines its results as its
/// combinator says: an AND chain holds when every result holds, an OR chain
/// when one does, and a single-result chain holds the last result (true
/// while there is none).
pub proof fn law_condition_chain(results: Seq<bool>)
    ensures
        fold_all(chain_start(LogicalOpcode::And), LogicalOpcode::And, results) == (forall|i: int|
            0 <= i < results.len() ==> #[trigger] results[i]),
        fold_all(chain_start(LogicalOpcode::Or), LogicalOpcode::Or, results) == (exists|i: int|
            0 <= i < results.len() && #[trigger] results[i]),
        fold_all(chain_start(LogicalOpcode::One), LogicalOpcode::One, results) == (results.len() == 0
            || results.last()),
    decreases results.len(),
{
    if results.len() > 0 {
        let init = results.drop_last();
        law_condition_chain(init);
        assert forall|i: int| 0 <= i < init.len() implies init[i] == results[i] by {}
        if !results.last() {
            assert(!results[results.len() - 1]);
        }
        if exists|i: int| 0 <= i < results.len() && #[trigger] results[i] {
            let i = choose|i: int| 0 <= i < results.len() && #[trigger] results[i];
            if i < init.len() {
                assert(init[i]);
            }
        }
    }
}

/// A jump lands on the two's-complement negation of the address, taken as
/// an unsigned 32-bit value.
pub proof fn law_jump_arithmetic(address: u32)
    ensures
        jump_target(address) as int == (0xFFFF_FFFF - address + 1) % 0x1_0000_0000,
{
}

/// An opcode word with the NOT bit set dispatches as the word without that
/// bit and sets the NOT flag; a result folded in under the flag is folded
/// in inverted.
pub proof fn law_not_flag(s: ScriptView, sh: ScriptView, result: bool)
    requires
        opcode_word(s.code, s.pc) is Some,
        opcode_word(s.code, s.pc).unwrap() >= 0x8000,
        sh.not_flag,
    ensures
        dispatch_opcode(opcode_word(s.code, s.pc).unwrap()) == opcode_word(s.code, s.pc).unwrap() - 0x8000,
        fetched(s, opcode_word(s.code, s.pc).unwrap()).not_flag,
        folded(sh, Ok(result)).cond_result == fold_result(sh.cond_result, sh.logical, false, !result),
{
}

/// Comparing two variables of different kinds gives false, whatever the
/// comparison; so does comparing a string variable with a number, or a
/// number variable with a string literal.
pub proof fn law_kind_mismatch_compares_false(
    op: CmpOp,
    cur: CellValue,
    other: CellValue,
    var: VariableType,
    v: u32,
    text: Seq<char>,
)
    ensures
        cur.kind() != other.kind() ==> comparison(op, cur, ArgView::Var(var), Some(other))
            == Comparison::Decided(false),
        cur is Str ==> comparison(op, cur, ArgView::Integer(v), None) == Comparison::Decided(false),
        comparison(op, cur, ArgView::Str(text), None) == Comparison::Decided(false),
{
}

/// After `wait t`, the script is asleep until `t` milliseconds have passed
/// since the wait, and from then on it runs again (if it is active and not
/// done).
pub proof fn law_wait_resume(
    s: ScriptView,
    r: Result<bool, OpcodeHandlerErr>,
    s2: ScriptView,
    elapsed: i64,
)
    requires
        wait_done(s, r, s2),
        r is Ok,
    ensures
        int_operand(s.code, s.pc as int) is Some,
        awake(s2, Some(elapsed)) <==> (s.active && !s.done && elapsed >= int_operand(s.code, s.pc as int).unwrap().0),
{
}

/// Storing return values leaves the NOT flag alone.
proof fn lemma_stored_all_keeps_not_flag(s: ScriptView, g: Seq<u32>, vals: Seq<CellValue>)
    ensures
        match stored_all(s, g, vals) {
            Ok((s1, _)) => s1.not_flag == s.not_flag,
            Err((_, s1, _)) => s1.not_flag == s.not_flag,
        },
    decreases vals.len(),
{
    if vals.len() > 0 {
        match var_operand(s.code, s.pc as int) {
            None => {},
            Some((var, n)) => match store(s.locals, g, var, vals[0]) {
                Err(_) => {},
                Ok((locals, g1)) => {
                    lemma_stored_all_keeps_not_flag(ScriptView { locals, ..at_pc(s, n) }, g1, vals.skip(1));
                },
            },
        }
    }
}

/// A built-in handler leaves the NOT flag alone.
proof fn lemma_handled_keeps_not_flag(
    h: Handler,
    s: ScriptView,
    g: Seq<u32>,
    o: Seq<PrintedView>,
    r: Result<bool, OpcodeHandlerErr>,
    s2: ScriptView,
    g2: Seq<u32>,
    o2: Seq<PrintedView>,
)
    requires
        handled(h, s, g, o, r, s2, g2, o2),
        !(h is Host),
    ensures
        s2.not_flag == s.not_flag,
{
    if h is Ret {
        match int_operand(s.code, s.pc as int) {
            None => {},
            Some((count, n1)) => match bound_args(s, g, n1, count as nat) {
                Err(_) => {},
                Ok((vals, _)) => {
                    if s.frames.len() > 0 {
                        lemma_stored_all_keeps_not_flag(
                            ScriptView {
                                pc: s.frames.last().return_pc,
                                locals: restored(s.locals, s.frames.last().saved),
                                frames: s.frames.drop_last(),
                                ..s
                            },
                            g,
                            vals,
                        );
                    }
                },
            },
        }
    }
}

/// Under a built-in handler, an opcode word with the NOT bit set runs the
/// handler of the word without that bit, and the handler's result is folded
/// into the conditional register inverted.
pub proof fn law_not_flag_step(
    handlers: Seq<Option<Handler>>,
    s: ScriptView,
    g: Seq<u32>,
    o: Seq<PrintedView>,
    r: Step,
    s2: ScriptView,
    g2: Seq<u32>,
    o2: Seq<PrintedView>,
)
    requires
        stepped(handlers, s, g, o, r, s2, g2, o2),
        opcode_word(s.code, s.pc) is Some,
        opcode_word(s.code, s.pc).unwrap() >= 0x8000,
        handler_at(handlers, (opcode_word(s.code, s.pc).unwrap() - 0x8000) as u16) is Some,
        !(handler_at(handlers, (opcode_word(s.code, s.pc).unwrap() - 0x8000) as u16).unwrap() is Host),
    ensures
        exists|res: Result<bool, OpcodeHandlerErr>, sh: ScriptView|
            #[trigger] handled(
                handler_at(handlers, (opcode_word(s.code, s.pc).unwrap() - 0x8000) as u16).unwrap(),
                fetched(s, opcode_word(s.code, s.pc).unwrap()),
                g,
                o,
                res,
                sh,
                g2,
                o2,
            ) && r == Step::Ran((opcode_word(s.code, s.pc).unwrap() - 0x8000) as u16, res) && s2 == folded(sh, res)
                && match res {
                Ok(b) => s2.cond_result == fold_result(sh.cond_result, sh.logical, false, !b),
                Err(_) => s2.cond_result == sh.cond_result,
            },
{
    let w = opcode_word(s.code, s.pc).unwrap();
    let h = handler_at(handlers, (w - 0x8000) as u16).unwrap();
    assert(dispatch_opcode(w) == (w - 0x8000) as u16);
    let (res, sh) = choose|res: Result<bool, OpcodeHandlerErr>, sh: ScriptView|
        r == Step::Ran(dispatch_opcode(w), res) && #[trigger] handled(h, fetched(s, w), g, o, res, sh, g2, o2)
            && s2 == folded(sh, res);
    lemma_handled_keeps_not_flag(h, fetched(s, w), g, o, res, sh, g2, o2);
}

} // verus!
