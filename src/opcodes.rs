use vstd::prelude::*;
use crate::error::OpcodeHandlerErr;
use crate::globals::Globals;
use crate::parser::{any_operand, int_operand, var_operand, ArgType, ArgView};
use crate::script::{
    chain_start, jump_target, live_block, restored, store, value_of, FrameView, LogicalOpcode, Script,
    ScriptView,
};
use crate::variable::{CellValue, Value, VariableKind, VariableType};

verus! {

/// The arithmetic of opcodes 0x0004 to 0x0007.
#[derive(Debug, Clone, Copy, PartialEq, Eq, Structural)]
pub enum MathOp {
    Add,
    Sub,
    Mul,
    Div,
}

/// The comparisons of opcodes 0x0010 to 0x0015.
#[derive(Debug, Clone, Copy, PartialEq, Eq, Structural)]
pub enum CmpOp {
    Eq,
    Ne,
    Gt,
    Lt,
    Ge,
    Le,
}

/// What the embedding application supplies: the handlers it registered,
/// and 32-bit float arithmetic (floats are handled as bit patterns here).
pub trait Host {
    /// Runs the handler registered under `id` on `script`.
    fn run_handler(&mut self, id: u32, script: &mut Script, globals: &mut Globals) -> Result<bool, OpcodeHandlerErr>;

    /// `lhs op rhs` on two floats, as bit patterns.
    fn float_math(&mut self, op: MathOp, lhs: u32, rhs: u32) -> u32;

    /// `lhs op rhs` on two floats, as bit patterns.
    fn float_compare(&mut self, op: CmpOp, lhs: u32, rhs: u32) -> bool;
}

/// What `print` hands to the application.
#[derive(Debug)]
pub enum Printed {
    /// A literal operand, or an unknown tag.
    Literal(ArgType),
    /// A variable operand and its value.
    Variable(VariableType, Value),
}

/// The script state `s` with the program counter at `pc`.
pub open spec fn at_pc(s: ScriptView, pc: int) -> ScriptView {
    ScriptView { pc: pc as usize, ..s }
}

/// Wrapping integer arithmetic; `None` for a division by zero.
pub open spec fn int_math(op: MathOp, a: u32, b: u32) -> Option<u32> {
    match op {
        MathOp::Add => Some(a.wrapping_add(b)),
        MathOp::Sub => Some(a.wrapping_sub(b)),
        MathOp::Mul => Some(a.wrapping_mul(b)),
        MathOp::Div => if b == 0 {
            None
        } else {
            Some(a / b)
        },
    }
}

pub open spec fn compare_ints(op: CmpOp, a: int, b: int) -> bool {
    match op {
        CmpOp::Eq => a == b,
        CmpOp::Ne => a != b,
        CmpOp::Gt => a > b,
        CmpOp::Lt => a < b,
        CmpOp::Ge => a >= b,
        CmpOp::Le => a <= b,
    }
}

/// The value of an operand: a literal stands for itself, a variable for
/// what it holds; an unknown tag for nothing.
pub open spec fn operand_value(s: ScriptView, g: Seq<u32>, arg: ArgView) -> Option<CellValue> {
    match arg {
        ArgView::Integer(v) => Some(CellValue::Integer(v)),
        ArgView::Float(v) => Some(CellValue::Float(v)),
        ArgView::Str(t) => Some(CellValue::Str(t)),
        ArgView::Var(r) => value_of(s, g, r),
        ArgView::NoArg => None,
    }
}

/// The combinator that an `if` selector names.
pub open spec fn selector(v: u32) -> Option<LogicalOpcode> {
    if v == 0 {
        Some(LogicalOpcode::One)
    } else if 1 <= v <= 7 {
        Some(LogicalOpcode::And)
    } else if 21 <= v <= 27 {
        Some(LogicalOpcode::Or)
    } else {
        None
    }
}

/// The value of an operand, read from the script and the global table.
pub fn resolve(script: &Script, arg: ArgType, globals: &Globals) -> (r: Option<Value>)
    ensures
        match operand_value(script@, globals@, arg@) {
            Some(v) => r.is_some() && r.unwrap()@ == v,
            None => r.is_none(),
        },
{
    match arg {
        ArgType::Integer(v) => Some(Value::Integer(v)),
        ArgType::Float(v) => Some(Value::Float(v)),
        ArgType::String(s) => Some(Value::Str(s)),
        ArgType::Var(r) => script.get_variable(&r, globals),
        ArgType::NoArg => None,
    }
}

/// The outcome of `op_nop`.
pub open spec fn nop_done(
    s: ScriptView,
    r: Result<bool, OpcodeHandlerErr>,
    s2: ScriptView,
) -> bool {
    r == Ok::<bool, OpcodeHandlerErr>(true) && s2 == s
}

/// 0x0000 `nop`.
pub fn op_nop(script: &mut Script) -> (r: Result<bool, OpcodeHandlerErr>)
    ensures
        nop_done(old(script)@, r, final(script)@),
{
    Ok(true)
}

/// The outcome of `op_wait`.
pub open spec fn wait_done(
    s: ScriptView,
    r: Result<bool, OpcodeHandlerErr>,
    s2: ScriptView,
) -> bool {
    match int_operand(s.code, s.pc as int) {
        Some((t, n)) => r == Ok::<bool, OpcodeHandlerErr>(true) && s2 == (ScriptView {
            pc: n as usize,
            wake_up: t,
            ..s
        }),
        None => r == Err::<bool, OpcodeHandlerErr>(OpcodeHandlerErr::CannotParseArg) && s2
            == s,
    }
}

/// 0x0001 `wait <int>`: arms the sleep timer for that many milliseconds.
pub fn op_wait(script: &mut Script) -> (r: Result<bool, OpcodeHandlerErr>)
    ensures
        wait_done(old(script)@, r, final(script)@),
{
    match script.parse_int() {
        Some(time) => Ok(script.set_wake_up(time)),
        None => Err(OpcodeHandlerErr::CannotParseArg),
    }
}

/// The outcome of `op_jump`.
pub open spec fn jump_done(
    s: ScriptView,
    r: Result<bool, OpcodeHandlerErr>,
    s2: ScriptView,
) -> bool {
    match int_operand(s.code, s.pc as int) {
        Some((a, n)) => r == Ok::<bool, OpcodeHandlerErr>(true) && s2 == at_pc(
            s,
            jump_target(a) as int,
        ),
        None => r == Err::<bool, OpcodeHandlerErr>(OpcodeHandlerErr::CannotParseArg) && s2
            == s,
    }
}

/// 0x0002 `jump <int>`.
pub fn op_jump(script: &mut Script) -> (r: Result<bool, OpcodeHandlerErr>)
    ensures
        jump_done(old(script)@, r, final(script)@),
{
    match script.parse_int() {
        Some(address) => Ok(script.jump_to(address)),
        None => Err(OpcodeHandlerErr::CannotParseArg),
    }
}

/// The outcome of `op_assign`.
pub open spec fn assign_done(
    s: ScriptView,
    g: Seq<u32>,
    r: Result<bool, OpcodeHandlerErr>,
    s2: ScriptView,
    g2: Seq<u32>,
) -> bool {
    match var_operand(s.code, s.pc as int) {
        None => r == Err::<bool, OpcodeHandlerErr>(OpcodeHandlerErr::CannotParseArg) && s2
            == s && g2 == g,
        Some((var, n1)) => match any_operand(s.code, n1) {
            None => r == Err::<bool, OpcodeHandlerErr>(OpcodeHandlerErr::CannotParseArg) && s2
                == at_pc(s, n1) && g2 == g,
            Some((arg, n2)) => if arg is NoArg {
                r == Ok::<bool, OpcodeHandlerErr>(false) && s2 == at_pc(s, n2)
                    && g2 == g
            } else {
                match operand_value(s, g, arg) {
                    None => r == Err::<bool, OpcodeHandlerErr>(OpcodeHandlerErr::CannotParseArg)
                        && s2 == at_pc(s, n2) && g2 == g,
                    Some(v) => match store(s.locals, g, var, v) {
                        Ok((locals, g1)) => r == Ok::<bool, OpcodeHandlerErr>(true)
                            && s2 == (ScriptView { locals, ..at_pc(s, n2) }) && g2 == g1,
                        Err(e) => r == Err::<bool, OpcodeHandlerErr>(e) && s2 == at_pc(s, n2) && g2 == g,
                    },
                }
            },
        },
    }
}

/// 0x0003 `<var> = <any>`: the variable takes the operand's value and kind.
/// An unknown operand tag assigns nothing and gives `false`.
pub fn op_assign(script: &mut Script, globals: &mut Globals) -> (r: Result<bool, OpcodeHandlerErr>)
    ensures
        assign_done(old(script)@, old(globals)@, r, final(script)@, final(globals)@),
{
    let var = match script.parse_var() {
        Some(v) => v,
        None => {
            return Err(OpcodeHandlerErr::CannotParseArg);
        },
    };
    let arg = match script.parse_any_arg() {
        Some(a) => a,
        None => {
            return Err(OpcodeHandlerErr::CannotParseArg);
        },
    };
    if let ArgType::NoArg = arg {
        return Ok(false);
    }
    let value = match resolve(script, arg, globals) {
        Some(v) => v,
        None => {
            return Err(OpcodeHandlerErr::CannotParseArg);
        },
    };
    match script.set_variable(&var, value, globals) {
        Ok(()) => Ok(true),
        Err(e) => Err(e),
    }
}

/// The outcome of `op_if`.
pub open spec fn if_done(s: ScriptView, r: Result<bool, OpcodeHandlerErr>, s2: ScriptView) -> bool {
    match int_operand(s.code, s.pc as int) {
        Some((v, n)) => match selector(v) {
            Some(op) => r == Ok::<bool, OpcodeHandlerErr>(chain_start(op)) && s2 == (
            ScriptView { logical: op, cond_result: chain_start(op), ..at_pc(s, n) }),
            None => r == Err::<bool, OpcodeHandlerErr>(OpcodeHandlerErr::UndefinedCondArg)
                && s2 == at_pc(s, n),
        },
        None => r == Err::<bool, OpcodeHandlerErr>(OpcodeHandlerErr::CannotParseArg) && s2
            == s,
    }
}

/// 0x0008 `if <int>`: starts a chain of conditions. 0 selects a single
/// result, 1 to 7 an AND chain, 21 to 27 an OR chain. The register starts
/// at the combinator's identity (false for OR, true otherwise), which is
/// also the result returned, so that folding it leaves the register there.
pub fn op_if(script: &mut Script) -> (r: Result<bool, OpcodeHandlerErr>)
    ensures
        if_done(old(script)@, r, final(script)@),
{
    match script.parse_int() {
        Some(v) => {
            let op = if v == 0 {
                LogicalOpcode::One
            } else if 1 <= v && v <= 7 {
                LogicalOpcode::And
            } else if 21 <= v && v <= 27 {
                LogicalOpcode::Or
            } else {
                return Err(OpcodeHandlerErr::UndefinedCondArg);
            };
            script.set_logical_opcode(op);
            let start = match op {
                LogicalOpcode::Or => false,
                _ => true,
            };
            script.set_condition(start);
            Ok(start)
        },
        None => Err(OpcodeHandlerErr::CannotParseArg),
    }
}

/// The outcome of `op_jump_if_false`.
pub open spec fn jump_if_false_done(
    s: ScriptView,
    r: Result<bool, OpcodeHandlerErr>,
    s2: ScriptView,
) -> bool {
    match int_operand(s.code, s.pc as int) {
        Some((a, n)) => r == Ok::<bool, OpcodeHandlerErr>(s.cond_result) && s2
            == at_pc(
            s,
            if s.cond_result {
                n
            } else {
                jump_target(a) as int
            },
        ),
        None => r == Err::<bool, OpcodeHandlerErr>(OpcodeHandlerErr::CannotParseArg) && s2
            == s,
    }
}

/// 0x0009 `jump_if_false <int>`: jumps when the conditional register is
/// false, and returns the register as it was.
pub fn op_jump_if_false(script: &mut Script) -> (r: Result<bool, OpcodeHandlerErr>)
    ensures
        jump_if_false_done(old(script)@, r, final(script)@),
{
    match script.parse_int() {
        Some(address) => {
            let cond = script.cond_result();
            if !cond {
                script.jump_to(address);
            }
            Ok(cond)
        },
        None => Err(OpcodeHandlerErr::CannotParseArg),
    }
}

/// How an arithmetic opcode combines a variable's value `cur` with its
/// operand: a literal is taken under its own kind against the cell's 32-bit
/// payload; another variable must have the same kind. Strings take no part.
pub enum Arith {
    Ints(u32, u32),
    Floats(u32, u32),
    Refused(OpcodeHandlerErr),
}

pub open spec fn arith(cur: CellValue, arg: ArgView, other: Option<CellValue>) -> Arith {
    match arg {
        ArgView::Integer(v) => if cur is Str {
            Arith::Refused(OpcodeHandlerErr::NotCorrectType)
        } else {
            Arith::Ints(cur.bits(), v)
        },
        ArgView::Float(v) => if cur is Str {
            Arith::Refused(OpcodeHandlerErr::NotCorrectType)
        } else {
            Arith::Floats(cur.bits(), v)
        },
        ArgView::Var(_) => match other {
            None => Arith::Refused(OpcodeHandlerErr::CannotParseArg),
            Some(o) => if o.kind() != cur.kind() {
                Arith::Refused(OpcodeHandlerErr::NotCorrectType)
            } else {
                match cur {
                    CellValue::Integer(a) => Arith::Ints(a, o.bits()),
                    CellValue::Float(a) => Arith::Floats(a, o.bits()),
                    CellValue::Str(_) => Arith::Refused(OpcodeHandlerErr::NotCorrectType),
                }
            },
        },
        _ => Arith::Refused(OpcodeHandlerErr::NotCorrectType),
    }
}

/// The value of a variable operand; `None` for any other operand.
pub open spec fn other_value(s: ScriptView, g: Seq<u32>, arg: ArgView) -> Option<CellValue> {
    match arg {
        ArgView::Var(r) => value_of(s, g, r),
        _ => None,
    }
}

/// The outcome of storing `v` in `var` after the operands, which end at `pc`.
pub open spec fn stored_outcome(
    s: ScriptView,
    g: Seq<u32>,
    pc: int,
    var: VariableType,
    v: CellValue,
    r: Result<bool, OpcodeHandlerErr>,
    s2: ScriptView,
    g2: Seq<u32>,
) -> bool {
    match store(s.locals, g, var, v) {
        Ok((locals, g1)) => r == Ok::<bool, OpcodeHandlerErr>(true) && s2 == (ScriptView {
            locals,
            ..at_pc(s, pc)
        }) && g2 == g1,
        Err(e) => r == Err::<bool, OpcodeHandlerErr>(e) && s2 == at_pc(s, pc) && g2 == g,
    }
}

/// A handler that failed with `e` once its operands, up to `pc`, were read.
pub open spec fn failed_at(
    s: ScriptView,
    g: Seq<u32>,
    pc: int,
    e: OpcodeHandlerErr,
    r: Result<bool, OpcodeHandlerErr>,
    s2: ScriptView,
    g2: Seq<u32>,
) -> bool {
    r == Err::<bool, OpcodeHandlerErr>(e) && s2 == at_pc(s, pc) && g2 == g
}

/// The outcome of `op_math`.
pub open spec fn math_done(
    op: MathOp,
    s: ScriptView,
    g: Seq<u32>,
    r: Result<bool, OpcodeHandlerErr>,
    s2: ScriptView,
    g2: Seq<u32>,
) -> bool {
    match var_operand(s.code, s.pc as int) {
        None => failed_at(
            s,
            g,
            s.pc as int,
            OpcodeHandlerErr::NotCorrectType,
            r,
            s2,
            g2,
        ),
        Some((var, n1)) => match any_operand(s.code, n1) {
            None => failed_at(
                s,
                g,
                n1,
                OpcodeHandlerErr::CannotParseArg,
                r,
                s2,
                g2,
            ),
            Some((arg, n2)) => match value_of(s, g, var) {
                None => failed_at(
                    s,
                    g,
                    n2,
                    OpcodeHandlerErr::CannotParseArg,
                    r,
                    s2,
                    g2,
                ),
                Some(cur) => match arith(cur, arg, other_value(s, g, arg)) {
                    Arith::Refused(e) => failed_at(
                        s,
                        g,
                        n2,
                        e,
                        r,
                        s2,
                        g2,
                    ),
                    Arith::Ints(a, b) => match int_math(op, a, b) {
                        None => failed_at(
                            s,
                            g,
                            n2,
                            OpcodeHandlerErr::DivideByZero,
                            r,
                            s2,
                            g2,
                        ),
                        Some(x) => stored_outcome(
                            s,
                            g,
                            n2,
                            var,
                            cur.with_bits(x),
                            r,
                            s2,
                            g2,
                        ),
                    },
                    Arith::Floats(a, b) => exists|x: u32|
                        stored_outcome(
                            s,
                            g,
                            n2,
                            var,
                            cur.with_bits(x),
                            r,
                            s2,
                            g2,
                        ),
                },
            },
        },
    }
}

/// 0x0004 to 0x0007 `<var> op= <any>`. Integers wrap; an integer division
/// by zero is an error. Float arithmetic is the host's; the variable keeps
/// its kind.
pub fn op_math<H: Host>(op: MathOp, script: &mut Script, globals: &mut Globals, host: &mut H) -> (r: Result<
    bool,
    OpcodeHandlerErr,
>)
    ensures
        math_done(op, old(script)@, old(globals)@, r, final(script)@, final(globals)@),
{
    let var = match script.parse_var() {
        Some(v) => v,
        None => {
            return Err(OpcodeHandlerErr::NotCorrectType);
        },
    };
    let arg = match script.parse_any_arg() {
        Some(a) => a,
        None => {
            return Err(OpcodeHandlerErr::CannotParseArg);
        },
    };
    let cur = match script.get_variable(&var, globals) {
        Some(v) => v,
        None => {
            return Err(OpcodeHandlerErr::CannotParseArg);
        },
    };
    let cur_bits: u32 = match &cur {
        Value::Integer(v) => *v,
        Value::Float(v) => *v,
        Value::Str(_) => 0,
    };
    let is_str = cur.kind() == VariableKind::String;
    // (float?, lhs, rhs)
    let (floats, a, b): (bool, u32, u32) = match &arg {
        ArgType::Integer(v) => {
            if is_str {
                return Err(OpcodeHandlerErr::NotCorrectType);
            }
            (false, cur_bits, *v)
        },
        ArgType::Float(v) => {
            if is_str {
                return Err(OpcodeHandlerErr::NotCorrectType);
            }
            (true, cur_bits, *v)
        },
        ArgType::Var(other) => {
            let o = match script.get_variable(other, globals) {
                Some(o) => o,
                None => {
                    return Err(OpcodeHandlerErr::CannotParseArg);
                },
            };
            if o.kind() != cur.kind() {
                return Err(OpcodeHandlerErr::NotCorrectType);
            }
            match (&cur, &o) {
                (Value::Integer(x), Value::Integer(y)) => (false, *x, *y),
                (Value::Float(x), Value::Float(y)) => (true, *x, *y),
                _ => {
                    return Err(OpcodeHandlerErr::NotCorrectType);
                },
            }
        },
        _ => {
            return Err(OpcodeHandlerErr::NotCorrectType);
        },
    };
    let x: u32 = if floats {
        host.float_math(op, a, b)
    } else {
        match op {
            MathOp::Add => a.wrapping_add(b),
            MathOp::Sub => a.wrapping_sub(b),
            MathOp::Mul => a.wrapping_mul(b),
            MathOp::Div => {
                if b == 0 {
                    return Err(OpcodeHandlerErr::DivideByZero);
                }
                a / b
            },
        }
    };
    let new = match cur {
        Value::Float(_) => Value::Float(x),
        _ => Value::Integer(x),
    };
    let ghost g0 = globals@;
    let ghost s0 = script@;
    let r = match script.set_variable(&var, new, globals) {
        Ok(()) => Ok(true),
        Err(e) => Err(e),
    };
    assert(stored_outcome(old(script)@, old(globals)@, s0.pc as int, var, cur@.with_bits(x), r, script@, globals@));
    r
}

/// The outcome of a comparison: decided here, left to the host's float
/// comparison, or refused.
pub enum Comparison {
    Decided(bool),
    Floats(u32, u32),
    Refused(OpcodeHandlerErr),
}

/// A literal integer is compared unsigned with the cell's payload, a literal
/// float as a float; two variables must have the same kind, and integers
/// then compare signed. Strings, mismatched kinds and other operands compare
/// false.
pub open spec fn comparison(op: CmpOp, cur: CellValue, arg: ArgView, other: Option<CellValue>) -> Comparison {
    match arg {
        ArgView::Integer(v) => if cur is Str {
            Comparison::Decided(false)
        } else {
            Comparison::Decided(compare_ints(op, cur.bits() as int, v as int))
        },
        ArgView::Float(v) => if cur is Str {
            Comparison::Decided(false)
        } else {
            Comparison::Floats(cur.bits(), v)
        },
        ArgView::Var(_) => match other {
            None => Comparison::Refused(OpcodeHandlerErr::CannotParseArg),
            Some(o) => if o.kind() != cur.kind() {
                Comparison::Decided(false)
            } else {
                match cur {
                    CellValue::Integer(a) => Comparison::Decided(
                        compare_ints(op, a as i32 as int, o.bits() as i32 as int),
                    ),
                    CellValue::Float(a) => Comparison::Floats(a, o.bits()),
                    CellValue::Str(_) => Comparison::Decided(false),
                }
            },
        },
        _ => Comparison::Decided(false),
    }
}

fn compare_u32(op: CmpOp, a: u32, b: u32) -> (r: bool)
    ensures
        r == compare_ints(op, a as int, b as int),
{
    match op {
        CmpOp::Eq => a == b,
        CmpOp::Ne => a != b,
        CmpOp::Gt => a > b,
        CmpOp::Lt => a < b,
        CmpOp::Ge => a >= b,
        CmpOp::Le => a <= b,
    }
}

fn compare_i32(op: CmpOp, a: i32, b: i32) -> (r: bool)
    ensures
        r == compare_ints(op, a as int, b as int),
{
    match op {
        CmpOp::Eq => a == b,
        CmpOp::Ne => a != b,
        CmpOp::Gt => a > b,
        CmpOp::Lt => a < b,
        CmpOp::Ge => a >= b,
        CmpOp::Le => a <= b,
    }
}

/// The outcome of `op_compare`.
pub open spec fn compare_done(
    op: CmpOp,
    s: ScriptView,
    g: Seq<u32>,
    r: Result<bool, OpcodeHandlerErr>,
    s2: ScriptView,
) -> bool {
    match var_operand(s.code, s.pc as int) {
        None => r == Err::<bool, OpcodeHandlerErr>(OpcodeHandlerErr::NotCorrectType) && s2
            == s,
        Some((var, n1)) => match any_operand(s.code, n1) {
            None => r == Err::<bool, OpcodeHandlerErr>(OpcodeHandlerErr::CannotParseArg) && s2
                == at_pc(s, n1),
            Some((arg, n2)) => s2 == at_pc(s, n2) && match value_of(
                s,
                g,
                var,
            ) {
                None => r == Err::<bool, OpcodeHandlerErr>(OpcodeHandlerErr::CannotParseArg),
                Some(cur) => match comparison(op, cur, arg, other_value(s, g, arg)) {
                    Comparison::Decided(b) => r == Ok::<bool, OpcodeHandlerErr>(b),
                    Comparison::Floats(_, _) => r.is_ok(),
                    Comparison::Refused(e) => r == Err::<bool, OpcodeHandlerErr>(e),
                },
            },
        },
    }
}

/// 0x0010 to 0x0015 `<var> op <any>`: a condition. Never an error for a
/// mismatch of kinds: that compares false.
pub fn op_compare<H: Host>(op: CmpOp, script: &mut Script, globals: &Globals, host: &mut H) -> (r: Result<
    bool,
    OpcodeHandlerErr,
>)
    ensures
        compare_done(op, old(script)@, globals@, r, final(script)@),
{
    let var = match script.parse_var() {
        Some(v) => v,
        None => {
            return Err(OpcodeHandlerErr::NotCorrectType);
        },
    };
    let arg = match script.parse_any_arg() {
        Some(a) => a,
        None => {
            return Err(OpcodeHandlerErr::CannotParseArg);
        },
    };
    let cur = match script.get_variable(&var, globals) {
        Some(v) => v,
        None => {
            return Err(OpcodeHandlerErr::CannotParseArg);
        },
    };
    match (&cur, &arg) {
        (Value::Str(_), ArgType::Integer(_)) => Ok(false),
        (Value::Str(_), ArgType::Float(_)) => Ok(false),
        (Value::Integer(a), ArgType::Integer(v)) => Ok(compare_u32(op, *a, *v)),
        (Value::Float(a), ArgType::Integer(v)) => Ok(compare_u32(op, *a, *v)),
        (Value::Integer(a), ArgType::Float(v)) => Ok(host.float_compare(op, *a, *v)),
        (Value::Float(a), ArgType::Float(v)) => Ok(host.float_compare(op, *a, *v)),
        (_, ArgType::Var(other)) => {
            let o = match script.get_variable(other, globals) {
                Some(o) => o,
                None => {
                    return Err(OpcodeHandlerErr::CannotParseArg);
                },
            };
            match (&cur, &o) {
                (Value::Integer(a), Value::Integer(b)) => Ok(compare_i32(op, *a as i32, *b as i32)),
                (Value::Float(a), Value::Float(b)) => Ok(host.float_compare(op, *a, *b)),
                _ => Ok(false),
            }
        },
        _ => Ok(false),
    }
}

/// What `print` hands over, in mathematical terms.
pub enum PrintedView {
    Literal(ArgView),
    Variable(VariableType, CellValue),
}

impl View for Printed {
    type V = PrintedView;

    open spec fn view(&self) -> PrintedView {
        match self {
            Printed::Literal(a) => PrintedView::Literal(a@),
            Printed::Variable(r, v) => PrintedView::Variable(*r, v@),
        }
    }
}

/// The outcome of `op_print`.
pub open spec fn print_done(
    s: ScriptView,
    g: Seq<u32>,
    o: Seq<PrintedView>,
    r: Result<bool, OpcodeHandlerErr>,
    s2: ScriptView,
    o2: Seq<PrintedView>,
) -> bool {
    match any_operand(s.code, s.pc as int) {
        None => r == Err::<bool, OpcodeHandlerErr>(OpcodeHandlerErr::CannotParseArg) && s2
            == s && o2 == o,
        Some((arg, n)) => s2 == at_pc(s, n) && match arg {
            ArgView::Var(var) => match value_of(s, g, var) {
                None => r == Err::<bool, OpcodeHandlerErr>(OpcodeHandlerErr::CannotParseArg)
                    && o2 == o,
                Some(v) => r == Ok::<bool, OpcodeHandlerErr>(true)
                    && o2.len() == o.len() + 1
                    && o2.drop_last() == o
                    && o2.last() == PrintedView::Variable(var, v),
            },
            _ => r == Ok::<bool, OpcodeHandlerErr>(true) && o2.len() == o.len() + 1
                && o2.drop_last() == o && o2.last() == PrintedView::Literal(arg),
        },
    }
}

/// 0x000A `print <any>`: hands the operand to the application, a variable
/// together with its value.
pub fn op_print(script: &mut Script, globals: &Globals, out: &mut Vec<Printed>) -> (r: Result<
    bool,
    OpcodeHandlerErr,
>)
    ensures
        print_done(
            old(script)@,
            globals@,
            old(out)@.map_values(|p: Printed| p@),
            r,
            final(script)@,
            final(out)@.map_values(|p: Printed| p@),
        ),
{
    let arg = match script.parse_any_arg() {
        Some(a) => a,
        None => {
            return Err(OpcodeHandlerErr::CannotParseArg);
        },
    };
    let printed = match arg {
        ArgType::Var(var) => match script.get_variable(&var, globals) {
            Some(v) => Printed::Variable(var, v),
            None => {
                return Err(OpcodeHandlerErr::CannotParseArg);
            },
        },
        other => Printed::Literal(other),
    };
    let ghost before = out@.map_values(|p: Printed| p@);
    out.push(printed);
    assert(out@.map_values(|p: Printed| p@) =~= before.push(out@.last()@));
    assert(out@.map_values(|p: Printed| p@).drop_last() =~= before);
    Ok(true)
}

/// The outcome of `op_get_label_address`.
pub open spec fn label_address_done(
    s: ScriptView,
    g: Seq<u32>,
    r: Result<bool, OpcodeHandlerErr>,
    s2: ScriptView,
    g2: Seq<u32>,
) -> bool {
    match int_operand(s.code, s.pc as int) {
        None => failed_at(
            s,
            g,
            s.pc as int,
            OpcodeHandlerErr::CannotParseArg,
            r,
            s2,
            g2,
        ),
        Some((label, n1)) => match var_operand(s.code, n1) {
            None => failed_at(
                s,
                g,
                n1,
                OpcodeHandlerErr::CannotParseArg,
                r,
                s2,
                g2,
            ),
            Some((var, n2)) => stored_outcome(
                s,
                g,
                n2,
                var,
                CellValue::Integer(jump_target(label) as u32),
                r,
                s2,
                g2,
            ),
        },
    }
}

/// 0x000B `get_label_address <int> -> <var>`: stores the offset that a jump
/// to the label lands on, as an integer.
pub fn op_get_label_address(script: &mut Script, globals: &mut Globals) -> (r: Result<bool, OpcodeHandlerErr>)
    ensures
        label_address_done(old(script)@, old(globals)@, r, final(script)@, final(globals)@),
{
    let label = match script.parse_int() {
        Some(v) => v,
        None => {
            return Err(OpcodeHandlerErr::CannotParseArg);
        },
    };
    let var = match script.parse_var() {
        Some(v) => v,
        None => {
            return Err(OpcodeHandlerErr::CannotParseArg);
        },
    };
    let address: u32 = if label == 0 {
        0
    } else {
        0xFFFF_FFFFu32 - label + 1
    };
    match script.set_variable(&var, Value::Integer(address), globals) {
        Ok(()) => Ok(true),
        Err(e) => Err(e),
    }
}

/// The outcome of `op_allocate`.
pub open spec fn allocate_done(
    s: ScriptView,
    g: Seq<u32>,
    r: Result<bool, OpcodeHandlerErr>,
    s2: ScriptView,
    g2: Seq<u32>,
) -> bool {
    match int_operand(s.code, s.pc as int) {
        None => failed_at(
            s,
            g,
            s.pc as int,
            OpcodeHandlerErr::CannotParseArg,
            r,
            s2,
            g2,
        ),
        Some((size, n1)) => match var_operand(s.code, n1) {
            None => failed_at(
                s,
                g,
                n1,
                OpcodeHandlerErr::CannotParseArg,
                r,
                s2,
                g2,
            ),
            Some((var, n2)) => if s.blocks.len() >= 0xFFFF_FFFF {
                failed_at(
                    s,
                    g,
                    n2,
                    OpcodeHandlerErr::InvalidHandle,
                    r,
                    s2,
                    g2,
                )
            } else {
                stored_outcome(
                    ScriptView { blocks: s.blocks.push(Some(size)), ..s },
                    g,
                    n2,
                    var,
                    CellValue::Integer((s.blocks.len() + 1) as u32),
                    r,
                    s2,
                    g2,
                )
            },
        },
    }
}

/// 0x000C `allocate <int> -> <var>`: allocates a block of that many bytes
/// and stores its handle, as an integer.
pub fn op_allocate(script: &mut Script, globals: &mut Globals) -> (r: Result<bool, OpcodeHandlerErr>)
    ensures
        allocate_done(old(script)@, old(globals)@, r, final(script)@, final(globals)@),
{
    let size = match script.parse_int() {
        Some(v) => v,
        None => {
            return Err(OpcodeHandlerErr::CannotParseArg);
        },
    };
    let var = match script.parse_var() {
        Some(v) => v,
        None => {
            return Err(OpcodeHandlerErr::CannotParseArg);
        },
    };
    let handle = match script.allocate(size) {
        Ok(h) => h,
        Err(e) => {
            return Err(e);
        },
    };
    match script.set_variable(&var, Value::Integer(handle), globals) {
        Ok(()) => Ok(true),
        Err(e) => Err(e),
    }
}

/// The outcome of `op_deallocate`.
pub open spec fn deallocate_done(
    s: ScriptView,
    g: Seq<u32>,
    r: Result<bool, OpcodeHandlerErr>,
    s2: ScriptView,
) -> bool {
    match var_operand(s.code, s.pc as int) {
        None => r == Err::<bool, OpcodeHandlerErr>(OpcodeHandlerErr::CannotParseArg) && s2
            == s,
        Some((var, n1)) => match int_operand(s.code, n1) {
            None => r == Err::<bool, OpcodeHandlerErr>(OpcodeHandlerErr::CannotParseArg) && s2
                == at_pc(s, n1),
            Some((_, n2)) => match value_of(s, g, var) {
                None => r == Err::<bool, OpcodeHandlerErr>(OpcodeHandlerErr::CannotParseArg)
                    && s2 == at_pc(s, n2),
                Some(CellValue::Str(_)) => r == Err::<bool, OpcodeHandlerErr>(
                    OpcodeHandlerErr::NotCorrectType,
                ) && s2 == at_pc(s, n2),
                Some(v) => if v.bits() == 0 {
                    r == Ok::<bool, OpcodeHandlerErr>(false) && s2 == at_pc(s, n2)
                } else if live_block(s.blocks, v.bits()) {
                    r == Ok::<bool, OpcodeHandlerErr>(true) && s2 == (ScriptView {
                        blocks: s.blocks.update(v.bits() - 1, None),
                        ..at_pc(s, n2)
                    })
                } else {
                    r == Err::<bool, OpcodeHandlerErr>(OpcodeHandlerErr::InvalidHandle) && s2
                        == at_pc(s, n2)
                },
            },
        },
    }
}

/// 0x000D `deallocate <var> size <int>`: frees the block whose handle the
/// variable holds. A null handle frees nothing and gives `false`.
pub fn op_deallocate(script: &mut Script, globals: &Globals) -> (r: Result<bool, OpcodeHandlerErr>)
    ensures
        deallocate_done(old(script)@, globals@, r, final(script)@),
{
    let var = match script.parse_var() {
        Some(v) => v,
        None => {
            return Err(OpcodeHandlerErr::CannotParseArg);
        },
    };
    if script.parse_int().is_none() {
        return Err(OpcodeHandlerErr::CannotParseArg);
    }
    let handle = match script.get_variable(&var, globals) {
        Some(Value::Integer(h)) => h,
        Some(Value::Float(h)) => h,
        Some(Value::Str(_)) => {
            return Err(OpcodeHandlerErr::NotCorrectType);
        },
        None => {
            return Err(OpcodeHandlerErr::CannotParseArg);
        },
    };
    script.deallocate(handle)
}

/// The values of `count` operands read from `pc` on, and the offset after
/// them; or the error, and the offset at which reading stopped. An unknown
/// tag is refused here: an argument must have a value.
pub open spec fn bound_args(s: ScriptView, g: Seq<u32>, pc: int, count: nat) -> Result<
    (Seq<CellValue>, int),
    (OpcodeHandlerErr, int),
>
    decreases count,
{
    if count == 0 {
        Ok((Seq::empty(), pc))
    } else {
        match bound_args(s, g, pc, (count - 1) as nat) {
            Err(e) => Err(e),
            Ok((vals, p)) => match any_operand(s.code, p) {
                None => Err((OpcodeHandlerErr::CannotParseArg, p)),
                Some((a, n)) => match operand_value(s, g, a) {
                    None => Err(
                        (
                            if a is NoArg {
                                OpcodeHandlerErr::NotCorrectType
                            } else {
                                OpcodeHandlerErr::CannotParseArg
                            },
                            n,
                        ),
                    ),
                    Some(v) => Ok((vals.push(v), n)),
                },
            },
        }
    }
}

/// The state after storing `vals`, in order, into the variables whose
/// references follow the offset of `s`; or the error and the state in which
/// storing stopped.
pub open spec fn stored_all(s: ScriptView, g: Seq<u32>, vals: Seq<CellValue>) -> Result<
    (ScriptView, Seq<u32>),
    (OpcodeHandlerErr, ScriptView, Seq<u32>),
>
    decreases vals.len(),
{
    if vals.len() == 0 {
        Ok((s, g))
    } else {
        match var_operand(s.code, s.pc as int) {
            None => Err((OpcodeHandlerErr::CannotParseArg, s, g)),
            Some((var, n)) => match store(s.locals, g, var, vals[0]) {
                Err(e) => Err((e, at_pc(s, n), g)),
                Ok((locals, g1)) => stored_all(ScriptView { locals, ..at_pc(s, n) }, g1, vals.skip(1)),
            },
        }
    }
}

/// The state `s` with the program counter one byte on (where it can move).
pub open spec fn skip_one(s: ScriptView) -> ScriptView {
    ScriptView {
        pc: if s.pc < usize::MAX {
            (s.pc + 1) as usize
        } else {
            s.pc
        },
        ..s
    }
}

/// Once reading arguments has failed, reading more fails the same way.
proof fn lemma_bound_args_err(s: ScriptView, g: Seq<u32>, pc: int, k: nat, m: nat)
    requires
        k <= m,
        bound_args(s, g, pc, k) is Err,
    ensures
        bound_args(s, g, pc, m) == bound_args(s, g, pc, k),
    decreases m - k,
{
    if k < m {
        lemma_bound_args_err(s, g, pc, k, (m - 1) as nat);
    }
}

/// Reading arguments does not depend on where the program counter stands.
proof fn lemma_bound_args_at_pc(s: ScriptView, g: Seq<u32>, p: int, pc: int, count: nat)
    ensures
        bound_args(at_pc(s, p), g, pc, count) == bound_args(s, g, pc, count),
    decreases count,
{
    if count > 0 {
        lemma_bound_args_at_pc(s, g, p, pc, (count - 1) as nat);
    }
}

/// Reads `count` operands and their values.
fn read_args(script: &mut Script, globals: &Globals, count: u32) -> (r: Result<Vec<Value>, OpcodeHandlerErr>)
    ensures
        match bound_args(old(script)@, globals@, old(script)@.pc as int, count as nat) {
            Ok((vals, n)) => r.is_ok() && r.unwrap()@.len() == count && r.unwrap()@.map_values(|v: Value| v@)
                == vals && final(script)@ == at_pc(old(script)@, n),
            Err((e, p)) => r == Err::<Vec<Value>, OpcodeHandlerErr>(e) && final(script)@ == at_pc(
                old(script)@,
                p,
            ),
        },
{
    let mut vals: Vec<Value> = Vec::new();
    let mut i: u32 = 0;
    assert(vals@.map_values(|v: Value| v@) =~= Seq::<CellValue>::empty());
    while i < count
        invariant
            i <= count,
            script@ == at_pc(old(script)@, script@.pc as int),
            vals@.len() == i,
            bound_args(old(script)@, globals@, old(script)@.pc as int, i as nat) == Ok::<
                (Seq<CellValue>, int),
                (OpcodeHandlerErr, int),
            >((vals@.map_values(|v: Value| v@), script@.pc as int)),
        decreases count - i,
    {
        let arg = match script.parse_any_arg() {
            Some(a) => a,
            None => {
                proof {
                    let pc0 = old(script)@.pc as int;
                    lemma_bound_args_err(old(script)@, globals@, pc0, (i + 1) as nat, count as nat);
                }
                return Err(OpcodeHandlerErr::CannotParseArg);
            },
        };
        let no_arg = if let ArgType::NoArg = arg {
            true
        } else {
            false
        };
        match resolve(script, arg, globals) {
            Some(v) => {
                let ghost before = vals@.map_values(|v: Value| v@);
                vals.push(v);
                assert(vals@.map_values(|v: Value| v@) =~= before.push(vals@[i as int]@));
            },
            None => {
                proof {
                    let pc0 = old(script)@.pc as int;
                    lemma_bound_args_err(old(script)@, globals@, pc0, (i + 1) as nat, count as nat);
                }
                return Err(
                    if no_arg {
                        OpcodeHandlerErr::NotCorrectType
                    } else {
                        OpcodeHandlerErr::CannotParseArg
                    },
                );
            },
        }
        i = i + 1;
    }
    Ok(vals)
}

/// Stores `vals`, in order, into the variables whose references follow.
fn write_results(script: &mut Script, globals: &mut Globals, vals: &Vec<Value>) -> (r: Result<
    (),
    OpcodeHandlerErr,
>)
    ensures
        match stored_all(old(script)@, old(globals)@, vals@.map_values(|v: Value| v@)) {
            Ok((s1, g1)) => r.is_ok() && final(script)@ == s1 && final(globals)@ == g1,
            Err((e, s1, g1)) => r == Err::<(), OpcodeHandlerErr>(e) && final(script)@ == s1
                && final(globals)@ == g1,
        },
{
    let ghost all = vals@.map_values(|v: Value| v@);
    let mut i: usize = 0;
    assert(all.skip(0) =~= all);
    while i < vals.len()
        invariant
            i <= vals@.len(),
            all == vals@.map_values(|v: Value| v@),
            stored_all(old(script)@, old(globals)@, all) == stored_all(script@, globals@, all.skip(i as int)),
        decreases vals@.len() - i,
    {
        assert(all.skip(i as int)[0] == all[i as int]);
        assert(all.skip(i as int).skip(1) =~= all.skip(i + 1));
        let var = match script.parse_var() {
            Some(v) => v,
            None => {
                return Err(OpcodeHandlerErr::CannotParseArg);
            },
        };
        match script.set_variable(&var, vals[i].clone(), globals) {
            Ok(()) => {},
            Err(e) => {
                return Err(e);
            },
        }
        i = i + 1;
    }
    assert(all.skip(i as int) =~= Seq::<CellValue>::empty());
    Ok(())
}

/// The outcome of `op_call`.
pub open spec fn call_done(
    s: ScriptView,
    g: Seq<u32>,
    r: Result<bool, OpcodeHandlerErr>,
    s2: ScriptView,
) -> bool {
    match int_operand(s.code, s.pc as int) {
        None => r == Err::<bool, OpcodeHandlerErr>(OpcodeHandlerErr::CannotParseArg) && s2
            == s,
        Some((label, n1)) => match int_operand(s.code, n1) {
            None => r == Err::<bool, OpcodeHandlerErr>(OpcodeHandlerErr::CannotParseArg) && s2
                == at_pc(s, n1),
            Some((count, n2)) => if count > s.locals.len() {
                r == Err::<bool, OpcodeHandlerErr>(OpcodeHandlerErr::CannotParseArg) && s2
                    == at_pc(s, n2)
            } else {
                match bound_args(s, g, n2, count as nat) {
                    Err((e, p)) => r == Err::<bool, OpcodeHandlerErr>(e) && s2 == at_pc(
                        s,
                        p,
                    ),
                    Ok((vals, n3)) => r == Ok::<bool, OpcodeHandlerErr>(true) && s2 == (
                    ScriptView {
                        pc: jump_target(label),
                        locals: vals + s.locals.skip(count as int),
                        frames: s.frames.push(
                            FrameView {
                                saved: s.locals.take(count as int),
                                return_pc: n3 as usize,
                            },
                        ),
                        ..s
                    }),
                }
            },
        },
    }
}

/// 0x000E `call <label> args <n> <args...>`: binds the `n` argument values
/// to local cells `0..n` (values read before any cell changes), saving
/// those cells in a new frame that returns to the offset after the
/// arguments, and jumps to the label.
pub fn op_call(script: &mut Script, globals: &Globals) -> (r: Result<bool, OpcodeHandlerErr>)
    ensures
        call_done(old(script)@, globals@, r, final(script)@),
{
    let label = match script.parse_int() {
        Some(v) => v,
        None => {
            return Err(OpcodeHandlerErr::CannotParseArg);
        },
    };
    let count = match script.parse_int() {
        Some(v) => v,
        None => {
            return Err(OpcodeHandlerErr::CannotParseArg);
        },
    };
    if count as usize > script.local_count() {
        return Err(OpcodeHandlerErr::CannotParseArg);
    }
    proof {
        lemma_bound_args_at_pc(old(script)@, globals@, script@.pc as int, script@.pc as int, count as nat);
    }
    let args = match read_args(script, globals, count) {
        Ok(a) => a,
        Err(e) => {
            return Err(e);
        },
    };
    match script.enter_call(label, args) {
        Ok(()) => Ok(true),
        Err(e) => Err(e),
    }
}

/// The outcome of `op_ret`.
pub open spec fn ret_done(
    s: ScriptView,
    g: Seq<u32>,
    r: Result<bool, OpcodeHandlerErr>,
    s2: ScriptView,
    g2: Seq<u32>,
) -> bool {
    match int_operand(s.code, s.pc as int) {
        None => r == Err::<bool, OpcodeHandlerErr>(OpcodeHandlerErr::CannotParseArg) && s2
            == s && g2 == g,
        Some((count, n1)) => match bound_args(s, g, n1, count as nat) {
            Err((e, p)) => r == Err::<bool, OpcodeHandlerErr>(e) && s2 == at_pc(s, p)
                && g2 == g,
            Ok((vals, n2)) => if s.frames.len() == 0 {
                r == Err::<bool, OpcodeHandlerErr>(OpcodeHandlerErr::NoCallFrame) && s2 == at_pc(
                    s,
                    n2,
                ) && g2 == g
            } else {
                match stored_all(
                    ScriptView {
                        pc: s.frames.last().return_pc,
                        locals: restored(s.locals, s.frames.last().saved),
                        frames: s.frames.drop_last(),
                        ..s
                    },
                    g,
                    vals,
                ) {
                    Ok((s1, g1)) => r == Ok::<bool, OpcodeHandlerErr>(true) && s2 == skip_one(s1)
                        && g2 == g1,
                    Err((e, s1, g1)) => r == Err::<bool, OpcodeHandlerErr>(e) && s2 == s1 && g2 == g1,
                }
            },
        },
    }
}

/// 0x000F `ret <n> args <values...>`: reads the `n` return values while the
/// callee's locals are live, returns from the innermost call (restoring the
/// caller's locals and offset), stores the values into the `n` variables
/// whose references follow the call, and steps over the byte that ends them.
pub fn op_ret(script: &mut Script, globals: &mut Globals) -> (r: Result<bool, OpcodeHandlerErr>)
    ensures
        ret_done(old(script)@, old(globals)@, r, final(script)@, final(globals)@),
{
    let count = match script.parse_int() {
        Some(v) => v,
        None => {
            return Err(OpcodeHandlerErr::CannotParseArg);
        },
    };
    proof {
        lemma_bound_args_at_pc(old(script)@, globals@, script@.pc as int, script@.pc as int, count as nat);
    }
    let vals = match read_args(script, globals, count) {
        Ok(v) => v,
        Err(e) => {
            return Err(e);
        },
    };
    match script.return_from_call() {
        Ok(()) => {},
        Err(e) => {
            return Err(e);
        },
    }
    match write_results(script, globals, &vals) {
        Ok(()) => {},
        Err(e) => {
            return Err(e);
        },
    }
    script.skip_byte();
    Ok(true)
}

} // verus!
