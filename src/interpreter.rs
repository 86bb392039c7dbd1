//! The untyped script thread: every variable, local or global, is a raw
//! 32-bit integer cell, and the opcode decides how to read it.

use vstd::prelude::*;
use vstd::slice::slice_subrange;
use std::time::Instant;
use crate::bytes::read_le_u16;
use crate::clock::{elapsed_millis, now};
use crate::globals::Globals;
use crate::parser::{
    any_operand, decode_any, decode_float, decode_int, decode_string, decode_var, float_operand,
    int_operand, string_operand, var_operand, ArgType, LOCAL_COUNT, TAG_FLOAT, TAG_GLOBAL, TAG_INT16,
    TAG_INT32, TAG_INT8, TAG_LOCAL, TAG_STRING,
};
use crate::script::{dispatch_opcode, fold_result, jump_target, opcode_word, LogicalOpcode};
use crate::variable::VariableType;

verus! {

/// A variable reference of the untyped thread.
#[derive(Debug, Clone, Copy, PartialEq, Eq, Structural)]
pub enum Variable {
    Global(usize),
    Local(usize),
}

/// The kind of operand that a tag announces.
#[derive(Debug, Clone, Copy, PartialEq, Eq, Structural)]
pub enum ArgKind {
    NoArg,
    Integer,
    Float,
    Variable,
    String,
}

/// The kind of the operand at `pc`, by its tag; `NoArg` for an unknown tag
/// or a position past the end.
pub open spec fn arg_kind(code: Seq<u8>, pc: int) -> ArgKind {
    if 0 <= pc < code.len() {
        let tag = code[pc];
        if tag == TAG_INT32 || tag == TAG_INT8 || tag == TAG_INT16 {
            ArgKind::Integer
        } else if tag == TAG_GLOBAL || tag == TAG_LOCAL {
            ArgKind::Variable
        } else if tag == TAG_FLOAT {
            ArgKind::Float
        } else if tag == TAG_STRING {
            ArgKind::String
        } else {
            ArgKind::NoArg
        }
    } else {
        ArgKind::NoArg
    }
}

pub struct ThreadView {
    pub code: Seq<u8>,
    pub pc: usize,
    pub locals: Seq<i32>,
    pub active: bool,
    pub cond_result: bool,
    pub logical: LogicalOpcode,
    pub not_flag: bool,
    pub wake_up: u32,
}

/// A script thread whose variables are raw 32-bit integers.
pub struct ScriptThread {
    bytes: Vec<u8>,
    offset: usize,
    local_vars: Vec<i32>,
    active: bool,
    condition_result: bool,
    logical_opcode: LogicalOpcode,
    wake_up: u32,
    instant: Instant,
    not_flag: bool,
}

impl View for ScriptThread {
    type V = ThreadView;

    closed spec fn view(&self) -> ThreadView {
        ThreadView {
            code: self.bytes@,
            pc: self.offset,
            locals: self.local_vars@,
            active: self.active,
            cond_result: self.condition_result,
            logical: self.logical_opcode,
            not_flag: self.not_flag,
            wake_up: self.wake_up,
        }
    }
}

/// The thread state `t` with the program counter at `pc`.
pub open spec fn thread_at(t: ThreadView, pc: int) -> ThreadView {
    ThreadView { pc: pc as usize, ..t }
}

/// What a variable reference reads: the cell as a signed integer.
pub open spec fn thread_value(t: ThreadView, g: Seq<u32>, var: Variable) -> Option<i32> {
    match var {
        Variable::Local(i) => if i < t.locals.len() {
            Some(t.locals[i as int])
        } else {
            None
        },
        Variable::Global(i) => if i < g.len() {
            Some(g[i as int] as i32)
        } else {
            None
        },
    }
}

/// Whether the thread may run, given the whole milliseconds elapsed since
/// its timer was armed (`None`: not measurable).
pub open spec fn thread_awake(t: ThreadView, elapsed: Option<i64>) -> bool {
    t.active && match elapsed {
        Some(ms) => ms >= t.wake_up,
        None => false,
    }
}

impl ScriptThread {
    /// A thread at offset 0 with 32 zeroed locals, active, with the
    /// single-result combinator.
    pub fn new(bytes: Vec<u8>) -> (r: ScriptThread)
        ensures
            r@ == (ThreadView {
                code: bytes@,
                pc: 0,
                locals: Seq::new(LOCAL_COUNT as nat, |i: int| 0i32),
                active: true,
                cond_result: false,
                logical: LogicalOpcode::One,
                not_flag: false,
                wake_up: 0,
            }),
    {
        let mut local_vars: Vec<i32> = Vec::new();
        let mut i: usize = 0;
        while i < LOCAL_COUNT
            invariant
                i <= LOCAL_COUNT,
                local_vars@ == Seq::new(i as nat, |k: int| 0i32),
            decreases LOCAL_COUNT - i,
        {
            local_vars.push(0);
            i = i + 1;
            assert(local_vars@ =~= Seq::new(i as nat, |k: int| 0i32));
        }
        ScriptThread {
            bytes,
            offset: 0,
            local_vars,
            active: true,
            condition_result: false,
            logical_opcode: LogicalOpcode::One,
            wake_up: 0,
            instant: now(),
            not_flag: false,
        }
    }

    pub fn offset(&self) -> (r: usize)
        ensures
            r == self@.pc,
    {
        self.offset
    }

    pub fn condition_result(&self) -> (r: bool)
        ensures
            r == self@.cond_result,
    {
        self.condition_result
    }

    /// Fetches the opcode word at the offset, as `Script::get_opcode` does.
    pub fn get_opcode(&mut self) -> (r: Option<u16>)
        ensures
            match opcode_word(old(self)@.code, old(self)@.pc) {
                Some(w) => r == Some(dispatch_opcode(w)) && final(self)@ == (ThreadView {
                    pc: (old(self)@.pc + 2) as usize,
                    not_flag: w >= 0x8000,
                    ..old(self)@
                }),
                None => r.is_none() && final(self)@ == old(self)@,
            },
    {
        let pc = self.offset;
        if pc >= self.bytes.len() || self.bytes.len() - pc < 2 {
            return None;
        }
        let word = read_le_u16(slice_subrange(self.bytes.as_slice(), pc, pc + 2));
        self.offset = pc + 2;
        if word >= 0x8000 {
            self.not_flag = true;
            Some(word - 0x8000)
        } else {
            self.not_flag = false;
            Some(word)
        }
    }

    /// Folds a handler's result into the conditional register, inverted
    /// first where the NOT flag is set.
    pub fn set_conditional_result(&mut self, result: bool)
        ensures
            final(self)@ == (ThreadView {
                cond_result: fold_result(old(self)@.cond_result, old(self)@.logical, old(self)@.not_flag, result),
                ..old(self)@
            }),
    {
        let new = result != self.not_flag;
        match self.logical_opcode {
            LogicalOpcode::One => self.condition_result = new,
            LogicalOpcode::And => self.condition_result = self.condition_result && new,
            LogicalOpcode::Or => self.condition_result = self.condition_result || new,
        }
    }

    /// Selects the combinator and sets the register to true.
    pub fn set_logical_opcode(&mut self, op: LogicalOpcode) -> (r: bool)
        ensures
            r,
            final(self)@ == (ThreadView { logical: op, cond_result: true, ..old(self)@ }),
    {
        self.condition_result = true;
        self.logical_opcode = op;
        true
    }

    /// Reads an integer literal, as a signed value.
    pub fn parse_int(&mut self) -> (r: Option<i32>)
        ensures
            match int_operand(old(self)@.code, old(self)@.pc as int) {
                Some((v, n)) => r == Some(v as i32) && final(self)@.pc == n && final(self)@ == thread_at(
                    old(self)@,
                    n,
                ),
                None => r.is_none() && final(self)@ == old(self)@,
            },
    {
        match decode_int(self.bytes.as_slice(), self.offset) {
            Some((v, n)) => {
                self.offset = n;
                Some(v as i32)
            },
            None => None,
        }
    }

    /// Reads a float literal, as its bit pattern.
    pub fn parse_float(&mut self) -> (r: Option<u32>)
        ensures
            match float_operand(old(self)@.code, old(self)@.pc as int) {
                Some((v, n)) => r == Some(v) && final(self)@.pc == n && final(self)@ == thread_at(old(self)@, n),
                None => r.is_none() && final(self)@ == old(self)@,
            },
    {
        match decode_float(self.bytes.as_slice(), self.offset) {
            Some((v, n)) => {
                self.offset = n;
                Some(v)
            },
            None => None,
        }
    }

    /// Reads a length-prefixed UTF-8 string literal.
    pub fn parse_string(&mut self) -> (r: Option<String>)
        ensures
            match string_operand(old(self)@.code, old(self)@.pc as int) {
                Some((v, n)) => r.is_some() && r.unwrap()@ == v && final(self)@.pc == n && final(self)@
                    == thread_at(old(self)@, n),
                None => r.is_none() && final(self)@ == old(self)@,
            },
    {
        match decode_string(self.bytes.as_slice(), self.offset) {
            Some((v, n)) => {
                self.offset = n;
                Some(v)
            },
            None => None,
        }
    }

    /// Reads a variable reference.
    pub fn parse_variable(&mut self) -> (r: Option<Variable>)
        ensures
            match var_operand(old(self)@.code, old(self)@.pc as int) {
                Some((v, n)) => final(self)@.pc == n && final(self)@ == thread_at(old(self)@, n) && r == Some(
                    match v {
                        VariableType::Global(i) => Variable::Global(i),
                        VariableType::Local(i) => Variable::Local(i),
                    },
                ),
                None => r.is_none() && final(self)@ == old(self)@,
            },
    {
        match decode_var(self.bytes.as_slice(), self.offset) {
            Some((v, n)) => {
                self.offset = n;
                Some(
                    match v {
                        VariableType::Global(i) => Variable::Global(i),
                        VariableType::Local(i) => Variable::Local(i),
                    },
                )
            },
            None => None,
        }
    }

    /// The kind of the operand at the offset, read from its tag without
    /// consuming it.
    pub fn get_arg_type(&self) -> (r: ArgKind)
        ensures
            r == arg_kind(self@.code, self@.pc as int),
    {
        if self.offset >= self.bytes.len() {
            return ArgKind::NoArg;
        }
        let tag = self.bytes[self.offset];
        if tag == TAG_INT32 || tag == TAG_INT8 || tag == TAG_INT16 {
            ArgKind::Integer
        } else if tag == TAG_GLOBAL || tag == TAG_LOCAL {
            ArgKind::Variable
        } else if tag == TAG_FLOAT {
            ArgKind::Float
        } else if tag == TAG_STRING {
            ArgKind::String
        } else {
            ArgKind::NoArg
        }
    }

    /// Reads an operand of any kind; an unknown tag gives `ArgType::NoArg`.
    pub fn get_any_arg(&mut self) -> (r: Option<ArgType>)
        ensures
            match any_operand(old(self)@.code, old(self)@.pc as int) {
                Some((v, n)) => r.is_some() && r.unwrap()@ == v && final(self)@.pc == n && final(self)@
                    == thread_at(old(self)@, n),
                None => r.is_none() && final(self)@ == old(self)@,
            },
    {
        match decode_any(self.bytes.as_slice(), self.offset) {
            Some((v, n)) => {
                self.offset = n;
                Some(v)
            },
            None => None,
        }
    }

    /// The value of a variable; `None` for a cell that does not exist.
    pub fn get_variable(&self, var: &Variable, globals: &Globals) -> (r: Option<i32>)
        ensures
            r == thread_value(self@, globals@, *var),
    {
        match var {
            Variable::Global(id) => match globals.get(*id) {
                Some(v) => Some(v as i32),
                None => None,
            },
            Variable::Local(id) => {
                if *id < self.local_vars.len() {
                    Some(self.local_vars[*id])
                } else {
                    None
                }
            },
        }
    }

    /// Stores `value` in a variable; false for a cell that does not exist.
    pub fn set_variable(&mut self, var: &Variable, value: i32, globals: &mut Globals) -> (r: bool)
        ensures
            match *var {
                Variable::Global(i) => r == (i < old(globals)@.len()) && final(self)@ == old(self)@
                    && final(globals)@ == if r {
                    old(globals)@.update(i as int, value as u32)
                } else {
                    old(globals)@
                },
                Variable::Local(i) => r == (i < old(self)@.locals.len()) && final(globals)@ == old(globals)@
                    && final(self)@ == if r {
                    ThreadView { locals: old(self)@.locals.update(i as int, value), ..old(self)@ }
                } else {
                    old(self)@
                },
            },
    {
        match var {
            Variable::Global(id) => globals.set(*id, value as u32),
            Variable::Local(id) => {
                if *id < self.local_vars.len() {
                    self.local_vars.set(*id, value);
                    true
                } else {
                    false
                }
            },
        }
    }

    /// Arms the sleep timer: `time` milliseconds from now.
    pub fn set_wake_up(&mut self, time: u32)
        ensures
            final(self)@ == (ThreadView { wake_up: time, ..old(self)@ }),
    {
        self.wake_up = time;
        self.instant = now();
    }

    /// Whether the thread may run, given the milliseconds elapsed since its
    /// timer was armed.
    pub fn is_active_after(&self, elapsed: Option<i64>) -> (r: bool)
        ensures
            r == thread_awake(self@, elapsed),
    {
        if !self.active {
            return false;
        }
        match elapsed {
            Some(ms) => ms >= self.wake_up as i64,
            None => false,
        }
    }

    /// Whether the thread may run now: active and not asleep.
    pub fn is_active(&self) -> (r: bool)
        ensures
            exists|elapsed: Option<i64>| r == thread_awake(self@, elapsed),
            r ==> self@.active,
    {
        let elapsed = elapsed_millis(&self.instant);
        let r = self.is_active_after(elapsed);
        assert(r == thread_awake(self@, elapsed));
        r
    }

    /// Sets the program counter per the jump arithmetic.
    pub fn jump_to(&mut self, address: u32)
        ensures
            final(self)@ == (ThreadView { pc: jump_target(address), ..old(self)@ }),
    {
        self.offset = if address == 0 {
            0
        } else {
            (0xFFFF_FFFFu32 - address) as usize + 1
        };
    }
}

} // verus!
