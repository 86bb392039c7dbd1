use vstd::prelude::*;
use vstd::slice::slice_subrange;
use std::time::Instant;
use crate::bytes::{le16, read_le_u16};
use crate::clock::{elapsed_millis, now};
use crate::error::OpcodeHandlerErr;
use crate::globals::Globals;
use crate::parser::{
    any_operand, decode_any, decode_float, decode_int, decode_string, decode_var, float_operand,
    int_operand, string_operand, var_operand, ArgType, ArgView, LOCAL_COUNT,
};
use crate::variable::{CellValue, Value, VarInfo, Variable, VariableType};

verus! {

/// How the result of the next condition is combined with the current one.
#[derive(Debug, Clone, Copy, PartialEq, Eq, Structural)]
pub enum LogicalOpcode {
    /// The result replaces the conditional register.
    One,
    /// The result is AND-ed into it.
    And,
    /// The result is OR-ed into it.
    Or,
}

/// A call frame: the local cells that the call overwrote with its arguments
/// (slots `0..saved.len()`), and where execution resumes on return.
#[derive(Debug)]
pub struct Frame {
    pub saved: Vec<VarInfo>,
    pub return_pc: usize,
}

pub struct FrameView {
    pub saved: Seq<CellValue>,
    pub return_pc: usize,
}

impl View for Frame {
    type V = FrameView;

    open spec fn view(&self) -> FrameView {
        FrameView { saved: self.saved@.map_values(|v: VarInfo| v.value@), return_pc: self.return_pc }
    }
}

/// The state of a script thread in mathematical terms.
pub struct ScriptView {
    pub name: Seq<char>,
    /// The bytecode.
    pub code: Seq<u8>,
    /// The program counter: a byte offset into `code`.
    pub pc: usize,
    pub locals: Seq<CellValue>,
    /// The call stack, innermost frame last.
    pub frames: Seq<FrameView>,
    pub active: bool,
    pub done: bool,
    pub cond_result: bool,
    pub logical: LogicalOpcode,
    /// Set when the last fetched opcode word had its high bit set.
    pub not_flag: bool,
    /// Milliseconds to sleep, counted from the instant the wait was armed.
    pub wake_up: u32,
    /// Blocks handed out by `allocate`: their sizes, `None` once freed.
    pub blocks: Seq<Option<u32>>,
}

/// One script's execution state.
pub struct Script {
    name: String,
    bytes: Vec<u8>,
    offset: usize,
    local_vars: Vec<Value>,
    active: bool,
    done: bool,
    cond_result: bool,
    logical_opcode: LogicalOpcode,
    stack: Vec<Frame>,
    wake_up: u32,
    instant: Instant,
    not_flag: bool,
    blocks: Vec<Option<u32>>,
}

impl View for Script {
    type V = ScriptView;

    closed spec fn view(&self) -> ScriptView {
        ScriptView {
            name: self.name@,
            code: self.bytes@,
            pc: self.offset,
            locals: self.local_vars@.map_values(|v: Value| v@),
            frames: self.stack@.map_values(|f: Frame| f@),
            active: self.active,
            done: self.done,
            cond_result: self.cond_result,
            logical: self.logical_opcode,
            not_flag: self.not_flag,
            wake_up: self.wake_up,
            blocks: self.blocks@,
        }
    }
}

/// Where a jump to `address` lands: the two's-complement negation of the
/// address as an unsigned 32-bit value (`0xFFFFFFFF - address + 1`, modulo 2^32).
pub open spec fn jump_target(address: u32) -> usize {
    if address == 0 {
        0
    } else {
        (0x1_0000_0000int - address) as usize
    }
}

/// The opcode word at `pc`, read little-endian, if two bytes remain.
pub open spec fn opcode_word(code: Seq<u8>, pc: usize) -> Option<u16> {
    if pc + 2 <= code.len() {
        Some(le16(code[pc as int], code[pc + 1]) as u16)
    } else {
        None
    }
}

/// The opcode that a word dispatches as: the word without its NOT bit.
pub open spec fn dispatch_opcode(word: u16) -> u16 {
    if word >= 0x8000 {
        (word - 0x8000) as u16
    } else {
        word
    }
}

/// The conditional register after folding in a handler's `result`.
pub open spec fn fold_result(cond: bool, logical: LogicalOpcode, not_flag: bool, result: bool) -> bool {
    let r = result != not_flag;
    match logical {
        LogicalOpcode::One => r,
        LogicalOpcode::And => cond && r,
        LogicalOpcode::Or => cond || r,
    }
}

/// The value of the conditional register that starts a chain of conditions:
/// the identity of its combinator.
pub open spec fn chain_start(logical: LogicalOpcode) -> bool {
    logical != LogicalOpcode::Or
}

/// Whether the scheduler may run the script, given the whole milliseconds
/// elapsed since its wait was armed (`None`: not measurable).
pub open spec fn awake(s: ScriptView, elapsed: Option<i64>) -> bool {
    s.active && !s.done && match elapsed {
        Some(ms) => ms >= s.wake_up,
        None => false,
    }
}

/// The end of the bytes shown around an error: three past `pc`, at most the end.
pub open spec fn error_end(len: int, pc: int) -> int {
    if pc + 3 >= len {
        len
    } else {
        pc + 3
    }
}

/// The start of the bytes shown around an error: the opcode word before `pc`.
pub open spec fn error_start(len: int, pc: int) -> int {
    if pc < 2 {
        0
    } else if pc - 2 > error_end(len, pc) {
        error_end(len, pc)
    } else {
        pc - 2
    }
}

/// The value a variable reference reads: a local cell as it is, a global
/// cell as an integer.
pub open spec fn value_of(s: ScriptView, g: Seq<u32>, var: VariableType) -> Option<CellValue> {
    match var {
        VariableType::Local(i) => if i < s.locals.len() {
            Some(s.locals[i as int])
        } else {
            None
        },
        VariableType::Global(i) => if i < g.len() {
            Some(CellValue::Integer(g[i as int]))
        } else {
            None
        },
    }
}

/// Locals after returning from a frame that saved `saved`.
pub open spec fn restored(locals: Seq<CellValue>, saved: Seq<CellValue>) -> Seq<CellValue> {
    let k = if saved.len() <= locals.len() {
        saved.len()
    } else {
        locals.len()
    };
    saved.take(k as int) + locals.skip(k as int)
}

/// The offset after `count` operands of any kind from `pc`, if all decode.
pub open spec fn skipped(code: Seq<u8>, pc: int, count: nat) -> Option<int>
    decreases count,
{
    if count == 0 {
        Some(pc)
    } else {
        match any_operand(code, pc) {
            Some((_, n)) => skipped(code, n, (count - 1) as nat),
            None => None,
        }
    }
}

/// The offset of the first of `count` operands from `pc` that does not decode.
pub open spec fn stuck_at(code: Seq<u8>, pc: int, count: nat) -> int
    decreases count,
{
    if count == 0 {
        pc
    } else {
        match any_operand(code, pc) {
            Some((_, n)) => stuck_at(code, n, (count - 1) as nat),
            None => pc,
        }
    }
}

/// Whether `handle` names a block that was allocated and not yet freed.
pub open spec fn live_block(blocks: Seq<Option<u32>>, handle: u32) -> bool {
    1 <= handle <= blocks.len() && blocks[handle - 1] is Some
}

/// The local cells and the global table after storing `v` in `var`.
pub open spec fn store(locals: Seq<CellValue>, g: Seq<u32>, var: VariableType, v: CellValue) -> Result<
    (Seq<CellValue>, Seq<u32>),
    OpcodeHandlerErr,
> {
    match var {
        VariableType::Local(i) => if i < locals.len() {
            Ok((locals.update(i as int, v), g))
        } else {
            Err(OpcodeHandlerErr::CannotParseArg)
        },
        VariableType::Global(i) => if i >= g.len() {
            Err(OpcodeHandlerErr::CannotParseArg)
        } else if v is Str {
            Err(OpcodeHandlerErr::NotCorrectType)
        } else {
            Ok((locals, g.update(i as int, v.bits())))
        },
    }
}

/// The state of a script that has just been created: at offset 0, with 32
/// integer locals set to 0, active, not done, with an empty call stack, the
/// single-result combinator, no sleep and no blocks.
pub open spec fn fresh(v: ScriptView, name: Seq<char>, code: Seq<u8>) -> bool {
    v == ScriptView {
        name,
        code,
        pc: 0,
        locals: Seq::new(LOCAL_COUNT as nat, |i: int| CellValue::Integer(0)),
        frames: Seq::empty(),
        active: true,
        done: false,
        cond_result: false,
        logical: LogicalOpcode::One,
        not_flag: false,
        wake_up: 0,
        blocks: Seq::empty(),
    }
}

impl Script {
    /// A new script thread running `bytes`.
    pub fn new(name: &String, bytes: Vec<u8>) -> (r: Script)
        ensures
            fresh(r@, name@, bytes@),
    {
        let mut local_vars: Vec<Value> = Vec::new();
        let mut i: usize = 0;
        while i < LOCAL_COUNT
            invariant
                i <= LOCAL_COUNT,
                local_vars.len() == i,
                forall|k: int| 0 <= k < i ==> local_vars@[k]@ == CellValue::Integer(0),
            decreases LOCAL_COUNT - i,
        {
            local_vars.push(Value::Integer(0));
            i = i + 1;
        }
        assert(local_vars@.map_values(|v: Value| v@) =~= Seq::new(
            LOCAL_COUNT as nat,
            |i: int| CellValue::Integer(0),
        ));
        let r = Script {
            name: name.clone(),
            bytes,
            offset: 0,
            local_vars,
            active: true,
            done: false,
            cond_result: false,
            logical_opcode: LogicalOpcode::One,
            stack: Vec::new(),
            wake_up: 0,
            instant: now(),
            not_flag: false,
            blocks: Vec::new(),
        };
        assert(r@.frames =~= Seq::<FrameView>::empty());
        r
    }

    pub fn name(&self) -> (r: &String)
        ensures
            r@ == self@.name,
    {
        &self.name
    }

    pub fn bytes(&self) -> (r: &[u8])
        ensures
            r@ == self@.code,
    {
        self.bytes.as_slice()
    }

    pub fn offset(&self) -> (r: usize)
        ensures
            r == self@.pc,
    {
        self.offset
    }

    pub fn cond_result(&self) -> (r: bool)
        ensures
            r == self@.cond_result,
    {
        self.cond_result
    }

    pub fn logical_opcode(&self) -> (r: LogicalOpcode)
        ensures
            r == self@.logical,
    {
        self.logical_opcode
    }

    pub fn not_flag(&self) -> (r: bool)
        ensures
            r == self@.not_flag,
    {
        self.not_flag
    }

    /// False once the script was stopped for good.
    pub fn active(&self) -> (r: bool)
        ensures
            r == self@.active,
    {
        self.active
    }

    pub fn is_done(&self) -> (r: bool)
        ensures
            r == self@.done,
    {
        self.done
    }

    pub fn wake_up(&self) -> (r: u32)
        ensures
            r == self@.wake_up,
    {
        self.wake_up
    }

    pub fn local_count(&self) -> (r: usize)
        ensures
            r == self@.locals.len(),
    {
        self.local_vars.len()
    }

    pub fn stack_depth(&self) -> (r: usize)
        ensures
            r == self@.frames.len(),
    {
        self.stack.len()
    }

    /// Local cell `id`, with its slot number.
    pub fn local(&self, id: usize) -> (r: Option<Variable>)
        ensures
            match r {
                Some(v) => id < self@.locals.len() && v.id == id && v.value@ == self@.locals[id as int],
                None => id >= self@.locals.len(),
            },
    {
        if id < self.local_vars.len() {
            Some(Variable::new(self.local_vars[id].clone(), id))
        } else {
            None
        }
    }

    /// The offset and the bytes around it, for an error report: from the
    /// opcode word before the offset to three bytes after it.
    pub fn get_error(&self) -> (r: (usize, Vec<u8>))
        ensures
            r.0 == self@.pc,
            r.1@ == self@.code.subrange(
                error_start(self@.code.len() as int, self@.pc as int),
                error_end(self@.code.len() as int, self@.pc as int),
            ),
    {
        let len = self.bytes.len();
        let pc = self.offset;
        let end: usize = if pc >= len || len - pc <= 3 {
            len
        } else {
            pc + 3
        };
        let start: usize = if pc < 2 {
            0
        } else if pc - 2 > end {
            end
        } else {
            pc - 2
        };
        let mut out: Vec<u8> = Vec::new();
        let mut i: usize = start;
        while i < end
            invariant
                start <= i <= end <= len,
                len == self.bytes@.len(),
                out@ == self.bytes@.subrange(start as int, i as int),
            decreases end - i,
        {
            out.push(self.bytes[i]);
            i = i + 1;
            assert(out@ =~= self.bytes@.subrange(start as int, i as int));
        }
        (pc, out)
    }

    /// Fetches the opcode word at the offset and moves past it. The NOT flag
    /// records the word's high bit, and the opcode returned is the word
    /// without it. Fails, changing nothing, where fewer than two bytes remain.
    pub fn get_opcode(&mut self) -> (r: Option<u16>)
        ensures
            match opcode_word(old(self)@.code, old(self)@.pc) {
                Some(w) => r == Some(dispatch_opcode(w)) && final(self)@ == (ScriptView {
                    pc: (old(self)@.pc + 2) as usize,
                    not_flag: w >= 0x8000,
                    ..old(self)@
                }),
                None => r.is_none() && final(self)@ == old(self)@,
            },
    {
        let pc = self.offset;
        if pc >= self.bytes.len() || self.bytes.len() - pc < 2 {
            return None;
        }
        let word = read_le_u16(slice_subrange(self.bytes.as_slice(), pc, pc + 2));
        self.offset = pc + 2;
        if word >= 0x8000 {
            self.not_flag = true;
            Some(word - 0x8000)
        } else {
            self.not_flag = false;
            Some(word)
        }
    }

    /// Folds a handler's result into the conditional register, inverted
    /// first where the NOT flag is set.
    pub fn set_cond_result(&mut self, result: bool)
        ensures
            final(self)@ == (ScriptView {
                cond_result: fold_result(
                    old(self)@.cond_result,
                    old(self)@.logical,
                    old(self)@.not_flag,
                    result,
                ),
                ..old(self)@
            }),
    {
        let new = result != self.not_flag;
        match self.logical_opcode {
            LogicalOpcode::One => self.cond_result = new,
            LogicalOpcode::And => self.cond_result = self.cond_result && new,
            LogicalOpcode::Or => self.cond_result = self.cond_result || new,
        }
    }

    /// Selects how later results are combined; the register is left as it is.
    pub fn set_logical_opcode(&mut self, op: LogicalOpcode) -> (r: bool)
        ensures
            r,
            final(self)@ == (ScriptView { logical: op, ..old(self)@ }),
    {
        self.logical_opcode = op;
        true
    }

    /// Sets the conditional register.
    pub fn set_condition(&mut self, value: bool)
        ensures
            final(self)@ == (ScriptView { cond_result: value, ..old(self)@ }),
    {
        self.cond_result = value;
    }

    /// Sets the program counter per the jump arithmetic.
    pub fn jump_to(&mut self, address: u32) -> (r: bool)
        ensures
            r,
            final(self)@ == (ScriptView { pc: jump_target(address), ..old(self)@ }),
    {
        self.offset = if address == 0 {
            0
        } else {
            (0xFFFF_FFFFu32 - address) as usize + 1
        };
        true
    }

    /// Moves the program counter one byte on (past the end marker of a
    /// return-value list); it stays where it is at the largest offset.
    pub fn skip_byte(&mut self)
        ensures
            final(self)@ == (ScriptView {
                pc: if old(self)@.pc < usize::MAX { (old(self)@.pc + 1) as usize } else { old(self)@.pc },
                ..old(self)@
            }),
    {
        if self.offset < usize::MAX {
            self.offset = self.offset + 1;
        }
    }

    /// Arms the sleep timer: the script sleeps `time` milliseconds from now.
    pub fn set_wake_up(&mut self, time: u32) -> (r: bool)
        ensures
            r,
            final(self)@ == (ScriptView { wake_up: time, ..old(self)@ }),
    {
        self.wake_up = time;
        self.instant = now();
        true
    }

    /// Whether the script may run, given the milliseconds elapsed since its
    /// timer was armed.
    pub fn is_active_after(&self, elapsed: Option<i64>) -> (r: bool)
        ensures
            r == awake(self@, elapsed),
    {
        if !self.active || self.done {
            return false;
        }
        match elapsed {
            Some(ms) => ms >= self.wake_up as i64,
            None => false,
        }
    }

    /// The whole milliseconds since the script's wait was armed, by the
    /// clock; `None` where they are out of range.
    pub fn elapsed_ms(&self) -> Option<i64> {
        elapsed_millis(&self.instant)
    }

    /// Whether the script may run now: active, not done, and not asleep.
    pub fn is_active(&self) -> (r: bool)
        ensures
            exists|elapsed: Option<i64>| r == awake(self@, elapsed),
            r ==> self@.active && !self@.done,
    {
        let elapsed = elapsed_millis(&self.instant);
        let r = self.is_active_after(elapsed);
        assert(r == awake(self@, elapsed));
        r
    }

    /// Stops the script for good.
    pub fn deactivate(&mut self)
        ensures
            final(self)@ == (ScriptView { active: false, ..old(self)@ }),
    {
        self.active = false;
    }

    /// Marks the script as having run out of opcodes.
    pub fn mark_done(&mut self)
        ensures
            final(self)@ == (ScriptView { done: true, ..old(self)@ }),
    {
        self.done = true;
    }

    /// Reads an integer literal (tags 0x01, 0x04, 0x05) and moves past it.
    /// Fails, changing nothing, on another tag or too few bytes.
    pub fn parse_int(&mut self) -> (r: Option<u32>)
        ensures
            match int_operand(old(self)@.code, old(self)@.pc as int) {
                Some((v, n)) => r == Some(v) && final(self)@.pc == n && final(self)@ == (ScriptView {
                    pc: n as usize,
                    ..old(self)@
                }),
                None => r.is_none() && final(self)@ == old(self)@,
            },
    {
        match decode_int(self.bytes.as_slice(), self.offset) {
            Some((v, n)) => {
                self.offset = n;
                Some(v)
            },
            None => None,
        }
    }

    /// Reads a float literal (tag 0x06) as its bit pattern and moves past it.
    pub fn parse_float(&mut self) -> (r: Option<u32>)
        ensures
            match float_operand(old(self)@.code, old(self)@.pc as int) {
                Some((v, n)) => r == Some(v) && final(self)@.pc == n && final(self)@ == (ScriptView {
                    pc: n as usize,
                    ..old(self)@
                }),
                None => r.is_none() && final(self)@ == old(self)@,
            },
    {
        match decode_float(self.bytes.as_slice(), self.offset) {
            Some((v, n)) => {
                self.offset = n;
                Some(v)
            },
            None => None,
        }
    }

    /// Reads a length-prefixed UTF-8 string literal (tag 0x0E) and moves past it.
    pub fn parse_string(&mut self) -> (r: Option<String>)
        ensures
            match string_operand(old(self)@.code, old(self)@.pc as int) {
                Some((v, n)) => r.is_some() && r.unwrap()@ == v && final(self)@.pc == n
                    && final(self)@ == (ScriptView {
                    pc: n as usize,
                    ..old(self)@
                }),
                None => r.is_none() && final(self)@ == old(self)@,
            },
    {
        match decode_string(self.bytes.as_slice(), self.offset) {
            Some((v, n)) => {
                self.offset = n;
                Some(v)
            },
            None => None,
        }
    }

    /// Reads a variable reference (tag 0x02 global, 0x03 local) and moves
    /// past it. A local reference must name one of the 32 local cells.
    pub fn parse_var(&mut self) -> (r: Option<VariableType>)
        ensures
            match var_operand(old(self)@.code, old(self)@.pc as int) {
                Some((v, n)) => r == Some(v) && final(self)@.pc == n && final(self)@ == (ScriptView {
                    pc: n as usize,
                    ..old(self)@
                }),
                None => r.is_none() && final(self)@ == old(self)@,
            },
    {
        match decode_var(self.bytes.as_slice(), self.offset) {
            Some((v, n)) => {
                self.offset = n;
                Some(v)
            },
            None => None,
        }
    }

    /// Reads an operand of any kind. An unknown tag gives `ArgType::NoArg`
    /// and consumes nothing.
    pub fn parse_any_arg(&mut self) -> (r: Option<ArgType>)
        ensures
            match any_operand(old(self)@.code, old(self)@.pc as int) {
                Some((v, n)) => r.is_some() && r.unwrap()@ == v && final(self)@.pc == n
                    && final(self)@ == (ScriptView {
                    pc: n as usize,
                    ..old(self)@
                }),
                None => r.is_none() && final(self)@ == old(self)@,
            },
    {
        match decode_any(self.bytes.as_slice(), self.offset) {
            Some((v, n)) => {
                self.offset = n;
                Some(v)
            },
            None => None,
        }
    }

    /// Skips `count` operands of any kind; false where one cannot be read,
    /// with the offset left at that operand.
    pub fn skip_args(&mut self, count: usize) -> (r: bool)
        ensures
            r == skipped(old(self)@.code, old(self)@.pc as int, count as nat).is_some(),
            match skipped(old(self)@.code, old(self)@.pc as int, count as nat) {
                Some(n) => final(self)@ == (ScriptView { pc: n as usize, ..old(self)@ }),
                None => final(self)@.pc as int == stuck_at(old(self)@.code, old(self)@.pc as int, count as nat)
                    && final(self)@ == (ScriptView { pc: final(self)@.pc, ..old(self)@ }),
            },
    {
        let mut i: usize = 0;
        while i < count
            invariant
                i <= count,
                self@ == (ScriptView { pc: self@.pc, ..old(self)@ }),
                skipped(old(self)@.code, old(self)@.pc as int, count as nat) == skipped(
                    old(self)@.code,
                    self@.pc as int,
                    (count - i) as nat,
                ),
                stuck_at(old(self)@.code, old(self)@.pc as int, count as nat) == stuck_at(
                    old(self)@.code,
                    self@.pc as int,
                    (count - i) as nat,
                ),
            decreases count - i,
        {
            let ghost pc0 = self@.pc as int;
            let ghost code = self@.code;
            match self.parse_any_arg() {
                Some(_) => {},
                None => {
                    return false;
                },
            }
            let ghost left = (count - i) as nat;
            assert(skipped(code, pc0, left) == skipped(code, self@.pc as int, (left - 1) as nat));
            assert(stuck_at(code, pc0, left) == stuck_at(code, self@.pc as int, (left - 1) as nat));
            i = i + 1;
        }
        true
    }

    /// The value that `var` reads: a local cell as it is, a global cell as
    /// an integer; `None` for a cell that does not exist.
    pub fn get_variable(&self, var: &VariableType, globals: &Globals) -> (r: Option<Value>)
        ensures
            match value_of(self@, globals@, *var) {
                Some(v) => r.is_some() && r.unwrap()@ == v,
                None => r.is_none(),
            },
    {
        match var {
            VariableType::Local(i) => {
                if *i < self.local_vars.len() {
                    Some(self.local_vars[*i].clone())
                } else {
                    None
                }
            },
            VariableType::Global(i) => match globals.get(*i) {
                Some(v) => Some(Value::Integer(v)),
                None => None,
            },
        }
    }

    /// Stores `value` in the cell that `var` names. A local cell takes the
    /// value with its kind; a global cell takes the 32-bit payload of an
    /// integer or a float and cannot hold a string.
    pub fn set_variable(&mut self, var: &VariableType, value: Value, globals: &mut Globals) -> (r: Result<
        (),
        OpcodeHandlerErr,
    >)
        ensures
            match store(old(self)@.locals, old(globals)@, *var, value@) {
                Ok((locals, g)) => r.is_ok() && final(self)@ == (ScriptView { locals, ..old(self)@ })
                    && final(globals)@ == g,
                Err(e) => r == Err::<(), OpcodeHandlerErr>(e) && final(self)@ == old(self)@ && final(globals)@
                    == old(globals)@,
            },
    {
        match var {
            VariableType::Local(i) => {
                if *i < self.local_vars.len() {
                    self.set_local(*i, value);
                    Ok(())
                } else {
                    Err(OpcodeHandlerErr::CannotParseArg)
                }
            },
            VariableType::Global(i) => {
                if *i >= globals.len() {
                    return Err(OpcodeHandlerErr::CannotParseArg);
                }
                let bits = match value {
                    Value::Integer(v) => v,
                    Value::Float(v) => v,
                    Value::Str(_) => {
                        return Err(OpcodeHandlerErr::NotCorrectType);
                    },
                };
                globals.set(*i, bits);
                Ok(())
            },
        }
    }

    /// Replaces local cell `i`.
    pub fn set_local(&mut self, i: usize, value: Value)
        requires
            i < old(self)@.locals.len(),
        ensures
            final(self)@ == (ScriptView { locals: old(self)@.locals.update(i as int, value@), ..old(self)@ }),
    {
        let ghost v = value@;
        self.local_vars.set(i, value);
        assert(self@.locals =~= old(self)@.locals.update(i as int, v));
    }

    /// Enters a call with `args` bound to local cells `0..args.len()`: saves
    /// those cells in a new frame that returns to the current offset, puts
    /// the arguments in their place, and jumps to `label`. There cannot be
    /// more arguments than local cells.
    pub fn enter_call(&mut self, label: u32, args: Vec<Value>) -> (r: Result<(), OpcodeHandlerErr>)
        ensures
            args@.len() <= old(self)@.locals.len() ==> r.is_ok() && final(self)@ == (ScriptView {
                pc: jump_target(label),
                locals: args@.map_values(|v: Value| v@) + old(self)@.locals.skip(args@.len() as int),
                frames: old(self)@.frames.push(
                    FrameView { saved: old(self)@.locals.take(args@.len() as int), return_pc: old(self)@.pc },
                ),
                ..old(self)@
            }),
            args@.len() > old(self)@.locals.len() ==> r == Err::<(), OpcodeHandlerErr>(
                OpcodeHandlerErr::CannotParseArg,
            ) && final(self)@ == old(self)@,
    {
        let n = args.len();
        let len = self.local_vars.len();
        if n > len {
            return Err(OpcodeHandlerErr::CannotParseArg);
        }
        let ghost bound = args@.map_values(|v: Value| v@);
        let mut saved: Vec<VarInfo> = Vec::new();
        let mut i: usize = 0;
        while i < n
            invariant
                i <= n <= len,
                len == self.local_vars@.len(),
                saved@.len() == i,
                forall|k: int| 0 <= k < i ==> #[trigger] saved@[k].value@ == self.local_vars@[k]@,
            decreases n - i,
        {
            saved.push(VarInfo { value: self.local_vars[i].clone() });
            i = i + 1;
        }
        let mut locals = args;
        let mut j: usize = n;
        while j < len
            invariant
                n <= j <= len,
                len == self.local_vars@.len(),
                locals@.len() == j,
                forall|k: int| 0 <= k < n ==> #[trigger] locals@[k]@ == bound[k],
                forall|k: int| n <= k < j ==> #[trigger] locals@[k]@ == self.local_vars@[k]@,
            decreases len - j,
        {
            locals.push(self.local_vars[j].clone());
            j = j + 1;
        }
        let ghost before = self@;
        self.stack.push(Frame { saved, return_pc: self.offset });
        self.local_vars = locals;
        self.jump_to(label);
        assert(self@.locals =~= bound + before.locals.skip(n as int));
        assert(self@.frames[self@.frames.len() - 1].saved =~= before.locals.take(n as int));
        assert(self@.frames =~= before.frames.push(
            FrameView { saved: before.locals.take(n as int), return_pc: before.pc },
        ));
        Ok(())
    }

    /// Returns from the innermost call: pops its frame, restores the local
    /// cells that it saved and resumes at its return offset.
    pub fn return_from_call(&mut self) -> (r: Result<(), OpcodeHandlerErr>)
        ensures
            old(self)@.frames.len() == 0 ==> r == Err::<(), OpcodeHandlerErr>(OpcodeHandlerErr::NoCallFrame)
                && final(self)@ == old(self)@,
            old(self)@.frames.len() > 0 ==> r.is_ok() && final(self)@ == (ScriptView {
                pc: old(self)@.frames.last().return_pc,
                locals: restored(old(self)@.locals, old(self)@.frames.last().saved),
                frames: old(self)@.frames.drop_last(),
                ..old(self)@
            }),
    {
        let ghost before = self@;
        let frame = match self.stack.pop() {
            Some(f) => f,
            None => {
                return Err(OpcodeHandlerErr::NoCallFrame);
            },
        };
        assert(frame@ == before.frames.last());
        let len = self.local_vars.len();
        let k: usize = if frame.saved.len() <= len {
            frame.saved.len()
        } else {
            len
        };
        let mut locals: Vec<Value> = Vec::new();
        let mut i: usize = 0;
        while i < k
            invariant
                i <= k <= len,
                k <= frame.saved@.len(),
                len == self.local_vars@.len(),
                locals@.len() == i,
                forall|m: int| 0 <= m < i ==> #[trigger] locals@[m]@ == frame.saved@[m].value@,
            decreases k - i,
        {
            locals.push(frame.saved[i].value.clone());
            i = i + 1;
        }
        let mut j: usize = k;
        while j < len
            invariant
                k <= j <= len,
                len == self.local_vars@.len(),
                locals@.len() == j,
                forall|m: int| 0 <= m < k ==> #[trigger] locals@[m]@ == frame.saved@[m].value@,
                forall|m: int| k <= m < j ==> #[trigger] locals@[m]@ == self.local_vars@[m]@,
            decreases len - j,
        {
            locals.push(self.local_vars[j].clone());
            j = j + 1;
        }
        self.local_vars = locals;
        self.offset = frame.return_pc;
        assert(self@.locals =~= restored(before.locals, before.frames.last().saved));
        assert(self@.frames =~= before.frames.drop_last());
        Ok(())
    }

    /// Allocates a block of `size` bytes and returns its handle (never 0).
    pub fn allocate(&mut self, size: u32) -> (r: Result<u32, OpcodeHandlerErr>)
        ensures
            old(self)@.blocks.len() < 0xFFFF_FFFF ==> r == Ok::<u32, OpcodeHandlerErr>(
                (old(self)@.blocks.len() + 1) as u32,
            ) && final(self)@ == (ScriptView { blocks: old(self)@.blocks.push(Some(size)), ..old(self)@ }),
            old(self)@.blocks.len() >= 0xFFFF_FFFF ==> r == Err::<u32, OpcodeHandlerErr>(
                OpcodeHandlerErr::InvalidHandle,
            ) && final(self)@ == old(self)@,
    {
        if self.blocks.len() >= 0xFFFF_FFFF {
            return Err(OpcodeHandlerErr::InvalidHandle);
        }
        self.blocks.push(Some(size));
        Ok(self.blocks.len() as u32)
    }

    /// Frees the block with handle `handle`: `Ok(false)` for the null handle,
    /// an error for a handle that names no live block (freed twice, or never
    /// handed out).
    pub fn deallocate(&mut self, handle: u32) -> (r: Result<bool, OpcodeHandlerErr>)
        ensures
            handle == 0 ==> r == Ok::<bool, OpcodeHandlerErr>(false) && final(self)@ == old(self)@,
            handle != 0 && live_block(old(self)@.blocks, handle) ==> r == Ok::<bool, OpcodeHandlerErr>(true)
                && final(self)@ == (ScriptView {
                blocks: old(self)@.blocks.update(handle - 1, None),
                ..old(self)@
            }),
            handle != 0 && !live_block(old(self)@.blocks, handle) ==> r == Err::<bool, OpcodeHandlerErr>(
                OpcodeHandlerErr::InvalidHandle,
            ) && final(self)@ == old(self)@,
    {
        if handle == 0 {
            return Ok(false);
        }
        let i = (handle - 1) as usize;
        if i < self.blocks.len() && self.blocks[i].is_some() {
            self.blocks.set(i, None);
            Ok(true)
        } else {
            Err(OpcodeHandlerErr::InvalidHandle)
        }
    }
}

} // verus!
