use vstd::prelude::*;
use crate::error::OpcodeHandlerErr;
use crate::globals::Globals;
use crate::opcodes::{
    allocate_done, assign_done, call_done, compare_done, deallocate_done, if_done, jump_done,
    jump_if_false_done, label_address_done, math_done, nop_done, op_allocate, op_assign, op_call,
    op_compare, op_deallocate, op_get_label_address, op_if, op_jump, op_jump_if_false, op_math,
    op_nop, op_print, op_ret, op_wait, print_done, ret_done, wait_done, CmpOp, Host, MathOp, Printed,
    PrintedView,
};
use crate::script::{
    awake, dispatch_opcode, error_end, error_start, fold_result, fresh, opcode_word, Script, ScriptView,
};

verus! {

/// What runs an opcode: one of the built-in handlers, or one that the
/// application registered, by its number.
#[derive(Debug, Clone, Copy, PartialEq, Eq, Structural)]
pub enum Handler {
    Nop,
    Wait,
    Jump,
    Assign,
    Math(MathOp),
    If,
    JumpIfFalse,
    Print,
    GetLabelAddress,
    Allocate,
    Deallocate,
    Call,
    Ret,
    Compare(CmpOp),
    Host(u32),
}

/// What running `h` does to a script, the global table and the printed
/// output. Of a handler of the application nothing is known.
pub open spec fn handled(
    h: Handler,
    s: ScriptView,
    g: Seq<u32>,
    o: Seq<PrintedView>,
    r: Result<bool, OpcodeHandlerErr>,
    s2: ScriptView,
    g2: Seq<u32>,
    o2: Seq<PrintedView>,
) -> bool {
    match h {
        Handler::Nop => nop_done(s, r, s2) && g2 == g && o2 == o,
        Handler::Wait => wait_done(s, r, s2) && g2 == g && o2 == o,
        Handler::Jump => jump_done(s, r, s2) && g2 == g && o2 == o,
        Handler::Assign => assign_done(s, g, r, s2, g2) && o2 == o,
        Handler::Math(op) => math_done(op, s, g, r, s2, g2) && o2 == o,
        Handler::If => if_done(s, r, s2) && g2 == g && o2 == o,
        Handler::JumpIfFalse => jump_if_false_done(s, r, s2) && g2 == g && o2 == o,
        Handler::Print => print_done(s, g, o, r, s2, o2) && g2 == g,
        Handler::GetLabelAddress => label_address_done(s, g, r, s2, g2) && o2 == o,
        Handler::Allocate => allocate_done(s, g, r, s2, g2) && o2 == o,
        Handler::Deallocate => deallocate_done(s, g, r, s2) && g2 == g && o2 == o,
        Handler::Call => call_done(s, g, r, s2) && g2 == g && o2 == o,
        Handler::Ret => ret_done(s, g, r, s2, g2) && o2 == o,
        Handler::Compare(op) => compare_done(op, s, g, r, s2) && g2 == g && o2 == o,
        Handler::Host(_) => true,
    }
}

pub open spec fn printed_view(out: Seq<Printed>) -> Seq<PrintedView> {
    out.map_values(|p: Printed| p@)
}

/// Runs handler `h` on `script`.
pub fn execute<H: Host>(
    h: Handler,
    script: &mut Script,
    globals: &mut Globals,
    host: &mut H,
    out: &mut Vec<Printed>,
) -> (r: Result<bool, OpcodeHandlerErr>)
    ensures
        handled(
            h,
            old(script)@,
            old(globals)@,
            printed_view(old(out)@),
            r,
            final(script)@,
            final(globals)@,
            printed_view(final(out)@),
        ),
{
    match h {
        Handler::Nop => op_nop(script),
        Handler::Wait => op_wait(script),
        Handler::Jump => op_jump(script),
        Handler::Assign => op_assign(script, globals),
        Handler::Math(op) => op_math(op, script, globals, host),
        Handler::If => op_if(script),
        Handler::JumpIfFalse => op_jump_if_false(script),
        Handler::Print => op_print(script, globals, out),
        Handler::GetLabelAddress => op_get_label_address(script, globals),
        Handler::Allocate => op_allocate(script, globals),
        Handler::Deallocate => op_deallocate(script, globals),
        Handler::Call => op_call(script, globals),
        Handler::Ret => op_ret(script, globals),
        Handler::Compare(op) => op_compare(op, script, globals, host),
        Handler::Host(id) => host.run_handler(id, script, globals),
    }
}

/// What one step of a script did.
#[derive(Debug, Clone, Copy)]
pub enum Step {
    /// No opcode was left: the script is done.
    Finished,
    /// The opcode has no handler: the script was stopped.
    Undefined(u16),
    /// The opcode's handler ran with this result.
    Ran(u16, Result<bool, OpcodeHandlerErr>),
}

/// The handler registered for `opcode`.
pub open spec fn handler_at(handlers: Seq<Option<Handler>>, opcode: u16) -> Option<Handler> {
    if opcode < handlers.len() {
        handlers[opcode as int]
    } else {
        None
    }
}

/// The script after fetching opcode word `w`.
pub open spec fn fetched(s: ScriptView, w: u16) -> ScriptView {
    ScriptView { pc: (s.pc + 2) as usize, not_flag: w >= 0x8000, ..s }
}

/// The script after folding a handler's result into its conditional
/// register; an error leaves the register as it is.
pub open spec fn folded(s: ScriptView, r: Result<bool, OpcodeHandlerErr>) -> ScriptView {
    match r {
        Ok(b) => ScriptView { cond_result: fold_result(s.cond_result, s.logical, s.not_flag, b), ..s },
        Err(_) => s,
    }
}

/// One step of a script under the opcode table `handlers`: the script, the
/// global table and the printed output before (`s`, `g`, `o`) and after
/// (`s2`, `g2`, `o2`), and what the step reports.
pub open spec fn stepped(
    handlers: Seq<Option<Handler>>,
    s: ScriptView,
    g: Seq<u32>,
    o: Seq<PrintedView>,
    r: Step,
    s2: ScriptView,
    g2: Seq<u32>,
    o2: Seq<PrintedView>,
) -> bool {
    match opcode_word(s.code, s.pc) {
        None => r == Step::Finished && s2 == (ScriptView { done: true, ..s }) && g2 == g && o2 == o,
        Some(w) => match handler_at(handlers, dispatch_opcode(w)) {
            None => r == Step::Undefined(dispatch_opcode(w)) && s2 == (ScriptView {
                active: false,
                ..fetched(s, w)
            }) && g2 == g && o2 == o,
            Some(h) => exists|res: Result<bool, OpcodeHandlerErr>, sh: ScriptView|
                r == Step::Ran(dispatch_opcode(w), res) && #[trigger] handled(
                    h,
                    fetched(s, w),
                    g,
                    o,
                    res,
                    sh,
                    g2,
                    o2,
                ) && s2 == folded(sh, res),
        },
    }
}

/// Runs one opcode of `script`: fetches it, marks the script done where
/// none is left, stops it where the opcode has no handler, and otherwise
/// runs the handler and folds its result into the conditional register.
pub fn step<H: Host>(
    script: &mut Script,
    handlers: &Vec<Option<Handler>>,
    globals: &mut Globals,
    host: &mut H,
    out: &mut Vec<Printed>,
) -> (r: Step)
    ensures
        stepped(
            handlers@,
            old(script)@,
            old(globals)@,
            printed_view(old(out)@),
            r,
            final(script)@,
            final(globals)@,
            printed_view(final(out)@),
        ),
{
    let opcode = match script.get_opcode() {
        Some(op) => op,
        None => {
            script.mark_done();
            return Step::Finished;
        },
    };
    let h = if (opcode as usize) < handlers.len() {
        handlers[opcode as usize]
    } else {
        None
    };
    match h {
        None => {
            script.deactivate();
            Step::Undefined(opcode)
        },
        Some(h) => {
            let res = execute(h, script, globals, host, out);
            let ghost s = script@;
            match res {
                Ok(b) => script.set_cond_result(b),
                Err(_) => {},
            }
            assert(handled(
                h,
                fetched(old(script)@, opcode_word(old(script)@.code, old(script)@.pc).unwrap()),
                old(globals)@,
                printed_view(old(out)@),
                res,
                s,
                globals@,
                printed_view(out@),
            ));
            Step::Ran(opcode, res)
        },
    }
}

/// Something that a tick reports to the application.
#[derive(Debug)]
pub enum Event {
    /// A script printed.
    Printed { script: String, what: Printed },
    /// A handler failed; the script goes on at its current offset next tick.
    Failed { script: String, opcode: u16, offset: usize, bytes: Vec<u8>, error: OpcodeHandlerErr },
    /// A script reached an opcode with no handler and was stopped.
    UndefinedOpcode { script: String, opcode: u16, offset: usize, bytes: Vec<u8> },
}

/// An event in mathematical terms.
pub enum EventView {
    Printed { script: Seq<char>, what: PrintedView },
    Failed { script: Seq<char>, opcode: u16, offset: usize, bytes: Seq<u8>, error: OpcodeHandlerErr },
    UndefinedOpcode { script: Seq<char>, opcode: u16, offset: usize, bytes: Seq<u8> },
}

impl View for Event {
    type V = EventView;

    open spec fn view(&self) -> EventView {
        match self {
            Event::Printed { script, what } => EventView::Printed { script: script@, what: what@ },
            Event::Failed { script, opcode, offset, bytes, error } => EventView::Failed {
                script: script@,
                opcode: *opcode,
                offset: *offset,
                bytes: bytes@,
                error: *error,
            },
            Event::UndefinedOpcode { script, opcode, offset, bytes } => EventView::UndefinedOpcode {
                script: script@,
                opcode: *opcode,
                offset: *offset,
                bytes: bytes@,
            },
        }
    }
}

pub open spec fn events_view(events: Seq<Event>) -> Seq<EventView> {
    events.map_values(|e: Event| e@)
}

/// The bytes that an error report shows around the offset of `s`.
pub open spec fn error_bytes(s: ScriptView) -> Seq<u8> {
    s.code.subrange(error_start(s.code.len() as int, s.pc as int), error_end(s.code.len() as int, s.pc as int))
}

/// What a script named `name` printed, as events.
pub open spec fn printed_events(name: Seq<char>, o: Seq<PrintedView>) -> Seq<EventView> {
    o.map_values(|p: PrintedView| EventView::Printed { script: name, what: p })
}

/// The events of one step that left the script in state `s2`, reported
/// `r` and printed `o`: the printed values, then the failure, if any.
pub open spec fn step_events(s2: ScriptView, r: Step, o: Seq<PrintedView>) -> Seq<EventView> {
    printed_events(s2.name, o) + match r {
        Step::Undefined(op) => seq![
            EventView::UndefinedOpcode { script: s2.name, opcode: op, offset: s2.pc, bytes: error_bytes(s2) },
        ],
        Step::Ran(op, res) => match res {
            Err(e) => seq![
                EventView::Failed {
                    script: s2.name,
                    opcode: op,
                    offset: s2.pc,
                    bytes: error_bytes(s2),
                    error: e,
                },
            ],
            Ok(_) => Seq::empty(),
        },
        Step::Finished => Seq::empty(),
    }
}

/// Number of entries of the opcode table: one for every 16-bit opcode.
pub const OPCODE_COUNT: usize = 0x10000;

/// The virtual machine: the shared global table, the scripts in the order
/// they were added, and the opcode table.
pub struct VirtualMachine {
    globals: Globals,
    scripts: Vec<Script>,
    handlers: Vec<Option<Handler>>,
}

pub struct VmView {
    pub globals: Seq<u32>,
    pub scripts: Seq<ScriptView>,
    pub handlers: Seq<Option<Handler>>,
}

impl View for VirtualMachine {
    type V = VmView;

    closed spec fn view(&self) -> VmView {
        VmView {
            globals: self.globals@,
            scripts: self.scripts@.map_values(|s: Script| s@),
            handlers: self.handlers@,
        }
    }
}

/// The index of the first script named `name`.
pub open spec fn first_named(scripts: Seq<ScriptView>, name: Seq<char>) -> Option<int>
    decreases scripts.len(),
{
    if scripts.len() == 0 {
        None
    } else {
        match first_named(scripts.drop_last(), name) {
            Some(i) => Some(i),
            None => if scripts.last().name == name {
                Some(scripts.len() - 1)
            } else {
                None
            },
        }
    }
}

/// The handler that the default set installs for `opcode`.
pub open spec fn default_handler(opcode: int) -> Option<Handler> {
    if opcode == 0x00 {
        Some(Handler::Nop)
    } else if opcode == 0x01 {
        Some(Handler::Wait)
    } else if opcode == 0x02 {
        Some(Handler::Jump)
    } else if opcode == 0x03 {
        Some(Handler::Assign)
    } else if opcode == 0x04 {
        Some(Handler::Math(MathOp::Add))
    } else if opcode == 0x05 {
        Some(Handler::Math(MathOp::Sub))
    } else if opcode == 0x06 {
        Some(Handler::Math(MathOp::Mul))
    } else if opcode == 0x07 {
        Some(Handler::Math(MathOp::Div))
    } else if opcode == 0x08 {
        Some(Handler::If)
    } else if opcode == 0x09 {
        Some(Handler::JumpIfFalse)
    } else if opcode == 0x0A {
        Some(Handler::Print)
    } else if opcode == 0x0B {
        Some(Handler::GetLabelAddress)
    } else if opcode == 0x0C {
        Some(Handler::Allocate)
    } else if opcode == 0x0D {
        Some(Handler::Deallocate)
    } else if opcode == 0x0E {
        Some(Handler::Call)
    } else if opcode == 0x0F {
        Some(Handler::Ret)
    } else if opcode == 0x10 {
        Some(Handler::Compare(CmpOp::Eq))
    } else if opcode == 0x11 {
        Some(Handler::Compare(CmpOp::Ne))
    } else if opcode == 0x12 {
        Some(Handler::Compare(CmpOp::Gt))
    } else if opcode == 0x13 {
        Some(Handler::Compare(CmpOp::Lt))
    } else if opcode == 0x14 {
        Some(Handler::Compare(CmpOp::Ge))
    } else if opcode == 0x15 {
        Some(Handler::Compare(CmpOp::Le))
    } else {
        None
    }
}

/// Number of opcodes in the default set (0x0000 to 0x0015).
pub const DEFAULT_OPCODE_COUNT: u16 = 0x16;

fn default_handler_of(opcode: u16) -> (r: Option<Handler>)
    ensures
        r == default_handler(opcode as int),
{
    match opcode {
        0x00 => Some(Handler::Nop),
        0x01 => Some(Handler::Wait),
        0x02 => Some(Handler::Jump),
        0x03 => Some(Handler::Assign),
        0x04 => Some(Handler::Math(MathOp::Add)),
        0x05 => Some(Handler::Math(MathOp::Sub)),
        0x06 => Some(Handler::Math(MathOp::Mul)),
        0x07 => Some(Handler::Math(MathOp::Div)),
        0x08 => Some(Handler::If),
        0x09 => Some(Handler::JumpIfFalse),
        0x0A => Some(Handler::Print),
        0x0B => Some(Handler::GetLabelAddress),
        0x0C => Some(Handler::Allocate),
        0x0D => Some(Handler::Deallocate),
        0x0E => Some(Handler::Call),
        0x0F => Some(Handler::Ret),
        0x10 => Some(Handler::Compare(CmpOp::Eq)),
        0x11 => Some(Handler::Compare(CmpOp::Ne)),
        0x12 => Some(Handler::Compare(CmpOp::Gt)),
        0x13 => Some(Handler::Compare(CmpOp::Lt)),
        0x14 => Some(Handler::Compare(CmpOp::Ge)),
        0x15 => Some(Handler::Compare(CmpOp::Le)),
        _ => None,
    }
}

/// Installs the built-in handlers of opcodes 0x0000 to 0x0015.
pub trait DefaultOpcodes {
    fn set_default_opcodes(&mut self);
}

impl DefaultOpcodes for VirtualMachine {
    fn set_default_opcodes(&mut self)
        ensures
            final(self)@.globals == old(self)@.globals,
            final(self)@.scripts == old(self)@.scripts,
            final(self)@.handlers.len() == old(self)@.handlers.len(),
            forall|op: int|
                0 <= op < old(self)@.handlers.len() ==> #[trigger] final(self)@.handlers[op]
                    == match default_handler(op) {
                    Some(h) => Some(h),
                    None => old(self)@.handlers[op],
                },
    {
        let mut op: u16 = 0;
        while op < DEFAULT_OPCODE_COUNT
            invariant
                op <= DEFAULT_OPCODE_COUNT,
                self@.globals == old(self)@.globals,
                self@.scripts == old(self)@.scripts,
                self@.handlers.len() == old(self)@.handlers.len(),
                forall|k: int|
                    0 <= k < old(self)@.handlers.len() ==> #[trigger] self@.handlers[k] == if k < op {
                        match default_handler(k) {
                            Some(h) => Some(h),
                            None => old(self)@.handlers[k],
                        }
                    } else {
                        old(self)@.handlers[k]
                    },
            decreases DEFAULT_OPCODE_COUNT - op,
        {
            match default_handler_of(op) {
                Some(h) => self.set_handler(op, h),
                None => {},
            }
            op = op + 1;
        }
    }
}

impl VirtualMachine {
    /// An empty machine: a zeroed global table, no scripts, no handlers.
    pub fn new() -> (r: VirtualMachine)
        ensures
            r@.globals == Seq::new(0x10000, |i: int| 0u32),
            r@.scripts.len() == 0,
            r@.handlers == Seq::new(OPCODE_COUNT as nat, |i: int| None::<Handler>),
    {
        let mut handlers: Vec<Option<Handler>> = Vec::new();
        let mut i: usize = 0;
        while i < OPCODE_COUNT
            invariant
                i <= OPCODE_COUNT,
                handlers@ == Seq::new(i as nat, |k: int| None::<Handler>),
            decreases OPCODE_COUNT - i,
        {
            handlers.push(None);
            i = i + 1;
            assert(handlers@ =~= Seq::new(i as nat, |k: int| None::<Handler>));
        }
        let r = VirtualMachine { globals: Globals::new(), scripts: Vec::new(), handlers };
        assert(r@.scripts =~= Seq::<ScriptView>::empty());
        r
    }

    /// Registers `handler` for `opcode`, replacing any earlier one.
    pub fn set_handler(&mut self, opcode: u16, handler: Handler)
        ensures
            final(self)@.globals == old(self)@.globals,
            final(self)@.scripts == old(self)@.scripts,
            final(self)@.handlers == if (opcode as int) < old(self)@.handlers.len() {
                old(self)@.handlers.update(opcode as int, Some(handler))
            } else {
                old(self)@.handlers
            },
    {
        if (opcode as usize) < self.handlers.len() {
            self.handlers.set(opcode as usize, Some(handler));
        }
    }

    /// The handler registered for `opcode`.
    pub fn handler(&self, opcode: u16) -> (r: Option<Handler>)
        ensures
            r == handler_at(self@.handlers, opcode),
    {
        if (opcode as usize) < self.handlers.len() {
            self.handlers[opcode as usize]
        } else {
            None
        }
    }

    pub fn globals(&self) -> (r: &Globals)
        ensures
            r@ == self@.globals,
    {
        &self.globals
    }

    pub fn script_count(&self) -> (r: usize)
        ensures
            r == self@.scripts.len(),
    {
        self.scripts.len()
    }

    /// The script at position `i`, in the order of scheduling.
    pub fn script_at(&self, i: usize) -> (r: Option<&Script>)
        ensures
            match r {
                Some(s) => i < self@.scripts.len() && s@ == self@.scripts[i as int],
                None => i >= self@.scripts.len(),
            },
    {
        if i < self.scripts.len() {
            Some(&self.scripts[i])
        } else {
            None
        }
    }

    fn find(&self, name: &String) -> (r: Option<usize>)
        ensures
            match first_named(self@.scripts, name@) {
                Some(i) => r.is_some() && r.unwrap() == i && i < self@.scripts.len(),
                None => r.is_none(),
            },
    {
        proof {
            lemma_first_named_bounds(self@.scripts, name@);
        }
        let mut i: usize = 0;
        while i < self.scripts.len()
            invariant
                i <= self.scripts@.len(),
                first_named(self@.scripts.take(i as int), name@).is_none(),
            decreases self.scripts@.len() - i,
        {
            assert(self@.scripts.take(i + 1).drop_last() =~= self@.scripts.take(i as int));
            if self.scripts[i].name().eq(name) {
                proof {
                    lemma_first_named_prefix(self@.scripts, name@, i + 1);
                }
                return Some(i);
            }
            i = i + 1;
        }
        assert(self@.scripts.take(i as int) =~= self@.scripts);
        None
    }

    /// Adds a script named `name`; a script of the same name is replaced in
    /// its place.
    pub fn append_script(&mut self, name: String, bytes: Vec<u8>)
        ensures
            final(self)@.globals == old(self)@.globals,
            final(self)@.handlers == old(self)@.handlers,
            match first_named(old(self)@.scripts, name@) {
                Some(i) => final(self)@.scripts.len() == old(self)@.scripts.len() && fresh(
                    final(self)@.scripts[i],
                    name@,
                    bytes@,
                ) && final(self)@.scripts == old(self)@.scripts.update(i, final(self)@.scripts[i]),
                None => final(self)@.scripts.len() == old(self)@.scripts.len() + 1 && fresh(
                    final(self)@.scripts.last(),
                    name@,
                    bytes@,
                ) && final(self)@.scripts.drop_last() == old(self)@.scripts,
            },
    {
        let script = Script::new(&name, bytes);
        match self.find(&name) {
            Some(i) => {
                self.scripts.set(i, script);
                assert(self@.scripts =~= old(self)@.scripts.update(i as int, self@.scripts[i as int]));
            },
            None => {
                self.scripts.push(script);
                assert(self@.scripts.drop_last() =~= old(self)@.scripts);
            },
        }
    }

    /// Whether the script named `name` has run out of opcodes; false where
    /// there is no such script.
    pub fn is_done(&self, name: String) -> (r: bool)
        ensures
            r == match first_named(self@.scripts, name@) {
                Some(i) => self@.scripts[i].done,
                None => false,
            },
    {
        match self.find(&name) {
            Some(i) => {
                assert(self@.scripts[i as int] == self.scripts@[i as int]@);
                self.scripts[i].is_done()
            },
            None => false,
        }
    }
}

/// The script that `first_named` finds exists and carries the name.
proof fn lemma_first_named_bounds(scripts: Seq<ScriptView>, name: Seq<char>)
    ensures
        match first_named(scripts, name) {
            Some(i) => 0 <= i < scripts.len() && scripts[i].name == name,
            None => true,
        },
    decreases scripts.len(),
{
    if scripts.len() > 0 {
        lemma_first_named_bounds(scripts.drop_last(), name);
    }
}

/// A script found by `first_named` in a prefix is the one found in the whole.
proof fn lemma_first_named_prefix(scripts: Seq<ScriptView>, name: Seq<char>, k: int)
    requires
        0 <= k <= scripts.len(),
        first_named(scripts.take(k), name) is Some,
    ensures
        first_named(scripts, name) == first_named(scripts.take(k), name),
    decreases scripts.len() - k,
{
    if k < scripts.len() {
        assert(scripts.take(k + 1).drop_last() =~= scripts.take(k));
        lemma_first_named_prefix(scripts, name, k + 1);
    } else {
        assert(scripts.take(k) =~= scripts);
    }
}

/// Turns what a step printed and how it ended into events.
fn report(script: &Script, result: Step, out: Vec<Printed>, events: &mut Vec<Event>)
    ensures
        events_view(final(events)@) == events_view(old(events)@) + step_events(
            script@,
            result,
            printed_view(out@),
        ),
{
    let ghost ov = printed_view(out@);
    let ghost name = script@.name;
    let mut out = out;
    let ghost mut i: int = 0;
    while out.len() > 0
        invariant
            0 <= i <= ov.len(),
            name == script@.name,
            printed_view(out@) == ov.skip(i),
            events_view(events@) == events_view(old(events)@) + printed_events(name, ov.take(i)),
        decreases out@.len(),
    {
        let ghost before_out = out@;
        let ghost before_events = events_view(events@);
        assert(printed_view(before_out).len() == before_out.len());
        assert(ov.skip(i)[0] == ov[i]);
        assert(printed_view(before_out)[0] == ov[i]);
        let what = out.remove(0);
        events.push(Event::Printed { script: script.name().clone(), what });
        assert(printed_view(out@) =~= ov.skip(i + 1)) by {
            assert forall|k: int| 0 <= k < out@.len() implies printed_view(out@)[k] == ov.skip(i + 1)[k] by {
                assert(out@[k] == before_out[k + 1]);
                assert(printed_view(out@)[k] == out@[k]@);
                assert(printed_view(before_out)[k + 1] == before_out[k + 1]@);
                assert(printed_view(before_out)[k + 1] == ov.skip(i)[k + 1]);
                assert(ov.skip(i)[k + 1] == ov.skip(i + 1)[k]);
            }
        }
        assert(events_view(events@) =~= before_events.push(EventView::Printed { script: name, what: ov[i] }));
        assert(printed_events(name, ov.take(i + 1)) =~= printed_events(name, ov.take(i)).push(
            EventView::Printed { script: name, what: ov[i] },
        ));
        proof {
            i = i + 1;
        }
    }
    assert(ov.take(i) =~= ov) by {
        assert(ov.skip(i).len() == 0);
    }
    let ghost mid = events_view(events@);
    match result {
        Step::Finished => {},
        Step::Undefined(opcode) => {
            let (offset, bytes) = script.get_error();
            events.push(Event::UndefinedOpcode { script: script.name().clone(), opcode, offset, bytes });
        },
        Step::Ran(_, Ok(_)) => {},
        Step::Ran(opcode, Err(error)) => {
            let (offset, bytes) = script.get_error();
            events.push(Event::Failed { script: script.name().clone(), opcode, offset, bytes, error });
        },
    }
    assert(events_view(events@) =~= mid + (step_events(script@, result, ov).skip(ov.len() as int)));
    assert(step_events(script@, result, ov) =~= printed_events(name, ov) + step_events(script@, result, ov).skip(
        ov.len() as int,
    ));
}

/// One script's part of a tick, given the milliseconds elapsed since its
/// wait was armed: an awake script takes exactly one step from global table
/// `g` to `g2` and reports that step's events `ev`; any other is left as
/// it was, with the table, and reports nothing.
pub open spec fn tick_link(
    handlers: Seq<Option<Handler>>,
    s: ScriptView,
    elapsed: Option<i64>,
    g: Seq<u32>,
    s2: ScriptView,
    g2: Seq<u32>,
    ev: Seq<EventView>,
) -> bool {
    if awake(s, elapsed) {
        exists|r: Step, o: Seq<PrintedView>|
            #[trigger] stepped(handlers, s, g, Seq::empty(), r, s2, g2, o) && ev == step_events(s2, r, o)
    } else {
        s2 == s && g2 == g && ev == Seq::<EventView>::empty()
    }
}

/// The reading of the clock for script `j`; `None` where there is none.
pub open spec fn reading(elapsed: Seq<Option<i64>>, j: int) -> Option<i64> {
    if 0 <= j < elapsed.len() {
        elapsed[j]
    } else {
        None
    }
}

/// The scripts `before` become `after` in one tick, in order: script `j`
/// runs on global table `gs[j]`, leaves `gs[j + 1]` and reports `evs[j]`.
pub open spec fn tick_run(
    handlers: Seq<Option<Handler>>,
    before: Seq<ScriptView>,
    elapsed: Seq<Option<i64>>,
    after: Seq<ScriptView>,
    gs: Seq<Seq<u32>>,
    evs: Seq<Seq<EventView>>,
) -> bool {
    &&& after.len() == before.len()
    &&& gs.len() == before.len() + 1
    &&& evs.len() == before.len()
    &&& forall|j: int|
        0 <= j < before.len() ==> #[trigger] tick_link(
            handlers,
            before[j],
            reading(elapsed, j),
            gs[j],
            after[j],
            gs[j + 1],
            evs[j],
        )
}

/// The events of all scripts, in script order.
pub open spec fn all_events(evs: Seq<Seq<EventView>>) -> Seq<EventView>
    decreases evs.len(),
{
    if evs.len() == 0 {
        Seq::empty()
    } else {
        all_events(evs.drop_last()) + evs.last()
    }
}

/// A whole tick: the scripts `before` become `after`, the global table
/// goes from `g` to `g2` through the scripts in order, and `events` are
/// the scripts' events in order.
pub open spec fn tick_outcome(
    handlers: Seq<Option<Handler>>,
    before: Seq<ScriptView>,
    elapsed: Seq<Option<i64>>,
    after: Seq<ScriptView>,
    g: Seq<u32>,
    g2: Seq<u32>,
    events: Seq<EventView>,
) -> bool {
    exists|gs: Seq<Seq<u32>>, evs: Seq<Seq<EventView>>|
        #[trigger] tick_run(handlers, before, elapsed, after, gs, evs) && gs[0] == g && gs.last() == g2
            && events == all_events(evs)
}

impl VirtualMachine {
    /// One scheduling pass: every script that is active, not done and not
    /// asleep runs one opcode, in the order the scripts were added. A
    /// failure stays with its script; the returned events say what was
    /// printed and what failed.
    pub fn tick<H: Host>(&mut self, host: &mut H) -> (r: Vec<Event>)
        ensures
            final(self)@.handlers == old(self)@.handlers,
            final(self)@.scripts.len() == old(self)@.scripts.len(),
            exists|elapsed: Seq<Option<i64>>|
                #[trigger] tick_outcome(
                    old(self)@.handlers,
                    old(self)@.scripts,
                    elapsed,
                    final(self)@.scripts,
                    old(self)@.globals,
                    final(self)@.globals,
                    events_view(r@),
                ),
    {
        let mut elapsed: Vec<Option<i64>> = Vec::new();
        let mut i: usize = 0;
        while i < self.scripts.len()
            decreases self.scripts@.len() - i,
        {
            elapsed.push(self.scripts[i].elapsed_ms());
            i = i + 1;
        }
        let r = self.tick_after(host, &elapsed);
        assert(tick_outcome(
            old(self)@.handlers,
            old(self)@.scripts,
            elapsed@,
            self@.scripts,
            old(self)@.globals,
            self@.globals,
            events_view(r@),
        ));
        r
    }

    /// The scheduling pass of `tick`, with the milliseconds elapsed since
    /// each script's wait was armed given: `elapsed[j]` for script `j`.
    pub fn tick_after<H: Host>(&mut self, host: &mut H, elapsed: &Vec<Option<i64>>) -> (r: Vec<Event>)
        ensures
            final(self)@.handlers == old(self)@.handlers,
            final(self)@.scripts.len() == old(self)@.scripts.len(),
            tick_outcome(
                old(self)@.handlers,
                old(self)@.scripts,
                elapsed@,
                final(self)@.scripts,
                old(self)@.globals,
                final(self)@.globals,
                events_view(r@),
            ),
    {
        let ghost before = old(self)@.scripts;
        let ghost handlers = old(self)@.handlers;
        let mut rest: Vec<Script> = Vec::new();
        std::mem::swap(&mut self.scripts, &mut rest);
        let mut ran: Vec<Script> = Vec::new();
        let mut events: Vec<Event> = Vec::new();
        let ghost mut gs: Seq<Seq<u32>> = seq![old(self)@.globals];
        let ghost mut evs: Seq<Seq<EventView>> = Seq::empty();
        assert(events_view(events@) =~= all_events(evs));
        while rest.len() > 0
            invariant
                ran@.len() + rest@.len() == before.len(),
                self.handlers@ == handlers,
                handlers == old(self)@.handlers,
                forall|k: int| 0 <= k < rest@.len() ==> #[trigger] rest@[k]@ == before[ran@.len() + k],
                gs.len() == ran@.len() + 1,
                evs.len() == ran@.len(),
                gs[0] == old(self)@.globals,
                gs.last() == self.globals@,
                events_view(events@) == all_events(evs),
                forall|k: int|
                    0 <= k < ran@.len() ==> #[trigger] tick_link(
                        handlers,
                        before[k],
                        reading(elapsed@, k),
                        gs[k],
                        ran@[k]@,
                        gs[k + 1],
                        evs[k],
                    ),
            decreases rest@.len(),
        {
            let k0 = ran.len();
            let ghost rest0 = rest@;
            let ghost ran0 = ran@;
            let ghost gs0 = gs;
            let ghost evs0 = evs;
            let ghost g0 = self.globals@;
            let ghost events0 = events_view(events@);
            let mut script = rest.remove(0);
            assert(script@ == before[k0 as int]);
            let e = if k0 < elapsed.len() {
                elapsed[k0]
            } else {
                None
            };
            let ghost ev: Seq<EventView> = Seq::empty();
            if script.is_active_after(e) {
                let mut out: Vec<Printed> = Vec::new();
                let result = step(&mut script, &self.handlers, &mut self.globals, host, &mut out);
                assert(printed_view(Seq::<Printed>::empty()) =~= Seq::<PrintedView>::empty());
                let ghost o = printed_view(out@);
                assert(stepped(handlers, before[k0 as int], g0, Seq::empty(), result, script@, self.globals@, o));
                report(&script, result, out, &mut events);
                proof {
                    ev = step_events(script@, result, o);
                }
            } else {
                assert(events_view(events@) =~= events0 + ev);
            }
            ran.push(script);
            proof {
                gs = gs.push(self.globals@);
                evs = evs.push(ev);
                assert(evs.drop_last() =~= evs0);
                assert(tick_link(
                    handlers,
                    before[k0 as int],
                    reading(elapsed@, k0 as int),
                    gs[k0 as int],
                    ran@[k0 as int]@,
                    gs[k0 + 1],
                    evs[k0 as int],
                ));
                assert forall|k: int| 0 <= k < ran@.len() implies #[trigger] tick_link(
                    handlers,
                    before[k],
                    reading(elapsed@, k),
                    gs[k],
                    ran@[k]@,
                    gs[k + 1],
                    evs[k],
                ) by {
                    if k < k0 {
                        assert(gs[k] == gs0[k] && gs[k + 1] == gs0[k + 1] && evs[k] == evs0[k]);
                        assert(ran@[k] == ran0[k]);
                    }
                }
            }
            assert forall|k: int| 0 <= k < rest@.len() implies #[trigger] rest@[k]@ == before[ran@.len() + k] by {
                assert(rest@[k] == rest0[k + 1]);
            }
        }
        self.scripts = ran;
        assert(tick_run(handlers, before, elapsed@, self@.scripts, gs, evs)) by {
            assert forall|j: int| 0 <= j < before.len() implies #[trigger] tick_link(
                handlers,
                before[j],
                reading(elapsed@, j),
                gs[j],
                self@.scripts[j],
                gs[j + 1],
                evs[j],
            ) by {
                assert(self@.scripts[j] == ran@[j]@);
            }
        }
        events
    }
}

/// The hex digit of `d` (below 16), upper case.
pub open spec fn hex_digit(d: u8) -> char {
    if d < 10 {
        ((d + 48) as u8) as char
    } else {
        ((d + 55) as u8) as char
    }
}

fn hex_char(d: u8) -> (c: char)
    requires
        d < 16,
    ensures
        c == hex_digit(d),
{
    if d < 10 {
        (d + 48) as char
    } else {
        (d + 55) as char
    }
}

/// Each byte as two hex digits followed by ", ".
pub open spec fn hex_items(b: Seq<u8>) -> Seq<char>
    decreases b.len(),
{
    if b.len() == 0 {
        Seq::empty()
    } else {
        hex_items(b.drop_last()) + seq![hex_digit(b.last() / 16), hex_digit(b.last() % 16), ',', ' ']
    }
}

/// The hex dump of an error report: `[ 0A, FF ]`. The empty dump is ` ]`.
pub open spec fn pretty(b: Seq<u8>) -> Seq<char> {
    if b.len() == 0 {
        seq![' ', ']']
    } else {
        seq!['[', ' '] + hex_items(b).take(hex_items(b).len() - 2) + seq![' ', ']']
    }
}

/// Relies on `String::push`: appends one character.
#[verifier::external_body]
fn push_char(s: &mut String, c: char)
    ensures
        final(s)@ == old(s)@.push(c),
{
    s.push(c)
}

proof fn lemma_hex_items_len(b: Seq<u8>)
    ensures
        hex_items(b).len() == 4 * b.len(),
    decreases b.len(),
{
    if b.len() > 0 {
        lemma_hex_items_len(b.drop_last());
    }
}

/// Formats bytes as a hex list, as error reports show them.
pub fn pretty_bytes(bytes: &[u8]) -> (r: String)
    ensures
        r@ == pretty(bytes@),
{
    let mut items: Vec<char> = Vec::new();
    let mut i: usize = 0;
    while i < bytes.len()
        invariant
            i <= bytes@.len(),
            items@ == hex_items(bytes@.take(i as int)),
        decreases bytes@.len() - i,
    {
        let b = bytes[i];
        items.push(hex_char(b / 16));
        items.push(hex_char(b % 16));
        items.push(',');
        items.push(' ');
        assert(bytes@.take(i + 1).drop_last() =~= bytes@.take(i as int));
        i = i + 1;
        assert(items@ =~= hex_items(bytes@.take(i as int)));
    }
    assert(bytes@.take(i as int) =~= bytes@);
    let mut s = String::new();
    if bytes.len() == 0 {
        push_char(&mut s, ' ');
        push_char(&mut s, ']');
        assert(s@ =~= pretty(bytes@));
        return s;
    }
    proof {
        lemma_hex_items_len(bytes@);
    }
    push_char(&mut s, '[');
    push_char(&mut s, ' ');
    let end = items.len() - 2;
    let mut j: usize = 0;
    while j < end
        invariant
            j <= end,
            end == items@.len() - 2,
            s@ == seq!['[', ' '] + items@.take(j as int),
        decreases end - j,
    {
        push_char(&mut s, items[j]);
        j = j + 1;
        assert(s@ =~= seq!['[', ' '] + items@.take(j as int));
    }
    push_char(&mut s, ' ');
    push_char(&mut s, ']');
    assert(s@ =~= pretty(bytes@));
    s
}

} // verus!
