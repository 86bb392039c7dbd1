use cleo_vm::error::OpcodeHandlerErr;
use cleo_vm::globals::Globals;
use cleo_vm::opcodes::{op_call, op_compare, op_deallocate, op_allocate, op_if, op_math, op_ret, op_wait, CmpOp, Host, MathOp, Printed};
use cleo_vm::opcodes::{op_assign, op_get_label_address, op_jump_if_false, op_print};
use cleo_vm::parser::ArgType;
use cleo_vm::script::{LogicalOpcode, Script};
use cleo_vm::variable::{Value, VarInfo, Variable, VariableKind, VariableType};
use cleo_vm::vm::{pretty_bytes, DefaultOpcodes, Event, Handler, VirtualMachine};
use std::time::{Duration, Instant};

struct TestHost {
    results: Vec<bool>,
    calls: Vec<u32>,
}

impl TestHost {
    fn new(results: Vec<bool>) -> TestHost {
        TestHost { results, calls: Vec::new() }
    }
}

impl Host for TestHost {
    fn run_handler(&mut self, id: u32, _script: &mut Script, _globals: &mut Globals) -> Result<bool, OpcodeHandlerErr> {
        self.calls.push(id);
        Ok(self.results[id as usize])
    }

    fn float_math(&mut self, op: MathOp, lhs: u32, rhs: u32) -> u32 {
        let (a, b) = (f32::from_bits(lhs), f32::from_bits(rhs));
        let r = match op {
            MathOp::Add => a + b,
            MathOp::Sub => a - b,
            MathOp::Mul => a * b,
            MathOp::Div => a / b,
        };
        r.to_bits()
    }

    fn float_compare(&mut self, op: CmpOp, lhs: u32, rhs: u32) -> bool {
        let (a, b) = (f32::from_bits(lhs), f32::from_bits(rhs));
        match op {
            CmpOp::Eq => a == b,
            CmpOp::Ne => a != b,
            CmpOp::Gt => a > b,
            CmpOp::Lt => a < b,
            CmpOp::Ge => a >= b,
            CmpOp::Le => a <= b,
        }
    }
}

fn script(bytes: Vec<u8>) -> Script {
    Script::new(&String::from("t"), bytes)
}

fn machine() -> VirtualMachine {
    let mut vm = VirtualMachine::new();
    vm.set_default_opcodes();
    vm
}

fn local_value(s: &Script, i: usize) -> String {
    format!("{:?}", s.local(i).unwrap().value)
}

#[test]
fn jump_arithmetic_negates_the_address() {
    let mut s = script(vec![]);
    assert!(s.jump_to(0x0000_0005));
    assert_eq!(s.offset(), 0xFFFF_FFFB);
    s.jump_to(0);
    assert_eq!(s.offset(), 0);
    s.jump_to(0xFFFF_FFFF);
    assert_eq!(s.offset(), 1);
    s.jump_to(0xFFFF_FFFB);
    assert_eq!(s.offset(), 5);
}

#[test]
fn not_flag_inverts_the_folded_result() {
    let mut vm = machine();
    // 0x8003: local0 = 5, with the NOT bit; then 0x0003 again without it.
    vm.append_script(String::from("n"), vec![0x03, 0x80, 0x03, 0x00, 0x00, 0x04, 0x05, 0x03, 0x00, 0x03, 0x01, 0x00, 0x04, 0x06]);
    let mut host = TestHost::new(vec![]);
    let events = vm.tick(&mut host);
    assert!(events.is_empty());
    let s = vm.script_at(0).unwrap();
    assert!(s.not_flag());
    assert!(!s.cond_result());
    assert_eq!(local_value(s, 0), "Integer(5)");
    vm.tick(&mut host);
    let s = vm.script_at(0).unwrap();
    assert!(!s.not_flag());
    assert!(s.cond_result());
}

#[test]
fn logical_combinator_chain() {
    let mut vm = machine();
    vm.set_handler(0x0100, Handler::Host(0));
    vm.set_handler(0x0101, Handler::Host(1));
    vm.set_handler(0x0102, Handler::Host(2));
    vm.append_script(
        String::from("c"),
        vec![0x08, 0x00, 0x04, 0x00, 0x00, 0x01, 0x08, 0x00, 0x04, 0x01, 0x01, 0x01, 0x08, 0x00, 0x04, 0x15, 0x02, 0x01],
    );
    let mut host = TestHost::new(vec![true, false, true]);
    let cond = |vm: &VirtualMachine| vm.script_at(0).unwrap().cond_result();
    vm.tick(&mut host);
    assert_eq!(vm.script_at(0).unwrap().logical_opcode(), LogicalOpcode::One);
    vm.tick(&mut host);
    assert!(cond(&vm));
    vm.tick(&mut host);
    assert_eq!(vm.script_at(0).unwrap().logical_opcode(), LogicalOpcode::And);
    vm.tick(&mut host);
    assert!(!cond(&vm));
    vm.tick(&mut host);
    assert_eq!(vm.script_at(0).unwrap().logical_opcode(), LogicalOpcode::Or);
    vm.tick(&mut host);
    assert!(cond(&vm));
    assert_eq!(host.calls, vec![0, 1, 2]);
}

#[test]
fn call_and_return_keep_locals_local() {
    let mut vm = machine();
    let label: u32 = 0u32.wrapping_sub(33);
    let mut code = vec![
        0x03, 0x00, 0x03, 0x00, 0x00, 0x04, 0x0A, // local0 = 10
        0x03, 0x00, 0x03, 0x01, 0x00, 0x04, 0x14, // local1 = 20
        0x0E, 0x00, 0x01,
    ];
    code.extend_from_slice(&label.to_le_bytes());
    code.extend_from_slice(&[0x04, 0x02, 0x04, 0x01, 0x04, 0x02]); // args 2: 1, 2
    code.extend_from_slice(&[0x03, 0x00, 0x00, 0x00]); // result -> local0, end
    code.extend_from_slice(&[0x00, 0x00]); // nop at 31
    code.extend_from_slice(&[0x0F, 0x00, 0x04, 0x01, 0x04, 0x63]); // at 33: ret 1 args 99
    assert_eq!(code.len(), 39);
    vm.append_script(String::from("f"), code);
    let mut host = TestHost::new(vec![]);
    vm.tick(&mut host);
    vm.tick(&mut host);
    let events = vm.tick(&mut host);
    assert!(events.is_empty());
    let s = vm.script_at(0).unwrap();
    assert_eq!(s.offset(), 33);
    assert_eq!(s.stack_depth(), 1);
    assert_eq!(local_value(s, 0), "Integer(1)");
    assert_eq!(local_value(s, 1), "Integer(2)");
    let events = vm.tick(&mut host);
    assert!(events.is_empty());
    let s = vm.script_at(0).unwrap();
    assert_eq!(s.offset(), 31);
    assert_eq!(s.stack_depth(), 0);
    assert_eq!(local_value(s, 0), "Integer(99)");
    assert_eq!(local_value(s, 1), "Integer(20)");
}

#[test]
fn comparing_integer_with_string_is_false_not_an_error() {
    let mut g = Globals::new();
    let mut s = script(vec![
        0x03, 0x00, 0x00, 0x04, 0x07, // local0 = 7
        0x03, 0x01, 0x00, 0x0E, 0x02, b'h', b'i', // local1 = "hi"
        0x03, 0x00, 0x00, 0x03, 0x01, 0x00, // local0 == local1
        0x03, 0x01, 0x00, 0x04, 0x07, // local1 == 7
    ]);
    let mut host = TestHost::new(vec![]);
    assert_eq!(op_assign(&mut s, &mut g), Ok(true));
    assert_eq!(op_assign(&mut s, &mut g), Ok(true));
    assert_eq!(op_compare(CmpOp::Eq, &mut s, &g, &mut host), Ok(false));
    assert_eq!(op_compare(CmpOp::Eq, &mut s, &g, &mut host), Ok(false));
}

#[test]
fn comparisons_of_integers_and_floats() {
    let g = Globals::new();
    let mut host = TestHost::new(vec![]);
    let mut s = script(vec![0x03, 0x00, 0x00, 0x04, 0x07, 0x03, 0x00, 0x00, 0x04, 0x08]);
    s.set_local(0, Value::Integer(7));
    assert_eq!(op_compare(CmpOp::Eq, &mut s, &g, &mut host), Ok(true));
    assert_eq!(op_compare(CmpOp::Lt, &mut s, &g, &mut host), Ok(true));
    let mut code = vec![0x03, 0x00, 0x00, 0x06];
    code.extend_from_slice(&1.5f32.to_bits().to_le_bytes());
    let mut t = script(code);
    t.set_local(0, Value::Float(2.0f32.to_bits()));
    assert_eq!(op_compare(CmpOp::Gt, &mut t, &g, &mut host), Ok(true));
    // signed comparison between two integer variables
    let mut u = script(vec![0x03, 0x00, 0x00, 0x03, 0x01, 0x00]);
    u.set_local(0, Value::Integer(0xFFFF_FFFF));
    u.set_local(1, Value::Integer(1));
    assert_eq!(op_compare(CmpOp::Lt, &mut u, &g, &mut host), Ok(true));
}

#[test]
fn wait_suspends_for_at_least_the_given_time() {
    let mut vm = machine();
    vm.append_script(String::from("w"), vec![0x01, 0x00, 0x04, 0x32, 0x03, 0x00, 0x03, 0x00, 0x00, 0x04, 0x01]);
    let mut host = TestHost::new(vec![]);
    vm.tick(&mut host);
    let armed = Instant::now();
    assert_eq!(vm.script_at(0).unwrap().wake_up(), 50);
    vm.tick(&mut host);
    if armed.elapsed() < Duration::from_millis(50) {
        assert_eq!(vm.script_at(0).unwrap().offset(), 4);
        assert!(!vm.script_at(0).unwrap().is_active());
    }
    while armed.elapsed() < Duration::from_millis(60) {}
    assert!(vm.script_at(0).unwrap().is_active());
    vm.tick(&mut host);
    assert_eq!(vm.script_at(0).unwrap().offset(), 11);
    assert_eq!(local_value(vm.script_at(0).unwrap(), 0), "Integer(1)");
}

#[test]
fn is_active_after_follows_the_deadline() {
    let mut s = script(vec![0x04, 0x32]);
    assert_eq!(op_wait(&mut s), Ok(true));
    assert!(!s.is_active_after(Some(49)));
    assert!(s.is_active_after(Some(50)));
    assert!(!s.is_active_after(None));
    s.deactivate();
    assert!(!s.is_active_after(Some(100)));
}

#[test]
fn undefined_opcode_stops_only_its_script() {
    let mut vm = machine();
    vm.append_script(String::from("bad"), vec![0xFF, 0x00, 0x00, 0x00]);
    vm.append_script(String::from("good"), vec![0x00, 0x00, 0x00, 0x00]);
    let mut host = TestHost::new(vec![]);
    let events = vm.tick(&mut host);
    assert_eq!(events.len(), 1);
    match &events[0] {
        Event::UndefinedOpcode { script, opcode, offset, bytes } => {
            assert_eq!(script, "bad");
            assert_eq!(*opcode, 0x00FF);
            assert_eq!(*offset, 2);
            assert_eq!(bytes, &vec![0xFF, 0x00, 0x00, 0x00]);
        }
        other => panic!("unexpected {:?}", other),
    }
    assert_eq!(vm.script_at(1).unwrap().offset(), 2);
    assert!(vm.tick(&mut host).is_empty());
    assert_eq!(vm.script_at(0).unwrap().offset(), 2);
    assert_eq!(vm.script_at(1).unwrap().offset(), 4);
    vm.tick(&mut host);
    assert!(vm.is_done(String::from("good")));
    assert!(!vm.is_done(String::from("bad")));
    assert!(!vm.is_done(String::from("missing")));
}

#[test]
fn handler_errors_are_reported_and_the_script_goes_on() {
    let mut vm = machine();
    vm.append_script(String::from("e"), vec![0x08, 0x00, 0x04, 0x09, 0x00, 0x00]);
    let mut host = TestHost::new(vec![]);
    let events = vm.tick(&mut host);
    match &events[0] {
        Event::Failed { script, opcode, error, offset, bytes } => {
            assert_eq!(*offset, 4);
            assert_eq!(bytes, &vec![0x04, 0x09, 0x00, 0x00]);
            assert_eq!(script, "e");
            assert_eq!(*opcode, 0x0008);
            assert_eq!(*error, OpcodeHandlerErr::UndefinedCondArg);
        }
        other => panic!("unexpected {:?}", other),
    }
    assert!(vm.tick(&mut host).is_empty());
    assert_eq!(vm.script_at(0).unwrap().offset(), 6);
}

#[test]
fn print_hands_over_values() {
    let mut vm = machine();
    vm.append_script(String::from("p"), vec![0x0A, 0x00, 0x0E, 0x02, b'o', b'k', 0x0A, 0x00, 0x03, 0x02, 0x00]);
    let mut host = TestHost::new(vec![]);
    let events = vm.tick(&mut host);
    match &events[0] {
        Event::Printed { script, what: Printed::Literal(ArgType::String(s)) } => {
            assert_eq!(script, "p");
            assert_eq!(s, "ok");
        }
        other => panic!("unexpected {:?}", other),
    }
    let events = vm.tick(&mut host);
    match &events[0] {
        Event::Printed { what: Printed::Variable(VariableType::Local(2), Value::Integer(0)), .. } => {}
        other => panic!("unexpected {:?}", other),
    }
    let g = Globals::new();
    let mut out = Vec::new();
    let mut s = script(vec![0x04, 0x05]);
    assert_eq!(op_print(&mut s, &g, &mut out), Ok(true));
    assert!(matches!(out[0], Printed::Literal(ArgType::Integer(5))));
}

#[test]
fn each_error_kind_has_its_input() {
    let mut g = Globals::new();
    let mut host = TestHost::new(vec![]);
    let mut s = script(vec![]);
    assert_eq!(op_wait(&mut s), Err(OpcodeHandlerErr::CannotParseArg));
    let mut s = script(vec![0x04, 0x08]);
    assert_eq!(op_if(&mut s), Err(OpcodeHandlerErr::UndefinedCondArg));
    let mut s = script(vec![0x03, 0x00, 0x00, 0x04, 0x01]);
    s.set_local(0, Value::Str(String::from("x")));
    assert_eq!(op_math(MathOp::Add, &mut s, &mut g, &mut host), Err(OpcodeHandlerErr::NotCorrectType));
    let mut s = script(vec![0x03, 0x00, 0x00, 0x04, 0x00]);
    assert_eq!(op_math(MathOp::Div, &mut s, &mut g, &mut host), Err(OpcodeHandlerErr::DivideByZero));
    let mut s = script(vec![0x04, 0x00]);
    assert_eq!(op_ret(&mut s, &mut g), Err(OpcodeHandlerErr::NoCallFrame));
    let mut s = script(vec![0x03, 0x00, 0x00, 0x04, 0x00]);
    s.set_local(0, Value::Integer(3));
    assert_eq!(op_deallocate(&mut s, &g), Err(OpcodeHandlerErr::InvalidHandle));
    // a string cannot go into the untyped global table
    let mut s = script(vec![0x02, 0x05, 0x00, 0x0E, 0x01, b'a']);
    assert_eq!(op_assign(&mut s, &mut g), Err(OpcodeHandlerErr::NotCorrectType));
}

#[test]
fn arithmetic_on_integers_floats_and_globals() {
    let mut g = Globals::new();
    let mut host = TestHost::new(vec![]);
    let mut s = script(vec![0x03, 0x00, 0x00, 0x04, 0x05, 0x03, 0x00, 0x00, 0x04, 0x07, 0x03, 0x00, 0x00, 0x04, 0x02]);
    s.set_local(0, Value::Integer(3));
    assert_eq!(op_math(MathOp::Sub, &mut s, &mut g, &mut host), Ok(true));
    assert_eq!(local_value(&s, 0), format!("Integer({})", 3u32.wrapping_sub(5)));
    assert_eq!(op_math(MathOp::Mul, &mut s, &mut g, &mut host), Ok(true));
    assert_eq!(local_value(&s, 0), format!("Integer({})", 3u32.wrapping_sub(5).wrapping_mul(7)));
    assert_eq!(op_math(MathOp::Div, &mut s, &mut g, &mut host), Ok(true));
    assert_eq!(local_value(&s, 0), format!("Integer({})", 3u32.wrapping_sub(5).wrapping_mul(7) / 2));
    let mut code = vec![0x03, 0x01, 0x00, 0x06];
    code.extend_from_slice(&0.5f32.to_bits().to_le_bytes());
    let mut t = script(code);
    t.set_local(1, Value::Float(1.25f32.to_bits()));
    assert_eq!(op_math(MathOp::Add, &mut t, &mut g, &mut host), Ok(true));
    assert_eq!(local_value(&t, 1), format!("Float({})", 1.75f32.to_bits()));
    // a global cell takes integer arithmetic on its raw value
    let mut u = script(vec![0x02, 0x10, 0x00, 0x04, 0x09, 0x02, 0x10, 0x00, 0x04, 0x01]);
    assert_eq!(op_assign(&mut u, &mut g), Ok(true));
    assert_eq!(g.get(0x10), Some(9));
    assert_eq!(op_math(MathOp::Add, &mut u, &mut g, &mut host), Ok(true));
    assert_eq!(g.get(0x10), Some(10));
}

#[test]
fn allocate_and_deallocate_handles() {
    let mut g = Globals::new();
    let mut s = script(vec![0x04, 0x10, 0x03, 0x00, 0x00, 0x03, 0x00, 0x00, 0x04, 0x10, 0x03, 0x00, 0x00, 0x04, 0x10, 0x03, 0x01, 0x00, 0x04, 0x10]);
    assert_eq!(op_allocate(&mut s, &mut g), Ok(true));
    assert_eq!(local_value(&s, 0), "Integer(1)");
    assert_eq!(op_deallocate(&mut s, &g), Ok(true));
    assert_eq!(op_deallocate(&mut s, &g), Err(OpcodeHandlerErr::InvalidHandle));
    assert_eq!(op_deallocate(&mut s, &g), Ok(false));
}

#[test]
fn label_address_and_conditional_jump() {
    let mut g = Globals::new();
    let mut s = script(vec![0x01, 0xFB, 0xFF, 0xFF, 0xFF, 0x03, 0x00, 0x00, 0x01, 0xF6, 0xFF, 0xFF, 0xFF]);
    assert_eq!(op_get_label_address(&mut s, &mut g), Ok(true));
    assert_eq!(local_value(&s, 0), "Integer(5)");
    assert!(!s.cond_result());
    assert_eq!(op_jump_if_false(&mut s), Ok(false));
    assert_eq!(s.offset(), 10);
}

#[test]
fn call_refuses_more_arguments_than_locals() {
    let g = Globals::new();
    let mut s = script(vec![0x04, 0x00, 0x04, 0x21]);
    assert_eq!(op_call(&mut s, &g), Err(OpcodeHandlerErr::CannotParseArg));
    assert_eq!(s.stack_depth(), 0);
}

#[test]
fn pretty_bytes_formats_hex() {
    assert_eq!(pretty_bytes(&[0x0A, 0xFF, 0x00]), "[ 0A, FF, 00 ]");
    assert_eq!(pretty_bytes(&[0x7B]), "[ 7B ]");
    assert_eq!(pretty_bytes(&[]), " ]");
}

#[test]
fn get_error_shows_bytes_around_the_offset() {
    let mut s = script(vec![1, 2, 3, 4, 5, 6, 7, 8]);
    s.get_opcode();
    s.get_opcode();
    assert_eq!(s.get_error(), (4, vec![3, 4, 5, 6, 7]));
    let t = script(vec![1, 2]);
    assert_eq!(t.get_error(), (0, vec![1, 2]));
}

#[test]
fn append_script_replaces_a_script_of_the_same_name() {
    let mut vm = machine();
    vm.append_script(String::from("a"), vec![0x00, 0x00]);
    vm.append_script(String::from("b"), vec![0x00, 0x00]);
    vm.append_script(String::from("a"), vec![0x00, 0x00, 0x00, 0x00]);
    assert_eq!(vm.script_count(), 2);
    assert_eq!(vm.script_at(0).unwrap().bytes().len(), 4);
    assert_eq!(vm.handler(0x0015), Some(Handler::Compare(CmpOp::Le)));
    assert_eq!(vm.handler(0x0016), None);
}

#[test]
fn set_handler_last_registration_wins() {
    let mut vm = VirtualMachine::new();
    assert_eq!(vm.handler(0x0001), None);
    vm.set_handler(0x0001, Handler::Nop);
    vm.set_handler(0x0001, Handler::Host(7));
    assert_eq!(vm.handler(0x0001), Some(Handler::Host(7)));
}

#[test]
fn empty_script_is_done_after_one_tick() {
    let mut vm = machine();
    vm.append_script(String::from("empty"), vec![]);
    assert!(!vm.is_done(String::from("empty")));
    let mut host = TestHost::new(vec![]);
    assert!(vm.tick(&mut host).is_empty());
    assert!(vm.is_done(String::from("empty")));
    assert_eq!(vm.script_at(0).unwrap().offset(), 0);
}

#[test]
fn variable_cells_copy_and_change_kind() {
    let mut a = Variable::new(Value::Integer(0x3F80_0000), 4);
    let b = Variable::new(Value::Str(String::from("s")), 9);
    assert!(!a.eq_types(&b));
    let snapshot = a.into_raw();
    a.from(&b);
    assert_eq!(a.id, 4);
    assert!(a.eq(&b));
    let restored = Variable::from_raw(4, &snapshot);
    assert_eq!(restored.kind(), VariableKind::Integer);
    let mut c = restored.clone();
    c.change(VariableKind::Float);
    assert_eq!(format!("{:?}", c.value), format!("Float({})", 0x3F80_0000u32));
    c.change(VariableKind::String);
    assert_eq!(format!("{:?}", c.value), "Str(\"\")");
    let info = VarInfo { value: Value::Integer(1) };
    assert_eq!(Variable::from_raw(2, &info).id, 2);
}

#[test]
fn do_stuff_combines_cells_of_the_same_kind() {
    let mut a = Variable::new(Value::Integer(10), 0);
    let b = Variable::new(Value::Integer(4), 1);
    assert_eq!(a.do_stuff(&b, |x: u32, y: u32| x.wrapping_sub(y)), Ok(()));
    assert_eq!(format!("{:?}", a.value), "Integer(6)");
    assert_eq!(a.id, 0);
    let f = Variable::new(Value::Float(1.0f32.to_bits()), 3);
    assert_eq!(a.do_stuff(&f, |x: u32, y: u32| x + y), Err(OpcodeHandlerErr::NotCorrectType));
    assert_eq!(format!("{:?}", a.value), "Integer(6)");
    let mut g = Variable::new(Value::Float(3.0f32.to_bits()), 5);
    let mul = |x: u32, y: u32| (f32::from_bits(x) * f32::from_bits(y)).to_bits();
    assert_eq!(g.do_stuff(&f, mul), Ok(()));
    assert_eq!(format!("{:?}", g.value), format!("Float({})", 3.0f32.to_bits()));
}

#[test]
fn tick_after_runs_a_sleeping_script_only_from_its_deadline() {
    let mut vm = machine();
    vm.append_script(String::from("w"), vec![0x01, 0x00, 0x04, 0x32, 0x00, 0x00]);
    let mut host = TestHost::new(vec![]);
    vm.tick_after(&mut host, &vec![Some(0)]);
    assert_eq!(vm.script_at(0).unwrap().offset(), 4);
    vm.tick_after(&mut host, &vec![Some(49)]);
    assert_eq!(vm.script_at(0).unwrap().offset(), 4);
    vm.tick_after(&mut host, &vec![None]);
    assert_eq!(vm.script_at(0).unwrap().offset(), 4);
    vm.tick_after(&mut host, &vec![Some(50)]);
    assert_eq!(vm.script_at(0).unwrap().offset(), 6);
}

#[test]
fn set_logical_opcode_keeps_the_register() {
    let mut s = script(vec![]);
    assert!(s.set_logical_opcode(LogicalOpcode::Or));
    assert_eq!(s.logical_opcode(), LogicalOpcode::Or);
    assert!(!s.cond_result());
    s.set_condition(true);
    assert!(s.set_logical_opcode(LogicalOpcode::And));
    assert!(s.cond_result());
}

#[test]
fn if_starts_an_or_chain_at_false() {
    let mut s = script(vec![0x04, 0x15, 0x04, 0x00]);
    s.set_condition(true);
    assert_eq!(op_if(&mut s), Ok(false));
    assert!(!s.cond_result());
    assert_eq!(s.logical_opcode(), LogicalOpcode::Or);
    assert_eq!(op_if(&mut s), Ok(true));
    assert!(s.cond_result());
    assert_eq!(s.logical_opcode(), LogicalOpcode::One);
}
