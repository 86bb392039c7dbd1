use cleo_vm::globals::Globals;
use cleo_vm::interpreter::{ArgKind, ScriptThread, Variable};
use cleo_vm::parser::ArgType;
use cleo_vm::script::LogicalOpcode;

#[test]
fn thread_reads_operands_and_variables() {
    let mut g = Globals::new();
    let mut t = ScriptThread::new(vec![0x04, 0x07, 0x0E, 0x03, b'a', b'b', b'c', 0x02, 0x01, 0x00, 0x01, 0xFF, 0xFF, 0xFF, 0xFF]);
    assert_eq!(t.parse_int(), Some(7));
    assert_eq!(t.parse_string(), Some(String::from("abc")));
    let var = t.parse_variable().unwrap();
    assert_eq!(var, Variable::Global(1));
    assert_eq!(t.parse_int(), Some(-1));
    assert!(t.set_variable(&var, -5, &mut g));
    assert_eq!(t.get_variable(&var, &g), Some(-5));
    assert!(t.set_variable(&Variable::Local(3), 42, &mut g));
    assert_eq!(t.get_variable(&Variable::Local(3), &g), Some(42));
    assert!(!t.set_variable(&Variable::Local(40), 1, &mut g));
    assert_eq!(t.get_variable(&Variable::Local(40), &g), None);
}

#[test]
fn thread_conditions_and_jumps() {
    let mut t = ScriptThread::new(vec![0x09, 0x80, 0x06, 0x00, 0x00, 0x80, 0x3F]);
    assert_eq!(t.get_opcode(), Some(0x0009));
    assert!(t.set_logical_opcode(LogicalOpcode::And));
    assert!(t.condition_result());
    t.set_conditional_result(true);
    assert!(!t.condition_result());
    assert_eq!(t.parse_float(), Some(1.0f32.to_bits()));
    t.jump_to(0xFFFF_FFFE);
    assert_eq!(t.offset(), 2);
    assert!(matches!(t.get_any_arg(), Some(ArgType::Float(_))));
}

#[test]
fn thread_sleeps_until_its_deadline() {
    let mut t = ScriptThread::new(vec![]);
    assert!(t.is_active());
    t.set_wake_up(1000);
    assert!(!t.is_active());
    assert!(!t.is_active_after(Some(999)));
    assert!(t.is_active_after(Some(1000)));
}

#[test]
fn thread_reports_the_kind_of_the_next_operand() {
    let mut t = ScriptThread::new(vec![0x05, 0x01, 0x00, 0x03, 0x00, 0x00, 0x0E, 0x00, 0x06, 0, 0, 0, 0, 0x99]);
    assert_eq!(t.get_arg_type(), ArgKind::Integer);
    t.parse_int();
    assert_eq!(t.get_arg_type(), ArgKind::Variable);
    t.parse_variable();
    assert_eq!(t.get_arg_type(), ArgKind::String);
    t.parse_string();
    assert_eq!(t.get_arg_type(), ArgKind::Float);
    t.parse_float();
    assert_eq!(t.get_arg_type(), ArgKind::NoArg);
    assert_eq!(t.offset(), 13);
    t.jump_to(0xFFFF_FFF0);
    assert_eq!(t.get_arg_type(), ArgKind::NoArg);
}
