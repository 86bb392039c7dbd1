use vstd::prelude::*;
use vstd::slice::{slice_subrange, slice_to_vec};
use vstd::utf8::{decode_utf8, valid_utf8};
use crate::bytes::{le16, le32, read_le_u16, read_le_u32};
use crate::variable::VariableType;

verus! {

/// Operand tags.
pub const TAG_INT32: u8 = 0x01;
pub const TAG_GLOBAL: u8 = 0x02;
pub const TAG_LOCAL: u8 = 0x03;
pub const TAG_INT8: u8 = 0x04;
pub const TAG_INT16: u8 = 0x05;
pub const TAG_FLOAT: u8 = 0x06;
pub const TAG_STRING: u8 = 0x0E;

/// Number of local variable cells of a script.
pub const LOCAL_COUNT: usize = 32;

/// A decoded operand of any kind.
#[derive(Debug)]
pub enum ArgType {
    /// An unrecognised tag: nothing was consumed.
    NoArg,
    Integer(u32),
    /// A float literal, as its bit pattern.
    Float(u32),
    String(String),
    Var(VariableType),
}

/// A decoded operand in mathematical terms.
pub enum ArgView {
    NoArg,
    Integer(u32),
    Float(u32),
    Str(Seq<char>),
    Var(VariableType),
}

impl View for ArgType {
    type V = ArgView;

    open spec fn view(&self) -> ArgView {
        match self {
            ArgType::NoArg => ArgView::NoArg,
            ArgType::Integer(v) => ArgView::Integer(*v),
            ArgType::Float(v) => ArgView::Float(*v),
            ArgType::String(s) => ArgView::Str(s@),
            ArgType::Var(v) => ArgView::Var(*v),
        }
    }
}

/// An integer literal at `pc`: its value and the position after it.
pub open spec fn int_operand(b: Seq<u8>, pc: int) -> Option<(u32, int)> {
    if 0 <= pc < b.len() {
        if b[pc] == TAG_INT32 && pc + 5 <= b.len() {
            Some((le32(b[pc + 1], b[pc + 2], b[pc + 3], b[pc + 4]) as u32, pc + 5))
        } else if b[pc] == TAG_INT8 && pc + 2 <= b.len() {
            Some((b[pc + 1] as u32, pc + 2))
        } else if b[pc] == TAG_INT16 && pc + 3 <= b.len() {
            Some((le16(b[pc + 1], b[pc + 2]) as u32, pc + 3))
        } else {
            None
        }
    } else {
        None
    }
}

/// A float literal at `pc`: its bit pattern and the position after it.
pub open spec fn float_operand(b: Seq<u8>, pc: int) -> Option<(u32, int)> {
    if 0 <= pc && pc + 5 <= b.len() && b[pc] == TAG_FLOAT {
        Some((le32(b[pc + 1], b[pc + 2], b[pc + 3], b[pc + 4]) as u32, pc + 5))
    } else {
        None
    }
}

/// A length-prefixed UTF-8 string literal at `pc`.
pub open spec fn string_operand(b: Seq<u8>, pc: int) -> Option<(Seq<char>, int)> {
    if 0 <= pc && pc + 2 <= b.len() && b[pc] == TAG_STRING {
        let end = pc + 2 + b[pc + 1];
        if end <= b.len() && valid_utf8(b.subrange(pc + 2, end)) {
            Some((decode_utf8(b.subrange(pc + 2, end)), end))
        } else {
            None
        }
    } else {
        None
    }
}

/// A variable reference at `pc`; a local one must name one of the local cells.
pub open spec fn var_operand(b: Seq<u8>, pc: int) -> Option<(VariableType, int)> {
    if 0 <= pc && pc + 3 <= b.len() {
        let id = le16(b[pc + 1], b[pc + 2]);
        if b[pc] == TAG_GLOBAL {
            Some((VariableType::Global(id as usize), pc + 3))
        } else if b[pc] == TAG_LOCAL && id < LOCAL_COUNT {
            Some((VariableType::Local(id as usize), pc + 3))
        } else {
            None
        }
    } else {
        None
    }
}

/// Any operand at `pc`, by its tag. An unknown tag gives `ArgView::NoArg`
/// and consumes nothing; a position past the end gives no operand at all.
pub open spec fn any_operand(b: Seq<u8>, pc: int) -> Option<(ArgView, int)> {
    if 0 <= pc < b.len() {
        let tag = b[pc];
        if tag == TAG_INT32 || tag == TAG_INT8 || tag == TAG_INT16 {
            match int_operand(b, pc) {
                Some((v, n)) => Some((ArgView::Integer(v), n)),
                None => None,
            }
        } else if tag == TAG_GLOBAL || tag == TAG_LOCAL {
            match var_operand(b, pc) {
                Some((v, n)) => Some((ArgView::Var(v), n)),
                None => None,
            }
        } else if tag == TAG_FLOAT {
            match float_operand(b, pc) {
                Some((v, n)) => Some((ArgView::Float(v), n)),
                None => None,
            }
        } else if tag == TAG_STRING {
            match string_operand(b, pc) {
                Some((v, n)) => Some((ArgView::Str(v), n)),
                None => None,
            }
        } else {
            Some((ArgView::NoArg, pc))
        }
    } else {
        None
    }
}

/// Relies on `String::from_utf8`: it accepts exactly the valid UTF-8 byte
/// strings, and the string it returns holds their decoding.
#[verifier::external_body]
fn utf8_string(bytes: Vec<u8>) -> (r: Option<String>)
    ensures
        match r {
            Some(s) => valid_utf8(bytes@) && s@ == decode_utf8(bytes@),
            None => !valid_utf8(bytes@),
        },
{
    String::from_utf8(bytes).ok()
}

pub fn decode_int(b: &[u8], pc: usize) -> (r: Option<(u32, usize)>)
    ensures
        match int_operand(b@, pc as int) {
            Some((v, n)) => r.is_some() && r.unwrap().0 == v && r.unwrap().1 == n,
            None => r.is_none(),
        },
{
    if pc >= b.len() {
        return None;
    }
    let tag = b[pc];
    let rest = b.len() - pc;
    if tag == TAG_INT32 && rest >= 5 {
        let v = read_le_u32(slice_subrange(b, pc + 1, pc + 5));
        Some((v, pc + 5))
    } else if tag == TAG_INT8 && rest >= 2 {
        Some((b[pc + 1] as u32, pc + 2))
    } else if tag == TAG_INT16 && rest >= 3 {
        let v = read_le_u16(slice_subrange(b, pc + 1, pc + 3));
        Some((v as u32, pc + 3))
    } else {
        None
    }
}

pub fn decode_float(b: &[u8], pc: usize) -> (r: Option<(u32, usize)>)
    ensures
        match float_operand(b@, pc as int) {
            Some((v, n)) => r.is_some() && r.unwrap().0 == v && r.unwrap().1 == n,
            None => r.is_none(),
        },
{
    if pc < b.len() && b.len() - pc >= 5 && b[pc] == TAG_FLOAT {
        let v = read_le_u32(slice_subrange(b, pc + 1, pc + 5));
        Some((v, pc + 5))
    } else {
        None
    }
}

pub fn decode_string(b: &[u8], pc: usize) -> (r: Option<(String, usize)>)
    ensures
        match string_operand(b@, pc as int) {
            Some((v, n)) => r.is_some() && r.unwrap().0@ == v && r.unwrap().1 == n,
            None => r.is_none(),
        },
{
    if pc < b.len() && b.len() - pc >= 2 && b[pc] == TAG_STRING {
        let n = b[pc + 1] as usize;
        if b.len() - (pc + 2) >= n {
            let raw = slice_to_vec(slice_subrange(b, pc + 2, pc + 2 + n));
            match utf8_string(raw) {
                Some(s) => Some((s, pc + 2 + n)),
                None => None,
            }
        } else {
            None
        }
    } else {
        None
    }
}

pub fn decode_var(b: &[u8], pc: usize) -> (r: Option<(VariableType, usize)>)
    ensures
        match var_operand(b@, pc as int) {
            Some((v, n)) => r.is_some() && r.unwrap().0 == v && r.unwrap().1 == n,
            None => r.is_none(),
        },
{
    if pc < b.len() && b.len() - pc >= 3 {
        let id = read_le_u16(slice_subrange(b, pc + 1, pc + 3)) as usize;
        if b[pc] == TAG_GLOBAL {
            Some((VariableType::Global(id), pc + 3))
        } else if b[pc] == TAG_LOCAL && id < LOCAL_COUNT {
            Some((VariableType::Local(id), pc + 3))
        } else {
            None
        }
    } else {
        None
    }
}

pub fn decode_any(b: &[u8], pc: usize) -> (r: Option<(ArgType, usize)>)
    ensures
        match any_operand(b@, pc as int) {
            Some((v, n)) => r.is_some() && r.unwrap().0@ == v && r.unwrap().1 == n,
            None => r.is_none(),
        },
{
    if pc >= b.len() {
        return None;
    }
    let tag = b[pc];
    if tag == TAG_INT32 || tag == TAG_INT8 || tag == TAG_INT16 {
        match decode_int(b, pc) {
            Some((v, n)) => Some((ArgType::Integer(v), n)),
            None => None,
        }
    } else if tag == TAG_GLOBAL || tag == TAG_LOCAL {
        match decode_var(b, pc) {
            Some((v, n)) => Some((ArgType::Var(v), n)),
            None => None,
        }
    } else if tag == TAG_FLOAT {
        match decode_float(b, pc) {
            Some((v, n)) => Some((ArgType::Float(v), n)),
            None => None,
        }
    } else if tag == TAG_STRING {
        match decode_string(b, pc) {
            Some((v, n)) => Some((ArgType::String(v), n)),
            None => None,
        }
    } else {
        Some((ArgType::NoArg, pc))
    }
}

} // verus!
