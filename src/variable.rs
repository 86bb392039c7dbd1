use vstd::prelude::*;
use crate::error::OpcodeHandlerErr;

verus! {

/// The kind of value that a variable cell currently holds.
#[derive(Debug, Clone, Copy, PartialEq, Eq, Structural)]
pub enum VariableKind {
    Integer,
    Float,
    String,
}

/// A reference to a variable, as an operand names it.
#[derive(Debug, Clone, Copy, PartialEq, Eq, Structural)]
pub enum VariableType {
    /// A cell of the table shared by every script.
    Global(usize),
    /// One of the running script's own cells.
    Local(usize),
}

/// The contents of a cell in mathematical terms. A float is kept as its
/// IEEE-754 bit pattern, which is all that the interpreter itself inspects.
pub enum CellValue {
    Integer(u32),
    Float(u32),
    Str(Seq<char>),
}

impl CellValue {
    pub open spec fn kind(self) -> VariableKind {
        match self {
            CellValue::Integer(_) => VariableKind::Integer,
            CellValue::Float(_) => VariableKind::Float,
            CellValue::Str(_) => VariableKind::String,
        }
    }

    /// The 32-bit payload of a numeric value.
    pub open spec fn bits(self) -> u32 {
        match self {
            CellValue::Integer(v) => v,
            CellValue::Float(v) => v,
            CellValue::Str(_) => 0,
        }
    }

    /// The same kind with another 32-bit payload (numeric values only).
    pub open spec fn with_bits(self, v: u32) -> CellValue {
        match self {
            CellValue::Float(_) => CellValue::Float(v),
            _ => CellValue::Integer(v),
        }
    }
}

/// A dynamically typed value: the kind and the payload cannot disagree.
#[derive(Debug)]
pub enum Value {
    Integer(u32),
    /// A 32-bit float, held as its bit pattern.
    Float(u32),
    Str(String),
}

impl View for Value {
    type V = CellValue;

    open spec fn view(&self) -> CellValue {
        match self {
            Value::Integer(v) => CellValue::Integer(*v),
            Value::Float(v) => CellValue::Float(*v),
            Value::Str(s) => CellValue::Str(s@),
        }
    }
}

impl Value {
    pub fn kind(&self) -> (r: VariableKind)
        ensures
            r == self@.kind(),
    {
        match self {
            Value::Integer(_) => VariableKind::Integer,
            Value::Float(_) => VariableKind::Float,
            Value::Str(_) => VariableKind::String,
        }
    }

    /// A copy that owns its own string, if any.
    pub fn clone(&self) -> (r: Value)
        ensures
            r@ == self@,
    {
        match self {
            Value::Integer(v) => Value::Integer(*v),
            Value::Float(v) => Value::Float(*v),
            Value::Str(s) => Value::Str(s.clone()),
        }
    }

    /// Kind and payload are both equal.
    pub fn equals(&self, other: &Value) -> (r: bool)
        ensures
            r == (self@ == other@),
    {
        match (self, other) {
            (Value::Integer(a), Value::Integer(b)) => *a == *b,
            (Value::Float(a), Value::Float(b)) => *a == *b,
            (Value::Str(a), Value::Str(b)) => a.eq(b),
            _ => false,
        }
    }
}

/// A variable cell: a slot number and the value it holds.
#[derive(Debug)]
pub struct Variable {
    pub id: usize,
    pub value: Value,
}

/// A snapshot of a cell's contents, without its slot number.
#[derive(Debug)]
pub struct VarInfo {
    pub value: Value,
}

impl Variable {
    pub fn new(value: Value, id: usize) -> (r: Variable)
        ensures
            r.id == id,
            r.value@ == value@,
    {
        Variable { id, value }
    }

    pub fn kind(&self) -> (r: VariableKind)
        ensures
            r == self.value@.kind(),
    {
        self.value.kind()
    }

    /// Rebuilds the cell of slot `id` from a snapshot.
    pub fn from_raw(id: usize, raw: &VarInfo) -> (r: Variable)
        ensures
            r.id == id,
            r.value@ == raw.value@,
    {
        Variable { id, value: raw.value.clone() }
    }

    /// Takes a snapshot of the cell's contents.
    pub fn into_raw(&self) -> (r: VarInfo)
        ensures
            r.value@ == self.value@,
    {
        VarInfo { value: self.value.clone() }
    }

    /// Copies kind and value of `other` into this cell; the slot number stays.
    pub fn from(&mut self, other: &Variable)
        ensures
            final(self).id == old(self).id,
            final(self).value@ == other.value@,
    {
        self.value = other.value.clone();
    }

    pub fn clone(&self) -> (r: Variable)
        ensures
            r.id == self.id,
            r.value@ == self.value@,
    {
        Variable { id: self.id, value: self.value.clone() }
    }

    /// Changes the kind of the cell. The 32-bit payload is kept between the
    /// numeric kinds; a change to or from a string starts from that kind's
    /// empty value (0 or "").
    pub fn change(&mut self, kind: VariableKind)
        ensures
            final(self).id == old(self).id,
            final(self).value@ == changed_kind(old(self).value@, kind),
    {
        let bits: u32 = match &self.value {
            Value::Integer(v) => *v,
            Value::Float(v) => *v,
            Value::Str(_) => 0,
        };
        match kind {
            VariableKind::Integer => {
                self.value = Value::Integer(bits);
            },
            VariableKind::Float => {
                self.value = Value::Float(bits);
            },
            VariableKind::String => {
                if self.value.kind() != VariableKind::String {
                    self.value = Value::Str(String::new());
                }
            },
        }
    }

    /// Combines this cell with `other`, which must have the same numeric
    /// kind: the cell's payload becomes `f(own payload, other's payload)`
    /// and the kind stays. Strings and mismatched kinds are refused.
    pub fn do_stuff<F: Fn(u32, u32) -> u32>(&mut self, other: &Variable, f: F) -> (r: Result<(), OpcodeHandlerErr>)
        requires
            same_numeric(old(self).value@, other.value@) ==> f.requires(
                (old(self).value@.bits(), other.value@.bits()),
            ),
        ensures
            final(self).id == old(self).id,
            same_numeric(old(self).value@, other.value@) ==> r.is_ok() && f.ensures(
                (old(self).value@.bits(), other.value@.bits()),
                final(self).value@.bits(),
            ) && final(self).value@ == old(self).value@.with_bits(final(self).value@.bits()),
            !same_numeric(old(self).value@, other.value@) ==> r == Err::<(), OpcodeHandlerErr>(
                OpcodeHandlerErr::NotCorrectType,
            ) && final(self).value@ == old(self).value@,
    {
        let v = match (&self.value, &other.value) {
            (Value::Integer(a), Value::Integer(b)) => Value::Integer(f(*a, *b)),
            (Value::Float(a), Value::Float(b)) => Value::Float(f(*a, *b)),
            _ => {
                return Err(OpcodeHandlerErr::NotCorrectType);
            },
        };
        self.value = v;
        Ok(())
    }

    pub fn eq_types(&self, other: &Variable) -> (r: bool)
        ensures
            r == (self.value@.kind() == other.value@.kind()),
    {
        self.value.kind() == other.value.kind()
    }

    /// Equal kinds and equal payloads.
    pub fn eq(&self, other: &Variable) -> (r: bool)
        ensures
            r == (self.value@ == other.value@),
    {
        self.value.equals(&other.value)
    }
}

/// Both values are integers, or both are floats.
pub open spec fn same_numeric(a: CellValue, b: CellValue) -> bool {
    (a is Integer && b is Integer) || (a is Float && b is Float)
}

/// What `change` makes of a value.
pub open spec fn changed_kind(v: CellValue, kind: VariableKind) -> CellValue {
    match kind {
        VariableKind::Integer => CellValue::Integer(v.bits()),
        VariableKind::Float => CellValue::Float(v.bits()),
        VariableKind::String => match v {
            CellValue::Str(_) => v,
            _ => CellValue::Str(Seq::empty()),
        },
    }
}

} // verus!
