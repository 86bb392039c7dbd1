use vstd::prelude::*;

verus! {

/// Why an opcode handler could not complete.
#[derive(Debug, Clone, Copy, PartialEq, Eq, Structural)]
pub enum OpcodeHandlerErr {
    /// An operand was missing, truncated or carried an unexpected tag.
    CannotParseArg,
    /// `if` was given a selector that names no logical combinator.
    UndefinedCondArg,
    /// An operand or a variable had a kind that the opcode cannot work with.
    NotCorrectType,
    /// Integer division by zero.
    DivideByZero,
    /// `ret` found no call frame to return to.
    NoCallFrame,
    /// A memory handle that names no live block (null handles excepted).
    InvalidHandle,
}

impl OpcodeHandlerErr {
    /// A short human-readable description, as shown in the error log.
    pub fn description(&self) -> &'static str {
        match self {
            OpcodeHandlerErr::CannotParseArg => "Cannot parse arguments of opcode",
            OpcodeHandlerErr::UndefinedCondArg => "Undefined an argument of condition",
            OpcodeHandlerErr::NotCorrectType => "This type is not correct",
            OpcodeHandlerErr::DivideByZero => "Division by zero",
            OpcodeHandlerErr::NoCallFrame => "Return without a matching call",
            OpcodeHandlerErr::InvalidHandle => "Memory handle is not allocated",
        }
    }
}

} // verus!
