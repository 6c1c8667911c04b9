use vstd::prelude::*;
use crate::value::{decimal_digits, nat_digits};

verus! {

/// Everything that can go wrong while building or running a project.
#[derive(Debug, PartialEq)]
pub enum Error {
    /// The opcode has no `category_operation` shape, or names no known category.
    UnknownOpcode { id: String, opcode: String },
    /// The category knows no operation of this name.
    UnknownOperation { name: String },
    /// Building the block `id` of `category` failed.
    BlockInitialization { id: String, category: String, source: Box<Error> },
    /// Wiring the input `key` of block `id` failed.
    BlockInput { id: String, key: String, source: Box<Error> },
    /// No record has this id.
    MissingBlock { id: String },
    /// Following next-links and inputs from this block never ends.
    CyclicBlocks { id: String },
    /// An input descriptor is not a list, or lacks its second item.
    InvalidType,
    /// An inline literal or variable descriptor lacks its payload.
    InvalidInputType,
    /// The type tag of an inline descriptor is neither 1, 2 nor 3.
    InvalidInputTypeId,
    /// A field of block `id` holds no value.
    InvalidField { id: String, key: String },
    /// A required input slot was never wired.
    UnsetInput { slot: String },
    /// A text that was needed as a number is no numeral.
    NotANumber { text: String },
    /// A truth value was needed as a number.
    ExpectedNumber,
    /// A number does not fit the exact decimal representation.
    NumberOutOfRange,
    /// The block is not a reporter.
    NoValue,
    /// The block is not a statement.
    CannotExecute,
    /// The variable was never set.
    MissingVariable { id: String },
    /// The bus had no subscriber to deliver to.
    NoSubscribers,
    /// There is no costume with this index.
    CostumeOutOfRange { index: usize },
    /// A color is not written `#rrggbb`.
    InvalidColor { text: String },
}

/// The message that tells a user what went wrong, with every block id and slot on the way.
pub open spec fn error_text(e: Error) -> Seq<char>
    decreases e,
{
    match e {
        Error::UnknownOpcode { id, opcode } => "block \""@ + id@ + "\": opcode "@ + opcode@
            + " does not exist"@,
        Error::UnknownOperation { name } => name@ + " does not exist"@,
        Error::BlockInitialization { id, category, source } => "block \""@ + id@ + "\" ("@
            + category@ + "): "@ + error_text(*source),
        Error::BlockInput { id, key, source } => "block \""@ + id@ + "\", input "@ + key@ + ": "@
            + error_text(*source),
        Error::MissingBlock { id } => "could not find block: "@ + id@,
        Error::CyclicBlocks { id } => "block \""@ + id@ + "\" leads back to itself"@,
        Error::InvalidType => "invalid type"@,
        Error::InvalidInputType => "invalid input type"@,
        Error::InvalidInputTypeId => "invalid input type id"@,
        Error::InvalidField { id, key } => "block \""@ + id@ + "\": invalid field "@ + key@,
        Error::UnsetInput { slot } => "input "@ + slot@ + " is not set"@,
        Error::NotANumber { text } => "not a number: "@ + text@,
        Error::ExpectedNumber => "expected a number"@,
        Error::NumberOutOfRange => "number out of range"@,
        Error::NoValue => "this block does not return a value"@,
        Error::CannotExecute => "this block cannot be executed"@,
        Error::MissingVariable { id } => "variable "@ + id@ + " does not exist"@,
        Error::NoSubscribers => "nobody listens on the bus"@,
        Error::CostumeOutOfRange { index } => "costume index out of range: "@ + nat_digits(
            index as nat,
        ),
        Error::InvalidColor { text } => "invalid color: "@ + text@,
    }
}

impl Error {
    /// The message that tells a user what went wrong.
    pub fn describe(&self) -> (r: String)
        ensures
            r@ == error_text(*self),
        decreases self,
    {
        match self {
            Error::UnknownOpcode { id, opcode } => {
                String::from_str("block \"").concat(id.as_str()).concat("\": opcode ").concat(
                    opcode.as_str(),
                ).concat(" does not exist")
            },
            Error::UnknownOperation { name } => name.clone().concat(" does not exist"),
            Error::BlockInitialization { id, category, source } => {
                let inner = source.describe();
                String::from_str("block \"").concat(id.as_str()).concat("\" (").concat(
                    category.as_str(),
                ).concat("): ").concat(inner.as_str())
            },
            Error::BlockInput { id, key, source } => {
                let inner = source.describe();
                String::from_str("block \"").concat(id.as_str()).concat("\", input ").concat(
                    key.as_str(),
                ).concat(": ").concat(inner.as_str())
            },
            Error::MissingBlock { id } => String::from_str("could not find block: ").concat(
                id.as_str(),
            ),
            Error::CyclicBlocks { id } => String::from_str("block \"").concat(id.as_str()).concat(
                "\" leads back to itself",
            ),
            Error::InvalidType => String::from_str("invalid type"),
            Error::InvalidInputType => String::from_str("invalid input type"),
            Error::InvalidInputTypeId => String::from_str("invalid input type id"),
            Error::InvalidField { id, key } => String::from_str("block \"").concat(id.as_str()).concat(
                "\": invalid field ",
            ).concat(key.as_str()),
            Error::UnsetInput { slot } => String::from_str("input ").concat(slot.as_str()).concat(
                " is not set",
            ),
            Error::NotANumber { text } => String::from_str("not a number: ").concat(text.as_str()),
            Error::ExpectedNumber => String::from_str("expected a number"),
            Error::NumberOutOfRange => String::from_str("number out of range"),
            Error::NoValue => String::from_str("this block does not return a value"),
            Error::CannotExecute => String::from_str("this block cannot be executed"),
            Error::MissingVariable { id } => String::from_str("variable ").concat(id.as_str()).concat(
                " does not exist",
            ),
            Error::NoSubscribers => String::from_str("nobody listens on the bus"),
            Error::CostumeOutOfRange { index } => {
                let digits = decimal_digits(*index as u64);
                String::from_str("costume index out of range: ").concat(digits.as_str())
            },
            Error::InvalidColor { text } => String::from_str("invalid color: ").concat(text.as_str()),
        }
    }
}

} // verus!
