//! What a transformation reports instead of a plan.

use polars::prelude::PolarsError;
use vstd::prelude::*;

verus! {

/// Why a transformation's configuration could not be turned into a plan
/// step. These are mistakes of the caller, found before anything is
/// executed.
#[derive(Clone, Copy, Debug, PartialEq, Eq, Structural)]
pub enum ConfigError {
    /// A clause applies an arithmetic operator to its column.
    ArithmeticOperator,
    /// A clause uses logical negation on its own.
    BareNot,
    /// A clause uses a horizontal all/any reduction.
    HorizontalReduction,
    /// A clause uses the boolean membership function instead of the
    /// membership operator that carries the candidate values.
    BareIsIn,
    /// A join was configured without a right-hand plan.
    MissingRightFrame,
    /// A join was configured with an empty list of keys on one side.
    EmptyJoinKeys,
    /// A sort gives per-column flags whose count differs from the number of
    /// sort columns.
    SortFlagCount,
}

impl ConfigError {
    /// The text that describes the error.
    pub open spec fn message_text(self) -> Seq<char> {
        match self {
            ConfigError::ArithmeticOperator => "Cannot use arithmetic operators in a filter step"@,
            ConfigError::BareNot =>
                "Cannot use `Not` Expression by itself to construct a Filter step"@,
            ConfigError::HorizontalReduction =>
                "Cannot use AllHorizontal & AnyHorizontal to construct a Filter step"@,
            ConfigError::BareIsIn =>
                "Cannot use BooleanFunction::IsIn, please use FilterOperators::IsIn instead"@,
            ConfigError::MissingRightFrame => "Expected a right Dataframe"@,
            ConfigError::EmptyJoinKeys => "No columns to join on"@,
            ConfigError::SortFlagCount => "Expected one flag for each column to sort by"@,
        }
    }

    /// Describes the error in words.
    pub fn message(&self) -> (text: String)
        ensures
            text@ == self.message_text(),
    {
        match self {
            ConfigError::ArithmeticOperator => {
                "Cannot use arithmetic operators in a filter step".to_string()
            },
            ConfigError::BareNot => {
                "Cannot use `Not` Expression by itself to construct a Filter step".to_string()
            },
            ConfigError::HorizontalReduction => {
                "Cannot use AllHorizontal & AnyHorizontal to construct a Filter step".to_string()
            },
            ConfigError::BareIsIn => {
                "Cannot use BooleanFunction::IsIn, please use FilterOperators::IsIn instead".to_string()
            },
            ConfigError::MissingRightFrame => "Expected a right Dataframe".to_string(),
            ConfigError::EmptyJoinKeys => "No columns to join on".to_string(),
            ConfigError::SortFlagCount => {
                "Expected one flag for each column to sort by".to_string()
            },
        }
    }
}

/// Why a transformation produced no plan.
#[derive(Debug)]
pub enum TransformError {
    /// The configuration is invalid; no plan step was built.
    Config(ConfigError),
    /// The engine failed while it executed a plan, and this is its report.
    Engine(PolarsError),
}

} // verus!
