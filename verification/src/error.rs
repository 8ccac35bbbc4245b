use vstd::prelude::*;

verus! {

/// Why an operation was refused. Every refusal happens before anything is
/// written, so a refused operation leaves all records as they were.
#[derive(Clone, Copy, Debug, PartialEq, Eq, Structural)]
pub enum ErrorCode {
    /// A transfer declared a weight other than its parent's.
    WeightMismatchOnTransfer,
    /// A mix named fewer than two parents.
    MixRequiresMultipleParents,
    /// A split named fewer than two children.
    SplitRequiresMultipleChildren,
    /// A mix named more than ten parents.
    TooManyParents,
    /// A split named more than ten children.
    TooManyChildren,
    /// A split gave a number of shares other than the number of children.
    ChildKeyWeightMismatch,
    /// The shares of a split do not add up to the parent's weight.
    SplitWeightMismatch,
    /// The parents of a mix weigh more together than a weight can hold.
    WeightOverflow,
    /// Someone other than a record's owner asked to change its lineage.
    UnauthorizedUpdate,
}

impl ErrorCode {
    /// The text shown to a caller for each kind of refusal.
    pub open spec fn message_text(self) -> Seq<char> {
        match self {
            ErrorCode::WeightMismatchOnTransfer => "Weight must remain the same during transfer"@,
            ErrorCode::MixRequiresMultipleParents => "Mix operation requires at least 2 parent crates"@,
            ErrorCode::SplitRequiresMultipleChildren => "Split operation requires at least 2 child crates"@,
            ErrorCode::TooManyParents => "Too many parent crates (max 10)"@,
            ErrorCode::TooManyChildren => "Too many child crates (max 10)"@,
            ErrorCode::ChildKeyWeightMismatch => "Child keys and weights arrays must have same length"@,
            ErrorCode::SplitWeightMismatch => "Sum of split weights must equal parent weight"@,
            ErrorCode::WeightOverflow => "Weight calculation overflow"@,
            ErrorCode::UnauthorizedUpdate => "Unauthorized to update this record"@,
        }
    }

    /// Renders the refusal as text.
    pub fn message(&self) -> (text: &'static str)
        ensures
            text@ == self.message_text(),
    {
        match self {
            ErrorCode::WeightMismatchOnTransfer => "Weight must remain the same during transfer",
            ErrorCode::MixRequiresMultipleParents => "Mix operation requires at least 2 parent crates",
            ErrorCode::SplitRequiresMultipleChildren => "Split operation requires at least 2 child crates",
            ErrorCode::TooManyParents => "Too many parent crates (max 10)",
            ErrorCode::TooManyChildren => "Too many child crates (max 10)",
            ErrorCode::ChildKeyWeightMismatch => "Child keys and weights arrays must have same length",
            ErrorCode::SplitWeightMismatch => "Sum of split weights must equal parent weight",
            ErrorCode::WeightOverflow => "Weight calculation overflow",
            ErrorCode::UnauthorizedUpdate => "Unauthorized to update this record",
        }
    }
}

} // verus!
