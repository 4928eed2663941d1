use vstd::prelude::*;

verus! {

/// The fatal conditions of the mapping engine.
///
/// Both stop processing of the enclosing table: the engine fails loudly
/// rather than producing a table with silently dropped or misattributed
/// data. A missing localized name is not an error and is represented by
/// `None` at the lookup instead.
#[derive(Debug, PartialEq)]
pub enum BdtError {
    /// A column's reference code matches none of the known generic slot
    /// families; carries the offending reference code.
    UnrecognizedSlotPattern { ref_code: String },
    /// A data row carries a value in a generic slot for which the schema
    /// defines no column, or two columns claim the same slot; carries the
    /// slot's reference code.
    SchemaViolation { ref_code: String },
}

impl Clone for BdtError {
    fn clone(&self) -> (r: Self)
        ensures
            r == *self,
    {
        match self {
            BdtError::UnrecognizedSlotPattern { ref_code } => BdtError::UnrecognizedSlotPattern {
                ref_code: ref_code.clone(),
            },
            BdtError::SchemaViolation { ref_code } => BdtError::SchemaViolation {
                ref_code: ref_code.clone(),
            },
        }
    }
}

impl BdtError {
    /// The reference code the error reports.
    pub fn ref_code(&self) -> (r: &String)
        ensures
            r == self.spec_ref_code(),
    {
        match self {
            BdtError::UnrecognizedSlotPattern { ref_code } => ref_code,
            BdtError::SchemaViolation { ref_code } => ref_code,
        }
    }

    pub open spec fn spec_ref_code(&self) -> String {
        match self {
            BdtError::UnrecognizedSlotPattern { ref_code } => *ref_code,
            BdtError::SchemaViolation { ref_code } => *ref_code,
        }
    }
}

} // verus!
