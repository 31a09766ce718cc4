use vstd::prelude::*;

verus! {

/// Every failure this library reports. Each call returns its failure to the
/// caller explicitly; nothing is corrected silently and nothing is retried.
#[derive(Debug, PartialEq)]
pub enum MrnGeneratorError {
    /// The country code was not exactly two characters long.
    CountryCodeLength(String),
    /// The procedure category code matched no known pattern, and no
    /// combination code was supplied.
    InvalidProcedureCategory(String),
    /// The procedure category code was combined with a combination code that
    /// it does not support.
    InvalidProcedureCategoryCombination {
        procedure_category: String,
        combination: String,
    },
    /// A character outside the alphanumeric range appeared where a checksum
    /// value was required.
    NotAlphanumeric(char),
}

} // verus!
