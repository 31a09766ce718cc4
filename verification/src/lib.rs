//! Generation and validation of Movement Reference Numbers (MRNs):
//! 18-character, checksum-protected identifiers for customs declarations.

mod assemble;
mod checksum;
mod errors;
mod procedure;
mod text;
mod values;

pub use assemble::assemble_mrn;
pub use assemble::generate_random_mrn;
pub use checksum::check_remainder_value;
pub use checksum::is_mrn_valid;
pub use errors::MrnGeneratorError;
pub use procedure::match_procedure;
pub use procedure::procecure_category_to_char;
pub use procedure::Procedure;
pub use text::capitalize;
pub use text::replace_last_char;
pub use values::check_character_value;
