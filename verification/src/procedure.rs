use crate::errors::MrnGeneratorError;
use crate::text::str_eq;
use vstd::prelude::*;

verus! {

/// The closed vocabulary of customs procedure combinations an MRN can
/// encode. Values are only constructed through [`match_procedure`] and never
/// mutated.
#[derive(Debug, PartialEq, Eq, Structural, Clone, Copy)]
pub enum Procedure {
    ExportOnly,
    ExportAndExitSummaryDeclaration,
    ExitSummaryDeclarationOnly,
    ReExportNotification,
    DispatchOfGoodsInRelationWithSpecialFiscalTerritories,
    TransitDeclarationOnly,
    TransitDeclarationAndExitSummaryDeclaration,
    TransitDeclarationAndEntrySummaryDeclaration,
    ProofOfTheCustomsStatusOfUnionGoods,
    ImportDeclarationOnly,
    ImportDeclarationAndEntrySummaryDeclaration,
    EntrySummaryDeclarationOnly,
    TemporaryStorageDeclaration,
    IntroductionOfGoodsInRelationWithSpecialFiscalTerritories,
    TemporaryStorageDeclarationAndEntrySummaryDeclaration,
}

/// The single encoding character of each procedure variant. The letters run
/// A through W but skip F..I, N..Q: the sequence is part of the format and
/// is kept exactly.
pub open spec fn procedure_char(p: Procedure) -> char {
    match p {
        Procedure::ExportOnly => 'A',
        Procedure::ExportAndExitSummaryDeclaration => 'B',
        Procedure::ExitSummaryDeclarationOnly => 'C',
        Procedure::ReExportNotification => 'D',
        Procedure::DispatchOfGoodsInRelationWithSpecialFiscalTerritories => 'E',
        Procedure::TransitDeclarationOnly => 'J',
        Procedure::TransitDeclarationAndExitSummaryDeclaration => 'K',
        Procedure::TransitDeclarationAndEntrySummaryDeclaration => 'L',
        Procedure::ProofOfTheCustomsStatusOfUnionGoods => 'M',
        Procedure::ImportDeclarationOnly => 'R',
        Procedure::ImportDeclarationAndEntrySummaryDeclaration => 'S',
        Procedure::EntrySummaryDeclarationOnly => 'T',
        Procedure::TemporaryStorageDeclaration => 'U',
        Procedure::IntroductionOfGoodsInRelationWithSpecialFiscalTerritories => 'V',
        Procedure::TemporaryStorageDeclarationAndEntrySummaryDeclaration => 'W',
    }
}

/// Every encoding character is an uppercase ASCII letter, so it always
/// carries a checksum value.
pub proof fn lemma_procedure_char_ok(p: Procedure)
    ensures
        65 <= procedure_char(p) as int <= 90,
{
}

/// Maps a procedure variant to its single encoding character.
pub fn procecure_category_to_char(procedure: Procedure) -> (r: char)
    ensures
        r == procedure_char(procedure),
{
    match procedure {
        Procedure::ExportOnly => 'A',
        Procedure::ExportAndExitSummaryDeclaration => 'B',
        Procedure::ExitSummaryDeclarationOnly => 'C',
        Procedure::ReExportNotification => 'D',
        Procedure::DispatchOfGoodsInRelationWithSpecialFiscalTerritories => 'E',
        Procedure::TransitDeclarationOnly => 'J',
        Procedure::TransitDeclarationAndExitSummaryDeclaration => 'K',
        Procedure::TransitDeclarationAndEntrySummaryDeclaration => 'L',
        Procedure::ProofOfTheCustomsStatusOfUnionGoods => 'M',
        Procedure::ImportDeclarationOnly => 'R',
        Procedure::ImportDeclarationAndEntrySummaryDeclaration => 'S',
        Procedure::EntrySummaryDeclarationOnly => 'T',
        Procedure::TemporaryStorageDeclaration => 'U',
        Procedure::IntroductionOfGoodsInRelationWithSpecialFiscalTerritories => 'V',
        Procedure::TemporaryStorageDeclarationAndEntrySummaryDeclaration => 'W',
    }
}

/// The view of an optional string argument.
pub open spec fn opt_view(o: Option<&str>) -> Option<Seq<char>> {
    match o {
        Some(s) => Some(s@),
        None => None,
    }
}

/// A code of the export declaration family.
pub open spec fn is_export_code(code: Seq<char>) -> bool {
    code == "B1"@ || code == "B2"@ || code == "B3"@ || code == "C1"@
}

/// A code of the transit declaration family.
pub open spec fn is_transit_code(code: Seq<char>) -> bool {
    code == "D1"@ || code == "D2"@ || code == "D3"@
}

/// A code of the import declaration family.
pub open spec fn is_import_code(code: Seq<char>) -> bool {
    code == "H1"@ || code == "H2"@ || code == "H3"@ || code == "H4"@ || code == "H6"@ || code
        == "I1"@
}

/// A code of the entry summary declaration family.
pub open spec fn is_entry_summary_code(code: Seq<char>) -> bool {
    ||| code == "F1a"@
    ||| code == "F1b"@
    ||| code == "F1c"@
    ||| code == "F1d"@
    ||| code == "F2a"@
    ||| code == "F2b"@
    ||| code == "F2c"@
    ||| code == "F2d"@
    ||| code == "F3a"@
    ||| code == "F3b"@
    ||| code == "F4a"@
    ||| code == "F4b"@
    ||| code == "F4c"@
    ||| code == "F5"@
}

/// The ordered rule table of the registry: the first matching rule decides.
/// Codes of the export and transit families stand alone or combine with
/// "A"; transit, import and temporary storage codes combine with "F"; the
/// rest carry a single outcome. A code outside the table, or a known code
/// with an unsupported combination, has no outcome.
pub open spec fn procedure_lookup(code: Seq<char>, combined: Option<Seq<char>>) -> Option<
    Procedure,
> {
    if is_export_code(code) && combined is None {
        Some(Procedure::ExportOnly)
    } else if is_export_code(code) && combined == Some("A"@) {
        Some(Procedure::ExportAndExitSummaryDeclaration)
    } else if code == "A1"@ || code == "A2"@ {
        Some(Procedure::ExitSummaryDeclarationOnly)
    } else if code == "A3"@ {
        Some(Procedure::ReExportNotification)
    } else if code == "B4"@ {
        Some(Procedure::DispatchOfGoodsInRelationWithSpecialFiscalTerritories)
    } else if is_transit_code(code) && combined is None {
        Some(Procedure::TransitDeclarationOnly)
    } else if is_transit_code(code) && combined == Some("A"@) {
        Some(Procedure::TransitDeclarationAndExitSummaryDeclaration)
    } else if is_transit_code(code) && combined == Some("F"@) {
        Some(Procedure::TransitDeclarationAndEntrySummaryDeclaration)
    } else if code == "E1"@ || code == "E2"@ {
        Some(Procedure::ProofOfTheCustomsStatusOfUnionGoods)
    } else if is_import_code(code) && combined is None {
        Some(Procedure::ImportDeclarationOnly)
    } else if is_import_code(code) && combined == Some("F"@) {
        Some(Procedure::ImportDeclarationAndEntrySummaryDeclaration)
    } else if is_entry_summary_code(code) {
        Some(Procedure::EntrySummaryDeclarationOnly)
    } else if code == "H5"@ {
        Some(Procedure::IntroductionOfGoodsInRelationWithSpecialFiscalTerritories)
    } else if code == "G4"@ && combined is None {
        Some(Procedure::TemporaryStorageDeclaration)
    } else if code == "G4"@ && combined == Some("F"@) {
        Some(Procedure::TemporaryStorageDeclarationAndEntrySummaryDeclaration)
    } else {
        None
    }
}

/// Looks a procedure category code up, optionally combined with another
/// code, and returns the procedure it denotes. A code with no outcome in
/// the table fails with `InvalidProcedureCategory` when no combination was
/// supplied, else with `InvalidProcedureCategoryCombination`; both carry the
/// offending strings.
pub fn match_procedure(proctgr: &str, combined: Option<&str>) -> (r: Result<
    Procedure,
    MrnGeneratorError,
>)
    ensures
        ({
            let outcome = procedure_lookup(proctgr@, opt_view(combined));
            match r {
                Ok(p) => outcome == Some(p),
                Err(e) => outcome is None && match e {
                    MrnGeneratorError::InvalidProcedureCategory(s) => combined is None && s@
                        == proctgr@,
                    MrnGeneratorError::InvalidProcedureCategoryCombination {
                        procedure_category,
                        combination,
                    } => (combined matches Some(c) && procedure_category@ == proctgr@
                        && combination@ == c@),
                    _ => false,
                },
            }
        }),
{
    let comb_none = combined.is_none();
    let comb_a = match combined {
        Some(c) => str_eq(c, "A"),
        None => false,
    };
    let comb_f = match combined {
        Some(c) => str_eq(c, "F"),
        None => false,
    };
    let export_code = str_eq(proctgr, "B1") || str_eq(proctgr, "B2") || str_eq(proctgr, "B3")
        || str_eq(proctgr, "C1");
    let transit_code = str_eq(proctgr, "D1") || str_eq(proctgr, "D2") || str_eq(proctgr, "D3");
    let import_code = str_eq(proctgr, "H1") || str_eq(proctgr, "H2") || str_eq(proctgr, "H3")
        || str_eq(proctgr, "H4") || str_eq(proctgr, "H6") || str_eq(proctgr, "I1");
    let entry_summary_code = str_eq(proctgr, "F1a") || str_eq(proctgr, "F1b") || str_eq(
        proctgr,
        "F1c",
    ) || str_eq(proctgr, "F1d") || str_eq(proctgr, "F2a") || str_eq(proctgr, "F2b") || str_eq(
        proctgr,
        "F2c",
    ) || str_eq(proctgr, "F2d") || str_eq(proctgr, "F3a") || str_eq(proctgr, "F3b") || str_eq(
        proctgr,
        "F4a",
    ) || str_eq(proctgr, "F4b") || str_eq(proctgr, "F4c") || str_eq(proctgr, "F5");
    if export_code && comb_none {
        Ok(Procedure::ExportOnly)
    } else if export_code && comb_a {
        Ok(Procedure::ExportAndExitSummaryDeclaration)
    } else if str_eq(proctgr, "A1") || str_eq(proctgr, "A2") {
        Ok(Procedure::ExitSummaryDeclarationOnly)
    } else if str_eq(proctgr, "A3") {
        Ok(Procedure::ReExportNotification)
    } else if str_eq(proctgr, "B4") {
        Ok(Procedure::DispatchOfGoodsInRelationWithSpecialFiscalTerritories)
    } else if transit_code && comb_none {
        Ok(Procedure::TransitDeclarationOnly)
    } else if transit_code && comb_a {
        Ok(Procedure::TransitDeclarationAndExitSummaryDeclaration)
    } else if transit_code && comb_f {
        Ok(Procedure::TransitDeclarationAndEntrySummaryDeclaration)
    } else if str_eq(proctgr, "E1") || str_eq(proctgr, "E2") {
        Ok(Procedure::ProofOfTheCustomsStatusOfUnionGoods)
    } else if import_code && comb_none {
        Ok(Procedure::ImportDeclarationOnly)
    } else if import_code && comb_f {
        Ok(Procedure::ImportDeclarationAndEntrySummaryDeclaration)
    } else if entry_summary_code {
        Ok(Procedure::EntrySummaryDeclarationOnly)
    } else if str_eq(proctgr, "H5") {
        Ok(Procedure::IntroductionOfGoodsInRelationWithSpecialFiscalTerritories)
    } else if str_eq(proctgr, "G4") && comb_none {
        Ok(Procedure::TemporaryStorageDeclaration)
    } else if str_eq(proctgr, "G4") && comb_f {
        Ok(Procedure::TemporaryStorageDeclarationAndEntrySummaryDeclaration)
    } else {
        match combined {
            Some(c) => Err(
                MrnGeneratorError::InvalidProcedureCategoryCombination {
                    procedure_category: String::from_str(proctgr),
                    combination: String::from_str(c),
                },
            ),
            None => Err(MrnGeneratorError::InvalidProcedureCategory(String::from_str(proctgr))),
        }
    }
}

} // verus!
