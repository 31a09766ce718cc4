use chrono::Datelike;
use mrn_generator::{
    assemble_mrn, capitalize, check_character_value, check_remainder_value, generate_random_mrn,
    is_mrn_valid, match_procedure, procecure_category_to_char, replace_last_char,
    MrnGeneratorError, Procedure,
};

#[test]
fn generate_random_mrn_test() {
    let mrn = generate_random_mrn("DK", Some(Procedure::ExportOnly), None).unwrap();

    let country_code: String = mrn.chars().skip(2).take(2).collect();
    let actual_year: String = mrn.chars().take(2).collect();
    let expected_year: String = chrono::Utc::now().year().to_string().chars().skip(2).collect();
    let procedure_char: char = mrn.chars().nth(16).unwrap();
    assert_eq!(18, mrn.len());
    assert_eq!(expected_year, actual_year);
    assert_eq!('A', procedure_char);
    assert_eq!("DK".to_string(), country_code);
    assert_eq!(None, is_mrn_valid(&mrn).unwrap());
}

#[test]
fn generate_random_mrn_test_without_procedure() {
    let mrn = generate_random_mrn("DK", None, None).unwrap();

    let country_code: String = mrn.chars().skip(2).take(2).collect();
    let actual_year: String = mrn.chars().take(2).collect();
    let expected_year: String = chrono::Utc::now().year().to_string().chars().skip(2).collect();
    assert_eq!(18, mrn.len());
    assert_eq!(expected_year, actual_year);
    assert_eq!("DK".to_string(), country_code);
    assert_eq!(None, is_mrn_valid(&mrn).unwrap());
}

#[test]
fn generate_random_mrn_test_with_declaration_office() {
    let mrn = generate_random_mrn("DK", None, Some("004700")).unwrap();

    let country_code: String = mrn.chars().skip(2).take(2).collect();
    let actual_year: String = mrn.chars().take(2).collect();
    let declaration_office: String = mrn.chars().skip(4).take(6).collect();
    let expected_year: String = chrono::Utc::now().year().to_string().chars().skip(2).collect();
    assert_eq!(18, mrn.len());
    assert_eq!(expected_year, actual_year);
    assert_eq!("DK".to_string(), country_code);
    assert_eq!("004700".to_string(), declaration_office);
    assert_eq!(None, is_mrn_valid(&mrn).unwrap());
}

#[test]
fn is_mrn_valid_test() {
    assert_eq!(None, is_mrn_valid("22ITZXBZYUTJFLJXK6").unwrap());
    assert_eq!(Some('1'), is_mrn_valid("22DK1V0QQK2S6J7TU2").unwrap());
}

#[test]
fn procedure_matched_test() {
    assert_eq!(Procedure::ExportOnly, match_procedure("B1", None).unwrap());
    assert_eq!(
        Procedure::ExportAndExitSummaryDeclaration,
        match_procedure("B2", Some("A")).unwrap()
    );
}

#[test]
fn procedure_not_matched_test() {
    assert_eq!(
        Err(MrnGeneratorError::InvalidProcedureCategoryCombination {
            procedure_category: "B2".to_string(),
            combination: "B".to_string()
        }),
        match_procedure("B2", Some("B"))
    );

    let invalid_procedure_category = "not a valid procedure 🤡";

    assert_eq!(
        Err(MrnGeneratorError::InvalidProcedureCategory(
            invalid_procedure_category.to_string()
        )),
        match_procedure(invalid_procedure_category, None)
    );
    assert_eq!(
        Err(MrnGeneratorError::InvalidProcedureCategoryCombination {
            procedure_category: invalid_procedure_category.to_string(),
            combination: "F".to_string()
        }),
        match_procedure(invalid_procedure_category, Some("F"))
    );
}

#[test]
fn capitalize_test() {
    assert_eq!("BAT", capitalize("bat"))
}

#[test]
fn replace_last_char_test() {
    assert_eq!("bar", replace_last_char("bat", 'r'))
}

#[test]
fn check_remainder_value_test() {
    assert_eq!(None, check_remainder_value(3, '3'));
    assert_eq!(None, check_remainder_value(10, '0'));
    assert_eq!(Some('3'), check_remainder_value(3, '5'));
    assert_eq!(Some('0'), check_remainder_value(10, '9'));
}

#[test]
fn check_character_value_test() {
    assert_eq!(3, check_character_value('3').unwrap());
    assert_eq!(10, check_character_value('A').unwrap());
    assert_eq!(13, check_character_value('C').unwrap());
    assert_eq!(35, check_character_value('W').unwrap());
    assert_eq!(
        Err(MrnGeneratorError::NotAlphanumeric('🤡')),
        check_character_value('🤡')
    );
}

#[test]
fn check_character_value_rejects_star() {
    assert_eq!(
        Err(MrnGeneratorError::NotAlphanumeric('*')),
        check_character_value('*')
    );
}

#[test]
fn assemble_known_valid_mrn() {
    // The draft is already a valid MRN, so it comes back unchanged.
    let filler: Vec<u8> = b"zxbzyutjfljxk6".to_vec();
    let mrn = assemble_mrn("it", None, None, 2022, &filler).unwrap();
    assert_eq!("22ITZXBZYUTJFLJXK6", mrn);
}

#[test]
fn assemble_corrects_check_digit() {
    // The draft's last character fails the check and is replaced by '1'.
    let filler: Vec<u8> = b"1v0qqk2s6j7tu2".to_vec();
    let mrn = assemble_mrn("dk", None, None, 2022, &filler).unwrap();
    assert_eq!("22DK1V0QQK2S6J7TU1", mrn);
}

#[test]
fn assemble_with_office_code_keeps_it_verbatim() {
    let filler: Vec<u8> = b"1v0qqk2s".to_vec();
    let mrn = assemble_mrn("dk", None, Some("004700"), 2022, &filler).unwrap();
    assert_eq!(18, mrn.len());
    assert_eq!("004700", &mrn[4..10]);
    assert_eq!("1V0QQK", &mrn[10..16]);
    assert_eq!(None, is_mrn_valid(&mrn).unwrap());
}

#[test]
fn assemble_with_procedure_sets_position_16() {
    let filler: Vec<u8> = b"1v0qqk2s6j7tu2".to_vec();
    let mrn = assemble_mrn("dk", Some(Procedure::TransitDeclarationOnly), None, 2022, &filler)
        .unwrap();
    assert_eq!(18, mrn.len());
    assert_eq!('J', mrn.chars().nth(16).unwrap());
    assert_eq!(None, is_mrn_valid(&mrn).unwrap());
}

#[test]
fn correction_is_idempotent_on_example() {
    let candidate = "22DK1V0QQK2S6J7TU2";
    let correction = is_mrn_valid(candidate).unwrap().unwrap();
    let repaired = replace_last_char(candidate, correction);
    assert_eq!(None, is_mrn_valid(&repaired).unwrap());
}

#[test]
fn generated_filler_is_uppercase_alphanumeric() {
    let mrn = generate_random_mrn("DK", None, None).unwrap();
    for c in mrn.chars().skip(4).take(12) {
        assert!(c.is_ascii_digit() || c.is_ascii_uppercase());
    }
}

#[test]
fn generate_rejects_long_country_code() {
    assert_eq!(
        Err(MrnGeneratorError::CountryCodeLength("DNK".to_string())),
        generate_random_mrn("DNK", None, None)
    );
}

#[test]
fn generate_rejects_non_alphanumeric_country_code() {
    assert_eq!(
        Err(MrnGeneratorError::NotAlphanumeric('*')),
        generate_random_mrn("D*", None, None)
    );
}

#[test]
fn generate_with_longest_office_code() {
    let mrn = generate_random_mrn("DK", None, Some("0047000047000")).unwrap();
    assert_eq!(18, mrn.len());
    assert_eq!("0047000047000", &mrn[4..17]);
    assert_eq!(None, is_mrn_valid(&mrn).unwrap());
}

#[test]
fn procedure_characters_follow_the_table() {
    assert_eq!('A', procecure_category_to_char(Procedure::ExportOnly));
    assert_eq!('J', procecure_category_to_char(Procedure::TransitDeclarationOnly));
    assert_eq!(
        'W',
        procecure_category_to_char(Procedure::TemporaryStorageDeclarationAndEntrySummaryDeclaration)
    );
}

#[test]
fn transit_procedure_combinations() {
    assert_eq!(
        Procedure::TransitDeclarationAndEntrySummaryDeclaration,
        match_procedure("D2", Some("F")).unwrap()
    );
    assert_eq!(
        Procedure::EntrySummaryDeclarationOnly,
        match_procedure("F2c", None).unwrap()
    );
    assert_eq!(
        Procedure::TemporaryStorageDeclarationAndEntrySummaryDeclaration,
        match_procedure("G4", Some("F")).unwrap()
    );
}

#[test]
fn not_alphanumeric_in_checksum_body() {
    assert_eq!(
        Err(MrnGeneratorError::NotAlphanumeric('*')),
        is_mrn_valid("22IT*XBZYUTJFLJXK6")
    );
}
