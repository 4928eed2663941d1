use bdt::bdt::column_type::{classify, ColumnType};
use bdt::error::BdtError;

fn classify_plain(ref_code: &str) -> Result<ColumnType, BdtError> {
    classify(ref_code, String::new(), String::new())
}

#[test]
fn classify_valid_from_is_date() {
    assert_eq!(classify_plain("VALID_FROM").unwrap(), ColumnType::Date);
}

#[test]
fn classify_valid_to_is_date() {
    assert_eq!(classify_plain("VALID_TO").unwrap(), ColumnType::Date);
}

#[test]
fn classify_num7_is_num() {
    assert_eq!(classify_plain("NUM7").unwrap(), ColumnType::Num);
}

#[test]
fn classify_text2_is_text() {
    assert_eq!(classify_plain("TEXT2").unwrap(), ColumnType::Text);
}

#[test]
fn classify_cdf3_is_cdf_with_parameters() {
    let got = classify(
        "CDF3_ID",
        "RISK_TYPE".to_string(),
        "icprefix=AL01_R".to_string(),
    )
    .unwrap();
    assert_eq!(
        got,
        ColumnType::Cdf {
            codificator_id: "RISK_TYPE".to_string(),
            select_params: "icprefix=AL01_R".to_string(),
        }
    );
}

#[test]
fn classify_bogus_code_fails() {
    let got = classify_plain("BOGUS_CODE");
    assert_eq!(
        got,
        Err(BdtError::UnrecognizedSlotPattern {
            ref_code: "BOGUS_CODE".to_string()
        })
    );
}

#[test]
fn classify_date_pattern_wins_over_numeric() {
    // carries both VALID_FROM and NUM1: the date pattern is checked first
    assert_eq!(classify_plain("VALID_FROM_NUM1").unwrap(), ColumnType::Date);
}

#[test]
fn classify_finds_pattern_inside_longer_code() {
    assert_eq!(classify_plain("XVALID_TOX").unwrap(), ColumnType::Date);
    assert_eq!(classify_plain("XCDF12_ID").unwrap(), ColumnType::Cdf {
        codificator_id: String::new(),
        select_params: String::new(),
    });
}

#[test]
fn classify_num_needs_a_digit() {
    assert!(classify_plain("NUM").is_err());
    assert!(classify_plain("NUMX").is_err());
    assert_eq!(classify_plain("NUM10").unwrap(), ColumnType::Num);
}

#[test]
fn classify_text_needs_a_digit() {
    assert!(classify_plain("TEXT").is_err());
    assert_eq!(classify_plain("TEXT5").unwrap(), ColumnType::Text);
}

#[test]
fn classify_cdf_needs_digits_before_id() {
    assert!(classify_plain("CDF_ID").is_err());
    assert!(classify_plain("CDF1ID").is_err());
    assert_eq!(
        classify_plain("CDF15_ID").unwrap(),
        ColumnType::Cdf {
            codificator_id: String::new(),
            select_params: String::new(),
        }
    );
}

#[test]
fn classify_is_case_sensitive() {
    assert!(classify_plain("num1").is_err());
    assert!(classify_plain("valid_from").is_err());
}

#[test]
fn classify_empty_code_fails() {
    assert!(classify_plain("").is_err());
}
