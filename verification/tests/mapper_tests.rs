use bdt::bdt::column_type::ColumnType;
use bdt::bdt::column_value::{flatten, ColumnValue, ColumnValueType, GenericRow, RowValues};
use bdt::bdt::Column;
use bdt::date::Date;
use bdt::error::BdtError;

fn column(name: &str, ref_code: &str, col_type: ColumnType) -> Column {
    Column {
        skip: String::new(),
        id: None,
        name: name.to_string(),
        title: String::new(),
        ref_code: ref_code.to_string(),
        col_type,
        sequence: None,
        is_key: false,
        options: String::new(),
    }
}

fn cdf_type(codificator_id: &str, select_params: &str) -> ColumnType {
    ColumnType::Cdf {
        codificator_id: codificator_id.to_string(),
        select_params: select_params.to_string(),
    }
}

// slot indices in the canonical order
const VALID_FROM: usize = 0;
const NUM1: usize = 2;
const NUM2: usize = 3;
const TEXT1: usize = 12;
const CDF1_ID: usize = 17;
const CDF5_ID: usize = 21;

#[test]
fn end_to_end_projection() {
    let columns = vec![
        column("VALID_FROM", "VALID_FROM", ColumnType::Date),
        column("AMOUNT", "NUM1", ColumnType::Num),
        column("CONFIG_TYPE", "CDF1_ID", cdf_type("RISK_TYPE", "")),
    ];
    let mut row = GenericRow::new();
    row.set(
        VALID_FROM,
        ColumnValueType::Date(Date::from_ymd(1997, 12, 1)),
    );
    row.set(NUM1, ColumnValueType::Num(Some(10.0f64.to_bits())));
    row.set(
        CDF1_ID,
        ColumnValueType::Cdf("BORDER_POLICY_SERIES".to_string()),
    );

    let out = RowValues::from_data_row(&columns, &row).unwrap();
    assert_eq!(out.values.len(), 3);
    assert_eq!(
        out.values[0],
        ColumnValue {
            name: "VALID_FROM".to_string(),
            ref_code: "VALID_FROM".to_string(),
            value: ColumnValueType::Date(Date::from_ymd(1997, 12, 1)),
        }
    );
    assert_eq!(
        out.values[1],
        ColumnValue {
            name: "AMOUNT".to_string(),
            ref_code: "NUM1".to_string(),
            value: ColumnValueType::Num(Some(10.0f64.to_bits())),
        }
    );
    assert_eq!(
        out.values[2],
        ColumnValue {
            name: "CONFIG_TYPE".to_string(),
            ref_code: "CDF1_ID".to_string(),
            value: ColumnValueType::Cdf("BORDER_POLICY_SERIES".to_string()),
        }
    );
    // VALID_TO was empty and is omitted: only three entries came out
}

#[test]
fn projection_fails_on_slot_without_column() {
    let columns = vec![column("VALID_FROM", "VALID_FROM", ColumnType::Date)];
    let mut row = GenericRow::new();
    row.set(CDF5_ID, ColumnValueType::Cdf("X".to_string()));
    let got = RowValues::from_data_row(&columns, &row);
    assert_eq!(
        got,
        Err(BdtError::SchemaViolation {
            ref_code: "CDF5_ID".to_string()
        })
    );
}

#[test]
fn projection_drops_empty_slots() {
    let columns = vec![
        column("T", "TEXT1", ColumnType::Text),
        column("C", "CDF1_ID", cdf_type("K", "")),
    ];
    let mut row = GenericRow::new();
    row.set(TEXT1, ColumnValueType::Text(String::new()));
    row.set(CDF1_ID, ColumnValueType::Cdf("V".to_string()));
    let out = RowValues::from_data_row(&columns, &row).unwrap();
    assert_eq!(out.values.len(), 1);
    assert_eq!(out.values[0].ref_code, "CDF1_ID".to_string());
}

#[test]
fn projection_order_follows_slots_not_columns() {
    // TEXT1 is declared before NUM2, yet the numeric group comes out first
    let declared_text_first = vec![
        column("T", "TEXT1", ColumnType::Text),
        column("N", "NUM2", ColumnType::Num),
    ];
    let declared_num_first = vec![
        column("N", "NUM2", ColumnType::Num),
        column("T", "TEXT1", ColumnType::Text),
    ];
    let mut row = GenericRow::new();
    row.set(NUM2, ColumnValueType::Num(Some(2.5f64.to_bits())));
    row.set(TEXT1, ColumnValueType::Text("hello".to_string()));

    let out1 = RowValues::from_data_row(&declared_text_first, &row).unwrap();
    let out2 = RowValues::from_data_row(&declared_num_first, &row).unwrap();
    assert_eq!(out1.values[0].ref_code, "NUM2".to_string());
    assert_eq!(out1.values[1].ref_code, "TEXT1".to_string());
    assert_eq!(out1, out2);
}

#[test]
fn round_trip_preserves_populated_slots() {
    let columns = vec![
        column("VALID_FROM", "VALID_FROM", ColumnType::Date),
        column("AMOUNT", "NUM1", ColumnType::Num),
        column("NOTE", "TEXT1", ColumnType::Text),
        column("KIND", "CDF1_ID", cdf_type("K", "p=1")),
    ];
    let mut row = GenericRow::new();
    row.set(
        VALID_FROM,
        ColumnValueType::Date(Date::from_ymd(2017, 9, 1)),
    );
    row.set(NUM1, ColumnValueType::Num(Some(0.5f64.to_bits())));
    row.set(TEXT1, ColumnValueType::Text("ANA".to_string()));
    row.set(CDF1_ID, ColumnValueType::Cdf("Y".to_string()));

    let projected = RowValues::from_data_row(&columns, &row).unwrap();
    let back = flatten(&projected);
    assert_eq!(back, row);
}

#[test]
fn flatten_is_total_on_sparse_rows() {
    let mut sparse = RowValues::new();
    sparse.push(ColumnValue {
        name: "NOTE".to_string(),
        ref_code: "TEXT1".to_string(),
        value: ColumnValueType::Text("x".to_string()),
    });
    let wide = flatten(&sparse);
    assert_eq!(wide.len(), 32);
    assert_eq!(wide.get(TEXT1), &ColumnValueType::Text("x".to_string()));
    assert_eq!(wide.get(VALID_FROM), &ColumnValueType::Date(None));
    assert_eq!(wide.get(NUM1), &ColumnValueType::Num(None));
    assert_eq!(wide.get(CDF1_ID), &ColumnValueType::Cdf(String::new()));
}

#[test]
fn flatten_ignores_entry_of_wrong_family() {
    let mut sparse = RowValues::new();
    sparse.push(ColumnValue {
        name: "ODD".to_string(),
        ref_code: "NUM1".to_string(),
        value: ColumnValueType::Text("not a number".to_string()),
    });
    let wide = flatten(&sparse);
    assert_eq!(wide.get(NUM1), &ColumnValueType::Num(None));
}

#[test]
fn getters_return_first_match_of_right_family() {
    let mut row = RowValues::new();
    row.push(ColumnValue {
        name: "VALID_TO".to_string(),
        ref_code: "VALID_TO".to_string(),
        value: ColumnValueType::Date(Date::from_ymd(2017, 9, 1)),
    });
    row.push(ColumnValue {
        name: "AMOUNT".to_string(),
        ref_code: "NUM1".to_string(),
        value: ColumnValueType::Num(Some(4.0f64.to_bits())),
    });
    row.push(ColumnValue {
        name: "NOTE".to_string(),
        ref_code: "TEXT1".to_string(),
        value: ColumnValueType::Text("note".to_string()),
    });
    row.push(ColumnValue {
        name: "KIND".to_string(),
        ref_code: "CDF2_ID".to_string(),
        value: ColumnValueType::Cdf("Y".to_string()),
    });

    assert_eq!(row.get_by_ref_as_date("VALID_TO"), Date::from_ymd(2017, 9, 1));
    assert_eq!(row.get_by_ref_as_date("VALID_FROM"), None);
    assert_eq!(row.get_by_ref_as_num("NUM1"), Some(4.0f64.to_bits()));
    assert_eq!(row.get_by_ref_as_num("NUM2"), None);
    // a lookup of the wrong family yields the empty outcome
    assert_eq!(row.get_by_ref_as_num("TEXT1"), None);
    assert_eq!(row.get_by_ref_as_text("TEXT1"), "note".to_string());
    assert_eq!(row.get_by_ref_as_text("TEXT2"), String::new());
    assert_eq!(row.get_by_ref_as_cdf("CDF2_ID"), "Y".to_string());
    assert_eq!(row.get_by_ref_as_cdf("CDF1_ID"), String::new());

    assert_eq!(row.len(), 4);
    assert!(row.get(0).is_some());
    assert!(row.get(4).is_none());
}
