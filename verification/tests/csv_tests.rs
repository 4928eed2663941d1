use bdt::bdt::column_type::ColumnType;
use bdt::bdt::column_value::{ColumnValue, ColumnValueType, GenericRow, RowValues};
use bdt::bdt::table_name::{Language, Name, NameList};
use bdt::bdt::{check_ref_codes_unique, duplicate_ref_code, Bdt, Column};
use bdt::csv_adapter::csv_model::{ColumnRow, DataRow, TableRow};
use bdt::csv_adapter::{assemble_bdt, CsvWriter};
use bdt::csv_data_adapter::{make_header, row_cells};
use bdt::date::Date;
use bdt::error::BdtError;

fn create_test_data() -> Bdt {
    let col1 = Column {
        skip: "".to_string(),
        id: Some(1),
        name: "VALID_FROM".to_string(),
        title: "".to_string(),
        ref_code: "VALID_FROM".to_string(),
        col_type: ColumnType::Date,
        sequence: Some(1),
        is_key: false,
        options: "".to_string(),
    };
    let col2 = Column {
        skip: "".to_string(),
        id: Some(2),
        name: "VALID_TO".to_string(),
        title: "".to_string(),
        ref_code: "VALID_TO".to_string(),
        col_type: ColumnType::Date,
        sequence: Some(1),
        is_key: false,
        options: "".to_string(),
    };
    let col3 = Column {
        skip: "".to_string(),
        id: Some(3),
        name: "CONFIG_TYPE".to_string(),
        title: "".to_string(),
        ref_code: "CDF1_ID".to_string(),
        col_type: ColumnType::Cdf {
            codificator_id: "TT_CONFIG_TYPE_ID".to_string(),
            select_params: "".to_string(),
        },
        sequence: Some(1),
        is_key: false,
        options: "".to_string(),
    };
    let col4 = Column {
        skip: "".to_string(),
        id: Some(4),
        name: "ADDITIONAL_COL".to_string(),
        title: "".to_string(),
        ref_code: "CDF2_ID".to_string(),
        col_type: ColumnType::Cdf {
            codificator_id: "ADDITIONAL_ID".to_string(),
            select_params: "".to_string(),
        },
        sequence: Some(1),
        is_key: false,
        options: "".to_string(),
    };
    let col5 = Column {
        skip: "".to_string(),
        id: Some(5),
        name: "CONFIG_VALUE".to_string(),
        title: "".to_string(),
        ref_code: "TEXT1".to_string(),
        col_type: ColumnType::Text,
        sequence: Some(1),
        is_key: false,
        options: "".to_string(),
    };
    let col6 = Column {
        skip: "".to_string(),
        id: Some(6),
        name: "CONFIG_NUM_VALUE".to_string(),
        title: "".to_string(),
        ref_code: "CONFIG_NUM_VALUE".to_string(),
        col_type: ColumnType::Num,
        sequence: Some(1),
        is_key: false,
        options: "".to_string(),
    };

    let mut row1 = RowValues::new();
    row1.push(ColumnValue {
        value: ColumnValueType::Date(Date::from_ymd(1997, 12, 1)),
        name: "VALID_FROM".to_string(),
        ref_code: "VALID_FROM".to_string(),
    });
    row1.push(ColumnValue {
        value: ColumnValueType::Date(None),
        name: "VALID_TO".to_string(),
        ref_code: "VALID_TO".to_string(),
    });
    row1.push(ColumnValue {
        value: ColumnValueType::Cdf("BORDER_POLICY_SERIES".to_string()),
        name: "CONFIG_TYPE".to_string(),
        ref_code: "CDF1_ID".to_string(),
    });
    row1.push(ColumnValue {
        value: ColumnValueType::Text("ANA".to_string()),
        name: "CONFIG_VALUE".to_string(),
        ref_code: "TEXT1".to_string(),
    });
    row1.push(ColumnValue {
        value: ColumnValueType::Num(Some(10.0f64.to_bits())),
        name: "CONFIG_NUM_VALUE".to_string(),
        ref_code: "NUM1".to_string(),
    });

    Bdt {
        skip: "".to_string(),
        ic: "".to_string(),
        names: NameList::new(vec![]),
        valid_from: None,
        valid_to: None,
        columns: vec![col1, col2, col3, col4, col5, col6],
        data: vec![row1],
    }
}

#[test]
fn make_header_test() {
    let bdt = create_test_data();
    let csv_hader = make_header(&bdt);
    assert_eq!(csv_hader.get(0).unwrap(), &"VALID_FROM".to_string());
    assert_eq!(csv_hader.get(1).unwrap(), &"VALID_TO".to_string());
}

#[test]
fn row_cells_follow_the_schema() {
    let bdt = create_test_data();
    let cells = row_cells(&bdt.columns, &bdt.data[0]);
    assert_eq!(cells.len(), 6);
    assert_eq!(
        cells[0],
        Some(ColumnValueType::Date(Date::from_ymd(1997, 12, 1)))
    );
    assert_eq!(cells[1], Some(ColumnValueType::Date(None)));
    assert_eq!(
        cells[2],
        Some(ColumnValueType::Cdf("BORDER_POLICY_SERIES".to_string()))
    );
    // CDF2_ID has a column but the row carries nothing for it
    assert_eq!(cells[3], None);
    assert_eq!(cells[4], Some(ColumnValueType::Text("ANA".to_string())));
    assert_eq!(cells[5], None);
}

fn column_row(table: &str, name: &str, ref_code: &str, cdf: &str, is_key: &str) -> ColumnRow {
    ColumnRow {
        skip: String::new(),
        id: None,
        table_type_id: table.to_string(),
        title: format!("{} title", name),
        col_name: name.to_string(),
        ref_code: ref_code.to_string(),
        adm_codificator_id: cdf.to_string(),
        sequence: Some(1),
        is_key: is_key.to_string(),
        options: String::new(),
        select_params: String::new(),
    }
}

#[test]
fn to_column_classifies_and_copies_fields() {
    let row = column_row("TT_CONFIG", "CONFIG_TYPE", "CDF1_ID", "TT_CONFIG_TYPE_ID", "Y");
    let col = row.to_column().unwrap();
    assert_eq!(col.name, "CONFIG_TYPE".to_string());
    assert_eq!(col.title, "CONFIG_TYPE title".to_string());
    assert_eq!(col.ref_code, "CDF1_ID".to_string());
    assert_eq!(
        col.col_type,
        ColumnType::Cdf {
            codificator_id: "TT_CONFIG_TYPE_ID".to_string(),
            select_params: "".to_string(),
        }
    );
    assert!(col.is_key);
}

#[test]
fn to_column_key_flag_is_exactly_y() {
    assert!(!column_row("T", "A", "NUM1", "", "N").to_column().unwrap().is_key);
    assert!(!column_row("T", "A", "NUM1", "", "").to_column().unwrap().is_key);
    assert!(!column_row("T", "A", "NUM1", "", "y").to_column().unwrap().is_key);
    assert!(column_row("T", "A", "NUM1", "", "Y").to_column().unwrap().is_key);
}

#[test]
fn to_column_rejects_unknown_slot() {
    let row = column_row("T", "A", "AGE_FROM", "", "N");
    assert_eq!(
        row.to_column(),
        Err(BdtError::UnrecognizedSlotPattern {
            ref_code: "AGE_FROM".to_string()
        })
    );
}

#[test]
fn from_column_writes_the_storage_fields() {
    let col = Column {
        skip: String::new(),
        id: Some(7),
        name: "KIND".to_string(),
        title: "Kind".to_string(),
        ref_code: "CDF2_ID".to_string(),
        col_type: ColumnType::Cdf {
            codificator_id: "K".to_string(),
            select_params: "p=1".to_string(),
        },
        sequence: Some(9),
        is_key: true,
        options: "opts".to_string(),
    };
    let row = ColumnRow::from_column(&col, "TT_CONFIG".to_string(), 4);
    assert_eq!(row.table_type_id, "TT_CONFIG".to_string());
    assert_eq!(row.col_name, "KIND".to_string());
    assert_eq!(row.ref_code, "CDF2_ID".to_string());
    assert_eq!(row.adm_codificator_id, "K".to_string());
    assert_eq!(row.select_params, "p=1".to_string());
    assert_eq!(row.sequence, Some(5));
    assert_eq!(row.is_key, "Y".to_string());
    assert_eq!(row.options, "opts".to_string());
}

fn table_row(ic: &str) -> TableRow {
    TableRow {
        skip: String::new(),
        id: None,
        adm_codificator_ic: "AGC_CUSTOM_TABLE_TYPE".to_string(),
        parent_ic: String::new(),
        ic: ic.to_string(),
        notes: String::new(),
        code: String::new(),
        valid_from: Date::from_ymd(2020, 1, 1),
        valid_to: None,
        sequence: None,
        name_lv: "tabula".to_string(),
        print_name_lv: "tabula print".to_string(),
        short_print_name_lv: "tabula short".to_string(),
        name_en: "table".to_string(),
        print_name_en: "table print".to_string(),
        short_print_name_en: "table short".to_string(),
        agc_tariff_plan_id: None,
    }
}

#[test]
fn table_row_from_bdt_takes_localized_names() {
    let mut names = NameList::new(Vec::new());
    names.push(Name::new(
        Language::EN,
        "table".to_string(),
        "table print".to_string(),
        "table short".to_string(),
    ));
    names.push(Name::new(
        Language::LV,
        "tabula".to_string(),
        "tabula print".to_string(),
        "tabula short".to_string(),
    ));
    let bdt = Bdt {
        skip: String::new(),
        ic: "TT_CONFIG".to_string(),
        names,
        valid_from: Date::from_ymd(2020, 1, 1),
        valid_to: None,
        columns: Vec::new(),
        data: Vec::new(),
    };
    let row = TableRow::from_bdt(&bdt);
    assert_eq!(row, table_row("TT_CONFIG"));
}

#[test]
fn table_row_from_bdt_defaults_missing_names_to_empty() {
    let bdt = Bdt {
        skip: String::new(),
        ic: "T".to_string(),
        names: NameList::new(Vec::new()),
        valid_from: None,
        valid_to: None,
        columns: Vec::new(),
        data: Vec::new(),
    };
    let row = TableRow::from_bdt(&bdt);
    assert_eq!(row.name_en, String::new());
    assert_eq!(row.name_lv, String::new());
    assert_eq!(row.adm_codificator_ic, "AGC_CUSTOM_TABLE_TYPE".to_string());
}

fn data_row(table: &str, slot: usize, value: ColumnValueType) -> DataRow {
    let mut values = GenericRow::new();
    values.set(slot, value);
    DataRow {
        skip: String::new(),
        id: None,
        table_type: table.to_string(),
        values,
    }
}

#[test]
fn assemble_bdt_collects_its_own_rows() {
    let table = table_row("TT_CONFIG");
    let column_rows = vec![
        column_row("TT_CONFIG", "CONFIG_TYPE", "CDF1_ID", "TT_CONFIG_TYPE_ID", "Y"),
        column_row("OTHER_TABLE", "IGNORED", "BROKEN_REF", "", "N"),
        column_row("TT_CONFIG", "CONFIG_VALUE", "TEXT1", "", "N"),
    ];
    let data_rows = vec![
        data_row("TT_CONFIG", 17, ColumnValueType::Cdf("A".to_string())),
        data_row("OTHER_TABLE", 3, ColumnValueType::Num(Some(1))),
        data_row("TT_CONFIG", 12, ColumnValueType::Text("v".to_string())),
    ];
    let bdt = assemble_bdt(&table, &column_rows, &data_rows).unwrap();
    assert_eq!(bdt.ic, "TT_CONFIG".to_string());
    assert_eq!(bdt.columns.len(), 2);
    assert_eq!(bdt.columns[0].ref_code, "CDF1_ID".to_string());
    assert_eq!(bdt.columns[1].ref_code, "TEXT1".to_string());
    assert_eq!(bdt.data.len(), 2);
    assert_eq!(bdt.data[0].values[0].name, "CONFIG_TYPE".to_string());
    assert_eq!(bdt.data[1].values[0].name, "CONFIG_VALUE".to_string());
    assert_eq!(
        bdt.names.get_table_name(Language::EN).unwrap().name,
        "table".to_string()
    );
    assert_eq!(
        bdt.names.get_table_name(Language::LV).unwrap().name,
        "tabula".to_string()
    );
}

#[test]
fn assemble_bdt_rejects_unknown_ref_code() {
    let table = table_row("T");
    let column_rows = vec![column_row("T", "A", "AGE_FROM", "", "N")];
    let got = assemble_bdt(&table, &column_rows, &Vec::new());
    assert_eq!(
        got,
        Err(BdtError::UnrecognizedSlotPattern {
            ref_code: "AGE_FROM".to_string()
        })
    );
}

#[test]
fn assemble_bdt_rejects_duplicate_slot_binding() {
    let table = table_row("T");
    let column_rows = vec![
        column_row("T", "A", "NUM1", "", "N"),
        column_row("T", "B", "NUM1", "", "N"),
    ];
    let got = assemble_bdt(&table, &column_rows, &Vec::new());
    assert_eq!(
        got,
        Err(BdtError::SchemaViolation {
            ref_code: "NUM1".to_string()
        })
    );
}

#[test]
fn assemble_bdt_rejects_orphan_data() {
    let table = table_row("T");
    let column_rows = vec![column_row("T", "A", "NUM1", "", "N")];
    let data_rows = vec![data_row("T", 21, ColumnValueType::Cdf("X".to_string()))];
    let got = assemble_bdt(&table, &column_rows, &data_rows);
    assert_eq!(
        got,
        Err(BdtError::SchemaViolation {
            ref_code: "CDF5_ID".to_string()
        })
    );
}

#[test]
fn prepeare_data_flattens_every_table() {
    let one = create_test_data();
    let two = {
        let mut bdt = create_test_data();
        bdt.ic = "SECOND".to_string();
        bdt.data = Vec::new();
        bdt
    };
    let writer = CsvWriter::new();
    let (tables, columns, datas) = writer.prepeare_data(vec![one, two]);
    assert_eq!(tables.len(), 2);
    assert_eq!(columns.len(), 12);
    assert_eq!(datas.len(), 1);
    assert_eq!(columns[0].sequence, Some(1));
    assert_eq!(columns[5].sequence, Some(6));
    assert_eq!(columns[6].table_type_id, "SECOND".to_string());
    assert_eq!(datas[0].table_type, String::new());
    assert_eq!(
        datas[0].values.get(0),
        &ColumnValueType::Date(Date::from_ymd(1997, 12, 1))
    );
}

#[test]
fn duplicate_ref_code_reports_the_claimed_slot() {
    let a = column_row("T", "A", "NUM1", "", "N").to_column().unwrap();
    let b = column_row("T", "B", "TEXT1", "", "N").to_column().unwrap();
    let c = column_row("T", "C", "NUM1", "", "N").to_column().unwrap();
    assert!(check_ref_codes_unique(&vec![a.clone(), b.clone()]));
    assert_eq!(duplicate_ref_code(&vec![a.clone(), b.clone()]), None);
    assert_eq!(
        duplicate_ref_code(&vec![a, b, c]),
        Some("NUM1".to_string())
    );
}
