use crate::bdt::column_type::{classified, classify, ColumnType};
use crate::bdt::column_value::{flatten, flatten_rel, generic_row_wf, GenericRow, RowValues};
use crate::bdt::slot::SlotFamily;
use crate::bdt::table_name::{first_name_for, Language};
use crate::bdt::{Bdt, Column};
use crate::date::Date;
use crate::error::BdtError;
use vstd::prelude::*;

verus! {

/// One table-definition row of the wide storage layout, as plain values.
/// Adapters exchange this shape at the boundary.
#[derive(Debug, PartialEq)]
pub struct TableRow {
    pub skip: String,
    pub id: Option<u64>,
    pub adm_codificator_ic: String,
    pub parent_ic: String,
    pub ic: String,
    pub notes: String,
    pub code: String,
    pub valid_from: Option<Date>,
    pub valid_to: Option<Date>,
    pub sequence: Option<u16>,
    pub name_lv: String,
    pub print_name_lv: String,
    pub short_print_name_lv: String,
    pub name_en: String,
    pub print_name_en: String,
    pub short_print_name_en: String,
    pub agc_tariff_plan_id: Option<u64>,
}

/// `row` is the table-definition row that re-serializes `bdt`: identity and
/// validity copied through, display names taken from the localized name
/// lookup with the empty string for an absent language, and the remaining
/// storage fields fixed.
pub open spec fn is_table_row_for(row: TableRow, bdt: Bdt) -> bool {
    &&& row.skip == bdt.skip
    &&& row.id is None
    &&& row.adm_codificator_ic@ == "AGC_CUSTOM_TABLE_TYPE"@
    &&& row.parent_ic@ == Seq::<char>::empty()
    &&& row.ic == bdt.ic
    &&& row.notes@ == Seq::<char>::empty()
    &&& row.code@ == Seq::<char>::empty()
    &&& row.valid_from == bdt.valid_from
    &&& row.valid_to == bdt.valid_to
    &&& row.sequence is None
    &&& (match first_name_for(bdt.names@, Language::LV) {
        Some(n) => row.name_lv == n.name && row.print_name_lv == n.print_name
            && row.short_print_name_lv == n.short_print_name,
        None => row.name_lv@ == Seq::<char>::empty() && row.print_name_lv@
            == Seq::<char>::empty() && row.short_print_name_lv@ == Seq::<char>::empty(),
    })
    &&& (match first_name_for(bdt.names@, Language::EN) {
        Some(n) => row.name_en == n.name && row.print_name_en == n.print_name
            && row.short_print_name_en == n.short_print_name,
        None => row.name_en@ == Seq::<char>::empty() && row.print_name_en@
            == Seq::<char>::empty() && row.short_print_name_en@ == Seq::<char>::empty(),
    })
    &&& row.agc_tariff_plan_id is None
}

impl TableRow {
    /// Re-serializes a table aggregate into its table-definition row.
    pub fn from_bdt(bdt: &Bdt) -> (r: TableRow)
        ensures
            is_table_row_for(r, *bdt),
    {
        let lv = bdt.names.get_table_name(Language::LV);
        let en = bdt.names.get_table_name(Language::EN);
        let (name_lv, print_name_lv, short_print_name_lv) = match lv {
            Some(n) => (n.name, n.print_name, n.short_print_name),
            None => (String::new(), String::new(), String::new()),
        };
        let (name_en, print_name_en, short_print_name_en) = match en {
            Some(n) => (n.name, n.print_name, n.short_print_name),
            None => (String::new(), String::new(), String::new()),
        };
        TableRow {
            skip: bdt.skip.clone(),
            id: None,
            adm_codificator_ic: String::from_str("AGC_CUSTOM_TABLE_TYPE"),
            parent_ic: String::new(),
            ic: bdt.ic.clone(),
            notes: String::new(),
            code: String::new(),
            valid_from: bdt.valid_from,
            valid_to: bdt.valid_to,
            sequence: None,
            name_lv,
            print_name_lv,
            short_print_name_lv,
            name_en,
            print_name_en,
            short_print_name_en,
            agc_tariff_plan_id: None,
        }
    }
}

/// One column-definition row of the wide storage layout, as plain values.
#[derive(Debug, PartialEq)]
pub struct ColumnRow {
    pub skip: String,
    pub id: Option<u64>,
    pub table_type_id: String,
    pub title: String,
    pub col_name: String,
    pub ref_code: String,
    pub adm_codificator_id: String,
    pub sequence: Option<u16>,
    pub is_key: String,
    pub options: String,
    pub select_params: String,
}

impl Clone for ColumnRow {
    fn clone(&self) -> (r: Self)
        ensures
            r == *self,
    {
        ColumnRow {
            skip: self.skip.clone(),
            id: self.id,
            table_type_id: self.table_type_id.clone(),
            title: self.title.clone(),
            col_name: self.col_name.clone(),
            ref_code: self.ref_code.clone(),
            adm_codificator_id: self.adm_codificator_id.clone(),
            sequence: self.sequence,
            is_key: self.is_key.clone(),
            options: self.options.clone(),
            select_params: self.select_params.clone(),
        }
    }
}

/// The column a column-definition row defines, meaningful when its
/// reference code classifies: fields copied through verbatim, the type from
/// classification, and the key flag true exactly for the string `Y`.
pub open spec fn to_column_spec(row: ColumnRow) -> Column {
    Column {
        skip: row.skip,
        id: row.id,
        name: row.col_name,
        title: row.title,
        ref_code: row.ref_code,
        col_type: (match classified(row.ref_code@) {
            Some(SlotFamily::Date) => ColumnType::Date,
            Some(SlotFamily::Num) => ColumnType::Num,
            Some(SlotFamily::Text) => ColumnType::Text,
            Some(SlotFamily::Cdf) => ColumnType::Cdf {
                codificator_id: row.adm_codificator_id,
                select_params: row.select_params,
            },
            None => ColumnType::Text,
        }),
        sequence: row.sequence,
        is_key: row.is_key@ == "Y"@,
        options: row.options,
    }
}

impl ColumnRow {
    /// Builds the column this row defines by classifying its reference code
    /// and copying the remaining fields through verbatim. No validation
    /// happens here beyond classification; reference-code uniqueness is
    /// checked at the table-assembly step.
    pub fn to_column(&self) -> (r: Result<Column, BdtError>)
        ensures
            r is Ok <==> classified(self.ref_code@) is Some,
            r is Ok ==> r->Ok_0 == to_column_spec(*self),
            r is Err ==> (r->Err_0 matches BdtError::UnrecognizedSlotPattern { ref_code: rc }
                && rc@ == self.ref_code@),
    {
        let col_type = classify(
            self.ref_code.as_str(),
            self.adm_codificator_id.clone(),
            self.select_params.clone(),
        )?;
        Ok(
            Column {
                skip: self.skip.clone(),
                id: self.id,
                name: self.col_name.clone(),
                title: self.title.clone(),
                ref_code: self.ref_code.clone(),
                col_type,
                sequence: self.sequence,
                is_key: self.is_key == String::from_str("Y"),
                options: self.options.clone(),
            },
        )
    }

    /// Re-serializes a column into its column-definition row, at position
    /// `counter` within its table.
    pub fn from_column(column: &Column, table_type_id: String, counter: u16) -> (r: ColumnRow)
        requires
            counter < u16::MAX,
        ensures
            is_column_row_for(r, *column, table_type_id@, counter as int),
    {
        let (adm_codificator_id, select_params) = match &column.col_type {
            ColumnType::Cdf { codificator_id, select_params } => (
                codificator_id.clone(),
                select_params.clone(),
            ),
            _ => (String::new(), String::new()),
        };
        ColumnRow {
            skip: column.skip.clone(),
            id: column.id,
            table_type_id,
            title: column.title.clone(),
            col_name: column.name.clone(),
            ref_code: column.ref_code.clone(),
            adm_codificator_id,
            sequence: Some(counter + 1),
            is_key: if column.is_key {
                String::from_str("Y")
            } else {
                String::from_str("N")
            },
            options: column.options.clone(),
            select_params,
        }
    }
}

/// `row` is the column-definition row that re-serializes `col` at position
/// `counter` within the table `ic`.
pub open spec fn is_column_row_for(row: ColumnRow, col: Column, ic: Seq<char>, counter: int) -> bool {
    &&& row.skip == col.skip
    &&& row.id == col.id
    &&& row.table_type_id@ == ic
    &&& row.title == col.title
    &&& row.col_name == col.name
    &&& row.ref_code == col.ref_code
    &&& (match col.col_type {
        ColumnType::Cdf { codificator_id, select_params } => row.adm_codificator_id
            == codificator_id && row.select_params == select_params,
        _ => row.adm_codificator_id@ == Seq::<char>::empty() && row.select_params@
            == Seq::<char>::empty(),
    })
    &&& row.sequence == Some((counter + 1) as u16)
    &&& (if col.is_key {
        row.is_key@ == "Y"@
    } else {
        row.is_key@ == "N"@
    })
    &&& row.options == col.options
}

/// One data row of the wide storage layout: the full fixed slot set, tagged
/// with the owning table's business identifier.
#[derive(Debug, PartialEq)]
pub struct DataRow {
    pub skip: String,
    pub id: Option<u64>,
    pub table_type: String,
    pub values: GenericRow,
}

/// `row` is the data row that re-serializes the sparse row `rv` for the
/// table `ic`: every populated slot written back, every other slot in its
/// empty representation.
pub open spec fn is_data_row_for(row: DataRow, rv: RowValues, ic: Seq<char>) -> bool {
    &&& row.skip@ == Seq::<char>::empty()
    &&& row.id is None
    &&& row.table_type@ == ic
    &&& generic_row_wf(row.values@)
    &&& flatten_rel(rv.values@, row.values@)
}

impl DataRow {
    /// Re-serializes a sparse row into a data row of the wide layout by the
    /// backward mapping.
    pub fn from_row_values(row: &RowValues, table_type: String) -> (r: DataRow)
        ensures
            is_data_row_for(r, *row, table_type@),
    {
        DataRow { skip: String::new(), id: None, table_type, values: flatten(row) }
    }
}

} // verus!
