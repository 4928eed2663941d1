//! The verified half of the data-export path: the header row and the cell
//! values of a table's exported data grid. Turning cells into text and
//! writing the file belong to the thin I/O layer around this crate.

use crate::bdt::column_value::{first_by_ref, ColumnValueType, RowValues};
use crate::bdt::{Bdt, Column};
use vstd::prelude::*;

verus! {

/// The header of a table's exported data grid: the column display names, in
/// schema order.
pub fn make_header(bdt: &Bdt) -> (r: Vec<String>)
    ensures
        r@.len() == bdt.columns@.len(),
        forall|k: int| 0 <= k < r@.len() ==> r@[k] == bdt.columns@[k].name,
{
    let mut result: Vec<String> = Vec::new();
    let n = bdt.columns.len();
    for i in 0..n
        invariant
            n == bdt.columns@.len(),
            result@.len() == i,
            forall|k: int| 0 <= k < i ==> result@[k] == bdt.columns@[k].name,
    {
        result.push(bdt.columns[i].name.clone());
    }
    result
}

/// One exported grid line: for each column, in schema order, the payload of
/// the row's first entry bound to that column's reference code, or nothing
/// where the row has none.
pub fn row_cells(columns: &Vec<Column>, row: &RowValues) -> (r: Vec<Option<ColumnValueType>>)
    ensures
        r@.len() == columns@.len(),
        forall|k: int|
            0 <= k < r@.len() ==> r@[k] == (match first_by_ref(
                row.values@,
                columns@[k].ref_code@,
            ) {
                Some(cv) => Some(cv.value),
                None => None::<ColumnValueType>,
            }),
{
    let mut result: Vec<Option<ColumnValueType>> = Vec::new();
    let n = columns.len();
    for i in 0..n
        invariant
            n == columns@.len(),
            result@.len() == i,
            forall|k: int|
                0 <= k < i ==> result@[k] == (match first_by_ref(
                    row.values@,
                    columns@[k].ref_code@,
                ) {
                    Some(cv) => Some(cv.value),
                    None => None::<ColumnValueType>,
                }),
    {
        result.push(row.first_value_by_ref(columns[i].ref_code.as_str()));
    }
    result
}

} // verus!
