//! The verified half of the CSV exchange: assembling a table aggregate from
//! the three kinds of storage rows, and re-serializing aggregates back into
//! them. Reading and writing the files themselves is left to the thin I/O
//! layer around this crate.

pub mod csv_model;

use crate::bdt::column_type::classified;
use crate::bdt::column_value::{all_backed, project_spec, RowValues};
use crate::bdt::slot::SLOT_COUNT;
use crate::bdt::table_name::{Language, Name, NameList};
use crate::bdt::{duplicate_ref_code, ref_codes_unique, Bdt, Column};
use crate::csv_adapter::csv_model::{
    is_column_row_for, is_data_row_for, is_table_row_for, to_column_spec, ColumnRow, DataRow,
    TableRow,
};
use crate::error::BdtError;
use crate::seqs::lemma_filter_push;
use vstd::prelude::*;

verus! {

/// The column-definition rows bound to the table `ic`.
pub open spec fn col_row_bound(ic: Seq<char>) -> spec_fn(ColumnRow) -> bool {
    |r: ColumnRow| r.table_type_id@ == ic
}

/// The conversion of one column-definition row.
pub open spec fn col_row_convert() -> spec_fn(ColumnRow) -> Column {
    |r: ColumnRow| to_column_spec(r)
}

/// The data rows bound to the table `ic`.
pub open spec fn data_row_bound(ic: Seq<char>) -> spec_fn(DataRow) -> bool {
    |d: DataRow| d.table_type@ == ic
}

/// The columns that a table's column-definition rows define: the rows bound
/// to the table, in their order, each converted to a column.
pub open spec fn assembled_columns(ic: Seq<char>, rows: Seq<ColumnRow>) -> Seq<Column> {
    rows.filter(col_row_bound(ic)).map_values(col_row_convert())
}

/// Every column-definition row bound to the table has a reference code that
/// classifies.
pub open spec fn all_columns_classify(ic: Seq<char>, rows: Seq<ColumnRow>) -> bool {
    forall|k: int|
        0 <= k < rows.len() && (#[trigger] rows[k]).table_type_id@ == ic ==> classified(
            rows[k].ref_code@,
        ) is Some
}

/// The data rows tagged with the table's identifier, in their order.
pub open spec fn table_data_rows(ic: Seq<char>, rows: Seq<DataRow>) -> Seq<DataRow> {
    rows.filter(data_row_bound(ic))
}

/// Every data row of the table has all its populated slots backed by the
/// assembled schema.
pub open spec fn all_rows_backed(cols: Seq<Column>, rows: Seq<DataRow>, ic: Seq<char>) -> bool {
    forall|k: int|
        0 <= k < rows.len() && (#[trigger] rows[k]).table_type@ == ic ==> all_backed(
            cols,
            rows[k].values@,
        )
}

/// The table assembles: every bound column row classifies, no two columns
/// claim the same slot, and every bound data row is fully backed.
pub open spec fn assembly_ok(ic: Seq<char>, column_rows: Seq<ColumnRow>, data_rows: Seq<DataRow>) -> bool {
    &&& all_columns_classify(ic, column_rows)
    &&& ref_codes_unique(assembled_columns(ic, column_rows))
    &&& all_rows_backed(assembled_columns(ic, column_rows), data_rows, ic)
}

/// How the assembled columns read a row list extended by one row.
proof fn lemma_assembled_push(ic: Seq<char>, rows: Seq<ColumnRow>, x: ColumnRow)
    ensures
        assembled_columns(ic, rows.push(x)) == (if x.table_type_id@ == ic {
            assembled_columns(ic, rows).push(to_column_spec(x))
        } else {
            assembled_columns(ic, rows)
        }),
{
    let p = col_row_bound(ic);
    let f = col_row_convert();
    lemma_filter_push(rows, x, p);
    if p(x) {
        assert(rows.filter(p).push(x).map_values(f) =~= rows.filter(p).map_values(f).push(f(x)));
    }
}

/// How the table's data rows read a row list extended by one row.
proof fn lemma_table_data_push(ic: Seq<char>, rows: Seq<DataRow>, x: DataRow)
    ensures
        table_data_rows(ic, rows.push(x)) == (if x.table_type@ == ic {
            table_data_rows(ic, rows).push(x)
        } else {
            table_data_rows(ic, rows)
        }),
{
    lemma_filter_push(rows, x, data_row_bound(ic));
}

/// Assembles one table aggregate from its table-definition row, the
/// column-definition rows and the data rows of a whole storage set; rows of
/// other tables are passed over.
///
/// The display names are taken from the table row for English and Latvian.
/// A bound column row whose reference code does not classify aborts the
/// assembly with the classification error; two columns claiming the same
/// slot, or a data row carrying a value in a slot the schema does not
/// define, abort it with a schema violation.
pub fn assemble_bdt(table: &TableRow, column_rows: &Vec<ColumnRow>, data_rows: &Vec<DataRow>) -> (r:
    Result<Bdt, BdtError>)
    requires
        forall|k: int| 0 <= k < data_rows@.len() ==> (#[trigger] data_rows@[k]).values.wf(),
    ensures
        r is Ok <==> assembly_ok(table.ic@, column_rows@, data_rows@),
        r matches Err(BdtError::UnrecognizedSlotPattern { .. }) <==> !all_columns_classify(
            table.ic@,
            column_rows@,
        ),
        r matches Err(BdtError::SchemaViolation { .. }) <==> (all_columns_classify(
            table.ic@,
            column_rows@,
        ) && !(ref_codes_unique(assembled_columns(table.ic@, column_rows@)) && all_rows_backed(
            assembled_columns(table.ic@, column_rows@),
            data_rows@,
            table.ic@,
        ))),
        r matches Ok(bdt) ==> {
            &&& bdt.skip == table.skip
            &&& bdt.ic == table.ic
            &&& bdt.valid_from == table.valid_from
            &&& bdt.valid_to == table.valid_to
            &&& bdt.names@.len() == 2
            &&& bdt.names@[0] == (Name {
                lang: Language::EN,
                name: table.name_en,
                print_name: table.print_name_en,
                short_print_name: table.short_print_name_en,
            })
            &&& bdt.names@[1] == (Name {
                lang: Language::LV,
                name: table.name_lv,
                print_name: table.print_name_lv,
                short_print_name: table.short_print_name_lv,
            })
            &&& bdt.columns@ == assembled_columns(table.ic@, column_rows@)
            &&& bdt.data@.len() == table_data_rows(table.ic@, data_rows@).len()
            &&& forall|k: int|
                0 <= k < bdt.data@.len() ==> (#[trigger] bdt.data@[k]).values@ == project_spec(
                    bdt.columns@,
                    table_data_rows(table.ic@, data_rows@)[k].values@,
                    SLOT_COUNT as int,
                )
        },
{
    let ghost ic = table.ic@;
    let mut names = NameList::new(Vec::new());
    names.push(
        Name::new(
            Language::EN,
            table.name_en.clone(),
            table.print_name_en.clone(),
            table.short_print_name_en.clone(),
        ),
    );
    names.push(
        Name::new(
            Language::LV,
            table.name_lv.clone(),
            table.print_name_lv.clone(),
            table.short_print_name_lv.clone(),
        ),
    );

    let mut columns: Vec<Column> = Vec::new();
    let n = column_rows.len();
    proof {
        assert(column_rows@.subrange(0, 0) =~= Seq::<ColumnRow>::empty());
        assert(assembled_columns(ic, column_rows@.subrange(0, 0)) =~= Seq::<Column>::empty());
    }
    for i in 0..n
        invariant
            n == column_rows@.len(),
            ic == table.ic@,
            columns@ == assembled_columns(ic, column_rows@.subrange(0, i as int)),
            all_columns_classify(ic, column_rows@.subrange(0, i as int)),
    {
        proof {
            assert(column_rows@.subrange(0, i + 1) =~= column_rows@.subrange(0, i as int).push(
                column_rows@[i as int],
            ));
            lemma_assembled_push(ic, column_rows@.subrange(0, i as int), column_rows@[i as int]);
        }
        if column_rows[i].table_type_id == table.ic {
            match column_rows[i].to_column() {
                Ok(col) => {
                    columns.push(col);
                },
                Err(e) => {
                    proof {
                        assert(!all_columns_classify(ic, column_rows@));
                    }
                    return Err(e);
                },
            }
        }
    }
    proof {
        assert(column_rows@.subrange(0, n as int) =~= column_rows@);
    }

    if let Some(dup) = duplicate_ref_code(&columns) {
        return Err(BdtError::SchemaViolation { ref_code: dup });
    }

    let mut data: Vec<RowValues> = Vec::new();
    let m = data_rows.len();
    proof {
        assert(data_rows@.subrange(0, 0) =~= Seq::<DataRow>::empty());
        assert(table_data_rows(ic, data_rows@.subrange(0, 0)) =~= Seq::<DataRow>::empty());
    }
    for i in 0..m
        invariant
            m == data_rows@.len(),
            ic == table.ic@,
            columns@ == assembled_columns(ic, column_rows@),
            all_columns_classify(ic, column_rows@),
            ref_codes_unique(columns@),
            forall|k: int| 0 <= k < data_rows@.len() ==> (#[trigger] data_rows@[k]).values.wf(),
            data@.len() == table_data_rows(ic, data_rows@.subrange(0, i as int)).len(),
            forall|k: int|
                0 <= k < data@.len() ==> (#[trigger] data@[k]).values@ == project_spec(
                    columns@,
                    table_data_rows(ic, data_rows@.subrange(0, i as int))[k].values@,
                    SLOT_COUNT as int,
                ),
            forall|k: int|
                0 <= k < i && (#[trigger] data_rows@[k]).table_type@ == ic ==> all_backed(
                    columns@,
                    data_rows@[k].values@,
                ),
    {
        proof {
            assert(data_rows@.subrange(0, i + 1) =~= data_rows@.subrange(0, i as int).push(
                data_rows@[i as int],
            ));
            lemma_table_data_push(ic, data_rows@.subrange(0, i as int), data_rows@[i as int]);
        }
        if data_rows[i].table_type == table.ic {
            match RowValues::from_data_row(&columns, &data_rows[i].values) {
                Ok(rv) => {
                    data.push(rv);
                },
                Err(e) => {
                    proof {
                        assert(!all_rows_backed(columns@, data_rows@, ic));
                    }
                    return Err(e);
                },
            }
        }
    }
    proof {
        assert(data_rows@.subrange(0, m as int) =~= data_rows@);
    }

    Ok(
        Bdt {
            skip: table.skip.clone(),
            ic: table.ic.clone(),
            names,
            valid_from: table.valid_from,
            valid_to: table.valid_to,
            columns,
            data,
        },
    )
}

/// The sum of the column counts of the first `k` tables.
pub open spec fn total_columns(tables: Seq<Bdt>, k: int) -> int
    decreases k,
{
    if k <= 0 {
        0
    } else {
        total_columns(tables, k - 1) + tables[k - 1].columns@.len()
    }
}

/// Column-count sums only grow with more tables.
proof fn lemma_total_columns_mono(tables: Seq<Bdt>, a: int, b: int)
    requires
        0 <= a <= b,
    ensures
        total_columns(tables, a) <= total_columns(tables, b),
    decreases b,
{
    if a < b {
        lemma_total_columns_mono(tables, a, b - 1);
    }
}

/// Data-row-count sums only grow with more tables.
proof fn lemma_total_rows_mono(tables: Seq<Bdt>, a: int, b: int)
    requires
        0 <= a <= b,
    ensures
        total_rows(tables, a) <= total_rows(tables, b),
    decreases b,
{
    if a < b {
        lemma_total_rows_mono(tables, a, b - 1);
    }
}

/// The sum of the data-row counts of the first `k` tables.
pub open spec fn total_rows(tables: Seq<Bdt>, k: int) -> int
    decreases k,
{
    if k <= 0 {
        0
    } else {
        total_rows(tables, k - 1) + tables[k - 1].data@.len()
    }
}

/// Re-serializes table aggregates into the three kinds of storage rows that
/// the wide CSV layout holds. The file writing around it lives outside this
/// crate.
pub struct CsvWriter {}

impl CsvWriter {
    pub fn new() -> (r: Self)
        ensures
            r == (CsvWriter {  }),
    {
        CsvWriter {  }
    }

    /// Flattens a list of table aggregates into one table-definition row per
    /// table, the column-definition rows of every table in order, and the
    /// data rows of every table in order.
    pub fn prepeare_data(&self, table_list: Vec<Bdt>) -> (r: (
        Vec<TableRow>,
        Vec<ColumnRow>,
        Vec<DataRow>,
    ))
        requires
            forall|t: int|
                0 <= t < table_list@.len() ==> (#[trigger] table_list@[t]).columns@.len()
                    < u16::MAX,
        ensures
            r.0@.len() == table_list@.len(),
            forall|t: int|
                0 <= t < table_list@.len() ==> is_table_row_for(
                    #[trigger] r.0@[t],
                    table_list@[t],
                ),
            r.1@.len() == total_columns(table_list@, table_list@.len() as int),
            forall|t: int, j: int|
                0 <= t < table_list@.len() && 0 <= j < table_list@[t].columns@.len()
                    ==> is_column_row_for(
                    #[trigger] r.1@[total_columns(table_list@, t) + j],
                    table_list@[t].columns@[j],
                    table_list@[t].ic@,
                    j,
                ),
            r.2@.len() == total_rows(table_list@, table_list@.len() as int),
            forall|t: int, j: int|
                0 <= t < table_list@.len() && 0 <= j < table_list@[t].data@.len()
                    ==> is_data_row_for(
                    #[trigger] r.2@[total_rows(table_list@, t) + j],
                    table_list@[t].data@[j],
                    table_list@[t].ic@,
                ),
    {
        let mut tables: Vec<TableRow> = Vec::new();
        let mut columns: Vec<ColumnRow> = Vec::new();
        let mut datas: Vec<DataRow> = Vec::new();
        let n = table_list.len();
        for t in 0..n
            invariant
                n == table_list@.len(),
                forall|t2: int|
                    0 <= t2 < n ==> (#[trigger] table_list@[t2]).columns@.len() < u16::MAX,
                tables@.len() == t,
                forall|t2: int|
                    0 <= t2 < t ==> is_table_row_for(#[trigger] tables@[t2], table_list@[t2]),
                columns@.len() == total_columns(table_list@, t as int),
                forall|t2: int, j: int|
                    0 <= t2 < t && 0 <= j < table_list@[t2].columns@.len() ==> is_column_row_for(
                        #[trigger] columns@[total_columns(table_list@, t2) + j],
                        table_list@[t2].columns@[j],
                        table_list@[t2].ic@,
                        j,
                    ),
                datas@.len() == total_rows(table_list@, t as int),
                forall|t2: int, j: int|
                    0 <= t2 < t && 0 <= j < table_list@[t2].data@.len() ==> is_data_row_for(
                        #[trigger] datas@[total_rows(table_list@, t2) + j],
                        table_list@[t2].data@[j],
                        table_list@[t2].ic@,
                    ),
        {
            let table = &table_list[t];
            tables.push(TableRow::from_bdt(table));
            let cn = table.columns.len();
            for j in 0..cn
                invariant
                    n == table_list@.len(),
                    t < n,
                    table == &table_list[t as int],
                    cn == table.columns@.len(),
                    cn < u16::MAX,
                    columns@.len() == total_columns(table_list@, t as int) + j,
                    forall|t2: int, j2: int|
                        0 <= t2 < t && 0 <= j2 < table_list@[t2].columns@.len()
                            ==> is_column_row_for(
                            #[trigger] columns@[total_columns(table_list@, t2) + j2],
                            table_list@[t2].columns@[j2],
                            table_list@[t2].ic@,
                            j2,
                        ),
                    forall|j2: int|
                        0 <= j2 < j ==> is_column_row_for(
                            #[trigger] columns@[total_columns(table_list@, t as int) + j2],
                            table_list@[t as int].columns@[j2],
                            table_list@[t as int].ic@,
                            j2,
                        ),
            {
                let ghost prev = columns@;
                let row = ColumnRow::from_column(&table.columns[j], table.ic.clone(), j as u16);
                columns.push(row);
                proof {
                    assert((j as u16) as int == j as int);
                    assert forall|t2: int, j2: int|
                        0 <= t2 < t && 0 <= j2 < table_list@[t2].columns@.len()
                            implies is_column_row_for(
                            #[trigger] columns@[total_columns(table_list@, t2) + j2],
                            table_list@[t2].columns@[j2],
                            table_list@[t2].ic@,
                            j2,
                        ) by {
                        lemma_total_columns_mono(table_list@, 0, t2);
                        lemma_total_columns_mono(table_list@, t2 + 1, t as int);
                        let idx = total_columns(table_list@, t2) + j2;
                        assert(total_columns(table_list@, t2 + 1) == total_columns(table_list@, t2)
                            + table_list@[t2].columns@.len());
                        assert(0 <= idx < prev.len());
                        assert(columns@[idx] == prev[idx]);
                        assert(is_column_row_for(
                            prev[idx],
                            table_list@[t2].columns@[j2],
                            table_list@[t2].ic@,
                            j2,
                        ));
                    }
                    assert forall|j2: int| 0 <= j2 < j + 1 implies is_column_row_for(
                        #[trigger] columns@[total_columns(table_list@, t as int) + j2],
                        table_list@[t as int].columns@[j2],
                        table_list@[t as int].ic@,
                        j2,
                    ) by {
                        let idx = total_columns(table_list@, t as int) + j2;
                        lemma_total_columns_mono(table_list@, 0, t as int);
                        if j2 < j {
                            assert(0 <= idx < prev.len());
                            assert(columns@[idx] == prev[idx]);
                            assert(is_column_row_for(
                                prev[idx],
                                table_list@[t as int].columns@[j2],
                                table_list@[t as int].ic@,
                                j2,
                            ));
                        } else {
                            assert(idx == prev.len());
                            assert(columns@[idx] == row);
                        }
                    }
                }
            }
            let dn = table.data.len();
            for j in 0..dn
                invariant
                    n == table_list@.len(),
                    t < n,
                    table == &table_list[t as int],
                    dn == table.data@.len(),
                    datas@.len() == total_rows(table_list@, t as int) + j,
                    forall|t2: int, j2: int|
                        0 <= t2 < t && 0 <= j2 < table_list@[t2].data@.len() ==> is_data_row_for(
                            #[trigger] datas@[total_rows(table_list@, t2) + j2],
                            table_list@[t2].data@[j2],
                            table_list@[t2].ic@,
                        ),
                    forall|j2: int|
                        0 <= j2 < j ==> is_data_row_for(
                            #[trigger] datas@[total_rows(table_list@, t as int) + j2],
                            table_list@[t as int].data@[j2],
                            table_list@[t as int].ic@,
                        ),
            {
                let ghost prev = datas@;
                let row = DataRow::from_row_values(&table.data[j], table.ic.clone());
                datas.push(row);
                proof {
                    assert forall|t2: int, j2: int|
                        0 <= t2 < t && 0 <= j2 < table_list@[t2].data@.len()
                            implies is_data_row_for(
                            #[trigger] datas@[total_rows(table_list@, t2) + j2],
                            table_list@[t2].data@[j2],
                            table_list@[t2].ic@,
                        ) by {
                        lemma_total_rows_mono(table_list@, 0, t2);
                        lemma_total_rows_mono(table_list@, t2 + 1, t as int);
                        let idx = total_rows(table_list@, t2) + j2;
                        assert(total_rows(table_list@, t2 + 1) == total_rows(table_list@, t2)
                            + table_list@[t2].data@.len());
                        assert(0 <= idx < prev.len());
                        assert(datas@[idx] == prev[idx]);
                        assert(is_data_row_for(
                            prev[idx],
                            table_list@[t2].data@[j2],
                            table_list@[t2].ic@,
                        ));
                    }
                    assert forall|j2: int| 0 <= j2 < j + 1 implies is_data_row_for(
                        #[trigger] datas@[total_rows(table_list@, t as int) + j2],
                        table_list@[t as int].data@[j2],
                        table_list@[t as int].ic@,
                    ) by {
                        let idx = total_rows(table_list@, t as int) + j2;
                        lemma_total_rows_mono(table_list@, 0, t as int);
                        if j2 < j {
                            assert(0 <= idx < prev.len());
                            assert(datas@[idx] == prev[idx]);
                            assert(is_data_row_for(
                                prev[idx],
                                table_list@[t as int].data@[j2],
                                table_list@[t as int].ic@,
                            ));
                        } else {
                            assert(idx == prev.len());
                            assert(datas@[idx] == row);
                        }
                    }
                }
            }
        }
        (tables, columns, datas)
    }
}

} // verus!
