//! The table aggregate and its parts: the column schema, the sparse row
//! representation and the localized display names.

pub mod column_type;
pub mod column_value;
pub mod slot;
pub mod table_name;

use crate::bdt::column_type::ColumnType;
use crate::bdt::column_value::RowValues;
use crate::bdt::table_name::NameList;
use crate::date::Date;
use vstd::prelude::*;

verus! {

/// One schema slot's definition: identity, display metadata, classified
/// type, ordering and key flag. `ref_code` is the generic slot the column is
/// bound to; within one table, reference codes must be unique.
#[derive(Debug, PartialEq)]
pub struct Column {
    pub skip: String,
    pub id: Option<u64>,
    pub name: String,
    pub title: String,
    pub ref_code: String,
    pub col_type: ColumnType,
    pub sequence: Option<u16>,
    pub is_key: bool,
    pub options: String,
}

impl Clone for Column {
    fn clone(&self) -> (r: Self)
        ensures
            r == *self,
    {
        Column {
            skip: self.skip.clone(),
            id: self.id,
            name: self.name.clone(),
            title: self.title.clone(),
            ref_code: self.ref_code.clone(),
            col_type: self.col_type.clone(),
            sequence: self.sequence,
            is_key: self.is_key,
            options: self.options.clone(),
        }
    }
}

impl Default for Column {
    /// An unnamed text column bound to no slot.
    fn default() -> (r: Self)
        ensures
            r.skip@ == Seq::<char>::empty(),
            r.id is None,
            r.name@ == Seq::<char>::empty(),
            r.title@ == Seq::<char>::empty(),
            r.ref_code@ == Seq::<char>::empty(),
            r.col_type == ColumnType::Text,
            r.sequence is None,
            r.is_key == false,
            r.options@ == Seq::<char>::empty(),
    {
        Column {
            skip: String::new(),
            id: None,
            name: String::new(),
            title: String::new(),
            ref_code: String::new(),
            col_type: ColumnType::Text,
            sequence: None,
            is_key: false,
            options: String::new(),
        }
    }
}

/// The first column of `cols` whose reference code reads `key`, if any.
pub open spec fn find_col(cols: Seq<Column>, key: Seq<char>) -> Option<Column>
    decreases cols.len(),
{
    if cols.len() == 0 {
        None
    } else if cols[0].ref_code@ == key {
        Some(cols[0])
    } else {
        find_col(cols.drop_first(), key)
    }
}

/// No two columns claim the same generic slot.
pub open spec fn ref_codes_unique(cols: Seq<Column>) -> bool {
    forall|i: int, j: int|
        0 <= i < j < cols.len() ==> #[trigger] cols[i].ref_code@ != #[trigger] cols[j].ref_code@
}

/// A found column's reference code reads the key it was found by.
pub proof fn lemma_find_col_ref(cols: Seq<Column>, key: Seq<char>)
    ensures
        find_col(cols, key) matches Some(c) ==> c.ref_code@ == key,
    decreases cols.len(),
{
    if cols.len() > 0 && cols[0].ref_code@ != key {
        lemma_find_col_ref(cols.drop_first(), key);
    }
}

/// A found column is a member of the schema; a missing key has no member.
pub proof fn lemma_find_col_membership(cols: Seq<Column>, key: Seq<char>)
    ensures
        find_col(cols, key) matches Some(c) ==> cols.contains(c),
        find_col(cols, key) is None ==> forall|i: int|
            0 <= i < cols.len() ==> #[trigger] cols[i].ref_code@ != key,
    decreases cols.len(),
{
    if cols.len() > 0 {
        lemma_find_col_membership(cols.drop_first(), key);
        if cols[0].ref_code@ != key {
            if find_col(cols, key) is Some {
                let c = find_col(cols, key)->Some_0;
                assert(cols.drop_first().contains(c));
                let j = choose|j: int|
                    0 <= j < cols.drop_first().len() && cols.drop_first()[j] == c;
                assert(cols[j + 1] == c);
            }
            if find_col(cols, key) is None {
                assert forall|i: int| 0 <= i < cols.len() implies #[trigger] cols[i].ref_code@
                    != key by {
                    if i > 0 {
                        assert(cols.drop_first()[i - 1] == cols[i]);
                    }
                }
            }
        }
    }
}

/// In a schema without duplicate reference codes, lookup finds exactly the
/// member that carries the key, wherever it stands.
pub proof fn lemma_find_col_unique(cols: Seq<Column>, key: Seq<char>, c: Column)
    requires
        ref_codes_unique(cols),
        cols.contains(c),
        c.ref_code@ == key,
    ensures
        find_col(cols, key) == Some(c),
    decreases cols.len(),
{
    let j = choose|j: int| 0 <= j < cols.len() && cols[j] == c;
    if cols[0].ref_code@ == key {
        if j != 0 {
            assert(cols[0].ref_code@ != cols[j].ref_code@);
            assert(false);
        }
    } else {
        assert(j != 0);
        assert(cols.drop_first()[j - 1] == c);
        assert(cols.drop_first().contains(c));
        assert forall|a: int, b: int| 0 <= a < b < cols.drop_first().len() implies #[trigger] cols
            .drop_first()[a].ref_code@ != #[trigger] cols.drop_first()[b].ref_code@ by {
            assert(cols[a + 1].ref_code@ != cols[b + 1].ref_code@);
        }
        lemma_find_col_unique(cols.drop_first(), key, c);
    }
}

/// Finds the index of the first column bound to `key`.
pub fn find_column_index(columns: &Vec<Column>, key: &String) -> (r: Option<usize>)
    ensures
        match r {
            Some(ci) => ci < columns@.len() && find_col(columns@, key@) == Some(
                columns@[ci as int],
            ),
            None => find_col(columns@, key@) is None,
        },
{
    let n = columns.len();
    proof {
        assert(columns@.subrange(0, n as int) =~= columns@);
    }
    for i in 0..n
        invariant
            n == columns@.len(),
            find_col(columns@, key@) == find_col(columns@.subrange(i as int, n as int), key@),
    {
        proof {
            assert(columns@.subrange(i as int, n as int).drop_first() =~= columns@.subrange(
                i + 1,
                n as int,
            ));
        }
        if columns[i].ref_code == *key {
            return Some(i);
        }
    }
    proof {
        assert(columns@.subrange(n as int, n as int) =~= Seq::<Column>::empty());
    }
    None
}

/// The reference code of the first pair of columns that claim the same
/// generic slot, if the schema has such a pair.
pub fn duplicate_ref_code(columns: &Vec<Column>) -> (r: Option<String>)
    ensures
        r is Some <==> !ref_codes_unique(columns@),
        r matches Some(s) ==> exists|a: int, b: int|
            0 <= a < b < columns@.len() && columns@[a].ref_code@ == columns@[b].ref_code@ && s@
                == columns@[a].ref_code@,
{
    let n = columns.len();
    for i in 0..n
        invariant
            n == columns@.len(),
            forall|a: int, b: int|
                0 <= a < b < n && a < i ==> #[trigger] columns@[a].ref_code@
                    != #[trigger] columns@[b].ref_code@,
    {
        for j in (i + 1)..n
            invariant
                n == columns@.len(),
                i < n,
                forall|a: int, b: int|
                    0 <= a < b < n && a < i ==> #[trigger] columns@[a].ref_code@
                        != #[trigger] columns@[b].ref_code@,
                forall|b: int|
                    i < b < j ==> #[trigger] columns@[b].ref_code@ != columns@[i as int].ref_code@,
        {
            if columns[i].ref_code == columns[j].ref_code {
                return Some(columns[i].ref_code.clone());
            }
        }
    }
    None
}

/// Decides whether no two columns of the schema claim the same slot.
pub fn check_ref_codes_unique(columns: &Vec<Column>) -> (r: bool)
    ensures
        r == ref_codes_unique(columns@),
{
    duplicate_ref_code(columns).is_none()
}

/// A business data table: the unit of import and export. It owns its ordered
/// column schema, its localized display names, an open validity interval and
/// its mapped data rows.
#[derive(Debug, PartialEq)]
pub struct Bdt {
    pub skip: String,
    pub ic: String,
    pub names: NameList,
    pub valid_from: Option<Date>,
    pub valid_to: Option<Date>,
    pub columns: Vec<Column>,
    pub data: Vec<RowValues>,
}

} // verus!
