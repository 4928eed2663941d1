use crate::bdt::slot::{
    lemma_slot_names_distinct, slot_family, slot_family_at, slot_name, slot_name_at, SlotFamily,
    SLOT_COUNT,
};
use crate::bdt::{find_col, ref_codes_unique, Column};
use crate::date::Date;
use crate::error::BdtError;
use vstd::pervasive::VecAdditionalExecFns;
use vstd::prelude::*;

verus! {

/// The data one generic slot carries. The shape mirrors the column types: a
/// date slot holds an optional date, a numeric slot an optional numeric
/// payload, a text or codification slot a string whose emptiness means
/// absence.
///
/// The numeric payload is carried opaquely as the 64-bit encoding the
/// adapters exchange; the engine never computes with it.
#[derive(Debug, PartialEq)]
pub enum ColumnValueType {
    Date(Option<Date>),
    Cdf(String),
    Num(Option<u64>),
    Text(String),
}

impl Clone for ColumnValueType {
    fn clone(&self) -> (r: Self)
        ensures
            r == *self,
    {
        match self {
            ColumnValueType::Date(d) => ColumnValueType::Date(*d),
            ColumnValueType::Cdf(s) => ColumnValueType::Cdf(s.clone()),
            ColumnValueType::Num(n) => ColumnValueType::Num(*n),
            ColumnValueType::Text(s) => ColumnValueType::Text(s.clone()),
        }
    }
}

/// The slot family a value belongs to.
pub open spec fn family_of(v: ColumnValueType) -> SlotFamily {
    match v {
        ColumnValueType::Date(_) => SlotFamily::Date,
        ColumnValueType::Cdf(_) => SlotFamily::Cdf,
        ColumnValueType::Num(_) => SlotFamily::Num,
        ColumnValueType::Text(_) => SlotFamily::Text,
    }
}

/// A slot value is present when a date or numeric slot holds a value, or a
/// text or codification slot holds a non-empty string.
pub open spec fn is_present(v: ColumnValueType) -> bool {
    match v {
        ColumnValueType::Date(d) => d is Some,
        ColumnValueType::Cdf(s) => s@.len() > 0,
        ColumnValueType::Num(n) => n is Some,
        ColumnValueType::Text(s) => s@.len() > 0,
    }
}

/// `v` is the empty representation of family `f`.
pub open spec fn is_empty_of(v: ColumnValueType, f: SlotFamily) -> bool {
    family_of(v) == f && !is_present(v)
}

impl ColumnValueType {
    /// Whether the slot value is present (see `is_present`).
    pub fn present(&self) -> (r: bool)
        ensures
            r == is_present(*self),
    {
        match self {
            ColumnValueType::Date(d) => d.is_some(),
            ColumnValueType::Cdf(s) => !s.as_str().is_empty(),
            ColumnValueType::Num(n) => n.is_some(),
            ColumnValueType::Text(s) => !s.as_str().is_empty(),
        }
    }
}

/// One populated slot of a sparse row: the owning column's display name, the
/// slot's reference code, and the typed payload.
#[derive(Debug, PartialEq)]
pub struct ColumnValue {
    pub name: String,
    pub ref_code: String,
    pub value: ColumnValueType,
}

impl Clone for ColumnValue {
    fn clone(&self) -> (r: Self)
        ensures
            r == *self,
    {
        ColumnValue {
            name: self.name.clone(),
            ref_code: self.ref_code.clone(),
            value: self.value.clone(),
        }
    }
}

impl ColumnValue {
    pub fn new(name: String, ref_code: String, value: ColumnValueType) -> (r: ColumnValue)
        ensures
            r == (ColumnValue { name, ref_code, value }),
    {
        ColumnValue { name, ref_code, value }
    }
}

/// The first entry of `values` whose reference code reads `key`, if any.
pub open spec fn first_by_ref(values: Seq<ColumnValue>, key: Seq<char>) -> Option<ColumnValue>
    decreases values.len(),
{
    if values.len() == 0 {
        None
    } else if values[0].ref_code@ == key {
        Some(values[0])
    } else {
        first_by_ref(values.drop_first(), key)
    }
}

/// One sparse data row: the ordered populated slots, each paired with its
/// column's identity. Built by the forward mapping from a generic wide row;
/// flattened back into one by the backward mapping.
#[derive(Debug, PartialEq)]
pub struct RowValues {
    pub values: Vec<ColumnValue>,
}

impl Clone for RowValues {
    fn clone(&self) -> (r: Self)
        ensures
            r.values@ == self.values@,
    {
        let mut values: Vec<ColumnValue> = Vec::new();
        let n = self.values.len();
        for i in 0..n
            invariant
                n == self.values@.len(),
                values@.len() == i,
                forall|k: int| 0 <= k < i ==> values@[k] == self.values@[k],
        {
            values.push(self.values[i].clone());
        }
        proof {
            assert(values@ =~= self.values@);
        }
        RowValues { values }
    }
}

impl RowValues {
    pub fn new() -> (r: RowValues)
        ensures
            r.values@ == Seq::<ColumnValue>::empty(),
    {
        RowValues { values: Vec::new() }
    }

    pub fn push(&mut self, value: ColumnValue)
        ensures
            final(self).values@ == old(self).values@.push(value),
    {
        self.values.push(value);
    }

    pub fn len(&self) -> (r: usize)
        ensures
            r == self.values@.len(),
    {
        self.values.len()
    }

    pub fn get(&self, index: usize) -> (r: Option<&ColumnValue>)
        ensures
            match r {
                Some(cv) => index < self.values@.len() && *cv == self.values@[index as int],
                None => index >= self.values@.len(),
            },
    {
        if index < self.values.len() {
            Some(&self.values[index])
        } else {
            None
        }
    }

    /// The index of the first entry whose reference code reads `key`.
    fn find_index_by_ref(&self, key: &str) -> (r: Option<usize>)
        ensures
            match r {
                Some(i) => i < self.values@.len() && first_by_ref(self.values@, key@) == Some(
                    self.values@[i as int],
                ),
                None => first_by_ref(self.values@, key@) is None,
            },
    {
        let owned_key = key.to_owned();
        let n = self.values.len();
        proof {
            assert(self.values@.subrange(0, n as int) =~= self.values@);
        }
        for i in 0..n
            invariant
                n == self.values@.len(),
                owned_key@ == key@,
                first_by_ref(self.values@, key@) == first_by_ref(
                    self.values@.subrange(i as int, n as int),
                    key@,
                ),
        {
            proof {
                assert(self.values@.subrange(i as int, n as int).drop_first() =~= self
                    .values@.subrange(i + 1, n as int));
            }
            if self.values[i].ref_code == owned_key {
                return Some(i);
            }
        }
        proof {
            assert(self.values@.subrange(n as int, n as int) =~= Seq::<ColumnValue>::empty());
        }
        None
    }

    /// The first entry bound to `column_ref`, whatever its family; `None`
    /// when the row has no such entry.
    pub fn first_value_by_ref(&self, column_ref: &str) -> (r: Option<ColumnValueType>)
        ensures
            r == (match first_by_ref(self.values@, column_ref@) {
                Some(cv) => Some(cv.value),
                None => None::<ColumnValueType>,
            }),
    {
        match self.find_index_by_ref(column_ref) {
            Some(i) => Some(self.values[i].value.clone()),
            None => None,
        }
    }

    /// The date payload of the first entry bound to `column_ref`; `None`
    /// when the row has no such entry or it is not a date.
    pub fn get_by_ref_as_date(&self, column_ref: &str) -> (r: Option<Date>)
        ensures
            r == (match first_by_ref(self.values@, column_ref@) {
                Some(cv) => match cv.value {
                    ColumnValueType::Date(d) => d,
                    _ => None,
                },
                None => None,
            }),
    {
        match self.find_index_by_ref(column_ref) {
            Some(i) => match &self.values[i].value {
                ColumnValueType::Date(d) => *d,
                _ => None,
            },
            None => None,
        }
    }

    /// The numeric payload of the first entry bound to `column_ref`; `None`
    /// when the row has no such entry or it is not numeric.
    pub fn get_by_ref_as_num(&self, column_ref: &str) -> (r: Option<u64>)
        ensures
            r == (match first_by_ref(self.values@, column_ref@) {
                Some(cv) => match cv.value {
                    ColumnValueType::Num(n) => n,
                    _ => None,
                },
                None => None,
            }),
    {
        match self.find_index_by_ref(column_ref) {
            Some(i) => match &self.values[i].value {
                ColumnValueType::Num(n) => *n,
                _ => None,
            },
            None => None,
        }
    }

    /// The text payload of the first entry bound to `column_ref`; the empty
    /// string when the row has no such entry or it is not text.
    pub fn get_by_ref_as_text(&self, column_ref: &str) -> (r: String)
        ensures
            match first_by_ref(self.values@, column_ref@) {
                Some(cv) => match cv.value {
                    ColumnValueType::Text(s) => r == s,
                    _ => r@ == Seq::<char>::empty(),
                },
                None => r@ == Seq::<char>::empty(),
            },
    {
        match self.find_index_by_ref(column_ref) {
            Some(i) => match &self.values[i].value {
                ColumnValueType::Text(s) => s.clone(),
                _ => String::new(),
            },
            None => String::new(),
        }
    }

    /// The codification payload of the first entry bound to `column_ref`;
    /// the empty string when the row has no such entry or it is not a
    /// codification.
    pub fn get_by_ref_as_cdf(&self, column_ref: &str) -> (r: String)
        ensures
            match first_by_ref(self.values@, column_ref@) {
                Some(cv) => match cv.value {
                    ColumnValueType::Cdf(s) => r == s,
                    _ => r@ == Seq::<char>::empty(),
                },
                None => r@ == Seq::<char>::empty(),
            },
    {
        match self.find_index_by_ref(column_ref) {
            Some(i) => match &self.values[i].value {
                ColumnValueType::Cdf(s) => s.clone(),
                _ => String::new(),
            },
            None => String::new(),
        }
    }
}

/// The slots of a well-formed generic row: one value per slot of the fixed
/// layout, each of its slot's family.
pub open spec fn generic_row_wf(slots: Seq<ColumnValueType>) -> bool {
    &&& slots.len() == SLOT_COUNT
    &&& forall|i: int| 0 <= i < slots.len() ==> family_of(#[trigger] slots[i]) == slot_family(i)
}

/// One generic wide row: all slots of the fixed layout, many of them empty.
/// The view is the sequence of the 32 slot values in canonical slot order.
#[derive(Debug, PartialEq)]
pub struct GenericRow {
    slots: Vec<ColumnValueType>,
}

impl View for GenericRow {
    type V = Seq<ColumnValueType>;

    closed spec fn view(&self) -> Seq<ColumnValueType> {
        self.slots@
    }
}

impl Clone for GenericRow {
    fn clone(&self) -> (r: Self)
        ensures
            r@ == self@,
    {
        let mut slots: Vec<ColumnValueType> = Vec::new();
        let n = self.slots.len();
        for i in 0..n
            invariant
                n == self.slots@.len(),
                slots@.len() == i,
                forall|k: int| 0 <= k < i ==> slots@[k] == self.slots@[k],
        {
            slots.push(self.slots[i].clone());
        }
        proof {
            assert(slots@ =~= self.slots@);
        }
        GenericRow { slots }
    }
}

impl GenericRow {
    pub open spec fn wf(&self) -> bool {
        generic_row_wf(self@)
    }

    /// The all-empty generic row.
    pub fn new() -> (r: GenericRow)
        ensures
            r.wf(),
            forall|i: int| 0 <= i < SLOT_COUNT ==> !is_present(#[trigger] r@[i]),
    {
        let mut slots: Vec<ColumnValueType> = Vec::new();
        for i in 0..SLOT_COUNT
            invariant
                slots@.len() == i,
                forall|t: int|
                    0 <= t < i ==> family_of(#[trigger] slots@[t]) == slot_family(t) && !is_present(
                        slots@[t],
                    ),
        {
            let v = match slot_family_at(i) {
                SlotFamily::Date => ColumnValueType::Date(None),
                SlotFamily::Num => ColumnValueType::Num(None),
                SlotFamily::Text => ColumnValueType::Text(String::new()),
                SlotFamily::Cdf => ColumnValueType::Cdf(String::new()),
            };
            slots.push(v);
        }
        GenericRow { slots }
    }

    /// Replaces the value of slot `i`; the value must belong to the slot's
    /// family.
    pub fn set(&mut self, i: usize, v: ColumnValueType)
        requires
            old(self).wf(),
            i < SLOT_COUNT,
            family_of(v) == slot_family(i as int),
        ensures
            final(self)@ == old(self)@.update(i as int, v),
            final(self).wf(),
    {
        self.slots.set(i, v);
    }

    /// The value of slot `i`.
    pub fn get(&self, i: usize) -> (r: &ColumnValueType)
        requires
            self.wf(),
            i < SLOT_COUNT,
        ensures
            *r == self@[i as int],
    {
        &self.slots[i]
    }

    /// How many slots the row has.
    pub fn len(&self) -> (r: usize)
        ensures
            r == self@.len(),
    {
        self.slots.len()
    }
}

/// The sparse-row entry the forward mapping emits for populated slot `i`:
/// the owning column's display name and reference code, and the slot's
/// value.
pub open spec fn projected_cv(cols: Seq<Column>, slots: Seq<ColumnValueType>, i: int) -> ColumnValue {
    ColumnValue {
        name: find_col(cols, slot_name(i))->Some_0.name,
        ref_code: find_col(cols, slot_name(i))->Some_0.ref_code,
        value: slots[i],
    }
}

/// The forward mapping of the first `n` slots: the populated ones, in
/// canonical slot order, each paired with its column's identity.
pub open spec fn project_spec(cols: Seq<Column>, slots: Seq<ColumnValueType>, n: int) -> Seq<
    ColumnValue,
>
    decreases n,
{
    if n <= 0 {
        Seq::empty()
    } else if is_present(slots[n - 1]) {
        project_spec(cols, slots, n - 1).push(projected_cv(cols, slots, n - 1))
    } else {
        project_spec(cols, slots, n - 1)
    }
}

/// Slot `i` carries data but the schema defines no column for it: a fatal
/// schema violation.
pub open spec fn is_orphan(cols: Seq<Column>, slots: Seq<ColumnValueType>, i: int) -> bool {
    &&& 0 <= i < slots.len()
    &&& is_present(slots[i])
    &&& find_col(cols, slot_name(i)) is None
}

/// Every populated slot is backed by a defined column.
pub open spec fn all_backed(cols: Seq<Column>, slots: Seq<ColumnValueType>) -> bool {
    forall|i: int| !is_orphan(cols, slots, i)
}

impl RowValues {
    /// The forward mapping: projects a generic wide row against the column
    /// schema into a sparse named row.
    ///
    /// For each slot of the fixed layout, in canonical slot order, an absent
    /// value contributes nothing; a present value is paired with the column
    /// bound to the slot and emitted. A present value in a slot the schema
    /// does not define is a fatal schema violation naming the first such
    /// slot: the mapping fails loudly rather than dropping data.
    pub fn from_data_row(columns: &Vec<Column>, row: &GenericRow) -> (r: Result<
        RowValues,
        BdtError,
    >)
        requires
            row.wf(),
        ensures
            r is Ok <==> all_backed(columns@, row@),
            r is Ok ==> r->Ok_0.values@ == project_spec(columns@, row@, SLOT_COUNT as int),
            r is Err ==> (r->Err_0 matches BdtError::SchemaViolation { ref_code: rc }
                && exists|i: int|
                is_orphan(columns@, row@, i) && rc@ == slot_name(i) && (forall|j: int|
                    0 <= j < i ==> !is_orphan(columns@, row@, j))),
    {
        let mut out: Vec<ColumnValue> = Vec::new();
        for i in 0..SLOT_COUNT
            invariant
                row.wf(),
                forall|j: int| 0 <= j < i ==> !is_orphan(columns@, row@, j),
                out@ == project_spec(columns@, row@, i as int),
        {
            let v = row.get(i);
            if v.present() {
                let key = slot_name_at(i);
                match crate::bdt::find_column_index(columns, &key) {
                    Some(ci) => {
                        let cv = ColumnValue::new(
                            columns[ci].name.clone(),
                            columns[ci].ref_code.clone(),
                            v.clone(),
                        );
                        out.push(cv);
                    },
                    None => {
                        proof {
                            assert(is_orphan(columns@, row@, i as int));
                        }
                        return Err(BdtError::SchemaViolation { ref_code: key });
                    },
                }
            }
        }
        proof {
            assert forall|i: int| !is_orphan(columns@, row@, i) by {
                if 0 <= i < SLOT_COUNT {
                } else {
                    assert(!(0 <= i < row@.len()));
                }
            }
        }
        Ok(RowValues { values: out })
    }
}

/// What the backward mapping writes into slot `i`: the payload of the first
/// sparse-row entry bound to the slot when its family matches, and the
/// slot's empty representation otherwise.
pub open spec fn flatten_slot_ok(
    values: Seq<ColumnValue>,
    slots: Seq<ColumnValueType>,
    i: int,
) -> bool {
    match first_by_ref(values, slot_name(i)) {
        Some(cv) => if family_of(cv.value) == slot_family(i) {
            slots[i] == cv.value
        } else {
            is_empty_of(slots[i], slot_family(i))
        },
        None => is_empty_of(slots[i], slot_family(i)),
    }
}

/// The backward mapping fills every slot of the fixed layout as
/// `flatten_slot_ok` says.
pub open spec fn flatten_rel(values: Seq<ColumnValue>, slots: Seq<ColumnValueType>) -> bool {
    &&& slots.len() == SLOT_COUNT
    &&& forall|i: int| 0 <= i < SLOT_COUNT ==> flatten_slot_ok(values, slots, i)
}

/// The backward mapping: flattens a sparse named row into a generic wide
/// row.
///
/// For each slot of the fixed layout the first entry bound to the slot's
/// reference code supplies the payload; a slot with no entry, or an entry of
/// the wrong family, is written as the slot's empty representation. This
/// direction is total: absence is a normal, expected case.
pub fn flatten(row: &RowValues) -> (r: GenericRow)
    ensures
        r.wf(),
        flatten_rel(row.values@, r@),
{
    let mut slots: Vec<ColumnValueType> = Vec::new();
    for i in 0..SLOT_COUNT
        invariant
            slots@.len() == i,
            forall|t: int| 0 <= t < i ==> family_of(#[trigger] slots@[t]) == slot_family(t),
            forall|t: int| 0 <= t < i ==> flatten_slot_ok(row.values@, slots@, t),
    {
        let ghost prev = slots@;
        let key = slot_name_at(i);
        let v = match slot_family_at(i) {
            SlotFamily::Date => ColumnValueType::Date(row.get_by_ref_as_date(key.as_str())),
            SlotFamily::Num => ColumnValueType::Num(row.get_by_ref_as_num(key.as_str())),
            SlotFamily::Text => ColumnValueType::Text(row.get_by_ref_as_text(key.as_str())),
            SlotFamily::Cdf => ColumnValueType::Cdf(row.get_by_ref_as_cdf(key.as_str())),
        };
        slots.push(v);
        proof {
            assert forall|t: int| 0 <= t < i + 1 implies flatten_slot_ok(
                row.values@,
                slots@,
                t,
            ) by {
                if t < i {
                    assert(slots@[t] == prev[t]);
                    assert(flatten_slot_ok(row.values@, prev, t));
                } else {
                    assert(slots@[t] == v);
                }
            }
        }
    }
    GenericRow { slots }
}

/// How a lookup by reference code reads a row extended by one entry: an
/// earlier match still wins; otherwise the new entry matches or nothing
/// does.
pub proof fn lemma_first_by_ref_push(values: Seq<ColumnValue>, x: ColumnValue, key: Seq<char>)
    ensures
        first_by_ref(values.push(x), key) == (match first_by_ref(values, key) {
            Some(cv) => Some(cv),
            None => if x.ref_code@ == key {
                Some(x)
            } else {
                None::<ColumnValue>
            },
        }),
    decreases values.len(),
{
    if values.len() == 0 {
        assert(values.push(x)[0] == x);
        if x.ref_code@ != key {
            assert(values.push(x).drop_first() =~= Seq::<ColumnValue>::empty());
        }
    } else {
        assert(values.push(x)[0] == values[0]);
        assert(values.push(x).drop_first() =~= values.drop_first().push(x));
        lemma_first_by_ref_push(values.drop_first(), x, key);
    }
}

/// What a lookup by slot name finds in a projected row: exactly the entry
/// the forward mapping emitted for that slot, and nothing for an absent
/// slot.
pub proof fn lemma_project_lookup(
    cols: Seq<Column>,
    slots: Seq<ColumnValueType>,
    n: int,
    i: int,
)
    requires
        generic_row_wf(slots),
        0 <= i < SLOT_COUNT,
        0 <= n <= SLOT_COUNT,
        forall|j: int| 0 <= j < n ==> !is_orphan(cols, slots, j),
    ensures
        first_by_ref(project_spec(cols, slots, n), slot_name(i)) == (if i < n && is_present(
            slots[i],
        ) {
            Some(projected_cv(cols, slots, i))
        } else {
            None::<ColumnValue>
        }),
    decreases n,
{
    if n > 0 {
        lemma_project_lookup(cols, slots, n - 1, i);
        if is_present(slots[n - 1]) {
            assert(!is_orphan(cols, slots, n - 1));
            let cv = projected_cv(cols, slots, n - 1);
            crate::bdt::lemma_find_col_ref(cols, slot_name(n - 1));
            assert(cv.ref_code@ == slot_name(n - 1));
            lemma_first_by_ref_push(project_spec(cols, slots, n - 1), cv, slot_name(i));
            if i != n - 1 {
                lemma_slot_names_distinct(i, n - 1);
            }
        }
    }
}

/// Round trip: projecting a generic row whose populated slots are all
/// backed by defined columns, then flattening the result, reproduces the
/// original row's populated slots exactly and the empty representation for
/// every other slot.
pub proof fn lemma_round_trip(
    cols: Seq<Column>,
    slots: Seq<ColumnValueType>,
    back: Seq<ColumnValueType>,
)
    requires
        generic_row_wf(slots),
        all_backed(cols, slots),
        flatten_rel(project_spec(cols, slots, SLOT_COUNT as int), back),
    ensures
        back.len() == SLOT_COUNT,
        forall|i: int|
            0 <= i < SLOT_COUNT && is_present(#[trigger] slots[i]) ==> back[i] == slots[i],
        forall|i: int|
            0 <= i < SLOT_COUNT && !is_present(#[trigger] slots[i]) ==> is_empty_of(
                back[i],
                slot_family(i),
            ),
{
    let out = project_spec(cols, slots, SLOT_COUNT as int);
    assert forall|i: int| 0 <= i < SLOT_COUNT implies (is_present(slots[i]) ==> back[i]
        == slots[i]) && (!is_present(slots[i]) ==> is_empty_of(back[i], slot_family(i))) by {
        lemma_project_lookup(cols, slots, SLOT_COUNT as int, i);
        assert(flatten_slot_ok(out, back, i));
    }
}

/// Forward mapping is order-stable: two schemas holding the same columns,
/// in whatever declaration order, project any generic row to the same
/// sparse row — the output follows the canonical slot order, not the order
/// the columns were declared in.
pub proof fn lemma_project_order_stable(
    cols1: Seq<Column>,
    cols2: Seq<Column>,
    slots: Seq<ColumnValueType>,
    n: int,
)
    requires
        cols1.to_multiset() == cols2.to_multiset(),
        ref_codes_unique(cols1),
        ref_codes_unique(cols2),
    ensures
        project_spec(cols1, slots, n) == project_spec(cols2, slots, n),
    decreases n,
{
    if n > 0 {
        lemma_project_order_stable(cols1, cols2, slots, n - 1);
        if is_present(slots[n - 1]) {
            lemma_find_col_permutation(cols1, cols2, slot_name(n - 1));
        }
    }
}

/// Schemas that hold the same columns, each without duplicate reference
/// codes, resolve every slot lookup alike.
pub proof fn lemma_find_col_permutation(cols1: Seq<Column>, cols2: Seq<Column>, key: Seq<char>)
    requires
        cols1.to_multiset() == cols2.to_multiset(),
        ref_codes_unique(cols1),
        ref_codes_unique(cols2),
    ensures
        find_col(cols1, key) == find_col(cols2, key),
{
    broadcast use vstd::seq_lib::group_to_multiset_ensures;

    crate::bdt::lemma_find_col_membership(cols1, key);
    crate::bdt::lemma_find_col_membership(cols2, key);
    crate::bdt::lemma_find_col_ref(cols1, key);
    crate::bdt::lemma_find_col_ref(cols2, key);
    if find_col(cols1, key) is Some {
        let c = find_col(cols1, key)->Some_0;
        assert(cols1.to_multiset().count(c) > 0);
        assert(cols2.contains(c));
        crate::bdt::lemma_find_col_unique(cols2, key, c);
    } else {
        if find_col(cols2, key) is Some {
            let c = find_col(cols2, key)->Some_0;
            assert(cols2.to_multiset().count(c) > 0);
            assert(cols1.contains(c));
            let j = choose|j: int| 0 <= j < cols1.len() && cols1[j] == c;
            assert(cols1[j].ref_code@ != key);
            assert(false);
        }
    }
}

} // verus!
