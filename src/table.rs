use vstd::prelude::*;
use crate::query::{Column, TableDef};
use crate::value::{Datum, Kind, Value};

verus! {

/// A stored row: the `id` the store assigned, and one value for each column.
#[derive(Clone, Debug, PartialEq, Eq)]
pub struct Row {
    pub id: i32,
    pub values: Vec<Value>,
}

/// The mathematical content of a `Row`.
pub struct Record {
    pub id: i32,
    pub data: Seq<Datum>,
}

impl DeepView for Row {
    type V = Record;

    open spec fn deep_view(&self) -> Record {
        Record { id: self.id, data: self.values.deep_view() }
    }
}

impl Row {
    /// A copy of this row with the same content.
    pub fn duplicate(&self) -> (r: Row)
        ensures
            r.deep_view() == self.deep_view(),
    {
        Row { id: self.id, values: crate::value::duplicate_values(&self.values) }
    }
}

/// Why the store refused a change.
#[derive(Clone, Copy, Debug, PartialEq, Eq, Structural)]
pub enum StoreError {
    /// A value has the wrong type for its column, or repeats a value of a unique column.
    Constraint,
    /// No `id` is left to assign.
    Exhausted,
}

/// Whether every value that `filter` gives equals the value of its column in `data`.
/// An absent value puts no constraint on its column.
pub open spec fn selects(filter: Seq<Option<Datum>>, data: Seq<Datum>) -> bool {
    forall|i: int| 0 <= i < filter.len() ==> (#[trigger] filter[i] matches Some(d) ==> data[i] == d)
}

/// `data` with each column that `update` gives a value for set to that value.
pub open spec fn updated(update: Seq<Option<Datum>>, data: Seq<Datum>) -> Seq<Datum> {
    Seq::new(
        data.len(),
        |i: int|
            match update[i] {
                Some(d) => d,
                None => data[i],
            },
    )
}

/// The records on which `selects(filter, _)` is `want`, in their order.
pub open spec fn kept(rows: Seq<Record>, filter: Seq<Option<Datum>>, want: bool) -> Seq<Record>
    decreases rows.len(),
{
    if rows.len() == 0 {
        Seq::empty()
    } else {
        let rest = kept(rows.drop_last(), filter, want);
        if selects(filter, rows.last().data) == want {
            rest.push(rows.last())
        } else {
            rest
        }
    }
}

/// The records that `filter` matches, in their order.
pub open spec fn matching(rows: Seq<Record>, filter: Seq<Option<Datum>>) -> Seq<Record> {
    kept(rows, filter, true)
}

/// The records that `filter` does not match, in their order.
pub open spec fn not_matching(rows: Seq<Record>, filter: Seq<Option<Datum>>) -> Seq<Record> {
    kept(rows, filter, false)
}

/// The records after `update` was applied to each one that `condition` matches.
pub open spec fn after_update(
    rows: Seq<Record>,
    update: Seq<Option<Datum>>,
    condition: Seq<Option<Datum>>,
) -> Seq<Record> {
    Seq::new(
        rows.len(),
        |i: int|
            if selects(condition, rows[i].data) {
                Record { id: rows[i].id, data: updated(update, rows[i].data) }
            } else {
                rows[i]
            },
    )
}

/// Whether `data` has one value for each column, of the column's type.
pub open spec fn fits(kinds: Seq<Kind>, data: Seq<Datum>) -> bool {
    &&& data.len() == kinds.len()
    &&& forall|i: int| 0 <= i < kinds.len() ==> (#[trigger] data[i]).kind() == kinds[i]
}

/// Whether each value that `update` gives has the type of its column.
pub open spec fn update_fits(kinds: Seq<Kind>, update: Seq<Option<Datum>>) -> bool {
    &&& update.len() == kinds.len()
    &&& forall|i: int|
        0 <= i < kinds.len() ==> (#[trigger] update[i] matches Some(d) ==> d.kind() == kinds[i])
}

impl TableDef {
    pub open spec fn unique_flags(&self) -> Seq<bool> {
        Seq::new(self.columns@.len(), |i: int| self.columns@[i].unique)
    }
}

/// Whether `a` and `b` hold the same value in some unique column.
pub open spec fn clash(unique: Seq<bool>, a: Seq<Datum>, b: Seq<Datum>) -> bool {
    exists|c: int| 0 <= c < unique.len() && #[trigger] unique[c] && a[c] == b[c]
}

/// Whether no two records hold the same value in a unique column.
pub open spec fn unique_ok(unique: Seq<bool>, rows: Seq<Record>) -> bool {
    forall|i: int, j: int|
        0 <= i < j < rows.len() ==> !clash(unique, #[trigger] rows[i].data, #[trigger] rows[j].data)
}

/// Whether the store accepts a new row holding `data`: every value fits its column and
/// no existing record holds the same value in a unique column.
pub open spec fn accepts(def: TableDef, rows: Seq<Record>, data: Seq<Datum>) -> bool {
    &&& fits(def.kinds(), data)
    &&& forall|k: int| 0 <= k < rows.len() ==> !clash(def.unique_flags(), #[trigger] rows[k].data, data)
}

/// Whether the records are well formed for `def`, with ids below `next_id` in increasing order.
pub open spec fn rows_wf(def: TableDef, next_id: i32, rows: Seq<Record>) -> bool {
    &&& forall|k: int|
        0 <= k < rows.len() ==> fits(def.kinds(), #[trigger] rows[k].data) && 0 < rows[k].id < next_id
    &&& forall|i: int, j: int| 0 <= i < j < rows.len() ==> (#[trigger] rows[i]).id < (#[trigger] rows[j]).id
}

/// Whether every value that `filter` gives equals the value of its column in `values`.
pub fn row_matches(filter: &Vec<Option<Value>>, values: &Vec<Value>) -> (r: bool)
    requires
        filter@.len() == values@.len(),
    ensures
        r == selects(filter.deep_view(), values.deep_view()),
{
    let ghost f = filter.deep_view();
    let ghost d = values.deep_view();
    let mut i: usize = 0;
    while i < filter.len()
        invariant
            i <= filter@.len() == values@.len(),
            f == filter.deep_view(),
            d == values.deep_view(),
            forall|j: int| 0 <= j < i ==> (#[trigger] f[j] matches Some(x) ==> d[j] == x),
        decreases filter@.len() - i,
    {
        match &filter[i] {
            Some(v) => {
                if !v.same_as(&values[i]) {
                    assert(f[i as int] == Some(v@));
                    return false;
                }
            },
            None => {},
        }
        i = i + 1;
    }
    true
}

/// `values` with each column that `update` gives a value for set to that value.
pub fn updated_values(update: &Vec<Option<Value>>, values: &Vec<Value>) -> (r: Vec<Value>)
    requires
        update@.len() == values@.len(),
    ensures
        r.deep_view() == updated(update.deep_view(), values.deep_view()),
{
    let mut r: Vec<Value> = Vec::new();
    let mut i: usize = 0;
    while i < values.len()
        invariant
            i <= update@.len() == values@.len(),
            r@.len() == i,
            forall|j: int|
                0 <= j < i ==> (#[trigger] r@[j])@ == (match update@[j] {
                    Some(x) => x@,
                    None => values@[j]@,
                }),
        decreases values@.len() - i,
    {
        match &update[i] {
            Some(v) => r.push(v.duplicate()),
            None => r.push(values[i].duplicate()),
        }
        i = i + 1;
    }
    assert(r.deep_view() =~= updated(update.deep_view(), values.deep_view()));
    r
}

/// Whether `values` has one value for each column of `def`, of the column's type.
pub fn values_fit(def: &TableDef, values: &Vec<Value>) -> (r: bool)
    ensures
        r == fits(def.kinds(), values.deep_view()),
{
    if values.len() != def.columns.len() {
        return false;
    }
    let mut i: usize = 0;
    while i < values.len()
        invariant
            i <= values@.len() == def.columns@.len(),
            forall|j: int| 0 <= j < i ==> (#[trigger] values.deep_view()[j]).kind() == def.kinds()[j],
        decreases values@.len() - i,
    {
        if values[i].kind() != def.columns[i].kind {
            assert(values.deep_view()[i as int].kind() != def.kinds()[i as int]);
            return false;
        }
        i = i + 1;
    }
    true
}

/// Whether each value that `update` gives has the type of its column in `def`.
pub fn update_fits_def(def: &TableDef, update: &Vec<Option<Value>>) -> (r: bool)
    ensures
        r == update_fits(def.kinds(), update.deep_view()),
{
    if update.len() != def.columns.len() {
        return false;
    }
    let ghost u = update.deep_view();
    let mut i: usize = 0;
    while i < update.len()
        invariant
            i <= update@.len() == def.columns@.len(),
            u == update.deep_view(),
            forall|j: int| 0 <= j < i ==> (#[trigger] u[j] matches Some(d) ==> d.kind() == def.kinds()[j]),
        decreases update@.len() - i,
    {
        match &update[i] {
            Some(v) => {
                if v.kind() != def.columns[i].kind {
                    assert(u[i as int] == Some(v@));
                    return false;
                }
            },
            None => {},
        }
        i = i + 1;
    }
    true
}

/// Whether `a` and `b` hold the same value in some unique column of `def`.
pub fn values_clash(def: &TableDef, a: &Vec<Value>, b: &Vec<Value>) -> (r: bool)
    requires
        a@.len() == def.columns@.len(),
        b@.len() == def.columns@.len(),
    ensures
        r == clash(def.unique_flags(), a.deep_view(), b.deep_view()),
{
    let ghost u = def.unique_flags();
    let mut c: usize = 0;
    while c < a.len()
        invariant
            c <= a@.len() == b@.len() == def.columns@.len(),
            u == def.unique_flags(),
            forall|j: int| 0 <= j < c ==> !(#[trigger] u[j] && a.deep_view()[j] == b.deep_view()[j]),
        decreases a@.len() - c,
    {
        if def.columns[c].unique && a[c].same_as(&b[c]) {
            assert(u[c as int] && a.deep_view()[c as int] == b.deep_view()[c as int]);
            return true;
        }
        c = c + 1;
    }
    assert(!clash(u, a.deep_view(), b.deep_view()));
    false
}

proof fn lemma_kept_push(rows: Seq<Record>, filter: Seq<Option<Datum>>, want: bool, i: int)
    requires
        0 <= i < rows.len(),
    ensures
        kept(rows.take(i + 1), filter, want) == if selects(filter, rows[i].data) == want {
            kept(rows.take(i), filter, want).push(rows[i])
        } else {
            kept(rows.take(i), filter, want)
        },
{
    assert(rows.take(i + 1).drop_last() =~= rows.take(i));
}

proof fn lemma_kept_bounded(rows: Seq<Record>, filter: Seq<Option<Datum>>, want: bool, def: TableDef, bound: i32)
    requires
        forall|k: int| 0 <= k < rows.len() ==> fits(def.kinds(), #[trigger] rows[k].data) && 0 < rows[k].id < bound,
    ensures
        forall|k: int|
            0 <= k < kept(rows, filter, want).len() ==> fits(def.kinds(), #[trigger] kept(rows, filter, want)[k].data)
                && 0 < kept(rows, filter, want)[k].id < bound,
    decreases rows.len(),
{
    if rows.len() > 0 {
        let init = rows.drop_last();
        assert forall|k: int| 0 <= k < init.len() implies fits(def.kinds(), #[trigger] init[k].data) && 0 < init[k].id
            < bound by {
            assert(init[k] == rows[k]);
            assert(fits(def.kinds(), rows[k].data));
        }
        lemma_kept_bounded(init, filter, want, def, bound);
        let rest = kept(init, filter, want);
        let last = rows[rows.len() - 1];
        assert(fits(def.kinds(), last.data));
        if selects(filter, last.data) == want {
            let out = rest.push(last);
            assert(kept(rows, filter, want) == out);
            assert forall|k: int| 0 <= k < out.len() implies fits(def.kinds(), #[trigger] out[k].data) && 0 < out[k].id
                < bound by {
                if k < rest.len() {
                    assert(out[k] == rest[k]);
                }
            }
        }
    }
}

/// The records that a filter selects from a well-formed table fit its columns.
pub proof fn lemma_matching_fits(def: TableDef, next_id: i32, rows: Seq<Record>, filter: Seq<Option<Datum>>)
    requires
        rows_wf(def, next_id, rows),
    ensures
        forall|k: int| 0 <= k < matching(rows, filter).len() ==> fits(def.kinds(), #[trigger] matching(rows, filter)[k].data),
{
    lemma_kept_bounded(rows, filter, true, def, next_id);
}

proof fn lemma_kept_wf(rows: Seq<Record>, filter: Seq<Option<Datum>>, want: bool, def: TableDef, next_id: i32)
    requires
        rows_wf(def, next_id, rows),
    ensures
        rows_wf(def, next_id, kept(rows, filter, want)),
    decreases rows.len(),
{
    lemma_kept_bounded(rows, filter, want, def, next_id);
    if rows.len() > 0 {
        let init = rows.drop_last();
        let last = rows[rows.len() - 1];
        assert forall|k: int| 0 <= k < init.len() implies fits(def.kinds(), #[trigger] init[k].data) && 0 < init[k].id
            < last.id by {
            assert(init[k] == rows[k]);
            assert(rows[k].id < rows[rows.len() - 1].id);
        }
        assert(rows_wf(def, next_id, init)) by {
            assert forall|i: int, j: int| 0 <= i < j < init.len() implies (#[trigger] init[i]).id < (
            #[trigger] init[j]).id by {
                assert(init[i] == rows[i] && init[j] == rows[j]);
            }
            assert forall|k: int| 0 <= k < init.len() implies fits(def.kinds(), #[trigger] init[k].data) && 0
                < init[k].id < next_id by {
                assert(init[k] == rows[k]);
            }
        }
        lemma_kept_wf(init, filter, want, def, next_id);
        lemma_kept_bounded(init, filter, want, def, last.id);
        let rest = kept(init, filter, want);
        if selects(filter, last.data) == want {
            let out = rest.push(last);
            assert(kept(rows, filter, want) == out);
            assert forall|i: int, j: int| 0 <= i < j < out.len() implies (#[trigger] out[i]).id < (
            #[trigger] out[j]).id by {
                assert(out[i] == rest[i]);
                assert(fits(def.kinds(), rest[i].data));
                if j < rest.len() {
                    assert(out[j] == rest[j]);
                } else {
                    assert(out[j] == last);
                }
            }
        }
    }
}

/// Whether no two rows hold the same value in a unique column of `def`.
pub fn rows_unique(def: &TableDef, rows: &Vec<Row>) -> (r: bool)
    requires
        forall|k: int| 0 <= k < rows@.len() ==> (#[trigger] rows@[k]).values@.len() == def.columns@.len(),
    ensures
        r == unique_ok(def.unique_flags(), rows.deep_view()),
{
    let ghost recs = rows.deep_view();
    let mut j: usize = 0;
    while j < rows.len()
        invariant
            j <= rows@.len(),
            recs == rows.deep_view(),
            forall|k: int| 0 <= k < rows@.len() ==> (#[trigger] rows@[k]).values@.len() == def.columns@.len(),
            forall|a: int, b: int|
                0 <= a < b < j ==> !clash(def.unique_flags(), #[trigger] recs[a].data, #[trigger] recs[b].data),
        decreases rows@.len() - j,
    {
        let mut i: usize = 0;
        while i < j
            invariant
                i <= j < rows@.len(),
                recs == rows.deep_view(),
                forall|k: int| 0 <= k < rows@.len() ==> (#[trigger] rows@[k]).values@.len() == def.columns@.len(),
                forall|a: int, b: int|
                    0 <= a < b < j ==> !clash(def.unique_flags(), #[trigger] recs[a].data, #[trigger] recs[b].data),
                forall|a: int| 0 <= a < i ==> !clash(def.unique_flags(), #[trigger] recs[a].data, recs[j as int].data),
            decreases j - i,
        {
            if values_clash(def, &rows[i].values, &rows[j].values) {
                assert(clash(def.unique_flags(), recs[i as int].data, recs[j as int].data));
                return false;
            }
            i = i + 1;
        }
        j = j + 1;
    }
    true
}

/// A table held in memory, with the same meaning of filters and updates as the statements
/// that `query` builds.
pub struct MemoryTable {
    pub def: TableDef,
    pub rows: Vec<Row>,
    pub next_id: i32,
}

impl MemoryTable {
    pub open spec fn records(&self) -> Seq<Record> {
        self.rows.deep_view()
    }

    pub open spec fn wf(&self) -> bool {
        &&& self.def.wf()
        &&& 0 < self.next_id
        &&& rows_wf(self.def, self.next_id, self.records())
    }

    /// An empty table; the first row gets `id` 1.
    pub fn new(def: TableDef) -> (r: MemoryTable)
        requires
            def.wf(),
        ensures
            r.wf(),
            r.def == def,
            r.records() == Seq::<Record>::empty(),
            r.next_id == 1,
    {
        let r = MemoryTable { def, rows: Vec::new(), next_id: 1 };
        assert(r.records() =~= Seq::<Record>::empty());
        r
    }

    /// The number of rows.
    pub fn len(&self) -> (r: usize)
        ensures
            r == self.records().len(),
    {
        self.rows.len()
    }

    /// The rows that `filter` matches, in the table's order.
    pub fn select(&self, filter: &Vec<Option<Value>>) -> (r: Vec<Row>)
        requires
            self.wf(),
            filter@.len() == self.def.columns@.len(),
        ensures
            r.deep_view() == matching(self.records(), filter.deep_view()),
    {
        let ghost recs = self.records();
        let ghost f = filter.deep_view();
        let mut out: Vec<Row> = Vec::new();
        let mut i: usize = 0;
        assert(recs.take(0) =~= Seq::<Record>::empty());
        while i < self.rows.len()
            invariant
                self.wf(),
                filter@.len() == self.def.columns@.len(),
                i <= self.rows@.len(),
                recs == self.records(),
                f == filter.deep_view(),
                out.deep_view() == matching(recs.take(i as int), f),
            decreases self.rows@.len() - i,
        {
            proof {
                lemma_kept_push(recs, f, true, i as int);
                assert(fits(self.def.kinds(), recs[i as int].data));
            }
            if row_matches(filter, &self.rows[i].values) {
                let ghost before = out.deep_view();
                out.push(self.rows[i].duplicate());
                assert(out.deep_view() =~= before.push(recs[i as int]));
            }
            i = i + 1;
        }
        assert(recs.take(self.rows@.len() as int) =~= recs);
        out
    }

    /// Adds a row holding `values` under the next `id`, if the store accepts it.
    /// A refused row leaves the table as it was.
    pub fn insert(&mut self, values: &Vec<Value>) -> (r: Result<Row, StoreError>)
        requires
            old(self).wf(),
        ensures
            final(self).wf(),
            final(self).def == old(self).def,
            r is Ok <==> accepts(old(self).def, old(self).records(), values.deep_view()) && old(
                self,
            ).next_id < i32::MAX,
            r matches Err(e) ==> {
                &&& e == StoreError::Constraint <==> !accepts(
                    old(self).def,
                    old(self).records(),
                    values.deep_view(),
                )
                &&& final(self).records() == old(self).records()
                &&& final(self).next_id == old(self).next_id
            },
            r matches Ok(row) ==> {
                &&& row.deep_view() == (Record { id: old(self).next_id, data: values.deep_view() })
                &&& final(self).records() == old(self).records().push(row.deep_view())
                &&& final(self).next_id == old(self).next_id + 1
            },
    {
        let ghost recs = self.records();
        if !values_fit(&self.def, values) {
            return Err(StoreError::Constraint);
        }
        let mut k: usize = 0;
        while k < self.rows.len()
            invariant
                self.wf(),
                k <= self.rows@.len(),
                recs == self.records(),
                values@.len() == self.def.columns@.len(),
                forall|j: int| 0 <= j < k ==> !clash(self.def.unique_flags(), #[trigger] recs[j].data, values.deep_view()),
            decreases self.rows@.len() - k,
        {
            proof {
                assert(fits(self.def.kinds(), recs[k as int].data));
            }
            if values_clash(&self.def, &self.rows[k].values, values) {
                return Err(StoreError::Constraint);
            }
            k = k + 1;
        }
        if self.next_id == i32::MAX {
            return Err(StoreError::Exhausted);
        }
        let row = Row { id: self.next_id, values: crate::value::duplicate_values(values) };
        self.rows.push(row.duplicate());
        self.next_id = self.next_id + 1;
        assert(self.records() =~= recs.push(row.deep_view()));
        proof {
            let n = recs.len();
            assert forall|i: int, j: int| 0 <= i < j < self.records().len() implies (
            #[trigger] self.records()[i]).id < (#[trigger] self.records()[j]).id by {
                if j == n {
                    assert(fits(self.def.kinds(), recs[i].data));
                } else {
                    assert(self.records()[i] == recs[i] && self.records()[j] == recs[j]);
                }
            }
            assert forall|k: int| 0 <= k < self.records().len() implies fits(
                self.def.kinds(),
                #[trigger] self.records()[k].data,
            ) && 0 < self.records()[k].id < self.next_id by {
                if k < n {
                    assert(self.records()[k] == recs[k]);
                    assert(fits(self.def.kinds(), recs[k].data));
                } else {
                    assert(self.records()[k] == row.deep_view());
                }
            }
        }
        Ok(row)
    }

    /// Removes the rows that `filter` matches and returns how many there were.
    pub fn delete(&mut self, filter: &Vec<Option<Value>>) -> (r: usize)
        requires
            old(self).wf(),
            filter@.len() == old(self).def.columns@.len(),
        ensures
            final(self).wf(),
            final(self).def == old(self).def,
            final(self).next_id == old(self).next_id,
            final(self).records() == not_matching(old(self).records(), filter.deep_view()),
            r == matching(old(self).records(), filter.deep_view()).len(),
    {
        let ghost recs = self.records();
        let ghost f = filter.deep_view();
        let mut rest: Vec<Row> = Vec::new();
        let mut removed: usize = 0;
        let mut i: usize = 0;
        assert(recs.take(0) =~= Seq::<Record>::empty());
        while i < self.rows.len()
            invariant
                self.wf(),
                filter@.len() == self.def.columns@.len(),
                i <= self.rows@.len(),
                recs == self.records(),
                f == filter.deep_view(),
                rest.deep_view() == not_matching(recs.take(i as int), f),
                removed == matching(recs.take(i as int), f).len(),
                removed <= i,
            decreases self.rows@.len() - i,
        {
            proof {
                lemma_kept_push(recs, f, true, i as int);
                lemma_kept_push(recs, f, false, i as int);
                assert(fits(self.def.kinds(), recs[i as int].data));
            }
            if row_matches(filter, &self.rows[i].values) {
                removed = removed + 1;
            } else {
                let ghost before = rest.deep_view();
                rest.push(self.rows[i].duplicate());
                assert(rest.deep_view() =~= before.push(recs[i as int]));
            }
            i = i + 1;
        }
        assert(recs.take(self.rows@.len() as int) =~= recs);
        proof {
            lemma_kept_wf(recs, f, false, self.def, self.next_id);
        }
        self.rows = rest;
        removed
    }

    /// On each row that `condition` matches, sets the columns for which `update` gives a value,
    /// and returns how many rows that was, if the store accepts the result.
    /// A refused update leaves the table as it was.
    pub fn update(&mut self, update: &Vec<Option<Value>>, condition: &Vec<Option<Value>>) -> (r: Result<
        usize,
        StoreError,
    >)
        requires
            old(self).wf(),
            update@.len() == old(self).def.columns@.len(),
            condition@.len() == old(self).def.columns@.len(),
        ensures
            final(self).wf(),
            final(self).def == old(self).def,
            final(self).next_id == old(self).next_id,
            r is Ok <==> update_fits(old(self).def.kinds(), update.deep_view()) && unique_ok(
                old(self).def.unique_flags(),
                after_update(old(self).records(), update.deep_view(), condition.deep_view()),
            ),
            r matches Err(e) ==> e == StoreError::Constraint && final(self).records() == old(
                self,
            ).records(),
            r matches Ok(n) ==> {
                &&& final(self).records() == after_update(
                    old(self).records(),
                    update.deep_view(),
                    condition.deep_view(),
                )
                &&& n == matching(old(self).records(), condition.deep_view()).len()
            },
    {
        let ghost recs = self.records();
        let ghost u = update.deep_view();
        let ghost c = condition.deep_view();
        let ghost target = after_update(recs, u, c);
        if !update_fits_def(&self.def, update) {
            return Err(StoreError::Constraint);
        }
        let mut next: Vec<Row> = Vec::new();
        let mut count: usize = 0;
        let mut i: usize = 0;
        assert(recs.take(0) =~= Seq::<Record>::empty());
        while i < self.rows.len()
            invariant
                self.wf(),
                update@.len() == self.def.columns@.len(),
                condition@.len() == self.def.columns@.len(),
                update_fits(self.def.kinds(), u),
                i <= self.rows@.len(),
                recs == self.records(),
                u == update.deep_view(),
                c == condition.deep_view(),
                target == after_update(recs, u, c),
                next@.len() == i,
                forall|j: int| 0 <= j < i ==> (#[trigger] next@[j]).deep_view() == target[j],
                forall|j: int| 0 <= j < i ==> (#[trigger] next@[j]).values@.len() == self.def.columns@.len(),
                count == matching(recs.take(i as int), c).len(),
                count <= i,
            decreases self.rows@.len() - i,
        {
            proof {
                lemma_kept_push(recs, c, true, i as int);
                assert(fits(self.def.kinds(), recs[i as int].data));
            }
            if row_matches(condition, &self.rows[i].values) {
                let values = updated_values(update, &self.rows[i].values);
                assert(values.deep_view().len() == values@.len());
                next.push(Row { id: self.rows[i].id, values });
                count = count + 1;
            } else {
                next.push(self.rows[i].duplicate());
            }
            assert(next@[i as int].values.deep_view().len() == next@[i as int].values@.len());
            i = i + 1;
        }
        assert(recs.take(self.rows@.len() as int) =~= recs);
        assert(next.deep_view() =~= target);
        if !rows_unique(&self.def, &next) {
            return Err(StoreError::Constraint);
        }
        proof {
            assert forall|k: int| 0 <= k < target.len() implies fits(self.def.kinds(), #[trigger] target[k].data) && 0
                < target[k].id < self.next_id by {
                assert(fits(self.def.kinds(), recs[k].data));
                if selects(c, recs[k].data) {
                    assert forall|q: int| 0 <= q < self.def.kinds().len() implies (
                    #[trigger] target[k].data[q]).kind() == self.def.kinds()[q] by {
                        assert(u[q] matches Some(d) ==> d.kind() == self.def.kinds()[q]);
                    }
                }
            }
            assert forall|a: int, b: int| 0 <= a < b < target.len() implies (#[trigger] target[a]).id < (
            #[trigger] target[b]).id by {
                assert(recs[a].id < recs[b].id);
            }
        }
        self.rows = next;
        Ok(count)
    }
}

} // verus!
