use vstd::prelude::*;
use crate::query::{
    assignments, condition_terms, delete_sql, present_before, present_values, select_sql,
    update_sql, TableDef,
};
use crate::reply::{delete_reply_spec, Reply};
use crate::table::{
    accepts, after_update, clash, fits, kept, matching, not_matching, selects, updated, Record,
};
use crate::value::Datum;

verus! {

/// The filter that gives every value of `data`.
pub open spec fn full_filter(data: Seq<Datum>) -> Seq<Option<Datum>> {
    Seq::new(data.len(), |i: int| Some(data[i]))
}

/// The filter of `n` columns that gives no value.
pub open spec fn empty_filter(n: nat) -> Seq<Option<Datum>> {
    Seq::new(n, |i: int| None)
}

/// Whether two filters give values for the same columns.
pub open spec fn same_presence(a: Seq<Option<Datum>>, b: Seq<Option<Datum>>) -> bool {
    &&& a.len() == b.len()
    &&& forall|i: int| 0 <= i < a.len() ==> (#[trigger] a[i] is Some) == (b[i] is Some)
}

proof fn lemma_kept_all(rows: Seq<Record>, filter: Seq<Option<Datum>>, want: bool)
    requires
        forall|k: int| 0 <= k < rows.len() ==> selects(filter, #[trigger] rows[k].data) == want,
    ensures
        kept(rows, filter, want) == rows,
    decreases rows.len(),
{
    if rows.len() > 0 {
        let init = rows.drop_last();
        assert forall|k: int| 0 <= k < init.len() implies selects(filter, #[trigger] init[k].data) == want by {
            assert(init[k] == rows[k]);
        }
        lemma_kept_all(init, filter, want);
        assert(init.push(rows.last()) =~= rows);
    }
}

proof fn lemma_kept_none(rows: Seq<Record>, filter: Seq<Option<Datum>>, want: bool)
    requires
        forall|k: int| 0 <= k < rows.len() ==> selects(filter, #[trigger] rows[k].data) != want,
    ensures
        kept(rows, filter, want) == Seq::<Record>::empty(),
    decreases rows.len(),
{
    if rows.len() > 0 {
        let init = rows.drop_last();
        assert forall|k: int| 0 <= k < init.len() implies selects(filter, #[trigger] init[k].data) != want by {
            assert(init[k] == rows[k]);
        }
        lemma_kept_none(init, filter, want);
    }
}

proof fn lemma_kept_nonempty(rows: Seq<Record>, filter: Seq<Option<Datum>>, want: bool, k: int)
    requires
        0 <= k < rows.len(),
        selects(filter, rows[k].data) == want,
    ensures
        kept(rows, filter, want).len() > 0,
    decreases rows.len(),
{
    if k < rows.len() - 1 {
        let init = rows.drop_last();
        assert(init[k] == rows[k]);
        lemma_kept_nonempty(init, filter, want, k);
    }
}

/// A record holds the values of its own full filter.
pub proof fn lemma_full_filter_matches(data: Seq<Datum>)
    ensures
        selects(full_filter(data), data),
{
}

/// Listing after a creation: every filter that the new record matches lists what it listed
/// before, followed by the new record. Where no earlier record matches the filter, the
/// listing is exactly the new record; the record's full filter is such a filter unless an
/// earlier record holds the same values.
pub proof fn lemma_created_is_listed(rows: Seq<Record>, created: Record, filter: Seq<Option<Datum>>)
    requires
        selects(filter, created.data),
    ensures
        matching(rows.push(created), filter) == matching(rows, filter).push(created),
        (forall|k: int| 0 <= k < rows.len() ==> !selects(filter, #[trigger] rows[k].data)) ==> matching(
            rows.push(created),
            filter,
        ) == seq![created],
{
    assert(rows.push(created).drop_last() =~= rows);
    if forall|k: int| 0 <= k < rows.len() ==> !selects(filter, #[trigger] rows[k].data) {
        lemma_kept_none(rows, filter, true);
        assert(Seq::<Record>::empty().push(created) =~= seq![created]);
    }
}

/// A filter that gives no value matches every row: a listing returns all rows, a deletion
/// removes all rows, an update changes all rows, and the statements put no constraint on
/// any column and bind nothing for the filter.
pub proof fn lemma_empty_filter_matches_all(
    rows: Seq<Record>,
    cols: Seq<Seq<char>>,
    update: Seq<Option<Datum>>,
    base: nat,
)
    ensures
        forall|data: Seq<Datum>| #[trigger] selects(empty_filter(cols.len()), data),
        matching(rows, empty_filter(cols.len())) == rows,
        not_matching(rows, empty_filter(cols.len())) == Seq::<Record>::empty(),
        after_update(rows, update, empty_filter(cols.len())) == Seq::new(
            rows.len(),
            |i: int| Record { id: rows[i].id, data: updated(update, rows[i].data) },
        ),
        present_values(empty_filter(cols.len())) == Seq::<Datum>::empty(),
        forall|i: int|
            0 <= i < cols.len() ==> #[trigger] condition_terms(cols, empty_filter(cols.len()), base)[i]
                == "TRUE"@,
{
    let n = cols.len();
    lemma_kept_all(rows, empty_filter(n), true);
    lemma_kept_none(rows, empty_filter(n), false);
    lemma_no_present_values(empty_filter(n));
    assert(after_update(rows, update, empty_filter(n)) =~= Seq::new(
        rows.len(),
        |i: int| Record { id: rows[i].id, data: updated(update, rows[i].data) },
    ));
}

proof fn lemma_no_present_values(s: Seq<Option<Datum>>)
    requires
        forall|i: int| 0 <= i < s.len() ==> #[trigger] s[i] is None,
    ensures
        present_values(s) == Seq::<Datum>::empty(),
    decreases s.len(),
{
    if s.len() > 0 {
        let init = s.drop_last();
        assert forall|i: int| 0 <= i < init.len() implies #[trigger] init[i] is None by {
            assert(init[i] == s[i]);
        }
        lemma_no_present_values(init);
    }
}

/// A filter that gives a value constrains its column, whatever the value: a filter that gives
/// the empty text or zero matches only rows holding that value, unlike a filter that gives none.
pub proof fn lemma_present_value_constrains(filter: Seq<Option<Datum>>, data: Seq<Datum>, i: int)
    requires
        0 <= i < filter.len(),
        filter[i] matches Some(d) && data[i] != d,
    ensures
        !selects(filter, data),
        selects(empty_filter(filter.len()), data),
{
}

/// An update changes the columns it gives a value for, and keeps every other column.
pub proof fn lemma_update_keeps_unspecified(update: Seq<Option<Datum>>, data: Seq<Datum>)
    requires
        update.len() == data.len(),
    ensures
        updated(update, data).len() == data.len(),
        forall|i: int| 0 <= i < data.len() && update[i] is None ==> #[trigger] updated(update, data)[i] == data[i],
        forall|i: int| 0 <= i < data.len() && update[i] is Some ==> #[trigger] updated(update, data)[i] == update[i]->0,
{
}

/// A deletion reports that nothing was found exactly when its filter matches no row, and
/// success exactly when it matches at least one.
pub proof fn lemma_delete_reply(rows: Seq<Record>, filter: Seq<Option<Datum>>)
    requires
        matching(rows, filter).len() <= u64::MAX,
    ensures
        delete_reply_spec(Some(matching(rows, filter).len() as u64)) == Reply::NotFound <==> forall|k: int|
            0 <= k < rows.len() ==> !selects(filter, #[trigger] rows[k].data),
        delete_reply_spec(Some(matching(rows, filter).len() as u64)) == Reply::Deleted <==> exists|k: int|
            0 <= k < rows.len() && selects(filter, #[trigger] rows[k].data),
{
    if exists|k: int| 0 <= k < rows.len() && selects(filter, #[trigger] rows[k].data) {
        let k = choose|k: int| 0 <= k < rows.len() && selects(filter, #[trigger] rows[k].data);
        lemma_kept_nonempty(rows, filter, true, k);
    } else {
        lemma_kept_none(rows, filter, true);
    }
}

/// A new row that repeats the value of a unique column held by an existing row is refused,
/// and so is one whose values do not fit the columns.
pub proof fn lemma_duplicate_or_malformed_refused(def: TableDef, rows: Seq<Record>, data: Seq<Datum>)
    ensures
        !fits(def.kinds(), data) ==> !accepts(def, rows, data),
        forall|k: int, c: int|
            0 <= k < rows.len() && 0 <= c < def.columns@.len() && def.columns@[c].unique
                && #[trigger] rows[k].data[c] == #[trigger] data[c] ==> !accepts(def, rows, data),
{
    assert forall|k: int, c: int|
        0 <= k < rows.len() && 0 <= c < def.columns@.len() && def.columns@[c].unique
            && #[trigger] rows[k].data[c] == #[trigger] data[c] implies !accepts(def, rows, data) by {
        assert(def.unique_flags()[c]);
        assert(clash(def.unique_flags(), rows[k].data, data));
    }
}

/// The text of a statement depends on which values are given, never on the values themselves:
/// every value reaches the store as a bound parameter.
pub proof fn lemma_text_independent_of_values(
    table: Seq<char>,
    cols: Seq<Seq<char>>,
    a: Seq<Option<Datum>>,
    b: Seq<Option<Datum>>,
    c: Seq<Option<Datum>>,
    d: Seq<Option<Datum>>,
)
    requires
        a.len() == cols.len(),
        c.len() == cols.len(),
        same_presence(a, b),
        same_presence(c, d),
    ensures
        select_sql(table, cols, a) == select_sql(table, cols, b),
        delete_sql(table, cols, a) == delete_sql(table, cols, b),
        update_sql(table, cols, c, a) == update_sql(table, cols, d, b),
{
    lemma_same_presence_count(a, b);
    lemma_same_presence_count(c, d);
    assert(condition_terms(cols, a, 0) =~= condition_terms(cols, b, 0)) by {
        assert forall|i: int| 0 <= i < cols.len() implies present_before(a, i) == present_before(b, i) by {
            lemma_same_presence_count(a.take(i), b.take(i));
        }
    }
    let base_c = present_values(c).len();
    assert(condition_terms(cols, a, base_c) =~= condition_terms(cols, b, base_c)) by {
        assert forall|i: int| 0 <= i < cols.len() implies present_before(a, i) == present_before(b, i) by {
            lemma_same_presence_count(a.take(i), b.take(i));
        }
    }
    assert(assignments(cols, c) =~= assignments(cols, d)) by {
        assert forall|i: int| 0 <= i < cols.len() implies present_before(c, i) == present_before(d, i) by {
            lemma_same_presence_count(c.take(i), d.take(i));
        }
    }
}

proof fn lemma_same_presence_count(a: Seq<Option<Datum>>, b: Seq<Option<Datum>>)
    requires
        same_presence(a, b),
    ensures
        present_values(a).len() == present_values(b).len(),
    decreases a.len(),
{
    if a.len() > 0 {
        let (ia, ib) = (a.drop_last(), b.drop_last());
        assert forall|i: int| 0 <= i < ia.len() implies (#[trigger] ia[i] is Some) == (ib[i] is Some) by {
            assert(ia[i] == a[i] && ib[i] == b[i]);
        }
        lemma_same_presence_count(ia, ib);
        assert(a[a.len() - 1] is Some == b[b.len() - 1] is Some);
    }
}

} // verus!
