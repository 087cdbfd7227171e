use vstd::prelude::*;
use crate::value::{Datum, Kind, Value};

verus! {

/// The largest number of columns a table may have.
pub const MAX_COLUMNS: usize = 1600;

/// One column of a table: its name, its type, and whether two rows may share a value in it.
pub struct Column {
    pub name: String,
    pub kind: Kind,
    pub unique: bool,
}

/// A table's name and its columns, besides the `id` column that the store assigns.
pub struct TableDef {
    pub name: String,
    pub columns: Vec<Column>,
}

impl TableDef {
    pub open spec fn names(&self) -> Seq<Seq<char>> {
        Seq::new(self.columns@.len(), |i: int| self.columns@[i].name@)
    }

    pub open spec fn kinds(&self) -> Seq<Kind> {
        Seq::new(self.columns@.len(), |i: int| self.columns@[i].kind)
    }

    pub open spec fn wf(&self) -> bool {
        0 < self.columns@.len() <= MAX_COLUMNS
    }
}

/// A statement text with placeholders `$1`, `$2`, ... and the values bound to them, in order.
pub struct Statement {
    pub sql: String,
    pub params: Vec<Value>,
}

pub open spec fn digit_text(d: nat) -> Seq<char> {
    if d == 0 {
        "0"@
    } else if d == 1 {
        "1"@
    } else if d == 2 {
        "2"@
    } else if d == 3 {
        "3"@
    } else if d == 4 {
        "4"@
    } else if d == 5 {
        "5"@
    } else if d == 6 {
        "6"@
    } else if d == 7 {
        "7"@
    } else if d == 8 {
        "8"@
    } else {
        "9"@
    }
}

/// The decimal digits of `n`.
pub open spec fn decimal(n: nat) -> Seq<char>
    decreases n,
{
    if n < 10 {
        digit_text(n)
    } else {
        decimal(n / 10) + digit_text(n % 10)
    }
}

/// The placeholder of the `k`-th parameter.
pub open spec fn placeholder(k: nat) -> Seq<char> {
    "$"@ + decimal(k)
}

/// The items separated by `sep`.
pub open spec fn joined(items: Seq<Seq<char>>, sep: Seq<char>) -> Seq<char>
    decreases items.len(),
{
    if items.len() == 0 {
        Seq::empty()
    } else if items.len() == 1 {
        items[0]
    } else {
        joined(items.drop_last(), sep) + sep + items.last()
    }
}

/// The values that are present, in order.
pub open spec fn present_values(s: Seq<Option<Datum>>) -> Seq<Datum>
    decreases s.len(),
{
    if s.len() == 0 {
        Seq::empty()
    } else {
        let rest = present_values(s.drop_last());
        match s.last() {
            Some(d) => rest.push(d),
            None => rest,
        }
    }
}

/// The number of present values among the first `i`.
pub open spec fn present_before(s: Seq<Option<Datum>>, i: int) -> nat {
    present_values(s.take(i)).len()
}

/// The condition on one column: equality with a parameter where a value is given, else `TRUE`.
pub open spec fn condition_term(column: Seq<char>, f: Option<Datum>, k: nat) -> Seq<char> {
    match f {
        Some(_) => column + " = "@ + placeholder(k),
        None => "TRUE"@,
    }
}

/// The conditions on all columns; the parameters are numbered from `base + 1`.
pub open spec fn condition_terms(cols: Seq<Seq<char>>, filter: Seq<Option<Datum>>, base: nat) -> Seq<Seq<char>> {
    Seq::new(
        cols.len(),
        |i: int| condition_term(cols[i], filter[i], base + present_before(filter, i) + 1),
    )
}

/// The `WHERE` clause that keeps the rows on which every given value is equal to its column.
pub open spec fn where_clause(cols: Seq<Seq<char>>, filter: Seq<Option<Datum>>, base: nat) -> Seq<char> {
    " WHERE "@ + joined(condition_terms(cols, filter, base), " AND "@)
}

/// `id` followed by the columns, separated by commas.
pub open spec fn column_list(cols: Seq<Seq<char>>) -> Seq<char> {
    joined(seq!["id"@] + cols, ", "@)
}

/// The placeholders `$1` to `$n`.
pub open spec fn placeholders(n: nat) -> Seq<Seq<char>> {
    Seq::new(n, |i: int| placeholder((i + 1) as nat))
}

/// The assignment of one column: the parameter where a value is given, else the column itself.
pub open spec fn assignment(column: Seq<char>, u: Option<Datum>, k: nat) -> Seq<char> {
    match u {
        Some(_) => column + " = "@ + placeholder(k),
        None => column + " = "@ + column,
    }
}

pub open spec fn assignments(cols: Seq<Seq<char>>, update: Seq<Option<Datum>>) -> Seq<Seq<char>> {
    Seq::new(cols.len(), |i: int| assignment(cols[i], update[i], present_before(update, i) + 1))
}

pub open spec fn select_sql(table: Seq<char>, cols: Seq<Seq<char>>, filter: Seq<Option<Datum>>) -> Seq<char> {
    "SELECT "@ + column_list(cols) + " FROM "@ + table + where_clause(cols, filter, 0)
}

pub open spec fn delete_sql(table: Seq<char>, cols: Seq<Seq<char>>, filter: Seq<Option<Datum>>) -> Seq<char> {
    "DELETE FROM "@ + table + where_clause(cols, filter, 0)
}

pub open spec fn insert_sql(table: Seq<char>, cols: Seq<Seq<char>>) -> Seq<char> {
    "INSERT INTO "@ + table + " ("@ + joined(cols, ", "@) + ") VALUES ("@ + joined(
        placeholders(cols.len()),
        ", "@,
    ) + ") RETURNING "@ + column_list(cols)
}

pub open spec fn update_sql(
    table: Seq<char>,
    cols: Seq<Seq<char>>,
    update: Seq<Option<Datum>>,
    condition: Seq<Option<Datum>>,
) -> Seq<char> {
    "UPDATE "@ + table + " SET "@ + joined(assignments(cols, update), ", "@) + where_clause(
        cols,
        condition,
        present_values(update).len(),
    )
}

fn push_digit(s: &mut String, d: usize)
    requires
        d < 10,
    ensures
        final(s)@ == old(s)@ + digit_text(d as nat),
{
    if d == 0 {
        s.append("0");
    } else if d == 1 {
        s.append("1");
    } else if d == 2 {
        s.append("2");
    } else if d == 3 {
        s.append("3");
    } else if d == 4 {
        s.append("4");
    } else if d == 5 {
        s.append("5");
    } else if d == 6 {
        s.append("6");
    } else if d == 7 {
        s.append("7");
    } else if d == 8 {
        s.append("8");
    } else {
        s.append("9");
    }
}

fn push_decimal(s: &mut String, n: usize)
    ensures
        final(s)@ == old(s)@ + decimal(n as nat),
    decreases n,
{
    if n >= 10 {
        push_decimal(s, n / 10);
        push_digit(s, n % 10);
        assert(final(s)@ =~= old(s)@ + decimal(n as nat));
    } else {
        push_digit(s, n);
    }
}

fn push_placeholder(s: &mut String, k: usize)
    ensures
        final(s)@ == old(s)@ + placeholder(k as nat),
{
    s.append("$");
    push_decimal(s, k);
    assert(final(s)@ =~= old(s)@ + placeholder(k as nat));
}

proof fn lemma_joined_push(items: Seq<Seq<char>>, sep: Seq<char>, i: int)
    requires
        0 <= i < items.len(),
    ensures
        i == 0 ==> joined(items.take(i + 1), sep) == items[i],
        i > 0 ==> joined(items.take(i + 1), sep) == joined(items.take(i), sep) + sep + items[i],
{
    assert(items.take(i + 1).drop_last() =~= items.take(i));
}

proof fn lemma_present_push(s: Seq<Option<Datum>>, i: int)
    requires
        0 <= i < s.len(),
    ensures
        present_values(s.take(i + 1)) == match s[i] {
            Some(d) => present_values(s.take(i)).push(d),
            None => present_values(s.take(i)),
        },
{
    assert(s.take(i + 1).drop_last() =~= s.take(i));
}

proof fn lemma_present_len(s: Seq<Option<Datum>>)
    ensures
        present_values(s).len() <= s.len(),
    decreases s.len(),
{
    if s.len() > 0 {
        lemma_present_len(s.drop_last());
    }
}

/// Appends the conditions of a `WHERE` clause on `cols` and binds the values that `filter` gives.
pub(crate) fn push_conditions(
    sql: &mut String,
    params: &mut Vec<Value>,
    cols: &Vec<Column>,
    filter: &Vec<Option<Value>>,
    base: usize,
)
    requires
        filter@.len() == cols@.len(),
        base + cols@.len() <= 2 * MAX_COLUMNS,
    ensures
        final(sql)@ == old(sql)@ + joined(
            condition_terms(
                Seq::new(cols@.len(), |i: int| cols@[i].name@),
                filter.deep_view(),
                base as nat,
            ),
            " AND "@,
        ),
        final(params).deep_view() == old(params).deep_view() + present_values(filter.deep_view()),
{
    let ghost names = Seq::new(cols@.len(), |i: int| cols@[i].name@);
    let ghost f = filter.deep_view();
    let ghost terms = condition_terms(names, f, base as nat);
    let ghost sql0 = sql@;
    let ghost params0 = params.deep_view();
    let mut k: usize = base;
    let mut i: usize = 0;
    assert(terms.take(0) =~= Seq::<Seq<char>>::empty());
    assert(f.take(0) =~= Seq::<Option<Datum>>::empty());
    assert(params0 + present_values(f.take(0)) =~= params0);
    while i < cols.len()
        invariant
            i <= cols@.len(),
            filter@.len() == cols@.len(),
            base + cols@.len() <= 2 * MAX_COLUMNS,
            names == Seq::new(cols@.len(), |j: int| cols@[j].name@),
            f == filter.deep_view(),
            terms == condition_terms(names, f, base as nat),
            k == base + present_before(f, i as int),
            sql@ == sql0 + joined(terms.take(i as int), " AND "@),
            params.deep_view() == params0 + present_values(f.take(i as int)),
        decreases cols@.len() - i,
    {
        proof {
            lemma_joined_push(terms, " AND "@, i as int);
            lemma_present_push(f, i as int);
            lemma_present_len(f.take(i as int));
        }
        let ghost before = sql@;
        if i > 0 {
            sql.append(" AND ");
        }
        match &filter[i] {
            Some(v) => {
                sql.append(cols[i].name.as_str());
                sql.append(" = ");
                push_placeholder(sql, k + 1);
                let ghost pd = params.deep_view();
                params.push(v.duplicate());
                assert(f[i as int] == Some(v@));
                assert(params.deep_view() =~= pd.push(v@));
                k = k + 1;
            },
            None => {
                sql.append("TRUE");
                assert(f[i as int] is None);
            },
        }
        proof {
            if i > 0 {
                assert(sql@ =~= before + " AND "@ + terms[i as int]);
            } else {
                assert(sql@ =~= before + terms[i as int]);
            }
            assert(sql@ =~= sql0 + joined(terms.take(i + 1), " AND "@));
            assert(params.deep_view() =~= params0 + present_values(f.take(i + 1)));
        }
        i = i + 1;
    }
    assert(terms.take(cols@.len() as int) =~= terms);
    assert(f.take(cols@.len() as int) =~= f);
}

fn push_names(sql: &mut String, cols: &Vec<Column>)
    ensures
        final(sql)@ == old(sql)@ + joined(Seq::new(cols@.len(), |i: int| cols@[i].name@), ", "@),
{
    let ghost items = Seq::new(cols@.len(), |i: int| cols@[i].name@);
    let ghost sql0 = sql@;
    let mut i: usize = 0;
    assert(items.take(0) =~= Seq::<Seq<char>>::empty());
    while i < cols.len()
        invariant
            i <= cols@.len(),
            items == Seq::new(cols@.len(), |j: int| cols@[j].name@),
            sql@ == sql0 + joined(items.take(i as int), ", "@),
        decreases cols@.len() - i,
    {
        proof {
            lemma_joined_push(items, ", "@, i as int);
        }
        if i > 0 {
            sql.append(", ");
        }
        sql.append(cols[i].name.as_str());
        assert(sql@ =~= sql0 + joined(items.take(i + 1), ", "@));
        i = i + 1;
    }
    assert(items.take(cols@.len() as int) =~= items);
}

fn push_column_list(sql: &mut String, cols: &Vec<Column>)
    ensures
        final(sql)@ == old(sql)@ + column_list(Seq::new(cols@.len(), |i: int| cols@[i].name@)),
{
    let ghost items = seq!["id"@] + Seq::new(cols@.len(), |i: int| cols@[i].name@);
    let ghost sql0 = sql@;
    sql.append("id");
    proof {
        lemma_joined_push(items, ", "@, 0);
    }
    let mut i: usize = 0;
    while i < cols.len()
        invariant
            i <= cols@.len(),
            items == seq!["id"@] + Seq::new(cols@.len(), |j: int| cols@[j].name@),
            sql@ == sql0 + joined(items.take(i + 1), ", "@),
        decreases cols@.len() - i,
    {
        proof {
            lemma_joined_push(items, ", "@, i + 1);
        }
        sql.append(", ");
        sql.append(cols[i].name.as_str());
        assert(items[i + 1] == cols@[i as int].name@);
        assert(sql@ =~= sql0 + joined(items.take(i + 2), ", "@));
        i = i + 1;
    }
    assert(items.take(cols@.len() + 1 as int) =~= items);
}

fn push_placeholders(sql: &mut String, n: usize)
    requires
        n <= MAX_COLUMNS,
    ensures
        final(sql)@ == old(sql)@ + joined(placeholders(n as nat), ", "@),
{
    let ghost items = placeholders(n as nat);
    let ghost sql0 = sql@;
    let mut i: usize = 0;
    assert(items.take(0) =~= Seq::<Seq<char>>::empty());
    while i < n
        invariant
            i <= n <= MAX_COLUMNS,
            items == placeholders(n as nat),
            sql@ == sql0 + joined(items.take(i as int), ", "@),
        decreases n - i,
    {
        proof {
            lemma_joined_push(items, ", "@, i as int);
        }
        if i > 0 {
            sql.append(", ");
        }
        push_placeholder(sql, i + 1);
        assert(sql@ =~= sql0 + joined(items.take(i + 1), ", "@));
        i = i + 1;
    }
    assert(items.take(n as int) =~= items);
}

fn push_assignments(sql: &mut String, params: &mut Vec<Value>, cols: &Vec<Column>, update: &Vec<Option<Value>>)
    requires
        update@.len() == cols@.len(),
        cols@.len() <= MAX_COLUMNS,
    ensures
        final(sql)@ == old(sql)@ + joined(
            assignments(Seq::new(cols@.len(), |i: int| cols@[i].name@), update.deep_view()),
            ", "@,
        ),
        final(params).deep_view() == old(params).deep_view() + present_values(update.deep_view()),
{
    let ghost names = Seq::new(cols@.len(), |i: int| cols@[i].name@);
    let ghost f = update.deep_view();
    let ghost terms = assignments(names, f);
    let ghost sql0 = sql@;
    let ghost params0 = params.deep_view();
    let mut k: usize = 0;
    let mut i: usize = 0;
    assert(terms.take(0) =~= Seq::<Seq<char>>::empty());
    assert(f.take(0) =~= Seq::<Option<Datum>>::empty());
    assert(params0 + present_values(f.take(0)) =~= params0);
    while i < cols.len()
        invariant
            i <= cols@.len() <= MAX_COLUMNS,
            update@.len() == cols@.len(),
            names == Seq::new(cols@.len(), |j: int| cols@[j].name@),
            f == update.deep_view(),
            terms == assignments(names, f),
            k == present_before(f, i as int),
            sql@ == sql0 + joined(terms.take(i as int), ", "@),
            params.deep_view() == params0 + present_values(f.take(i as int)),
        decreases cols@.len() - i,
    {
        proof {
            lemma_joined_push(terms, ", "@, i as int);
            lemma_present_push(f, i as int);
            lemma_present_len(f.take(i as int));
        }
        let ghost before = sql@;
        if i > 0 {
            sql.append(", ");
        }
        let ghost mid = sql@;
        sql.append(cols[i].name.as_str());
        sql.append(" = ");
        match &update[i] {
            Some(v) => {
                push_placeholder(sql, k + 1);
                let ghost pd = params.deep_view();
                params.push(v.duplicate());
                assert(f[i as int] == Some(v@));
                assert(params.deep_view() =~= pd.push(v@));
                k = k + 1;
            },
            None => {
                sql.append(cols[i].name.as_str());
                assert(f[i as int] is None);
            },
        }
        assert(sql@ =~= mid + terms[i as int]);
        proof {
            if i > 0 {
                assert(sql@ =~= before + ", "@ + terms[i as int]);
            }
            assert(sql@ =~= sql0 + joined(terms.take(i + 1), ", "@));
            assert(params.deep_view() =~= params0 + present_values(f.take(i + 1)));
        }
        i = i + 1;
    }
    assert(terms.take(cols@.len() as int) =~= terms);
    assert(f.take(cols@.len() as int) =~= f);
}

/// Builds the statement that lists the rows of `table` on which every value given in `filter`
/// equals its column; an absent value puts no constraint on its column.
pub fn select_statement(table: &TableDef, filter: &Vec<Option<Value>>) -> (r: Statement)
    requires
        table.wf(),
        filter@.len() == table.columns@.len(),
    ensures
        r.sql@ == select_sql(table.name@, table.names(), filter.deep_view()),
        r.params.deep_view() == present_values(filter.deep_view()),
{
    let mut sql = String::from_str("SELECT ");
    let mut params: Vec<Value> = Vec::new();
    push_column_list(&mut sql, &table.columns);
    sql.append(" FROM ");
    sql.append(table.name.as_str());
    sql.append(" WHERE ");
    push_conditions(&mut sql, &mut params, &table.columns, filter, 0);
    assert(params.deep_view() =~= present_values(filter.deep_view()));
    assert(sql@ =~= select_sql(table.name@, table.names(), filter.deep_view()));
    Statement { sql, params }
}

/// Builds the statement that removes the rows of `table` that `filter` matches, with the same
/// meaning of `filter` as in `select_statement`.
pub fn delete_statement(table: &TableDef, filter: &Vec<Option<Value>>) -> (r: Statement)
    requires
        table.wf(),
        filter@.len() == table.columns@.len(),
    ensures
        r.sql@ == delete_sql(table.name@, table.names(), filter.deep_view()),
        r.params.deep_view() == present_values(filter.deep_view()),
{
    let mut sql = String::from_str("DELETE FROM ");
    let mut params: Vec<Value> = Vec::new();
    sql.append(table.name.as_str());
    sql.append(" WHERE ");
    push_conditions(&mut sql, &mut params, &table.columns, filter, 0);
    assert(params.deep_view() =~= present_values(filter.deep_view()));
    assert(sql@ =~= delete_sql(table.name@, table.names(), filter.deep_view()));
    Statement { sql, params }
}

/// Builds the statement that adds a row with `values`, one for each column, and returns the
/// row with the `id` that the store assigned.
pub fn insert_statement(table: &TableDef, values: &Vec<Value>) -> (r: Statement)
    requires
        table.wf(),
        values@.len() == table.columns@.len(),
    ensures
        r.sql@ == insert_sql(table.name@, table.names()),
        r.params.deep_view() == values.deep_view(),
{
    let mut sql = String::from_str("INSERT INTO ");
    sql.append(table.name.as_str());
    sql.append(" (");
    push_names(&mut sql, &table.columns);
    sql.append(") VALUES (");
    push_placeholders(&mut sql, table.columns.len());
    sql.append(") RETURNING ");
    push_column_list(&mut sql, &table.columns);
    let params = crate::value::duplicate_values(values);
    assert(sql@ =~= insert_sql(table.name@, table.names()));
    Statement { sql, params }
}

/// Builds the statement that, on each row that `condition` matches, sets each column for
/// which `update` gives a value and keeps the others.
pub fn update_statement(
    table: &TableDef,
    update: &Vec<Option<Value>>,
    condition: &Vec<Option<Value>>,
) -> (r: Statement)
    requires
        table.wf(),
        update@.len() == table.columns@.len(),
        condition@.len() == table.columns@.len(),
    ensures
        r.sql@ == update_sql(table.name@, table.names(), update.deep_view(), condition.deep_view()),
        r.params.deep_view() == present_values(update.deep_view()) + present_values(
            condition.deep_view(),
        ),
{
    let mut sql = String::from_str("UPDATE ");
    let mut params: Vec<Value> = Vec::new();
    sql.append(table.name.as_str());
    sql.append(" SET ");
    push_assignments(&mut sql, &mut params, &table.columns, update);
    sql.append(" WHERE ");
    let base = params.len();
    proof {
        lemma_present_len(update.deep_view());
        assert(params.deep_view() =~= present_values(update.deep_view()));
        assert(params.deep_view().len() == params@.len());
    }
    push_conditions(&mut sql, &mut params, &table.columns, condition, base);
    assert(params.deep_view() =~= present_values(update.deep_view()) + present_values(
        condition.deep_view(),
    ));
    assert(sql@ =~= update_sql(
        table.name@,
        table.names(),
        update.deep_view(),
        condition.deep_view(),
    ));
    Statement { sql, params }
}

} // verus!
