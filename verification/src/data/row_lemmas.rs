//! What holds of every row that is built, proved from the definition of
//! [`Row::materialize`].
use vstd::prelude::*;
use vstd::seq_lib::to_multiset_contains;

use crate::data::literal::LiteralView;
use crate::data::row::{
    collect, first_failure, lemma_collect_first_failure, lemma_collect_values, Row, RowErrorView,
};
use crate::data::schema::ColumnSpecificationView;
use crate::data::value::{Value, ValueError, ValueView};
use crate::result::ErrorView;

verus! {

/// A failed cell is never the only trace of failure: at or before it stands
/// the first cell that failed.
pub proof fn lemma_failure_has_first<V, E>(cells: Seq<Result<V, E>>, index: int)
    requires
        0 <= index < cells.len(),
        cells[index] is Err,
    ensures
        exists|first: int| first <= index && first_failure(cells, first),
    decreases index,
{
    if forall|j: int| 0 <= j < index ==> (#[trigger] cells[j]) is Ok {
        assert(first_failure(cells, index));
    } else {
        let earlier = choose|j: int| 0 <= j < index && !((#[trigger] cells[j]) is Ok);
        lemma_failure_has_first(cells, earlier);
    }
}

/// What `collect` yields, read off the cells: a sequence that holds the value
/// of every cell, or the error of the first cell that failed.
pub proof fn lemma_collect_describes<V, E>(cells: Seq<Result<V, E>>)
    ensures
        match collect(cells) {
            Ok(values) => {
                &&& values.len() == cells.len()
                &&& forall|i: int|
                    0 <= i < cells.len() ==> #[trigger] cells[i] == Ok::<V, E>(values[i])
            },
            Err(error) => exists|first: int|
                first_failure(cells, first) && cells[first] == Err::<V, E>(error),
        },
{
    if !(forall|i: int| 0 <= i < cells.len() ==> (#[trigger] cells[i]) is Ok) {
        let failed = choose|i: int| 0 <= i < cells.len() && !((#[trigger] cells[i]) is Ok);
        lemma_failure_has_first(cells, failed);
        let first = choose|i: int| first_failure(cells, i);
        assert(first_failure(cells, first));
    }
}

/// `columns` holds the names of the columns of `schema`, each as often as the
/// schema does, in any order.
pub open spec fn lists_schema_names(
    schema: Seq<ColumnSpecificationView>,
    columns: Seq<Seq<char>>,
) -> bool {
    columns.to_multiset() == Seq::new(schema.len(), |i: int| schema[i].name).to_multiset()
}

/// Without a column list, and with at least as many literals as the schema
/// has columns, a row that is built has one value per column, and its value
/// at each schema position is the coercion of the literal at that position.
/// The row is built exactly when every such coercion succeeds; otherwise the
/// failure is the coercion error of the first column whose literal is
/// rejected.
pub proof fn lemma_build_in_schema_order(
    schema: Seq<ColumnSpecificationView>,
    rows: Seq<Seq<LiteralView>>,
)
    requires
        rows.len() > 0,
        rows[0].len() >= schema.len(),
    ensures
        match Row::materialize(schema, None, rows) {
            Ok(row) => {
                &&& row.len() == schema.len()
                &&& forall|i: int|
                    0 <= i < schema.len() ==> Value::coerce(schema[i].sql_type, rows[0][i])
                        == Ok::<ValueView, ValueError>(#[trigger] row[i])
            },
            Err(error) => exists|i: int|
                {
                    &&& 0 <= i < schema.len()
                    &&& Value::coerce(schema[i].sql_type, rows[0][i]) is Err
                    &&& error == ErrorView::Value(
                        Value::coerce(schema[i].sql_type, rows[0][i])->Err_0,
                    )
                    &&& forall|j: int|
                        0 <= j < i ==> Value::coerce(
                            (#[trigger] schema[j]).sql_type,
                            rows[0][j],
                        ) is Ok
                },
        },
{
    let cells = Row::cells(schema, None, rows[0]);
    lemma_collect_describes(cells);
    match collect(cells) {
        Ok(row) => {
            assert forall|i: int| 0 <= i < schema.len() implies Value::coerce(
                schema[i].sql_type,
                rows[0][i],
            ) == Ok::<ValueView, ValueError>(#[trigger] row[i]) by {
                assert(cells[i] == Ok::<ValueView, ErrorView>(row[i]));
            }
        },
        Err(error) => {
            let first = choose|first: int|
                first_failure(cells, first) && cells[first] == Err::<ValueView, ErrorView>(error);
            assert forall|j: int| 0 <= j < first implies Value::coerce(
                (#[trigger] schema[j]).sql_type,
                rows[0][j],
            ) is Ok by {
                assert(cells[j] is Ok);
            }
        },
    }
}

/// With a column list that is a permutation of the schema's column names,
/// every schema column is found in the list, so no column is ever reported
/// as lacking. A row that is built has one value per column, and its value at
/// each schema position is the coercion of the literal that stands where the
/// list names that column. The row is built exactly when the literal row
/// reaches each such position and each such coercion succeeds.
pub proof fn lemma_build_in_listed_order(
    schema: Seq<ColumnSpecificationView>,
    columns: Seq<Seq<char>>,
    rows: Seq<Seq<LiteralView>>,
)
    requires
        rows.len() > 0,
        lists_schema_names(schema, columns),
    ensures
        forall|i: int|
            0 <= i < schema.len() ==> {
                let found = columns.index_of_first((#[trigger] schema[i]).name);
                found is Some && 0 <= found.unwrap() < columns.len() && columns[found.unwrap()]
                    == schema[i].name
            },
        match Row::materialize(schema, Some(columns), rows) {
            Ok(row) => {
                &&& row.len() == schema.len()
                &&& forall|i: int|
                    #![trigger schema[i]]
                    0 <= i < schema.len() ==> {
                        let position = columns.index_of_first(schema[i].name).unwrap();
                        &&& 0 <= position < rows[0].len()
                        &&& Value::coerce(schema[i].sql_type, rows[0][position]) == Ok::<
                            ValueView,
                            ValueError,
                        >(row[i])
                    }
            },
            Err(error) => !(error matches ErrorView::Row(RowErrorView::LackOfRequiredColumn(_))),
        },
        (forall|i: int|
            0 <= i < schema.len() ==> {
                let position = columns.index_of_first((#[trigger] schema[i]).name).unwrap();
                &&& 0 <= position < rows[0].len()
                &&& Value::coerce(schema[i].sql_type, rows[0][position]) is Ok
            }) ==> Row::materialize(schema, Some(columns), rows) is Ok,
{
    let names = Seq::new(schema.len(), |i: int| schema[i].name);
    assert forall|i: int| 0 <= i < schema.len() implies {
        let found = columns.index_of_first((#[trigger] schema[i]).name);
        found is Some && 0 <= found.unwrap() < columns.len() && columns[found.unwrap()]
            == schema[i].name
    } by {
        assert(names[i] == schema[i].name);
        assert(names.contains(schema[i].name));
        to_multiset_contains(names, schema[i].name);
        to_multiset_contains(columns, schema[i].name);
        columns.index_of_first_ensures(schema[i].name);
    }
    let cells = Row::cells(schema, Some(columns), rows[0]);
    lemma_collect_describes(cells);
    match collect(cells) {
        Ok(row) => {
            assert forall|i: int| #![trigger schema[i]] 0 <= i < schema.len() implies {
                let position = columns.index_of_first(schema[i].name).unwrap();
                &&& 0 <= position < rows[0].len()
                &&& Value::coerce(schema[i].sql_type, rows[0][position]) == Ok::<
                    ValueView,
                    ValueError,
                >(row[i])
            } by {
                assert(cells[i] == Ok::<ValueView, ErrorView>(row[i]));
                assert(columns.index_of_first(schema[i].name) is Some);
            }
        },
        Err(error) => {
            let first = choose|first: int|
                first_failure(cells, first) && cells[first] == Err::<ValueView, ErrorView>(error);
            assert(columns.index_of_first(schema[first].name) is Some);
        },
    }
    if forall|i: int|
        0 <= i < schema.len() ==> {
            let position = columns.index_of_first((#[trigger] schema[i]).name).unwrap();
            &&& 0 <= position < rows[0].len()
            &&& Value::coerce(schema[i].sql_type, rows[0][position]) is Ok
        } {
        assert forall|i: int| 0 <= i < cells.len() implies (#[trigger] cells[i]) is Ok by {
            assert(columns.index_of_first(schema[i].name) is Some);
        }
    }
}

/// A column list that omits a schema column makes the build fail. The
/// failure names that column as lacking where every schema column before it
/// has a value; otherwise an earlier column has failed first.
pub proof fn lemma_omitted_column(
    schema: Seq<ColumnSpecificationView>,
    columns: Seq<Seq<char>>,
    rows: Seq<Seq<LiteralView>>,
    index: int,
)
    requires
        rows.len() > 0,
        0 <= index < schema.len(),
        !columns.contains(schema[index].name),
    ensures
        Row::materialize(schema, Some(columns), rows) is Err,
        (forall|j: int|
            0 <= j < index ==> Row::cell(#[trigger] schema[j], j, Some(columns), rows[0]) is Ok)
            ==> Row::materialize(schema, Some(columns), rows) == Err::<Seq<ValueView>, ErrorView>(
            ErrorView::Row(RowErrorView::LackOfRequiredColumn(schema[index].name)),
        ),
{
    let cells = Row::cells(schema, Some(columns), rows[0]);
    columns.index_of_first_ensures(schema[index].name);
    assert(cells[index] is Err);
    if forall|j: int|
        0 <= j < index ==> Row::cell(#[trigger] schema[j], j, Some(columns), rows[0]) is Ok {
        assert forall|j: int| 0 <= j < index implies (#[trigger] cells[j]) is Ok by {
            assert(Row::cell(schema[j], j, Some(columns), rows[0]) is Ok);
        }
        lemma_collect_first_failure(cells, index);
    }
}

/// A literal row that does not reach the position from which a schema column
/// takes its value makes the build fail. The failure names that column as
/// lacking its value where every schema column before it has a value;
/// otherwise an earlier column has failed first.
pub proof fn lemma_missing_value(
    schema: Seq<ColumnSpecificationView>,
    columns: Option<Seq<Seq<char>>>,
    rows: Seq<Seq<LiteralView>>,
    index: int,
)
    requires
        rows.len() > 0,
        0 <= index < schema.len(),
        Row::source_position(columns, schema[index].name, index) matches Some(position)
            && position >= rows[0].len(),
    ensures
        Row::materialize(schema, columns, rows) is Err,
        (forall|j: int|
            0 <= j < index ==> Row::cell(#[trigger] schema[j], j, columns, rows[0]) is Ok)
            ==> Row::materialize(schema, columns, rows) == Err::<Seq<ValueView>, ErrorView>(
            ErrorView::Row(RowErrorView::LackOfRequiredValue(schema[index].name)),
        ),
{
    let cells = Row::cells(schema, columns, rows[0]);
    assert(cells[index] is Err);
    if forall|j: int|
        0 <= j < index ==> Row::cell(#[trigger] schema[j], j, columns, rows[0]) is Ok {
        assert forall|j: int| 0 <= j < index implies (#[trigger] cells[j]) is Ok by {
            assert(Row::cell(schema[j], j, columns, rows[0]) is Ok);
        }
        lemma_collect_first_failure(cells, index);
    }
}

/// The row of a single-column schema and a single literal, given without a
/// column list or with the list of that one column, holds the coercion of
/// the literal and nothing else, and that value is its first value.
pub proof fn lemma_first_value_of_single_column(
    field: ColumnSpecificationView,
    columns: Option<Seq<Seq<char>>>,
    literal: LiteralView,
)
    requires
        columns matches Some(list) ==> list == seq![field.name],
    ensures
        match Value::coerce(field.sql_type, literal) {
            Ok(value) => {
                &&& Row::materialize(seq![field], columns, seq![seq![literal]]) == Ok::<
                    Seq<ValueView>,
                    ErrorView,
                >(seq![value])
                &&& Row::first_value(seq![value]) == Ok::<ValueView, ErrorView>(value)
            },
            Err(error) => Row::materialize(seq![field], columns, seq![seq![literal]]) == Err::<
                Seq<ValueView>,
                ErrorView,
            >(ErrorView::Value(error)),
        },
{
    let schema = seq![field];
    let literals = seq![literal];
    let cells = Row::cells(schema, columns, literals);
    match columns {
        Some(list) => {
            list.index_of_first_ensures(field.name);
            assert(list[0] == field.name);
        },
        None => {},
    }
    assert(cells[0] == Value::typed(field.sql_type, literal));
    match Value::coerce(field.sql_type, literal) {
        Ok(value) => {
            lemma_collect_values(cells, seq![value]);
        },
        Err(error) => {
            lemma_collect_first_failure(cells, 0);
        },
    }
}

/// An empty schema yields the row without values, whatever the column list
/// and the literals are, and that row has no first value.
pub proof fn lemma_first_value_of_empty_schema(
    columns: Option<Seq<Seq<char>>>,
    rows: Seq<Seq<LiteralView>>,
)
    requires
        rows.len() > 0,
    ensures
        Row::materialize(Seq::empty(), columns, rows) == Ok::<Seq<ValueView>, ErrorView>(
            Seq::empty(),
        ),
        Row::first_value(Seq::empty()) == Err::<ValueView, ErrorView>(
            ErrorView::Row(RowErrorView::ConflictOnEmptyRow),
        ),
{
    lemma_collect_values(Row::cells(Seq::empty(), columns, rows[0]), Seq::<ValueView>::empty());
}

} // verus!
