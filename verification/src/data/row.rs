//! Rows, and how one is built from a schema and the literals of a statement.
use vstd::prelude::*;

use crate::data::literal::{Literal, LiteralView};
use crate::data::schema::{Column, ColumnSpecification, ColumnSpecificationView};
use crate::data::value::{Value, ValueView};
use crate::result::{outcome, Error, ErrorView};

verus! {

/// Why no row could be built, or no value taken from one.
#[derive(Debug, PartialEq, Eq)]
pub enum RowError {
    /// The statement's column list does not name this schema column.
    LackOfRequiredColumn(String),
    /// The literal row holds no value at the position of this schema column.
    LackOfRequiredValue(String),
    /// No literal row was handed over at all.
    Unreachable,
    /// The first value of a row without values was asked for.
    ConflictOnEmptyRow,
}

/// Mathematical model of a [`RowError`].
pub enum RowErrorView {
    LackOfRequiredColumn(Seq<char>),
    LackOfRequiredValue(Seq<char>),
    Unreachable,
    ConflictOnEmptyRow,
}

impl DeepView for RowError {
    type V = RowErrorView;

    open spec fn deep_view(&self) -> RowErrorView {
        match self {
            RowError::LackOfRequiredColumn(name) => RowErrorView::LackOfRequiredColumn(name@),
            RowError::LackOfRequiredValue(name) => RowErrorView::LackOfRequiredValue(name@),
            RowError::Unreachable => RowErrorView::Unreachable,
            RowError::ConflictOnEmptyRow => RowErrorView::ConflictOnEmptyRow,
        }
    }
}

/// An ordered tuple of typed values, one per schema column, in the order in
/// which the schema declares its columns.
#[derive(Debug, PartialEq, Eq)]
pub struct Row(pub Vec<Value>);

impl DeepView for Row {
    type V = Seq<ValueView>;

    /// A row is modelled by the sequence of its values.
    open spec fn deep_view(&self) -> Seq<ValueView> {
        self.0.deep_view()
    }
}

/// `index` is the first cell of `cells` that holds an error.
pub open spec fn first_failure<V, E>(cells: Seq<Result<V, E>>, index: int) -> bool {
    &&& 0 <= index < cells.len()
    &&& cells[index] is Err
    &&& forall|j: int| 0 <= j < index ==> (#[trigger] cells[j]) is Ok
}

/// Gathers per-column results into one: every value, in order, where each
/// cell holds one; otherwise the error of the first cell that failed.
pub open spec fn collect<V, E>(cells: Seq<Result<V, E>>) -> Result<Seq<V>, E> {
    if forall|i: int| 0 <= i < cells.len() ==> (#[trigger] cells[i]) is Ok {
        Ok(Seq::new(cells.len(), |i: int| cells[i]->Ok_0))
    } else {
        Err(cells[choose|i: int| first_failure(cells, i)]->Err_0)
    }
}

/// Where every cell holds a value, the values are collected in order.
pub proof fn lemma_collect_values<V, E>(cells: Seq<Result<V, E>>, values: Seq<V>)
    requires
        values.len() == cells.len(),
        forall|i: int| 0 <= i < cells.len() ==> #[trigger] cells[i] == Ok::<V, E>(values[i]),
    ensures
        collect(cells) == Ok::<Seq<V>, E>(values),
{
    assert(Seq::new(cells.len(), |i: int| cells[i]->Ok_0) =~= values);
}

/// Where `index` is the first cell that failed, its error is the result.
pub proof fn lemma_collect_first_failure<V, E>(cells: Seq<Result<V, E>>, index: int)
    requires
        first_failure(cells, index),
    ensures
        collect(cells) == Err::<Seq<V>, E>(cells[index]->Err_0),
{
    let chosen = choose|i: int| first_failure(cells, i);
    assert(first_failure(cells, chosen));
    if chosen < index {
        assert(cells[chosen] is Ok);
    } else if index < chosen {
        assert(cells[index] is Ok);
    }
}

impl Row {
    /// The position in the literal row that supplies the schema column
    /// `name`, which stands at `index` in the schema. Without a column list
    /// the literals follow the schema; with one, the literal stands where the
    /// list first names the column, and nowhere if it never does.
    pub open spec fn source_position(
        columns: Option<Seq<Seq<char>>>,
        name: Seq<char>,
        index: int,
    ) -> Option<int> {
        match columns {
            None => Some(index),
            Some(list) => list.index_of_first(name),
        }
    }

    /// The value of one schema column, or the reason why it has none: the
    /// column list omits the column, the literal row is too short to reach
    /// its position, or the literal there cannot be coerced to its type.
    pub open spec fn cell(
        field: ColumnSpecificationView,
        index: int,
        columns: Option<Seq<Seq<char>>>,
        literals: Seq<LiteralView>,
    ) -> Result<ValueView, ErrorView> {
        match Self::source_position(columns, field.name, index) {
            None => Err(ErrorView::Row(RowErrorView::LackOfRequiredColumn(field.name))),
            Some(position) => if 0 <= position < literals.len() {
                Value::typed(field.sql_type, literals[position])
            } else {
                Err(ErrorView::Row(RowErrorView::LackOfRequiredValue(field.name)))
            },
        }
    }

    /// The cells of all schema columns, in schema order.
    pub open spec fn cells(
        schema: Seq<ColumnSpecificationView>,
        columns: Option<Seq<Seq<char>>>,
        literals: Seq<LiteralView>,
    ) -> Seq<Result<ValueView, ErrorView>> {
        Seq::new(schema.len(), |i: int| Self::cell(schema[i], i, columns, literals))
    }

    /// The row that a schema, an optional column list and the candidate
    /// literal rows denote. Only the first literal row is used; with none
    /// there is no row. There is no partial row either: the first column, in
    /// schema order, that has no value decides the error.
    pub open spec fn materialize(
        schema: Seq<ColumnSpecificationView>,
        columns: Option<Seq<Seq<char>>>,
        rows: Seq<Seq<LiteralView>>,
    ) -> Result<Seq<ValueView>, ErrorView> {
        if rows.len() == 0 {
            Err(ErrorView::Row(RowErrorView::Unreachable))
        } else {
            collect(Self::cells(schema, columns, rows[0]))
        }
    }

    /// The first of `values`, which a row without values does not have.
    pub open spec fn first_value(values: Seq<ValueView>) -> Result<ValueView, ErrorView> {
        if values.len() == 0 {
            Err(ErrorView::Row(RowErrorView::ConflictOnEmptyRow))
        } else {
            Ok(values[0])
        }
    }

    /// The value at the zero-based position `index`, if the row has one there.
    pub fn get_value(&self, index: usize) -> (r: Option<&Value>)
        ensures
            r == if index < self.0@.len() {
                Some(&self.0@[index as int])
            } else {
                None::<&Value>
            },
            r.deep_view() == if index < self.deep_view().len() {
                Some(self.deep_view()[index as int])
            } else {
                None::<ValueView>
            },
    {
        if index < self.0.len() {
            Some(&self.0[index])
        } else {
            None
        }
    }

    /// Consumes the row and returns its first value.
    pub fn take_first_value(self) -> (r: Result<Value, Error>)
        ensures
            outcome(r) == Self::first_value(self.deep_view()),
            r matches Ok(value) ==> value == self.0@[0],
    {
        let mut values = self.0;
        if values.len() == 0 {
            Err(Error::Row(RowError::ConflictOnEmptyRow))
        } else {
            Ok(values.swap_remove(0))
        }
    }

    /// Index of the first entry of `columns` that is named `name`.
    fn position(columns: &Vec<Column>, name: &String) -> (r: Option<usize>)
        ensures
            match r {
                Some(index) => columns.deep_view().index_of_first(name@) == Some(index as int),
                None => columns.deep_view().index_of_first(name@) is None,
            },
    {
        let ghost names = columns.deep_view();
        let mut i: usize = 0;
        while i < columns.len()
            invariant
                i <= columns.len(),
                names == columns.deep_view(),
                forall|k: int| 0 <= k < i ==> #[trigger] names[k] != name@,
            decreases columns.len() - i,
        {
            if columns[i].name == *name {
                proof {
                    names.index_of_first_ensures(name@);
                    assert(names[i as int] == name@);
                }
                return Some(i);
            }
            i += 1;
        }
        proof {
            names.index_of_first_ensures(name@);
        }
        None
    }

    /// Builds the value of one schema column, which stands at `index` in the
    /// schema, from the literal row.
    fn value_for(
        field: &ColumnSpecification,
        index: usize,
        insert_fields: &Option<Vec<Column>>,
        literals: &Vec<Literal>,
    ) -> (r: Result<Value, Error>)
        ensures
            outcome(r) == Self::cell(
                field.deep_view(),
                index as int,
                insert_fields.deep_view(),
                literals.deep_view(),
            ),
    {
        let resolved = match insert_fields {
            None => Some(index),
            Some(columns) => Self::position(columns, &field.column.name),
        };
        match resolved {
            None => Err(Error::Row(RowError::LackOfRequiredColumn(field.column.name.clone()))),
            Some(position) => if position < literals.len() {
                Value::new(field.sql_type, literals[position].clone())
            } else {
                Err(Error::Row(RowError::LackOfRequiredValue(field.column.name.clone())))
            },
        }
    }

    /// Builds the row of a statement: one value per column of
    /// `create_fields`, in that order, each coerced from the literal that
    /// `insert_fields` assigns to the column in the first row of
    /// `insert_data`.
    pub fn new(
        create_fields: Vec<ColumnSpecification>,
        insert_fields: &Option<Vec<Column>>,
        insert_data: &[Vec<Literal>],
    ) -> (r: Result<Row, Error>)
        ensures
            outcome(r) == Self::materialize(
                create_fields.deep_view(),
                insert_fields.deep_view(),
                insert_data.deep_view(),
            ),
            insert_data@.len() == 0 ==> outcome(r) == Err::<Seq<ValueView>, ErrorView>(
                ErrorView::Row(RowErrorView::Unreachable),
            ),
            r matches Ok(row) ==> row.0@.len() == create_fields@.len(),
    {
        if insert_data.len() == 0 {
            return Err(Error::Row(RowError::Unreachable));
        }
        let literals = &insert_data[0];
        let ghost cells = Self::cells(
            create_fields.deep_view(),
            insert_fields.deep_view(),
            literals.deep_view(),
        );
        let mut values: Vec<Value> = Vec::new();
        let mut i: usize = 0;
        while i < create_fields.len()
            invariant
                i <= create_fields.len(),
                values.len() == i,
                insert_data@.len() > 0,
                literals.deep_view() == insert_data.deep_view()[0],
                cells == Self::cells(
                    create_fields.deep_view(),
                    insert_fields.deep_view(),
                    literals.deep_view(),
                ),
                forall|j: int|
                    0 <= j < i ==> #[trigger] cells[j] == Ok::<ValueView, ErrorView>(
                        values[j].deep_view(),
                    ),
            decreases create_fields.len() - i,
        {
            match Self::value_for(&create_fields[i], i, insert_fields, literals) {
                Ok(value) => {
                    values.push(value);
                },
                Err(error) => {
                    proof {
                        lemma_collect_first_failure(cells, i as int);
                    }
                    return Err(error);
                },
            }
            i += 1;
        }
        proof {
            lemma_collect_values(cells, values.deep_view());
        }
        Ok(Row(values))
    }
}

} // verus!
