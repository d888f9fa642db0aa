//! The rows that a statement gave, as the application reads them.

use crate::wire::{result_content, result_parts, WireResult};
use hrana_client::proto::{StmtResult, Value};
use vstd::prelude::*;
use vstd::string::*;

verus! {

/// One row: its values, in the order of the columns.
#[derive(Debug)]
pub struct Row {
    pub values: Vec<Value>,
}

/// What a statement gave: the names of the columns and the rows, each in
/// the order in which the server sent them.
#[derive(Debug)]
pub struct ResultSet {
    pub columns: Vec<String>,
    pub rows: Vec<Row>,
    pub rows_affected: u64,
    pub last_insert_rowid: Option<i64>,
}

/// A result set as a mathematical value.
pub struct ResultSetView {
    pub columns: Seq<Seq<char>>,
    pub rows: Seq<Seq<Value>>,
    pub rows_affected: u64,
    pub last_insert_rowid: Option<i64>,
}

impl View for ResultSet {
    type V = ResultSetView;

    open spec fn view(&self) -> ResultSetView {
        ResultSetView {
            columns: self.columns@.map_values(|c: String| c@),
            rows: self.rows@.map_values(|r: Row| r.values@),
            rows_affected: self.rows_affected,
            last_insert_rowid: self.last_insert_rowid,
        }
    }
}

/// The name of a column, empty where the server gave none.
pub open spec fn column_name(name: Option<Seq<char>>) -> Seq<char> {
    match name {
        Some(text) => text,
        None => Seq::empty(),
    }
}

/// The result set for what the server sent: the same rows and counters,
/// and a name for every column.
pub open spec fn decoded(result: WireResult) -> ResultSetView {
    ResultSetView {
        columns: result.cols.map_values(|name: Option<Seq<char>>| column_name(name)),
        rows: result.rows,
        rows_affected: result.affected_row_count,
        last_insert_rowid: result.last_insert_rowid,
    }
}

/// Whether `i` is the place of the value that a row holds under `name`:
/// the last column of that name for which the row has a value.
pub open spec fn is_keyed_at(columns: Seq<Seq<char>>, values: Seq<Value>, name: Seq<char>, i: int) -> bool {
    &&& 0 <= i < columns.len()
    &&& i < values.len()
    &&& columns[i] == name
    &&& forall|j: int| i < j < columns.len() && j < values.len() ==> columns[j] != name
}

impl From<StmtResult> for ResultSet {
    /// Reads what the server sent for a statement.
    fn from(result: StmtResult) -> (set: ResultSet)
        ensures
            set@ == decoded(result_content(result)),
    {
        let ghost wanted = decoded(result_content(result));
        let (names, values, rows_affected, last_insert_rowid) = result_parts(result);
        let mut columns: Vec<String> = Vec::new();
        for name in it: names
            invariant
                it.seq().map_values(|n: Option<String>| column_name(n.deep_view()))
                    == wanted.columns,
                columns@.map_values(|c: String| c@) == wanted.columns.take(it.index() as int),
        {
            let column = match name {
                Some(text) => text,
                None => String::new(),
            };
            proof {
                assert(wanted.columns[it.index() as int] == column@);
                assert(columns@.push(column).map_values(|c: String| c@) =~= columns@.map_values(
                    |c: String| c@,
                ).push(column@));
                assert(wanted.columns.take(it.index() as int).push(column@)
                    =~= wanted.columns.take(it.index() + 1));
            }
            columns.push(column);
        }
        let mut rows: Vec<Row> = Vec::new();
        for row in it: values
            invariant
                it.seq().map_values(|r: Vec<Value>| r@) == wanted.rows,
                rows@.map_values(|r: Row| r.values@) == wanted.rows.take(it.index() as int),
        {
            proof {
                assert(wanted.rows[it.index() as int] == row@);
                assert(rows@.push(Row { values: row }).map_values(|r: Row| r.values@)
                    =~= rows@.map_values(|r: Row| r.values@).push(row@));
                assert(wanted.rows.take(it.index() as int).push(row@) =~= wanted.rows.take(
                    it.index() + 1,
                ));
            }
            rows.push(Row { values: row });
        }
        proof {
            assert(wanted.columns.take(wanted.columns.len() as int) =~= wanted.columns);
            assert(wanted.rows.take(wanted.rows.len() as int) =~= wanted.rows);
        }
        ResultSet { columns, rows, rows_affected, last_insert_rowid }
    }
}

impl vstd::std_specs::convert::FromSpecImpl<StmtResult> for ResultSet {
    open spec fn obeys_from_spec() -> bool {
        false
    }

    open spec fn from_spec(result: StmtResult) -> ResultSet {
        arbitrary()
    }
}

impl ResultSet {
    /// The value that the row number `row` holds under the column `name`:
    /// that of the last column of this name for which the row has a value.
    /// `None` where there is no such row or no such column.
    pub fn cell(&self, row: usize, name: &str) -> (value: Option<&Value>)
        ensures
            match value {
                Some(v) => row < self@.rows.len() && exists|i: int|
                    is_keyed_at(self@.columns, self@.rows[row as int], name@, i) && *v
                        == self@.rows[row as int][i],
                None => row < self@.rows.len() ==> forall|i: int|
                    !is_keyed_at(self@.columns, self@.rows[row as int], name@, i),
            },
    {
        if row >= self.rows.len() {
            return None;
        }
        let values = &self.rows[row].values;
        let wanted = String::from_str(name);
        let mut i = if self.columns.len() < values.len() {
            self.columns.len()
        } else {
            values.len()
        };
        while i > 0
            invariant
                i <= self.columns.len(),
                i <= values.len(),
                row < self.rows.len(),
                values == &self.rows[row as int].values,
                wanted@ == name@,
                forall|j: int|
                    i <= j < self.columns.len() && j < values.len() ==> self.columns[j]@ != name@,
            decreases i,
        {
            i -= 1;
            if self.columns[i] == wanted {
                assert(is_keyed_at(self@.columns, self@.rows[row as int], name@, i as int));
                return Some(&values[i]);
            }
        }
        None
    }
}

} // verus!
