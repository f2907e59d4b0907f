use vstd::prelude::*;
use vstd::string::StringExecFns;

use crate::database::{column_names, rendered_rows, uniform, DatabaseError, Field};
use crate::text::{decimal, push_decimal};

verus! {

/// What a `QueryResult` stands for: a table of texts.
pub struct Table {
    /// The names of the columns, left to right.
    pub headers: Seq<Seq<char>>,
    /// The rows, first to last, each a sequence of texts.
    pub rows: Seq<Seq<Seq<char>>>,
    /// How many rows the statement changed, where that is known.
    pub affected_rows: Option<u64>,
    /// How long the statement took, in milliseconds.
    pub execution_time: u128,
}

impl Table {
    /// Every row has one text for each column.
    pub open spec fn well_formed(self) -> bool {
        forall|i: int| 0 <= i < self.rows.len() ==> (#[trigger] self.rows[i]).len() == self.headers.len()
    }

    /// The table shown for the rows that a statement gave: the columns of
    /// the first row as headers, every value as text, no count of changed
    /// rows, and the time taken.
    pub open spec fn of_rows(rows: Seq<Seq<Field>>, execution_time: u128) -> Table {
        Table {
            headers: column_names(rows),
            rows: rendered_rows(rows),
            affected_rows: None,
            execution_time,
        }
    }

    /// Rows of one width give a table in which every row has one text for
    /// each column.
    pub proof fn lemma_of_rows_well_formed(rows: Seq<Seq<Field>>, execution_time: u128)
        requires
            uniform(rows),
        ensures
            Table::of_rows(rows, execution_time).well_formed(),
    {
        let table = Table::of_rows(rows, execution_time);
        assert forall|i: int| 0 <= i < table.rows.len() implies (#[trigger] table.rows[i]).len()
            == table.headers.len() by {
            assert(rows[i].len() == rows[0].len());
        }
    }
}

/// The table that a statement gave, ready to be shown.
#[derive(Debug, Clone)]
pub struct QueryResult {
    /// The names of the columns.
    pub headers: Vec<String>,
    /// The rows, each with its values as text.
    pub rows: Vec<Vec<String>>,
    /// How many rows the statement changed, where that is known.
    pub affected_rows: Option<u64>,
    /// How long the statement took, in milliseconds.
    pub execution_time: u128,
}

impl View for QueryResult {
    type V = Table;

    open spec fn view(&self) -> Table {
        Table {
            headers: self.headers.deep_view(),
            rows: self.rows.deep_view(),
            affected_rows: self.affected_rows,
            execution_time: self.execution_time,
        }
    }
}

impl QueryResult {
    /// A result with the given headers, rows, count and time.
    pub fn new(
        headers: Vec<String>,
        rows: Vec<Vec<String>>,
        affected_rows: Option<u64>,
        execution_time: u128,
    ) -> (result: Self)
        ensures
            result.headers == headers,
            result.rows == rows,
            result.affected_rows == affected_rows,
            result.execution_time == execution_time,
    {
        QueryResult { headers, rows, affected_rows, execution_time }
    }

    /// The number of rows.
    pub fn row_count(&self) -> (count: usize)
        ensures
            count == self@.rows.len(),
    {
        self.rows.len()
    }

    /// The number of columns.
    pub fn column_count(&self) -> (count: usize)
        ensures
            count == self@.headers.len(),
    {
        self.headers.len()
    }
}

/// The name under which a kind of error is reported.
pub open spec fn error_label(error: &DatabaseError) -> Seq<char> {
    match error {
        DatabaseError::ConnectionError(_) => "Connection error"@,
        DatabaseError::QueryError(_) => "Query error"@,
        DatabaseError::ConfigError(_) => "Configuration error"@,
        DatabaseError::ResultError(_) => "Result error"@,
        DatabaseError::Unknown(_) => "Unknown error"@,
    }
}

/// The line that reports an error: the name of its kind, a colon and a
/// blank, and its detail.
pub open spec fn error_line(error: &DatabaseError) -> Seq<char> {
    error_label(error) + ": "@ + error.detail()
}

/// The line that reports a failed statement.
pub fn format_error(error: &DatabaseError) -> (line: String)
    ensures
        line@ == error_line(error),
{
    let mut line;
    match error {
        DatabaseError::ConnectionError(detail) => {
            line = String::from_str("Connection error");
            line.append(": ");
            line.append(detail.as_str());
        },
        DatabaseError::QueryError(detail) => {
            line = String::from_str("Query error");
            line.append(": ");
            line.append(detail.as_str());
        },
        DatabaseError::ConfigError(detail) => {
            line = String::from_str("Configuration error");
            line.append(": ");
            line.append(detail.as_str());
        },
        DatabaseError::ResultError(detail) => {
            line = String::from_str("Result error");
            line.append(": ");
            line.append(detail.as_str());
        },
        DatabaseError::Unknown(detail) => {
            line = String::from_str("Unknown error");
            line.append(": ");
            line.append(detail.as_str());
        },
    }
    line
}

/// The line that reports a statement that went through: the time it took in
/// milliseconds and the number of rows it gave, both in decimal.
pub open spec fn success_line(execution_time: nat, row_count: nat) -> Seq<char> {
    "Query executed successfully in "@ + decimal(execution_time) + "ms ("@ + decimal(row_count)
        + " rows)"@
}

/// The line that reports a statement that went through.
pub fn format_success(execution_time: u128, row_count: usize) -> (line: String)
    ensures
        line@ == success_line(execution_time as nat, row_count as nat),
{
    let mut line = String::from_str("Query executed successfully in ");
    push_decimal(&mut line, execution_time);
    line.append("ms (");
    push_decimal(&mut line, row_count as u128);
    line.append(" rows)");
    line
}

} // verus!
