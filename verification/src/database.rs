use vstd::prelude::*;
use vstd::std_specs::convert::FromSpecImpl;
use vstd::string::StringExecFns;

use crate::text::push_decimal;

verus! {

/// Where the database is and who asks for it.
#[derive(Debug, Clone, Default)]
pub struct DatabaseConfig {
    /// The host of the database server.
    pub host: String,
    /// The port of the database server.
    pub port: u16,
    /// The user to connect as.
    pub username: String,
    /// The password of that user.
    pub password: String,
    /// The database to open.
    pub database: String,
}

impl DatabaseConfig {
    /// The address that `connection_url` gives for this configuration:
    /// `postgres://`, user, `:`, password, `@`, host, `:`, port, `/`,
    /// database.
    pub open spec fn url(&self) -> Seq<char> {
        "postgres://"@ + self.username@ + ":"@ + self.password@ + "@"@ + self.host@ + ":"@
            + crate::text::decimal(self.port as nat) + "/"@ + self.database@
    }

    /// A local server on the usual port, with user, password and database
    /// all `postgres`.
    pub fn new() -> (config: Self)
        ensures
            config.host@ == "localhost"@,
            config.port == 5432,
            config.username@ == "postgres"@,
            config.password@ == "postgres"@,
            config.database@ == "postgres"@,
    {
        DatabaseConfig {
            host: String::from_str("localhost"),
            port: 5432,
            username: String::from_str("postgres"),
            password: String::from_str("postgres"),
            database: String::from_str("postgres"),
        }
    }

    /// The address under which the database is reached.
    pub fn connection_url(&self) -> (url: String)
        ensures
            url@ == self.url(),
    {
        let mut url = String::from_str("postgres://");
        url.append(self.username.as_str());
        url.append(":");
        url.append(self.password.as_str());
        url.append("@");
        url.append(self.host.as_str());
        url.append(":");
        push_decimal(&mut url, self.port as u128);
        url.append("/");
        url.append(self.database.as_str());
        url
    }
}

/// What went wrong with the database, by kind, each with its detail.
#[derive(Debug)]
pub enum DatabaseError {
    /// The session with the database could not be set up or kept.
    ConnectionError(String),
    /// The database refused or failed the statement.
    QueryError(String),
    /// The rows could not be read as a table.
    ResultError(String),
    /// The connection settings are not valid.
    ConfigError(String),
    /// A failure of no other kind.
    Unknown(String),
}

impl DatabaseError {
    /// The detail that the error carries.
    pub open spec fn detail(&self) -> Seq<char> {
        match self {
            DatabaseError::ConnectionError(detail) => detail@,
            DatabaseError::QueryError(detail) => detail@,
            DatabaseError::ResultError(detail) => detail@,
            DatabaseError::ConfigError(detail) => detail@,
            DatabaseError::Unknown(detail) => detail@,
        }
    }

    /// The sentence that introduces the detail in `message`.
    pub open spec fn preamble(&self) -> Seq<char> {
        match self {
            DatabaseError::ConnectionError(_) => "Failed to connect to database"@,
            DatabaseError::QueryError(_) => "Query execution failed"@,
            DatabaseError::ResultError(_) => "Failed to parse query results"@,
            DatabaseError::ConfigError(_) => "Database configuration error"@,
            DatabaseError::Unknown(_) => "Unknown database error"@,
        }
    }

    /// The error as a sentence: what failed, a colon and a blank, and the
    /// detail.
    pub fn message(&self) -> (text: String)
        ensures
            text@ == self.preamble() + ": "@ + self.detail(),
    {
        let mut text;
        match self {
            DatabaseError::ConnectionError(detail) => {
                text = String::from_str("Failed to connect to database");
                text.append(": ");
                text.append(detail.as_str());
            },
            DatabaseError::QueryError(detail) => {
                text = String::from_str("Query execution failed");
                text.append(": ");
                text.append(detail.as_str());
            },
            DatabaseError::ResultError(detail) => {
                text = String::from_str("Failed to parse query results");
                text.append(": ");
                text.append(detail.as_str());
            },
            DatabaseError::ConfigError(detail) => {
                text = String::from_str("Database configuration error");
                text.append(": ");
                text.append(detail.as_str());
            },
            DatabaseError::Unknown(detail) => {
                text = String::from_str("Unknown database error");
                text.append(": ");
                text.append(detail.as_str());
            },
        }
        text
    }
}

/// A failed execution as the caller met it, before it is sorted into a kind
/// of `DatabaseError`. Each variant carries the text of the failure.
#[derive(Debug)]
pub enum Failure {
    /// The database server answered with an error; the text is its message.
    Database(String),
    /// The driver could not read the connection settings.
    Configuration(String),
    /// The driver could not talk to the server.
    Io(String),
    /// The driver could not set up an encrypted connection to the server.
    Tls(String),
    /// The pool of the driver gave no connection: it timed out or was
    /// closed.
    Pool(String),
    /// The driver could not decode a value or a column of the rows.
    Decode(String),
    /// Any other error of the driver.
    Driver(String),
    /// A failure that did not come from the driver.
    Unrecognized(String),
}

impl Failure {
    /// The kind of error that the failure is sorted into, with the same
    /// text. An error that the server answered with is a query error.
    /// Unreadable settings are a configuration error. Failed communication,
    /// a failed encrypted connection and a pool without a connection are
    /// connection errors: the session with the database could not be set up
    /// or kept. A value or column that could not be decoded is a result
    /// error. Every other error of the driver, and what did not come from
    /// the driver, is unknown.
    pub open spec fn classify(self) -> DatabaseError {
        match self {
            Failure::Database(text) => DatabaseError::QueryError(text),
            Failure::Configuration(text) => DatabaseError::ConfigError(text),
            Failure::Io(text) => DatabaseError::ConnectionError(text),
            Failure::Tls(text) => DatabaseError::ConnectionError(text),
            Failure::Pool(text) => DatabaseError::ConnectionError(text),
            Failure::Decode(text) => DatabaseError::ResultError(text),
            Failure::Driver(text) => DatabaseError::Unknown(text),
            Failure::Unrecognized(text) => DatabaseError::Unknown(text),
        }
    }
}

impl From<Failure> for DatabaseError {
    fn from(failure: Failure) -> (error: DatabaseError) {
        match failure {
            Failure::Database(text) => DatabaseError::QueryError(text),
            Failure::Configuration(text) => DatabaseError::ConfigError(text),
            Failure::Io(text) => DatabaseError::ConnectionError(text),
            Failure::Tls(text) => DatabaseError::ConnectionError(text),
            Failure::Pool(text) => DatabaseError::ConnectionError(text),
            Failure::Decode(text) => DatabaseError::ResultError(text),
            Failure::Driver(text) => DatabaseError::Unknown(text),
            Failure::Unrecognized(text) => DatabaseError::Unknown(text),
        }
    }
}

impl FromSpecImpl<Failure> for DatabaseError {
    open spec fn obeys_from_spec() -> bool {
        true
    }

    open spec fn from_spec(failure: Failure) -> DatabaseError {
        failure.classify()
    }
}

/// `sqlx::Error`, the error type of the driver. Its variants are not
/// visible here.
#[verifier::external_type_specification]
#[verifier::external_body]
pub struct ExDriverError(sqlx::Error);

/// Tells the variants of `sqlx::Error` apart. For `Database` the text is
/// what `sqlx::error::DatabaseError::message` gives for the server's error;
/// for `Configuration` and `Io` it is the rendering of the error inside. For
/// every other variant the text is the rendering of the whole error: `Tls`
/// keeps its name, `PoolTimedOut` and `PoolClosed` become `Pool`,
/// `ColumnDecode` and `Decode` become `Decode`, and the rest becomes
/// `Driver`. Nothing is claimed of the result.
#[verifier::external_body]
fn driver_failure(error: sqlx::Error) -> Failure {
    match error {
        sqlx::Error::Database(inner) => Failure::Database(inner.message().to_string()),
        sqlx::Error::Configuration(inner) => Failure::Configuration(inner.to_string()),
        sqlx::Error::Io(inner) => Failure::Io(inner.to_string()),
        tls @ sqlx::Error::Tls(_) => Failure::Tls(tls.to_string()),
        pool @ sqlx::Error::PoolTimedOut => Failure::Pool(pool.to_string()),
        pool @ sqlx::Error::PoolClosed => Failure::Pool(pool.to_string()),
        column @ sqlx::Error::ColumnDecode { .. } => Failure::Decode(column.to_string()),
        value @ sqlx::Error::Decode(_) => Failure::Decode(value.to_string()),
        other => Failure::Driver(other.to_string()),
    }
}

impl From<sqlx::Error> for Failure {
    /// The failure that an error of the driver stands for. Which variant
    /// and which text come out is decided outside of what is proved here.
    fn from(error: sqlx::Error) -> (failure: Failure) {
        driver_failure(error)
    }
}

impl FromSpecImpl<sqlx::Error> for Failure {
    open spec fn obeys_from_spec() -> bool {
        false
    }

    open spec fn from_spec(error: sqlx::Error) -> Failure {
        arbitrary()
    }
}

impl From<sqlx::Error> for DatabaseError {
    /// The kind of error that an error of the driver is sorted into: the
    /// kind of some failure, whichever the driver's error stands for.
    fn from(error: sqlx::Error) -> (kind: DatabaseError)
        ensures
            exists|failure: Failure| kind == failure.classify(),
    {
        let failure = Failure::from(error);
        DatabaseError::from(failure)
    }
}

impl FromSpecImpl<sqlx::Error> for DatabaseError {
    open spec fn obeys_from_spec() -> bool {
        false
    }

    open spec fn from_spec(error: sqlx::Error) -> DatabaseError {
        arbitrary()
    }
}

/// One value of a row as the driver delivered it.
#[derive(Debug, Clone)]
pub struct Cell {
    /// The name of the column that the value belongs to.
    pub column: String,
    /// The value as text, or nothing where it has no rendering as text.
    pub text: Option<String>,
}

/// What a `Cell` stands for.
pub struct Field {
    /// The name of the column.
    pub column: Seq<char>,
    /// The value as text, if it has such a rendering.
    pub text: Option<Seq<char>>,
}

impl Field {
    /// The text shown for the value: the value itself, or `NULL` where
    /// there is none.
    pub open spec fn rendered(self) -> Seq<char> {
        match self.text {
            Some(text) => text,
            None => "NULL"@,
        }
    }
}

impl DeepView for Cell {
    type V = Field;

    open spec fn deep_view(&self) -> Field {
        Field { column: self.column@, text: self.text.deep_view() }
    }
}

/// The names of the columns of a result: those of its first row, and none
/// where it has no row.
pub open spec fn column_names(rows: Seq<Seq<Field>>) -> Seq<Seq<char>> {
    if rows.len() == 0 {
        Seq::empty()
    } else {
        Seq::new(rows[0].len(), |j: int| rows[0][j].column)
    }
}

/// The rows of a result with every value rendered as text.
pub open spec fn rendered_rows(rows: Seq<Seq<Field>>) -> Seq<Seq<Seq<char>>> {
    Seq::new(rows.len(), |i: int| Seq::new(rows[i].len(), |j: int| rows[i][j].rendered()))
}

/// Every row has as many values as the first.
pub open spec fn uniform(rows: Seq<Seq<Field>>) -> bool {
    forall|i: int| 0 <= i < rows.len() ==> (#[trigger] rows[i]).len() == rows[0].len()
}

/// `sqlx::postgres::PgRow`, a row as the driver hands it out. What it holds
/// is not visible here.
#[verifier::external_type_specification]
#[verifier::external_body]
pub struct ExDriverRow(sqlx::postgres::PgRow);

/// What a row of the driver holds: for each of its columns, in order, the
/// name of the column and the value decoded as text, where it decodes.
pub uninterp spec fn row_fields(row: sqlx::postgres::PgRow) -> Seq<Field>;

/// `Row::len` on a `PgRow`: the number of columns of the row.
#[verifier::external_body]
fn row_width(row: &sqlx::postgres::PgRow) -> (width: usize)
    ensures
        width == row_fields(*row).len(),
{
    sqlx::Row::len(row)
}

/// `Row::columns` on a `PgRow` and `Column::name` on the column at `index`:
/// the name of that column.
#[verifier::external_body]
fn row_column_name(row: &sqlx::postgres::PgRow, index: usize) -> (name: String)
    requires
        index < row_fields(*row).len(),
    ensures
        name@ == row_fields(*row)[index as int].column,
{
    sqlx::Column::name(&sqlx::Row::columns(row)[index]).to_string()
}

/// `Row::try_get` on a `PgRow`, asked for a `String` at a position: the
/// value at `index` as text, and nothing where the driver does not decode it
/// as text (a null, or a value of another type). The driver looks the value
/// up by position among the values of the row, so this rests on the row
/// having a value for each of its columns, as the rows that the driver
/// builds from a server's answer have.
#[verifier::external_body]
fn row_text(row: &sqlx::postgres::PgRow, index: usize) -> (text: Option<String>)
    requires
        index < row_fields(*row).len(),
    ensures
        text.deep_view() == row_fields(*row)[index as int].text,
{
    sqlx::Row::try_get::<String, usize>(row, index).ok()
}

/// The rows of the driver as what they hold.
pub open spec fn driver_rows(rows: Seq<sqlx::postgres::PgRow>) -> Seq<Seq<Field>> {
    Seq::new(rows.len(), |i: int| row_fields(rows[i]))
}

/// The values of a row of the driver, each with the name of its column.
pub fn row_cells(row: &sqlx::postgres::PgRow) -> (cells: Vec<Cell>)
    ensures
        cells.deep_view() == row_fields(*row),
{
    let width = row_width(row);
    let mut cells: Vec<Cell> = Vec::new();
    let mut j: usize = 0;
    while j < width
        invariant
            j <= width,
            width == row_fields(*row).len(),
            cells@.len() == j,
            forall|k: int| 0 <= k < j ==> (#[trigger] cells@[k]).deep_view() == row_fields(*row)[k],
        decreases width - j,
    {
        let column = row_column_name(row, j);
        let text = row_text(row, j);
        cells.push(Cell { column, text });
        j = j + 1;
    }
    assert(cells.deep_view() =~= row_fields(*row));
    cells
}

/// The rows that a statement gave, as the driver delivered them.
#[derive(Debug)]
pub struct QueryResult {
    rows: Vec<Vec<Cell>>,
}

impl View for QueryResult {
    type V = Seq<Seq<Field>>;

    closed spec fn view(&self) -> Seq<Seq<Field>> {
        self.rows.deep_view()
    }
}

impl QueryResult {
    /// A result that holds what the given rows of the driver hold.
    pub fn new(rows: Vec<sqlx::postgres::PgRow>) -> (result: Self)
        ensures
            result@ == driver_rows(rows@),
    {
        let mut cells: Vec<Vec<Cell>> = Vec::new();
        let mut i: usize = 0;
        while i < rows.len()
            invariant
                i <= rows.len(),
                cells@.len() == i,
                forall|k: int|
                    0 <= k < i ==> (#[trigger] cells@[k]).deep_view() == row_fields(rows@[k]),
            decreases rows.len() - i,
        {
            cells.push(row_cells(&rows[i]));
            i = i + 1;
        }
        assert(cells.deep_view() =~= driver_rows(rows@));
        QueryResult { rows: cells }
    }

    /// A result that holds the given rows.
    pub fn from_cells(rows: Vec<Vec<Cell>>) -> (result: Self)
        ensures
            result@ == rows.deep_view(),
    {
        QueryResult { rows }
    }

    /// The number of rows.
    pub fn row_count(&self) -> (count: usize)
        ensures
            count == self@.len(),
    {
        self.rows.len()
    }

    /// The names of the columns, taken from the first row.
    pub fn columns(&self) -> (names: Vec<String>)
        ensures
            names.deep_view() == column_names(self@),
    {
        let mut names: Vec<String> = Vec::new();
        if self.rows.len() > 0 {
            let first = &self.rows[0];
            let mut j: usize = 0;
            while j < first.len()
                invariant
                    j <= first.len(),
                    names@.len() == j,
                    forall|k: int| 0 <= k < j ==> (#[trigger] names@[k])@ == first@[k].column@,
                decreases first.len() - j,
            {
                names.push(first[j].column.clone());
                j = j + 1;
            }
        }
        assert(names.deep_view() =~= column_names(self@));
        names
    }

    /// The rows with every value as text, `NULL` standing for a value that
    /// has no rendering as text.
    pub fn rows_as_strings(&self) -> (table: Vec<Vec<String>>)
        ensures
            table.deep_view() == rendered_rows(self@),
    {
        let mut table: Vec<Vec<String>> = Vec::new();
        let mut i: usize = 0;
        while i < self.rows.len()
            invariant
                i <= self.rows.len(),
                table@.len() == i,
                forall|k: int|
                    0 <= k < i ==> (#[trigger] table@[k]).deep_view() == rendered_rows(self@)[k],
            decreases self.rows.len() - i,
        {
            let row = &self.rows[i];
            let mut texts: Vec<String> = Vec::new();
            let mut j: usize = 0;
            while j < row.len()
                invariant
                    j <= row.len(),
                    texts@.len() == j,
                    forall|k: int|
                        0 <= k < j ==> (#[trigger] texts@[k])@ == row@[k].deep_view().rendered(),
                decreases row.len() - j,
            {
                let text = match &row[j].text {
                    Some(text) => text.clone(),
                    None => String::from_str("NULL"),
                };
                texts.push(text);
                j = j + 1;
            }
            assert(texts.deep_view() =~= rendered_rows(self@)[i as int]);
            table.push(texts);
            i = i + 1;
        }
        assert(table.deep_view() =~= rendered_rows(self@));
        table
    }
}

} // verus!
