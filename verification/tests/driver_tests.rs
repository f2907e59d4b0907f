use ferrumdb::database::{DatabaseError, Failure, QueryResult};
use ferrumdb::query::format_error;
use ferrumdb::state::AppState;

#[derive(Debug)]
struct ServerError {
    text: String,
}

impl std::fmt::Display for ServerError {
    fn fmt(&self, f: &mut std::fmt::Formatter<'_>) -> std::fmt::Result {
        f.write_str("server said: ")?;
        f.write_str(&self.text)
    }
}

impl std::error::Error for ServerError {}

impl sqlx::error::DatabaseError for ServerError {
    fn message(&self) -> &str {
        &self.text
    }

    fn as_error(&self) -> &(dyn std::error::Error + Send + Sync + 'static) {
        self
    }

    fn as_error_mut(&mut self) -> &mut (dyn std::error::Error + Send + Sync + 'static) {
        self
    }

    fn into_error(self: Box<Self>) -> Box<dyn std::error::Error + Send + Sync + 'static> {
        self
    }

    fn kind(&self) -> sqlx::error::ErrorKind {
        sqlx::error::ErrorKind::Other
    }
}

fn server_error(text: &str) -> sqlx::Error {
    sqlx::Error::Database(Box::new(ServerError { text: text.to_string() }))
}

fn io_error(text: &str) -> sqlx::Error {
    sqlx::Error::Io(std::io::Error::new(std::io::ErrorKind::ConnectionReset, text.to_string()))
}

#[test]
fn driver_database_error_becomes_database_failure_with_its_message() {
    match Failure::from(server_error("syntax error at or near SELECT")) {
        Failure::Database(text) => assert_eq!(text, "syntax error at or near SELECT"),
        other => panic!("{:?}", other),
    }
}

#[test]
fn driver_configuration_error_becomes_configuration_failure() {
    match Failure::from(sqlx::Error::Configuration("invalid port number".into())) {
        Failure::Configuration(text) => assert_eq!(text, "invalid port number"),
        other => panic!("{:?}", other),
    }
}

#[test]
fn driver_io_error_becomes_io_failure() {
    match Failure::from(io_error("connection reset by peer")) {
        Failure::Io(text) => assert_eq!(text, "connection reset by peer"),
        other => panic!("{:?}", other),
    }
}

#[test]
fn driver_tls_error_becomes_tls_failure() {
    match Failure::from(sqlx::Error::Tls("handshake failed".into())) {
        Failure::Tls(text) => assert_eq!(
            text,
            "error occurred while attempting to establish a TLS connection: handshake failed"
        ),
        other => panic!("{:?}", other),
    }
}

#[test]
fn driver_pool_errors_become_pool_failures() {
    match Failure::from(sqlx::Error::PoolTimedOut) {
        Failure::Pool(text) => {
            assert_eq!(text, "pool timed out while waiting for an open connection")
        }
        other => panic!("{:?}", other),
    }
    match Failure::from(sqlx::Error::PoolClosed) {
        Failure::Pool(text) => {
            assert_eq!(text, "attempted to acquire a connection on a closed pool")
        }
        other => panic!("{:?}", other),
    }
}

#[test]
fn driver_decoding_errors_become_decode_failures() {
    match Failure::from(sqlx::Error::Decode("invalid utf-8".into())) {
        Failure::Decode(text) => {
            assert_eq!(text, "error occurred while decoding: invalid utf-8")
        }
        other => panic!("{:?}", other),
    }
    let column = sqlx::Error::ColumnDecode {
        index: "2".to_string(),
        source: "mismatched types".into(),
    };
    match Failure::from(column) {
        Failure::Decode(text) => {
            assert_eq!(text, "error occurred while decoding column 2: mismatched types")
        }
        other => panic!("{:?}", other),
    }
}

#[test]
fn other_driver_errors_become_driver_failures() {
    match Failure::from(sqlx::Error::RowNotFound) {
        Failure::Driver(text) => assert_eq!(
            text,
            "no rows returned by a query that expected to return at least one row"
        ),
        other => panic!("{:?}", other),
    }
    match Failure::from(sqlx::Error::WorkerCrashed) {
        Failure::Driver(text) => {
            assert_eq!(text, "attempted to communicate with a crashed background worker")
        }
        other => panic!("{:?}", other),
    }
    match Failure::from(sqlx::Error::ColumnNotFound("age".to_string())) {
        Failure::Driver(text) => assert_eq!(text, "no column found for name: age"),
        other => panic!("{:?}", other),
    }
    match Failure::from(sqlx::Error::Protocol("bad frame".to_string())) {
        Failure::Driver(text) => assert_eq!(text, "encountered unexpected or invalid data: bad frame"),
        other => panic!("{:?}", other),
    }
}

#[test]
fn driver_errors_are_sorted_into_kinds() {
    match DatabaseError::from(server_error("relation \"t\" does not exist")) {
        DatabaseError::QueryError(detail) => assert_eq!(detail, "relation \"t\" does not exist"),
        other => panic!("{:?}", other),
    }
    match DatabaseError::from(sqlx::Error::Configuration("no host".into())) {
        DatabaseError::ConfigError(detail) => assert_eq!(detail, "no host"),
        other => panic!("{:?}", other),
    }
    match DatabaseError::from(io_error("broken pipe")) {
        DatabaseError::ConnectionError(detail) => assert_eq!(detail, "broken pipe"),
        other => panic!("{:?}", other),
    }
    match DatabaseError::from(sqlx::Error::Tls("bad certificate".into())) {
        DatabaseError::ConnectionError(detail) => assert_eq!(
            detail,
            "error occurred while attempting to establish a TLS connection: bad certificate"
        ),
        other => panic!("{:?}", other),
    }
    match DatabaseError::from(sqlx::Error::PoolClosed) {
        DatabaseError::ConnectionError(detail) => {
            assert_eq!(detail, "attempted to acquire a connection on a closed pool")
        }
        other => panic!("{:?}", other),
    }
    match DatabaseError::from(sqlx::Error::Decode("invalid utf-8".into())) {
        DatabaseError::ResultError(detail) => {
            assert_eq!(detail, "error occurred while decoding: invalid utf-8")
        }
        other => panic!("{:?}", other),
    }
    match DatabaseError::from(sqlx::Error::RowNotFound) {
        DatabaseError::Unknown(detail) => assert_eq!(
            detail,
            "no rows returned by a query that expected to return at least one row"
        ),
        other => panic!("{:?}", other),
    }
}

#[test]
fn driver_error_reaches_the_session_as_one_line() {
    let mut state: AppState<()> = AppState::new();
    state.query_failed(Failure::from(server_error("syntax error at or near SELECT")));
    assert_eq!(
        state.last_error.as_deref(),
        Some("Query error: syntax error at or near SELECT")
    );
    let error = DatabaseError::from(io_error("timed out"));
    assert_eq!(format_error(&error), "Connection error: timed out");
    let error = DatabaseError::from(sqlx::Error::Decode("invalid utf-8".into()));
    assert_eq!(
        format_error(&error),
        "Result error: error occurred while decoding: invalid utf-8"
    );
    let error = DatabaseError::from(sqlx::Error::WorkerCrashed);
    assert_eq!(
        format_error(&error),
        "Unknown error: attempted to communicate with a crashed background worker"
    );
}

#[test]
fn no_driver_rows_give_an_empty_result() {
    let result = QueryResult::new(Vec::new());
    assert_eq!(result.row_count(), 0);
    assert_eq!(result.columns(), Vec::<String>::new());
    assert_eq!(result.rows_as_strings(), Vec::<Vec<String>>::new());
}
