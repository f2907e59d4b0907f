use vstd::prelude::*;
use vstd::string::StringExecFns;

use crate::database::{uniform, DatabaseError, Failure, Field};
use crate::input::{InputHandler, InputState, Mode};
use crate::query::{error_line, format_error, format_success, success_line, QueryResult, Table};

verus! {

/// What an `AppState` stands for. `C` is the handle of the connection.
pub struct Session<C> {
    /// The query line and the mode.
    pub input: InputState,
    /// The name of the selected database.
    pub current_database: Option<Seq<char>>,
    /// The name of the selected schema.
    pub current_schema: Option<Seq<char>>,
    /// The connection, while there is one.
    pub db_manager: Option<C>,
    /// The table that the last successful statement gave.
    pub query_result: Option<Table>,
    /// The line that reports what happened last, if it went well.
    pub status_message: Option<Seq<char>>,
    /// The line that reports what happened last, if it failed.
    pub last_error: Option<Seq<char>>,
}

/// The line shown for a statement that was submitted without a connection.
pub open spec fn not_connected_line() -> Seq<char> {
    "Not connected to database"@
}

/// How a statement ended, with the rows it gave as what they stand for.
pub open spec fn outcome_view(outcome: Result<crate::database::QueryResult, Failure>) -> Result<
    Seq<Seq<Field>>,
    Failure,
> {
    match outcome {
        Ok(result) => Ok(result@),
        Err(failure) => Err(failure),
    }
}

impl<C> Session<C> {
    /// A fresh session: an empty line in `Normal` mode and nothing else.
    pub open spec fn initial() -> Session<C> {
        Session {
            input: InputState::initial(),
            current_database: None,
            current_schema: None,
            db_manager: None,
            query_result: None,
            status_message: None,
            last_error: None,
        }
    }

    /// A status line and an error line are never shown together.
    pub open spec fn exclusive(self) -> bool {
        !(self.status_message is Some && self.last_error is Some)
    }

    /// The session with `database` selected.
    pub open spec fn set_database(self, database: Seq<char>) -> Session<C> {
        Session { current_database: Some(database), ..self }
    }

    /// The session with `schema` selected.
    pub open spec fn set_schema(self, schema: Seq<char>) -> Session<C> {
        Session { current_schema: Some(schema), ..self }
    }

    /// The session reporting `message`; any error line is gone.
    pub open spec fn set_status(self, message: Seq<char>) -> Session<C> {
        Session { status_message: Some(message), last_error: None, ..self }
    }

    /// The session reporting the failure `error`; any status line is gone.
    pub open spec fn set_error(self, error: Seq<char>) -> Session<C> {
        Session { last_error: Some(error), status_message: None, ..self }
    }

    /// The session holding `connection`.
    pub open spec fn init_database(self, connection: C) -> Session<C> {
        Session { db_manager: Some(connection), ..self }
    }

    /// The session without its table, saying so.
    pub open spec fn clear_results(self) -> Session<C> {
        Session { query_result: None, ..self }.set_status("Results cleared"@)
    }

    /// The session after a statement was submitted: unchanged while there
    /// is a connection, and reporting that there is none otherwise.
    pub open spec fn execute_query(self) -> Session<C> {
        if self.db_manager is Some {
            self
        } else {
            self.set_error(not_connected_line())
        }
    }

    /// The session after a statement gave `rows` in `execution_time`
    /// milliseconds: it holds the table of these rows and reports the time
    /// and the number of rows.
    pub open spec fn query_succeeded(self, rows: Seq<Seq<Field>>, execution_time: u128) -> Session<
        C,
    > {
        Session {
            query_result: Some(Table::of_rows(rows, execution_time)),
            ..self
        }.set_status(success_line(execution_time as nat, rows.len()))
    }

    /// The session after a statement failed: it reports the failure under
    /// its kind, and keeps the table it had.
    pub open spec fn query_failed(self, failure: Failure) -> Session<C> {
        self.set_error(error_line(&failure.classify()))
    }

    /// The session after a statement ended, well or badly.
    pub open spec fn complete_query(
        self,
        outcome: Result<Seq<Seq<Field>>, Failure>,
        execution_time: u128,
    ) -> Session<C> {
        match outcome {
            Ok(rows) => self.query_succeeded(rows, execution_time),
            Err(failure) => self.query_failed(failure),
        }
    }

    /// Reporting a status removes the error line, reporting an error
    /// removes the status line, and either way the two are not shown
    /// together.
    pub proof fn lemma_status_and_error_exclude(self, line: Seq<char>)
        ensures
            self.set_status(line).status_message == Some(line),
            self.set_status(line).last_error is None,
            self.set_error(line).last_error == Some(line),
            self.set_error(line).status_message is None,
            self.set_status(line).exclusive(),
            self.set_error(line).exclusive(),
    {
    }

    /// No operation on a session brings a status line and an error line
    /// together.
    pub proof fn lemma_operations_keep_exclusive(
        self,
        name: Seq<char>,
        connection: C,
        outcome: Result<Seq<Seq<Field>>, Failure>,
        execution_time: u128,
    )
        requires
            self.exclusive(),
        ensures
            Session::<C>::initial().exclusive(),
            self.set_database(name).exclusive(),
            self.set_schema(name).exclusive(),
            self.init_database(connection).exclusive(),
            self.clear_results().exclusive(),
            self.execute_query().exclusive(),
            self.complete_query(outcome, execution_time).exclusive(),
    {
    }

    /// A statement submitted without a connection is answered with the
    /// error line that says so, and the table stays as it was.
    pub proof fn lemma_submit_without_connection(self)
        requires
            self.db_manager is None,
        ensures
            self.execute_query().last_error == Some(not_connected_line()),
            self.execute_query().status_message is None,
            self.execute_query().query_result == self.query_result,
    {
    }

    /// A statement that fails leaves the table as it was.
    pub proof fn lemma_failure_keeps_result(self, failure: Failure)
        ensures
            self.query_failed(failure).query_result == self.query_result,
            self.query_failed(failure).last_error == Some(error_line(&failure.classify())),
    {
    }
}

/// The state of a session. `C` is the handle of the connection to the
/// database; the session owns it and never looks inside.
#[derive(Debug)]
pub struct AppState<C> {
    /// The query line and the mode.
    pub input: InputHandler,
    /// The name of the selected database.
    pub current_database: Option<String>,
    /// The name of the selected schema.
    pub current_schema: Option<String>,
    /// The connection, once one has been made.
    pub db_manager: Option<C>,
    /// The table that the last successful statement gave.
    pub query_result: Option<QueryResult>,
    /// What to report, if the last thing went well.
    pub status_message: Option<String>,
    /// What to report, if the last thing failed.
    pub last_error: Option<String>,
}

impl<C> View for AppState<C> {
    type V = Session<C>;

    open spec fn view(&self) -> Session<C> {
        Session {
            input: self.input@,
            current_database: self.current_database.deep_view(),
            current_schema: self.current_schema.deep_view(),
            db_manager: self.db_manager,
            query_result: match self.query_result {
                Some(result) => Some(result@),
                None => None,
            },
            status_message: self.status_message.deep_view(),
            last_error: self.last_error.deep_view(),
        }
    }
}

impl<C> AppState<C> {
    /// A fresh session: an empty line in `Normal` mode, no connection, no
    /// table and nothing to report.
    pub fn new() -> (state: Self)
        ensures
            state@ == Session::<C>::initial(),
    {
        AppState {
            input: InputHandler::new(),
            current_database: None,
            current_schema: None,
            db_manager: None,
            query_result: None,
            status_message: None,
            last_error: None,
        }
    }

    /// Selects a database.
    pub fn set_database(&mut self, database: String)
        ensures
            final(self)@ == old(self)@.set_database(database@),
    {
        self.current_database = Some(database);
    }

    /// Selects a schema.
    pub fn set_schema(&mut self, schema: String)
        ensures
            final(self)@ == old(self)@.set_schema(schema@),
    {
        self.current_schema = Some(schema);
    }

    /// Reports `message` and drops any error line.
    pub fn set_status(&mut self, message: String)
        ensures
            final(self)@ == old(self)@.set_status(message@),
            final(self)@.exclusive(),
    {
        self.status_message = Some(message);
        self.last_error = None;
    }

    /// Reports the failure `error` and drops any status line.
    pub fn set_error(&mut self, error: String)
        ensures
            final(self)@ == old(self)@.set_error(error@),
            final(self)@.exclusive(),
    {
        self.last_error = Some(error);
        self.status_message = None;
    }

    /// Takes over the connection that was made.
    pub fn init_database(&mut self, connection: C)
        ensures
            final(self)@ == old(self)@.init_database(connection),
    {
        self.db_manager = Some(connection);
    }

    /// The active mode.
    pub fn mode(&self) -> (mode: Mode)
        ensures
            mode == self@.input.mode,
    {
        self.input.mode()
    }

    /// Drops the table and says so.
    pub fn clear_results(&mut self)
        ensures
            final(self)@ == old(self)@.clear_results(),
            final(self)@.exclusive(),
    {
        self.query_result = None;
        self.set_status(String::from_str("Results cleared"));
    }

    /// Takes a statement that was submitted. With a connection the
    /// statement comes back, to be run on that connection, and the session
    /// stays as it is until `complete_query` brings the outcome. Without
    /// one nothing is to be run, and the session reports that it is not
    /// connected.
    pub fn execute_query(&mut self, query: String) -> (pending: Option<String>)
        ensures
            final(self)@ == old(self)@.execute_query(),
            old(self)@.db_manager is Some ==> pending == Some(query),
            old(self)@.db_manager is None ==> pending is None,
            old(self)@.exclusive() ==> final(self)@.exclusive(),
    {
        if self.db_manager.is_some() {
            Some(query)
        } else {
            self.set_error(String::from_str("Not connected to database"));
            None
        }
    }

    /// Records that a statement went through in `execution_time`
    /// milliseconds and gave `result`.
    pub fn query_succeeded(&mut self, result: crate::database::QueryResult, execution_time: u128)
        ensures
            final(self)@ == old(self)@.query_succeeded(result@, execution_time),
            final(self)@.exclusive(),
            uniform(result@) ==> final(self)@.query_result->0.well_formed(),
    {
        proof {
            if uniform(result@) {
                Table::lemma_of_rows_well_formed(result@, execution_time);
            }
        }
        let headers = result.columns();
        let rows = result.rows_as_strings();
        let row_count = rows.len();
        assert(rows.deep_view().len() == result@.len());
        self.query_result = Some(QueryResult::new(headers, rows, None, execution_time));
        self.set_status(format_success(execution_time, row_count));
    }

    /// Records that a statement failed.
    pub fn query_failed(&mut self, failure: Failure)
        ensures
            final(self)@ == old(self)@.query_failed(failure),
            final(self)@.exclusive(),
    {
        let error = DatabaseError::from(failure);
        self.set_error(format_error(&error));
    }

    /// Records how a statement ended: the rows it gave, or the failure, and
    /// the milliseconds it took.
    pub fn complete_query(
        &mut self,
        outcome: Result<crate::database::QueryResult, Failure>,
        execution_time: u128,
    )
        ensures
            final(self)@ == old(self)@.complete_query(outcome_view(outcome), execution_time),
            final(self)@.exclusive(),
    {
        match outcome {
            Ok(result) => self.query_succeeded(result, execution_time),
            Err(failure) => self.query_failed(failure),
        }
    }
}

} // verus!
