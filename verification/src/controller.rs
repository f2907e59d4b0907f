use vstd::prelude::*;

use crate::database::{Failure, Field, QueryResult};
use crate::input::{InputState, Mode};
use crate::keys::{Key, Modifiers};
use crate::state::{outcome_view, AppState, Session};

verus! {

/// What an `App` stands for: the session and whether the program is to end.
pub struct Controller<C> {
    /// The session.
    pub state: Session<C>,
    /// Whether the user asked to leave.
    pub should_quit: bool,
}

impl<C> Controller<C> {
    /// A fresh session that is not about to end.
    pub open spec fn initial() -> Controller<C> {
        Controller { state: Session::initial(), should_quit: false }
    }

    /// The same controller with another query line.
    pub open spec fn with_input(self, input: InputState) -> Controller<C> {
        Controller { state: Session { input, ..self.state }, ..self }
    }

    /// The same controller with another session.
    pub open spec fn with_state(self, state: Session<C>) -> Controller<C> {
        Controller { state, ..self }
    }

    /// The controller asked to end the program.
    pub open spec fn quit(self) -> Controller<C> {
        Controller { should_quit: true, ..self }
    }

    /// The controller after the query line was submitted: the line is
    /// empty, and without a connection the session says so.
    pub open spec fn submit(self) -> Controller<C> {
        let cleared = Session { input: self.state.input.clear_buffer(), ..self.state };
        self.with_state(cleared.execute_query())
    }

    /// What a key does in `Normal` mode: `q` ends the program, and so does
    /// `c` with Control alone; `i` changes to `Insert` mode; `r` drops the
    /// table; every other key does nothing.
    pub open spec fn handle_normal_mode(self, key: Key, modifiers: Modifiers) -> Controller<C> {
        match key {
            Key::Char(c) => {
                if c == 'q' {
                    self.quit()
                } else if c == 'i' {
                    self.with_input(self.state.input.toggle_mode())
                } else if c == 'c' && modifiers.is_control() {
                    self.quit()
                } else if c == 'r' {
                    self.with_state(self.state.clear_results())
                } else {
                    self
                }
            },
            _ => self,
        }
    }

    /// What a key does in `Insert` mode. Esc changes to `Normal` mode.
    /// Enter submits the line, and changes to `Normal` mode unless Control
    /// alone or Alt alone is held. `a` and `e` with Control alone move the
    /// cursor to the start and to the end, as Home and End do. Any other
    /// character enters the line. Backspace and Delete delete, the arrows
    /// move the cursor, and every other key does nothing.
    pub open spec fn handle_insert_mode(self, key: Key, modifiers: Modifiers) -> Controller<C> {
        let input = self.state.input;
        match key {
            Key::Esc => self.with_input(input.toggle_mode()),
            Key::Enter => {
                let submitted = self.submit();
                if modifiers.is_control() || modifiers.is_alt() {
                    submitted
                } else {
                    submitted.with_input(submitted.state.input.toggle_mode())
                }
            },
            Key::Char(c) => {
                if c == 'a' && modifiers.is_control() {
                    self.with_input(input.move_cursor_to_start())
                } else if c == 'e' && modifiers.is_control() {
                    self.with_input(input.move_cursor_to_end())
                } else {
                    self.with_input(input.insert_char(c))
                }
            },
            Key::Backspace => self.with_input(input.delete_char()),
            Key::Delete => self.with_input(input.delete_forward()),
            Key::Left => self.with_input(input.move_cursor_left()),
            Key::Right => self.with_input(input.move_cursor_right()),
            Key::Home => self.with_input(input.move_cursor_to_start()),
            Key::End => self.with_input(input.move_cursor_to_end()),
            Key::Other => self,
        }
    }

    /// What a key does, by the active mode.
    pub open spec fn handle_input(self, key: Key, modifiers: Modifiers) -> Controller<C> {
        match self.state.input.mode {
            Mode::Normal => self.handle_normal_mode(key, modifiers),
            Mode::Insert => self.handle_insert_mode(key, modifiers),
        }
    }

    /// The statement that a key asks to have run: the text of the line,
    /// when Enter is pressed in `Insert` mode while there is a connection.
    pub open spec fn pending(self, key: Key) -> Option<Seq<char>> {
        if self.state.input.mode == Mode::Insert && key == Key::Enter
            && self.state.db_manager is Some {
            Some(self.state.input.content)
        } else {
            None
        }
    }

    /// The controller after a statement ended.
    pub open spec fn complete_query(
        self,
        outcome: Result<Seq<Seq<Field>>, Failure>,
        execution_time: u128,
    ) -> Controller<C> {
        self.with_state(self.state.complete_query(outcome, execution_time))
    }

    /// No key brings a status line and an error line together, and no key
    /// moves the cursor out of the line.
    pub proof fn lemma_keys_keep_invariants(self, key: Key, modifiers: Modifiers)
        requires
            self.state.exclusive(),
            self.state.input.valid(),
        ensures
            self.handle_input(key, modifiers).state.exclusive(),
            self.handle_input(key, modifiers).state.input.valid(),
    {
    }

    /// Enter in `Insert` mode empties the line and puts the cursor at its
    /// start. With Control alone, or Alt alone, the mode stays `Insert`;
    /// with any other modifiers it becomes `Normal`.
    pub proof fn lemma_enter_in_insert_mode(self, modifiers: Modifiers)
        requires
            self.state.input.mode == Mode::Insert,
        ensures
            self.handle_input(Key::Enter, modifiers).state.input.content == Seq::<char>::empty(),
            self.handle_input(Key::Enter, modifiers).state.input.cursor == 0,
            modifiers.is_control() || modifiers.is_alt() ==> self.handle_input(
                Key::Enter,
                modifiers,
            ).state.input.mode == Mode::Insert,
            !modifiers.is_control() && !modifiers.is_alt() ==> self.handle_input(
                Key::Enter,
                modifiers,
            ).state.input.mode == Mode::Normal,
    {
    }

    /// Enter in `Insert` mode without a connection reports that there is
    /// none, asks for nothing to be run, and leaves the table as it was.
    pub proof fn lemma_enter_without_connection(self, modifiers: Modifiers)
        requires
            self.state.input.mode == Mode::Insert,
            self.state.db_manager is None,
        ensures
            self.pending(Key::Enter) is None,
            self.handle_input(Key::Enter, modifiers).state.last_error == Some(
                crate::state::not_connected_line(),
            ),
            self.handle_input(Key::Enter, modifiers).state.status_message is None,
            self.handle_input(Key::Enter, modifiers).state.query_result == self.state.query_result,
    {
    }

    /// Entering `Insert` mode and leaving it again changes nothing: the
    /// line and the cursor are as they were.
    pub proof fn lemma_enter_and_leave_insert_mode(self, first: Modifiers, second: Modifiers)
        requires
            self.state.input.mode == Mode::Normal,
        ensures
            self.handle_input(Key::Char('i'), first).handle_input(Key::Esc, second) == self,
    {
        let entered = self.handle_input(Key::Char('i'), first);
        assert(entered.state.input.mode == Mode::Insert);
        self.state.input.lemma_toggle_mode_twice();
    }

    /// Delete with the cursor behind the last character changes nothing.
    pub proof fn lemma_delete_at_end(self, modifiers: Modifiers)
        requires
            self.state.input.mode == Mode::Insert,
            self.state.input.cursor == self.state.input.content.len(),
        ensures
            self.handle_input(Key::Delete, modifiers) == self,
    {
    }

    /// Home, and `a` with Control alone, put the cursor at 0; End, and `e`
    /// with Control alone, put it behind the last character; wherever it
    /// was, and the line stays.
    pub proof fn lemma_home_and_end(self, modifiers: Modifiers)
        requires
            self.state.input.mode == Mode::Insert,
        ensures
            self.handle_input(Key::Home, modifiers).state.input.cursor == 0,
            self.handle_input(Key::Home, modifiers).state.input.content
                == self.state.input.content,
            self.handle_input(Key::End, modifiers).state.input.cursor
                == self.state.input.content.len(),
            self.handle_input(Key::End, modifiers).state.input.content
                == self.state.input.content,
            modifiers.is_control() ==> self.handle_input(Key::Char('a'), modifiers)
                == self.handle_input(Key::Home, modifiers),
            modifiers.is_control() ==> self.handle_input(Key::Char('e'), modifiers)
                == self.handle_input(Key::End, modifiers),
    {
    }
}

/// The session controller: it takes key presses and the outcome of
/// statements, and keeps the session.
#[derive(Debug)]
pub struct App<C> {
    /// The session.
    state: AppState<C>,
    /// Whether the user asked to leave.
    should_quit: bool,
}

impl<C> View for App<C> {
    type V = Controller<C>;

    closed spec fn view(&self) -> Controller<C> {
        Controller { state: self.state@, should_quit: self.should_quit }
    }
}

impl<C> App<C> {
    /// A controller with a fresh session.
    pub fn new() -> (app: Self)
        ensures
            app@ == Controller::<C>::initial(),
    {
        App { state: AppState::new(), should_quit: false }
    }

    /// The session, to be read.
    pub fn state(&self) -> (state: &AppState<C>)
        ensures
            state@ == self@.state,
    {
        &self.state
    }

    /// Whether the user asked to leave.
    pub fn should_quit(&self) -> (quit: bool)
        ensures
            quit == self@.should_quit,
    {
        self.should_quit
    }

    /// Takes over the connection that was made.
    pub fn init_database(&mut self, connection: C)
        ensures
            final(self)@ == old(self)@.with_state(old(self)@.state.init_database(connection)),
    {
        self.state.init_database(connection);
    }

    /// Handles one key press. Where the key submits a statement and there
    /// is a connection, the statement comes back: the caller runs it and
    /// reports the outcome with `complete_query`. The line is empty and the
    /// mode is what it will be by then; recording the outcome touches
    /// neither.
    pub fn handle_input(&mut self, key: Key, modifiers: Modifiers) -> (pending: Option<String>)
        ensures
            final(self)@ == old(self)@.handle_input(key, modifiers),
            pending.deep_view() == old(self)@.pending(key),
    {
        match self.state.mode() {
            Mode::Normal => {
                self.handle_normal_mode(key, modifiers);
                None
            },
            Mode::Insert => self.handle_insert_mode(key, modifiers),
        }
    }

    /// Handles one key press in `Normal` mode.
    fn handle_normal_mode(&mut self, key: Key, modifiers: Modifiers)
        requires
            old(self)@.state.input.mode == Mode::Normal,
        ensures
            final(self)@ == old(self)@.handle_normal_mode(key, modifiers),
    {
        match key {
            Key::Char(c) => {
                if c == 'q' {
                    self.should_quit = true;
                } else if c == 'i' {
                    self.state.input.toggle_mode();
                } else if c == 'c' && modifiers.only_control() {
                    self.should_quit = true;
                } else if c == 'r' {
                    self.state.clear_results();
                }
            },
            _ => {},
        }
    }

    /// Handles one key press in `Insert` mode.
    fn handle_insert_mode(&mut self, key: Key, modifiers: Modifiers) -> (pending: Option<String>)
        requires
            old(self)@.state.input.mode == Mode::Insert,
        ensures
            final(self)@ == old(self)@.handle_insert_mode(key, modifiers),
            pending.deep_view() == old(self)@.pending(key),
    {
        match key {
            Key::Esc => {
                self.state.input.toggle_mode();
                None
            },
            Key::Enter => {
                let query = self.state.input.take_buffer();
                let pending = self.state.execute_query(query);
                if !(modifiers.only_control() || modifiers.only_alt()) {
                    self.state.input.toggle_mode();
                }
                pending
            },
            Key::Char(c) => {
                if c == 'a' && modifiers.only_control() {
                    self.state.input.move_cursor_to_start();
                } else if c == 'e' && modifiers.only_control() {
                    self.state.input.move_cursor_to_end();
                } else {
                    self.state.input.insert_char(c);
                }
                None
            },
            Key::Backspace => {
                self.state.input.delete_char();
                None
            },
            Key::Delete => {
                self.state.input.delete_forward();
                None
            },
            Key::Left => {
                self.state.input.move_cursor_left();
                None
            },
            Key::Right => {
                self.state.input.move_cursor_right();
                None
            },
            Key::Home => {
                self.state.input.move_cursor_to_start();
                None
            },
            Key::End => {
                self.state.input.move_cursor_to_end();
                None
            },
            Key::Other => None,
        }
    }

    /// Records how the statement that `handle_input` handed out ended: the
    /// rows it gave, or the failure, and the milliseconds it took.
    pub fn complete_query(&mut self, outcome: Result<QueryResult, Failure>, execution_time: u128)
        ensures
            final(self)@ == old(self)@.complete_query(outcome_view(outcome), execution_time),
    {
        self.state.complete_query(outcome, execution_time);
    }
}

} // verus!
