use vstd::prelude::*;
use vstd::string::{StrSliceExecFns, StringExecFns};

use crate::input::{InputHandler, InputState, Mode};
use crate::state::{AppState, Session};

verus! {

/// The character that marks the cursor in the query line: a full block.
pub const CURSOR_MARK: char = '\u{2588}';

/// The word that names a mode on the screen.
pub open spec fn mode_word(mode: Mode) -> Seq<char> {
    match mode {
        Mode::Normal => "NORMAL"@,
        Mode::Insert => "INSERT"@,
    }
}

/// The query line as it is shown: its characters with the cursor mark put
/// in at the cursor.
pub open spec fn marked_line(input: InputState) -> Seq<char> {
    input.content.insert(input.cursor as int, CURSOR_MARK)
}

/// What the results panel says while there is no table: the error line
/// behind `Error: `, else the status line, else that there are no results.
pub open spec fn results_line<C>(session: Session<C>) -> Seq<char> {
    match session.last_error {
        Some(error) => "Error: "@ + error,
        None => match session.status_message {
            Some(message) => message,
            None => "No query results yet"@,
        },
    }
}

/// The name shown for the database: the selected one, else `Not Connected`.
pub open spec fn database_name<C>(session: Session<C>) -> Seq<char> {
    match session.current_database {
        Some(name) => name,
        None => "Not Connected"@,
    }
}

/// The name shown for the schema: the selected one, else `public`.
pub open spec fn schema_name<C>(session: Session<C>) -> Seq<char> {
    match session.current_schema {
        Some(name) => name,
        None => "public"@,
    }
}

/// The word that names the mode on the screen.
pub fn mode_indicator(mode: Mode) -> (word: &'static str)
    ensures
        word@ == mode_word(mode),
{
    match mode {
        Mode::Normal => "NORMAL",
        Mode::Insert => "INSERT",
    }
}

/// The query line with the cursor mark at the cursor.
pub fn input_text(input: &InputHandler) -> (text: String)
    ensures
        text@ == marked_line(input@),
{
    let line = input.buffer();
    let cursor = input.cursor_position();
    let end = input.len();
    let mut text = String::from_str(line.substring_char(0, cursor));
    text.push(CURSOR_MARK);
    text.append(line.substring_char(cursor, end));
    assert(text@ =~= marked_line(input@));
    text
}

/// What the results panel says while there is no table.
pub fn results_message<C>(state: &AppState<C>) -> (line: String)
    ensures
        line@ == results_line(state@),
{
    match &state.last_error {
        Some(error) => {
            let mut line = String::from_str("Error: ");
            line.append(error.as_str());
            line
        },
        None => match &state.status_message {
            Some(message) => message.clone(),
            None => String::from_str("No query results yet"),
        },
    }
}

/// The name shown for the database.
pub fn database_label<C>(state: &AppState<C>) -> (name: &str)
    ensures
        name@ == database_name(state@),
{
    match &state.current_database {
        Some(name) => name.as_str(),
        None => "Not Connected",
    }
}

/// The name shown for the schema.
pub fn schema_label<C>(state: &AppState<C>) -> (name: &str)
    ensures
        name@ == schema_name(state@),
{
    match &state.current_schema {
        Some(name) => name.as_str(),
        None => "public",
    }
}

/// The share of the width, in percent, that each of `column_count` columns
/// of a table gets: 100 divided by the count as it fits in sixteen bits.
pub fn column_width(column_count: usize) -> (percent: u16)
    requires
        column_count % 0x10000 != 0,
    ensures
        percent == 100int / (column_count % 0x10000) as int,
{
    let count: u16 = (column_count % 0x10000) as u16;
    100 / count
}

} // verus!
