use vstd::prelude::*;
use vstd::string::{StrSliceExecFns, StringExecFns};

verus! {

/// The two modes of the session.
#[derive(Debug, Clone, Copy, PartialEq, Eq, Structural)]
pub enum Mode {
    /// Keys are commands.
    Normal,
    /// Keys edit the query line.
    Insert,
}

impl Mode {
    /// The other mode.
    pub open spec fn toggled(self) -> Mode {
        match self {
            Mode::Normal => Mode::Insert,
            Mode::Insert => Mode::Normal,
        }
    }
}

/// What an `InputHandler` stands for: the characters of the query line, the
/// offset of the cursor among them, and the mode.
pub struct InputState {
    /// The characters of the line, first to last.
    pub content: Seq<char>,
    /// How many characters stand before the cursor.
    pub cursor: nat,
    /// The active mode.
    pub mode: Mode,
}

impl InputState {
    /// The cursor stands inside the line or just behind its last character.
    pub open spec fn valid(self) -> bool {
        self.cursor <= self.content.len()
    }

    /// An empty line in `Normal` mode.
    pub open spec fn initial() -> InputState {
        InputState { content: Seq::empty(), cursor: 0, mode: Mode::Normal }
    }

    /// The other mode; line and cursor stay.
    pub open spec fn toggle_mode(self) -> InputState {
        InputState { mode: self.mode.toggled(), ..self }
    }

    /// `c` enters the line at the cursor, and the cursor moves behind it.
    pub open spec fn insert_char(self, c: char) -> InputState {
        InputState {
            content: self.content.insert(self.cursor as int, c),
            cursor: self.cursor + 1,
            ..self
        }
    }

    /// The character before the cursor leaves the line and the cursor takes
    /// its place; nothing happens at the start of the line.
    pub open spec fn delete_char(self) -> InputState {
        if self.cursor > 0 {
            InputState {
                content: self.content.remove(self.cursor - 1),
                cursor: (self.cursor - 1) as nat,
                ..self
            }
        } else {
            self
        }
    }

    /// The character at the cursor leaves the line and the cursor stays;
    /// nothing happens behind the last character.
    pub open spec fn delete_forward(self) -> InputState {
        if self.cursor < self.content.len() {
            InputState { content: self.content.remove(self.cursor as int), ..self }
        } else {
            self
        }
    }

    /// One character to the left, unless the cursor is at the start.
    pub open spec fn move_cursor_left(self) -> InputState {
        if self.cursor > 0 {
            InputState { cursor: (self.cursor - 1) as nat, ..self }
        } else {
            self
        }
    }

    /// One character to the right, unless the cursor is behind the last
    /// character.
    pub open spec fn move_cursor_right(self) -> InputState {
        if self.cursor < self.content.len() {
            InputState { cursor: self.cursor + 1, ..self }
        } else {
            self
        }
    }

    /// The cursor before the first character.
    pub open spec fn move_cursor_to_start(self) -> InputState {
        InputState { cursor: 0, ..self }
    }

    /// The cursor behind the last character.
    pub open spec fn move_cursor_to_end(self) -> InputState {
        InputState { cursor: self.content.len(), ..self }
    }

    /// An empty line with the cursor at its start; the mode stays.
    pub open spec fn clear_buffer(self) -> InputState {
        InputState { content: Seq::empty(), cursor: 0, ..self }
    }
}

/// One editing operation on the query line.
pub enum Edit {
    /// Insert the character at the cursor.
    Insert(char),
    /// Delete the character before the cursor.
    DeleteBackward,
    /// Delete the character at the cursor.
    DeleteForward,
    /// Move the cursor one character to the left.
    Left,
    /// Move the cursor one character to the right.
    Right,
    /// Move the cursor to the start of the line.
    Start,
    /// Move the cursor behind the last character.
    End,
    /// Empty the line.
    Clear,
    /// Change the mode.
    ToggleMode,
}

impl InputState {
    /// The state after one editing operation.
    pub open spec fn apply(self, edit: Edit) -> InputState {
        match edit {
            Edit::Insert(c) => self.insert_char(c),
            Edit::DeleteBackward => self.delete_char(),
            Edit::DeleteForward => self.delete_forward(),
            Edit::Left => self.move_cursor_left(),
            Edit::Right => self.move_cursor_right(),
            Edit::Start => self.move_cursor_to_start(),
            Edit::End => self.move_cursor_to_end(),
            Edit::Clear => self.clear_buffer(),
            Edit::ToggleMode => self.toggle_mode(),
        }
    }

    /// The state after the operations of `edits`, first to last.
    pub open spec fn apply_all(self, edits: Seq<Edit>) -> InputState
        decreases edits.len(),
    {
        if edits.len() == 0 {
            self
        } else {
            self.apply_all(edits.drop_last()).apply(edits.last())
        }
    }

    /// One operation keeps the cursor within the line.
    pub proof fn lemma_apply_valid(self, edit: Edit)
        requires
            self.valid(),
        ensures
            self.apply(edit).valid(),
    {
    }

    /// Through any sequence of editing operations the cursor stays within
    /// the line: after each of them it is at most the length of the line.
    pub proof fn lemma_cursor_stays_in_bounds(self, edits: Seq<Edit>)
        requires
            self.valid(),
        ensures
            forall|n: int|
                0 <= n <= edits.len() ==> (#[trigger] self.apply_all(edits.take(n))).valid(),
        decreases edits.len(),
    {
        assert forall|n: int| 0 <= n <= edits.len() implies (#[trigger] self.apply_all(
            edits.take(n),
        )).valid() by {
            if n == 0 {
                assert(edits.take(0).len() == 0);
            } else {
                let head = edits.take(n - 1);
                self.lemma_cursor_stays_in_bounds(head);
                assert(head.take(n - 1) =~= head);
                assert(edits.take(n).drop_last() =~= head);
                self.apply_all(head).lemma_apply_valid(edits.take(n).last());
            }
        }
    }

    /// Changing the mode twice gives back the state it started from: the
    /// mode, the line and the cursor.
    pub proof fn lemma_toggle_mode_twice(self)
        ensures
            self.toggle_mode().toggle_mode() == self,
    {
    }

    /// Once the line has been taken, taking it again yields the empty text
    /// and changes nothing: the line stays empty and the cursor at 0.
    pub proof fn lemma_take_buffer_twice(self)
        ensures
            self.clear_buffer().content == Seq::<char>::empty(),
            self.clear_buffer().cursor == 0,
            self.clear_buffer().clear_buffer() == self.clear_buffer(),
    {
    }

    /// Deleting forward with the cursor behind the last character changes
    /// nothing.
    pub proof fn lemma_delete_forward_at_end(self)
        requires
            self.cursor == self.content.len(),
        ensures
            self.delete_forward() == self,
    {
    }

    /// Where there is a character at the cursor, deleting forward is moving
    /// right and then deleting backward.
    pub proof fn lemma_delete_forward_by_steps(self)
        requires
            self.cursor < self.content.len(),
        ensures
            self.delete_forward() == self.move_cursor_right().delete_char(),
    {
    }

    /// From any cursor position, moving to the start lands at 0 and moving
    /// to the end lands at the length of the line; the line stays.
    pub proof fn lemma_start_and_end(self)
        ensures
            self.move_cursor_to_start().cursor == 0,
            self.move_cursor_to_end().cursor == self.content.len(),
            self.move_cursor_to_start().content == self.content,
            self.move_cursor_to_end().content == self.content,
    {
    }
}

/// The query line with its cursor, and the mode of the session.
#[derive(Debug)]
pub struct InputHandler {
    /// The text of the line.
    buffer: String,
    /// How many characters stand before the cursor.
    cursor_position: usize,
    /// The active mode.
    mode: Mode,
}

impl View for InputHandler {
    type V = InputState;

    closed spec fn view(&self) -> InputState {
        InputState {
            content: self.buffer@,
            cursor: self.cursor_position as nat,
            mode: self.mode,
        }
    }
}

impl Default for InputHandler {
    fn default() -> (handler: Self)
        ensures
            handler@ == InputState::initial(),
    {
        InputHandler { buffer: String::new(), cursor_position: 0, mode: Mode::Normal }
    }
}

impl InputHandler {
    #[verifier::type_invariant]
    spec fn cursor_in_bounds(self) -> bool {
        self.cursor_position <= self.buffer@.len()
    }

    /// An empty line in `Normal` mode.
    pub fn new() -> (handler: Self)
        ensures
            handler@ == InputState::initial(),
    {
        InputHandler { buffer: String::new(), cursor_position: 0, mode: Mode::Normal }
    }

    /// The text of the line.
    pub fn buffer(&self) -> (text: &str)
        ensures
            text@ == self@.content,
    {
        self.buffer.as_str()
    }

    /// The number of characters in the line.
    pub fn len(&self) -> (n: usize)
        ensures
            n == self@.content.len(),
            self@.valid(),
    {
        proof {
            use_type_invariant(self);
        }
        self.buffer.as_str().unicode_len()
    }

    /// The offset of the cursor, counted in characters.
    pub fn cursor_position(&self) -> (position: usize)
        ensures
            position == self@.cursor,
            self@.valid(),
    {
        proof {
            use_type_invariant(self);
        }
        self.cursor_position
    }

    /// The active mode.
    pub fn mode(&self) -> (mode: Mode)
        ensures
            mode == self@.mode,
    {
        self.mode
    }

    /// Changes from `Normal` to `Insert` mode or back.
    pub fn toggle_mode(&mut self)
        ensures
            final(self)@ == old(self)@.toggle_mode(),
            final(self)@.valid(),
    {
        proof {
            use_type_invariant(&*self);
        }
        self.mode = match self.mode {
            Mode::Normal => Mode::Insert,
            Mode::Insert => Mode::Normal,
        };
    }

    /// Inserts `c` at the cursor and moves the cursor behind it.
    pub fn insert_char(&mut self, c: char)
        ensures
            final(self)@ == old(self)@.insert_char(c),
            final(self)@.valid(),
    {
        let at = self.cursor_position();
        let end = self.len();
        let line = self.buffer.as_str();
        let mut text = String::from_str(line.substring_char(0, at));
        text.push(c);
        text.append(line.substring_char(at, end));
        assert(text@ =~= old(self)@.content.insert(at as int, c));
        self.buffer = text;
        let longer = self.len();
        assert(at < longer);
        self.cursor_position = at + 1;
    }

    /// Deletes the character before the cursor, if there is one.
    pub fn delete_char(&mut self)
        ensures
            final(self)@ == old(self)@.delete_char(),
            final(self)@.valid(),
    {
        let at = self.cursor_position();
        if at > 0 {
            let end = self.len();
            let line = self.buffer.as_str();
            let mut text = String::from_str(line.substring_char(0, at - 1));
            text.append(line.substring_char(at, end));
            assert(text@ =~= old(self)@.content.remove(at - 1));
            self.cursor_position = at - 1;
            self.buffer = text;
        }
    }

    /// Deletes the character at the cursor, if there is one.
    pub fn delete_forward(&mut self)
        ensures
            final(self)@ == old(self)@.delete_forward(),
            final(self)@.valid(),
    {
        if self.cursor_position() < self.len() {
            proof {
                old(self)@.lemma_delete_forward_by_steps();
            }
            self.move_cursor_right();
            self.delete_char();
        }
    }

    /// Moves the cursor one character to the left; it stops at the start.
    pub fn move_cursor_left(&mut self)
        ensures
            final(self)@ == old(self)@.move_cursor_left(),
            final(self)@.valid(),
    {
        proof {
            use_type_invariant(&*self);
        }
        if self.cursor_position > 0 {
            self.cursor_position = self.cursor_position - 1;
        }
    }

    /// Moves the cursor one character to the right; it stops behind the
    /// last character.
    pub fn move_cursor_right(&mut self)
        ensures
            final(self)@ == old(self)@.move_cursor_right(),
            final(self)@.valid(),
    {
        if self.cursor_position() < self.len() {
            self.cursor_position = self.cursor_position + 1;
        }
    }

    /// Moves the cursor to the start of the line, one character at a time.
    pub fn move_cursor_to_start(&mut self)
        ensures
            final(self)@ == old(self)@.move_cursor_to_start(),
            final(self)@.cursor == 0,
            final(self)@.valid(),
    {
        while self.cursor_position() > 0
            invariant
                self@.content == old(self)@.content,
                self@.mode == old(self)@.mode,
            decreases self@.cursor,
        {
            self.move_cursor_left();
        }
    }

    /// Moves the cursor behind the last character, one character at a time.
    pub fn move_cursor_to_end(&mut self)
        ensures
            final(self)@ == old(self)@.move_cursor_to_end(),
            final(self)@.cursor == final(self)@.content.len(),
            final(self)@.valid(),
    {
        while self.cursor_position() < self.len()
            invariant
                self@.content == old(self)@.content,
                self@.mode == old(self)@.mode,
            decreases self@.content.len() - self@.cursor,
        {
            self.move_cursor_right();
        }
    }

    /// Empties the line and puts the cursor at its start.
    pub fn clear_buffer(&mut self)
        ensures
            final(self)@ == old(self)@.clear_buffer(),
            final(self)@.valid(),
    {
        self.cursor_position = 0;
        self.buffer = String::new();
    }

    /// Hands out the text of the line and leaves the line empty, with the
    /// cursor at its start.
    pub fn take_buffer(&mut self) -> (text: String)
        ensures
            text@ == old(self)@.content,
            final(self)@ == old(self)@.clear_buffer(),
            final(self)@.valid(),
    {
        let mut text = String::new();
        self.cursor_position = 0;
        std::mem::swap(&mut text, &mut self.buffer);
        text
    }
}

} // verus!
