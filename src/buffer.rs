//! A multi-line text buffer with a cursor, and its edit primitives.
use vstd::prelude::*;
use crate::field::Position;

verus! {

/// The largest coordinate a cursor can hold.
pub const COORD_MAX: u16 = 65535;

/// What a buffer holds: its lines and the cursor's column and line.
pub struct BufferView {
    pub lines: Seq<Seq<char>>,
    pub column: int,
    pub line: int,
}

/// A buffer holding the given lines with the cursor at the given place.
pub open spec fn buffer_view(lines: Seq<Seq<char>>, column: int, line: int) -> BufferView {
    BufferView { lines, column, line }
}

impl BufferView {
    /// There is at least one line, and the cursor stands on a line, at most
    /// at its end, with coordinates that fit a `u16`.
    pub open spec fn wf(self) -> bool {
        &&& 1 <= self.lines.len()
        &&& 0 <= self.line < self.lines.len()
        &&& 0 <= self.column <= self.lines[self.line].len()
        &&& self.line <= COORD_MAX
        &&& self.column <= COORD_MAX
    }

    /// The line under the cursor.
    pub open spec fn current(self) -> Seq<char> {
        self.lines[self.line]
    }

    /// The end of line `l`, as far as a column can reach.
    pub open spec fn end_of(self, l: int) -> int {
        if self.lines[l].len() <= COORD_MAX {
            self.lines[l].len() as int
        } else {
            COORD_MAX as int
        }
    }

    /// `c` is inserted at the cursor, which moves past it (nothing happens
    /// when the column is already at its largest value).
    pub open spec fn insert_char(self, c: char) -> BufferView {
        if self.column < COORD_MAX {
            buffer_view(
                self.lines.update(self.line, self.current().insert(self.column, c)),
                self.column + 1,
                self.line,
            )
        } else {
            self
        }
    }

    /// A new empty line is appended at the end, and the cursor goes to the
    /// start of the line below it (nothing happens on the last line a
    /// cursor can reach).
    pub open spec fn newline(self) -> BufferView {
        if self.line < COORD_MAX {
            buffer_view(self.lines.push(Seq::empty()), 0, self.line + 1)
        } else {
            self
        }
    }

    /// Within a line the character before the cursor is deleted. At the start
    /// of a line other than the first, that line is removed, its text with
    /// it, and the cursor goes to the end of the line above.
    pub open spec fn backspace(self) -> BufferView {
        if self.column > 0 {
            buffer_view(
                self.lines.update(self.line, self.current().remove(self.column - 1)),
                self.column - 1,
                self.line,
            )
        } else if self.line > 0 {
            let lines = self.lines.remove(self.line);
            buffer_view(lines, buffer_view(lines, 0, self.line - 1).end_of(self.line - 1), self.line - 1)
        } else {
            self
        }
    }

    /// The cursor goes to the end of the line above, if there is one.
    pub open spec fn move_up(self) -> BufferView {
        if self.line > 0 {
            buffer_view(self.lines, self.end_of(self.line - 1), self.line - 1)
        } else {
            self
        }
    }

    /// The cursor goes to the end of the line below, if there is one.
    pub open spec fn move_down(self) -> BufferView {
        if self.line + 1 < self.lines.len() && self.line < COORD_MAX {
            buffer_view(self.lines, self.end_of(self.line + 1), self.line + 1)
        } else {
            self
        }
    }

    /// The cursor goes one column left, not past the start of the line.
    pub open spec fn move_left(self) -> BufferView {
        if self.column > 0 {
            buffer_view(self.lines, self.column - 1, self.line)
        } else {
            self
        }
    }

    /// The cursor goes one column right, not past the end of the line.
    pub open spec fn move_right(self) -> BufferView {
        if self.column < self.end_of(self.line) {
            buffer_view(self.lines, self.column + 1, self.line)
        } else {
            self
        }
    }

    /// The line under the cursor is emptied and the cursor goes to its start.
    pub open spec fn clear_line(self) -> BufferView {
        buffer_view(self.lines.update(self.line, Seq::empty()), 0, self.line)
    }

    /// The cursor goes to the start of its line.
    pub open spec fn to_line_start(self) -> BufferView {
        buffer_view(self.lines, 0, self.line)
    }

    /// The cursor goes to the end of its line.
    pub open spec fn to_line_end(self) -> BufferView {
        buffer_view(self.lines, self.end_of(self.line), self.line)
    }
}

/// The text of each line of `v`.
pub open spec fn lines_of(v: Seq<Vec<char>>) -> Seq<Seq<char>> {
    v.map_values(|l: Vec<char>| l@)
}

/// Lines of text and a cursor into them.
pub struct TextBuffer {
    lines: Vec<Vec<char>>,
    cursor: Position,
}

impl View for TextBuffer {
    type V = BufferView;

    closed spec fn view(&self) -> BufferView {
        buffer_view(lines_of(self.lines@), self.cursor.x as int, self.cursor.y as int)
    }
}

/// Every edit keeps a buffer well formed.
pub proof fn lemma_edits_keep_cursor_in_bounds(b: BufferView, c: char)
    requires
        b.wf(),
    ensures
        b.insert_char(c).wf(),
        b.newline().wf(),
        b.backspace().wf(),
        b.move_up().wf(),
        b.move_down().wf(),
        b.move_left().wf(),
        b.move_right().wf(),
        b.clear_line().wf(),
        b.to_line_end().wf(),
        b.to_line_start().wf(),
{
}

impl TextBuffer {
    /// One empty line, with the cursor at its start.
    pub fn new() -> (r: TextBuffer)
        ensures
            r@ == buffer_view(seq![Seq::<char>::empty()], 0, 0),
            r@.wf(),
    {
        let r = TextBuffer { lines: vec![Vec::new()], cursor: Position { x: 0, y: 0 } };
        assert(r@.lines =~= seq![Seq::<char>::empty()]);
        r
    }

    /// The lines, each as its characters.
    pub fn lines(&self) -> (r: &Vec<Vec<char>>)
        ensures
            lines_of(r@) == self@.lines,
    {
        &self.lines
    }

    /// The cursor.
    pub fn cursor(&self) -> (r: Position)
        ensures
            r.x as int == self@.column,
            r.y as int == self@.line,
    {
        self.cursor
    }

    /// The column of the end of line `l`.
    fn end_of(&self, l: usize) -> (r: u16)
        requires
            l < self@.lines.len(),
        ensures
            r as int == self@.end_of(l as int),
    {
        let n = self.lines[l].len();
        if n <= COORD_MAX as usize {
            n as u16
        } else {
            COORD_MAX
        }
    }
}

impl TextBuffer {
    /// Inserts `c` at the cursor and moves the cursor past it.
    pub fn insert_char(&mut self, c: char)
        requires
            old(self)@.wf(),
        ensures
            final(self)@ == old(self)@.insert_char(c),
    {
        if self.cursor.x < COORD_MAX {
            let y = self.cursor.y as usize;
            let x = self.cursor.x as usize;
            self.lines[y].insert(x, c);
            self.cursor.x = self.cursor.x + 1;
            assert(lines_of(self.lines@) =~= lines_of(old(self).lines@).update(
                y as int,
                old(self)@.current().insert(x as int, c),
            ));
        }
    }

    /// Appends an empty line and moves the cursor to the start of the next line.
    pub fn newline(&mut self)
        requires
            old(self)@.wf(),
        ensures
            final(self)@ == old(self)@.newline(),
    {
        if self.cursor.y < COORD_MAX {
            self.lines.push(Vec::new());
            self.cursor.y = self.cursor.y + 1;
            self.cursor.x = 0;
            assert(lines_of(self.lines@) =~= lines_of(old(self).lines@).push(Seq::empty()));
        }
    }

    /// Deletes the character before the cursor, or at the start of a line
    /// below the first removes that line.
    pub fn backspace(&mut self)
        requires
            old(self)@.wf(),
        ensures
            final(self)@ == old(self)@.backspace(),
    {
        let y = self.cursor.y as usize;
        if self.cursor.x > 0 {
            let x = self.cursor.x as usize;
            self.lines[y].remove(x - 1);
            self.cursor.x = self.cursor.x - 1;
            assert(lines_of(self.lines@) =~= lines_of(old(self).lines@).update(
                y as int,
                old(self)@.current().remove(x - 1),
            ));
        } else if self.cursor.y > 0 {
            self.lines.remove(y);
            assert(lines_of(self.lines@) =~= lines_of(old(self).lines@).remove(y as int));
            self.cursor.y = self.cursor.y - 1;
            self.cursor.x = self.end_of(y - 1);
        }
    }

    /// Moves the cursor to the end of the line above.
    pub fn move_up(&mut self)
        requires
            old(self)@.wf(),
        ensures
            final(self)@ == old(self)@.move_up(),
    {
        if self.cursor.y > 0 {
            self.cursor.y = self.cursor.y - 1;
            self.cursor.x = self.end_of(self.cursor.y as usize);
        }
    }

    /// Moves the cursor to the end of the line below.
    pub fn move_down(&mut self)
        requires
            old(self)@.wf(),
        ensures
            final(self)@ == old(self)@.move_down(),
    {
        if (self.cursor.y as usize) + 1 < self.lines.len() && self.cursor.y < COORD_MAX {
            self.cursor.y = self.cursor.y + 1;
            self.cursor.x = self.end_of(self.cursor.y as usize);
        }
    }

    /// Moves the cursor one column left within its line.
    pub fn move_left(&mut self)
        requires
            old(self)@.wf(),
        ensures
            final(self)@ == old(self)@.move_left(),
    {
        if self.cursor.x > 0 {
            self.cursor.x = self.cursor.x - 1;
        }
    }

    /// Moves the cursor one column right within its line.
    pub fn move_right(&mut self)
        requires
            old(self)@.wf(),
        ensures
            final(self)@ == old(self)@.move_right(),
    {
        if self.cursor.x < self.end_of(self.cursor.y as usize) {
            self.cursor.x = self.cursor.x + 1;
        }
    }

    /// Empties the line under the cursor and moves the cursor to its start.
    pub fn clear_line(&mut self)
        requires
            old(self)@.wf(),
        ensures
            final(self)@ == old(self)@.clear_line(),
    {
        let y = self.cursor.y as usize;
        self.lines[y].clear();
        self.cursor.x = 0;
        assert(lines_of(self.lines@) =~= lines_of(old(self).lines@).update(y as int, Seq::empty()));
    }

    /// Moves the cursor to the start of its line.
    pub fn to_line_start(&mut self)
        requires
            old(self)@.wf(),
        ensures
            final(self)@ == old(self)@.to_line_start(),
    {
        self.cursor.x = 0;
    }

    /// Moves the cursor to the end of its line.
    pub fn to_line_end(&mut self)
        requires
            old(self)@.wf(),
        ensures
            final(self)@ == old(self)@.to_line_end(),
    {
        self.cursor.x = self.end_of(self.cursor.y as usize);
    }

    /// Replaces the lines with `lines` and moves the cursor to the start of
    /// the first one.
    pub fn set_lines(&mut self, lines: Vec<Vec<char>>)
        requires
            lines@.len() >= 1,
        ensures
            final(self)@ == buffer_view(lines_of(lines@), 0, 0),
    {
        self.lines = lines;
        self.cursor = Position { x: 0, y: 0 };
    }
}

} // verus!
