//! The application state, the key dispatcher and the evaluator.
use vstd::prelude::*;
use crate::buffer::{buffer_view, lines_of, BufferView, TextBuffer, COORD_MAX};
use crate::engine::{
    captures_in, captures_of, compile, compile_error_of, group_names, group_names_of,
    source_text, Pattern,
};
use crate::field::{next_field, CurrentField};
use crate::report::{format_report, join_lines, joined, report};

verus! {

/// The key of a key event.
#[derive(Debug, Clone, Copy, PartialEq, Eq, Structural)]
pub enum KeyCode {
    Char(char),
    Enter,
    Tab,
    Backspace,
    Esc,
    Up,
    Down,
    Left,
    Right,
    Other,
}

/// A key event: its key, whether it is a press (rather than a release or a
/// repeat), and whether its modifiers are exactly the control key.
#[derive(Debug, Clone, Copy, PartialEq, Eq, Structural)]
pub struct KeyInput {
    pub code: KeyCode,
    pub press: bool,
    pub control: bool,
}

/// What the application holds: whether it runs, the focus, the text of the
/// compiled pattern if there is one, and the three buffers.
pub struct AppView {
    pub running: bool,
    pub focus: CurrentField,
    pub compiled: Option<Seq<char>>,
    pub pattern: BufferView,
    pub text: BufferView,
    pub output: BufferView,
}

/// The report of pattern `p` on the lines of `text`, joined.
pub open spec fn evaluated(p: Seq<char>, text: Seq<Seq<char>>) -> Seq<Seq<char>> {
    report(group_names_of(p), captures_of(p, joined(text)))
}

/// A key press of `code` without modifiers.
pub open spec fn press(code: KeyCode) -> KeyInput {
    KeyInput { code, press: true, control: false }
}

impl AppView {
    /// The pattern buffer has exactly one line, every buffer is well formed,
    /// and a compiled pattern is a non-empty text that the engine accepts.
    pub open spec fn wf(self) -> bool {
        &&& self.compiled matches Some(p) ==> p.len() > 0 && compile_error_of(p) is None
        &&& self.pattern.wf()
        &&& self.pattern.lines.len() == 1
        &&& self.text.wf()
        &&& self.output.wf()
    }

    /// The text of the pattern.
    pub open spec fn pattern_text(self) -> Seq<char> {
        self.pattern.lines[0]
    }

    /// The buffer that has the focus.
    pub open spec fn focused(self) -> BufferView {
        match self.focus {
            CurrentField::Regex => self.pattern,
            CurrentField::Text => self.text,
            CurrentField::Matches => self.output,
        }
    }

    /// This state with `b` in place of the buffer that has the focus.
    pub open spec fn with_focused(self, b: BufferView) -> AppView {
        match self.focus {
            CurrentField::Regex => AppView { pattern: b, ..self },
            CurrentField::Text => AppView { text: b, ..self },
            CurrentField::Matches => AppView { output: b, ..self },
        }
    }

    /// This state with the output buffer holding `lines`, its cursor at the start.
    pub open spec fn with_output(self, lines: Seq<Seq<char>>) -> AppView {
        AppView { output: buffer_view(lines, 0, 0), ..self }
    }

    /// One pass of the evaluator. With the focus on the pattern, an empty
    /// pattern drops the compiled one and empties the output; one the engine
    /// refuses leaves the compiled one as it was and puts the engine's message
    /// in the output; one it accepts becomes the compiled pattern. Otherwise
    /// the output is replaced wholesale, manual edits included: by the report
    /// of the compiled pattern on the text, or by a single empty line where
    /// there is no compiled pattern. The output's cursor goes to its start.
    pub open spec fn evaluate(self) -> AppView {
        if self.focus is Regex {
            let p = self.pattern_text();
            if p.len() == 0 {
                AppView { compiled: None, ..self }.with_output(seq![Seq::<char>::empty()])
            } else {
                match compile_error_of(p) {
                    Some(e) => self.with_output(seq![e]),
                    None => AppView { compiled: Some(p), ..self }.with_output(
                        evaluated(p, self.text.lines),
                    ),
                }
            }
        } else {
            match self.compiled {
                Some(p) => self.with_output(evaluated(p, self.text.lines)),
                None => self.with_output(seq![Seq::<char>::empty()]),
            }
        }
    }

    /// The state after key event `k`.
    pub open spec fn step(self, k: KeyInput) -> AppView {
        if !k.press {
            self
        } else if k.control && (k.code == KeyCode::Char('u') || k.code == KeyCode::Char('U')) {
            self.with_focused(self.focused().clear_line())
        } else {
            match k.code {
                KeyCode::Esc => AppView { running: false, ..self },
                KeyCode::Char(c) => self.with_focused(self.focused().insert_char(c)).evaluate(),
                KeyCode::Enter => if self.focus is Regex {
                    self.with_focused(self.focused().to_line_start()).evaluate()
                } else {
                    self.with_focused(self.focused().newline()).evaluate()
                },
                KeyCode::Tab => {
                    let moved = AppView { focus: next_field(self.focus), ..self };
                    moved.with_focused(moved.focused().to_line_end())
                },
                KeyCode::Backspace => self.with_focused(self.focused().backspace()).evaluate(),
                KeyCode::Up => if self.focus is Regex {
                    self
                } else {
                    self.with_focused(self.focused().move_up())
                },
                KeyCode::Down => if self.focus is Regex {
                    self
                } else {
                    self.with_focused(self.focused().move_down())
                },
                KeyCode::Left => self.with_focused(self.focused().move_left()),
                KeyCode::Right => self.with_focused(self.focused().move_right()),
                KeyCode::Other => self,
            }
        }
    }

    /// The state after the key events of `keys`, in order.
    pub open spec fn run(self, keys: Seq<KeyInput>) -> AppView
        decreases keys.len(),
    {
        if keys.len() == 0 {
            self
        } else {
            self.run(keys.drop_last()).step(keys.last())
        }
    }
}

/// The application: three buffers, the focus, and the compiled pattern.
pub struct App {
    /// Whether the session goes on.
    pub running: bool,
    pub current_input: CurrentField,
    re: Option<Pattern>,
    regex: TextBuffer,
    text: TextBuffer,
    matches: TextBuffer,
}

/// The text of an optional compiled pattern.
pub open spec fn compiled_text(re: Option<Pattern>) -> Option<Seq<char>> {
    match re {
        Some(p) => Some(p.source()),
        None => None,
    }
}

impl View for App {
    type V = AppView;

    closed spec fn view(&self) -> AppView {
        AppView {
            running: self.running,
            focus: self.current_input,
            compiled: compiled_text(self.re),
            pattern: self.regex@,
            text: self.text@,
            output: self.matches@,
        }
    }
}

impl Default for App {
    /// The same state as `App::new`.
    fn default() -> (r: App)
        ensures
            r@ == (AppView {
                running: true,
                focus: CurrentField::Text,
                compiled: None,
                pattern: buffer_view(seq![Seq::<char>::empty()], 0, 0),
                text: buffer_view(seq![Seq::<char>::empty()], 0, 0),
                output: buffer_view(seq![Seq::<char>::empty()], 0, 0),
            }),
            r@.wf(),
    {
        App::new()
    }
}

/// The report of a compiled pattern on the lines of `text`, joined.
pub fn matches_report(pat: &Pattern, text: &Vec<Vec<char>>) -> (r: Vec<Vec<char>>)
    ensures
        lines_of(r@) == evaluated(pat.source(), lines_of(text@)),
        r@.len() >= 1,
{
    let haystack = join_lines(text);
    let found = captures_in(pat, &haystack);
    let names = group_names(pat);
    let r = format_report(&names, &found);
    assert(lines_of(r@).len() == r@.len());
    r
}

impl App {
    /// A running application with the focus on the text, no compiled
    /// pattern, and three buffers of one empty line each.
    pub fn new() -> (r: App)
        ensures
            r@ == (AppView {
                running: true,
                focus: CurrentField::Text,
                compiled: None,
                pattern: buffer_view(seq![Seq::<char>::empty()], 0, 0),
                text: buffer_view(seq![Seq::<char>::empty()], 0, 0),
                output: buffer_view(seq![Seq::<char>::empty()], 0, 0),
            }),
            r@.wf(),
    {
        App {
            running: true,
            current_input: CurrentField::Text,
            re: None,
            regex: TextBuffer::new(),
            text: TextBuffer::new(),
            matches: TextBuffer::new(),
        }
    }

    /// Called on each tick of the terminal; the state does not change.
    pub fn tick(&self) {
    }

    /// The pattern buffer.
    pub fn pattern_buffer(&self) -> (r: &TextBuffer)
        ensures
            r@ == self@.pattern,
    {
        &self.regex
    }

    /// The sample text buffer.
    pub fn text_buffer(&self) -> (r: &TextBuffer)
        ensures
            r@ == self@.text,
    {
        &self.text
    }

    /// The output buffer.
    pub fn output_buffer(&self) -> (r: &TextBuffer)
        ensures
            r@ == self@.output,
    {
        &self.matches
    }

    /// The text of the compiled pattern, if there is one.
    pub fn compiled_pattern(&self) -> (r: Option<Vec<char>>)
        ensures
            match r {
                Some(v) => self@.compiled == Some(v@),
                None => self@.compiled is None,
            },
    {
        match &self.re {
            Some(p) => Some(source_text(p)),
            None => None,
        }
    }

    /// Sets the output buffer to `lines`, its cursor at the start.
    fn set_output(&mut self, lines: Vec<Vec<char>>)
        requires
            lines@.len() >= 1,
        ensures
            final(self)@ == old(self)@.with_output(lines_of(lines@)),
    {
        self.matches.set_lines(lines);
    }

    /// Runs the evaluator once.
    pub fn update_output(&mut self)
        requires
            old(self)@.wf(),
        ensures
            final(self)@ == old(self)@.evaluate(),
            final(self)@.wf(),
    {
        if self.current_input == CurrentField::Regex {
            let p = &self.regex.lines()[0];
            assert(p@ == old(self)@.pattern_text());
            if p.len() > 0 {
                match compile(p) {
                    Ok(c) => {
                        self.re = Some(c);
                    },
                    Err(e) => {
                        let mut out: Vec<Vec<char>> = Vec::new();
                        out.push(e);
                        assert(lines_of(out@) =~= seq![e@]);
                        self.set_output(out);
                        return;
                    },
                }
            } else {
                self.re = None;
            }
        }
        match &self.re {
            Some(pat) => {
                let lines = matches_report(pat, self.text.lines());
                self.matches.set_lines(lines);
            },
            None => {
                let mut out: Vec<Vec<char>> = Vec::new();
                out.push(Vec::new());
                assert(lines_of(out@) =~= seq![Seq::<char>::empty()]);
                self.set_output(out);
            },
        }
    }
}

/// Applies one key event to the application. A control-U press empties
/// the focused line; otherwise Escape ends the session, a character, Enter
/// and Backspace edit the focused buffer and run the evaluator, Tab moves the
/// focus, and the arrows move the focused cursor (up and down not in the
/// pattern). Events other than presses change nothing.
pub fn handle_key_events(key: KeyInput, app: &mut App)
    requires
        old(app)@.wf(),
    ensures
        final(app)@ == old(app)@.step(key),
        final(app)@.wf(),
{
    proof {
        crate::buffer::lemma_edits_keep_cursor_in_bounds(old(app)@.focused(), ' ');
        if let KeyCode::Char(c) = key.code {
            crate::buffer::lemma_edits_keep_cursor_in_bounds(old(app)@.focused(), c);
        }
    }
    if !key.press {
        return;
    }
    if key.control {
        if let KeyCode::Char(c) = key.code {
            if c == 'u' || c == 'U' {
                match app.current_input {
                    CurrentField::Regex => app.regex.clear_line(),
                    CurrentField::Text => app.text.clear_line(),
                    CurrentField::Matches => app.matches.clear_line(),
                }
                return;
            }
        }
    }
    match key.code {
        KeyCode::Esc => {
            app.running = false;
        },
        KeyCode::Char(c) => {
            match app.current_input {
                CurrentField::Regex => app.regex.insert_char(c),
                CurrentField::Text => app.text.insert_char(c),
                CurrentField::Matches => app.matches.insert_char(c),
            }
            app.update_output();
        },
        KeyCode::Enter => {
            match app.current_input {
                CurrentField::Regex => app.regex.to_line_start(),
                CurrentField::Text => app.text.newline(),
                CurrentField::Matches => app.matches.newline(),
            }
            app.update_output();
        },
        KeyCode::Tab => {
            app.current_input.next();
            proof {
                crate::buffer::lemma_edits_keep_cursor_in_bounds(app@.focused(), ' ');
            }
            match app.current_input {
                CurrentField::Regex => app.regex.to_line_end(),
                CurrentField::Text => app.text.to_line_end(),
                CurrentField::Matches => app.matches.to_line_end(),
            }
        },
        KeyCode::Backspace => {
            match app.current_input {
                CurrentField::Regex => app.regex.backspace(),
                CurrentField::Text => app.text.backspace(),
                CurrentField::Matches => app.matches.backspace(),
            }
            app.update_output();
        },
        KeyCode::Up => {
            match app.current_input {
                CurrentField::Regex => {},
                CurrentField::Text => app.text.move_up(),
                CurrentField::Matches => app.matches.move_up(),
            }
        },
        KeyCode::Down => {
            match app.current_input {
                CurrentField::Regex => {},
                CurrentField::Text => app.text.move_down(),
                CurrentField::Matches => app.matches.move_down(),
            }
        },
        KeyCode::Left => {
            match app.current_input {
                CurrentField::Regex => app.regex.move_left(),
                CurrentField::Text => app.text.move_left(),
                CurrentField::Matches => app.matches.move_left(),
            }
        },
        KeyCode::Right => {
            match app.current_input {
                CurrentField::Regex => app.regex.move_right(),
                CurrentField::Text => app.text.move_right(),
                CurrentField::Matches => app.matches.move_right(),
            }
        },
        KeyCode::Other => {},
    }
}

/// Running the evaluator a second time, with no edit in between, changes
/// nothing: in particular the output is the same both times.
pub proof fn lemma_evaluate_idempotent(v: AppView)
    ensures
        v.evaluate().evaluate() == v.evaluate(),
{
}

/// The evaluator keeps the state well formed.
pub proof fn lemma_evaluate_keeps_wf(v: AppView)
    requires
        v.wf(),
    ensures
        v.evaluate().wf(),
{
}

/// Every key event keeps every buffer's cursor on one of its lines, at most
/// at that line's end, and the pattern on a single line.
pub proof fn lemma_step_keeps_wf(v: AppView, k: KeyInput)
    requires
        v.wf(),
    ensures
        v.step(k).wf(),
{
    crate::buffer::lemma_edits_keep_cursor_in_bounds(v.focused(), ' ');
    if let KeyCode::Char(c) = k.code {
        crate::buffer::lemma_edits_keep_cursor_in_bounds(v.focused(), c);
        lemma_evaluate_keeps_wf(v.with_focused(v.focused().insert_char(c)));
    }
    let moved = AppView { focus: next_field(v.focus), ..v };
    crate::buffer::lemma_edits_keep_cursor_in_bounds(moved.focused(), ' ');
    lemma_evaluate_keeps_wf(v.with_focused(v.focused().to_line_start()));
    if !(v.focus is Regex) {
        lemma_evaluate_keeps_wf(v.with_focused(v.focused().newline()));
    }
    lemma_evaluate_keeps_wf(v.with_focused(v.focused().backspace()));
}

/// After any sequence of key events every buffer's cursor stays on one of
/// its lines, at most at that line's end.
pub proof fn lemma_run_keeps_wf(v: AppView, keys: Seq<KeyInput>)
    requires
        v.wf(),
    ensures
        v.run(keys).wf(),
    decreases keys.len(),
{
    if keys.len() > 0 {
        lemma_run_keeps_wf(v, keys.drop_last());
        lemma_step_keeps_wf(v.run(keys.drop_last()), keys.last());
    }
}

/// With the focus on an empty pattern, the evaluator drops the compiled
/// pattern and leaves the output a single empty line.
pub proof fn lemma_empty_pattern_clears_output(v: AppView)
    requires
        v.focus is Regex,
        v.pattern_text().len() == 0,
    ensures
        v.evaluate().compiled is None,
        v.evaluate().output.lines == seq![Seq::<char>::empty()],
{
}

/// Given a compiled pattern that is the pattern's text, typing a character
/// that makes the pattern invalid keeps the compiled pattern and shows the
/// engine's message as the whole output; deleting that character again
/// brings back the report of the compiled pattern on the text.
pub proof fn lemma_invalid_edit_keeps_compiled(v: AppView, c: char)
    requires
        v.wf(),
        v.focus is Regex,
        v.compiled == Some(v.pattern_text()),
        v.pattern.column < COORD_MAX,
        compile_error_of(v.pattern.insert_char(c).lines[0]) is Some,
    ensures
        v.step(press(KeyCode::Char(c))).compiled == v.compiled,
        v.step(press(KeyCode::Char(c))).output.lines == seq![
            compile_error_of(v.pattern.insert_char(c).lines[0])->Some_0,
        ],
        v.step(press(KeyCode::Char(c))).step(press(KeyCode::Backspace)).compiled == v.compiled,
        v.step(press(KeyCode::Char(c))).step(press(KeyCode::Backspace)).output == v.evaluate().output,
        v.step(press(KeyCode::Char(c))).step(press(KeyCode::Backspace)).pattern == v.pattern,
{
    let p = v.pattern_text();
    let col = v.pattern.column;
    assert(p.insert(col, c).remove(col) =~= p);
    let typed = v.step(press(KeyCode::Char(c)));
    assert(typed.pattern.lines[0] == p.insert(col, c));
    assert(typed.pattern.backspace().lines =~= v.pattern.lines);
    assert(typed.pattern.backspace() == v.pattern);
    let back = typed.with_focused(typed.focused().backspace());
    assert(back.pattern == v.pattern);
    assert(back.pattern_text() == p);
    assert(back.text == v.text);
}

} // verus!
