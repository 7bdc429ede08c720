use vstd::prelude::*;
use crate::buffer::{Buffer, char_inserted, char_removed, line_inserted, line_removed};
use crate::command::{Action, Event, Mode, normal_key, insert_key, resolve_normal_key, resolve_insert_key};

verus! {

/// One editing session: the buffer, the viewport size (columns, rows), the
/// cursor (`cx` a column, `cy` a row of the viewport), the scroll offset `sv`
/// (the buffer line shown on the top row), the mode, the pending chord key
/// and the undo stack of inverse actions.
pub struct TextEditor {
    pub buffer: Buffer,
    pub size: (u16, u16),
    pub cx: u16,
    pub cy: u16,
    pub mode: Mode,
    pub sv: usize,
    pub command_wait: Option<char>,
    pub undo: Vec<Action>,
}

/// The absolute buffer line under the cursor.
pub open spec fn row_index(e: TextEditor) -> int {
    e.cy as int + e.sv as int
}

/// The cursor stands on a line of the buffer.
pub open spec fn on_line(e: TextEditor) -> bool {
    row_index(e) < e.buffer@.len()
}

/// The length of the line under the cursor; zero where there is none.
pub open spec fn cur_line_len(e: TextEditor) -> int {
    if on_line(e) {
        e.buffer@[row_index(e)].len() as int
    } else {
        0
    }
}

/// The buffer, as far as contents and name go, is the same in both states.
pub open spec fn same_buffer(o: TextEditor, n: TextEditor) -> bool {
    n.buffer@ == o.buffer@ && n.buffer.file_view() == o.buffer.file_view()
}

/// Size, mode, pending chord and undo stack are the same in both states.
pub open spec fn same_session(o: TextEditor, n: TextEditor) -> bool {
    &&& n.size == o.size
    &&& n.mode == o.mode
    &&& n.command_wait == o.command_wait
    &&& n.undo@ == o.undo@
}

/// Only the cursor and the scroll offset may differ between the two states.
pub open spec fn only_cursor_moved(o: TextEditor, n: TextEditor) -> bool {
    same_buffer(o, n) && same_session(o, n)
}

/// Neither the cursor nor the scroll offset differ between the two states.
pub open spec fn same_cursor(o: TextEditor, n: TextEditor) -> bool {
    n.cx == o.cx && n.cy == o.cy && n.sv == o.sv
}

/// Row and scroll offset after stepping down one line from row `cy`: the
/// cursor row goes down unless it would reach the last row of a viewport
/// `h` rows high (kept for the status line), where the view scrolls instead.
pub open spec fn row_below(cy: u16, sv: usize, h: u16) -> (u16, usize) {
    if cy as int + 1 >= h as int - 1 {
        (cy, (sv + 1) as usize)
    } else {
        ((cy + 1) as u16, sv)
    }
}

/// Up a row; on the top row the view scrolls up a line instead, where it can.
pub open spec fn moved_up(o: TextEditor, n: TextEditor) -> bool {
    &&& only_cursor_moved(o, n)
    &&& n.cx == o.cx
    &&& if o.cy == 0 {
        n.cy == 0 && n.sv == (if o.sv > 0 { (o.sv - 1) as usize } else { 0 })
    } else {
        n.cy == o.cy - 1 && n.sv == o.sv
    }
}

/// Down a line, where the buffer has one below the cursor (see `row_below`).
pub open spec fn moved_down(o: TextEditor, n: TextEditor) -> bool {
    &&& only_cursor_moved(o, n)
    &&& n.cx == o.cx
    &&& if row_index(o) + 1 < o.buffer@.len() {
        (n.cy, n.sv) == row_below(o.cy, o.sv, o.size.1)
    } else {
        n.cy == o.cy && n.sv == o.sv
    }
}

/// Left a column, stopping at column zero.
pub open spec fn moved_left(o: TextEditor, n: TextEditor) -> bool {
    &&& only_cursor_moved(o, n)
    &&& n.cy == o.cy && n.sv == o.sv
    &&& n.cx == if o.cx > 0 { (o.cx - 1) as u16 } else { 0 }
}

/// Right a column, as far as a `u16` column reaches.
pub open spec fn moved_right(o: TextEditor, n: TextEditor) -> bool {
    &&& only_cursor_moved(o, n)
    &&& n.cy == o.cy && n.sv == o.sv
    &&& n.cx == if o.cx < u16::MAX { (o.cx + 1) as u16 } else { o.cx }
}

/// The cursor snaps to the top row of the view.
pub open spec fn paged_up(o: TextEditor, n: TextEditor) -> bool {
    only_cursor_moved(o, n) && n.cx == o.cx && n.sv == o.sv && n.cy == 0
}

/// The cursor snaps to the bottom text row, above the status line.
pub open spec fn paged_down(o: TextEditor, n: TextEditor) -> bool {
    &&& only_cursor_moved(o, n)
    &&& n.cx == o.cx && n.sv == o.sv
    &&& n.cy == if o.size.1 >= 2 { (o.size.1 - 2) as u16 } else { 0 }
}

/// The cursor goes to column zero.
pub open spec fn moved_home(o: TextEditor, n: TextEditor) -> bool {
    only_cursor_moved(o, n) && n.cy == o.cy && n.sv == o.sv && n.cx == 0
}

/// The cursor goes to the end of its line.
pub open spec fn moved_end(o: TextEditor, n: TextEditor) -> bool {
    &&& only_cursor_moved(o, n)
    &&& n.cy == o.cy && n.sv == o.sv
    &&& n.cx as int == if cur_line_len(o) <= u16::MAX { cur_line_len(o) } else { u16::MAX as int }
}

/// Mode `m` becomes the current mode.
pub open spec fn mode_entered(o: TextEditor, n: TextEditor, m: Mode) -> bool {
    &&& same_buffer(o, n) && same_cursor(o, n)
    &&& n.mode == m
    &&& n.size == o.size && n.command_wait == o.command_wait && n.undo@ == o.undo@
}

/// A typed character goes in at the cursor, which then moves right by one;
/// where the cursor is not at a place that takes a character (or cannot move
/// right any more), nothing happens.
pub open spec fn char_typed(o: TextEditor, n: TextEditor, c: char) -> bool {
    &&& same_session(o, n)
    &&& n.buffer.file_view() == o.buffer.file_view()
    &&& n.cy == o.cy && n.sv == o.sv
    &&& if o.cx < u16::MAX && crate::buffer::can_insert_char(o.buffer@, o.cx as int, row_index(o)) {
        n.buffer@ == char_inserted(o.buffer@, o.cx as int, row_index(o), c)
            && n.cx == o.cx + 1
    } else {
        n.buffer@ == o.buffer@ && n.cx == o.cx
    }
}

/// An empty line opens below the cursor's line and the cursor steps down to
/// it, at column zero. In an empty buffer the new line is the first one and
/// the cursor goes to the top. With the cursor past the end of a non-empty
/// buffer nothing happens.
pub open spec fn line_opened_below(o: TextEditor, n: TextEditor) -> bool {
    &&& same_session(o, n)
    &&& n.buffer.file_view() == o.buffer.file_view()
    &&& if on_line(o) {
        &&& n.buffer@ == o.buffer@.insert(row_index(o) + 1, Seq::<char>::empty())
        &&& n.cx == 0
        &&& (n.cy, n.sv) == row_below(o.cy, o.sv, o.size.1)
    } else if o.buffer@.len() == 0 {
        n.buffer@ == seq![Seq::<char>::empty()] && n.cx == 0 && n.cy == 0 && n.sv == 0
    } else {
        n.buffer@ == o.buffer@ && same_cursor(o, n)
    }
}

/// An empty line opens at the cursor's line, pushing that line down, and the
/// cursor stays on the row, now the new line, at column zero. In an empty
/// buffer the new line is the first one and the cursor goes to the top. With
/// the cursor past the end of a non-empty buffer nothing happens.
pub open spec fn line_opened_above(o: TextEditor, n: TextEditor) -> bool {
    &&& same_session(o, n)
    &&& n.buffer.file_view() == o.buffer.file_view()
    &&& if on_line(o) {
        &&& n.buffer@ == o.buffer@.insert(row_index(o), Seq::<char>::empty())
        &&& n.cx == 0 && n.cy == o.cy && n.sv == o.sv
    } else if o.buffer@.len() == 0 {
        n.buffer@ == seq![Seq::<char>::empty()] && n.cx == 0 && n.cy == 0 && n.sv == 0
    } else {
        n.buffer@ == o.buffer@ && same_cursor(o, n)
    }
}

/// The character under the cursor goes, and its re-insertion is pushed on
/// the undo stack; where there is no character under the cursor nothing
/// happens.
pub open spec fn char_deleted(o: TextEditor, n: TextEditor) -> bool {
    &&& same_cursor(o, n)
    &&& n.size == o.size && n.mode == o.mode && n.command_wait == o.command_wait
    &&& n.buffer.file_view() == o.buffer.file_view()
    &&& if on_line(o) && o.cx < cur_line_len(o) {
        &&& n.buffer@ == char_removed(o.buffer@, o.cx as int, row_index(o))
        &&& n.undo@ == o.undo@.push(
            Action::InsertChar(o.cx, row_index(o) as usize, o.buffer@[row_index(o)][o.cx as int]),
        )
    } else {
        n.buffer@ == o.buffer@ && n.undo@ == o.undo@
    }
}

/// The line under the cursor goes, and its re-insertion is pushed on the
/// undo stack; where there is no line under the cursor nothing happens.
pub open spec fn line_deleted(o: TextEditor, n: TextEditor) -> bool {
    &&& same_cursor(o, n)
    &&& n.size == o.size && n.mode == o.mode && n.command_wait == o.command_wait
    &&& n.buffer.file_view() == o.buffer.file_view()
    &&& if on_line(o) {
        &&& n.buffer@ == line_removed(o.buffer@, row_index(o))
        &&& n.undo@.len() == o.undo@.len() + 1
        &&& n.undo@.drop_last() == o.undo@
        &&& n.undo@.last() matches Action::InsertLine(i, content)
        &&& i == row_index(o)
        &&& content@ == o.buffer@[row_index(o)]
    } else {
        n.buffer@ == o.buffer@ && n.undo@ == o.undo@
    }
}

/// The buffer after replaying the inverse action `a`; other actions leave it.
pub open spec fn replayed(lines: Seq<Seq<char>>, a: Action) -> Seq<Seq<char>> {
    match a {
        Action::InsertChar(x, y, c) => char_inserted(lines, x as int, y as int, c),
        Action::InsertLine(i, content) => line_inserted(lines, i as int, content@),
        _ => lines,
    }
}

/// The top of the undo stack is popped and replayed; an empty stack leaves
/// everything as it is. The cursor does not move.
pub open spec fn undone(o: TextEditor, n: TextEditor) -> bool {
    &&& same_cursor(o, n)
    &&& n.size == o.size && n.mode == o.mode && n.command_wait == o.command_wait
    &&& n.buffer.file_view() == o.buffer.file_view()
    &&& if o.undo@.len() == 0 {
        n.buffer@ == o.buffer@ && n.undo@ == o.undo@
    } else {
        n.undo@ == o.undo@.drop_last() && n.buffer@ == replayed(o.buffer@, o.undo@.last())
    }
}

/// An inverse action given directly is replayed against the buffer.
pub open spec fn inverse_applied(o: TextEditor, n: TextEditor, a: Action) -> bool {
    &&& same_session(o, n) && same_cursor(o, n)
    &&& n.buffer.file_view() == o.buffer.file_view()
    &&& n.buffer@ == replayed(o.buffer@, a)
}

/// The change that action `a` makes from state `o` to state `n`.
pub open spec fn applied(o: TextEditor, n: TextEditor, a: Action) -> bool {
    match a {
        Action::MoveUp => moved_up(o, n),
        Action::MoveDown => moved_down(o, n),
        Action::MoveLeft => moved_left(o, n),
        Action::MoveRight => moved_right(o, n),
        Action::Insert(c) => char_typed(o, n, c),
        Action::InsertLineBelow => line_opened_below(o, n),
        Action::InsertLineAbove => line_opened_above(o, n),
        Action::DeleteLine => line_deleted(o, n),
        Action::DeleteChar => char_deleted(o, n),
        Action::InsertChar(..) => inverse_applied(o, n, a),
        Action::InsertLine(..) => inverse_applied(o, n, a),
        Action::Undo => undone(o, n),
        Action::EnterMode(m) => mode_entered(o, n, m),
        Action::MoveEnd => moved_end(o, n),
        Action::MoveHome => moved_home(o, n),
        Action::PageDown => paged_down(o, n),
        Action::PageUp => paged_up(o, n),
        Action::Quit => same_buffer(o, n) && same_session(o, n) && same_cursor(o, n),
    }
}

/// The pending chord and the action that event `e` leaves in state `o`.
/// Key presses are read by the mode's key map; other events yield nothing
/// and keep the pending chord.
pub open spec fn event_outcome(o: TextEditor, e: Event) -> (Option<char>, Option<Action>) {
    match e {
        Event::Key(k) => match o.mode {
            Mode::Normal => normal_key(o.command_wait, k),
            Mode::Insert => (o.command_wait, insert_key(k)),
        },
        _ => (o.command_wait, None),
    }
}

/// The viewport size after event `e`: a resize brings the new size.
pub open spec fn size_after(o: TextEditor, e: Event) -> (u16, u16) {
    match e {
        Event::Resize(w, h) => (w, h),
        _ => o.size,
    }
}

/// State `n` is state `o` after reading event `e`, before its action is applied.
pub open spec fn event_read(o: TextEditor, n: TextEditor, e: Event) -> bool {
    &&& same_buffer(o, n) && same_cursor(o, n)
    &&& n.mode == o.mode && n.undo@ == o.undo@
    &&& n.size == size_after(o, e)
    &&& n.command_wait == event_outcome(o, e).0
}

impl TextEditor {
    /// A session on `buffer` with a viewport of `size` (columns, rows): Normal
    /// mode, cursor and view at the top, nothing pending, nothing to undo.
    pub fn new(buffer: Buffer, size: (u16, u16)) -> (r: TextEditor)
        ensures
            r.buffer == buffer,
            r.size == size,
            r.cx == 0 && r.cy == 0 && r.sv == 0,
            r.mode == Mode::Normal,
            r.command_wait is None,
            r.undo@.len() == 0,
    {
        TextEditor {
            buffer,
            size,
            cx: 0,
            cy: 0,
            mode: Mode::Normal,
            sv: 0,
            command_wait: None,
            undo: Vec::new(),
        }
    }

    /// The absolute index of the line under the cursor, where there is one.
    fn current_index(&self) -> (r: Option<usize>)
        ensures
            r is Some <==> on_line(*self),
            r matches Some(i) ==> i == row_index(*self),
    {
        let len = self.buffer.line_count();
        if self.sv < len && (self.cy as usize) < len - self.sv {
            Some(self.sv + self.cy as usize)
        } else {
            None
        }
    }

    /// The number of viewport rows that show buffer lines: all but the last
    /// row, which holds the status line.
    pub open spec fn text_rows(&self) -> int {
        if self.size.1 > 0 { self.size.1 - 1 } else { 0 }
    }

    /// What each text row of the viewport shows: buffer line `sv + i` on row
    /// `i`, or an empty row past the end of the buffer.
    pub fn visible_lines(&self) -> (r: Vec<Vec<char>>)
        ensures
            r@.len() == self.text_rows(),
            forall|i: int|
                0 <= i < r@.len() ==> (#[trigger] r@[i])@ == if self.sv as int + i
                    < self.buffer@.len() {
                    self.buffer@[self.sv as int + i]
                } else {
                    Seq::<char>::empty()
                },
    {
        let rows: u16 = if self.size.1 > 0 { self.size.1 - 1 } else { 0 };
        let len = self.buffer.line_count();
        let mut r: Vec<Vec<char>> = Vec::new();
        let mut i: u16 = 0;
        while i < rows
            invariant
                i <= rows,
                rows == self.text_rows(),
                len == self.buffer@.len(),
                r@.len() == i,
                forall|j: int|
                    0 <= j < i ==> (#[trigger] r@[j])@ == if self.sv as int + j
                        < self.buffer@.len() {
                        self.buffer@[self.sv as int + j]
                    } else {
                        Seq::<char>::empty()
                    },
            decreases rows - i,
        {
            let line = if self.sv < len && (i as usize) < len - self.sv {
                match self.buffer.get(self.sv + i as usize) {
                    Some(l) => l,
                    None => Vec::new(),
                }
            } else {
                Vec::new()
            };
            r.push(line);
            i = i + 1;
        }
        r
    }

    /// The absolute buffer line under the cursor, as the status line shows it.
    pub fn cursor_line(&self) -> (r: Option<usize>)
        ensures
            r is Some <==> row_index(*self) <= usize::MAX,
            r matches Some(l) ==> l == row_index(*self),
    {
        self.sv.checked_add(self.cy as usize)
    }

    /// The length of the line under the cursor; zero where there is none.
    pub fn current_line_len(&self) -> (r: usize)
        ensures
            r == cur_line_len(*self),
    {
        match self.current_index() {
            Some(i) => self.buffer.line_len(i),
            None => 0,
        }
    }

    /// Pulls the cursor column back onto the current line:
    /// `cx` becomes the smaller of `cx` and the line's length.
    pub fn clamp_column(&mut self)
        ensures
            only_cursor_moved(*old(self), *final(self)),
            final(self).cy == old(self).cy && final(self).sv == old(self).sv,
            final(self).cx as int == if old(self).cx as int <= cur_line_len(*old(self)) {
                old(self).cx as int
            } else {
                cur_line_len(*old(self))
            },
            final(self).cx as int <= cur_line_len(*final(self)),
    {
        let len = self.current_line_len();
        if len < self.cx as usize {
            self.cx = len as u16;
        }
    }

    /// Pulls the cursor row back onto the buffer where the buffer has shrunk
    /// under it: to the last line where that line is in view, else the view
    /// moves to show the last line on the top row; an empty buffer puts row
    /// and view at the top. A cursor on a line stays.
    pub fn clamp_row(&mut self)
        ensures
            only_cursor_moved(*old(self), *final(self)),
            final(self).cx == old(self).cx,
            on_line(*old(self)) ==> same_cursor(*old(self), *final(self)),
            !on_line(*old(self)) && old(self).buffer@.len() > 0 ==> (if (old(self).sv as int)
                < old(self).buffer@.len() {
                final(self).sv == old(self).sv && final(self).cy as int == old(self).buffer@.len()
                    - 1 - old(self).sv
            } else {
                final(self).sv == old(self).buffer@.len() - 1 && final(self).cy == 0
            }),
            old(self).buffer@.len() == 0 ==> final(self).cy == 0 && final(self).sv == 0,
            final(self).buffer@.len() > 0 ==> on_line(*final(self)),
            final(self).sv <= final(self).buffer@.len(),
    {
        let len = self.buffer.line_count();
        if self.current_index().is_none() {
            if len > 0 {
                if self.sv < len {
                    self.cy = (len - 1 - self.sv) as u16;
                } else {
                    self.sv = len - 1;
                    self.cy = 0;
                }
            } else {
                self.cy = 0;
                self.sv = 0;
            }
        }
    }

    /// Brings cursor and view back within the buffer before a frame is drawn:
    /// the row first, then the column on the line that the row lands on.
    pub fn bounds(&mut self)
        ensures
            only_cursor_moved(*old(self), *final(self)),
            final(self).buffer@.len() > 0 ==> on_line(*final(self)),
            final(self).buffer@.len() == 0 ==> final(self).cy == 0 && final(self).sv == 0,
            final(self).sv <= final(self).buffer@.len(),
            final(self).cx as int <= cur_line_len(*final(self)),
            on_line(*old(self)) && old(self).cx as int <= cur_line_len(*old(self)) ==> same_cursor(
                *old(self),
                *final(self),
            ),
    {
        self.clamp_row();
        self.clamp_column();
    }

    /// Moves the cursor up a row; on the top row the view scrolls up a line
    /// instead, unless it already shows the first line.
    pub fn move_up(&mut self)
        ensures
            moved_up(*old(self), *final(self)),
    {
        if self.cy == 0 {
            if self.sv > 0 {
                self.sv = self.sv - 1;
            }
        } else {
            self.cy = self.cy - 1;
        }
    }

    /// Moves down a line where there is a line below, scrolling the view
    /// rather than putting the cursor on the last (status) row.
    pub fn move_down(&mut self)
        ensures
            moved_down(*old(self), *final(self)),
    {
        match self.current_index() {
            Some(i) => {
                if i < self.buffer.line_count() - 1 {
                    self.step_row_down();
                }
            },
            None => {},
        }
    }

    fn step_row_down(&mut self)
        requires
            row_index(*old(self)) + 1 < old(self).buffer@.len(),
        ensures
            only_cursor_moved(*old(self), *final(self)),
            final(self).cx == old(self).cx,
            (final(self).cy, final(self).sv) == row_below(old(self).cy, old(self).sv, old(self).size.1),
    {
        proof {
            self.buffer.lemma_len_fits();
        }
        if self.cy as usize + 2 >= self.size.1 as usize {
            self.sv = self.sv + 1;
        } else {
            self.cy = self.cy + 1;
        }
    }

    pub fn move_left(&mut self)
        ensures
            moved_left(*old(self), *final(self)),
    {
        if self.cx > 0 {
            self.cx = self.cx - 1;
        }
    }

    /// Moves right a column; the next bounds check pulls it back onto the line.
    pub fn move_right(&mut self)
        ensures
            moved_right(*old(self), *final(self)),
    {
        if self.cx < u16::MAX {
            self.cx = self.cx + 1;
        }
    }

    /// Snaps the cursor to the top row of the view.
    pub fn page_up(&mut self)
        ensures
            paged_up(*old(self), *final(self)),
    {
        self.cy = 0;
    }

    /// Snaps the cursor to the bottom row of the view, above the status line.
    pub fn page_down(&mut self)
        ensures
            paged_down(*old(self), *final(self)),
    {
        if self.size.1 >= 2 {
            self.cy = self.size.1 - 2;
        } else {
            self.cy = 0;
        }
    }

    pub fn move_home(&mut self)
        ensures
            moved_home(*old(self), *final(self)),
    {
        self.cx = 0;
    }

    pub fn move_end(&mut self)
        ensures
            moved_end(*old(self), *final(self)),
    {
        let len = self.current_line_len();
        if len <= u16::MAX as usize {
            self.cx = len as u16;
        } else {
            self.cx = u16::MAX;
        }
    }

    /// Types `c` at the cursor, which then moves right.
    pub fn insert_char(&mut self, c: char)
        ensures
            char_typed(*old(self), *final(self), c),
    {
        if self.cx == u16::MAX {
            return;
        }
        let len = self.buffer.line_count();
        if self.sv <= len && (self.cy as usize) <= len - self.sv {
            let y = self.sv + self.cy as usize;
            if y == len && self.cx != 0 {
                return;
            }
            if y < len && self.cx as usize > self.buffer.line_len(y) {
                return;
            }
            self.buffer.insert(self.cx, y, c);
            self.cx = self.cx + 1;
        }
    }

    /// Opens an empty line below the cursor's line and moves onto it.
    pub fn insert_line_below(&mut self)
        ensures
            line_opened_below(*old(self), *final(self)),
    {
        match self.current_index() {
            Some(i) => {
                proof {
                    self.buffer.lemma_len_fits();
                }
                self.buffer.insert_line(i + 1, Vec::new());
                self.cx = 0;
                self.step_row_down();
            },
            None => {
                self.open_first_line();
            },
        }
    }

    /// Opens an empty line at the cursor's line, pushing that line down.
    pub fn insert_line_above(&mut self)
        ensures
            line_opened_above(*old(self), *final(self)),
    {
        match self.current_index() {
            Some(i) => {
                self.buffer.insert_line(i, Vec::new());
                self.cx = 0;
            },
            None => {
                self.open_first_line();
            },
        }
    }

    fn open_first_line(&mut self)
        requires
            !on_line(*old(self)),
        ensures
            same_session(*old(self), *final(self)),
            final(self).buffer.file_view() == old(self).buffer.file_view(),
            old(self).buffer@.len() == 0 ==> final(self).buffer@ == seq![Seq::<char>::empty()]
                && final(self).cx == 0 && final(self).cy == 0 && final(self).sv == 0,
            old(self).buffer@.len() != 0 ==> final(self).buffer@ == old(self).buffer@
                && same_cursor(*old(self), *final(self)),
    {
        if self.buffer.line_count() == 0 {
            self.buffer.insert_line(0, Vec::new());
            self.cx = 0;
            self.cy = 0;
            self.sv = 0;
            assert(self.buffer@ =~= seq![Seq::<char>::empty()]);
        }
    }

    /// Deletes the character under the cursor and records its re-insertion.
    pub fn delete_char(&mut self)
        ensures
            char_deleted(*old(self), *final(self)),
    {
        match self.current_index() {
            Some(i) => {
                match self.buffer.char_at(self.cx as usize, i) {
                    Some(c) => {
                        self.buffer.remove(self.cx, i);
                        self.undo.push(Action::InsertChar(self.cx, i, c));
                    },
                    None => {},
                }
            },
            None => {},
        }
    }

    /// Deletes the line under the cursor and records its re-insertion.
    pub fn delete_line(&mut self)
        ensures
            line_deleted(*old(self), *final(self)),
    {
        match self.current_index() {
            Some(i) => {
                match self.buffer.remove_line(i) {
                    Some(content) => {
                        self.undo.push(Action::InsertLine(i, content));
                        assert(self.undo@.drop_last() =~= old(self).undo@);
                    },
                    None => {},
                }
            },
            None => {},
        }
    }

    /// Replays an inverse action against the buffer; other actions are ignored.
    fn replay(&mut self, a: Action)
        ensures
            same_session(*old(self), *final(self)),
            same_cursor(*old(self), *final(self)),
            final(self).buffer.file_view() == old(self).buffer.file_view(),
            final(self).buffer@ == replayed(old(self).buffer@, a),
    {
        match a {
            Action::InsertChar(x, y, c) => self.buffer.insert(x, y, c),
            Action::InsertLine(i, content) => self.buffer.insert_line(i, content),
            _ => {},
        }
    }

    /// Pops the most recent inverse action, if any, and replays it.
    pub fn undo(&mut self)
        ensures
            undone(*old(self), *final(self)),
    {
        match self.undo.pop() {
            Some(a) => {
                self.replay(a);
            },
            None => {},
        }
    }

    /// Applies one action; the result is false for `Quit`, which ends the
    /// session, and true otherwise.
    pub fn apply(&mut self, a: Action) -> (keep: bool)
        ensures
            keep == !(a is Quit),
            applied(*old(self), *final(self), a),
    {
        match a {
            Action::Quit => {
                return false;
            },
            Action::MoveUp => self.move_up(),
            Action::MoveDown => self.move_down(),
            Action::MoveLeft => self.move_left(),
            Action::MoveRight => self.move_right(),
            Action::PageUp => self.page_up(),
            Action::PageDown => self.page_down(),
            Action::EnterMode(m) => {
                self.mode = m;
            },
            Action::MoveHome => self.move_home(),
            Action::MoveEnd => self.move_end(),
            Action::Insert(c) => self.insert_char(c),
            Action::InsertLineBelow => self.insert_line_below(),
            Action::InsertLineAbove => self.insert_line_above(),
            Action::DeleteChar => self.delete_char(),
            Action::DeleteLine => self.delete_line(),
            Action::Undo => self.undo(),
            Action::InsertChar(x, y, c) => self.replay(Action::InsertChar(x, y, c)),
            Action::InsertLine(i, content) => self.replay(Action::InsertLine(i, content)),
        }
        true
    }

    /// Reads one event: a resize updates the viewport size whatever the mode,
    /// and a key press is resolved by the current mode's key map (in Normal
    /// mode against the pending chord) into at most one action.
    pub fn handle_event(&mut self, e: Event) -> (r: Option<Action>)
        ensures
            event_read(*old(self), *final(self), e),
            r == event_outcome(*old(self), e).1,
    {
        match e {
            Event::Resize(w, h) => {
                self.size = (w, h);
                None
            },
            Event::Key(k) => match self.mode {
                Mode::Normal => {
                    let (pending, action) = resolve_normal_key(self.command_wait, k);
                    self.command_wait = pending;
                    action
                },
                Mode::Insert => resolve_insert_key(k),
            },
            Event::Other => None,
        }
    }

    /// One turn of the session: reads event `e` and applies the action it
    /// yields. The result is false when the session is to end.
    pub fn step(&mut self, e: Event) -> (keep: bool)
        ensures
            exists|m: TextEditor|
                {
                    &&& #[trigger] event_read(*old(self), m, e)
                    &&& match event_outcome(*old(self), e).1 {
                        Some(a) => applied(m, *final(self), a) && keep == !(a is Quit),
                        None => keep && same_buffer(m, *final(self)) && same_cursor(m, *final(self))
                            && final(self).mode == m.mode && final(self).undo@ == m.undo@
                            && final(self).size == m.size && final(self).command_wait == m.command_wait,
                    }
                },
    {
        let ghost o = *self;
        match self.handle_event(e) {
            Some(a) => {
                let ghost m = *self;
                let keep = self.apply(a);
                assert(event_read(o, m, e));
                keep
            },
            None => {
                assert(event_read(o, *self, e));
                true
            },
        }
    }
}

} // verus!
