use vstd::prelude::*;
use crate::geometry::Rect;
use crate::input::{KeyCode, KeyInput, KeyResult, MouseInput, MouseKind};

verus! {

/// The logical text of a buffer: the lines joined with a single `'\n'`
/// between consecutive lines.  Lines themselves never contain `'\n'`.
pub open spec fn joined(ls: Seq<Seq<char>>) -> Seq<char>
    decreases ls.len(),
{
    if ls.len() == 0 {
        Seq::empty()
    } else if ls.len() == 1 {
        ls[0]
    } else {
        ls[0] + seq!['\n'] + joined(ls.drop_first())
    }
}

/// Appending a new line to a non-empty line list appends a separator and the
/// line to the joined text.
pub proof fn lemma_joined_push_line(ls: Seq<Seq<char>>, l: Seq<char>)
    requires
        ls.len() >= 1,
    ensures
        joined(ls.push(l)) == joined(ls) + seq!['\n'] + l,
    decreases ls.len(),
{
    if ls.len() == 1 {
        assert(ls.push(l).drop_first() =~= seq![l]);
        assert(joined(seq![l]) == l);
        assert(joined(ls.push(l)) == ls.push(l)[0] + seq!['\n'] + joined(seq![l]));
        assert(joined(ls.push(l)) =~= ls[0] + seq!['\n'] + l);
        assert(joined(ls) == ls[0]);
    } else {
        lemma_joined_push_line(ls.drop_first(), l);
        assert(ls.push(l).drop_first() =~= ls.drop_first().push(l));
        assert(joined(ls.push(l)) == ls[0] + seq!['\n'] + joined(ls.drop_first().push(l)));
        assert(joined(ls.push(l)) =~= joined(ls) + seq!['\n'] + l);
    }
}

/// Appending a character to the last line appends it to the joined text.
pub proof fn lemma_joined_last_push_char(ls: Seq<Seq<char>>, c: char)
    requires
        ls.len() >= 1,
    ensures
        joined(ls.update(ls.len() - 1, ls.last().push(c))) == joined(ls).push(c),
    decreases ls.len(),
{
    if ls.len() == 1 {
        assert(ls.update(0, ls.last().push(c)) =~= seq![ls[0].push(c)]);
        assert(joined(seq![ls[0].push(c)]) == ls[0].push(c));
        assert(joined(ls).push(c) =~= ls[0].push(c));
    } else {
        lemma_joined_last_push_char(ls.drop_first(), c);
        let upd = ls.update(ls.len() - 1, ls.last().push(c));
        assert(upd.drop_first() =~= ls.drop_first().update(ls.len() - 2, ls.drop_first().last().push(c)));
        assert(joined(upd) == ls[0] + seq!['\n'] + joined(ls.drop_first()).push(c));
        assert(joined(upd) =~= joined(ls).push(c));
    }
}

/// Cursor movements of the editing engine.  `Visual` movements step by one
/// rendered row of the wrapped layout; the others work on logical lines.
#[derive(Clone, Copy, Debug)]
pub enum CursorMove {
    Back,
    Forward,
    Up,
    Down,
    Head,
    End,
    Top,
    Bottom,
    WordBack,
    WordForward,
    VisualUp,
    VisualDown,
    Jump(u16, u16),
}

/// A saved buffer state for undo and redo.
pub struct EditorSnapshot {
    pub lines: Vec<Vec<char>>,
    pub cursor_row: usize,
    pub cursor_col: usize,
}

impl EditorSnapshot {
    pub open spec fn snap_view(self) -> (Seq<Seq<char>>, int, int) {
        (self.lines.deep_view(), self.cursor_row as int, self.cursor_col as int)
    }
}

/// The text-editing engine: a logical line buffer with cursor, selection,
/// wrap-aware visual layout, bounded undo history, and at most one attached
/// image reference.  Presentation (wrapping) never changes the stored text.
pub struct TextEditor {
    pub lines: Vec<Vec<char>>,
    pub cursor_row: usize,
    pub cursor_col: usize,
    pub select_start: Option<(usize, usize)>,
    pub mouse_down: bool,
    pub wrap_on: bool,
    pub wrap_width: usize,
    pub area: Option<Rect>,
    pub undo_stack: Vec<EditorSnapshot>,
    pub redo_stack: Vec<EditorSnapshot>,
    pub max_histories: usize,
    pub image_path: Option<String>,
    pub show_image_preview: bool,
    pub image_full_screen: bool,
}

impl TextEditor {
    pub open spec fn lines_view(self) -> Seq<Seq<char>> {
        self.lines.deep_view()
    }

    /// The joined logical text of the buffer.
    pub open spec fn text(self) -> Seq<char> {
        joined(self.lines_view())
    }

    /// A position is valid when it addresses a line and a column at or before
    /// that line's end.
    pub open spec fn pos_valid(self, row: int, col: int) -> bool {
        0 <= row < self.lines_view().len() && 0 <= col <= self.lines_view()[row].len()
    }

    /// Well-formedness: at least one (possibly empty) line; the cursor and the
    /// selection anchor address valid positions; the wrap width is positive.
    pub open spec fn wf(self) -> bool {
        &&& self.lines_view().len() >= 1
        &&& self.pos_valid(self.cursor_row as int, self.cursor_col as int)
        &&& match self.select_start {
            Some((r, c)) => self.pos_valid(r as int, c as int),
            None => true,
        }
        &&& self.wrap_width >= 1
        &&& history_wf(self.undo_views())
        &&& history_wf(self.redo_views())
    }

    /// Everything except the cursor position is unchanged: the movement
    /// operations guarantee exactly this.
    pub open spec fn same_but_cursor(self, other: TextEditor) -> bool {
        &&& self.lines_view() == other.lines_view()
        &&& self.select_start == other.select_start
        &&& self.mouse_down == other.mouse_down
        &&& self.wrap_on == other.wrap_on
        &&& self.wrap_width == other.wrap_width
        &&& self.area == other.area
        &&& self.image_path == other.image_path
        &&& self.show_image_preview == other.show_image_preview
        &&& self.image_full_screen == other.image_full_screen
        &&& self.undo_views() == other.undo_views()
        &&& self.redo_views() == other.redo_views()
        &&& self.max_histories == other.max_histories
    }

    /// The saved states on the undo stack, oldest first.
    pub open spec fn undo_views(self) -> Seq<(Seq<Seq<char>>, int, int)> {
        self.undo_stack@.map_values(|s: EditorSnapshot| s.snap_view())
    }

    /// The saved states on the redo stack, oldest first.
    pub open spec fn redo_views(self) -> Seq<(Seq<Seq<char>>, int, int)> {
        self.redo_stack@.map_values(|s: EditorSnapshot| s.snap_view())
    }

    /// The current buffer content and cursor, as a snapshot value.
    pub open spec fn cur_snap(self) -> (Seq<Seq<char>>, int, int) {
        (self.lines_view(), self.cursor_row as int, self.cursor_col as int)
    }

    pub fn new() -> (ed: TextEditor)
        ensures
            ed.wf(),
            ed.lines_view() =~= seq![Seq::<char>::empty()],
            ed.text() =~= Seq::<char>::empty(),
            ed.cursor_row == 0 && ed.cursor_col == 0,
            ed.select_start is None,
            ed.wrap_on,
            ed.wrap_width == 80,
            ed.max_histories == 50,
            ed.image_path is None,
            ed.undo_stack@.len() == 0 && ed.redo_stack@.len() == 0,
    {
        let mut lines: Vec<Vec<char>> = Vec::new();
        lines.push(Vec::new());
        proof {
            assert(lines@[0].deep_view() =~= Seq::<char>::empty());
            assert(lines.deep_view() =~= seq![Seq::<char>::empty()]);
        }
        TextEditor {
            lines,
            cursor_row: 0,
            cursor_col: 0,
            select_start: None,
            mouse_down: false,
            wrap_on: true,
            wrap_width: 80,
            area: None,
            undo_stack: Vec::new(),
            redo_stack: Vec::new(),
            max_histories: 50,
            image_path: None,
            show_image_preview: true,
            image_full_screen: false,
        }
    }

    /// The cursor position as (row, column) in logical coordinates.
    pub fn cursor_position(&self) -> (rc: (usize, usize))
        ensures
            rc.0 == self.cursor_row && rc.1 == self.cursor_col,
    {
        (self.cursor_row, self.cursor_col)
    }

    fn line_len(&self, row: usize) -> (n: usize)
        requires
            row < self.lines_view().len(),
        ensures
            n == self.lines_view()[row as int].len(),
    {
        self.lines[row].len()
    }

    /// Move the cursor one character back, wrapping to the end of the
    /// previous line from column 0; at the start of the document nothing
    /// happens.
    fn move_back(&mut self)
        requires
            old(self).wf(),
        ensures
            final(self).wf(),
            final(self).same_but_cursor(*old(self)),
            old(self).cursor_col > 0 ==> final(self).cursor_row == old(self).cursor_row
                && final(self).cursor_col == old(self).cursor_col - 1,
            old(self).cursor_col == 0 && old(self).cursor_row > 0
                ==> final(self).cursor_row == old(self).cursor_row - 1
                    && final(self).cursor_col == old(self).lines_view()[old(self).cursor_row - 1].len(),
            old(self).cursor_col == 0 && old(self).cursor_row == 0
                ==> final(self).cursor_row == 0 && final(self).cursor_col == 0,
    {
        if self.cursor_col > 0 {
            self.cursor_col = self.cursor_col - 1;
        } else if self.cursor_row > 0 {
            self.cursor_row = self.cursor_row - 1;
            self.cursor_col = self.line_len(self.cursor_row);
        }
    }

    /// Move the cursor one character forward, wrapping to the start of the
    /// next line from a line end; at the end of the document nothing happens.
    fn move_forward(&mut self)
        requires
            old(self).wf(),
        ensures
            final(self).wf(),
            final(self).same_but_cursor(*old(self)),
            old(self).cursor_col < old(self).lines_view()[old(self).cursor_row as int].len()
                ==> final(self).cursor_row == old(self).cursor_row
                    && final(self).cursor_col == old(self).cursor_col + 1,
            old(self).cursor_col == old(self).lines_view()[old(self).cursor_row as int].len()
                && old(self).cursor_row + 1 < old(self).lines_view().len()
                ==> final(self).cursor_row == old(self).cursor_row + 1
                    && final(self).cursor_col == 0,
            old(self).cursor_col == old(self).lines_view()[old(self).cursor_row as int].len()
                && old(self).cursor_row + 1 == old(self).lines_view().len()
                ==> final(self).cursor_row == old(self).cursor_row
                    && final(self).cursor_col == old(self).cursor_col,
    {
        let len = self.line_len(self.cursor_row);
        if self.cursor_col < len {
            self.cursor_col = self.cursor_col + 1;
        } else if self.cursor_row < self.lines.len() - 1 {
            self.cursor_row = self.cursor_row + 1;
            self.cursor_col = 0;
        }
    }

    /// Move the cursor one logical line up, clamping the column to the target
    /// line's length; on the first line nothing happens.
    fn move_up(&mut self)
        requires
            old(self).wf(),
        ensures
            final(self).wf(),
            final(self).same_but_cursor(*old(self)),
            old(self).cursor_row > 0 ==> final(self).cursor_row == old(self).cursor_row - 1
                && final(self).cursor_col == clamped(
                    old(self).cursor_col as int,
                    old(self).lines_view()[old(self).cursor_row - 1].len() as int,
                ),
            old(self).cursor_row == 0 ==> final(self).cursor_row == old(self).cursor_row
                && final(self).cursor_col == old(self).cursor_col,
    {
        if self.cursor_row > 0 {
            self.cursor_row = self.cursor_row - 1;
            let len = self.line_len(self.cursor_row);
            if self.cursor_col > len {
                self.cursor_col = len;
            }
        }
    }

    /// Move the cursor one logical line down, clamping the column; on the
    /// last line nothing happens.
    fn move_down(&mut self)
        requires
            old(self).wf(),
        ensures
            final(self).wf(),
            final(self).same_but_cursor(*old(self)),
            old(self).cursor_row + 1 < old(self).lines_view().len()
                ==> final(self).cursor_row == old(self).cursor_row + 1
                    && final(self).cursor_col == clamped(
                        old(self).cursor_col as int,
                        old(self).lines_view()[old(self).cursor_row + 1].len() as int,
                    ),
            old(self).cursor_row + 1 == old(self).lines_view().len()
                ==> final(self).cursor_row == old(self).cursor_row
                    && final(self).cursor_col == old(self).cursor_col,
    {
        if self.cursor_row < self.lines.len() - 1 {
            self.cursor_row = self.cursor_row + 1;
            let len = self.line_len(self.cursor_row);
            if self.cursor_col > len {
                self.cursor_col = len;
            }
        }
    }

    /// Jump to the given position, clamping the row to the last line and the
    /// column to the target line's end.
    fn move_jump(&mut self, row: u16, col: u16)
        requires
            old(self).wf(),
        ensures
            final(self).wf(),
            final(self).same_but_cursor(*old(self)),
            final(self).cursor_row == clamped(row as int, old(self).lines_view().len() - 1),
            final(self).cursor_col == clamped(
                col as int,
                old(self).lines_view()[final(self).cursor_row as int].len() as int,
            ),
    {
        let last = self.lines.len() - 1;
        let r: usize = if (row as usize) > last { last } else { row as usize };
        self.cursor_row = r;
        let len = self.line_len(r);
        let c: usize = if (col as usize) > len { len } else { col as usize };
        self.cursor_col = c;
    }

    /// Word-boundary movement to the left under a whitespace-run model: from
    /// column 0 of a non-first line the cursor lands at the end of the
    /// previous line; otherwise trailing whitespace is skipped, then the
    /// non-whitespace run, landing at the start of the current or previous
    /// word.
    pub fn move_word_back(&mut self)
        requires
            old(self).wf(),
        ensures
            final(self).wf(),
            final(self).same_but_cursor(*old(self)),
            old(self).cursor_col == 0 && old(self).cursor_row > 0
                ==> final(self).cursor_row == old(self).cursor_row - 1
                    && final(self).cursor_col == old(self).lines_view()[old(self).cursor_row - 1].len(),
            old(self).cursor_col == 0 && old(self).cursor_row == 0
                ==> final(self).cursor_row == 0 && final(self).cursor_col == 0,
            old(self).cursor_col > 0 ==> final(self).cursor_row == old(self).cursor_row
                && final(self).cursor_col == word_start_before(
                    old(self).lines_view()[old(self).cursor_row as int],
                    old(self).cursor_col as int,
                ),
    {
        if self.cursor_col == 0 {
            if self.cursor_row > 0 {
                self.cursor_row = self.cursor_row - 1;
                self.cursor_col = self.line_len(self.cursor_row);
            }
            return;
        }
        let row = self.cursor_row;
        let mut pos: usize = self.cursor_col;
        while pos > 0 && is_space(self.lines[row][pos - 1])
            invariant
                self.wf(),
                row == self.cursor_row,
                row < self.lines_view().len(),
                pos <= self.lines_view()[row as int].len(),
                skip_spaces_back(self.lines_view()[row as int], self.cursor_col as int)
                    == skip_spaces_back(self.lines_view()[row as int], pos as int),
            decreases pos,
        {
            pos = pos - 1;
        }
        assert(pos == skip_spaces_back(self.lines_view()[row as int], self.cursor_col as int));
        while pos > 0 && !is_space(self.lines[row][pos - 1])
            invariant
                self.wf(),
                row == self.cursor_row,
                row < self.lines_view().len(),
                pos <= self.lines_view()[row as int].len(),
                skip_word_back(self.lines_view()[row as int],
                    skip_spaces_back(self.lines_view()[row as int], self.cursor_col as int))
                    == skip_word_back(self.lines_view()[row as int], pos as int),
            decreases pos,
        {
            pos = pos - 1;
        }
        self.cursor_col = pos;
    }

    /// Word-boundary movement to the right, mirroring `move_word_back`: from
    /// a line end the cursor wraps to the start of the next line; otherwise
    /// the non-whitespace run and then the whitespace run are skipped,
    /// landing at the start of the next word.
    pub fn move_word_forward(&mut self)
        requires
            old(self).wf(),
        ensures
            final(self).wf(),
            final(self).same_but_cursor(*old(self)),
            old(self).cursor_col == old(self).lines_view()[old(self).cursor_row as int].len()
                && old(self).cursor_row + 1 < old(self).lines_view().len()
                ==> final(self).cursor_row == old(self).cursor_row + 1
                    && final(self).cursor_col == 0,
            old(self).cursor_col == old(self).lines_view()[old(self).cursor_row as int].len()
                && old(self).cursor_row + 1 == old(self).lines_view().len()
                ==> final(self).cursor_row == old(self).cursor_row
                    && final(self).cursor_col == old(self).cursor_col,
            old(self).cursor_col < old(self).lines_view()[old(self).cursor_row as int].len()
                ==> final(self).cursor_row == old(self).cursor_row
                    && final(self).cursor_col == word_start_after(
                        old(self).lines_view()[old(self).cursor_row as int],
                        old(self).cursor_col as int,
                    ),
    {
        let row = self.cursor_row;
        let len = self.line_len(row);
        if self.cursor_col >= len {
            if self.cursor_row < self.lines.len() - 1 {
                self.cursor_row = self.cursor_row + 1;
                self.cursor_col = 0;
            }
            return;
        }
        let mut pos: usize = self.cursor_col;
        while pos < len && !is_space(self.lines[row][pos])
            invariant
                self.wf(),
                row == self.cursor_row,
                row < self.lines_view().len(),
                len == self.lines_view()[row as int].len(),
                pos <= len,
                skip_word_forward(self.lines_view()[row as int], self.cursor_col as int)
                    == skip_word_forward(self.lines_view()[row as int], pos as int),
            decreases len - pos,
        {
            pos = pos + 1;
        }
        assert(pos == skip_word_forward(self.lines_view()[row as int], self.cursor_col as int));
        while pos < len && is_space(self.lines[row][pos])
            invariant
                self.wf(),
                row == self.cursor_row,
                row < self.lines_view().len(),
                len == self.lines_view()[row as int].len(),
                pos <= len,
                skip_spaces_forward(self.lines_view()[row as int],
                    skip_word_forward(self.lines_view()[row as int], self.cursor_col as int))
                    == skip_spaces_forward(self.lines_view()[row as int], pos as int),
            decreases len - pos,
        {
            pos = pos + 1;
        }
        self.cursor_col = pos;
    }
}

/// `v` clamped from above to `bound`.
pub open spec fn clamped(v: int, bound: int) -> int {
    if v > bound { bound } else { v }
}

pub open spec fn spec_is_space(c: char) -> bool {
    c == ' ' || c == '\t' || c == '\n' || c == '\r'
        || c == '\u{000b}' || c == '\u{000c}' || c == '\u{0085}'
        || c == '\u{00a0}' || c == '\u{1680}'
        || ('\u{2000}' <= c && c <= '\u{200a}')
        || c == '\u{2028}' || c == '\u{2029}' || c == '\u{202f}'
        || c == '\u{205f}' || c == '\u{3000}'
}

/// Whitespace test used by the word-boundary scan, matching the Unicode
/// white-space property for the characters the engine stores.
pub fn is_space(c: char) -> (b: bool)
    ensures
        b == spec_is_space(c),
{
    c == ' ' || c == '\t' || c == '\n' || c == '\r'
        || c == '\u{000b}' || c == '\u{000c}' || c == '\u{0085}'
        || c == '\u{00a0}' || c == '\u{1680}'
        || ('\u{2000}' <= c && c <= '\u{200a}')
        || c == '\u{2028}' || c == '\u{2029}' || c == '\u{202f}'
        || c == '\u{205f}' || c == '\u{3000}'
}

/// Position reached from `pos` by skipping whitespace leftwards.
pub open spec fn skip_spaces_back(line: Seq<char>, pos: int) -> int
    decreases pos,
{
    if pos <= 0 || pos > line.len() {
        0
    } else if spec_is_space(line[pos - 1]) {
        skip_spaces_back(line, pos - 1)
    } else {
        pos
    }
}

/// Position reached from `pos` by skipping non-whitespace leftwards.
pub open spec fn skip_word_back(line: Seq<char>, pos: int) -> int
    decreases pos,
{
    if pos <= 0 || pos > line.len() {
        0
    } else if !spec_is_space(line[pos - 1]) {
        skip_word_back(line, pos - 1)
    } else {
        pos
    }
}

/// The start of the word at or before `pos`: first skip whitespace, then the
/// word itself.
pub open spec fn word_start_before(line: Seq<char>, pos: int) -> int {
    skip_word_back(line, skip_spaces_back(line, pos))
}

/// Position reached from `pos` by skipping non-whitespace rightwards.
pub open spec fn skip_word_forward(line: Seq<char>, pos: int) -> int
    decreases line.len() - pos,
{
    if pos < 0 || pos >= line.len() {
        line.len() as int
    } else if !spec_is_space(line[pos]) {
        skip_word_forward(line, pos + 1)
    } else {
        pos
    }
}

/// Position reached from `pos` by skipping whitespace rightwards.
pub open spec fn skip_spaces_forward(line: Seq<char>, pos: int) -> int
    decreases line.len() - pos,
{
    if pos < 0 || pos >= line.len() {
        line.len() as int
    } else if spec_is_space(line[pos]) {
        skip_spaces_forward(line, pos + 1)
    } else {
        pos
    }
}

/// The start of the word after `pos`: first skip the current word, then the
/// whitespace run.
pub open spec fn word_start_after(line: Seq<char>, pos: int) -> int {
    skip_spaces_forward(line, skip_word_forward(line, pos))
}

} // verus!

verus! {

/// Number of rendered rows that a logical line of `len` characters occupies
/// at wrap width `w`: one row per full `w` characters, plus the row holding
/// the line end (so an empty line still occupies one row, and the cursor
/// position at `len == w` sits on a second row).
pub open spec fn rows_in_line(len: int, w: int) -> int {
    len / w + 1
}

/// Total rendered rows of the first `row` logical lines.
pub open spec fn vrows_before(ls: Seq<Seq<char>>, row: int, w: int) -> int
    decreases row,
{
    if row <= 0 {
        0
    } else {
        vrows_before(ls, row - 1, w) + rows_in_line(ls[row - 1].len() as int, w)
    }
}

/// Clamp an unbounded count to what a `usize` can carry.
pub open spec fn sat_usize(v: int) -> int {
    if v > usize::MAX { usize::MAX as int } else { v }
}

impl TextEditor {
    /// Rendered row of the cursor in the wrapped layout.
    pub open spec fn spec_visual_row(self) -> int {
        vrows_before(self.lines_view(), self.cursor_row as int, self.wrap_width as int)
            + self.cursor_col as int / self.wrap_width as int
    }

    /// Rendered column of the cursor in the wrapped layout.
    pub open spec fn spec_visual_col(self) -> int {
        self.cursor_col as int % self.wrap_width as int
    }

    /// The cursor position of `self` after one movement.  Movements never
    /// change the text: they only produce a new (row, column).
    pub open spec fn cursor_after(self, m: CursorMove) -> (int, int) {
        let ls = self.lines_view();
        let n = ls.len() as int;
        let row = self.cursor_row as int;
        let col = self.cursor_col as int;
        let w = self.wrap_width as int;
        match m {
            CursorMove::Back => if col > 0 {
                (row, col - 1)
            } else if row > 0 {
                (row - 1, ls[row - 1].len() as int)
            } else {
                (0int, 0int)
            },
            CursorMove::Forward => if col < ls[row].len() {
                (row, col + 1)
            } else if row + 1 < n {
                (row + 1, 0int)
            } else {
                (row, col)
            },
            CursorMove::Up => if row > 0 {
                (row - 1, clamped(col, ls[row - 1].len() as int))
            } else {
                (row, col)
            },
            CursorMove::Down => if row + 1 < n {
                (row + 1, clamped(col, ls[row + 1].len() as int))
            } else {
                (row, col)
            },
            CursorMove::Head => (row, 0int),
            CursorMove::End => (row, ls[row].len() as int),
            CursorMove::Top => (0int, clamped(col, ls[0].len() as int)),
            CursorMove::Bottom => (n - 1, clamped(col, ls[n - 1].len() as int)),
            CursorMove::WordBack => if col == 0 {
                if row > 0 {
                    (row - 1, ls[row - 1].len() as int)
                } else {
                    (0int, 0int)
                }
            } else {
                (row, word_start_before(ls[row], col))
            },
            CursorMove::WordForward => if col == ls[row].len() {
                if row + 1 < n {
                    (row + 1, 0int)
                } else {
                    (row, col)
                }
            } else {
                (row, word_start_after(ls[row], col))
            },
            CursorMove::VisualUp => if col >= w {
                (row, col - w)
            } else if row > 0 {
                let plen = ls[row - 1].len() as int;
                (row - 1, if col <= plen % w { (plen / w) * w + col } else { plen })
            } else {
                (row, col)
            },
            CursorMove::VisualDown => if col / w < ls[row].len() as int / w {
                (row, clamped(col + w, ls[row].len() as int))
            } else if row + 1 < n {
                (row + 1, clamped(col % w, ls[row + 1].len() as int))
            } else {
                (row, col)
            },
            CursorMove::Jump(r, c) => {
                let tr = clamped(r as int, n - 1);
                (tr, clamped(c as int, ls[tr].len() as int))
            },
        }
    }

    /// One rendered row up: a partial move within the current logical line
    /// where the cursor sits below the line's first rendered row, else the
    /// last rendered row of the previous line, keeping the rendered column.
    fn move_visual_up(&mut self)
        requires
            old(self).wf(),
        ensures
            final(self).wf(),
            final(self).same_but_cursor(*old(self)),
            (final(self).cursor_row as int, final(self).cursor_col as int)
                == old(self).cursor_after(CursorMove::VisualUp),
    {
        let w = self.wrap_width;
        if self.cursor_col >= w {
            self.cursor_col = self.cursor_col - w;
        } else if self.cursor_row > 0 {
            self.cursor_row = self.cursor_row - 1;
            let plen = self.line_len(self.cursor_row);
            proof {
                assert((plen / w) * w + plen % w == plen && plen % w >= 0
                    && (plen / w) * w >= 0) by (nonlinear_arith)
                    requires w >= 1, plen >= 0,
                ;
            }
            self.cursor_col = if self.cursor_col <= plen % w {
                (plen / w) * w + self.cursor_col
            } else {
                plen
            };
        }
    }

    /// One rendered row down, mirroring `move_visual_up`.
    fn move_visual_down(&mut self)
        requires
            old(self).wf(),
        ensures
            final(self).wf(),
            final(self).same_but_cursor(*old(self)),
            (final(self).cursor_row as int, final(self).cursor_col as int)
                == old(self).cursor_after(CursorMove::VisualDown),
    {
        let w = self.wrap_width;
        let len = self.line_len(self.cursor_row);
        if self.cursor_col / w < len / w {
            proof {
                assert(self.cursor_col / w * w <= self.cursor_col
                    && self.cursor_col / w * w + w > self.cursor_col) by (nonlinear_arith)
                    requires w >= 1, self.cursor_col >= 0,
                ;
                assert((self.cursor_col / w + 1) * w <= len / w * w) by (nonlinear_arith)
                    requires w >= 1, self.cursor_col / w + 1 <= len / w,
                ;
                assert(len / w * w <= len) by (nonlinear_arith)
                    requires w >= 1, len >= 0,
                ;
                assert(self.cursor_col / w * w + w == (self.cursor_col / w + 1) * w) by (nonlinear_arith);
            }
            self.cursor_col = if w <= len - self.cursor_col {
                self.cursor_col + w
            } else {
                len
            };
        } else if self.cursor_row < self.lines.len() - 1 {
            self.cursor_row = self.cursor_row + 1;
            let nlen = self.line_len(self.cursor_row);
            let c = self.cursor_col % w;
            self.cursor_col = if c <= nlen { c } else { nlen };
        }
    }

    /// Perform one cursor movement.  The text, the selection and every other
    /// part of the editor are unchanged; the new cursor position is exactly
    /// `cursor_after`.
    pub fn move_cursor(&mut self, m: CursorMove)
        requires
            old(self).wf(),
        ensures
            final(self).wf(),
            final(self).same_but_cursor(*old(self)),
            (final(self).cursor_row as int, final(self).cursor_col as int)
                == old(self).cursor_after(m),
    {
        match m {
            CursorMove::Back => self.move_back(),
            CursorMove::Forward => self.move_forward(),
            CursorMove::Up => self.move_up(),
            CursorMove::Down => self.move_down(),
            CursorMove::Head => {
                self.cursor_col = 0;
            },
            CursorMove::End => {
                self.cursor_col = self.line_len(self.cursor_row);
            },
            CursorMove::Top => {
                self.cursor_row = 0;
                let len = self.line_len(0);
                if self.cursor_col > len {
                    self.cursor_col = len;
                }
            },
            CursorMove::Bottom => {
                self.cursor_row = self.lines.len() - 1;
                let len = self.line_len(self.cursor_row);
                if self.cursor_col > len {
                    self.cursor_col = len;
                }
            },
            CursorMove::WordBack => self.move_word_back(),
            CursorMove::WordForward => self.move_word_forward(),
            CursorMove::VisualUp => self.move_visual_up(),
            CursorMove::VisualDown => self.move_visual_down(),
            CursorMove::Jump(r, c) => self.move_jump(r, c),
        }
    }

    /// Any sequence of pure cursor movements leaves the joined logical text
    /// (and the whole line buffer) unchanged.
    pub fn apply_moves(&mut self, ops: &Vec<CursorMove>)
        requires
            old(self).wf(),
        ensures
            final(self).wf(),
            final(self).same_but_cursor(*old(self)),
            final(self).text() == old(self).text(),
    {
        let mut i: usize = 0;
        while i < ops.len()
            invariant
                self.wf(),
                self.same_but_cursor(*old(self)),
            decreases ops.len() - i,
        {
            self.move_cursor(ops[i]);
            i = i + 1;
        }
    }

    /// Place the cursor at the very start of the document.
    pub fn move_cursor_to_start(&mut self)
        requires
            old(self).wf(),
        ensures
            final(self).wf(),
            final(self).same_but_cursor(*old(self)),
            final(self).cursor_row == 0 && final(self).cursor_col == 0,
    {
        self.move_cursor(CursorMove::Top);
        self.move_cursor(CursorMove::Head);
    }

    /// Scrolling in an edit view moves the cursor one logical line up.
    pub fn scroll_up(&mut self)
        requires
            old(self).wf(),
        ensures
            final(self).wf(),
            final(self).same_but_cursor(*old(self)),
            (final(self).cursor_row as int, final(self).cursor_col as int)
                == old(self).cursor_after(CursorMove::Up),
    {
        self.move_cursor(CursorMove::Up);
    }

    /// Scrolling in an edit view moves the cursor one logical line down.
    pub fn scroll_down(&mut self)
        requires
            old(self).wf(),
        ensures
            final(self).wf(),
            final(self).same_but_cursor(*old(self)),
            (final(self).cursor_row as int, final(self).cursor_col as int)
                == old(self).cursor_after(CursorMove::Down),
    {
        self.move_cursor(CursorMove::Down);
    }
}

} // verus!

verus! {

/// Every saved state on a history stack is well formed.
pub open spec fn history_wf(st: Seq<(Seq<Seq<char>>, int, int)>) -> bool {
    forall|i: int| 0 <= i < st.len() ==> snap_wf(#[trigger] st[i])
}

/// A snapshot is well formed when it holds at least one line and its cursor
/// addresses a valid position.
pub open spec fn snap_wf(s: (Seq<Seq<char>>, int, int)) -> bool {
    &&& s.0.len() >= 1
    &&& 0 <= s.1 < s.0.len()
    &&& 0 <= s.2 <= s.0[s.1].len()
}

/// The lines after removing the character range from (sr, sc) inclusive to
/// (er, ec) exclusive: the kept head of the start line is merged with the
/// kept tail of the end line.
pub open spec fn delete_range_m(ls: Seq<Seq<char>>, sr: int, sc: int, er: int, ec: int) -> Seq<Seq<char>> {
    ls.subrange(0, sr) + seq![ls[sr].subrange(0, sc) + ls[er].skip(ec)] + ls.skip(er + 1)
}

/// The lines after inserting the character `c` (never a newline) at (r, i).
pub open spec fn insert_char_m(ls: Seq<Seq<char>>, r: int, i: int, c: char) -> Seq<Seq<char>> {
    ls.update(r, ls[r].insert(i, c))
}

/// The lines after breaking line `r` at column `i` into two lines.
pub open spec fn split_line_m(ls: Seq<Seq<char>>, r: int, i: int) -> Seq<Seq<char>> {
    ls.subrange(0, r) + seq![ls[r].subrange(0, i)] + seq![ls[r].skip(i)] + ls.skip(r + 1)
}

/// Buffer and cursor after typing the characters of `s` one by one at
/// (r, i): a newline breaks the line, any other character is inserted.
pub open spec fn type_seq_m(ls: Seq<Seq<char>>, r: int, i: int, s: Seq<char>) -> (Seq<Seq<char>>, int, int)
    decreases s.len(),
{
    if s.len() == 0 {
        (ls, r, i)
    } else if s[0] == '\n' {
        type_seq_m(split_line_m(ls, r, i), r + 1, 0, s.drop_first())
    } else {
        type_seq_m(insert_char_m(ls, r, i, s[0]), r, i + 1, s.drop_first())
    }
}

impl TextEditor {
    /// The anchor-to-cursor selection, normalized so that the first position
    /// is not after the second; `None` when no selection has been started.
    pub open spec fn norm_sel(self) -> Option<((int, int), (int, int))> {
        match self.select_start {
            None => None,
            Some((ar, ac)) => {
                let a = (ar as int, ac as int);
                let c = (self.cursor_row as int, self.cursor_col as int);
                if a.0 < c.0 || (a.0 == c.0 && a.1 <= c.1) {
                    Some((a, c))
                } else {
                    Some((c, a))
                }
            },
        }
    }

    /// The selection covers at least one character.
    pub open spec fn has_nonempty_sel(self) -> bool {
        match self.norm_sel() {
            Some((s, e)) => s != e,
            None => false,
        }
    }

    /// All fields that neither movements nor edits touch: presentation
    /// settings and the image attachment.
    pub open spec fn same_settings(self, other: TextEditor) -> bool {
        &&& self.mouse_down == other.mouse_down
        &&& self.wrap_on == other.wrap_on
        &&& self.wrap_width == other.wrap_width
        &&& self.area == other.area
        &&& self.image_path == other.image_path
        &&& self.show_image_preview == other.show_image_preview
        &&& self.image_full_screen == other.image_full_screen
        &&& self.max_histories == other.max_histories
    }

    /// The normalized selection as concrete values.
    pub fn selection_range(&self) -> (r: Option<((usize, usize), (usize, usize))>)
        ensures
            match r {
                None => self.norm_sel() is None,
                Some((s, e)) => self.norm_sel() == Some((
                    (s.0 as int, s.1 as int),
                    (e.0 as int, e.1 as int),
                )),
            },
    {
        match self.select_start {
            None => None,
            Some((ar, ac)) => {
                if ar < self.cursor_row || (ar == self.cursor_row && ac <= self.cursor_col) {
                    Some(((ar, ac), (self.cursor_row, self.cursor_col)))
                } else {
                    Some(((self.cursor_row, self.cursor_col), (ar, ac)))
                }
            },
        }
    }

    /// Start a selection: the anchor is placed at the cursor.
    pub fn start_selection(&mut self)
        requires
            old(self).wf(),
        ensures
            final(self).wf(),
            *final(self) == (TextEditor {
                select_start: Some((old(self).cursor_row, old(self).cursor_col)),
                ..*old(self)
            }),
    {
        self.select_start = Some((self.cursor_row, self.cursor_col));
    }

    /// Cancel the selection without touching the text or the cursor.
    pub fn cancel_selection(&mut self)
        requires
            old(self).wf(),
        ensures
            final(self).wf(),
            *final(self) == (TextEditor { select_start: None, ..*old(self) }),
    {
        self.select_start = None;
    }

    /// Select the whole document: anchor at the start, cursor at the end.
    pub fn select_all(&mut self)
        requires
            old(self).wf(),
        ensures
            final(self).wf(),
            *final(self) == (TextEditor {
                select_start: Some((0, 0)),
                cursor_row: (old(self).lines_view().len() - 1) as usize,
                cursor_col: old(self).lines_view().last().len() as usize,
                ..*old(self)
            }),
    {
        self.select_start = Some((0, 0));
        self.cursor_row = self.lines.len() - 1;
        self.cursor_col = self.line_len(self.cursor_row);
    }
}

fn clone_chars(v: &Vec<char>) -> (r: Vec<char>)
    ensures
        r@ == v@,
{
    let mut r: Vec<char> = Vec::new();
    let mut i: usize = 0;
    while i < v.len()
        invariant
            i <= v.len(),
            r@ == v@.subrange(0, i as int),
        decreases v.len() - i,
    {
        r.push(v[i]);
        proof {
            assert(r@ =~= v@.subrange(0, i + 1 as int));
        }
        i = i + 1;
    }
    proof {
        assert(v@.subrange(0, v@.len() as int) =~= v@);
    }
    r
}

fn clone_lines(v: &Vec<Vec<char>>) -> (r: Vec<Vec<char>>)
    ensures
        r.deep_view() == v.deep_view(),
{
    let mut r: Vec<Vec<char>> = Vec::new();
    let mut i: usize = 0;
    while i < v.len()
        invariant
            i <= v.len(),
            r@.len() == i,
            forall|j: int| 0 <= j < i ==> (#[trigger] r@[j])@ == v@[j]@,
        decreases v.len() - i,
    {
        let c = clone_chars(&v[i]);
        r.push(c);
        i = i + 1;
    }
    proof {
        assert forall|j: int| 0 <= j < v@.len() implies r.deep_view()[j] == v.deep_view()[j] by {
            assert(r@[j].deep_view() =~= r@[j]@);
            assert(v@[j].deep_view() =~= v@[j]@);
        }
        assert(r.deep_view() =~= v.deep_view());
    }
    r
}

/// A saved state is appended to the history; when the history is full the
/// oldest entry gives way.
pub open spec fn push_bounded(
    st: Seq<(Seq<Seq<char>>, int, int)>,
    snap: (Seq<Seq<char>>, int, int),
    max: int,
) -> Seq<(Seq<Seq<char>>, int, int)> {
    if max <= 0 {
        st
    } else if st.len() < max {
        st.push(snap)
    } else {
        st.drop_first().push(snap)
    }
}

impl TextEditor {
    /// Record the current state for undo and clear the redo history.
    fn push_undo(&mut self)
        requires
            old(self).wf(),
        ensures
            final(self).wf(),
            final(self).lines_view() == old(self).lines_view(),
            final(self).cursor_row == old(self).cursor_row,
            final(self).cursor_col == old(self).cursor_col,
            final(self).select_start == old(self).select_start,
            final(self).same_settings(*old(self)),
            final(self).undo_views() == push_bounded(
                old(self).undo_views(),
                old(self).cur_snap(),
                old(self).max_histories as int,
            ),
            final(self).redo_views() == Seq::<(Seq<Seq<char>>, int, int)>::empty(),
    {
        self.redo_stack = Vec::new();
        proof {
            assert(self.redo_views() =~= Seq::<(Seq<Seq<char>>, int, int)>::empty());
        }
        if self.max_histories == 0 {
            return;
        }
        let snap = EditorSnapshot {
            lines: clone_lines(&self.lines),
            cursor_row: self.cursor_row,
            cursor_col: self.cursor_col,
        };
        if self.undo_stack.len() >= self.max_histories {
            self.undo_stack.remove(0);
            self.undo_stack.push(snap);
            proof {
                assert(self.undo_views() =~= old(self).undo_views().drop_first().push(old(self).cur_snap()));
            }
        } else {
            self.undo_stack.push(snap);
            proof {
                assert(self.undo_views() =~= old(self).undo_views().push(old(self).cur_snap()));
            }
        }
    }

    /// Restore the youngest saved state, moving the current one onto the redo
    /// stack.  Returns whether anything was restored.
    pub fn undo(&mut self) -> (r: bool)
        requires
            old(self).wf(),
        ensures
            final(self).wf(),
            r == (old(self).undo_views().len() > 0),
            final(self).same_settings(*old(self)),
            final(self).select_start is None,
            r ==> {
                &&& (final(self).lines_view(), final(self).cursor_row as int, final(self).cursor_col as int)
                    == old(self).undo_views().last()
                &&& final(self).undo_views() == old(self).undo_views().drop_last()
                &&& final(self).redo_views() == old(self).redo_views().push(old(self).cur_snap())
            },
            !r ==> {
                &&& final(self).lines_view() == old(self).lines_view()
                &&& final(self).cursor_row == old(self).cursor_row
                &&& final(self).cursor_col == old(self).cursor_col
                &&& final(self).undo_views() == old(self).undo_views()
                &&& final(self).redo_views() == old(self).redo_views()
            },
    {
        self.select_start = None;
        match self.undo_stack.pop() {
            None => false,
            Some(snap) => {
                let cur = EditorSnapshot {
                    lines: clone_lines(&self.lines),
                    cursor_row: self.cursor_row,
                    cursor_col: self.cursor_col,
                };
                proof {
                    assert(old(self).undo_views().last() == snap.snap_view());
                    assert(self.undo_views() =~= old(self).undo_views().drop_last());
                }
                self.redo_stack.push(cur);
                proof {
                    assert(self.redo_views() =~= old(self).redo_views().push(old(self).cur_snap()));
                }
                self.lines = snap.lines;
                self.cursor_row = snap.cursor_row;
                self.cursor_col = snap.cursor_col;
                true
            },
        }
    }

    /// Undo an undo: restore the youngest state on the redo stack.
    pub fn redo(&mut self) -> (r: bool)
        requires
            old(self).wf(),
        ensures
            final(self).wf(),
            r == (old(self).redo_views().len() > 0),
            final(self).same_settings(*old(self)),
            final(self).select_start is None,
            r ==> {
                &&& (final(self).lines_view(), final(self).cursor_row as int, final(self).cursor_col as int)
                    == old(self).redo_views().last()
                &&& final(self).redo_views() == old(self).redo_views().drop_last()
                &&& final(self).undo_views() == old(self).undo_views().push(old(self).cur_snap())
            },
            !r ==> {
                &&& final(self).lines_view() == old(self).lines_view()
                &&& final(self).cursor_row == old(self).cursor_row
                &&& final(self).cursor_col == old(self).cursor_col
                &&& final(self).undo_views() == old(self).undo_views()
                &&& final(self).redo_views() == old(self).redo_views()
            },
    {
        self.select_start = None;
        match self.redo_stack.pop() {
            None => false,
            Some(snap) => {
                let cur = EditorSnapshot {
                    lines: clone_lines(&self.lines),
                    cursor_row: self.cursor_row,
                    cursor_col: self.cursor_col,
                };
                proof {
                    assert(old(self).redo_views().last() == snap.snap_view());
                    assert(self.redo_views() =~= old(self).redo_views().drop_last());
                }
                self.undo_stack.push(cur);
                proof {
                    assert(self.undo_views() =~= old(self).undo_views().push(old(self).cur_snap()));
                }
                self.lines = snap.lines;
                self.cursor_row = snap.cursor_row;
                self.cursor_col = snap.cursor_col;
                true
            },
        }
    }
}

} // verus!

verus! {

impl TextEditor {
    /// The buffer, row and column after removing the selected range; the
    /// state itself when there is no selection or it is empty.
    pub open spec fn after_sel_delete(self) -> (Seq<Seq<char>>, int, int) {
        match self.norm_sel() {
            Some((s, e)) => if s != e {
                (delete_range_m(self.lines_view(), s.0, s.1, e.0, e.1), s.0, s.1)
            } else {
                (self.lines_view(), self.cursor_row as int, self.cursor_col as int)
            },
            None => (self.lines_view(), self.cursor_row as int, self.cursor_col as int),
        }
    }

    /// Remove the characters from (sr, sc) inclusive to (er, ec) exclusive,
    /// merging the kept head of the start line with the kept tail of the end
    /// line; the cursor lands on the start of the removed range and the
    /// selection is cleared.  The undo history is not touched.
    #[verifier::loop_isolation(false)]
    fn delete_range(&mut self, sr: usize, sc: usize, er: usize, ec: usize)
        requires
            old(self).wf(),
            sr <= er < old(self).lines_view().len(),
            sc <= old(self).lines_view()[sr as int].len(),
            ec <= old(self).lines_view()[er as int].len(),
            sr == er ==> sc <= ec,
        ensures
            final(self).wf(),
            final(self).lines_view() == delete_range_m(
                old(self).lines_view(), sr as int, sc as int, er as int, ec as int),
            final(self).cursor_row == sr && final(self).cursor_col == sc,
            final(self).select_start is None,
            final(self).same_settings(*old(self)),
            final(self).undo_views() == old(self).undo_views(),
            final(self).redo_views() == old(self).redo_views(),
    {
        let ghost ls0 = self.lines_view();
        let mut merged: Vec<char> = Vec::new();
        let mut i: usize = 0;
        while i < sc
            invariant
                i <= sc,
                sr < self.lines@.len(),
                sc <= self.lines@[sr as int]@.len(),
                merged@ == self.lines@[sr as int]@.subrange(0, i as int),
            decreases sc - i,
        {
            merged.push(self.lines[sr][i]);
            proof {
                assert(merged@ =~= self.lines@[sr as int]@.subrange(0, i + 1 as int));
            }
            i = i + 1;
        }
        let el = self.lines[er].len();
        let mut j: usize = ec;
        while j < el
            invariant
                ec <= j <= el,
                sr < self.lines@.len(),
                er < self.lines@.len(),
                el == self.lines@[er as int]@.len(),
                sc <= self.lines@[sr as int]@.len(),
                merged@ == self.lines@[sr as int]@.subrange(0, sc as int)
                    + self.lines@[er as int]@.subrange(ec as int, j as int),
            decreases el - j,
        {
            merged.push(self.lines[er][j]);
            proof {
                assert(merged@ =~= self.lines@[sr as int]@.subrange(0, sc as int)
                    + self.lines@[er as int]@.subrange(ec as int, j + 1 as int));
            }
            j = j + 1;
        }
        proof {
            assert(self.lines@[er as int]@.subrange(ec as int, el as int)
                =~= self.lines@[er as int]@.skip(ec as int));
        }
        self.lines[sr] = merged;
        let ghost base = self.lines@;
        let total: usize = er - sr;
        let mut rem: usize = total;
        while rem > 0
            invariant
                rem <= total,
                total == er - sr,
                sr < base.len(),
                er < base.len(),
                self.lines@ =~= base.subrange(0, sr + 1 as int)
                    + base.skip(sr + 1 + (total - rem) as int),
                self.same_settings(*old(self)),
                self.undo_stack == old(self).undo_stack,
                self.redo_stack == old(self).redo_stack,
                self.select_start == old(self).select_start,
            decreases rem,
        {
            proof {
                assert(self.lines@.len() == sr + 1 + (base.len() - (sr + 1 + (total - rem) as int)));
            }
            self.lines.remove(sr + 1);
            proof {
                assert(self.lines@ =~= base.subrange(0, sr + 1 as int)
                    + base.skip(sr + 1 + (total - (rem - 1)) as int));
            }
            rem = rem - 1;
        }
        self.cursor_row = sr;
        self.cursor_col = sc;
        self.select_start = None;
        proof {
            let target = delete_range_m(ls0, sr as int, sc as int, er as int, ec as int);
            assert forall|k: int| 0 <= k < self.lines.deep_view().len()
                implies self.lines.deep_view()[k] == target[k] by {
                assert(self.lines.deep_view()[k] == self.lines@[k].deep_view());
                assert(self.lines@[k].deep_view() =~= self.lines@[k]@);
                if k < sr {
                    assert(self.lines@[k] == old(self).lines@[k]);
                    assert(old(self).lines@[k].deep_view() =~= old(self).lines@[k]@);
                } else if k == sr {
                    assert(self.lines@[k]@ == merged@);
                } else {
                    assert(self.lines@[k] == old(self).lines@[k + (er - sr)]);
                    assert(old(self).lines@[k + (er - sr)].deep_view()
                        =~= old(self).lines@[k + (er - sr)]@);
                }
            }
            assert(self.lines.deep_view() =~= target);
        }
    }

    /// Delete the selected text, if the selection covers at least one
    /// character; the removed state is first saved for undo.  Returns
    /// whether anything was deleted.
    pub fn delete_selection(&mut self) -> (r: bool)
        requires
            old(self).wf(),
        ensures
            final(self).wf(),
            final(self).same_settings(*old(self)),
            r == old(self).has_nonempty_sel(),
            final(self).select_start is None,
            (final(self).lines_view(), final(self).cursor_row as int, final(self).cursor_col as int)
                == old(self).after_sel_delete(),
            r ==> final(self).undo_views() == push_bounded(
                old(self).undo_views(), old(self).cur_snap(), old(self).max_histories as int)
                && final(self).redo_views() == Seq::<(Seq<Seq<char>>, int, int)>::empty(),
            !r ==> final(self).undo_views() == old(self).undo_views()
                && final(self).redo_views() == old(self).redo_views(),
    {
        match self.selection_range() {
            None => false,
            Some((s, e)) => {
                if s.0 == e.0 && s.1 == e.1 {
                    self.select_start = None;
                    false
                } else {
                    self.push_undo();
                    self.delete_range(s.0, s.1, e.0, e.1);
                    true
                }
            },
        }
    }

    /// Cut the selection: in this engine cutting removes the selected text;
    /// handing the removed text to a clipboard is the caller's business.
    pub fn cut(&mut self) -> (r: bool)
        requires
            old(self).wf(),
        ensures
            final(self).wf(),
            final(self).same_settings(*old(self)),
            r == old(self).has_nonempty_sel(),
            final(self).select_start is None,
            (final(self).lines_view(), final(self).cursor_row as int, final(self).cursor_col as int)
                == old(self).after_sel_delete(),
    {
        self.delete_selection()
    }

    /// Insert `c` at the cursor, first deleting any selected text; a newline
    /// breaks the current line.  The prior state is saved for undo.
    pub fn insert_char(&mut self, c: char)
        requires
            old(self).wf(),
        ensures
            final(self).wf(),
            final(self).same_settings(*old(self)),
            final(self).select_start is None,
            final(self).undo_views() == push_bounded(
                old(self).undo_views(), old(self).cur_snap(), old(self).max_histories as int),
            final(self).redo_views() == Seq::<(Seq<Seq<char>>, int, int)>::empty(),
            ({
                let (ls, r, i) = old(self).after_sel_delete();
                if c == '\n' {
                    final(self).lines_view() == split_line_m(ls, r, i)
                        && final(self).cursor_row == r + 1 && final(self).cursor_col == 0
                } else {
                    final(self).lines_view() == insert_char_m(ls, r, i, c)
                        && final(self).cursor_row == r && final(self).cursor_col == i + 1
                }
            }),
    {
        self.push_undo();
        if self.has_selection() {
            self.delete_selection_after_undo();
        } else {
            self.select_start = None;
        }
        if c == '\n' {
            self.insert_newline_raw();
        } else {
            self.insert_char_raw(c);
        }
    }

    fn has_selection(&self) -> (r: bool)
        ensures
            r == self.has_nonempty_sel(),
    {
        match self.selection_range() {
            None => false,
            Some((s, e)) => !(s.0 == e.0 && s.1 == e.1),
        }
    }

    /// Selection removal for use after the undo snapshot was already taken.
    fn delete_selection_after_undo(&mut self)
        requires
            old(self).wf(),
        ensures
            final(self).wf(),
            final(self).same_settings(*old(self)),
            final(self).select_start is None,
            (final(self).lines_view(), final(self).cursor_row as int, final(self).cursor_col as int)
                == old(self).after_sel_delete(),
            final(self).undo_views() == old(self).undo_views(),
            final(self).redo_views() == old(self).redo_views(),
    {
        match self.selection_range() {
            None => (),
            Some((s, e)) => {
                if s.0 == e.0 && s.1 == e.1 {
                    self.select_start = None;
                } else {
                    self.delete_range(s.0, s.1, e.0, e.1);
                }
            },
        }
    }

    /// Insert a non-newline character at the cursor.  No selection may be
    /// active and the history is not touched.
    #[verifier::loop_isolation(false)]
    fn insert_char_raw(&mut self, c: char)
        requires
            old(self).wf(),
            old(self).select_start is None,
            c != '\n',
        ensures
            final(self).wf(),
            final(self).same_settings(*old(self)),
            final(self).select_start is None,
            final(self).lines_view() == insert_char_m(
                old(self).lines_view(), old(self).cursor_row as int, old(self).cursor_col as int, c),
            final(self).cursor_row == old(self).cursor_row,
            final(self).cursor_col == old(self).cursor_col + 1,
            final(self).undo_views() == old(self).undo_views(),
            final(self).redo_views() == old(self).redo_views(),
    {
        let row = self.cursor_row;
        let col = self.cursor_col;
        let n = self.lines[row].len();
        let mut nl: Vec<char> = Vec::new();
        let mut i: usize = 0;
        while i < col
            invariant
                i <= col <= n,
                row < self.lines@.len(),
                n == self.lines@[row as int]@.len(),
                nl@ == self.lines@[row as int]@.subrange(0, i as int),
            decreases col - i,
        {
            nl.push(self.lines[row][i]);
            proof {
                assert(nl@ =~= self.lines@[row as int]@.subrange(0, i + 1 as int));
            }
            i = i + 1;
        }
        nl.push(c);
        let mut j: usize = col;
        while j < n
            invariant
                col <= j <= n,
                row < self.lines@.len(),
                n == self.lines@[row as int]@.len(),
                nl@ == self.lines@[row as int]@.subrange(0, col as int).push(c)
                    + self.lines@[row as int]@.subrange(col as int, j as int),
            decreases n - j,
        {
            nl.push(self.lines[row][j]);
            proof {
                assert(nl@ =~= self.lines@[row as int]@.subrange(0, col as int).push(c)
                    + self.lines@[row as int]@.subrange(col as int, j + 1 as int));
            }
            j = j + 1;
        }
        proof {
            assert(nl@ =~= self.lines@[row as int]@.insert(col as int, c));
        }
        let m = nl.len();
        self.lines[row] = nl;
        self.cursor_col = col + 1;
        proof {
            let target = insert_char_m(
                old(self).lines_view(), row as int, col as int, c);
            assert forall|k: int| 0 <= k < self.lines.deep_view().len()
                implies self.lines.deep_view()[k] == target[k] by {
                assert(self.lines@[k].deep_view() =~= self.lines@[k]@);
                if k != row {
                    assert(self.lines@[k] == old(self).lines@[k]);
                }
            }
            assert(self.lines.deep_view() =~= target);
        }
    }

    /// Break the current line at the cursor.  No selection may be active and
    /// the history is not touched.
    #[verifier::loop_isolation(false)]
    fn insert_newline_raw(&mut self)
        requires
            old(self).wf(),
            old(self).select_start is None,
        ensures
            final(self).wf(),
            final(self).same_settings(*old(self)),
            final(self).select_start is None,
            final(self).lines_view() == split_line_m(
                old(self).lines_view(), old(self).cursor_row as int, old(self).cursor_col as int),
            final(self).cursor_row == old(self).cursor_row + 1,
            final(self).cursor_col == 0,
            final(self).undo_views() == old(self).undo_views(),
            final(self).redo_views() == old(self).redo_views(),
    {
        let row = self.cursor_row;
        let col = self.cursor_col;
        let n = self.lines[row].len();
        let mut head: Vec<char> = Vec::new();
        let mut i: usize = 0;
        while i < col
            invariant
                i <= col <= n,
                row < self.lines@.len(),
                n == self.lines@[row as int]@.len(),
                head@ == self.lines@[row as int]@.subrange(0, i as int),
            decreases col - i,
        {
            head.push(self.lines[row][i]);
            proof {
                assert(head@ =~= self.lines@[row as int]@.subrange(0, i + 1 as int));
            }
            i = i + 1;
        }
        let mut tail: Vec<char> = Vec::new();
        let mut j: usize = col;
        while j < n
            invariant
                col <= j <= n,
                row < self.lines@.len(),
                n == self.lines@[row as int]@.len(),
                tail@ == self.lines@[row as int]@.subrange(col as int, j as int),
            decreases n - j,
        {
            tail.push(self.lines[row][j]);
            proof {
                assert(tail@ =~= self.lines@[row as int]@.subrange(col as int, j + 1 as int));
            }
            j = j + 1;
        }
        proof {
            assert(tail@ =~= self.lines@[row as int]@.skip(col as int));
        }
        let nlines = self.lines.len();
        self.lines[row] = head;
        self.lines.insert(row + 1, tail);
        self.cursor_row = row + 1;
        self.cursor_col = 0;
        proof {
            let target = split_line_m(
                old(self).lines_view(), row as int, col as int);
            assert forall|k: int| 0 <= k < self.lines.deep_view().len()
                implies self.lines.deep_view()[k] == target[k] by {
                assert(self.lines@[k].deep_view() =~= self.lines@[k]@);
                if k < row {
                    assert(self.lines@[k] == old(self).lines@[k]);
                } else if k > row + 1 {
                    assert(self.lines@[k] == old(self).lines@[k - 1]);
                }
            }
            assert(self.lines.deep_view() =~= target);
        }
    }
}

} // verus!

verus! {

use vstd::string::StrSliceExecFns;
use vstd::string::StringExecFns;

/// Typing one more character after a typed sequence is the sequence with the
/// character appended.
pub proof fn lemma_type_seq_push(ls: Seq<Seq<char>>, r: int, i: int, s: Seq<char>, x: char)
    ensures
        type_seq_m(ls, r, i, s.push(x)) == ({
            let (l2, r2, i2) = type_seq_m(ls, r, i, s);
            if x == '\n' {
                (split_line_m(l2, r2, i2), r2 + 1, 0int)
            } else {
                (insert_char_m(l2, r2, i2, x), r2, i2 + 1)
            }
        }),
    decreases s.len(),
{
    if s.len() == 0 {
        assert(s.push(x)[0] == x);
        let rest = s.push(x).drop_first();
        assert(rest =~= Seq::<char>::empty());
        assert(type_seq_m(ls, r, i, s) == (ls, r, i));
        assert(type_seq_m(split_line_m(ls, r, i), r + 1, 0, rest)
            == (split_line_m(ls, r, i), r + 1, 0int));
        assert(type_seq_m(insert_char_m(ls, r, i, x), r, i + 1, rest)
            == (insert_char_m(ls, r, i, x), r, i + 1));
    } else {
        assert(s.push(x)[0] == s[0]);
        assert(s.push(x).drop_first() =~= s.drop_first().push(x));
        if s[0] == '\n' {
            lemma_type_seq_push(split_line_m(ls, r, i), r + 1, 0, s.drop_first(), x);
        } else {
            lemma_type_seq_push(insert_char_m(ls, r, i, s[0]), r, i + 1, s.drop_first(), x);
        }
    }
}

/// The characters of `s`, in order.
pub fn str_to_chars(s: &str) -> (v: Vec<char>)
    ensures
        v@ == s@,
{
    let n = s.unicode_len();
    let mut v: Vec<char> = Vec::new();
    let mut i: usize = 0;
    while i < n
        invariant
            i <= n,
            n == s@.len(),
            v@ == s@.subrange(0, i as int),
        decreases n - i,
    {
        v.push(s.get_char(i));
        proof {
            assert(v@ =~= s@.subrange(0, i + 1 as int));
        }
        i = i + 1;
    }
    proof {
        assert(s@.subrange(0, s@.len() as int) =~= s@);
    }
    v
}

/// Relies on `String`'s `FromIterator<char>` implementation: collecting an
/// iterator of characters yields the string of exactly those characters in
/// order.
#[verifier::external_body]
pub(crate) fn chars_to_string(v: &Vec<char>) -> (s: String)
    ensures
        s@ == v@,
{
    v.iter().collect()
}

impl TextEditor {
    /// Type the characters of `text` at the cursor, first deleting any
    /// selected text: each newline breaks the line, every other character is
    /// inserted.  One undo state is saved, unless there is nothing to do.
    pub fn insert_str(&mut self, text: &str)
        requires
            old(self).wf(),
        ensures
            final(self).wf(),
            final(self).same_settings(*old(self)),
            final(self).select_start is None || (text@.len() == 0 && !old(self).has_nonempty_sel()
                && final(self).select_start == old(self).select_start),
            (final(self).lines_view(), final(self).cursor_row as int, final(self).cursor_col as int)
                == ({
                    let (ls, r, i) = old(self).after_sel_delete();
                    type_seq_m(ls, r, i, text@)
                }),
            text@.len() == 0 && !old(self).has_nonempty_sel() ==> {
                &&& final(self).undo_views() == old(self).undo_views()
                &&& final(self).redo_views() == old(self).redo_views()
            },
            text@.len() > 0 || old(self).has_nonempty_sel() ==> {
                &&& final(self).undo_views() == push_bounded(
                    old(self).undo_views(), old(self).cur_snap(), old(self).max_histories as int)
                &&& final(self).redo_views() == Seq::<(Seq<Seq<char>>, int, int)>::empty()
            },
    {
        let chars = str_to_chars(text);
        if chars.len() == 0 && !self.has_selection() {
            return;
        }
        self.push_undo();
        self.delete_selection_after_undo();
        let ghost sd = old(self).after_sel_delete();
        let mut i: usize = 0;
        while i < chars.len()
            invariant
                i <= chars@.len(),
                chars@ == text@,
                self.wf(),
                self.select_start is None,
                self.same_settings(*old(self)),
                self.undo_views() == push_bounded(
                    old(self).undo_views(), old(self).cur_snap(), old(self).max_histories as int),
                self.redo_views() == Seq::<(Seq<Seq<char>>, int, int)>::empty(),
                (self.lines_view(), self.cursor_row as int, self.cursor_col as int)
                    == type_seq_m(sd.0, sd.1, sd.2, chars@.subrange(0, i as int)),
            decreases chars@.len() - i,
        {
            let c = chars[i];
            proof {
                lemma_type_seq_push(sd.0, sd.1, sd.2, chars@.subrange(0, i as int), c);
                assert(chars@.subrange(0, i as int).push(c) =~= chars@.subrange(0, i + 1 as int));
            }
            if c == '\n' {
                self.insert_newline_raw();
            } else {
                self.insert_char_raw(c);
            }
            i = i + 1;
        }
        proof {
            assert(chars@.subrange(0, chars@.len() as int) =~= chars@);
        }
    }

    /// Remove the character before the cursor: with a selection the selected
    /// text is deleted instead; at column 0 the line is joined onto the
    /// previous one; at the very start of the document nothing happens.
    pub fn backspace(&mut self)
        requires
            old(self).wf(),
        ensures
            final(self).wf(),
            final(self).same_settings(*old(self)),
            old(self).has_nonempty_sel() ==> {
                &&& (final(self).lines_view(), final(self).cursor_row as int,
                    final(self).cursor_col as int) == old(self).after_sel_delete()
                &&& final(self).select_start is None
                &&& final(self).undo_views() == push_bounded(
                    old(self).undo_views(), old(self).cur_snap(), old(self).max_histories as int)
            },
            !old(self).has_nonempty_sel() && old(self).cursor_col > 0 ==> {
                &&& final(self).lines_view() == old(self).lines_view().update(
                    old(self).cursor_row as int,
                    old(self).lines_view()[old(self).cursor_row as int].remove(
                        old(self).cursor_col - 1))
                &&& final(self).cursor_row == old(self).cursor_row
                &&& final(self).cursor_col == old(self).cursor_col - 1
                &&& final(self).select_start is None
                &&& final(self).undo_views() == push_bounded(
                    old(self).undo_views(), old(self).cur_snap(), old(self).max_histories as int)
            },
            !old(self).has_nonempty_sel() && old(self).cursor_col == 0 && old(self).cursor_row > 0
                ==> {
                &&& final(self).lines_view() == delete_range_m(
                    old(self).lines_view(), old(self).cursor_row - 1,
                    old(self).lines_view()[old(self).cursor_row - 1].len() as int,
                    old(self).cursor_row as int, 0)
                &&& final(self).cursor_row == old(self).cursor_row - 1
                &&& final(self).cursor_col
                    == old(self).lines_view()[old(self).cursor_row - 1].len()
                &&& final(self).select_start is None
                &&& final(self).undo_views() == push_bounded(
                    old(self).undo_views(), old(self).cur_snap(), old(self).max_histories as int)
            },
            !old(self).has_nonempty_sel() && old(self).cursor_col == 0 && old(self).cursor_row == 0
                ==> {
                &&& final(self).lines_view() == old(self).lines_view()
                &&& final(self).cursor_row == 0 && final(self).cursor_col == 0
                &&& final(self).undo_views() == old(self).undo_views()
                &&& final(self).redo_views() == old(self).redo_views()
            },
    {
        if self.has_selection() {
            self.delete_selection();
        } else if self.cursor_col > 0 {
            self.push_undo();
            self.select_start = None;
            self.remove_char_raw(self.cursor_col - 1);
            self.cursor_col = self.cursor_col - 1;
        } else if self.cursor_row > 0 {
            self.push_undo();
            let prev = self.cursor_row - 1;
            let plen = self.line_len(prev);
            self.delete_range(prev, plen, prev + 1, 0);
        }
    }

    /// Remove the character at the cursor: with a selection the selected
    /// text is deleted instead; at a line end the next line is joined on; at
    /// the very end of the document nothing happens.
    pub fn delete_next(&mut self)
        requires
            old(self).wf(),
        ensures
            final(self).wf(),
            final(self).same_settings(*old(self)),
            old(self).has_nonempty_sel() ==> {
                &&& (final(self).lines_view(), final(self).cursor_row as int,
                    final(self).cursor_col as int) == old(self).after_sel_delete()
                &&& final(self).select_start is None
            },
            !old(self).has_nonempty_sel()
                && old(self).cursor_col < old(self).lines_view()[old(self).cursor_row as int].len()
                ==> {
                &&& final(self).lines_view() == old(self).lines_view().update(
                    old(self).cursor_row as int,
                    old(self).lines_view()[old(self).cursor_row as int].remove(
                        old(self).cursor_col as int))
                &&& final(self).cursor_row == old(self).cursor_row
                &&& final(self).cursor_col == old(self).cursor_col
            },
            !old(self).has_nonempty_sel()
                && old(self).cursor_col == old(self).lines_view()[old(self).cursor_row as int].len()
                && old(self).cursor_row + 1 < old(self).lines_view().len()
                ==> {
                &&& final(self).lines_view() == delete_range_m(
                    old(self).lines_view(), old(self).cursor_row as int,
                    old(self).cursor_col as int, old(self).cursor_row + 1, 0)
                &&& final(self).cursor_row == old(self).cursor_row
                &&& final(self).cursor_col == old(self).cursor_col
            },
            !old(self).has_nonempty_sel()
                && old(self).cursor_col == old(self).lines_view()[old(self).cursor_row as int].len()
                && old(self).cursor_row + 1 == old(self).lines_view().len()
                ==> {
                &&& final(self).lines_view() == old(self).lines_view()
                &&& final(self).cursor_row == old(self).cursor_row
                &&& final(self).cursor_col == old(self).cursor_col
                &&& final(self).undo_views() == old(self).undo_views()
                &&& final(self).redo_views() == old(self).redo_views()
            },
    {
        if self.has_selection() {
            self.delete_selection();
        } else {
            let len = self.line_len(self.cursor_row);
            if self.cursor_col < len {
                self.push_undo();
                self.select_start = None;
                self.remove_char_raw(self.cursor_col);
            } else if self.cursor_row < self.lines.len() - 1 {
                self.push_undo();
                let row = self.cursor_row;
                self.delete_range(row, len, row + 1, 0);
            }
        }
    }

    /// Remove the character at column `at` of the cursor line.  The cursor
    /// and the history are not touched.
    #[verifier::loop_isolation(false)]
    fn remove_char_raw(&mut self, at: usize)
        requires
            old(self).wf(),
            at < old(self).lines_view()[old(self).cursor_row as int].len(),
        ensures
            final(self).lines_view() == old(self).lines_view().update(
                old(self).cursor_row as int,
                old(self).lines_view()[old(self).cursor_row as int].remove(at as int)),
            final(self).cursor_row == old(self).cursor_row,
            final(self).cursor_col == old(self).cursor_col,
            final(self).select_start == old(self).select_start,
            final(self).same_settings(*old(self)),
            final(self).undo_views() == old(self).undo_views(),
            final(self).redo_views() == old(self).redo_views(),
    {
        let row = self.cursor_row;
        let n = self.lines[row].len();
        let mut nl: Vec<char> = Vec::new();
        let mut i: usize = 0;
        while i < n
            invariant
                i <= n,
                nl@ == if i <= at {
                    self.lines@[row as int]@.subrange(0, i as int)
                } else {
                    self.lines@[row as int]@.remove(at as int).subrange(0, i - 1)
                },
            decreases n - i,
        {
            if i != at {
                nl.push(self.lines[row][i]);
            }
            proof {
                let lv = self.lines@[row as int]@;
                if i + 1 <= at {
                    assert(nl@ =~= lv.subrange(0, i + 1 as int));
                } else if i < at {
                    assert(nl@ =~= lv.subrange(0, i + 1 as int));
                } else {
                    assert(nl@ =~= lv.remove(at as int).subrange(0, i as int));
                }
            }
            i = i + 1;
        }
        proof {
            let lv = self.lines@[row as int]@;
            assert(nl@ =~= lv.remove(at as int));
        }
        self.lines[row] = nl;
        proof {
            let target = old(self).lines_view().update(
                row as int, old(self).lines_view()[row as int].remove(at as int));
            assert forall|k: int| 0 <= k < self.lines.deep_view().len()
                implies self.lines.deep_view()[k] == target[k] by {
                assert(self.lines@[k].deep_view() =~= self.lines@[k]@);
                if k != row {
                    assert(self.lines@[k] == old(self).lines@[k]);
                }
            }
            assert(self.lines.deep_view() =~= target);
        }
    }
}

} // verus!

verus! {

/// The lines that a character sequence denotes: split at each `'\n'`; the
/// separator itself is stored nowhere.  A text without newlines is one line;
/// every trailing newline opens a further, empty line.
pub open spec fn split_lines(s: Seq<char>) -> Seq<Seq<char>>
    decreases s.len(),
{
    if s.len() == 0 {
        seq![Seq::<char>::empty()]
    } else {
        let rest = split_lines(s.drop_last());
        if s.last() == '\n' {
            rest.push(Seq::empty())
        } else {
            rest.update(rest.len() - 1, rest.last().push(s.last()))
        }
    }
}

pub proof fn lemma_split_lines_len(s: Seq<char>)
    ensures
        split_lines(s).len() >= 1,
    decreases s.len(),
{
    if s.len() > 0 {
        lemma_split_lines_len(s.drop_last());
    }
}

/// Splitting and rejoining gives the text back: the two representations of
/// the buffer content agree.
pub proof fn lemma_join_split(s: Seq<char>)
    ensures
        joined(split_lines(s)) == s,
    decreases s.len(),
{
    if s.len() == 0 {
        assert(joined(seq![Seq::<char>::empty()]) =~= s);
    } else {
        lemma_join_split(s.drop_last());
        lemma_split_lines_len(s.drop_last());
        let rest = split_lines(s.drop_last());
        if s.last() == '\n' {
            lemma_joined_push_line(rest, Seq::empty());
            assert(joined(split_lines(s)) =~= s);
        } else {
            lemma_joined_last_push_char(rest, s.last());
            assert(joined(split_lines(s)) =~= s);
        }
    }
}

impl TextEditor {
    /// Replace the buffer content with `text`, leaving the image attachment
    /// alone: used when a cached thumbnail is already loaded and must not be
    /// reprocessed.  The prior state is saved for undo; the cursor lands at
    /// the end of the new text.
    pub fn set_text_without_image_processing(&mut self, text: &str)
        requires
            old(self).wf(),
        ensures
            final(self).wf(),
            final(self).same_settings(*old(self)),
            final(self).lines_view() == split_lines(text@),
            final(self).text() == text@,
            final(self).select_start is None,
            final(self).cursor_row == final(self).lines_view().len() - 1,
            final(self).cursor_col == final(self).lines_view().last().len(),
            final(self).undo_views() == push_bounded(
                old(self).undo_views(), old(self).cur_snap(), old(self).max_histories as int),
            final(self).redo_views() == Seq::<(Seq<Seq<char>>, int, int)>::empty(),
    {
        self.push_undo();
        self.replace_lines(text);
    }

    /// Replace the buffer content without touching the history.
    #[verifier::loop_isolation(false)]
    fn replace_lines(&mut self, text: &str)
        requires
            old(self).wf(),
        ensures
            final(self).wf(),
            final(self).same_settings(*old(self)),
            final(self).lines_view() == split_lines(text@),
            final(self).text() == text@,
            final(self).select_start is None,
            final(self).cursor_row == final(self).lines_view().len() - 1,
            final(self).cursor_col == final(self).lines_view().last().len(),
            final(self).undo_views() == old(self).undo_views(),
            final(self).redo_views() == old(self).redo_views(),
    {
        let chars = str_to_chars(text);
        let mut lines: Vec<Vec<char>> = Vec::new();
        let mut cur: Vec<char> = Vec::new();
        let mut i: usize = 0;
        while i < chars.len()
            invariant
                i <= chars@.len(),
                chars@ == text@,
                split_lines(chars@.subrange(0, i as int)) == lines.deep_view().push(cur@),
            decreases chars@.len() - i,
        {
            let c = chars[i];
            proof {
                let pre = chars@.subrange(0, i as int);
                let post = chars@.subrange(0, i + 1 as int);
                assert(post.drop_last() =~= pre);
                assert(post.last() == c);
                lemma_split_lines_len(pre);
            }
            if c == '\n' {
                lines.push(cur);
                cur = Vec::new();
                proof {
                    let post = chars@.subrange(0, i + 1 as int);
                    assert(split_lines(post) =~~= lines.deep_view().push(cur@));
                }
            } else {
                cur.push(c);
                proof {
                    let post = chars@.subrange(0, i + 1 as int);
                    assert(split_lines(post) =~~= lines.deep_view().push(cur@));
                }
            }
            i = i + 1;
        }
        proof {
            assert(chars@.subrange(0, chars@.len() as int) =~= chars@);
        }
        let nrows = lines.len();
        let ncols = cur.len();
        lines.push(cur);
        proof {
            assert(lines.deep_view() =~~= split_lines(text@));
            lemma_join_split(text@);
            lemma_split_lines_len(text@);
        }
        self.lines = lines;
        self.cursor_row = nrows;
        self.cursor_col = ncols;
        self.select_start = None;
    }

    /// Replace the buffer content with `text` and drop any image attachment.
    /// Loaded text may reference an inline image; resolving and loading it
    /// is the caller's business (see `image_references`).
    pub fn set_text(&mut self, text: &str)
        requires
            old(self).wf(),
        ensures
            final(self).wf(),
            final(self).lines_view() == split_lines(text@),
            final(self).text() == text@,
            final(self).select_start is None,
            final(self).cursor_row == final(self).lines_view().len() - 1,
            final(self).cursor_col == final(self).lines_view().last().len(),
            final(self).image_path is None,
            !final(self).show_image_preview,
            !final(self).image_full_screen,
            final(self).mouse_down == old(self).mouse_down,
            final(self).wrap_on == old(self).wrap_on,
            final(self).wrap_width == old(self).wrap_width,
            final(self).area == old(self).area,
            final(self).max_histories == old(self).max_histories,
            final(self).undo_views() == push_bounded(
                old(self).undo_views(), old(self).cur_snap(), old(self).max_histories as int),
            final(self).redo_views() == Seq::<(Seq<Seq<char>>, int, int)>::empty(),
    {
        self.push_undo();
        self.replace_lines(text);
        self.image_path = None;
        self.show_image_preview = false;
        self.image_full_screen = false;
    }

    /// Empty the buffer and drop any image attachment.  When the buffer
    /// already was a single empty line the history is untouched, else the
    /// prior state is saved for undo.
    pub fn clear(&mut self)
        requires
            old(self).wf(),
        ensures
            final(self).wf(),
            final(self).lines_view() == seq![Seq::<char>::empty()],
            final(self).text() == Seq::<char>::empty(),
            final(self).cursor_row == 0 && final(self).cursor_col == 0,
            final(self).select_start is None,
            final(self).image_path is None,
            !final(self).show_image_preview,
            !final(self).image_full_screen,
            final(self).mouse_down == old(self).mouse_down,
            final(self).wrap_on == old(self).wrap_on,
            final(self).wrap_width == old(self).wrap_width,
            final(self).area == old(self).area,
            final(self).max_histories == old(self).max_histories,
            old(self).lines_view() == seq![Seq::<char>::empty()]
                && old(self).cursor_row == 0 && old(self).cursor_col == 0 ==> {
                &&& final(self).undo_views() == old(self).undo_views()
                &&& final(self).redo_views() == old(self).redo_views()
            },
            !(old(self).lines_view() == seq![Seq::<char>::empty()]
                && old(self).cursor_row == 0 && old(self).cursor_col == 0) ==> {
                &&& final(self).undo_views() == push_bounded(
                    old(self).undo_views(), old(self).cur_snap(), old(self).max_histories as int)
                &&& final(self).redo_views() == Seq::<(Seq<Seq<char>>, int, int)>::empty()
            },
    {
        let already_empty = self.lines.len() == 1 && self.lines[0].len() == 0
            && self.cursor_row == 0 && self.cursor_col == 0;
        proof {
            if self.lines@.len() == 1 && self.lines@[0]@.len() == 0 {
                assert(self.lines@[0].deep_view() =~= self.lines@[0]@);
                assert(self.lines_view() =~~= seq![Seq::<char>::empty()]);
            }
            if self.lines_view() == seq![Seq::<char>::empty()] {
                assert(self.lines_view().len() == 1);
                assert(self.lines@[0].deep_view() =~= self.lines@[0]@);
                assert(self.lines@[0]@.len() == 0);
            }
        }
        if !already_empty {
            self.push_undo();
            self.replace_lines("");
            proof {
                reveal_strlit("");
                assert(""@ =~= Seq::<char>::empty());
                assert(split_lines(Seq::<char>::empty()) == seq![Seq::<char>::empty()]);
            }
        } else {
            self.select_start = None;
        }
        self.image_path = None;
        self.show_image_preview = false;
        self.image_full_screen = false;
    }

    /// The joined logical text, as characters.
    #[verifier::loop_isolation(false)]
    pub fn text_chars(&self) -> (v: Vec<char>)
        requires
            self.wf(),
        ensures
            v@ == self.text(),
    {
        let mut v: Vec<char> = Vec::new();
        let mut i: usize = 0;
        while i < self.lines.len()
            invariant
                i <= self.lines@.len(),
                v@ == joined(self.lines_view().subrange(0, i as int)),
            decreases self.lines@.len() - i,
        {
            if i > 0 {
                v.push('\n');
            }
            let n = self.lines[i].len();
            let mut j: usize = 0;
            while j < n
                invariant
                    j <= n,
                    i < self.lines@.len(),
                    n == self.lines@[i as int]@.len(),
                    v@ == if i == 0 {
                        self.lines_view()[0].subrange(0, j as int)
                    } else {
                        joined(self.lines_view().subrange(0, i as int)) + seq!['\n']
                            + self.lines_view()[i as int].subrange(0, j as int)
                    },
                decreases n - j,
            {
                v.push(self.lines[i][j]);
                proof {
                    assert(self.lines@[i as int].deep_view() =~= self.lines@[i as int]@);
                    if i == 0 {
                        assert(v@ =~= self.lines_view()[0].subrange(0, j + 1 as int));
                    } else {
                        assert(v@ =~= joined(self.lines_view().subrange(0, i as int)) + seq!['\n']
                            + self.lines_view()[i as int].subrange(0, j + 1 as int));
                    }
                }
                j = j + 1;
            }
            proof {
                let ls = self.lines_view();
                assert(ls[i as int].subrange(0, ls[i as int].len() as int) =~= ls[i as int]);
                assert(ls.subrange(0, i + 1 as int) =~= ls.subrange(0, i as int).push(ls[i as int]));
                if i == 0 {
                    assert(joined(seq![ls[0]]) == ls[0]);
                    assert(ls.subrange(0, 1) =~= seq![ls[0]]);
                    assert(v@ =~= joined(ls.subrange(0, 1)));
                } else {
                    lemma_joined_push_line(ls.subrange(0, i as int), ls[i as int]);
                    assert(v@ =~= joined(ls.subrange(0, i + 1 as int)));
                }
            }
            i = i + 1;
        }
        proof {
            assert(self.lines_view().subrange(0, self.lines_view().len() as int)
                =~= self.lines_view());
        }
        v
    }

    /// The joined logical text, as one string.
    pub fn to_text(&self) -> (s: String)
        requires
            self.wf(),
        ensures
            s@ == self.text(),
    {
        let v = self.text_chars();
        chars_to_string(&v)
    }

    /// The logical lines, as strings: presentation wrapping plays no part
    /// here.
    pub fn lines(&self) -> (r: Vec<String>)
        requires
            self.wf(),
        ensures
            r.deep_view() == self.lines_view(),
    {
        let mut r: Vec<String> = Vec::new();
        let mut i: usize = 0;
        while i < self.lines.len()
            invariant
                i <= self.lines@.len(),
                r@.len() == i,
                forall|j: int| 0 <= j < i ==> (#[trigger] r@[j])@ == self.lines@[j]@,
            decreases self.lines@.len() - i,
        {
            r.push(chars_to_string(&self.lines[i]));
            i = i + 1;
        }
        proof {
            assert forall|j: int| 0 <= j < r@.len()
                implies r.deep_view()[j] == self.lines.deep_view()[j] by {
                assert(self.lines@[j].deep_view() =~= self.lines@[j]@);
            }
            assert(r.deep_view() =~= self.lines.deep_view());
        }
        r
    }
}

} // verus!

verus! {

/// Character offset of the start of line `row` in the joined text: every
/// earlier line contributes its length plus one separator.
pub open spec fn offset_to(ls: Seq<Seq<char>>, row: int) -> int
    decreases row,
{
    if row <= 0 {
        0
    } else {
        offset_to(ls, row - 1) + ls[row - 1].len() + 1
    }
}

pub proof fn lemma_offset_nonneg(ls: Seq<Seq<char>>, row: int)
    requires
        0 <= row <= ls.len(),
    ensures
        offset_to(ls, row) >= row,
    decreases row,
{
    if row > 0 {
        lemma_offset_nonneg(ls, row - 1);
    }
}

pub proof fn lemma_offset_mono(ls: Seq<Seq<char>>, a: int, b: int)
    requires
        0 <= a <= b <= ls.len(),
    ensures
        offset_to(ls, a) <= offset_to(ls, b),
    decreases b - a,
{
    if a < b {
        lemma_offset_mono(ls, a, b - 1);
    }
}

pub proof fn lemma_offset_drop(ls: Seq<Seq<char>>, row: int)
    requires
        1 <= row <= ls.len(),
    ensures
        offset_to(ls, row) == ls[0].len() + 1 + offset_to(ls.drop_first(), row - 1),
    decreases row,
{
    if row == 1 {
        assert(offset_to(ls, 0) == 0);
        assert(offset_to(ls.drop_first(), 0) == 0);
    } else {
        lemma_offset_drop(ls, row - 1);
        assert(ls.drop_first()[row - 2] == ls[row - 1]);
        assert(offset_to(ls, row) == offset_to(ls, row - 1) + ls[row - 1].len() + 1);
        assert(offset_to(ls.drop_first(), row - 1)
            == offset_to(ls.drop_first(), row - 2) + ls.drop_first()[row - 2].len() + 1);
    }
}

/// A valid position's character offset lies within the joined text.
pub proof fn lemma_offset_in_text(ls: Seq<Seq<char>>, row: int, col: int)
    requires
        ls.len() >= 1,
        0 <= row < ls.len(),
        0 <= col <= ls[row].len(),
    ensures
        0 <= offset_to(ls, row) + col <= joined(ls).len(),
    decreases ls.len(),
{
    lemma_offset_nonneg(ls, row);
    if row == 0 {
        if ls.len() > 1 {
            assert(joined(ls) == ls[0] + seq!['\n'] + joined(ls.drop_first()));
        }
    } else {
        lemma_offset_drop(ls, row);
        lemma_offset_in_text(ls.drop_first(), row - 1, col);
        assert(joined(ls) == ls[0] + seq!['\n'] + joined(ls.drop_first()));
    }
}

impl TextEditor {
    /// The character offset of a valid position in the joined text.
    #[verifier::loop_isolation(false)]
    fn offset_at(&self, row: usize, col: usize) -> (o: usize)
        requires
            self.wf(),
            self.pos_valid(row as int, col as int),
            joined(self.lines_view()).len() <= usize::MAX,
        ensures
            o == offset_to(self.lines_view(), row as int) + col,
    {
        proof {
            lemma_offset_in_text(self.lines_view(), row as int, col as int);
        }
        let mut o: usize = 0;
        let mut i: usize = 0;
        while i < row
            invariant
                i <= row,
                o == offset_to(self.lines_view(), i as int),
            decreases row - i,
        {
            proof {
                lemma_offset_mono(self.lines_view(), i + 1, row as int);
                lemma_offset_in_text(self.lines_view(), row as int, 0);
            }
            o = o + self.lines[i].len() + 1;
            i = i + 1;
        }
        o + col
    }

    /// The selected text: the slice of the joined text between the
    /// normalized selection's character offsets, which count one position
    /// per character and one per line separator.
    pub fn selected_text(&self) -> (r: Option<String>)
        requires
            self.wf(),
        ensures
            match r {
                None => self.norm_sel() is None,
                Some(t) => match self.norm_sel() {
                    Some((s, e)) => t@ == self.text().subrange(
                        offset_to(self.lines_view(), s.0) + s.1,
                        offset_to(self.lines_view(), e.0) + e.1,
                    ),
                    None => false,
                },
            },
    {
        match self.selection_range() {
            None => None,
            Some((s, e)) => {
                let jv = self.text_chars();
                let total = jv.len();
                let so = self.offset_at(s.0, s.1);
                let eo = self.offset_at(e.0, e.1);
                proof {
                    lemma_offset_in_text(self.lines_view(), s.0 as int, s.1 as int);
                    lemma_offset_in_text(self.lines_view(), e.0 as int, e.1 as int);
                    if s.0 < e.0 {
                        lemma_offset_mono(self.lines_view(), s.0 + 1, e.0 as int);
                    }
                    assert(so <= eo);
                }
                let mut out: Vec<char> = Vec::new();
                let mut i: usize = so;
                while i < eo
                    invariant
                        so <= i <= eo,
                        eo <= jv@.len(),
                        jv@ == self.text(),
                        out@ == self.text().subrange(so as int, i as int),
                    decreases eo - i,
                {
                    out.push(jv[i]);
                    proof {
                        assert(out@ =~= self.text().subrange(so as int, i + 1 as int));
                    }
                    i = i + 1;
                }
                Some(chars_to_string(&out))
            },
        }
    }

    /// Record an image attachment; loading replaces any previous one and
    /// makes the preview visible.
    pub fn load_image(&mut self, path: &str)
        requires
            old(self).wf(),
        ensures
            final(self).wf(),
            match final(self).image_path {
                Some(p) => p@ == path@,
                None => false,
            },
            final(self).show_image_preview,
            final(self).lines_view() == old(self).lines_view(),
            final(self).cursor_row == old(self).cursor_row,
            final(self).cursor_col == old(self).cursor_col,
            final(self).select_start == old(self).select_start,
            final(self).mouse_down == old(self).mouse_down,
            final(self).wrap_on == old(self).wrap_on,
            final(self).wrap_width == old(self).wrap_width,
            final(self).area == old(self).area,
            final(self).image_full_screen == old(self).image_full_screen,
            final(self).max_histories == old(self).max_histories,
            final(self).undo_views() == old(self).undo_views(),
            final(self).redo_views() == old(self).redo_views(),
    {
        self.image_path = Some(String::from_str(path));
        self.show_image_preview = true;
    }

    /// At most one image is attached; this reports whether one is.
    pub fn has_image(&self) -> (r: bool)
        ensures
            r == (self.image_path is Some),
    {
        match &self.image_path {
            Some(_) => true,
            None => false,
        }
    }

    /// Toggle the preview panel; without an image the toggle is ignored.
    pub fn toggle_image_preview(&mut self)
        requires
            old(self).wf(),
        ensures
            final(self).wf(),
            old(self).image_path is Some ==> *final(self) == (TextEditor {
                show_image_preview: !old(self).show_image_preview,
                ..*old(self)
            }),
            old(self).image_path is None ==> *final(self) == *old(self),
    {
        if self.has_image() {
            self.show_image_preview = !self.show_image_preview;
        }
    }

    pub fn is_image_preview_visible(&self) -> (r: bool)
        ensures
            r == self.show_image_preview,
    {
        self.show_image_preview
    }

    pub fn set_image_preview_visible(&mut self, visible: bool)
        requires
            old(self).wf(),
        ensures
            final(self).wf(),
            *final(self) == (TextEditor { show_image_preview: visible, ..*old(self) }),
    {
        self.show_image_preview = visible;
    }

    pub fn toggle_image_full_screen(&mut self)
        requires
            old(self).wf(),
        ensures
            final(self).wf(),
            *final(self) == (TextEditor {
                image_full_screen: !old(self).image_full_screen,
                ..*old(self)
            }),
    {
        self.image_full_screen = !self.image_full_screen;
    }

    pub fn is_image_full_screen(&self) -> (r: bool)
        ensures
            r == self.image_full_screen,
    {
        self.image_full_screen
    }

    /// Enable wrapping at the given width.  Wrapping affects presentation
    /// only: the stored lines are untouched.
    pub fn set_wrap_width(&mut self, width: usize)
        requires
            old(self).wf(),
            width >= 1,
        ensures
            final(self).wf(),
            *final(self) == (TextEditor { wrap_on: true, wrap_width: width, ..*old(self) }),
    {
        self.wrap_on = true;
        self.wrap_width = width;
    }

    /// Enable wrapping at a width computed from the stored area: the area's
    /// width less two border and two padding columns, and never below 20;
    /// without an area a default width of 80 is used.
    pub fn enable_wrapping(&mut self)
        requires
            old(self).wf(),
        ensures
            final(self).wf(),
            final(self).wrap_on,
            match old(self).area {
                Some(a) => final(self).wrap_width == if a.width >= 24 { a.width - 4 } else { 20int },
                None => final(self).wrap_width == 80,
            },
            *final(self) == (TextEditor {
                wrap_on: true,
                wrap_width: final(self).wrap_width,
                ..*old(self)
            }),
    {
        match self.area {
            Some(a) => {
                let usable: u16 = if a.width >= 4 { a.width - 4 } else { 0 };
                let w: usize = if (usable as usize) > 20 { usable as usize } else { 20 };
                self.wrap_on = true;
                self.wrap_width = w;
            },
            None => {
                self.wrap_on = true;
                self.wrap_width = 80;
            },
        }
    }

    pub fn is_wrapping_enabled(&self) -> (r: bool)
        ensures
            r == self.wrap_on,
    {
        self.wrap_on
    }

    /// Record the rendered area, and recompute the wrap width from it.
    pub fn set_area(&mut self, area: Rect)
        requires
            old(self).wf(),
        ensures
            final(self).wf(),
            final(self).area == Some(area),
            final(self).wrap_on,
            final(self).wrap_width == if area.width >= 24 { area.width - 4 } else { 20int },
            *final(self) == (TextEditor {
                area: Some(area),
                wrap_on: true,
                wrap_width: final(self).wrap_width,
                ..*old(self)
            }),
    {
        self.area = Some(area);
        self.enable_wrapping();
    }
}

} // verus!

verus! {

pub proof fn lemma_vrows_nonneg(ls: Seq<Seq<char>>, row: int, w: int)
    requires
        w >= 1,
        0 <= row <= ls.len(),
    ensures
        vrows_before(ls, row, w) >= row,
    decreases row,
{
    if row > 0 {
        lemma_vrows_nonneg(ls, row - 1, w);
        assert(ls[row - 1].len() as int / w >= 0);
    }
}

/// Addition clamped to `usize`.
fn add_sat(a: usize, b: usize) -> (r: usize)
    ensures
        r == sat_usize(a + b),
{
    if a <= usize::MAX - b {
        a + b
    } else {
        usize::MAX
    }
}

proof fn lemma_sat_add(a: int, b: int)
    requires
        a >= 0,
        b >= 0,
    ensures
        sat_usize(sat_usize(a) + b) == sat_usize(a + b),
{
}

/// The logical position that a rendered cell addresses: the rendered rows of
/// the lines are counted off; within the found line the column is the
/// rendered row's offset plus the rendered column, clamped to the line end.
/// A cell below the last rendered row addresses the last line.
pub open spec fn pos_of_visual(ls: Seq<Seq<char>>, w: int, vrow: int, vcol: int) -> (int, int)
    decreases ls.len(),
{
    if ls.len() == 0 {
        (0int, 0int)
    } else {
        let rows0 = rows_in_line(ls[0].len() as int, w);
        if vrow < rows0 || ls.len() == 1 {
            let vr = if vrow < 0 {
                0int
            } else if vrow < rows0 {
                vrow
            } else {
                rows0 - 1
            };
            (0int, clamped(vr * w + vcol, ls[0].len() as int))
        } else {
            let p = pos_of_visual(ls.drop_first(), w, vrow - rows0, vcol);
            (p.0 + 1, p.1)
        }
    }
}

pub proof fn lemma_pos_of_visual_valid(ls: Seq<Seq<char>>, w: int, vrow: int, vcol: int)
    requires
        ls.len() >= 1,
        w >= 1,
        vrow >= 0,
        vcol >= 0,
    ensures
        ({
            let p = pos_of_visual(ls, w, vrow, vcol);
            0 <= p.0 < ls.len() && 0 <= p.1 <= ls[p.0].len()
        }),
    decreases ls.len(),
{
    let rows0 = rows_in_line(ls[0].len() as int, w);
    assert(ls[0].len() as int / w >= 0);
    if vrow < rows0 || ls.len() == 1 {
        let vr = if vrow < 0 { 0int } else if vrow < rows0 { vrow } else { rows0 - 1 };
        assert(vr * w >= 0) by (nonlinear_arith)
            requires vr >= 0, w >= 1,
        ;
    } else {
        lemma_pos_of_visual_valid(ls.drop_first(), w, vrow - rows0, vcol);
    }
}

impl TextEditor {
    /// The on-screen position of the logical cursor in the wrapped layout,
    /// relative to the given drawing area: `None` when the cursor falls
    /// outside that area.  The answer is a pure function of the buffer: the
    /// mapping is idempotent, repeated queries return identical coordinates.
    pub fn visual_cursor_position(&self, area_width: u16, area_height: u16) -> (r: Option<(u16, u16)>)
        requires
            self.wf(),
        ensures
            ({
                let vr = sat_usize(self.spec_visual_row());
                let vc = self.spec_visual_col();
                if vc < area_width && vr < area_height {
                    r == Some((vc as u16, vr as u16))
                } else {
                    r is None
                }
            }),
    {
        let w = self.wrap_width;
        let mut acc: usize = 0;
        let mut i: usize = 0;
        while i < self.cursor_row
            invariant
                self.wf(),
                w == self.wrap_width,
                i <= self.cursor_row,
                acc == sat_usize(vrows_before(self.lines_view(), i as int, w as int)),
            decreases self.cursor_row - i,
        {
            let q = self.lines[i].len() / w;
            proof {
                lemma_vrows_nonneg(self.lines_view(), i as int, w as int);
                lemma_sat_add(vrows_before(self.lines_view(), i as int, w as int), q as int);
                lemma_sat_add(vrows_before(self.lines_view(), i as int, w as int) + q, 1);
            }
            acc = add_sat(add_sat(acc, q), 1);
            i = i + 1;
        }
        proof {
            lemma_vrows_nonneg(self.lines_view(), self.cursor_row as int, w as int);
            lemma_sat_add(
                vrows_before(self.lines_view(), self.cursor_row as int, w as int),
                self.cursor_col as int / w as int,
            );
        }
        let vrow = add_sat(acc, self.cursor_col / w);
        let vcol = self.cursor_col % w;
        if vcol < area_width as usize && vrow < area_height as usize {
            Some((vcol as u16, vrow as u16))
        } else {
            None
        }
    }

    /// The logical position addressed by a rendered cell, as concrete values.
    #[verifier::loop_isolation(false)]
    fn position_at_visual(&self, vrow: usize, vcol: usize) -> (rc: (usize, usize))
        requires
            self.wf(),
        ensures
            (rc.0 as int, rc.1 as int) == pos_of_visual(
                self.lines_view(), self.wrap_width as int, vrow as int, vcol as int),
            self.pos_valid(rc.0 as int, rc.1 as int),
    {
        proof {
            lemma_pos_of_visual_valid(
                self.lines_view(), self.wrap_width as int, vrow as int, vcol as int);
        }
        let w = self.wrap_width;
        let n = self.lines.len();
        let mut r: usize = 0;
        let mut rem: usize = vrow;
        proof {
            assert(self.lines_view().skip(0) =~= self.lines_view());
        }
        while r < n - 1 && rem > self.lines[r].len() / w
            invariant
                r < n,
                rem <= vrow,
                ({
                    let p = pos_of_visual(
                        self.lines_view().skip(r as int), w as int, rem as int, vcol as int);
                    pos_of_visual(self.lines_view(), w as int, vrow as int, vcol as int)
                        == (p.0 + r, p.1)
                }),
            decreases n - r,
        {
            let q = self.lines[r].len() / w;
            proof {
                let tail = self.lines_view().skip(r as int);
                assert(tail[0] == self.lines_view()[r as int]);
                assert(tail.drop_first() =~= self.lines_view().skip(r + 1 as int));
            }
            rem = rem - (q + 1);
            r = r + 1;
        }
        let len = self.lines[r].len();
        let q = len / w;
        let vr: usize = if rem <= q { rem } else { q };
        proof {
            let tail = self.lines_view().skip(r as int);
            assert(tail[0] == self.lines_view()[r as int]);
            assert(vr * w <= q * w) by (nonlinear_arith)
                requires vr <= q, w >= 1, vr >= 0,
            ;
            assert(q * w <= len) by (nonlinear_arith)
                requires q == len as int / w as int, w >= 1, len >= 0,
            ;
        }
        let vrw: usize = vr * w;
        let col: usize = if vcol <= len - vrw { vrw + vcol } else { len };
        (r, col)
    }
}

/// What one pointer event does to the editing engine: the relation between
/// the editor before and after, and whether the event was handled.  The
/// text is never touched.
pub open spec fn mouse_event_post(
    mouse: MouseInput,
    t0: TextEditor,
    t1: TextEditor,
    handled: bool,
) -> bool {
    &&& t1.lines_view() == t0.lines_view()
    &&& t1.text() == t0.text()
    &&& match mouse.kind {
        MouseKind::ScrollUp => handled && t1.same_but_cursor(t0)
            && (t1.cursor_row as int, t1.cursor_col as int)
                == t0.cursor_after(CursorMove::Up),
        MouseKind::ScrollDown => handled && t1.same_but_cursor(t0)
            && (t1.cursor_row as int, t1.cursor_col as int)
                == t0.cursor_after(CursorMove::Down),
        MouseKind::Moved => !handled && t1 == t0,
        MouseKind::Down => match t0.area {
            Some(a) => if a.width > 2 && a.height > 2
                && a.x + 1 <= mouse.column < a.x + a.width - 1
                && a.y + 1 <= mouse.row < a.y + a.height - 1 {
                let p = pos_of_visual(t0.lines_view(), t0.wrap_width as int,
                    mouse.row - (a.y + 1), mouse.column - (a.x + 1));
                handled
                    && t1.cursor_row == p.0 && t1.cursor_col == p.1
                    && t1.select_start == Some((p.0 as usize, p.1 as usize))
                    && t1.mouse_down
            } else {
                !handled && t1 == t0
            },
            None => !handled && t1 == t0,
        },
        MouseKind::Drag => if t0.mouse_down && t0.area is Some {
            let a = t0.area.unwrap();
            let vcol = if mouse.column > a.x + 1 { mouse.column - (a.x + 1) } else { 0int };
            let vrow = if mouse.row > a.y + 1 { mouse.row - (a.y + 1) } else { 0int };
            let p = pos_of_visual(t0.lines_view(), t0.wrap_width as int,
                vrow, vcol);
            handled
                && t1.cursor_row == p.0 && t1.cursor_col == p.1
                && t1.select_start == t0.select_start
                && t1.mouse_down
        } else {
            !handled && t1 == t0
        },
        MouseKind::Up => if t0.mouse_down {
            handled && t1 == (TextEditor { mouse_down: false, ..t0 })
        } else {
            !handled && t1 == t0
        },
    }
}

impl TextEditor {
    /// React to a pointer event.  A press inside the stored area places the
    /// cursor on the addressed logical position and anchors a selection
    /// there; dragging extends the selection live; releasing finalizes it
    /// without discarding.  A drag with no preceding press is not handled.
    /// Wheel scrolling moves the cursor by one logical line.
    pub fn handle_mouse_event(&mut self, mouse: MouseInput) -> (handled: bool)
        requires
            old(self).wf(),
        ensures
            final(self).wf(),
            mouse_event_post(mouse, *old(self), *final(self), handled),
    {
        match mouse.kind {
            MouseKind::ScrollUp => {
                self.move_cursor(CursorMove::Up);
                true
            },
            MouseKind::ScrollDown => {
                self.move_cursor(CursorMove::Down);
                true
            },
            MouseKind::Moved => false,
            MouseKind::Down => {
                match self.area {
                    None => false,
                    Some(a) => {
                        if a.width > 2 && a.height > 2 {
                            let x0: u32 = a.x as u32 + 1;
                            let y0: u32 = a.y as u32 + 1;
                            let x1: u32 = a.x as u32 + a.width as u32 - 1;
                            let y1: u32 = a.y as u32 + a.height as u32 - 1;
                            if mouse.column as u32 >= x0 && (mouse.column as u32) < x1
                                && mouse.row as u32 >= y0 && (mouse.row as u32) < y1 {
                                let p = self.position_at_visual(
                                    (mouse.row as u32 - y0) as usize,
                                    (mouse.column as u32 - x0) as usize,
                                );
                                self.cursor_row = p.0;
                                self.cursor_col = p.1;
                                self.select_start = Some((p.0, p.1));
                                self.mouse_down = true;
                                true
                            } else {
                                false
                            }
                        } else {
                            false
                        }
                    },
                }
            },
            MouseKind::Drag => {
                if !self.mouse_down {
                    return false;
                }
                match self.area {
                    None => false,
                    Some(a) => {
                        let x0: u32 = a.x as u32 + 1;
                        let y0: u32 = a.y as u32 + 1;
                        let vcol: usize = if mouse.column as u32 > x0 {
                            (mouse.column as u32 - x0) as usize
                        } else {
                            0
                        };
                        let vrow: usize = if mouse.row as u32 > y0 {
                            (mouse.row as u32 - y0) as usize
                        } else {
                            0
                        };
                        let p = self.position_at_visual(vrow, vcol);
                        self.cursor_row = p.0;
                        self.cursor_col = p.1;
                        true
                    },
                }
            },
            MouseKind::Up => {
                if self.mouse_down {
                    self.mouse_down = false;
                    true
                } else {
                    false
                }
            },
        }
    }
}

} // verus!
