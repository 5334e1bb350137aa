use vstd::prelude::*;
use crate::input::{KeyCode, KeyInput, KeyResult};
use crate::text_editor::{CursorMove, TextEditor, delete_range_m, insert_char_m, offset_to, push_bounded, split_line_m, type_seq_m};

verus! {

/// Key dispatch for the editing engine: clipboard chords, history chords,
/// select-all, the image-paste chord and word-boundary navigation.
pub struct KeyHandler;

/// The key is the given character with control as the only modifier.
pub open spec fn ctrl_only(key: KeyInput, c: char) -> bool {
    key.code == KeyCode::Char(c) && key.ctrl && !key.shift && !key.alt && !key.super_key
}

/// The clipboard content after a copy: the selected text if a selection
/// exists, else the whole text when it is not empty, else the old content.
pub open spec fn copied_text(ed: TextEditor, clip: Seq<char>) -> Seq<char> {
    match ed.norm_sel() {
        Some((s, e)) => ed.text().subrange(
            offset_to(ed.lines_view(), s.0) + s.1,
            offset_to(ed.lines_view(), e.0) + e.1,
        ),
        None => if ed.text().len() > 0 {
            ed.text()
        } else {
            clip
        },
    }
}


/// The keys that the chord handler takes for itself.
pub open spec fn is_engine_chord(key: KeyInput) -> bool {
    ||| ctrl_only(key, 'c')
    ||| ctrl_only(key, 'x')
    ||| ctrl_only(key, 'v')
    ||| ctrl_only(key, 'a')
    ||| (key.code == KeyCode::Char('\u{5}') && !key.ctrl)
    ||| ctrl_only(key, 'p')
    ||| (key.code == KeyCode::Char('z') && key.ctrl)
    ||| (key.code == KeyCode::Left && key.alt && !key.ctrl)
    ||| (key.code == KeyCode::Right && key.alt && !key.ctrl)
}

/// What handling an engine chord does: the relation between the editor and
/// clipboard before and after, and the reported result.
pub open spec fn chord_post(
    key: KeyInput,
    t0: TextEditor,
    t1: TextEditor,
    c0: Seq<char>,
    c1: Seq<char>,
    clipboard_image: Option<Vec<u8>>,
    has_existing_image: bool,
    r: Option<KeyResult>,
) -> bool {
    &&& t1.same_settings(t0)
    &&& (ctrl_only(key, 'c') ==> {
        &&& c1 == copied_text(t0, c0)
        &&& t1 == t0
        &&& r matches Some(KeyResult::Handled(b))
            && b == (t0.norm_sel() is Some || t0.text().len() > 0)
    })
    &&& (ctrl_only(key, 'x') ==> {
        &&& match t0.norm_sel() {
            Some(_) => {
                &&& c1 == copied_text(t0, c0)
                &&& (t1.lines_view(), t1.cursor_row as int, t1.cursor_col as int)
                    == t0.after_sel_delete()
                &&& r matches Some(KeyResult::Handled(b)) && b
            },
            None => {
                &&& t1 == t0
                &&& c1 == c0
                &&& r matches Some(KeyResult::Handled(b)) && !b
            },
        }
    })
    &&& (ctrl_only(key, 'v') ==> {
        &&& (t1.lines_view(), t1.cursor_row as int, t1.cursor_col as int) == ({
            let (ls, row, i) = t0.after_sel_delete();
            type_seq_m(ls, row, i, c0)
        })
        &&& c1 == c0
        &&& r matches Some(KeyResult::Handled(b)) && b
    })
    &&& (ctrl_only(key, 'a') || (key.code == KeyCode::Char('\u{5}') && !key.ctrl) ==> {
        &&& t1 == (TextEditor {
            select_start: Some((0, 0)),
            cursor_row: (t0.lines_view().len() - 1) as usize,
            cursor_col: t0.lines_view().last().len() as usize,
            ..t0
        })
        &&& c1 == c0
        &&& r matches Some(KeyResult::Handled(b)) && b
    })
    &&& (ctrl_only(key, 'p') ==> {
        &&& t1 == t0
        &&& c1 == c0
        &&& match clipboard_image {
            Some(bytes) => r matches Some(KeyResult::ImageNamingModal(b2)) && b2@ == bytes@,
            None => if has_existing_image {
                r matches Some(KeyResult::ImageRemovalModal)
            } else {
                r matches Some(KeyResult::Handled(b)) && !b
            },
        }
    })
    &&& (key.code == KeyCode::Char('z') && key.ctrl && !key.shift ==> {
        &&& c1 == c0
        &&& r matches Some(KeyResult::Handled(b)) && b == (t0.undo_views().len() > 0)
        &&& t0.undo_views().len() > 0 ==> (t1.lines_view(), t1.cursor_row as int,
            t1.cursor_col as int) == t0.undo_views().last()
            && t1.undo_views() == t0.undo_views().drop_last()
            && t1.redo_views() == t0.redo_views().push(t0.cur_snap())
        &&& t0.undo_views().len() == 0 ==> t1.lines_view() == t0.lines_view()
            && t1.cursor_row == t0.cursor_row && t1.cursor_col == t0.cursor_col
            && t1.select_start is None
            && t1.undo_views() == t0.undo_views() && t1.redo_views() == t0.redo_views()
    })
    &&& (key.code == KeyCode::Char('z') && key.ctrl && key.shift ==> {
        &&& c1 == c0
        &&& r matches Some(KeyResult::Handled(b)) && b == (t0.redo_views().len() > 0)
        &&& t0.redo_views().len() > 0 ==> (t1.lines_view(), t1.cursor_row as int,
            t1.cursor_col as int) == t0.redo_views().last()
            && t1.redo_views() == t0.redo_views().drop_last()
            && t1.undo_views() == t0.undo_views().push(t0.cur_snap())
        &&& t0.redo_views().len() == 0 ==> t1.lines_view() == t0.lines_view()
            && t1.cursor_row == t0.cursor_row && t1.cursor_col == t0.cursor_col
            && t1.select_start is None
            && t1.undo_views() == t0.undo_views() && t1.redo_views() == t0.redo_views()
    })
    &&& (key.code == KeyCode::Left && key.alt && !key.ctrl ==> {
        &&& t1.same_but_cursor(t0)
        &&& (t1.cursor_row as int, t1.cursor_col as int) == t0.cursor_after(CursorMove::WordBack)
        &&& c1 == c0
        &&& r matches Some(KeyResult::Handled(b)) && b
    })
    &&& (key.code == KeyCode::Right && key.alt && !key.ctrl ==> {
        &&& t1.same_but_cursor(t0)
        &&& (t1.cursor_row as int, t1.cursor_col as int) == t0.cursor_after(CursorMove::WordForward)
        &&& c1 == c0
        &&& r matches Some(KeyResult::Handled(b)) && b
    })
}

impl KeyHandler {
    /// Handle the chords that involve the clipboard, the history, selection
    /// or word navigation on the alt modifier, the terminal-friendly
    /// alternative binding; `None` means the key is none of those and the
    /// editor is untouched.  Word navigation on the control modifier is the
    /// editor's own business (`TextEditor::handle_key_event`).  The
    /// clipboard is an injected resource: `clip` carries the text clipboard,
    /// `clipboard_image` the image payload the caller read for the
    /// image-paste chord.
    pub fn handle_clipboard_keys(
        ta: &mut TextEditor,
        key: KeyInput,
        has_existing_image: bool,
        clip: &mut String,
        clipboard_image: Option<Vec<u8>>,
    ) -> (r: Option<KeyResult>)
        requires
            old(ta).wf(),
        ensures
            final(ta).wf(),
            is_engine_chord(key) ==> chord_post(
                key, *old(ta), *final(ta), old(clip)@, final(clip)@,
                clipboard_image, has_existing_image, r),
            !is_engine_chord(key) ==> {
                &&& r is None
                &&& *final(ta) == *old(ta)
                &&& final(clip)@ == old(clip)@
            },
    {
        let plain_ctrl = key.ctrl && !key.shift && !key.alt && !key.super_key;
        match key.code {
            KeyCode::Char(c) => {
                if c == 'c' && plain_ctrl {
                    match ta.selected_text() {
                        Some(text) => {
                            *clip = text;
                            Some(KeyResult::Handled(true))
                        },
                        None => {
                            let all = ta.to_text();
                            if all.as_str().unicode_len() > 0 {
                                *clip = all;
                                Some(KeyResult::Handled(true))
                            } else {
                                Some(KeyResult::Handled(false))
                            }
                        },
                    }
                } else if c == 'x' && plain_ctrl {
                    match ta.selected_text() {
                        Some(text) => {
                            *clip = text;
                            ta.delete_selection();
                            Some(KeyResult::Handled(true))
                        },
                        None => Some(KeyResult::Handled(false)),
                    }
                } else if c == 'v' && plain_ctrl {
                    let text = clip.clone();
                    ta.insert_str(text.as_str());
                    Some(KeyResult::Handled(true))
                } else if (c == 'a' && plain_ctrl) || (c == '\u{5}' && !key.ctrl) {
                    ta.select_all();
                    Some(KeyResult::Handled(true))
                } else if c == 'p' && plain_ctrl {
                    match clipboard_image {
                        Some(bytes) => Some(KeyResult::ImageNamingModal(bytes)),
                        None => {
                            if has_existing_image {
                                Some(KeyResult::ImageRemovalModal)
                            } else {
                                Some(KeyResult::Handled(false))
                            }
                        },
                    }
                } else if c == 'z' && key.ctrl {
                    if key.shift {
                        let modified = ta.redo();
                        Some(KeyResult::Handled(modified))
                    } else {
                        let modified = ta.undo();
                        Some(KeyResult::Handled(modified))
                    }
                } else {
                    None
                }
            },
            KeyCode::Left => {
                if key.alt && !key.ctrl {
                    ta.move_cursor(CursorMove::WordBack);
                    Some(KeyResult::Handled(true))
                } else {
                    None
                }
            },
            KeyCode::Right => {
                if key.alt && !key.ctrl {
                    ta.move_cursor(CursorMove::WordForward);
                    Some(KeyResult::Handled(true))
                } else {
                    None
                }
            },
            _ => None,
        }
    }

    /// Type a text into the editor: each newline breaks the line, every
    /// other character is inserted at the cursor.
    pub fn insert_text(ta: &mut TextEditor, text: &str)
        requires
            old(ta).wf(),
        ensures
            final(ta).wf(),
            final(ta).same_settings(*old(ta)),
            (final(ta).lines_view(), final(ta).cursor_row as int, final(ta).cursor_col as int)
                == ({
                    let (ls, row, i) = old(ta).after_sel_delete();
                    type_seq_m(ls, row, i, text@)
                }),
    {
        ta.insert_str(text);
    }
}

} // verus!

verus! {

/// What typing one character does: any selection is deleted first, the prior
/// state is saved for undo, a newline breaks the line, any other character is
/// inserted before the cursor.
pub open spec fn insert_typed_post(t0: TextEditor, t1: TextEditor, c: char) -> bool {
    &&& t1.same_settings(t0)
    &&& t1.select_start is None
    &&& t1.undo_views() == push_bounded(t0.undo_views(), t0.cur_snap(), t0.max_histories as int)
    &&& t1.redo_views() == Seq::<(Seq<Seq<char>>, int, int)>::empty()
    &&& ({
        let (ls, r, i) = t0.after_sel_delete();
        if c == '\n' {
            t1.lines_view() == split_line_m(ls, r, i) && t1.cursor_row == r + 1
                && t1.cursor_col == 0
        } else {
            t1.lines_view() == insert_char_m(ls, r, i, c) && t1.cursor_row == r
                && t1.cursor_col == i + 1
        }
    })
}

/// What the backspace key does, by case: selection, mid-line, line join, or
/// nothing at the document start.
pub open spec fn backspace_post(t0: TextEditor, t1: TextEditor) -> bool {
    &&& t1.same_settings(t0)
    &&& (t0.has_nonempty_sel() ==> {
        &&& (t1.lines_view(), t1.cursor_row as int, t1.cursor_col as int) == t0.after_sel_delete()
        &&& t1.select_start is None
    })
    &&& (!t0.has_nonempty_sel() && t0.cursor_col > 0 ==> {
        &&& t1.lines_view() == t0.lines_view().update(
            t0.cursor_row as int,
            t0.lines_view()[t0.cursor_row as int].remove(t0.cursor_col - 1))
        &&& t1.cursor_row == t0.cursor_row
        &&& t1.cursor_col == t0.cursor_col - 1
    })
    &&& (!t0.has_nonempty_sel() && t0.cursor_col == 0 && t0.cursor_row > 0 ==> {
        &&& t1.lines_view() == delete_range_m(
            t0.lines_view(), t0.cursor_row - 1,
            t0.lines_view()[t0.cursor_row - 1].len() as int, t0.cursor_row as int, 0)
        &&& t1.cursor_row == t0.cursor_row - 1
        &&& t1.cursor_col == t0.lines_view()[t0.cursor_row - 1].len()
    })
    &&& (!t0.has_nonempty_sel() && t0.cursor_col == 0 && t0.cursor_row == 0 ==> {
        &&& t1.lines_view() == t0.lines_view()
        &&& t1.cursor_row == 0 && t1.cursor_col == 0
    })
}

/// What the delete key does, by case: selection, mid-line, line join, or
/// nothing at the document end.
pub open spec fn delete_post(t0: TextEditor, t1: TextEditor) -> bool {
    &&& t1.same_settings(t0)
    &&& (t0.has_nonempty_sel() ==> {
        &&& (t1.lines_view(), t1.cursor_row as int, t1.cursor_col as int) == t0.after_sel_delete()
        &&& t1.select_start is None
    })
    &&& (!t0.has_nonempty_sel()
        && t0.cursor_col < t0.lines_view()[t0.cursor_row as int].len() ==> {
        &&& t1.lines_view() == t0.lines_view().update(
            t0.cursor_row as int,
            t0.lines_view()[t0.cursor_row as int].remove(t0.cursor_col as int))
        &&& t1.cursor_row == t0.cursor_row && t1.cursor_col == t0.cursor_col
    })
    &&& (!t0.has_nonempty_sel()
        && t0.cursor_col == t0.lines_view()[t0.cursor_row as int].len()
        && t0.cursor_row + 1 < t0.lines_view().len() ==> {
        &&& t1.lines_view() == delete_range_m(
            t0.lines_view(), t0.cursor_row as int, t0.cursor_col as int, t0.cursor_row + 1, 0)
        &&& t1.cursor_row == t0.cursor_row && t1.cursor_col == t0.cursor_col
    })
    &&& (!t0.has_nonempty_sel()
        && t0.cursor_col == t0.lines_view()[t0.cursor_row as int].len()
        && t0.cursor_row + 1 == t0.lines_view().len() ==> {
        &&& t1.lines_view() == t0.lines_view()
        &&& t1.cursor_row == t0.cursor_row && t1.cursor_col == t0.cursor_col
    })
}


/// What one key event does to the editing engine: chords behave per
/// `chord_post`; any other key is plain editing or movement with `None`
/// reported.
pub open spec fn engine_key_post(
    key: KeyInput,
    t0: TextEditor,
    t1: TextEditor,
    c0: Seq<char>,
    c1: Seq<char>,
    clipboard_image: Option<Vec<u8>>,
    has_existing_image: bool,
    r: Option<KeyResult>,
) -> bool {
    &&& (is_engine_chord(key) ==> chord_post(
        key, t0, t1, c0, c1, clipboard_image, has_existing_image, r))
    &&& (!is_engine_chord(key) ==> {
        &&& c1 == c0
        &&& match key.code {
            KeyCode::Left | KeyCode::Right => true,
            _ => r is None,
        }
        &&& match key.code {
            KeyCode::Char(c) => if !key.ctrl && !key.alt && !key.super_key {
                insert_typed_post(t0, t1, c)
            } else {
                t1 == t0
            },
            KeyCode::Enter => insert_typed_post(t0, t1, '\n'),
            KeyCode::Backspace => backspace_post(t0, t1),
            KeyCode::Delete => delete_post(t0, t1),
            KeyCode::Up => t1.same_but_cursor(t0)
                && (t1.cursor_row as int, t1.cursor_col as int)
                    == t0.cursor_after(
                        if t0.wrap_on && t0.area is Some {
                            CursorMove::VisualUp
                        } else if t0.cursor_row > 0 {
                            CursorMove::Up
                        } else {
                            CursorMove::Head
                        }),
            KeyCode::Down => t1.same_but_cursor(t0)
                && (t1.cursor_row as int, t1.cursor_col as int)
                    == t0.cursor_after(
                        if t0.wrap_on && t0.area is Some {
                            CursorMove::VisualDown
                        } else if t0.cursor_row + 1 < t0.lines_view().len() {
                            CursorMove::Down
                        } else {
                            CursorMove::End
                        }),
            KeyCode::Left => t1.same_but_cursor(t0)
                && (t1.cursor_row as int, t1.cursor_col as int)
                    == t0.cursor_after(if key.ctrl {
                        CursorMove::WordBack
                    } else {
                        CursorMove::Back
                    })
                && if key.ctrl {
                    r matches Some(KeyResult::Handled(b)) && b
                } else {
                    r is None
                },
            KeyCode::Right => t1.same_but_cursor(t0)
                && (t1.cursor_row as int, t1.cursor_col as int)
                    == t0.cursor_after(if key.ctrl {
                        CursorMove::WordForward
                    } else {
                        CursorMove::Forward
                    })
                && if key.ctrl {
                    r matches Some(KeyResult::Handled(b)) && b
                } else {
                    r is None
                },
            KeyCode::Home => t1.same_but_cursor(t0)
                && (t1.cursor_row as int, t1.cursor_col as int)
                    == t0.cursor_after(CursorMove::Head),
            KeyCode::End => t1.same_but_cursor(t0)
                && (t1.cursor_row as int, t1.cursor_col as int)
                    == t0.cursor_after(CursorMove::End),
            _ => t1 == t0,
        }
    })
}

impl TextEditor {
    /// One key event for the editing engine.  Chords (clipboard, history,

    /// select-all, image paste, alt word navigation) are handled first and
    /// their outcome reported; every other key is plain editing or
    /// movement, with `None` reported — except word navigation on the
    /// control modifier, which the editor itself handles and reports as
    /// handled.  Visual line movement applies when wrapping is on
    /// and an area is known; otherwise Up on the first line goes to the line
    /// head and Down on the last line to the line end.
    pub fn handle_key_event(
        &mut self,
        key: KeyInput,
        clip: &mut String,
        clipboard_image: Option<Vec<u8>>,
    ) -> (r: Option<KeyResult>)
        requires
            old(self).wf(),
        ensures
            final(self).wf(),
            engine_key_post(key, *old(self), *final(self), old(clip)@, final(clip)@,
                clipboard_image, old(self).image_path is Some, r),
    {
        let has_img = self.has_image();
        let chord = KeyHandler::handle_clipboard_keys(self, key, has_img, clip, clipboard_image);
        match chord {
            Some(res) => {
                return Some(res);
            },
            None => (),
        }
        match key.code {
            KeyCode::Char(c) => {
                if !key.ctrl && !key.alt && !key.super_key {
                    self.insert_char(c);
                }
            },
            KeyCode::Enter => {
                self.insert_char('\n');
            },
            KeyCode::Backspace => {
                self.backspace();
            },
            KeyCode::Delete => {
                self.delete_next();
            },
            KeyCode::Up => {
                let use_visual = self.is_wrapping_enabled() && match self.area {
                    Some(_) => true,
                    None => false,
                };
                if use_visual {
                    self.move_cursor(CursorMove::VisualUp);
                } else if self.cursor_row > 0 {
                    self.move_cursor(CursorMove::Up);
                } else {
                    self.move_cursor(CursorMove::Head);
                }
            },
            KeyCode::Down => {
                let use_visual = self.is_wrapping_enabled() && match self.area {
                    Some(_) => true,
                    None => false,
                };
                if use_visual {
                    self.move_cursor(CursorMove::VisualDown);
                } else if self.cursor_row < self.lines.len() - 1 {
                    self.move_cursor(CursorMove::Down);
                } else {
                    self.move_cursor(CursorMove::End);
                }
            },
            KeyCode::Left => {
                if key.ctrl {
                    self.move_cursor(CursorMove::WordBack);
                    return Some(KeyResult::Handled(true));
                }
                self.move_cursor(CursorMove::Back);
            },
            KeyCode::Right => {
                if key.ctrl {
                    self.move_cursor(CursorMove::WordForward);
                    return Some(KeyResult::Handled(true));
                }
                self.move_cursor(CursorMove::Forward);
            },
            KeyCode::Home => {
                self.move_cursor(CursorMove::Head);
            },
            KeyCode::End => {
                self.move_cursor(CursorMove::End);
            },
            _ => (),
        }
        None
    }
}

} // verus!

verus! {

/// Typing a character and then undoing restores the buffer to content that
/// is, character for character, what it was before the edit: an edit
/// followed by its undo never changes the text against which a discard
/// prompt would compare.
pub proof fn lemma_type_then_undo(t0: TextEditor, t1: TextEditor, t2: TextEditor, c: char)
    requires
        t0.wf(),
        t0.undo_views().len() < t0.max_histories,
        insert_typed_post(t0, t1, c),
        t1.undo_views().len() > 0,
        (t2.lines_view(), t2.cursor_row as int, t2.cursor_col as int) == t1.undo_views().last(),
    ensures
        t2.lines_view() == t0.lines_view(),
        t2.text() == t0.text(),
{
    assert(t1.undo_views() == push_bounded(
        t0.undo_views(), t0.cur_snap(), t0.max_histories as int));
    assert(t1.undo_views().last() == t0.cur_snap());
}

} // verus!
