//! The interactive list-and-editor state machine: an ordered list of to-do
//! items with a selection and a scrolling viewport, and a transient text
//! buffer for composing a new item. Every operation is a total function over
//! the state; boundary conditions are no-ops, never errors.

use vstd::prelude::*;

use crate::tudu::Tudu;

verus! {

/// Most characters the edit buffer will hold.
pub const INPUT_CAP: usize = 250;

/// A key press, reduced to the discriminant the controller reads from it.
/// Keys the controller does not react to arrive as `Other`.
#[derive(Debug, Clone, Copy)]
pub enum Key {
    Char(char),
    Enter,
    Esc,
    Backspace,
    Up,
    Down,
    Other,
}

/// The caret of the edit popup: a column/row pair that wraps inside the fixed
/// margins `init_x` (left) and `limit` (right). The renderer fills the
/// margins in; a cleared cursor (`x == 0`) asks it to do so again.
#[derive(Debug, Clone, Copy)]
pub struct Cursor {
    pub init_x: u16,
    pub x: u16,
    pub y: u16,
    pub limit: u16,
}

/// The cursor as it stands after a reset: all coordinates zero, so the
/// renderer re-derives the margins before the next use.
pub open spec fn cleared_cursor() -> Cursor {
    Cursor { init_x: 0, x: 0, y: 0, limit: 0 }
}

/// The cursor one column further: at the right margin it wraps to the left
/// margin of the next row. Coordinates saturate instead of overflowing.
pub open spec fn advanced_cursor(c: Cursor) -> Cursor {
    if c.x == c.limit {
        Cursor {
            init_x: c.init_x,
            x: c.init_x,
            y: if c.y < 65535 { (c.y + 1) as u16 } else { 65535u16 },
            limit: c.limit,
        }
    } else {
        Cursor {
            init_x: c.init_x,
            x: if c.x < 65535 { (c.x + 1) as u16 } else { 65535u16 },
            y: c.y,
            limit: c.limit,
        }
    }
}

/// The cursor one column back: at the left margin it returns to the right
/// margin of the previous row. Coordinates saturate instead of underflowing.
pub open spec fn retreated_cursor(c: Cursor) -> Cursor {
    if c.x == c.init_x {
        Cursor {
            init_x: c.init_x,
            x: c.limit,
            y: if c.y > 0 { (c.y - 1) as u16 } else { 0u16 },
            limit: c.limit,
        }
    } else {
        Cursor {
            init_x: c.init_x,
            x: if c.x > 0 { (c.x - 1) as u16 } else { 0u16 },
            y: c.y,
            limit: c.limit,
        }
    }
}

impl Default for Cursor {
    /// A cleared cursor.
    fn default() -> (c: Cursor)
        ensures
            c == cleared_cursor(),
    {
        Cursor { init_x: 0, x: 0, y: 0, limit: 0 }
    }
}

/// The whole application state: the list with its navigation bookkeeping,
/// the edit buffer with its caret, the mode flag and the exit flag.
pub struct App {
    /// The to-do entries, in insertion order; new entries append at the end.
    pub tudus: Vec<Tudu>,
    /// The caret of the edit popup.
    pub cursor: Cursor,
    /// Rows the viewport offers for the list; set each frame by the renderer.
    pub msg_size: usize,
    /// The selected entry, absent exactly while the list is empty.
    pub selected: Option<usize>,
    /// First visible entry of the viewport.
    pub offset: usize,
    /// True while a new entry's description is being composed.
    pub edit_mode: bool,
    /// The description being composed, one element per character.
    pub input: Vec<char>,
    /// True once the user asked to quit.
    pub exit: bool,
}

/// The scroll offset that `adjust_messages` establishes over a selection,
/// an offset and a viewport height: the selection itself when it lies above
/// the viewport, just far enough down when it lies below, else unchanged.
/// A viewport of no rows never moves.
pub open spec fn adjusted_offset(selected: Option<usize>, offset: usize, msg_size: usize) -> int {
    match selected {
        Some(i) => if i < offset {
            i as int
        } else if msg_size > 0 && i - offset >= msg_size {
            i - msg_size + 1
        } else {
            offset as int
        },
        None => offset as int,
    }
}

/// Where the selection stands after the entry at `i` left a list that now
/// holds `new_len` entries: clamped into bounds, or absent if none are left.
pub open spec fn clamped_selection(i: int, new_len: int) -> Option<usize> {
    if new_len <= 0 {
        None
    } else if i < new_len {
        Some(i as usize)
    } else {
        Some((new_len - 1) as usize)
    }
}

/// The fields that no list operation touches: viewport height, caret, mode,
/// edit buffer and exit flag agree between the two states.
pub open spec fn eq_frame(a: App, b: App) -> bool {
    &&& a.msg_size == b.msg_size
    &&& a.cursor == b.cursor
    &&& a.edit_mode == b.edit_mode
    &&& a.input@ == b.input@
    &&& a.exit == b.exit
}

/// The fields that no edit-buffer operation touches: list, selection,
/// viewport and exit flag agree between the two states.
pub open spec fn eq_list_ui(a: App, b: App) -> bool {
    &&& a.tudus@ == b.tudus@
    &&& a.selected == b.selected
    &&& a.offset == b.offset
    &&& a.msg_size == b.msg_size
    &&& a.exit == b.exit
}

/// One step of `previous_selected`: the selection moves one row up and the
/// viewport follows; at the top, or with no selection, nothing changes.
pub open spec fn sel_up(pre: App, post: App) -> bool {
    &&& eq_frame(pre, post)
    &&& post.tudus@ == pre.tudus@
    &&& match pre.selected {
        Some(i) => if i > 0 {
            &&& post.selected == Some((i - 1) as usize)
            &&& post.offset == adjusted_offset(Some((i - 1) as usize), pre.offset, pre.msg_size)
        } else {
            &&& post.selected == pre.selected
            &&& post.offset == pre.offset
        },
        None => post.selected == pre.selected && post.offset == pre.offset,
    }
}

/// One step of `next_selected`: the selection moves one row down and the
/// viewport follows; at the last entry, or with no selection, nothing
/// changes.
pub open spec fn sel_down(pre: App, post: App) -> bool {
    &&& eq_frame(pre, post)
    &&& post.tudus@ == pre.tudus@
    &&& match pre.selected {
        Some(i) => if i + 1 < pre.tudus@.len() {
            &&& post.selected == Some((i + 1) as usize)
            &&& post.offset == adjusted_offset(Some((i + 1) as usize), pre.offset, pre.msg_size)
        } else {
            &&& post.selected == pre.selected
            &&& post.offset == pre.offset
        },
        None => post.selected == pre.selected && post.offset == pre.offset,
    }
}

/// One step of `toggle_selected`: the selected entry's completed flag flips
/// in place; its description, every other entry and all bookkeeping stay as
/// they were. With no selection nothing changes.
pub open spec fn toggled(pre: App, post: App) -> bool {
    &&& eq_frame(pre, post)
    &&& post.selected == pre.selected
    &&& post.offset == pre.offset
    &&& match pre.selected {
        Some(i) => if i < pre.tudus@.len() {
            &&& post.tudus@ == pre.tudus@.update(i as int, post.tudus@[i as int])
            &&& post.tudus@[i as int]@.completed == !pre.tudus@[i as int]@.completed
            &&& post.tudus@[i as int]@.description == pre.tudus@[i as int]@.description
        } else {
            post.tudus@ == pre.tudus@
        },
        None => post.tudus@ == pre.tudus@,
    }
}

/// One step of `delete_selected`: the selected entry leaves the list, the
/// selection is clamped into the shrunk list (absent once the list is
/// empty), and the viewport follows. With no selection nothing changes.
pub open spec fn deleted(pre: App, post: App) -> bool {
    &&& eq_frame(pre, post)
    &&& match pre.selected {
        Some(i) => if i < pre.tudus@.len() {
            &&& post.tudus@ == pre.tudus@.remove(i as int)
            &&& post.selected == clamped_selection(i as int, pre.tudus@.len() - 1)
            &&& post.offset == (if pre.tudus@.len() == 1 {
                0int
            } else {
                adjusted_offset(
                    clamped_selection(i as int, pre.tudus@.len() - 1),
                    pre.offset,
                    pre.msg_size,
                )
            })
        } else {
            &&& post.tudus@ == pre.tudus@
            &&& post.selected == pre.selected
            &&& post.offset == pre.offset
        },
        None => {
            &&& post.tudus@ == pre.tudus@
            &&& post.selected == pre.selected
            &&& post.offset == pre.offset
        },
    }
}

/// One step of `enter_edit_mode`: the buffer and caret are cleared and the
/// mode flag is raised; the list and its bookkeeping stay as they were.
pub open spec fn entered_edit(pre: App, post: App) -> bool {
    &&& eq_list_ui(pre, post)
    &&& post.edit_mode == true
    &&& post.input@ == Seq::<char>::empty()
    &&& post.cursor == cleared_cursor()
}

/// One step of `cancel_edit`: everything typed is discarded, the caret is
/// cleared and the mode flag drops; the list and its bookkeeping stay as
/// they were.
pub open spec fn cancelled(pre: App, post: App) -> bool {
    &&& eq_list_ui(pre, post)
    &&& post.edit_mode == false
    &&& post.input@ == Seq::<char>::empty()
    &&& post.cursor == cleared_cursor()
}

/// One step of `create_tudu`: exactly one new, uncompleted entry whose
/// description is the buffer's content appends to the list; a previously
/// empty list selects its first entry; the buffer and caret clear and the
/// mode flag drops.
pub open spec fn submitted(pre: App, post: App) -> bool {
    &&& post.tudus@.len() == pre.tudus@.len() + 1
    &&& post.tudus@ == pre.tudus@.push(post.tudus@.last())
    &&& post.tudus@.last()@.completed == false
    &&& post.tudus@.last()@.description == pre.input@
    &&& post.selected == (if pre.tudus@.len() == 0 {
        Some(0usize)
    } else {
        pre.selected
    })
    &&& post.offset == pre.offset
    &&& post.msg_size == pre.msg_size
    &&& post.exit == pre.exit
    &&& post.edit_mode == false
    &&& post.input@ == Seq::<char>::empty()
    &&& post.cursor == cleared_cursor()
}

/// One step of `insert_char`: under the cap the character appends to the
/// buffer and the caret advances one column, wrapping at the right margin;
/// at the cap nothing changes.
pub open spec fn inserted(pre: App, post: App, c: char) -> bool {
    &&& eq_list_ui(pre, post)
    &&& post.edit_mode == pre.edit_mode
    &&& if pre.input@.len() < INPUT_CAP {
        &&& post.input@ == pre.input@.push(c)
        &&& post.cursor == advanced_cursor(pre.cursor)
    } else {
        &&& post.input@ == pre.input@
        &&& post.cursor == pre.cursor
    }
}

/// One step of `backspace`: the buffer's last character leaves and the caret
/// steps one column back, unwrapping at the left margin; with an empty
/// buffer nothing changes.
pub open spec fn erased(pre: App, post: App) -> bool {
    &&& eq_list_ui(pre, post)
    &&& post.edit_mode == pre.edit_mode
    &&& if pre.input@.len() > 0 {
        &&& post.input@ == pre.input@.drop_last()
        &&& post.cursor == retreated_cursor(pre.cursor)
    } else {
        &&& post.input@ == pre.input@
        &&& post.cursor == pre.cursor
    }
}

/// One step of the quit keys: only the exit flag rises.
pub open spec fn quit(pre: App, post: App) -> bool {
    &&& post.tudus@ == pre.tudus@
    &&& post.cursor == pre.cursor
    &&& post.msg_size == pre.msg_size
    &&& post.selected == pre.selected
    &&& post.offset == pre.offset
    &&& post.edit_mode == pre.edit_mode
    &&& post.input@ == pre.input@
    &&& post.exit == true
}

/// One step of Normal mode on one key press: `q` and Escape ask to quit,
/// `e`/`E` enter Editing mode, `D` deletes the selected entry, Up and Down
/// move the selection, Enter toggles the selected entry's completed flag;
/// every other key leaves the state unchanged.
pub open spec fn normal_step(pre: App, post: App, key: Key) -> bool {
    match key {
        Key::Char(c) => if c == 'q' {
            quit(pre, post)
        } else if c == 'e' || c == 'E' {
            entered_edit(pre, post)
        } else if c == 'D' {
            deleted(pre, post)
        } else {
            post == pre
        },
        Key::Up => sel_up(pre, post),
        Key::Down => sel_down(pre, post),
        Key::Enter => toggled(pre, post),
        Key::Esc => quit(pre, post),
        Key::Backspace => post == pre,
        Key::Other => post == pre,
    }
}

/// One step of Editing mode on one key press: Escape cancels, Backspace
/// erases, Enter submits, a character key inserts; every other key leaves
/// the state unchanged.
pub open spec fn edit_step(pre: App, post: App, key: Key) -> bool {
    match key {
        Key::Esc => cancelled(pre, post),
        Key::Backspace => erased(pre, post),
        Key::Enter => submitted(pre, post),
        Key::Char(c) => inserted(pre, post, c),
        Key::Up => post == pre,
        Key::Down => post == pre,
        Key::Other => post == pre,
    }
}

/// Law: navigation keeps the selection inside the list. From a well-formed
/// state, any step of `previous_selected` or `next_selected` — and so any
/// sequence of such steps — yields a well-formed state; in particular the
/// selection, while present, never leaves `[0, tudus.len())`, however often
/// the steps repeat at a boundary.
pub proof fn lemma_navigation_stays_in_bounds(pre: App, post: App)
    requires
        pre.wf(),
        sel_up(pre, post) || sel_down(pre, post),
    ensures
        post.wf(),
        post.selected matches Some(i) ==> i < post.tudus@.len(),
{
}

/// Relies on std's `FromIterator` impl for `String` (through
/// `Iterator::collect`): collecting characters yields the string of exactly
/// those characters in order.
#[verifier::external_body]
fn string_from_chars(chars: &Vec<char>) -> (r: String)
    ensures
        r@ == chars@,
{
    chars.iter().collect()
}

impl App {
    /// The state's invariant: a selection exists exactly while the list is
    /// non-empty, it lies inside the list and at or below the scroll offset,
    /// the offset lies inside the list, and the edit buffer respects its cap.
    pub open spec fn wf(self) -> bool {
        &&& match self.selected {
            Some(i) => i < self.tudus@.len() && self.offset <= i,
            None => self.tudus@.len() == 0 && self.offset == 0,
        }
        &&& self.offset <= self.tudus@.len()
        &&& self.input@.len() <= INPUT_CAP
    }

    /// A fresh, empty application: no entries, no selection, Normal mode.
    pub fn new() -> (r: App)
        ensures
            r.wf(),
            r.tudus@ == Seq::<Tudu>::empty(),
            r.cursor == cleared_cursor(),
            r.msg_size == 0,
            r.selected == None::<usize>,
            r.offset == 0,
            r.edit_mode == false,
            r.input@ == Seq::<char>::empty(),
            r.exit == false,
    {
        App {
            tudus: Vec::new(),
            cursor: Cursor::default(),
            msg_size: 0,
            selected: None,
            offset: 0,
            edit_mode: false,
            input: Vec::new(),
            exit: false,
        }
    }

    /// Scrolls the viewport the least amount that brings the selection back
    /// into view; see `adjusted_offset` for the exact rule. Runs after every
    /// selection change and after every deletion.
    pub fn adjust_messages(&mut self)
        ensures
            final(self).offset == adjusted_offset(
                old(self).selected,
                old(self).offset,
                old(self).msg_size,
            ),
            eq_frame(*old(self), *final(self)),
            final(self).tudus@ == old(self).tudus@,
            final(self).selected == old(self).selected,
            match old(self).selected {
                Some(i) => old(self).msg_size > 0 ==> final(self).offset <= i < final(self).offset
                    + old(self).msg_size,
                None => true,
            },
            old(self).wf() ==> final(self).wf(),
    {
        match self.selected {
            Some(i) => {
                if i < self.offset {
                    self.offset = i;
                } else if self.msg_size > 0 && i - self.offset >= self.msg_size {
                    self.offset = i - self.msg_size + 1;
                }
            },
            None => {},
        }
    }

    /// Moves the selection one row up. At the top, or with no selection, the
    /// call leaves the state unchanged.
    pub fn previous_selected(&mut self)
        ensures
            sel_up(*old(self), *final(self)),
            old(self).selected == Some(0usize) ==> *final(self) == *old(self),
            old(self).selected is None ==> *final(self) == *old(self),
            old(self).wf() ==> final(self).wf(),
    {
        if let Some(i) = self.selected {
            if i > 0 {
                self.selected = Some(i - 1);
                self.adjust_messages();
            }
        }
    }

    /// Moves the selection one row down. At the last entry, or with no
    /// selection, the call leaves the state unchanged.
    pub fn next_selected(&mut self)
        ensures
            sel_down(*old(self), *final(self)),
            (old(self).tudus@.len() > 0 && old(self).selected == Some(
                (old(self).tudus@.len() - 1) as usize,
            )) ==> *final(self) == *old(self),
            old(self).selected is None ==> *final(self) == *old(self),
            old(self).wf() ==> final(self).wf(),
    {
        if let Some(i) = self.selected {
            if self.tudus.len() > 0 && i < self.tudus.len() - 1 {
                self.selected = Some(i + 1);
                self.adjust_messages();
            }
        }
    }

    /// Flips the completed flag of the selected entry; a no-op with no
    /// selection.
    pub fn toggle_selected(&mut self)
        ensures
            toggled(*old(self), *final(self)),
            old(self).selected is None ==> *final(self) == *old(self),
            old(self).wf() ==> final(self).wf(),
    {
        if let Some(i) = self.selected {
            if i < self.tudus.len() {
                let mut t = self.tudus.remove(i);
                t.change_state();
                self.tudus.insert(i, t);
                proof {
                    assert(self.tudus@ =~= old(self).tudus@.update(i as int, self.tudus@[i as int]));
                }
            }
        }
    }

    /// Removes the selected entry. The selection stays at the same position
    /// (now the following entry), or moves to the new last entry when the
    /// removed one was last, or becomes absent when the list is now empty;
    /// the viewport follows. A no-op with no selection.
    pub fn delete_selected(&mut self)
        ensures
            deleted(*old(self), *final(self)),
            old(self).selected is None ==> *final(self) == *old(self),
            old(self).wf() ==> final(self).wf(),
    {
        if let Some(i) = self.selected {
            if i < self.tudus.len() {
                self.tudus.remove(i);
                if self.tudus.len() == 0 {
                    self.selected = None;
                    self.offset = 0;
                } else {
                    let last = self.tudus.len() - 1;
                    self.selected = Some(if i < last { i } else { last });
                    self.adjust_messages();
                }
            }
        }
    }

    /// Enters Editing mode with a cleared buffer and caret.
    pub fn enter_edit_mode(&mut self)
        ensures
            entered_edit(*old(self), *final(self)),
            old(self).wf() ==> final(self).wf(),
    {
        self.input.clear();
        self.cursor = Cursor::default();
        self.edit_mode = true;
    }

    /// Leaves Editing mode, discarding everything typed.
    pub fn cancel_edit(&mut self)
        ensures
            cancelled(*old(self), *final(self)),
            old(self).wf() ==> final(self).wf(),
    {
        self.input.clear();
        self.cursor = Cursor::default();
        self.edit_mode = false;
    }

    /// Turns the buffer's content into a new, uncompleted entry at the end
    /// of the list, selects the first entry if none was selected before, and
    /// leaves Editing mode with a cleared buffer and caret.
    pub fn create_tudu(&mut self)
        ensures
            submitted(*old(self), *final(self)),
            old(self).wf() ==> final(self).wf(),
    {
        let description = string_from_chars(&self.input);
        let new_tudu = Tudu::new(description);
        self.tudus.push(new_tudu);

        if self.tudus.len() == 1 {
            self.selected = Some(0);
        }

        self.input.clear();
        self.cursor = Cursor::default();
        self.edit_mode = false;
    }

    /// Appends one character to the buffer, advancing the caret; a no-op
    /// once the buffer holds `INPUT_CAP` characters.
    pub fn insert_char(&mut self, c: char)
        ensures
            inserted(*old(self), *final(self), c),
            old(self).input@.len() >= INPUT_CAP ==> *final(self) == *old(self),
            old(self).wf() ==> final(self).wf(),
    {
        if self.input.len() < INPUT_CAP {
            self.input.push(c);
            if self.cursor.x == self.cursor.limit {
                self.cursor.x = self.cursor.init_x;
                if self.cursor.y < 65535 {
                    self.cursor.y = self.cursor.y + 1;
                }
            } else {
                if self.cursor.x < 65535 {
                    self.cursor.x = self.cursor.x + 1;
                }
            }
        }
    }

    /// Removes the buffer's last character, stepping the caret back; a no-op
    /// while the buffer is empty.
    pub fn backspace(&mut self)
        ensures
            erased(*old(self), *final(self)),
            old(self).input@.len() == 0 ==> *final(self) == *old(self),
            old(self).wf() ==> final(self).wf(),
    {
        if self.input.len() > 0 {
            let _popped = self.input.pop();
            if self.cursor.x == self.cursor.init_x {
                self.cursor.x = self.cursor.limit;
                if self.cursor.y > 0 {
                    self.cursor.y = self.cursor.y - 1;
                }
            } else {
                if self.cursor.x > 0 {
                    self.cursor.x = self.cursor.x - 1;
                }
            }
        }
    }

    /// Handles one key press in Normal mode; see `normal_step` for the
    /// key-by-key rule.
    pub fn default_input(&mut self, key: Key)
        ensures
            normal_step(*old(self), *final(self), key),
            old(self).wf() ==> final(self).wf(),
    {
        match key {
            Key::Char(c) => {
                if c == 'q' {
                    self.exit = true;
                } else if c == 'e' || c == 'E' {
                    self.enter_edit_mode();
                } else if c == 'D' {
                    self.delete_selected();
                }
            },
            Key::Up => self.previous_selected(),
            Key::Down => self.next_selected(),
            Key::Enter => self.toggle_selected(),
            Key::Esc => {
                self.exit = true;
            },
            Key::Backspace => {},
            Key::Other => {},
        }
    }

    /// Handles one key press in Editing mode; see `edit_step` for the
    /// key-by-key rule.
    pub fn edit_input(&mut self, key: Key)
        ensures
            edit_step(*old(self), *final(self), key),
            old(self).wf() ==> final(self).wf(),
    {
        match key {
            Key::Esc => self.cancel_edit(),
            Key::Backspace => self.backspace(),
            Key::Enter => self.create_tudu(),
            Key::Char(c) => self.insert_char(c),
            Key::Up => {},
            Key::Down => {},
            Key::Other => {},
        }
    }

    /// Routes one key press to the mode that is active: Editing mode while
    /// a description is being composed, Normal mode otherwise.
    pub fn handle_key(&mut self, key: Key)
        ensures
            old(self).edit_mode ==> edit_step(*old(self), *final(self), key),
            !old(self).edit_mode ==> normal_step(*old(self), *final(self), key),
            old(self).wf() ==> final(self).wf(),
    {
        if self.edit_mode {
            self.edit_input(key);
        } else {
            self.default_input(key);
        }
    }

    /// First index in view: the scroll offset, clamped into the list.
    pub open spec fn spec_visible_lo(self) -> int {
        if self.offset <= self.tudus@.len() {
            self.offset as int
        } else {
            self.tudus@.len() as int
        }
    }

    /// One past the last index in view: a full viewport below the first
    /// visible index, clamped into the list.
    pub open spec fn spec_visible_hi(self) -> int {
        if self.spec_visible_lo() + self.msg_size <= self.tudus@.len() {
            self.spec_visible_lo() + self.msg_size
        } else {
            self.tudus@.len() as int
        }
    }

    /// The entries currently inside the viewport, in display order: the
    /// sub-sequence of the list from the scroll offset, at most a viewport's
    /// worth. A pure read for the renderer.
    pub fn get_visible_items(&self) -> (r: &[Tudu])
        ensures
            r@ == self.tudus@.subrange(self.spec_visible_lo(), self.spec_visible_hi()),
    {
        let len = self.tudus.len();
        let start = if self.offset <= len {
            self.offset
        } else {
            len
        };
        let remaining = len - start;
        let shown = if self.msg_size <= remaining {
            self.msg_size
        } else {
            remaining
        };
        &self.tudus.as_slice()[start..start + shown]
    }

    /// The selection's position relative to the visible slice, if the
    /// selected entry is in view. A pure read for the renderer.
    pub fn visible_selected(&self) -> (r: Option<usize>)
        ensures
            r == (match self.selected {
                Some(i) => if self.offset <= i && i - self.offset < self.msg_size {
                    Some((i - self.offset) as usize)
                } else {
                    None::<usize>
                },
                None => None::<usize>,
            }),
    {
        match self.selected {
            Some(i) => if self.offset <= i && i - self.offset < self.msg_size {
                Some(i - self.offset)
            } else {
                None
            },
            None => None,
        }
    }

    /// The help line for the mode that is active, as alternating plain and
    /// highlighted fragments, starting plain.
    pub fn get_help_message(&self) -> (r: Vec<&'static str>)
        ensures
            self.edit_mode ==> (r@.len() == 4 && r@[0]@ == "Go back "@ && r@[1]@ == "<Esc>"@
                && r@[2]@ == " Add "@ && r@[3]@ == "<Enter>"@),
            !self.edit_mode ==> (r@.len() == 10 && r@[0]@ == "Exit "@ && r@[1]@ == "<Esc/q>"@
                && r@[2]@ == " New "@ && r@[3]@ == "<e/E>"@ && r@[4]@ == " Navigate "@
                && r@[5]@ == "<Up/Down>"@ && r@[6]@ == " Delete "@ && r@[7]@ == "<D>"@
                && r@[8]@ == " Mark Completed "@ && r@[9]@ == "<Enter>"@),
    {
        let mut r: Vec<&'static str> = Vec::new();
        if self.edit_mode {
            r.push("Go back ");
            r.push("<Esc>");
            r.push(" Add ");
            r.push("<Enter>");
        } else {
            r.push("Exit ");
            r.push("<Esc/q>");
            r.push(" New ");
            r.push("<e/E>");
            r.push(" Navigate ");
            r.push("<Up/Down>");
            r.push(" Delete ");
            r.push("<D>");
            r.push(" Mark Completed ");
            r.push("<Enter>");
        }
        r
    }

    /// Records how many rows the renderer offers for the list this frame.
    pub fn set_msg_size(&mut self, rows: usize)
        ensures
            final(self).msg_size == rows,
            final(self).tudus@ == old(self).tudus@,
            final(self).cursor == old(self).cursor,
            final(self).selected == old(self).selected,
            final(self).offset == old(self).offset,
            final(self).edit_mode == old(self).edit_mode,
            final(self).input@ == old(self).input@,
            final(self).exit == old(self).exit,
            old(self).wf() ==> final(self).wf(),
    {
        self.msg_size = rows;
    }

    /// Places the caret at the popup's top-left writing position, with the
    /// margins the renderer derived from the popup's geometry. Called by the
    /// renderer whenever the caret is cleared (`cursor.x == 0`).
    pub fn init_cursor(&mut self, init_x: u16, y: u16, limit: u16)
        ensures
            final(self).cursor == (Cursor { init_x, x: init_x, y, limit }),
            final(self).tudus@ == old(self).tudus@,
            final(self).msg_size == old(self).msg_size,
            final(self).selected == old(self).selected,
            final(self).offset == old(self).offset,
            final(self).edit_mode == old(self).edit_mode,
            final(self).input@ == old(self).input@,
            final(self).exit == old(self).exit,
            old(self).wf() ==> final(self).wf(),
    {
        self.cursor = Cursor { init_x, x: init_x, y, limit };
    }
}

} // verus!
