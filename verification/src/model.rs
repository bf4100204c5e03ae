//! The editor as a mathematical state machine: the state that the
//! executable editor is a view of, and every transition as a function from
//! state to state.

use vstd::prelude::*;
use crate::action::{Action, ClipboardRequest};
use crate::color::{hex_of, is_hex_color, is_hex_digit, parse_hex, Channel, Color};
use crate::error::Error;
use crate::key::{Key, Modifiers};

verus! {

/// A pending command prefix: the next keystroke is read in its keymap.
#[derive(Clone, Copy, Debug, PartialEq, Eq, Structural)]
pub enum LeaderMode {
    Space,
}

/// The edit mode, with the text typed so far where the mode has any.
pub enum ModeView {
    Normal,
    Insert(Seq<char>),
    Color,
}

/// What one cell of the grid shows: its text, the color that fills it, if
/// any, and whether the cursor is on it.
pub struct SwatchView {
    pub label: Seq<char>,
    pub fill: Option<Color>,
    pub on_cursor: bool,
}

/// The mark that ends the text under the cursor while it is being typed.
pub const CARET: char = '\u{258f}';

/// The whole state of the editor.
pub struct State {
    pub grid: Seq<Color>,
    pub cols: nat,
    pub rows: nat,
    pub running: bool,
    pub cursor: nat,
    pub mode: ModeView,
    pub leader: Option<LeaderMode>,
    pub register: Option<Color>,
    pub multiplier: int,
}

/// Whether `m` is a rung of the ladder of step sizes.
pub open spec fn is_step_size(m: int) -> bool {
    m == 1 || m == 4 || m == 16 || m == 64
}

/// `v` held within `lo..=hi`.
pub open spec fn clamp(v: int, lo: int, hi: int) -> int {
    if v < lo {
        lo
    } else if v > hi {
        hi
    } else {
        v
    }
}

/// The color that clipboard contents denote: `None` stands for a clipboard
/// that could not be read.
pub open spec fn clipboard_color(contents: Option<Seq<char>>) -> Result<Color, Error> {
    match contents {
        None => Err(Error::ClipboardUnavailable),
        Some(text) => if is_hex_color(text) {
            Ok(parse_hex(text))
        } else {
            Err(Error::InvalidFormat)
        },
    }
}

/// The action bound to a key in Normal mode.
pub open spec fn normal_keymap(key: Key, modifiers: Modifiers) -> Option<Action> {
    match (modifiers, key) {
        (Modifiers::Shift, Key::Char('P')) => Some(Action::PasteBefore),
        (Modifiers::Shift, Key::Char('A')) => Some(Action::InsertAtEnd),
        (Modifiers::Shift, Key::Char('I')) => Some(Action::InsertAtStart),
        (Modifiers::Shift, Key::Char('R')) => Some(Action::Replace),
        (Modifiers::Plain, Key::Char('c')) => Some(Action::ColorMode),
        (Modifiers::Plain, Key::Char('i')) => Some(Action::InsertMode),
        (Modifiers::Plain, Key::Char('a')) => Some(Action::AppendMode),
        (Modifiers::Plain, Key::Char('d')) => Some(Action::Delete),
        (Modifiers::Plain, Key::Char('p')) => Some(Action::PasteAfter),
        (Modifiers::Plain, Key::Char('y')) => Some(Action::Yank),
        (Modifiers::Plain, Key::Char(' ')) => Some(Action::SpaceLeaderMode),
        (Modifiers::Plain, Key::Left) | (Modifiers::Plain, Key::Char('h')) => Some(Action::MoveLeft),
        (Modifiers::Plain, Key::Down) | (Modifiers::Plain, Key::Char('j')) => Some(Action::MoveDown),
        (Modifiers::Plain, Key::Up) | (Modifiers::Plain, Key::Char('k')) => Some(Action::MoveUp),
        (Modifiers::Plain, Key::Right) | (Modifiers::Plain, Key::Char('l')) => Some(
            Action::MoveRight,
        ),
        (Modifiers::Control, Key::Char('c')) => Some(Action::Quit),
        _ => None,
    }
}

/// The action bound to a key in Insert mode. Only hex digits are typed
/// into the buffer.
pub open spec fn insert_keymap(key: Key, modifiers: Modifiers) -> Option<Action> {
    match (modifiers, key) {
        (Modifiers::Control, Key::Char('w')) => Some(Action::InsertClear),
        (Modifiers::Plain, Key::Enter) => Some(Action::InsertConfirm),
        (Modifiers::Plain, Key::Esc) => Some(Action::NormalMode),
        (Modifiers::Plain, Key::Backspace) => Some(Action::InsertDeleteChar),
        (Modifiers::Plain, Key::Char(c)) => if is_hex_digit(c) {
            Some(Action::InsertAppendChar(c))
        } else {
            None
        },
        _ => None,
    }
}

/// The action bound to a key in Color mode.
pub open spec fn color_keymap(key: Key, modifiers: Modifiers) -> Option<Action> {
    match (modifiers, key) {
        (Modifiers::Control, Key::Char('a')) => Some(Action::IncColorMultiplier),
        (Modifiers::Control, Key::Char('x')) => Some(Action::DecColorMultiplier),
        (Modifiers::Plain, Key::Char('r')) => Some(Action::ColorAddRed),
        (Modifiers::Shift, Key::Char('R')) => Some(Action::ColorRemoveRed),
        (Modifiers::Plain, Key::Char('g')) => Some(Action::ColorAddGreen),
        (Modifiers::Shift, Key::Char('G')) => Some(Action::ColorRemoveGreen),
        (Modifiers::Plain, Key::Char('b')) => Some(Action::ColorAddBlue),
        (Modifiers::Shift, Key::Char('B')) => Some(Action::ColorRemoveBlue),
        (Modifiers::Plain, Key::Esc) => Some(Action::NormalMode),
        _ => None,
    }
}

/// The action bound to the key that follows the space leader.
pub open spec fn space_keymap(key: Key, modifiers: Modifiers) -> Option<Action> {
    match (modifiers, key) {
        (Modifiers::Shift, Key::Char('P')) => Some(Action::PasteClipboardBefore),
        (Modifiers::Shift, Key::Char('R')) => Some(Action::ReplaceClipboard),
        (Modifiers::Plain, Key::Char('p')) => Some(Action::PasteClipboardAfter),
        (Modifiers::Plain, Key::Char('y')) => Some(Action::YankToClipboard),
        _ => None,
    }
}

/// The action that a keystroke decodes to. A pending leader decides alone;
/// without one the mode's keymap does.
pub open spec fn decode(
    mode: ModeView,
    leader: Option<LeaderMode>,
    key: Key,
    modifiers: Modifiers,
) -> Option<Action> {
    match leader {
        Some(LeaderMode::Space) => space_keymap(key, modifiers),
        None => match mode {
            ModeView::Normal => normal_keymap(key, modifiers),
            ModeView::Insert(_) => insert_keymap(key, modifiers),
            ModeView::Color => color_keymap(key, modifiers),
        },
    }
}

/// The clipboard work that an action leaves to the caller.
pub open spec fn clipboard_request(action: Action) -> Option<ClipboardRequest> {
    match action {
        Action::YankToClipboard => Some(ClipboardRequest::Yank),
        Action::PasteClipboardBefore => Some(ClipboardRequest::PasteBefore),
        Action::PasteClipboardAfter => Some(ClipboardRequest::PasteAfter),
        Action::ReplaceClipboard => Some(ClipboardRequest::Replace),
        _ => None,
    }
}

impl State {
    /// A fresh editor: one black cell on an 8 by 8 grid, Normal mode.
    pub open spec fn initial() -> State {
        State {
            grid: seq![Color { r: 0, g: 0, b: 0 }],
            cols: 8,
            rows: 8,
            running: true,
            cursor: 0,
            mode: ModeView::Normal,
            leader: None,
            register: None,
            multiplier: 64,
        }
    }

    /// The most cells that the grid can hold.
    pub open spec fn capacity(self) -> nat {
        self.cols * self.rows
    }

    /// What holds of every state that the editor can reach: the grid is
    /// never empty and never over capacity, the cursor is on a cell, the
    /// multiplier is a rung of its ladder, and the Insert buffer holds at
    /// most six characters. The capacity is a number that the machine can
    /// count to.
    pub open spec fn wf(self) -> bool {
        &&& 1 <= self.grid.len() <= self.capacity() <= usize::MAX
        &&& self.cursor < self.grid.len()
        &&& is_step_size(self.multiplier)
        &&& (self.mode matches ModeView::Insert(buffer) ==> buffer.len() <= 6)
    }

    /// The color under the cursor.
    pub open spec fn current(self) -> Color {
        self.grid[self.cursor as int]
    }

    // ---- the grid store ----

    pub open spec fn color_at(self, index: int) -> Result<Color, Error> {
        if 0 <= index < self.grid.len() {
            Ok(self.grid[index])
        } else {
            Err(Error::OutOfRange)
        }
    }

    pub open spec fn set_color_at(self, color: Color, index: int) -> State {
        if 0 <= index < self.grid.len() {
            State { grid: self.grid.update(index, color), ..self }
        } else {
            self
        }
    }

    /// Why an insert at `index` is turned down, if it is. An index past the
    /// end is reported before a full grid.
    pub open spec fn insert_outcome(self, index: int) -> Result<(), Error> {
        if index > self.grid.len() {
            Err(Error::OutOfRange)
        } else if self.grid.len() >= self.capacity() {
            Err(Error::CapacityExceeded)
        } else {
            Ok(())
        }
    }

    pub open spec fn insert_color_at(self, color: Color, index: int) -> State {
        if self.insert_outcome(index) is Ok {
            State { grid: self.grid.insert(index, color), ..self }
        } else {
            self
        }
    }

    /// The removed color, or why a delete at `index` is turned down. The
    /// last cell is protected before the index is looked at.
    pub open spec fn delete_outcome(self, index: int) -> Result<Color, Error> {
        if self.grid.len() <= 1 {
            Err(Error::MinimumSize)
        } else if index >= self.grid.len() {
            Err(Error::OutOfRange)
        } else {
            Ok(self.grid[index])
        }
    }

    /// The grid without the cell at `index`; the cursor steps back onto
    /// the last cell if the grid shrank from under it.
    pub open spec fn delete_color_at(self, index: int) -> State {
        if self.delete_outcome(index) is Ok {
            State {
                grid: self.grid.remove(index),
                cursor: clamp(self.cursor as int, 0, self.grid.len() - 2) as nat,
                ..self
            }
        } else {
            self
        }
    }

    // ---- Normal mode ----

    pub open spec fn normal_mode(self) -> State {
        State { mode: ModeView::Normal, ..self }
    }

    /// Movement on the flat sequence: `x` cells and `y` rows of `cols`
    /// cells, held within the grid.
    pub open spec fn move_cursor(self, x: int, y: int) -> State {
        State {
            cursor: clamp(self.cursor + x + y * self.cols, 0, self.grid.len() - 1) as nat,
            ..self
        }
    }

    pub open spec fn delete(self) -> State {
        match self.delete_outcome(self.cursor as int) {
            Ok(removed) => State {
                register: Some(removed),
                ..self.delete_color_at(self.cursor as int)
            },
            Err(_) => self,
        }
    }

    pub open spec fn yank(self) -> State {
        State { register: Some(self.current()), ..self }
    }

    pub open spec fn paste_after(self) -> State {
        match self.register {
            Some(color) => self.insert_color_at(color, self.cursor as int + 1),
            None => self,
        }
    }

    pub open spec fn paste_before(self) -> State {
        match self.register {
            Some(color) => self.insert_color_at(color, self.cursor as int),
            None => self,
        }
    }

    pub open spec fn replace(self) -> State {
        match self.register {
            Some(color) => self.set_color_at(color, self.cursor as int),
            None => self,
        }
    }

    // ---- Insert mode ----

    pub open spec fn insert_mode(self) -> State {
        State { mode: ModeView::Insert(hex_of(self.current())), ..self }
    }

    /// A black cell goes in at `index`, the cursor moves onto it and its
    /// text is opened for editing; nothing changes where the insert is
    /// turned down.
    pub open spec fn open_new_cell(self, index: int) -> State {
        if self.insert_outcome(index) is Ok {
            State {
                cursor: index as nat,
                ..self.insert_color_at(Color { r: 0, g: 0, b: 0 }, index)
            }.insert_mode()
        } else {
            self
        }
    }

    pub open spec fn append_mode(self) -> State {
        self.open_new_cell(self.cursor as int + 1)
    }

    pub open spec fn insert_at_end(self) -> State {
        self.open_new_cell(self.grid.len() as int)
    }

    pub open spec fn insert_at_start(self) -> State {
        self.open_new_cell(0)
    }

    pub open spec fn insert_append_char(self, c: char) -> State {
        match self.mode {
            ModeView::Insert(buffer) => if buffer.len() < 6 {
                State { mode: ModeView::Insert(buffer.push(c)), ..self }
            } else {
                self
            },
            _ => self,
        }
    }

    pub open spec fn insert_delete_char(self) -> State {
        match self.mode {
            ModeView::Insert(buffer) => if buffer.len() > 0 {
                State { mode: ModeView::Insert(buffer.drop_last()), ..self }
            } else {
                self
            },
            _ => self,
        }
    }

    pub open spec fn insert_clear_chars(self) -> State {
        match self.mode {
            ModeView::Insert(_) => State { mode: ModeView::Insert(Seq::empty()), ..self },
            _ => self,
        }
    }

    /// Leaves Insert mode; the buffer is stored under the cursor if it is
    /// a color's text and dropped if it is not.
    pub open spec fn insert_confirm(self) -> State {
        match self.mode {
            ModeView::Insert(buffer) => {
                let stored = if is_hex_color(buffer) {
                    self.set_color_at(parse_hex(buffer), self.cursor as int)
                } else {
                    self
                };
                State { mode: ModeView::Normal, ..stored }
            },
            _ => self,
        }
    }

    // ---- the leader ----

    pub open spec fn clear_leader_mode(self) -> State {
        State { leader: None, ..self }
    }

    pub open spec fn space_leader_mode(self) -> State {
        State { leader: Some(LeaderMode::Space), ..self }
    }

    pub open spec fn paste_clipboard_before(self, contents: Option<Seq<char>>) -> State {
        match clipboard_color(contents) {
            Ok(color) => self.insert_color_at(color, self.cursor as int),
            Err(_) => self,
        }
    }

    pub open spec fn paste_clipboard_after(self, contents: Option<Seq<char>>) -> State {
        match clipboard_color(contents) {
            Ok(color) => self.insert_color_at(color, self.cursor as int + 1),
            Err(_) => self,
        }
    }

    pub open spec fn replace_clipboard(self, contents: Option<Seq<char>>) -> State {
        match clipboard_color(contents) {
            Ok(color) => self.set_color_at(color, self.cursor as int),
            Err(_) => self,
        }
    }

    // ---- Color mode ----

    pub open spec fn color_leader_mode(self) -> State {
        State { mode: ModeView::Color, ..self }
    }

    pub open spec fn inc_color_multiplier(self) -> State {
        State { multiplier: clamp(self.multiplier * 4, 1, 64), ..self }
    }

    pub open spec fn dec_color_multiplier(self) -> State {
        State { multiplier: clamp(self.multiplier / 4, 1, 64), ..self }
    }

    /// One channel of the color under the cursor moves by the multiplier,
    /// up or down.
    pub open spec fn operate_on_color(self, channel: Channel, increase: bool) -> State {
        let amount = if increase {
            self.multiplier
        } else {
            -self.multiplier
        };
        self.set_color_at(self.current().adjusted(channel, amount), self.cursor as int)
    }

    pub open spec fn quit(self) -> State {
        State { running: false, ..self }
    }

    // ---- what is shown ----

    /// What the cell at `index` shows. Under the cursor in Insert mode it
    /// is the text being typed, ended by a caret, on the color that the
    /// text denotes so far, if any; elsewhere the stored color and its hex
    /// digits. A cell past the end of the grid shows nothing.
    pub open spec fn swatch(self, index: int) -> SwatchView {
        let on_cursor = index == self.cursor;
        match self.mode {
            ModeView::Insert(buffer) if on_cursor => SwatchView {
                label: buffer.push(CARET),
                fill: if is_hex_color(buffer) {
                    Some(parse_hex(buffer))
                } else {
                    None
                },
                on_cursor,
            },
            _ => match self.color_at(index) {
                Ok(color) => SwatchView { label: hex_of(color), fill: Some(color), on_cursor },
                Err(_) => SwatchView { label: Seq::empty(), fill: None, on_cursor },
            },
        }
    }

    // ---- the executor and the step ----

    /// The state after `action`. A clipboard action changes nothing by
    /// itself: its effect comes when the caller hands the clipboard's text
    /// over.
    pub open spec fn apply(self, action: Action) -> State {
        match action {
            Action::AppendMode => self.append_mode(),
            Action::ColorMode => self.color_leader_mode(),
            Action::Delete => self.delete(),
            Action::InsertAtEnd => self.insert_at_end(),
            Action::InsertAtStart => self.insert_at_start(),
            Action::InsertMode => self.insert_mode(),
            Action::MoveDown => self.move_cursor(0, 1),
            Action::MoveLeft => self.move_cursor(-1, 0),
            Action::MoveRight => self.move_cursor(1, 0),
            Action::MoveUp => self.move_cursor(0, -1),
            Action::NormalMode => self.normal_mode(),
            Action::InsertConfirm => self.insert_confirm(),
            Action::InsertAppendChar(c) => self.insert_append_char(c),
            Action::InsertDeleteChar => self.insert_delete_char(),
            Action::InsertClear => self.insert_clear_chars(),
            Action::PasteAfter => self.paste_after(),
            Action::PasteBefore => self.paste_before(),
            Action::PasteClipboardAfter => self,
            Action::PasteClipboardBefore => self,
            Action::ReplaceClipboard => self,
            Action::Quit => self.quit(),
            Action::Replace => self.replace(),
            Action::SpaceLeaderMode => self.space_leader_mode(),
            Action::Yank => self.yank(),
            Action::YankToClipboard => self,
            Action::ColorAddRed => self.operate_on_color(Channel::Red, true),
            Action::ColorAddGreen => self.operate_on_color(Channel::Green, true),
            Action::ColorAddBlue => self.operate_on_color(Channel::Blue, true),
            Action::ColorRemoveRed => self.operate_on_color(Channel::Red, false),
            Action::ColorRemoveGreen => self.operate_on_color(Channel::Green, false),
            Action::ColorRemoveBlue => self.operate_on_color(Channel::Blue, false),
            Action::IncColorMultiplier => self.inc_color_multiplier(),
            Action::DecColorMultiplier => self.dec_color_multiplier(),
        }
    }

    /// The state after one keystroke. Whatever the key, a leader that was
    /// pending before it is gone after it.
    pub open spec fn step(self, key: Key, modifiers: Modifiers) -> State {
        match decode(self.mode, self.leader, key, modifiers) {
            Some(action) => self.clear_leader_mode().apply(action),
            None => self.clear_leader_mode(),
        }
    }

    /// The clipboard work that one keystroke leaves to the caller.
    pub open spec fn step_request(self, key: Key, modifiers: Modifiers) -> Option<
        ClipboardRequest,
    > {
        match decode(self.mode, self.leader, key, modifiers) {
            Some(action) => clipboard_request(action),
            None => None,
        }
    }
}

} // verus!
