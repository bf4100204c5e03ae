//! The executable editor. Every method is a transition of the state
//! machine in `model`, and says so in its contract.

use vstd::prelude::*;
use crate::action::{Action, ClipboardRequest};
pub use crate::color::{Channel, Color};
use crate::color::{hex_of, is_hex_digit_char};
use crate::error::Error;
use crate::key::{Key, Modifiers};
pub use crate::model::LeaderMode;
use crate::model::{
    clipboard_color, clipboard_request, color_keymap, decode, insert_keymap, normal_keymap,
    space_keymap, ModeView, State, SwatchView, CARET,
};

verus! {

/// The edit mode. Insert mode carries the text typed so far.
#[derive(Debug)]
pub enum Mode {
    Normal,
    Insert(String),
    Color,
}

impl View for Mode {
    type V = ModeView;

    open spec fn view(&self) -> ModeView {
        match self {
            Mode::Normal => ModeView::Normal,
            Mode::Insert(buffer) => ModeView::Insert(buffer@),
            Mode::Color => ModeView::Color,
        }
    }
}

/// The editor: a bounded grid of colors, a cursor on one of its cells, the
/// edit mode, a pending leader, a one-slot register and the step size of
/// Color mode.
pub struct App {
    grid: Vec<Color>,
    cols: usize,
    rows: usize,
    running: bool,
    cursor: usize,
    mode: Mode,
    leader_mode: Option<LeaderMode>,
    register: Option<Color>,
    multiplier: i32,
}

impl View for App {
    type V = State;

    closed spec fn view(&self) -> State {
        State {
            grid: self.grid@,
            cols: self.cols as nat,
            rows: self.rows as nat,
            running: self.running,
            cursor: self.cursor as nat,
            mode: self.mode@,
            leader: self.leader_mode,
            register: self.register,
            multiplier: self.multiplier as int,
        }
    }
}

/// What one cell of the grid shows: its text, the color that fills it, if
/// any, and whether the cursor is on it.
#[derive(Debug)]
pub struct Swatch {
    pub label: String,
    pub fill: Option<Color>,
    pub on_cursor: bool,
}

impl View for Swatch {
    type V = SwatchView;

    open spec fn view(&self) -> SwatchView {
        SwatchView { label: self.label@, fill: self.fill, on_cursor: self.on_cursor }
    }
}

/// Clipboard contents as the model reads them.
pub open spec fn text_of(contents: Option<&str>) -> Option<Seq<char>> {
    match contents {
        Some(text) => Some(text@),
        None => None,
    }
}

/// The color on the clipboard. `None` stands for a clipboard that could
/// not be read; text that is not a color's text is `Error::InvalidFormat`.
pub fn try_color_from_clipboard(contents: Option<&str>) -> (res: Result<Color, Error>)
    ensures
        res == clipboard_color(text_of(contents)),
{
    match contents {
        Some(text) => Color::try_from_hex_str(text),
        None => Err(Error::ClipboardUnavailable),
    }
}

impl App {
    /// A fresh editor: one black cell on an 8 by 8 grid, the cursor on it,
    /// Normal mode, nothing pending, an empty register and the largest
    /// step size.
    pub fn new() -> (app: Self)
        ensures
            app@ == State::initial(),
            app@.wf(),
    {
        let app = App {
            grid: vec![Color::default()],
            cols: 8,
            rows: 8,
            running: true,
            cursor: 0,
            mode: Mode::Normal,
            leader_mode: None,
            register: None,
            multiplier: 64,
        };
        assert(app@.grid =~= State::initial().grid);
        app
    }

    /// Whether the editor is in a state that its methods accept. Every
    /// editor made by `new` and changed only through its methods is.
    pub fn is_well_formed(&self) -> (ok: bool)
        ensures
            ok == self@.wf(),
    {
        let capacity = match self.cols.checked_mul(self.rows) {
            Some(capacity) => capacity,
            None => {
                return false;
            },
        };
        let buffer_fits = match &self.mode {
            Mode::Insert(contents) => contents.as_str().unicode_len() <= 6,
            _ => true,
        };
        let m = self.multiplier;
        1 <= self.grid.len() && self.grid.len() <= capacity && self.cursor < self.grid.len() && (m
            == 1 || m == 4 || m == 16 || m == 64) && buffer_fits
    }

    /// Asks the caller's loop to end.
    pub fn quit(&mut self)
        ensures
            final(self)@ == old(self)@.quit(),
    {
        self.running = false;
    }

    /// Whether the editor has not been asked to quit.
    pub fn running(&self) -> (running: bool)
        ensures
            running == self@.running,
    {
        self.running
    }

    /// The number of cells in a row of the grid.
    pub fn cols(&self) -> (cols: usize)
        ensures
            cols == self@.cols,
    {
        self.cols
    }

    /// The number of rows that the grid has room for.
    pub fn rows(&self) -> (rows: usize)
        ensures
            rows == self@.rows,
    {
        self.rows
    }

    /// The number of cells in the grid.
    pub fn len(&self) -> (len: usize)
        ensures
            len == self@.grid.len(),
    {
        self.grid.len()
    }

    /// The edit mode.
    pub fn mode(&self) -> (mode: &Mode)
        ensures
            mode@ == self@.mode,
    {
        &self.mode
    }

    /// The index of the cell that the cursor is on.
    pub fn cursor(&self) -> (cursor: usize)
        ensures
            cursor == self@.cursor,
    {
        self.cursor
    }

    /// The color last yanked or deleted, if any.
    pub fn register(&self) -> (register: Option<Color>)
        ensures
            register == self@.register,
    {
        self.register
    }

    /// The step size of Color mode.
    pub fn multiplier(&self) -> (multiplier: i32)
        ensures
            multiplier == self@.multiplier,
    {
        self.multiplier
    }

    /// The color at `index`; an index off the grid is `Error::OutOfRange`.
    pub fn color_at(&self, index: usize) -> (res: Result<Color, Error>)
        ensures
            res == self@.color_at(index as int),
    {
        if index < self.grid.len() {
            Ok(self.grid[index])
        } else {
            Err(Error::OutOfRange)
        }
    }

    /// Stores `color` at `index` and returns the color that was there; an
    /// index off the grid is `Error::OutOfRange` and changes nothing.
    pub fn set_color_at(&mut self, color: Color, index: usize) -> (res: Result<Color, Error>)
        ensures
            res == old(self)@.color_at(index as int),
            final(self)@ == old(self)@.set_color_at(color, index as int),
            old(self)@.wf() ==> final(self)@.wf(),
    {
        if index < self.grid.len() {
            let previous = self.grid[index];
            self.grid.set(index, color);
            Ok(previous)
        } else {
            Err(Error::OutOfRange)
        }
    }

    /// Puts `color` in at `index`, moving the cells from there on one place
    /// to the right. Turned down, with nothing changed, where `index` is
    /// past the end or the grid is full.
    pub fn insert_color_at(&mut self, color: Color, index: usize) -> (res: Result<(), Error>)
        requires
            old(self)@.wf(),
        ensures
            res == old(self)@.insert_outcome(index as int),
            final(self)@ == old(self)@.insert_color_at(color, index as int),
            final(self)@.wf(),
    {
        if index > self.grid.len() {
            Err(Error::OutOfRange)
        } else if self.grid.len() >= self.cols * self.rows {
            Err(Error::CapacityExceeded)
        } else {
            self.grid.insert(index, color);
            Ok(())
        }
    }

    /// Takes the cell at `index` out, moving the cells after it one place
    /// to the left, and returns its color. Turned down, with nothing
    /// changed, where it is the last cell or `index` is off the grid. A
    /// cursor left past the end steps back onto the last cell.
    pub fn delete_color_at(&mut self, index: usize) -> (res: Result<Color, Error>)
        requires
            old(self)@.wf(),
        ensures
            res == old(self)@.delete_outcome(index as int),
            final(self)@ == old(self)@.delete_color_at(index as int),
            final(self)@.wf(),
    {
        if self.grid.len() <= 1 {
            return Err(Error::MinimumSize);
        }
        if index < self.grid.len() {
            let removed = self.grid.remove(index);
            if self.cursor >= self.grid.len() {
                self.cursor = self.grid.len() - 1;
            }
            Ok(removed)
        } else {
            Err(Error::OutOfRange)
        }
    }

    /// What the cell at `index` shows: under the cursor in Insert mode the
    /// text being typed, ended by a caret; elsewhere the stored color and
    /// its hex digits; past the end of the grid, nothing.
    pub fn swatch_at(&self, index: usize) -> (swatch: Swatch)
        ensures
            swatch@ == self@.swatch(index as int),
    {
        let on_cursor = self.cursor == index;
        if on_cursor {
            if let Mode::Insert(contents) = &self.mode {
                let fill = match Color::try_from_hex_str(contents.as_str()) {
                    Ok(color) => Some(color),
                    Err(_) => None,
                };
                let mut label = contents.clone();
                label.push(CARET);
                return Swatch { label, fill, on_cursor };
            }
        }
        match self.color_at(index) {
            Ok(color) => Swatch { label: color.hex(), fill: Some(color), on_cursor },
            Err(_) => Swatch { label: String::new(), fill: None, on_cursor },
        }
    }

    /// Carries out `action` and returns the clipboard work that it leaves
    /// to the caller, if any.
    pub fn handle_action(&mut self, action: Action) -> (request: Option<ClipboardRequest>)
        requires
            old(self)@.wf(),
        ensures
            final(self)@ == old(self)@.apply(action),
            request == clipboard_request(action),
            final(self)@.wf(),
    {
        match action {
            Action::AppendMode => self.append_mode(),
            Action::ColorMode => self.color_leader_mode(),
            Action::Delete => self.delete(),
            Action::InsertAtEnd => self.insert_at_end(),
            Action::InsertAtStart => self.insert_at_start(),
            Action::InsertMode => self.insert_mode(),
            Action::MoveDown => self.move_cursor(0, 1),
            Action::MoveLeft => self.move_cursor(-1, 0),
            Action::MoveRight => self.move_cursor(1, 0),
            Action::MoveUp => self.move_cursor(0, -1),
            Action::NormalMode => self.normal_mode(),
            Action::InsertConfirm => self.insert_confirm(),
            Action::InsertAppendChar(c) => self.insert_append_char(c),
            Action::InsertDeleteChar => self.insert_delete_char(),
            Action::InsertClear => self.insert_clear_chars(),
            Action::PasteAfter => self.paste_after(),
            Action::PasteBefore => self.paste_before(),
            Action::PasteClipboardAfter => return Some(ClipboardRequest::PasteAfter),
            Action::PasteClipboardBefore => return Some(ClipboardRequest::PasteBefore),
            Action::ReplaceClipboard => return Some(ClipboardRequest::Replace),
            Action::Quit => self.quit(),
            Action::Replace => self.replace(),
            Action::SpaceLeaderMode => self.space_leader_mode(),
            Action::Yank => self.yank(),
            Action::YankToClipboard => return Some(ClipboardRequest::Yank),
            Action::ColorAddRed => self.operate_on_color(Channel::Red, true),
            Action::ColorAddGreen => self.operate_on_color(Channel::Green, true),
            Action::ColorAddBlue => self.operate_on_color(Channel::Blue, true),
            Action::ColorRemoveRed => self.operate_on_color(Channel::Red, false),
            Action::ColorRemoveGreen => self.operate_on_color(Channel::Green, false),
            Action::ColorRemoveBlue => self.operate_on_color(Channel::Blue, false),
            Action::IncColorMultiplier => self.inc_color_multiplier(),
            Action::DecColorMultiplier => self.dec_color_multiplier(),
        }
        None
    }

    // --- Normal Mode ---
    /// Enters Normal mode, dropping any text that was being typed.
    pub fn normal_mode(&mut self)
        ensures
            final(self)@ == old(self)@.normal_mode(),
            old(self)@.wf() ==> final(self)@.wf(),
    {
        self.mode = Mode::Normal;
    }

    /// Moves the cursor `x` cells and `y` rows along the flat sequence of
    /// cells, stopping at the first and the last cell.
    pub fn move_cursor(&mut self, x: isize, y: isize)
        requires
            old(self)@.wf(),
        ensures
            final(self)@ == old(self)@.move_cursor(x as int, y as int),
            final(self)@.wf(),
    {
        let rows: i128 = y as i128;
        let cols: i128 = self.cols as i128;
        assert(-0x8000_0000_0000_0000 * 0xffff_ffff_ffff_ffff <= rows * cols
            <= 0x7fff_ffff_ffff_ffff * 0xffff_ffff_ffff_ffff) by (nonlinear_arith)
            requires
                -0x8000_0000_0000_0000 <= rows <= 0x7fff_ffff_ffff_ffff,
                0 <= cols <= 0xffff_ffff_ffff_ffff,
        ;
        let target: i128 = self.cursor as i128 + x as i128 + rows * cols;
        let last: usize = self.grid.len() - 1;
        if target < 0 {
            self.cursor = 0;
        } else if target > last as i128 {
            self.cursor = last;
        } else {
            self.cursor = target as usize;
        }
    }

    /// Moves the cell under the cursor into the register. The last cell
    /// cannot be deleted: the attempt changes nothing.
    pub fn delete(&mut self)
        requires
            old(self)@.wf(),
        ensures
            final(self)@ == old(self)@.delete(),
            final(self)@.wf(),
    {
        match self.delete_color_at(self.cursor) {
            Ok(removed) => {
                self.register = Some(removed);
            },
            Err(_) => {},
        }
    }

    /// Copies the color under the cursor into the register.
    pub fn yank(&mut self)
        requires
            old(self)@.wf(),
        ensures
            final(self)@ == old(self)@.yank(),
            final(self)@.wf(),
    {
        self.register = Some(self.grid[self.cursor]);
    }

    /// Puts the register's color in right after the cursor. Nothing changes
    /// where the register is empty or the grid is full.
    pub fn paste_after(&mut self)
        requires
            old(self)@.wf(),
        ensures
            final(self)@ == old(self)@.paste_after(),
            final(self)@.wf(),
    {
        if let Some(color) = self.register {
            let _ = self.insert_color_at(color, self.cursor + 1);
        }
    }

    /// Puts the register's color in at the cursor, which then is on it.
    /// Nothing changes where the register is empty or the grid is full.
    pub fn paste_before(&mut self)
        requires
            old(self)@.wf(),
        ensures
            final(self)@ == old(self)@.paste_before(),
            final(self)@.wf(),
    {
        if let Some(color) = self.register {
            let _ = self.insert_color_at(color, self.cursor);
        }
    }

    /// Stores the register's color under the cursor, if there is one.
    pub fn replace(&mut self)
        requires
            old(self)@.wf(),
        ensures
            final(self)@ == old(self)@.replace(),
            final(self)@.wf(),
    {
        if let Some(color) = self.register {
            let _ = self.set_color_at(color, self.cursor);
        }
    }

    /// Opens the text of the color under the cursor for editing.
    pub fn insert_mode(&mut self)
        requires
            old(self)@.wf(),
        ensures
            final(self)@ == old(self)@.insert_mode(),
            final(self)@.wf(),
    {
        self.mode = Mode::Insert(self.grid[self.cursor].hex());
    }

    fn open_new_cell(&mut self, index: usize)
        requires
            old(self)@.wf(),
        ensures
            final(self)@ == old(self)@.open_new_cell(index as int),
            final(self)@.wf(),
    {
        match self.insert_color_at(Color::default(), index) {
            Ok(_) => {
                self.cursor = index;
                self.insert_mode();
            },
            Err(_) => {},
        }
    }

    /// Opens a new black cell right after the cursor for editing. Nothing
    /// changes where the grid is full.
    pub fn append_mode(&mut self)
        requires
            old(self)@.wf(),
        ensures
            final(self)@ == old(self)@.append_mode(),
            final(self)@.wf(),
    {
        self.open_new_cell(self.cursor + 1)
    }

    /// Opens a new black cell after the last one for editing. Nothing
    /// changes where the grid is full.
    pub fn insert_at_end(&mut self)
        requires
            old(self)@.wf(),
        ensures
            final(self)@ == old(self)@.insert_at_end(),
            final(self)@.wf(),
    {
        self.open_new_cell(self.grid.len())
    }

    /// Opens a new black cell before the first one for editing. Nothing
    /// changes where the grid is full.
    pub fn insert_at_start(&mut self)
        requires
            old(self)@.wf(),
        ensures
            final(self)@ == old(self)@.insert_at_start(),
            final(self)@.wf(),
    {
        self.open_new_cell(0)
    }

    /// Types `c` into the Insert buffer, unless it already holds six
    /// characters.
    pub fn insert_append_char(&mut self, c: char)
        ensures
            final(self)@ == old(self)@.insert_append_char(c),
            old(self)@.wf() ==> final(self)@.wf(),
    {
        match &mut self.mode {
            Mode::Insert(contents) => {
                if contents.as_str().unicode_len() < 6 {
                    contents.push(c);
                }
            },
            _ => {},
        }
    }

    /// Takes the last character off the Insert buffer, if it has one.
    pub fn insert_delete_char(&mut self)
        ensures
            final(self)@ == old(self)@.insert_delete_char(),
            old(self)@.wf() ==> final(self)@.wf(),
    {
        match &mut self.mode {
            Mode::Insert(contents) => {
                contents.pop();
            },
            _ => {},
        }
    }

    /// Empties the Insert buffer.
    pub fn insert_clear_chars(&mut self)
        ensures
            final(self)@ == old(self)@.insert_clear_chars(),
            old(self)@.wf() ==> final(self)@.wf(),
    {
        match &mut self.mode {
            Mode::Insert(contents) => {
                contents.clear();
            },
            _ => {},
        }
    }

    /// Leaves Insert mode. The buffer is stored under the cursor if it is
    /// a color's text; otherwise it is dropped and the grid stays as it is.
    pub fn insert_confirm(&mut self)
        requires
            old(self)@.wf(),
        ensures
            final(self)@ == old(self)@.insert_confirm(),
            final(self)@.wf(),
    {
        let parsed = match &self.mode {
            Mode::Insert(contents) => Some(Color::try_from_hex_str(contents.as_str())),
            _ => None,
        };
        if let Some(parsed) = parsed {
            if let Ok(color) = parsed {
                let _ = self.set_color_at(color, self.cursor);
            }
            self.mode = Mode::Normal;
        }
    }

    /// The pending leader, if any.
    pub fn get_leader_mode(&self) -> (leader: &Option<LeaderMode>)
        ensures
            *leader == self@.leader,
    {
        &self.leader_mode
    }

    /// Drops a pending leader.
    pub fn clear_leader_mode(&mut self)
        ensures
            final(self)@ == old(self)@.clear_leader_mode(),
    {
        self.leader_mode = None;
    }

    // --- Space Leader Mode ---
    /// Makes the space leader pending.
    pub fn space_leader_mode(&mut self)
        ensures
            final(self)@ == old(self)@.space_leader_mode(),
    {
        self.leader_mode = Some(LeaderMode::Space);
    }

    /// The text to put on the clipboard: the hex digits of the color under
    /// the cursor.
    pub fn yank_to_clipboard(&self) -> (text: String)
        requires
            self@.wf(),
        ensures
            text@ == hex_of(self@.current()),
    {
        self.grid[self.cursor].hex()
    }

    /// Pastes the clipboard's color before the cursor. Nothing changes
    /// where the clipboard could not be read, holds no color, or the grid
    /// is full.
    pub fn paste_clipboard_before(&mut self, contents: Option<&str>)
        requires
            old(self)@.wf(),
        ensures
            final(self)@ == old(self)@.paste_clipboard_before(text_of(contents)),
            final(self)@.wf(),
    {
        if let Ok(color) = try_color_from_clipboard(contents) {
            let _ = self.insert_color_at(color, self.cursor);
        }
    }

    /// Pastes the clipboard's color after the cursor. Nothing changes
    /// where the clipboard could not be read, holds no color, or the grid
    /// is full.
    pub fn paste_clipboard_after(&mut self, contents: Option<&str>)
        requires
            old(self)@.wf(),
        ensures
            final(self)@ == old(self)@.paste_clipboard_after(text_of(contents)),
            final(self)@.wf(),
    {
        if let Ok(color) = try_color_from_clipboard(contents) {
            let _ = self.insert_color_at(color, self.cursor + 1);
        }
    }

    /// Stores the clipboard's color under the cursor. Nothing changes
    /// where the clipboard could not be read or holds no color.
    pub fn replace_clipboard(&mut self, contents: Option<&str>)
        requires
            old(self)@.wf(),
        ensures
            final(self)@ == old(self)@.replace_clipboard(text_of(contents)),
            final(self)@.wf(),
    {
        if let Ok(color) = try_color_from_clipboard(contents) {
            let _ = self.set_color_at(color, self.cursor);
        }
    }

    // --- Color Leader Mode ---
    /// Enters Color mode.
    pub fn color_leader_mode(&mut self)
        ensures
            final(self)@ == old(self)@.color_leader_mode(),
            old(self)@.wf() ==> final(self)@.wf(),
    {
        self.mode = Mode::Color;
    }

    /// One rung up the ladder of step sizes; the top rung stays.
    pub fn inc_color_multiplier(&mut self)
        requires
            old(self)@.wf(),
        ensures
            final(self)@ == old(self)@.inc_color_multiplier(),
            final(self)@.wf(),
    {
        if self.multiplier < 64 {
            self.multiplier = self.multiplier * 4;
        }
    }

    /// One rung down the ladder of step sizes; the bottom rung stays.
    pub fn dec_color_multiplier(&mut self)
        requires
            old(self)@.wf(),
        ensures
            final(self)@ == old(self)@.dec_color_multiplier(),
            final(self)@.wf(),
    {
        if self.multiplier > 1 {
            self.multiplier = self.multiplier / 4;
        }
    }

    /// Moves one channel of the color under the cursor by the multiplier,
    /// up if `increase` and down if not.
    pub fn operate_on_color(&mut self, channel: Channel, increase: bool)
        requires
            old(self)@.wf(),
        ensures
            final(self)@ == old(self)@.operate_on_color(channel, increase),
            final(self)@.wf(),
    {
        let amount: i32 = if increase {
            self.multiplier
        } else {
            -self.multiplier
        };
        let mut color = self.grid[self.cursor];
        color.adjust_channel(channel, amount);
        self.grid.set(self.cursor, color);
    }

    /// Takes one keystroke: decodes it, drops a pending leader, carries
    /// out the action if there is one, and returns the clipboard work that
    /// it leaves to the caller.
    pub fn handle_events(&mut self, key_code: Key, key_modifiers: Modifiers) -> (request: Option<
        ClipboardRequest,
    >)
        requires
            old(self)@.wf(),
        ensures
            final(self)@ == old(self)@.step(key_code, key_modifiers),
            request == old(self)@.step_request(key_code, key_modifiers),
            final(self)@.wf(),
    {
        let action = self.decode(key_code, key_modifiers);
        self.clear_leader_mode();
        match action {
            Some(action) => self.handle_action(action),
            None => None,
        }
    }

    /// The action that a keystroke stands for in the current mode and
    /// leader state. Nothing is changed.
    pub fn decode(&self, key_code: Key, key_modifiers: Modifiers) -> (action: Option<Action>)
        ensures
            action == decode(self@.mode, self@.leader, key_code, key_modifiers),
    {
        if let Some(leader_mode) = self.get_leader_mode() {
            match leader_mode {
                LeaderMode::Space => Self::space_leader_mode_keymap(key_code, key_modifiers),
            }
        } else {
            match self.mode() {
                Mode::Normal => Self::normal_mode_keymap(key_modifiers, key_code),
                Mode::Insert(_) => Self::insert_mode_keymap(key_code, key_modifiers),
                Mode::Color => Self::color_mode_keymap(key_code, key_modifiers),
            }
        }
    }

    /// The action bound to a key in Normal mode.
    pub fn normal_mode_keymap(key_modifiers: Modifiers, key_code: Key) -> (action: Option<Action>)
        ensures
            action == normal_keymap(key_code, key_modifiers),
    {
        match (key_modifiers, key_code) {
            (Modifiers::Shift, key_code) => match key_code {
                Key::Char('P') => Some(Action::PasteBefore),
                Key::Char('A') => Some(Action::InsertAtEnd),
                Key::Char('I') => Some(Action::InsertAtStart),
                Key::Char('R') => Some(Action::Replace),
                _ => None,
            },
            (Modifiers::Plain, key_code) => match key_code {
                Key::Char('c') => Some(Action::ColorMode),
                Key::Char('i') => Some(Action::InsertMode),
                Key::Char('a') => Some(Action::AppendMode),
                Key::Char('d') => Some(Action::Delete),
                Key::Char('p') => Some(Action::PasteAfter),
                Key::Char('y') => Some(Action::Yank),
                Key::Char(' ') => Some(Action::SpaceLeaderMode),
                Key::Left | Key::Char('h') => Some(Action::MoveLeft),
                Key::Down | Key::Char('j') => Some(Action::MoveDown),
                Key::Up | Key::Char('k') => Some(Action::MoveUp),
                Key::Right | Key::Char('l') => Some(Action::MoveRight),
                _ => None,
            },
            (Modifiers::Control, Key::Char('c')) => Some(Action::Quit),
            _ => None,
        }
    }

    /// The action bound to a key in Insert mode.
    pub fn insert_mode_keymap(key_code: Key, key_modifiers: Modifiers) -> (action: Option<Action>)
        ensures
            action == insert_keymap(key_code, key_modifiers),
    {
        match (key_modifiers, key_code) {
            (Modifiers::Control, Key::Char('w')) => Some(Action::InsertClear),
            (Modifiers::Plain, key_code) => match key_code {
                Key::Enter => Some(Action::InsertConfirm),
                Key::Esc => Some(Action::NormalMode),
                Key::Char(c) => if is_hex_digit_char(c) {
                    Some(Action::InsertAppendChar(c))
                } else {
                    None
                },
                Key::Backspace => Some(Action::InsertDeleteChar),
                _ => None,
            },
            _ => None,
        }
    }

    /// The action bound to the key that follows the space leader.
    pub fn space_leader_mode_keymap(key_code: Key, key_modifiers: Modifiers) -> (action: Option<
        Action,
    >)
        ensures
            action == space_keymap(key_code, key_modifiers),
    {
        match (key_modifiers, key_code) {
            (Modifiers::Shift, Key::Char('P')) => Some(Action::PasteClipboardBefore),
            (Modifiers::Shift, Key::Char('R')) => Some(Action::ReplaceClipboard),
            (Modifiers::Plain, Key::Char('p')) => Some(Action::PasteClipboardAfter),
            (Modifiers::Plain, Key::Char('y')) => Some(Action::YankToClipboard),
            _ => None,
        }
    }

    /// The action bound to a key in Color mode.
    pub fn color_mode_keymap(key_code: Key, key_modifiers: Modifiers) -> (action: Option<Action>)
        ensures
            action == color_keymap(key_code, key_modifiers),
    {
        match (key_modifiers, key_code) {
            (Modifiers::Control, Key::Char('a')) => Some(Action::IncColorMultiplier),
            (Modifiers::Control, Key::Char('x')) => Some(Action::DecColorMultiplier),
            (Modifiers::Plain, Key::Char('r')) => Some(Action::ColorAddRed),
            (Modifiers::Shift, Key::Char('R')) => Some(Action::ColorRemoveRed),
            (Modifiers::Plain, Key::Char('g')) => Some(Action::ColorAddGreen),
            (Modifiers::Shift, Key::Char('G')) => Some(Action::ColorRemoveGreen),
            (Modifiers::Plain, Key::Char('b')) => Some(Action::ColorAddBlue),
            (Modifiers::Shift, Key::Char('B')) => Some(Action::ColorRemoveBlue),
            (Modifiers::Plain, Key::Esc) => Some(Action::NormalMode),
            _ => None,
        }
    }
}

} // verus!
