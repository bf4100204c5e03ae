//! What holds of the state machine as a whole, proved over the model.

use vstd::prelude::*;
use crate::action::Action;
use crate::color::{
    hex_of, is_hex_color, lemma_hex_of_parse, lemma_parse_of_hex, parse_hex, Channel, Color,
};
use crate::error::Error;
use crate::key::{Key, Modifiers};
use crate::model::{clipboard_color, clipboard_request, decode, LeaderMode, ModeView, State};

verus! {

/// The state after a run of actions, carried out from first to last.
pub open spec fn apply_all(state: State, actions: Seq<Action>) -> State
    decreases actions.len(),
{
    if actions.len() == 0 {
        state
    } else {
        apply_all(state, actions.drop_last()).apply(actions.last())
    }
}

/// The state after a run of keystrokes, taken from first to last.
pub open spec fn run(state: State, keys: Seq<(Key, Modifiers)>) -> State
    decreases keys.len(),
{
    if keys.len() == 0 {
        state
    } else {
        run(state, keys.drop_last()).step(keys.last().0, keys.last().1)
    }
}

/// The state after the characters of `text` are typed into the Insert
/// buffer, first to last.
pub open spec fn type_all(state: State, text: Seq<char>) -> State
    decreases text.len(),
{
    if text.len() == 0 {
        state
    } else {
        type_all(state, text.drop_last()).insert_append_char(text.last())
    }
}

/// A fresh editor is well formed.
pub proof fn lemma_initial_wf()
    ensures
        State::initial().wf(),
{
}

/// In a well-formed state the grid holds at least one cell and at most
/// `cols * rows`, and the cursor is on one of them.
pub proof fn lemma_wf_bounds(state: State)
    requires
        state.wf(),
    ensures
        1 <= state.grid.len() <= state.cols * state.rows,
        0 <= state.cursor < state.grid.len(),
{
}

/// The grid store keeps a well-formed state well formed: whatever the
/// index and the color, after a set, an insert or a delete the length is
/// within its bounds and the cursor is on a cell.
pub proof fn lemma_store_keeps_wf(state: State, color: Color, index: int)
    requires
        state.wf(),
        0 <= index,
    ensures
        state.set_color_at(color, index).wf(),
        state.insert_color_at(color, index).wf(),
        state.delete_color_at(index).wf(),
{
}

/// An insert either is turned down and changes nothing, or makes the grid
/// one cell longer with the new color at the index, the cells before it in
/// place and the cells from it on moved one place to the right.
pub proof fn lemma_insert_shifts_right(state: State, color: Color, index: int)
    requires
        state.wf(),
        0 <= index,
    ensures
        state.insert_outcome(index) is Err ==> state.insert_color_at(color, index) == state,
        state.insert_outcome(index) is Ok ==> {
            let after = state.insert_color_at(color, index);
            &&& after.grid.len() == state.grid.len() + 1
            &&& after.grid[index] == color
            &&& forall|i: int| 0 <= i < index ==> after.grid[i] == state.grid[i]
            &&& forall|i: int| index <= i < state.grid.len() ==> after.grid[i + 1] == state.grid[i]
        },
{
}

/// A delete either is turned down and changes nothing, or makes the grid
/// one cell shorter with the cells before the index in place and the cells
/// after it moved one place to the left.
pub proof fn lemma_delete_shifts_left(state: State, index: int)
    requires
        state.wf(),
        0 <= index,
    ensures
        state.delete_outcome(index) is Err ==> state.delete_color_at(index) == state,
        state.delete_outcome(index) is Ok ==> {
            let after = state.delete_color_at(index);
            &&& after.grid.len() == state.grid.len() - 1
            &&& forall|i: int| 0 <= i < index ==> after.grid[i] == state.grid[i]
            &&& forall|i: int| index < i < state.grid.len() ==> after.grid[i - 1] == state.grid[i]
        },
{
}

/// The last remaining cell cannot be deleted: at any index the delete is
/// turned down with `MinimumSize`, and the state stays as it is.
pub proof fn lemma_last_cell_stays(state: State, index: int)
    requires
        state.wf(),
        state.grid.len() == 1,
    ensures
        state.delete_outcome(index) == Err::<Color, Error>(Error::MinimumSize),
        state.delete_color_at(index) == state,
        state.delete() == state,
{
}

/// Whether `after` is well formed and has the dimensions of `before`.
pub open spec fn kept(before: State, after: State) -> bool {
    after.wf() && after.cols == before.cols && after.rows == before.rows
}

/// Moving the cursor, yanking and leaving the editor keep a well-formed
/// state well formed.
pub proof fn lemma_moves_keep_wf(state: State, x: int, y: int)
    requires
        state.wf(),
    ensures
        kept(state, state.move_cursor(x, y)),
        kept(state, state.yank()),
        kept(state, state.quit()),
        kept(state, state.space_leader_mode()),
        kept(state, state.clear_leader_mode()),
{
}

/// Deleting, pasting and replacing keep a well-formed state well formed.
pub proof fn lemma_edits_keep_wf(state: State)
    requires
        state.wf(),
    ensures
        kept(state, state.delete()),
        kept(state, state.paste_after()),
        kept(state, state.paste_before()),
        kept(state, state.replace()),
{
}

/// Entering Insert mode, with or without a new cell, keeps a well-formed
/// state well formed.
pub proof fn lemma_openings_keep_wf(state: State)
    requires
        state.wf(),
    ensures
        kept(state, state.insert_mode()),
        kept(state, state.append_mode()),
        kept(state, state.insert_at_end()),
        kept(state, state.insert_at_start()),
{
    assert forall|index: int| 0 <= index implies kept(state, #[trigger] state.open_new_cell(index)) by {
        if state.insert_outcome(index) is Ok {
            let grown = state.insert_color_at(Color { r: 0, g: 0, b: 0 }, index);
            assert(grown.grid.len() == state.grid.len() + 1);
        }
    }
}

/// Typing in Insert mode and leaving it keep a well-formed state well
/// formed.
pub proof fn lemma_typing_keeps_wf(state: State, c: char)
    requires
        state.wf(),
    ensures
        kept(state, state.insert_append_char(c)),
        kept(state, state.insert_delete_char()),
        kept(state, state.insert_clear_chars()),
        kept(state, state.insert_confirm()),
        kept(state, state.normal_mode()),
{
}

/// Color mode keeps a well-formed state well formed.
pub proof fn lemma_color_mode_keeps_wf(state: State, channel: Channel, increase: bool)
    requires
        state.wf(),
    ensures
        kept(state, state.color_leader_mode()),
        kept(state, state.inc_color_multiplier()),
        kept(state, state.dec_color_multiplier()),
        kept(state, state.operate_on_color(channel, increase)),
{
}

/// Every action keeps a well-formed state well formed, and leaves the
/// dimensions of the grid alone.
pub proof fn lemma_apply_keeps_wf(state: State, action: Action)
    requires
        state.wf(),
    ensures
        kept(state, state.apply(action)),
{
    match action {
        Action::MoveDown => lemma_moves_keep_wf(state, 0, 1),
        Action::MoveLeft => lemma_moves_keep_wf(state, -1, 0),
        Action::MoveRight => lemma_moves_keep_wf(state, 1, 0),
        Action::MoveUp => lemma_moves_keep_wf(state, 0, -1),
        Action::Yank | Action::Quit | Action::SpaceLeaderMode => lemma_moves_keep_wf(state, 0, 0),
        Action::Delete | Action::PasteAfter | Action::PasteBefore | Action::Replace => {
            lemma_edits_keep_wf(state)
        },
        Action::InsertMode | Action::AppendMode | Action::InsertAtEnd | Action::InsertAtStart => {
            lemma_openings_keep_wf(state)
        },
        Action::InsertAppendChar(c) => lemma_typing_keeps_wf(state, c),
        Action::InsertDeleteChar | Action::InsertClear | Action::InsertConfirm
        | Action::NormalMode => lemma_typing_keeps_wf(state, ' '),
        Action::ColorAddRed | Action::ColorRemoveRed => {
            lemma_color_mode_keeps_wf(state, Channel::Red, true);
            lemma_color_mode_keeps_wf(state, Channel::Red, false);
        },
        Action::ColorAddGreen | Action::ColorRemoveGreen => {
            lemma_color_mode_keeps_wf(state, Channel::Green, true);
            lemma_color_mode_keeps_wf(state, Channel::Green, false);
        },
        Action::ColorAddBlue | Action::ColorRemoveBlue | Action::ColorMode
        | Action::IncColorMultiplier | Action::DecColorMultiplier => {
            lemma_color_mode_keeps_wf(state, Channel::Blue, true);
            lemma_color_mode_keeps_wf(state, Channel::Blue, false);
        },
        Action::PasteClipboardAfter | Action::PasteClipboardBefore | Action::ReplaceClipboard
        | Action::YankToClipboard => {},
    }
}

/// Handing over clipboard contents, whatever they are, keeps a well-formed
/// state well formed.
pub proof fn lemma_clipboard_keeps_wf(state: State, contents: Option<Seq<char>>)
    requires
        state.wf(),
    ensures
        state.paste_clipboard_before(contents).wf(),
        state.paste_clipboard_after(contents).wf(),
        state.replace_clipboard(contents).wf(),
{
}

/// Clipboard contents that could not be read, or that are not a color's
/// text, change nothing.
pub proof fn lemma_bad_clipboard_is_ignored(state: State, contents: Option<Seq<char>>)
    requires
        clipboard_color(contents) is Err,
    ensures
        state.paste_clipboard_before(contents) == state,
        state.paste_clipboard_after(contents) == state,
        state.replace_clipboard(contents) == state,
{
}

/// Every keystroke keeps a well-formed state well formed.
pub proof fn lemma_step_keeps_wf(state: State, key: Key, modifiers: Modifiers)
    requires
        state.wf(),
    ensures
        kept(state, state.step(key, modifiers)),
{
    let cleared = state.clear_leader_mode();
    assert(kept(state, cleared));
    match decode(state.mode, state.leader, key, modifiers) {
        Some(action) => lemma_apply_keeps_wf(cleared, action),
        None => {},
    }
}

/// After any run of actions from a well-formed state, the length of the
/// grid is within `1..=cols * rows` and the cursor is on a cell.
pub proof fn lemma_apply_all_keeps_wf(state: State, actions: Seq<Action>)
    requires
        state.wf(),
    ensures
        kept(state, apply_all(state, actions)),
        1 <= apply_all(state, actions).grid.len() <= state.cols * state.rows,
        0 <= apply_all(state, actions).cursor < apply_all(state, actions).grid.len(),
    decreases actions.len(),
{
    if actions.len() > 0 {
        lemma_apply_all_keeps_wf(state, actions.drop_last());
        lemma_apply_keeps_wf(apply_all(state, actions.drop_last()), actions.last());
    }
}

/// After any run of keystrokes from a well-formed state, the length of the
/// grid is within `1..=cols * rows` and the cursor is on a cell.
pub proof fn lemma_run_keeps_wf(state: State, keys: Seq<(Key, Modifiers)>)
    requires
        state.wf(),
    ensures
        kept(state, run(state, keys)),
        1 <= run(state, keys).grid.len() <= state.cols * state.rows,
        0 <= run(state, keys).cursor < run(state, keys).grid.len(),
    decreases keys.len(),
{
    if keys.len() > 0 {
        lemma_run_keeps_wf(state, keys.drop_last());
        lemma_step_keeps_wf(run(state, keys.drop_last()), keys.last().0, keys.last().1);
    }
}

/// A leader is one keystroke deep. The keystroke after it never leaves a
/// leader pending; and unless it is one of the leader's own keys, it
/// changes nothing else.
pub proof fn lemma_leader_is_consumed(state: State, key: Key, modifiers: Modifiers)
    requires
        state.leader is Some,
    ensures
        state.step(key, modifiers).leader is None,
        state.step(key, modifiers) == state.clear_leader_mode(),
        !(state.step_request(key, modifiers) is Some) ==> decode(
            state.mode,
            state.leader,
            key,
            modifiers,
        ) is None,
{
}

/// A leader is pending after a keystroke only if that keystroke was the
/// leader key itself, pressed in Normal mode with no leader pending.
pub proof fn lemma_leader_only_from_normal(state: State, key: Key, modifiers: Modifiers)
    requires
        state.step(key, modifiers).leader is Some,
    ensures
        state.leader is None,
        state.mode == ModeView::Normal,
        key == Key::Char(' '),
        modifiers == Modifiers::Plain,
        state.step(key, modifiers) == state.space_leader_mode(),
        state.step(key, modifiers).leader == Some(LeaderMode::Space),
{
}

/// A keystroke that no keymap binds changes nothing but the leader, which
/// it clears, and asks nothing of the clipboard.
pub proof fn lemma_unbound_key_is_ignored(state: State, key: Key, modifiers: Modifiers)
    requires
        decode(state.mode, state.leader, key, modifiers) is None,
    ensures
        state.step(key, modifiers) == state.clear_leader_mode(),
        state.step_request(key, modifiers) is None,
{
}

/// The multiplier climbs its ladder a rung at a time and stops at the top:
/// from any rung, four steps up reach 64, and a fifth stays there.
pub proof fn lemma_multiplier_caps(state: State)
    requires
        state.wf(),
    ensures
        state.inc_color_multiplier().multiplier <= 64,
        state.inc_color_multiplier().inc_color_multiplier().inc_color_multiplier()
            .inc_color_multiplier().multiplier == 64,
        state.multiplier == 64 ==> state.inc_color_multiplier() == state,
        state.multiplier == 1 ==> state.dec_color_multiplier() == state,
        state.multiplier < 64 ==> state.inc_color_multiplier().multiplier == 4 * state.multiplier,
        state.multiplier > 1 ==> 4 * state.dec_color_multiplier().multiplier == state.multiplier,
{
}

/// Movement is on the flat sequence of cells: a row down is `cols` cells
/// to the right, and a move within the grid lands exactly where it points.
pub proof fn lemma_move_is_linear(state: State, x: int, y: int)
    requires
        state.wf(),
    ensures
        state.move_cursor(x, y) == state.move_cursor(x + y * state.cols, 0),
        0 <= state.cursor + x + y * state.cols < state.grid.len() ==> state.move_cursor(
            x,
            y,
        ).cursor == state.cursor + x + y * state.cols,
        state.cursor + x + y * state.cols < 0 ==> state.move_cursor(x, y).cursor == 0,
        state.cursor + x + y * state.cols >= state.grid.len() ==> state.move_cursor(x, y).cursor
            == state.grid.len() - 1,
{
}

/// Only a clipboard action asks anything of the clipboard, and a clipboard
/// action changes nothing by itself.
pub proof fn lemma_clipboard_actions_wait(state: State, action: Action)
    requires
        clipboard_request(action) is Some,
    ensures
        state.apply(action) == state,
{
}

/// Typing into an empty Insert buffer fills it with what was typed, as
/// long as that is at most six characters, and touches nothing else.
pub proof fn lemma_typing_fills_the_buffer(state: State, text: Seq<char>)
    requires
        state.mode == ModeView::Insert(Seq::<char>::empty()),
        text.len() <= 6,
    ensures
        type_all(state, text) == (State { mode: ModeView::Insert(text), ..state }),
    decreases text.len(),
{
    if text.len() == 0 {
        assert(text =~= Seq::<char>::empty());
    } else {
        lemma_typing_fills_the_buffer(state, text.drop_last());
        assert(text.drop_last().push(text.last()) =~= text);
    }
}

/// Opening the cell under the cursor, emptying the buffer, typing a
/// color's six digits and confirming stores that color under the cursor,
/// returns to Normal mode and changes nothing else; the text of the
/// stored color is the text that was typed.
pub proof fn lemma_typed_color_is_stored(state: State, text: Seq<char>)
    requires
        state.wf(),
        is_hex_color(text),
    ensures
        type_all(state.insert_mode().insert_clear_chars(), text).insert_confirm() == (State {
            grid: state.grid.update(state.cursor as int, parse_hex(text)),
            mode: ModeView::Normal,
            ..state
        }),
        hex_of(parse_hex(text)) == text,
{
    lemma_typing_fills_the_buffer(state.insert_mode().insert_clear_chars(), text);
    lemma_hex_of_parse(text);
}

/// A color typed into a buffer that still holds a cell's six digits is
/// dropped: the buffer is full, and confirming stores what was there.
pub proof fn lemma_full_buffer_drops_typing(state: State, c: char)
    requires
        state.wf(),
    ensures
        state.insert_mode().insert_append_char(c) == state.insert_mode(),
        state.insert_mode().insert_confirm() == state.normal_mode(),
{
    lemma_parse_of_hex(state.current());
    assert(state.grid.update(state.cursor as int, state.current()) =~= state.grid);
}

/// Yank and then paste-after, with room left in the grid, puts a copy of
/// the cell under the cursor right after it: the grid is one cell longer,
/// the two cells are equal, and the cursor has not moved.
pub proof fn lemma_yank_paste_copies(state: State)
    requires
        state.wf(),
        state.grid.len() < state.capacity(),
    ensures
        ({
            let after = state.yank().paste_after();
            &&& after.grid.len() == state.grid.len() + 1
            &&& after.cursor == state.cursor
            &&& after.grid[after.cursor as int] == state.current()
            &&& after.grid[after.cursor as int + 1] == state.current()
            &&& after.register == Some(state.current())
        }),
{
}

/// In a full grid nothing can be inserted: paste, append and the two
/// inserts at the ends all leave the state as it is.
pub proof fn lemma_full_grid_takes_nothing(state: State)
    requires
        state.wf(),
        state.grid.len() == state.capacity(),
    ensures
        state.paste_after() == state,
        state.paste_before() == state,
        state.append_mode() == state,
        state.insert_at_end() == state,
        state.insert_at_start() == state,
{
}

} // verus!
