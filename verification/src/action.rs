//! The discrete actions that keystrokes decode to.

use vstd::prelude::*;

verus! {

/// What a keystroke asks the editor to do.
#[derive(Clone, Copy, Debug, PartialEq, Eq, Structural)]
pub enum Action {
    AppendMode,
    ColorMode,
    Delete,
    InsertAtEnd,
    InsertAtStart,
    InsertMode,
    MoveDown,
    MoveLeft,
    MoveRight,
    MoveUp,
    NormalMode,
    InsertConfirm,
    InsertAppendChar(char),
    InsertDeleteChar,
    InsertClear,
    PasteAfter,
    PasteBefore,
    PasteClipboardAfter,
    PasteClipboardBefore,
    ReplaceClipboard,
    Quit,
    Replace,
    SpaceLeaderMode,
    Yank,
    YankToClipboard,
    ColorAddRed,
    ColorAddGreen,
    ColorAddBlue,
    ColorRemoveRed,
    ColorRemoveGreen,
    ColorRemoveBlue,
    IncColorMultiplier,
    DecColorMultiplier,
}

/// Work on the system clipboard that an action leaves to the caller, who
/// alone can reach the clipboard. The caller completes it with the method
/// of the editor that carries the same name.
#[derive(Clone, Copy, Debug, PartialEq, Eq, Structural)]
pub enum ClipboardRequest {
    /// Write the text given by `yank_to_clipboard`.
    Yank,
    /// Read the clipboard and hand the text to `paste_clipboard_before`.
    PasteBefore,
    /// Read the clipboard and hand the text to `paste_clipboard_after`.
    PasteAfter,
    /// Read the clipboard and hand the text to `replace_clipboard`.
    Replace,
}

} // verus!
