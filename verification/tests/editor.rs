use swatches::action::{Action, ClipboardRequest};
use swatches::app::{try_color_from_clipboard, App, LeaderMode, Mode};
use swatches::color::{Channel, Color};
use swatches::error::Error;
use swatches::key::{Key, Modifiers};

fn press(app: &mut App, c: char) -> Option<ClipboardRequest> {
    app.handle_events(Key::Char(c), Modifiers::Plain)
}

fn shift(app: &mut App, c: char) -> Option<ClipboardRequest> {
    app.handle_events(Key::Char(c), Modifiers::Shift)
}

fn ctrl(app: &mut App, c: char) -> Option<ClipboardRequest> {
    app.handle_events(Key::Char(c), Modifiers::Control)
}

fn named(app: &mut App, key: Key) -> Option<ClipboardRequest> {
    app.handle_events(key, Modifiers::Plain)
}

fn buffer(app: &App) -> Option<String> {
    match app.mode() {
        Mode::Insert(contents) => Some(contents.clone()),
        _ => None,
    }
}

fn colors(app: &App) -> Vec<String> {
    (0..app.len()).map(|i| app.color_at(i).unwrap().hex()).collect()
}

fn type_color(app: &mut App, text: &str) {
    ctrl(app, 'w');
    for c in text.chars() {
        press(app, c);
    }
    named(app, Key::Enter);
}

#[test]
fn typing_a_color_in_insert_mode_stores_it() {
    let mut app = App::new();
    assert_eq!(app.len(), 1);
    assert_eq!(app.cursor(), 0);
    assert_eq!(app.color_at(0).unwrap().hex(), "000000");
    press(&mut app, 'i');
    assert_eq!(buffer(&app), Some("000000".to_string()));
    // the buffer is full: six more digits do not fit until it is emptied
    ctrl(&mut app, 'w');
    for c in ['f', 'f', '0', '0', '0', '0'] {
        press(&mut app, c);
    }
    assert_eq!(buffer(&app), Some("ff0000".to_string()));
    named(&mut app, Key::Enter);
    assert_eq!(app.color_at(0).unwrap().hex(), "ff0000");
    assert!(matches!(app.mode(), Mode::Normal));
    assert_eq!(app.len(), 1);
}

#[test]
fn typing_into_a_full_buffer_is_dropped() {
    let mut app = App::new();
    app.set_color_at(Color::new(1, 2, 3), 0).unwrap();
    press(&mut app, 'i');
    // the buffer opens with the six digits of the cell, so it is full
    for c in ['f', 'f', '0', '0', '0', '0'] {
        press(&mut app, c);
        assert_eq!(buffer(&app), Some("010203".to_string()));
    }
    named(&mut app, Key::Enter);
    assert_eq!(app.color_at(0).unwrap().hex(), "010203");
    assert!(matches!(app.mode(), Mode::Normal));
}

#[test]
fn typing_over_the_old_text_with_backspace_stores_the_new_color() {
    let mut app = App::new();
    press(&mut app, 'i');
    for _ in 0..6 {
        named(&mut app, Key::Backspace);
    }
    assert_eq!(buffer(&app), Some(String::new()));
    for c in ['f', 'f', '0', '0', '0', '0'] {
        press(&mut app, c);
    }
    named(&mut app, Key::Enter);
    assert_eq!(app.color_at(0).unwrap().hex(), "ff0000");
    assert!(matches!(app.mode(), Mode::Normal));
}

#[test]
fn delete_on_the_last_cell_changes_nothing() {
    let mut app = App::new();
    press(&mut app, 'd');
    assert_eq!(app.len(), 1);
    assert_eq!(app.cursor(), 0);
    assert_eq!(app.register(), None);
    assert_eq!(app.color_at(0), Ok(Color::default()));
}

#[test]
fn delete_on_the_last_cell_keeps_a_yanked_color() {
    let mut app = App::new();
    app.set_color_at(Color::new(1, 2, 3), 0).unwrap();
    press(&mut app, 'y');
    press(&mut app, 'd');
    assert_eq!(app.len(), 1);
    assert_eq!(app.register(), Some(Color::new(1, 2, 3)));
}

#[test]
fn yank_then_paste_after_copies_the_cell() {
    let mut app = App::new();
    app.set_color_at(Color::new(1, 2, 3), 0).unwrap();
    press(&mut app, 'y');
    assert_eq!(app.register(), Some(Color::new(1, 2, 3)));
    press(&mut app, 'p');
    assert_eq!(app.len(), 2);
    assert_eq!(app.color_at(1), app.color_at(0));
    assert_eq!(app.color_at(1), Ok(Color::new(1, 2, 3)));
    assert_eq!(app.cursor(), 0);
}

#[test]
fn multiplier_stops_at_the_top_of_its_ladder() {
    let mut app = App::new();
    press(&mut app, 'c');
    assert!(matches!(app.mode(), Mode::Color));
    for _ in 0..4 {
        ctrl(&mut app, 'a');
        assert!(app.multiplier() <= 64);
    }
    assert_eq!(app.multiplier(), 64);
}

#[test]
fn multiplier_climbs_from_the_bottom_in_steps_of_four() {
    let mut app = App::new();
    press(&mut app, 'c');
    let mut seen = Vec::new();
    for _ in 0..5 {
        ctrl(&mut app, 'x');
        seen.push(app.multiplier());
    }
    assert_eq!(seen, vec![16, 4, 1, 1, 1]);
    seen.clear();
    for _ in 0..4 {
        ctrl(&mut app, 'a');
        seen.push(app.multiplier());
    }
    assert_eq!(seen, vec![4, 16, 64, 64]);
}

#[test]
fn leader_then_an_unrelated_key_does_nothing() {
    let mut app = App::new();
    app.set_color_at(Color::new(1, 2, 3), 0).unwrap();
    press(&mut app, 'y');
    let before = colors(&app);
    assert_eq!(press(&mut app, ' '), None);
    assert_eq!(*app.get_leader_mode(), Some(LeaderMode::Space));
    // `d` deletes in Normal mode, but means nothing after the leader
    assert_eq!(press(&mut app, 'd'), None);
    assert!(app.get_leader_mode().is_none());
    assert_eq!(colors(&app), before);
    assert_eq!(app.cursor(), 0);
    assert_eq!(app.register(), Some(Color::new(1, 2, 3)));
    assert!(matches!(app.mode(), Mode::Normal));
    assert!(app.running());
}

#[test]
fn leader_lasts_one_keystroke() {
    let mut app = App::new();
    press(&mut app, ' ');
    // a second space is read in the leader's keymap, where it is unbound
    press(&mut app, ' ');
    assert!(app.get_leader_mode().is_none());
    press(&mut app, ' ');
    assert!(app.get_leader_mode().is_some());
    assert_eq!(press(&mut app, 'p'), Some(ClipboardRequest::PasteAfter));
    assert!(app.get_leader_mode().is_none());
    // without the leader `p` pastes from the register, which is empty
    assert_eq!(press(&mut app, 'p'), None);
    assert_eq!(app.len(), 1);
}

#[test]
fn leader_keys_ask_for_the_clipboard() {
    let mut app = App::new();
    press(&mut app, ' ');
    assert_eq!(press(&mut app, 'y'), Some(ClipboardRequest::Yank));
    press(&mut app, ' ');
    assert_eq!(shift(&mut app, 'P'), Some(ClipboardRequest::PasteBefore));
    press(&mut app, ' ');
    assert_eq!(shift(&mut app, 'R'), Some(ClipboardRequest::Replace));
    press(&mut app, ' ');
    assert_eq!(press(&mut app, 'p'), Some(ClipboardRequest::PasteAfter));
    assert_eq!(app.len(), 1);
    assert_eq!(app.color_at(0), Ok(Color::default()));
}

#[test]
fn leader_is_not_set_outside_normal_mode() {
    let mut app = App::new();
    press(&mut app, 'i');
    press(&mut app, ' ');
    assert!(app.get_leader_mode().is_none());
    named(&mut app, Key::Esc);
    press(&mut app, 'c');
    press(&mut app, ' ');
    assert!(app.get_leader_mode().is_none());
}

#[test]
fn clipboard_color_is_read_from_six_hex_digits() {
    assert_eq!(try_color_from_clipboard(Some("00ff7f")), Ok(Color::new(0, 255, 127)));
    assert_eq!(try_color_from_clipboard(Some("#00ff7f")), Err(Error::InvalidFormat));
    assert_eq!(try_color_from_clipboard(Some("(0, 255, 127)")), Err(Error::InvalidFormat));
    assert_eq!(try_color_from_clipboard(Some("")), Err(Error::InvalidFormat));
    assert_eq!(try_color_from_clipboard(None), Err(Error::ClipboardUnavailable));
}

#[test]
fn clipboard_paste_puts_the_color_beside_the_cursor() {
    let mut app = App::new();
    app.paste_clipboard_after(Some("112233"));
    app.paste_clipboard_before(Some("aabbcc"));
    assert_eq!(colors(&app), vec!["aabbcc", "000000", "112233"]);
    assert_eq!(app.cursor(), 0);
    app.replace_clipboard(Some("010203"));
    assert_eq!(colors(&app), vec!["010203", "000000", "112233"]);
}

#[test]
fn clipboard_without_a_color_changes_nothing() {
    let mut app = App::new();
    app.paste_clipboard_after(Some("hello!"));
    app.paste_clipboard_before(Some("#112233"));
    app.replace_clipboard(Some("FFFFFF"));
    app.paste_clipboard_after(None);
    app.paste_clipboard_before(None);
    app.replace_clipboard(None);
    assert_eq!(colors(&app), vec!["000000"]);
    assert_eq!(app.register(), None);
}

#[test]
fn clipboard_paste_into_a_full_grid_changes_nothing() {
    let mut app = App::new();
    for _ in 0..63 {
        app.paste_clipboard_after(Some("112233"));
    }
    assert_eq!(app.len(), 64);
    app.paste_clipboard_after(Some("445566"));
    app.paste_clipboard_before(Some("445566"));
    assert_eq!(app.len(), 64);
    assert!(colors(&app).iter().all(|c| c != "445566"));
}

#[test]
fn yank_to_clipboard_gives_the_hex_under_the_cursor() {
    let mut app = App::new();
    app.paste_clipboard_after(Some("12ab9f"));
    named(&mut app, Key::Right);
    assert_eq!(app.yank_to_clipboard(), "12ab9f");
    named(&mut app, Key::Left);
    assert_eq!(app.yank_to_clipboard(), "000000");
}

#[test]
fn insert_buffer_holds_six_characters_at_most() {
    let mut app = App::new();
    press(&mut app, 'i');
    press(&mut app, 'a');
    assert_eq!(buffer(&app), Some("000000".to_string()));
    ctrl(&mut app, 'w');
    assert_eq!(buffer(&app), Some(String::new()));
    for c in "0123456789abcdef".chars() {
        press(&mut app, c);
    }
    assert_eq!(buffer(&app), Some("012345".to_string()));
    named(&mut app, Key::Backspace);
    assert_eq!(buffer(&app), Some("01234".to_string()));
    press(&mut app, 'f');
    assert_eq!(buffer(&app), Some("01234f".to_string()));
}

#[test]
fn insert_buffer_counts_characters_not_bytes() {
    let mut app = App::new();
    app.insert_mode();
    app.insert_clear_chars();
    for _ in 0..8 {
        app.insert_append_char('\u{20ac}');
    }
    assert_eq!(buffer(&app).unwrap().chars().count(), 6);
    app.insert_confirm();
    assert_eq!(app.color_at(0), Ok(Color::default()));
    assert!(matches!(app.mode(), Mode::Normal));
}

#[test]
fn insert_mode_takes_hex_digits_only() {
    let mut app = App::new();
    press(&mut app, 'i');
    ctrl(&mut app, 'w');
    for c in ['g', 'A', 'F', '#', ' ', 'z', '-'] {
        press(&mut app, c);
    }
    shift(&mut app, 'a');
    ctrl(&mut app, 'a');
    app.handle_events(Key::Char('a'), Modifiers::Other);
    assert_eq!(buffer(&app), Some(String::new()));
    press(&mut app, 'a');
    press(&mut app, '9');
    assert_eq!(buffer(&app), Some("a9".to_string()));
}

#[test]
fn backspace_on_an_empty_buffer_does_nothing() {
    let mut app = App::new();
    press(&mut app, 'i');
    ctrl(&mut app, 'w');
    named(&mut app, Key::Backspace);
    assert_eq!(buffer(&app), Some(String::new()));
    assert!(matches!(app.mode(), Mode::Insert(_)));
}

#[test]
fn confirming_an_unfinished_color_drops_it() {
    let mut app = App::new();
    app.set_color_at(Color::new(1, 2, 3), 0).unwrap();
    press(&mut app, 'i');
    named(&mut app, Key::Backspace);
    named(&mut app, Key::Enter);
    assert!(matches!(app.mode(), Mode::Normal));
    assert_eq!(app.color_at(0), Ok(Color::new(1, 2, 3)));
}

#[test]
fn escape_leaves_insert_mode_without_storing() {
    let mut app = App::new();
    press(&mut app, 'i');
    ctrl(&mut app, 'w');
    for c in "abcdef".chars() {
        press(&mut app, c);
    }
    named(&mut app, Key::Esc);
    assert!(matches!(app.mode(), Mode::Normal));
    assert_eq!(app.color_at(0), Ok(Color::default()));
    // the dropped text is not seen again
    press(&mut app, 'i');
    assert_eq!(buffer(&app), Some("000000".to_string()));
}

#[test]
fn append_opens_a_new_cell_right_of_the_cursor() {
    let mut app = App::new();
    app.set_color_at(Color::new(1, 2, 3), 0).unwrap();
    press(&mut app, 'a');
    assert_eq!(app.len(), 2);
    assert_eq!(app.cursor(), 1);
    assert_eq!(buffer(&app), Some("000000".to_string()));
    type_color(&mut app, "0000ff");
    assert_eq!(colors(&app), vec!["010203", "0000ff"]);
    named(&mut app, Key::Left);
    press(&mut app, 'a');
    type_color(&mut app, "00ff00");
    assert_eq!(colors(&app), vec!["010203", "00ff00", "0000ff"]);
    assert_eq!(app.cursor(), 1);
}

#[test]
fn insert_at_end_and_start_open_a_cell_there() {
    let mut app = App::new();
    app.set_color_at(Color::new(1, 2, 3), 0).unwrap();
    shift(&mut app, 'A');
    assert_eq!(app.cursor(), 1);
    assert!(matches!(app.mode(), Mode::Insert(_)));
    type_color(&mut app, "aaaaaa");
    shift(&mut app, 'I');
    assert_eq!(app.cursor(), 0);
    assert_eq!(buffer(&app), Some("000000".to_string()));
    type_color(&mut app, "bbbbbb");
    assert_eq!(colors(&app), vec!["bbbbbb", "010203", "aaaaaa"]);
}

#[test]
fn opening_a_cell_in_a_full_grid_does_nothing() {
    let mut app = App::new();
    for _ in 0..63 {
        app.insert_color_at(Color::new(5, 5, 5), 0).unwrap();
    }
    app.move_cursor(10, 0);
    press(&mut app, 'a');
    assert!(matches!(app.mode(), Mode::Normal));
    shift(&mut app, 'A');
    assert!(matches!(app.mode(), Mode::Normal));
    shift(&mut app, 'I');
    assert!(matches!(app.mode(), Mode::Normal));
    assert_eq!(app.len(), 64);
    assert_eq!(app.cursor(), 10);
}

#[test]
fn delete_moves_the_cell_into_the_register() {
    let mut app = App::new();
    app.paste_clipboard_after(Some("111111"));
    app.paste_clipboard_after(Some("222222"));
    assert_eq!(colors(&app), vec!["000000", "222222", "111111"]);
    named(&mut app, Key::Right);
    press(&mut app, 'd');
    assert_eq!(colors(&app), vec!["000000", "111111"]);
    assert_eq!(app.register(), Some(Color::new(0x22, 0x22, 0x22)));
    assert_eq!(app.cursor(), 1);
    press(&mut app, 'd');
    assert_eq!(colors(&app), vec!["000000"]);
    assert_eq!(app.register(), Some(Color::new(0x11, 0x11, 0x11)));
    assert_eq!(app.cursor(), 0);
}

#[test]
fn paste_before_and_replace_use_the_register() {
    let mut app = App::new();
    shift(&mut app, 'P');
    shift(&mut app, 'R');
    assert_eq!(colors(&app), vec!["000000"]);
    app.paste_clipboard_after(Some("abcdef"));
    named(&mut app, Key::Right);
    press(&mut app, 'y');
    named(&mut app, Key::Left);
    shift(&mut app, 'P');
    assert_eq!(colors(&app), vec!["abcdef", "000000", "abcdef"]);
    assert_eq!(app.cursor(), 0);
    press(&mut app, 'l');
    shift(&mut app, 'R');
    assert_eq!(colors(&app), vec!["abcdef", "abcdef", "abcdef"]);
}

#[test]
fn paste_into_a_full_grid_is_ignored() {
    let mut app = App::new();
    press(&mut app, 'y');
    for _ in 0..70 {
        press(&mut app, 'p');
    }
    assert_eq!(app.len(), 64);
    shift(&mut app, 'P');
    assert_eq!(app.len(), 64);
}

#[test]
fn movement_keys_move_on_the_flat_sequence() {
    let mut app = App::new();
    press(&mut app, 'y');
    for _ in 0..19 {
        press(&mut app, 'p');
    }
    assert_eq!(app.len(), 20);
    press(&mut app, 'l');
    named(&mut app, Key::Right);
    assert_eq!(app.cursor(), 2);
    press(&mut app, 'j');
    assert_eq!(app.cursor(), 10);
    named(&mut app, Key::Down);
    assert_eq!(app.cursor(), 18);
    named(&mut app, Key::Down);
    assert_eq!(app.cursor(), 19);
    press(&mut app, 'k');
    assert_eq!(app.cursor(), 11);
    named(&mut app, Key::Up);
    assert_eq!(app.cursor(), 3);
    press(&mut app, 'h');
    named(&mut app, Key::Left);
    assert_eq!(app.cursor(), 1);
    named(&mut app, Key::Up);
    assert_eq!(app.cursor(), 0);
    press(&mut app, 'h');
    assert_eq!(app.cursor(), 0);
}

#[test]
fn color_mode_moves_a_channel_by_the_multiplier() {
    let mut app = App::new();
    press(&mut app, 'c');
    press(&mut app, 'r');
    assert_eq!(app.color_at(0), Ok(Color::new(64, 0, 0)));
    ctrl(&mut app, 'x');
    press(&mut app, 'g');
    assert_eq!(app.color_at(0), Ok(Color::new(64, 16, 0)));
    ctrl(&mut app, 'x');
    press(&mut app, 'b');
    shift(&mut app, 'R');
    assert_eq!(app.color_at(0), Ok(Color::new(60, 16, 4)));
    ctrl(&mut app, 'x');
    shift(&mut app, 'G');
    shift(&mut app, 'B');
    assert_eq!(app.color_at(0), Ok(Color::new(60, 15, 3)));
    ctrl(&mut app, 'a');
    ctrl(&mut app, 'a');
    ctrl(&mut app, 'a');
    for _ in 0..5 {
        press(&mut app, 'r');
    }
    shift(&mut app, 'G');
    assert_eq!(app.color_at(0), Ok(Color::new(255, 0, 3)));
    assert!(matches!(app.mode(), Mode::Color));
    named(&mut app, Key::Esc);
    assert!(matches!(app.mode(), Mode::Normal));
}

#[test]
fn operate_on_color_works_on_the_cell_under_the_cursor() {
    let mut app = App::new();
    app.paste_clipboard_after(Some("808080"));
    app.move_cursor(1, 0);
    app.dec_color_multiplier();
    app.operate_on_color(Channel::Green, true);
    app.operate_on_color(Channel::Blue, false);
    assert_eq!(app.color_at(1), Ok(Color::new(0x80, 0x90, 0x70)));
    assert_eq!(app.color_at(0), Ok(Color::default()));
}

#[test]
fn control_c_quits_from_normal_mode() {
    let mut app = App::new();
    assert!(app.running());
    ctrl(&mut app, 'c');
    assert!(!app.running());
}

#[test]
fn unbound_keys_change_nothing() {
    let mut app = App::new();
    for key in [Key::Other, Key::Enter, Key::Esc, Key::Backspace, Key::Char('z'), Key::Char('D')] {
        for modifiers in [Modifiers::Plain, Modifiers::Shift, Modifiers::Control, Modifiers::Other] {
            assert_eq!(app.decode(key, modifiers), None);
            assert_eq!(app.handle_events(key, modifiers), None);
        }
    }
    app.handle_events(Key::Char('d'), Modifiers::Other);
    app.handle_events(Key::Char('i'), Modifiers::Shift);
    app.handle_events(Key::Char('A'), Modifiers::Plain);
    assert_eq!(app.len(), 1);
    assert!(matches!(app.mode(), Mode::Normal));
    assert!(app.running());
    assert!(app.get_leader_mode().is_none());
}

#[test]
fn decode_reads_the_keymap_of_the_mode() {
    let mut app = App::new();
    assert_eq!(app.decode(Key::Char('i'), Modifiers::Plain), Some(Action::InsertMode));
    assert_eq!(app.decode(Key::Char('R'), Modifiers::Shift), Some(Action::Replace));
    assert_eq!(app.decode(Key::Esc, Modifiers::Plain), None);
    app.space_leader_mode();
    assert_eq!(app.decode(Key::Char('R'), Modifiers::Shift), Some(Action::ReplaceClipboard));
    assert_eq!(app.decode(Key::Char('i'), Modifiers::Plain), None);
    app.clear_leader_mode();
    app.insert_mode();
    assert_eq!(app.decode(Key::Char('c'), Modifiers::Plain), Some(Action::InsertAppendChar('c')));
    assert_eq!(app.decode(Key::Char('i'), Modifiers::Plain), None);
    assert_eq!(app.decode(Key::Esc, Modifiers::Plain), Some(Action::NormalMode));
    app.color_leader_mode();
    assert_eq!(app.decode(Key::Char('R'), Modifiers::Shift), Some(Action::ColorRemoveRed));
    assert_eq!(app.decode(Key::Char('a'), Modifiers::Control), Some(Action::IncColorMultiplier));
    // decoding changes nothing
    assert!(matches!(app.mode(), Mode::Color));
    assert_eq!(app.len(), 1);
}

#[test]
fn handle_action_carries_out_what_the_decoder_names() {
    let mut app = App::new();
    assert_eq!(app.handle_action(Action::InsertAtEnd), None);
    assert_eq!(app.handle_action(Action::InsertClear), None);
    for c in "c0ffee".chars() {
        assert_eq!(app.handle_action(Action::InsertAppendChar(c)), None);
    }
    assert_eq!(app.handle_action(Action::InsertConfirm), None);
    assert_eq!(app.handle_action(Action::MoveLeft), None);
    assert_eq!(app.handle_action(Action::Delete), None);
    assert_eq!(colors(&app), vec!["c0ffee"]);
    assert_eq!(app.register(), Some(Color::default()));
    assert_eq!(app.handle_action(Action::YankToClipboard), Some(ClipboardRequest::Yank));
    assert_eq!(
        app.handle_action(Action::PasteClipboardBefore),
        Some(ClipboardRequest::PasteBefore)
    );
    assert_eq!(app.handle_action(Action::Quit), None);
    assert!(!app.running());
    assert_eq!(colors(&app), vec!["c0ffee"]);
}

#[test]
fn swatch_shows_the_stored_color_and_its_hex() {
    let mut app = App::new();
    app.paste_clipboard_after(Some("12ab9f"));
    let first = app.swatch_at(0);
    assert_eq!(first.label, "000000");
    assert_eq!(first.fill, Some(Color::default()));
    assert!(first.on_cursor);
    let second = app.swatch_at(1);
    assert_eq!(second.label, "12ab9f");
    assert_eq!(second.fill, Some(Color::new(0x12, 0xab, 0x9f)));
    assert!(!second.on_cursor);
    let beyond = app.swatch_at(2);
    assert_eq!(beyond.label, "");
    assert_eq!(beyond.fill, None);
    assert!(!beyond.on_cursor);
}

#[test]
fn swatch_under_the_cursor_shows_the_text_being_typed() {
    let mut app = App::new();
    app.paste_clipboard_after(Some("12ab9f"));
    press(&mut app, 'i');
    assert_eq!(app.swatch_at(0).label, "000000\u{258f}");
    assert_eq!(app.swatch_at(0).fill, Some(Color::default()));
    named(&mut app, Key::Backspace);
    named(&mut app, Key::Backspace);
    press(&mut app, 'f');
    let typing = app.swatch_at(0);
    assert_eq!(typing.label, "0000f\u{258f}");
    assert_eq!(typing.fill, None);
    assert!(typing.on_cursor);
    press(&mut app, 'e');
    assert_eq!(app.swatch_at(0).label, "0000fe\u{258f}");
    assert_eq!(app.swatch_at(0).fill, Some(Color::new(0, 0, 0xfe)));
    // the cell itself is untouched until the text is confirmed
    assert_eq!(app.color_at(0), Ok(Color::default()));
    assert_eq!(app.swatch_at(1).label, "12ab9f");
}

#[test]
fn editor_is_well_formed_whatever_is_done() {
    let mut app = App::new();
    assert!(app.is_well_formed());
    for c in ['a', 'f', ' ', 'p', 'y', 'd', 'c', 'r', 'i', 'j', 'k'] {
        press(&mut app, c);
        shift(&mut app, c.to_ascii_uppercase());
        ctrl(&mut app, c);
        named(&mut app, Key::Esc);
        assert!(app.is_well_formed());
    }
}

#[test]
fn cursor_stays_on_a_cell_under_any_keys() {
    let mut app = App::new();
    let keys = [
        'a', 'f', 'f', '\n', 'y', 'p', 'p', 'l', 'l', 'd', 'd', 'd', 'j', 'P', 'A', '\n', 'k',
        'd', 'I', '\n', 'h', 'd', 'd', 'd', 'd', 'd', 'd', 'l', 'j', 'a', '\n', 'a', '\n',
    ];
    for round in 0..20 {
        for k in keys {
            if k == '\n' {
                named(&mut app, Key::Enter);
            } else if k.is_ascii_uppercase() {
                shift(&mut app, k);
            } else {
                press(&mut app, k);
            }
            assert!(app.cursor() < app.len(), "round {}", round);
            assert!(1 <= app.len() && app.len() <= 64);
        }
    }
}
