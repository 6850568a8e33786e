//! Input handling: the top-level input mode, the selector for the scratch
//! field being edited, and the cursor-addressed editing operations on the
//! scratch buffers.

use vstd::prelude::*;

use crate::enums::SelectedAddTorrentTab;
use crate::helpers::{scroll_down_rel, scroll_up_rel};
use crate::signals::Message;
use crate::{App, TableState};

verus! {

/// The keys the dispatcher distinguishes; every other key is `Other`.
#[derive(Clone, Copy, Debug)]
pub enum KeyCode {
    Char(char),
    Esc,
    Tab,
    Enter,
    Backspace,
    Left,
    Right,
    Up,
    Down,
    Other,
}

/// One key press as the dispatcher sees it: the key, and whether the
/// control modifier — and it alone — was held.
#[derive(Clone, Copy, Debug)]
pub struct KeyEvent {
    pub ctrl: bool,
    pub code: KeyCode,
}

/// What one key press turned into: at most one message to dispatch, and
/// possibly the request to hand the raw event on to the file picker, which
/// lives outside the state machine.
#[derive(Clone, Copy, Debug)]
pub struct KeyOutcome {
    pub message: Option<Message>,
    pub forward_to_explorer: bool,
}

/// Ensures that a cursor position is within the bounds of an input buffer:
/// the position itself when it fits, the buffer length otherwise.
pub fn clamp_cursor(new_cursor_pos: usize, input: &Vec<char>) -> (r: usize)
    ensures
        r == spec_clamp(new_cursor_pos as int, input@.len() as int),
        input@.len() <= usize::MAX,
{
    if new_cursor_pos < input.len() {
        new_cursor_pos
    } else {
        input.len()
    }
}

/// A cursor position clamped to a buffer length.
pub open spec fn spec_clamp(pos: int, len: int) -> int {
    if pos < len {
        pos
    } else {
        len
    }
}

/// The top-level input mode: plain table navigation, editing the
/// configuration, or adding a torrent.  Exactly one is active.
#[derive(Clone, Copy, Debug, PartialEq, Eq, Structural)]
pub enum InputMode {
    Normal,
    Config,
    AddTorrent,
}

impl InputMode {
    /// The mode after toggling the configuration editor.
    pub open spec fn spec_toggle_config(self) -> InputMode {
        match self {
            InputMode::Normal => InputMode::Config,
            InputMode::Config => InputMode::Normal,
            InputMode::AddTorrent => InputMode::AddTorrent,
        }
    }

    /// The mode after toggling the add-torrent popup.
    pub open spec fn spec_toggle_add_torrent(self) -> InputMode {
        match self {
            InputMode::Normal => InputMode::AddTorrent,
            InputMode::AddTorrent => InputMode::Normal,
            InputMode::Config => InputMode::Config,
        }
    }

    /// Switches between the normal mode and the configuration editor; the
    /// add-torrent mode is left as it is.
    pub fn toggle_config(&mut self)
        ensures
            *final(self) == old(self).spec_toggle_config(),
    {
        match self {
            InputMode::Normal => *self = InputMode::Config,
            InputMode::Config => *self = InputMode::Normal,
            _ => {},
        }
    }

    /// Switches between the normal mode and the add-torrent mode; the
    /// configuration editor is left as it is.
    pub fn toggle_add_torrent(&mut self)
        ensures
            *final(self) == old(self).spec_toggle_add_torrent(),
    {
        match self {
            InputMode::Normal => *self = InputMode::AddTorrent,
            InputMode::AddTorrent => *self = InputMode::Normal,
            _ => {},
        }
    }
}

/// The configuration field the editing cursor currently addresses.
#[derive(Clone, Copy, Debug, PartialEq, Eq, Structural)]
pub enum CurentInput {
    ApiUrl,
    Username,
    Password,
}

impl CurentInput {
    /// The number of configuration fields that can be edited.
    pub fn count() -> (n: usize)
        ensures
            n == 3,
    {
        3
    }

    /// The position of the field in the fixed top-to-bottom field order.
    pub fn to_index(self) -> (i: usize)
        ensures
            i == self.spec_index(),
    {
        match self {
            CurentInput::ApiUrl => 0,
            CurentInput::Username => 1,
            CurentInput::Password => 2,
        }
    }

    /// The field at a position of the field order; only the three positions
    /// exist.
    pub fn from_index(i: usize) -> (r: Self)
        requires
            i < 3,
        ensures
            r.spec_index() == i,
    {
        match i {
            0 => CurentInput::ApiUrl,
            1 => CurentInput::Username,
            _ => CurentInput::Password,
        }
    }

    /// The position of the field, at the specification level.
    pub open spec fn spec_index(self) -> int {
        match self {
            CurentInput::ApiUrl => 0,
            CurentInput::Username => 1,
            CurentInput::Password => 2,
        }
    }

    /// The field at a position of the field order, at the specification
    /// level.
    pub open spec fn spec_from_index(i: int) -> CurentInput {
        if i == 0 {
            CurentInput::ApiUrl
        } else if i == 1 {
            CurentInput::Username
        } else {
            CurentInput::Password
        }
    }

    /// Moves the selection by the given number of fields, wrapping around
    /// the field order in either direction.
    pub fn shift(&mut self, delta: isize)
        ensures
            final(self).spec_index() == (old(self).spec_index() + delta as int) % 3,
    {
        let count = CurentInput::count();
        let base = self.to_index();
        let new_index: usize = if delta >= 0 {
            let d = (delta as usize) % count;
            proof {
                vstd::arithmetic::div_mod::lemma_add_mod_noop_right(
                    base as int,
                    delta as int,
                    3,
                );
            }
            (base + d) % count
        } else {
            // The magnitude of `delta`, computed without overflowing at the
            // smallest representable value.
            let neg = (-(delta + 1)) as usize + 1;
            let d = neg % count;
            proof {
                vstd::arithmetic::div_mod::lemma_mod_add_multiples_vanish(
                    base as int - d as int,
                    3,
                );
                vstd::arithmetic::div_mod::lemma_sub_mod_noop_right(
                    base as int,
                    neg as int,
                    3,
                );
            }
            (base + count - d) % count
        };
        *self = Self::from_index(new_index);
    }
}

impl App {
    /// The characters of the field the cursor currently edits: the selected
    /// configuration field in the editor, the magnet link in the
    /// add-torrent popup, and nothing in the normal mode.
    pub open spec fn current_field_view(self) -> Seq<char> {
        match self.input_mode {
            InputMode::Config => match self.current_input {
                CurentInput::ApiUrl => self.input.api_url@,
                CurentInput::Username => self.input.username@,
                CurentInput::Password => self.input.password@,
            },
            InputMode::AddTorrent => self.magnet_link@,
            InputMode::Normal => Seq::empty(),
        }
    }

    /// A reference to the field the cursor currently edits; there is no such
    /// field in the normal mode.
    pub fn current_input(&self) -> (r: &Vec<char>)
        requires
            !(self.input_mode is Normal),
        ensures
            r@ == self.current_field_view(),
    {
        match self.input_mode {
            InputMode::Config => match self.current_input {
                CurentInput::ApiUrl => &self.input.api_url,
                CurentInput::Username => &self.input.username,
                CurentInput::Password => &self.input.password,
            },
            _ => &self.magnet_link,
        }
    }

    /// Resets the cursor to the end of the current input field; in the
    /// normal mode there is no field and nothing happens.
    pub fn reset_cursor(&mut self)
        ensures
            *final(self) == (App { charcter_index: final(self).charcter_index, ..*old(self) }),
            final(self).charcter_index as int == (if old(self).input_mode is Normal {
                old(self).charcter_index as int
            } else {
                old(self).current_field_view().len() as int
            }),
    {
        if !matches!(self.input_mode, InputMode::Normal) {
            let n = self.current_input().len();
            self.charcter_index = n;
        }
    }

    /// Moves the selection down: in the normal mode down the torrents
    /// table, in the configuration editor down to the next field with the
    /// cursor snapped to its end, and nowhere in the add-torrent popup.
    pub fn next_row(&mut self) -> (msg: Option<Message>)
        ensures
            ({
                let a = *old(self);
                let b = *final(self);
                match a.input_mode {
                    InputMode::Normal => scroll_down_rel(a, b, msg),
                    InputMode::Config => {
                        &&& b == (App {
                            current_input: CurentInput::spec_from_index(
                                (a.current_input.spec_index() + 1) % 3,
                            ),
                            charcter_index: b.charcter_index,
                            ..a
                        })
                        &&& b.charcter_index == b.current_field_view().len()
                        &&& msg is None
                    },
                    InputMode::AddTorrent => b == a && msg is None,
                }
            }),
    {
        match self.input_mode {
            InputMode::Normal => {
                return self.scroll_down();
            },
            InputMode::Config => {
                self.current_input.shift(1);
                let n = self.current_input().len();
                self.charcter_index = n;
            },
            _ => {},
        }
        None
    }

    /// Moves the selection up: in the normal mode up the torrents table, in
    /// the configuration editor up to the previous field with the cursor
    /// snapped to its end, and nowhere in the add-torrent popup.
    pub fn previous_row(&mut self) -> (msg: Option<Message>)
        ensures
            ({
                let a = *old(self);
                let b = *final(self);
                match a.input_mode {
                    InputMode::Normal => scroll_up_rel(a, b, msg),
                    InputMode::Config => {
                        &&& b == (App {
                            current_input: CurentInput::spec_from_index(
                                (a.current_input.spec_index() + (-1)) % 3,
                            ),
                            charcter_index: b.charcter_index,
                            ..a
                        })
                        &&& b.charcter_index == b.current_field_view().len()
                        &&& msg is None
                    },
                    InputMode::AddTorrent => b == a && msg is None,
                }
            }),
    {
        match self.input_mode {
            InputMode::Normal => {
                return self.scroll_up();
            },
            InputMode::Config => {
                self.current_input.shift(-1);
                let n = self.current_input().len();
                self.charcter_index = n;
            },
            _ => {},
        }
        None
    }

    /// Moves the selection right: in the normal mode it advances the info
    /// tab — clearing the sublist selection, since the sublist changes with
    /// the tab — and returns the message that fetches the new tab's
    /// content; in the editing modes it moves the cursor one character
    /// right, clamped to the end of the field.
    pub fn next_column(&mut self) -> (msg: Option<Message>)
        ensures
            ({
                let a = *old(self);
                let b = *final(self);
                match a.input_mode {
                    InputMode::Normal => {
                        &&& b == (App {
                            info_tab_state: (TableState { selected: None }),
                            info_tab: a.info_tab.spec_next(),
                            ..a
                        })
                        &&& msg == a.info_tab.spec_next().spec_update_message()
                    },
                    _ => {
                        &&& b == (App { charcter_index: b.charcter_index, ..a })
                        &&& b.charcter_index == spec_clamp(
                            a.charcter_index + 1,
                            a.current_field_view().len() as int,
                        )
                        &&& msg is None
                    },
                }
            }),
    {
        match self.input_mode {
            InputMode::Normal => {
                self.info_tab_state.select(None);
                return self.info_tab.next();
            },
            _ => {
                let cursor_moved_right = if self.charcter_index < usize::MAX {
                    self.charcter_index + 1
                } else {
                    usize::MAX
                };
                let n = clamp_cursor(cursor_moved_right, self.current_input());
                self.charcter_index = n;
            },
        }
        None
    }

    /// Moves the selection left: in the normal mode it retreats the info
    /// tab — clearing the sublist selection, since the sublist changes with
    /// the tab — and returns the message that fetches the new tab's
    /// content; in the editing modes it moves the cursor one character
    /// left, stopping at the start of the field.
    pub fn previous_column(&mut self) -> (msg: Option<Message>)
        ensures
            ({
                let a = *old(self);
                let b = *final(self);
                match a.input_mode {
                    InputMode::Normal => {
                        &&& b == (App {
                            info_tab_state: (TableState { selected: None }),
                            info_tab: a.info_tab.spec_previous(),
                            ..a
                        })
                        &&& msg == a.info_tab.spec_previous().spec_update_message()
                    },
                    _ => {
                        &&& b == (App { charcter_index: b.charcter_index, ..a })
                        &&& b.charcter_index == spec_clamp(
                            if a.charcter_index == 0 {
                                0
                            } else {
                                a.charcter_index - 1
                            },
                            a.current_field_view().len() as int,
                        )
                        &&& msg is None
                    },
                }
            }),
    {
        match self.input_mode {
            InputMode::Normal => {
                self.info_tab_state.select(None);
                return self.info_tab.previous();
            },
            _ => {
                let cursor_moved_left = if self.charcter_index > 0 {
                    self.charcter_index - 1
                } else {
                    0
                };
                let n = clamp_cursor(cursor_moved_left, self.current_input());
                self.charcter_index = n;
            },
        }
        None
    }
}

/// How inserting the character `c` relates the state `b` to the state `a`
/// it started from: in an editing mode the character enters the current
/// field at the cursor — clamped into the field — and the cursor advances
/// one place; in the normal mode there is no field and nothing changes.
pub open spec fn enter_char_rel(a: App, b: App, c: char) -> bool {
    if a.input_mode is Normal {
        b == a
    } else {
        let f = a.current_field_view();
        let idx = spec_clamp(a.charcter_index as int, f.len() as int);
        edited_field_rel(
            a,
            b,
            f.insert(idx, c),
            spec_clamp(a.charcter_index + 1, f.len() as int + 1),
        )
    }
}

/// How deleting before the cursor relates the state `b` to the state `a`
/// it started from: in an editing mode the character just before the cursor
/// leaves the current field and the cursor retreats one place; at the start
/// of the field, and in the normal mode, nothing changes.
pub open spec fn delete_char_rel(a: App, b: App) -> bool {
    if a.input_mode is Normal || a.charcter_index == 0 {
        b == a
    } else {
        let f = a.current_field_view();
        let cur = a.charcter_index as int;
        let shrunk = if cur <= f.len() {
            f.remove(cur - 1)
        } else {
            f
        };
        edited_field_rel(a, b, shrunk, spec_clamp(cur - 1, shrunk.len() as int))
    }
}

/// State `b` is state `a` with the characters of the current field replaced
/// by `f` and the cursor moved to `cursor`; every other part of the state,
/// including the other editable buffers, stays as it was.
pub open spec fn edited_field_rel(a: App, b: App, f: Seq<char>, cursor: int) -> bool {
    &&& b == (App {
        input: b.input,
        magnet_link: b.magnet_link,
        charcter_index: b.charcter_index,
        ..a
    })
    &&& b.charcter_index == cursor
    &&& match a.input_mode {
        InputMode::Config => {
            &&& b.magnet_link@ == a.magnet_link@
            &&& match a.current_input {
                CurentInput::ApiUrl => {
                    &&& b.input.api_url@ == f
                    &&& b.input.username@ == a.input.username@
                    &&& b.input.password@ == a.input.password@
                },
                CurentInput::Username => {
                    &&& b.input.api_url@ == a.input.api_url@
                    &&& b.input.username@ == f
                    &&& b.input.password@ == a.input.password@
                },
                CurentInput::Password => {
                    &&& b.input.api_url@ == a.input.api_url@
                    &&& b.input.username@ == a.input.username@
                    &&& b.input.password@ == f
                },
            }
        },
        InputMode::AddTorrent => {
            &&& b.magnet_link@ == f
            &&& b.input.api_url@ == a.input.api_url@
            &&& b.input.username@ == a.input.username@
            &&& b.input.password@ == a.input.password@
        },
        InputMode::Normal => false,
    }
}

impl App {
    /// Inserts a character at the cursor position of the current input
    /// field and advances the cursor past it.
    pub fn enter_char(&mut self, c: char)
        ensures
            enter_char_rel(*old(self), *final(self), c),
    {
        if matches!(self.input_mode, InputMode::Normal) {
            return;
        }
        let len = self.current_input().len();
        let idx = if self.charcter_index < len {
            self.charcter_index
        } else {
            len
        };
        match self.input_mode {
            InputMode::Config => match self.current_input {
                CurentInput::ApiUrl => self.input.api_url.insert(idx, c),
                CurentInput::Username => self.input.username.insert(idx, c),
                CurentInput::Password => self.input.password.insert(idx, c),
            },
            _ => self.magnet_link.insert(idx, c),
        }
        self.next_column();
    }

    /// Removes the character just before the cursor from the current input
    /// field, if there is one, and retreats the cursor.
    pub fn delete_char(&mut self)
        ensures
            delete_char_rel(*old(self), *final(self)),
    {
        if matches!(self.input_mode, InputMode::Normal) {
            return;
        }
        if self.charcter_index != 0 {
            let current_index = self.charcter_index;
            let len = self.current_input().len();
            if current_index <= len {
                match self.input_mode {
                    InputMode::Config => match self.current_input {
                        CurentInput::ApiUrl => {
                            self.input.api_url.remove(current_index - 1);
                        },
                        CurentInput::Username => {
                            self.input.username.remove(current_index - 1);
                        },
                        CurentInput::Password => {
                            self.input.password.remove(current_index - 1);
                        },
                    },
                    _ => {
                        self.magnet_link.remove(current_index - 1);
                    },
                }
            }
            let n = clamp_cursor(current_index - 1, self.current_input());
            self.charcter_index = n;
        }
    }
}

/// The message a key press produces in every mode: the quit command, on
/// the escape key or on the control modifier with the letter `c`.
pub open spec fn spec_quit_message(key: KeyEvent) -> Option<Message> {
    if (key.ctrl && (key.code == KeyCode::Char('c') || key.code == KeyCode::Char('C')))
        || key.code is Esc {
        Some(Message::Quit)
    } else {
        None
    }
}

/// State `b` is state `a` with the editing cursor moved one character
/// right, clamped to the end of the current field.
pub open spec fn cursor_right_rel(a: App, b: App) -> bool {
    &&& b == (App { charcter_index: b.charcter_index, ..a })
    &&& b.charcter_index == spec_clamp(a.charcter_index + 1, a.current_field_view().len() as int)
}

/// State `b` is state `a` with the editing cursor moved one character
/// left, stopping at the start of the field.
pub open spec fn cursor_left_rel(a: App, b: App) -> bool {
    &&& b == (App { charcter_index: b.charcter_index, ..a })
    &&& b.charcter_index == spec_clamp(
        if a.charcter_index == 0 {
            0
        } else {
            a.charcter_index - 1
        },
        a.current_field_view().len() as int,
    )
}

/// State `b` is state `a` with the info tab moved to `tab` and the sublist
/// selection cleared — the sublist belongs to the tab, so a new tab starts
/// with no selection.
pub open spec fn tab_switch_rel(a: App, b: App, tab: crate::enums::SelectedInfoTab) -> bool {
    b == (App { info_tab_state: (TableState { selected: None }), info_tab: tab, ..a })
}

/// How a key press is handled in the normal mode: the table and info-tab
/// navigation keys, the popup toggles, the refresh command, and the global
/// quit keys.
pub open spec fn key_rel_normal(a: App, key: KeyEvent, b: App, r: KeyOutcome) -> bool {
    let quit = spec_quit_message(key);
    &&& r.forward_to_explorer == false
    &&& if key.code == KeyCode::Char('r') {
        b == a && r.message == Some(Message::RefreshTorrents)
    } else if key.ctrl && key.code == KeyCode::Char('e') {
        b == a && r.message == Some(Message::DisplayCfgEditor)
    } else if key.ctrl && key.code == KeyCode::Char('a') {
        b == a && r.message == Some(Message::DisplayAddTorrent)
    } else if key.code is Tab {
        b == a && r.message == Some(Message::DisplayTorrentInfo)
    } else if key.code == KeyCode::Char('j') || key.code is Down {
        scroll_down_rel(a, b, r.message)
    } else if key.code == KeyCode::Char('k') || key.code is Up {
        scroll_up_rel(a, b, r.message)
    } else if key.code == KeyCode::Char('h') || key.code is Left {
        tab_switch_rel(a, b, a.info_tab.spec_previous()) && r.message
            == a.info_tab.spec_previous().spec_update_message()
    } else if key.code == KeyCode::Char('l') || key.code is Right {
        tab_switch_rel(a, b, a.info_tab.spec_next()) && r.message
            == a.info_tab.spec_next().spec_update_message()
    } else if key.code is Backspace {
        delete_char_rel(a, b) && r.message == quit
    } else {
        b == a && r.message == quit
    }
}

/// How a key press is handled in the configuration editor: saving or
/// closing the editor, moving between the fields, and editing the selected
/// field.
pub open spec fn key_rel_config(a: App, key: KeyEvent, b: App, r: KeyOutcome) -> bool {
    let quit = spec_quit_message(key);
    &&& r.forward_to_explorer == false
    &&& if key.ctrl && key.code == KeyCode::Char('e') {
        &&& b == (App { input: b.input, ..a })
        &&& b.input.api_url@ == a.cfg.api_url@
        &&& b.input.username@ == a.cfg.username@
        &&& b.input.password@ == a.cfg.password@
        &&& r.message == Some(Message::DisplayCfgEditor)
    } else if key.ctrl && key.code == KeyCode::Char('s') {
        b == a && r.message == Some(Message::SaveCfg)
    } else {
        match key.code {
            KeyCode::Char(c) => enter_char_rel(a, b, c) && r.message == quit,
            KeyCode::Backspace => delete_char_rel(a, b) && r.message == quit,
            KeyCode::Down | KeyCode::Enter => config_field_step(a, b, 1) && r.message is None,
            KeyCode::Up => config_field_step(a, b, -1) && r.message is None,
            KeyCode::Left => cursor_left_rel(a, b) && r.message is None,
            KeyCode::Right => cursor_right_rel(a, b) && r.message is None,
            _ => b == a && r.message == quit,
        }
    }
}

/// State `b` is state `a` with the edited configuration field moved by
/// `delta` in the cyclic field order and the cursor snapped to the end of
/// the newly selected field.
pub open spec fn config_field_step(a: App, b: App, delta: int) -> bool {
    &&& b == (App {
        current_input: CurentInput::spec_from_index((a.current_input.spec_index() + delta) % 3),
        charcter_index: b.charcter_index,
        ..a
    })
    &&& b.charcter_index == b.current_field_view().len()
}

/// How a key press is handled in the add-torrent popup: closing it,
/// switching between the magnet and file tabs, editing the magnet link or
/// clearing it, confirming either tab, and — in the file tab — handing
/// every other key on to the file picker.
pub open spec fn key_rel_add_torrent(
    a: App,
    key: KeyEvent,
    explorer_selection: Option<String>,
    b: App,
    r: KeyOutcome,
) -> bool {
    let quit = spec_quit_message(key);
    if key.ctrl && key.code == KeyCode::Char('a') {
        b == a && r.message == Some(Message::DisplayAddTorrent) && !r.forward_to_explorer
    } else if key.ctrl && key.code == KeyCode::Char('w') {
        &&& b == (App { magnet_link: b.magnet_link, charcter_index: 0, ..a })
        &&& b.magnet_link@ == Seq::<char>::empty()
        &&& r.message == quit
        &&& !r.forward_to_explorer
    } else if key.code is Tab {
        &&& b == (App { add_torrent_tab: a.add_torrent_tab.spec_toggle(), ..a })
        &&& r.message == quit
        &&& !r.forward_to_explorer
    } else {
        match a.add_torrent_tab {
            SelectedAddTorrentTab::MagnetLink => {
                &&& !r.forward_to_explorer
                &&& match key.code {
                    KeyCode::Enter => b == a && r.message == Some(Message::AddTorrentMagnet),
                    KeyCode::Char(c) => enter_char_rel(a, b, c) && r.message == quit,
                    KeyCode::Backspace => delete_char_rel(a, b) && r.message == quit,
                    KeyCode::Left => cursor_left_rel(a, b) && r.message is None,
                    KeyCode::Right => cursor_right_rel(a, b) && r.message is None,
                    _ => b == a && r.message == quit,
                }
            },
            SelectedAddTorrentTab::File => {
                if key.code is Enter {
                    &&& b == (App { torrent_file_path: b.torrent_file_path, ..a })
                    &&& b.torrent_file_path@ == (match explorer_selection {
                        Some(path) => path@,
                        None => a.torrent_file_path@,
                    })
                    &&& r.message == Some(Message::AddTorrentFile)
                    &&& !r.forward_to_explorer
                } else {
                    b == a && r.message == quit && r.forward_to_explorer
                }
            },
        }
    }
}

/// How one key press is handled: the mode decides, and the global quit
/// keys work everywhere.
pub open spec fn on_key_event_rel(
    a: App,
    key: KeyEvent,
    explorer_selection: Option<String>,
    b: App,
    r: KeyOutcome,
) -> bool {
    match a.input_mode {
        InputMode::Normal => key_rel_normal(a, key, b, r),
        InputMode::Config => key_rel_config(a, key, b, r),
        InputMode::AddTorrent => key_rel_add_torrent(a, key, explorer_selection, b, r),
    }
}

impl App {
    /// Handles one key press and returns what it turned into: at most one
    /// message, and possibly the request to hand the event on to the file
    /// picker.  `explorer_selection` is the path currently highlighted in
    /// the file picker; it is read only when the file tab confirms a
    /// choice.
    pub fn on_key_event(&mut self, key: KeyEvent, explorer_selection: Option<String>) -> (r:
        KeyOutcome)
        ensures
            on_key_event_rel(*old(self), key, explorer_selection, *final(self), r),
    {
        let mut msg: Option<Message> = None;
        let mut forward = false;
        match (key.ctrl, key.code) {
            (true, KeyCode::Char('c')) | (true, KeyCode::Char('C')) | (_, KeyCode::Esc) => {
                msg = Some(Message::Quit);
            },
            _ => {},
        }
        match self.input_mode {
            InputMode::Normal => {
                match (key.ctrl, key.code) {
                    (_, KeyCode::Char('r')) => msg = Some(Message::RefreshTorrents),
                    (true, KeyCode::Char('e')) => msg = Some(Message::DisplayCfgEditor),
                    (true, KeyCode::Char('a')) => msg = Some(Message::DisplayAddTorrent),
                    (_, KeyCode::Tab) => msg = Some(Message::DisplayTorrentInfo),
                    (_, KeyCode::Char('j')) | (_, KeyCode::Down) => msg = self.next_row(),
                    (_, KeyCode::Char('k')) | (_, KeyCode::Up) => msg = self.previous_row(),
                    (_, KeyCode::Char('h')) | (_, KeyCode::Left) => msg = self.previous_column(),
                    (_, KeyCode::Char('l')) | (_, KeyCode::Right) => msg = self.next_column(),
                    (_, KeyCode::Backspace) => self.delete_char(),
                    _ => {},
                }
            },
            InputMode::Config => {
                match (key.ctrl, key.code) {
                    (true, KeyCode::Char('e')) => {
                        self.input = self.cfg.duplicate();
                        msg = Some(Message::DisplayCfgEditor);
                    },
                    (true, KeyCode::Char('s')) => msg = Some(Message::SaveCfg),
                    (_, KeyCode::Char(to_insert)) => self.enter_char(to_insert),
                    (_, KeyCode::Backspace) => self.delete_char(),
                    (_, KeyCode::Down) | (_, KeyCode::Enter) => msg = self.next_row(),
                    (_, KeyCode::Up) => msg = self.previous_row(),
                    (_, KeyCode::Left) => msg = self.previous_column(),
                    (_, KeyCode::Right) => msg = self.next_column(),
                    _ => {},
                }
            },
            InputMode::AddTorrent => {
                match (key.ctrl, key.code) {
                    (true, KeyCode::Char('a')) => msg = Some(Message::DisplayAddTorrent),
                    (true, KeyCode::Char('w')) => {
                        self.magnet_link = Vec::new();
                        self.reset_cursor();
                    },
                    (_, KeyCode::Tab) => self.add_torrent_tab.toggle(),
                    _ => {
                        match self.add_torrent_tab {
                            SelectedAddTorrentTab::MagnetLink => {
                                match key.code {
                                    KeyCode::Enter => msg = Some(Message::AddTorrentMagnet),
                                    KeyCode::Char(to_insert) => self.enter_char(to_insert),
                                    KeyCode::Backspace => self.delete_char(),
                                    KeyCode::Left => msg = self.previous_column(),
                                    KeyCode::Right => msg = self.next_column(),
                                    _ => {},
                                }
                            },
                            SelectedAddTorrentTab::File => {
                                if matches!(key.code, KeyCode::Enter) {
                                    msg = Some(Message::AddTorrentFile);
                                    match explorer_selection {
                                        Some(path) => self.torrent_file_path = path,
                                        None => {},
                                    }
                                } else {
                                    forward = true;
                                }
                            },
                        }
                    },
                }
            },
        }
        KeyOutcome { message: msg, forward_to_explorer: forward }
    }
}

/// Inserting a character and immediately deleting before the cursor is a
/// round trip: for any valid cursor position, including the start and the
/// end of the field, both the field and the cursor return to where they
/// started, and nothing else moves either.
pub proof fn lemma_insert_then_delete_round_trip(a: App, mid: App, b: App, c: char)
    requires
        !(a.input_mode is Normal),
        a.charcter_index <= a.current_field_view().len(),
        enter_char_rel(a, mid, c),
        delete_char_rel(mid, b),
    ensures
        b.current_field_view() == a.current_field_view(),
        b.charcter_index == a.charcter_index,
        b == (App { input: b.input, magnet_link: b.magnet_link, ..a }),
        b.input.api_url@ == a.input.api_url@,
        b.input.username@ == a.input.username@,
        b.input.password@ == a.input.password@,
        b.magnet_link@ == a.magnet_link@,
{
    let f = a.current_field_view();
    let cur = a.charcter_index as int;
    let f_mid = f.insert(cur, c);
    assert(mid.current_field_view() == f_mid);
    assert(mid.charcter_index == cur + 1);
    assert(f_mid.remove(cur) =~= f);
}

} // verus!
