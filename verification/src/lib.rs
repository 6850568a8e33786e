//! Core state machine of a terminal front-end for a remote torrent service.
//!
//! The crate keeps the whole user-interface state in one [`App`] record:
//! the current input mode, the popup flags, the selection cursors, the
//! scratch buffers being edited, the committed connection settings and the
//! last snapshot of data fetched from the remote service.  Key events are
//! turned into messages, messages are applied to the state, and a message
//! may chain into a follow-up message; the surrounding program only performs
//! the terminal and network work that the state machine asks for.
//!
//! Every remote call is planned as a request and answered with an outcome,
//! and the state machine is specified for success and failure alike: a
//! failed call keeps the stale data and the interface stays responsive.
//! The bundled front-end persists the configuration locally but carries no
//! HTTP client, so it answers every network request with the failure
//! outcome and never displays remote data.

use vstd::prelude::*;
use vstd::string::StrSliceExecFns;

pub mod api;
pub mod enums;
pub mod helpers;
pub mod input;
pub mod model;
pub mod signals;

use crate::enums::{ScrollContext, SelectedAddTorrentTab, SelectedInfoTab};
use crate::input::{CurentInput, InputMode};
use crate::model::{FileEntry, PeerEntry, TorrentEntry, TrackerEntry};

verus! {

/// Height, in terminal rows, of one entry of the torrents table; the
/// scrollbar viewport is kept in these units.
pub const TABLE_ITEM_HEIGHT: usize = 2;

/// Connection settings for the remote torrent service: the record that is
/// persisted between runs.  Two copies live in [`App`]: the committed record
/// used for every remote call, and the scratch record bound to the editor
/// popup.  Each field is kept as a vector of characters so that the editing
/// cursor can address characters directly.
#[derive(Debug)]
pub struct AppConfig {
    pub api_url: Vec<char>,
    pub username: Vec<char>,
    pub password: Vec<char>,
}

impl AppConfig {
    /// A character-for-character copy of the record, used when the scratch
    /// buffer is loaded from the committed settings or committed back.
    pub fn duplicate(&self) -> (r: AppConfig)
        ensures
            r.api_url@ == self.api_url@,
            r.username@ == self.username@,
            r.password@ == self.password@,
    {
        AppConfig {
            api_url: clone_chars(&self.api_url),
            username: clone_chars(&self.username),
            password: clone_chars(&self.password),
        }
    }
}

/// Copies a character vector; the copy has the same view as the original.
pub fn clone_chars(v: &Vec<char>) -> (r: Vec<char>)
    ensures
        r@ == v@,
{
    let mut r: Vec<char> = Vec::new();
    let mut i: usize = 0;
    while i < v.len()
        invariant
            i <= v@.len(),
            r@ == v@.subrange(0, i as int),
        decreases v@.len() - i,
    {
        r.push(v[i]);
        proof {
            assert(r@ =~= v@.subrange(0, i + 1 as int));
        }
        i = i + 1;
    }
    proof {
        assert(r@ =~= v@);
    }
    r
}

impl Default for AppConfig {
    /// The documented defaults used when no record has been persisted yet: a
    /// placeholder local URL, the default account name, and an empty
    /// password.  The empty password is the sentinel for "never configured".
    fn default() -> (r: AppConfig)
        ensures
            r.api_url@ == "http://localhost:8080"@,
            r.username@ == "admin"@,
            r.password@ == Seq::<char>::empty(),
    {
        proof {
            reveal_strlit("");
        }
        AppConfig {
            api_url: str_to_chars("http://localhost:8080"),
            username: str_to_chars("admin"),
            password: str_to_chars(""),
        }
    }
}

/// Selection cursor over a table: the index of the highlighted row, or no
/// selection at all.  The rendering layer consumes it each frame.
#[derive(Clone, Copy, Debug, PartialEq, Eq, Structural)]
pub struct TableState {
    pub selected: Option<usize>,
}

impl TableState {
    /// A cursor with no row selected.
    pub fn new() -> (r: TableState)
        ensures
            r.selected is None,
    {
        TableState { selected: None }
    }

    /// The index of the selected row, if any.
    pub fn selected(&self) -> (r: Option<usize>)
        ensures
            r == self.selected,
    {
        self.selected
    }

    /// Moves the selection to the given row, or clears it.
    pub fn select(&mut self, index: Option<usize>)
        ensures
            final(self).selected == index,
    {
        self.selected = index;
    }
}

/// Position and extent of a scrollbar, kept synchronized with the selection
/// it accompanies.
#[derive(Clone, Copy, Debug, PartialEq, Eq, Structural)]
pub struct ScrollbarState {
    pub content_length: usize,
    pub position: usize,
    pub viewport_content_length: usize,
}

impl ScrollbarState {
    /// The scrollbar state over empty content, at position zero.
    pub open spec fn spec_new() -> ScrollbarState {
        ScrollbarState { content_length: 0, position: 0, viewport_content_length: 0 }
    }

    /// A scrollbar over empty content, at position zero.
    pub fn new() -> (r: ScrollbarState)
        ensures
            r == (ScrollbarState { content_length: 0, position: 0, viewport_content_length: 0 }),
    {
        ScrollbarState { content_length: 0, position: 0, viewport_content_length: 0 }
    }

    /// The same scrollbar over content of the given length.
    pub fn content_length(self, length: usize) -> (r: ScrollbarState)
        ensures
            r == (ScrollbarState { content_length: length, ..self }),
    {
        ScrollbarState { content_length: length, ..self }
    }

    /// The same scrollbar moved to the given position.
    pub fn position(self, position: usize) -> (r: ScrollbarState)
        ensures
            r == (ScrollbarState { position: position, ..self }),
    {
        ScrollbarState { position: position, ..self }
    }

    /// The same scrollbar with the given viewport extent.
    pub fn viewport_content_length(self, viewport: usize) -> (r: ScrollbarState)
        ensures
            r == (ScrollbarState { viewport_content_length: viewport, ..self }),
    {
        ScrollbarState { viewport_content_length: viewport, ..self }
    }
}

/// The whole state of the user interface: one record owned by the event
/// loop for the lifetime of the process.  Key handling, message dispatch
/// and the frame bookkeeping all work on this record; the rendering layer
/// reads it and never writes it.
#[verifier::ext_equal]
#[derive(Debug)]
pub struct App {
    /// The event loop keeps going while this holds.
    pub running: bool,
    /// Selection cursor of the main torrents table.
    pub state: TableState,
    /// Scrollbar of the main torrents table.
    pub scroll_state: ScrollbarState,
    /// Selection cursor of the list inside the info tab.
    pub info_tab_state: TableState,
    /// Scrollbar of the list inside the info tab.
    pub info_tab_scroll_state: ScrollbarState,
    /// Which of the two lists the scroll keys currently move.
    pub scroll_context: ScrollContext,
    /// Scratch copy of the connection settings, bound to the editor popup.
    pub input: AppConfig,
    /// Which scratch field the editing cursor addresses.
    pub current_input: CurentInput,
    /// Position of the editing cursor, as a character index into the
    /// current field.
    pub charcter_index: usize,
    /// The top-level input mode.
    pub input_mode: InputMode,
    /// Whether the configuration editor popup is shown.
    pub cfg_popup: bool,
    /// Whether the first-run configuration prompt has already been forced.
    pub first_cfg: bool,
    /// The committed connection settings, used for every remote call.
    pub cfg: AppConfig,
    /// Last fetched snapshot of the torrent list.
    pub torrents: Vec<TorrentEntry>,
    /// Last fetched tracker list of the selected torrent.
    pub torrent_trackers: Vec<TrackerEntry>,
    /// Last fetched peer list of the selected torrent; absent until the
    /// first successful fetch, and kept as it is when a fetch fails.
    pub torrent_peers: Option<Vec<PeerEntry>>,
    /// Last fetched file list of the selected torrent.
    pub torrent_content: Vec<FileEntry>,
    /// Whether the torrent-info popup is shown.
    pub torrent_popup: bool,
    /// The tab selected inside the torrent-info popup.
    pub info_tab: SelectedInfoTab,
    /// Whether the add-torrent popup is shown.
    pub add_torrent_popup: bool,
    /// The tab selected inside the add-torrent popup.
    pub add_torrent_tab: SelectedAddTorrentTab,
    /// Scratch buffer holding the magnet link being typed.
    pub magnet_link: Vec<char>,
    /// Path of the torrent file picked in the file tab.
    pub torrent_file_path: String,
}

impl App {
    /// Constructs the startup state: not running yet, nothing fetched,
    /// nothing selected, all popups hidden, and both configuration records
    /// at their defaults.
    pub fn new() -> (r: App)
        ensures
            r.running == false,
            r.state.selected is None,
            r.scroll_state == ScrollbarState::spec_new(),
            r.info_tab_state.selected is None,
            r.info_tab_scroll_state == ScrollbarState::spec_new(),
            r.scroll_context == ScrollContext::TorrentsTable,
            r.input.api_url@ == "http://localhost:8080"@,
            r.input.username@ == "admin"@,
            r.input.password@ == Seq::<char>::empty(),
            r.current_input == CurentInput::ApiUrl,
            r.charcter_index == 0,
            r.input_mode == InputMode::Normal,
            r.cfg_popup == false,
            r.first_cfg == false,
            r.cfg.api_url@ == "http://localhost:8080"@,
            r.cfg.username@ == "admin"@,
            r.cfg.password@ == Seq::<char>::empty(),
            r.torrents@.len() == 0,
            r.torrent_trackers@.len() == 0,
            r.torrent_peers is None,
            r.torrent_content@.len() == 0,
            r.torrent_popup == false,
            r.info_tab == SelectedInfoTab::Details,
            r.add_torrent_popup == false,
            r.add_torrent_tab == SelectedAddTorrentTab::MagnetLink,
            r.magnet_link@.len() == 0,
            r.torrent_file_path@.len() == 0,
    {
        App {
            running: false,
            state: TableState::new(),
            scroll_state: ScrollbarState::new(),
            info_tab_state: TableState::new(),
            info_tab_scroll_state: ScrollbarState::new(),
            scroll_context: ScrollContext::TorrentsTable,
            input: AppConfig::default(),
            current_input: CurentInput::ApiUrl,
            charcter_index: 0,
            input_mode: InputMode::Normal,
            cfg_popup: false,
            first_cfg: false,
            cfg: AppConfig::default(),
            torrents: Vec::new(),
            torrent_trackers: Vec::new(),
            torrent_peers: None,
            torrent_content: Vec::new(),
            torrent_popup: false,
            info_tab: SelectedInfoTab::Details,
            add_torrent_popup: false,
            add_torrent_tab: SelectedAddTorrentTab::MagnetLink,
            magnet_link: Vec::new(),
            torrent_file_path: String::new(),
        }
    }

    /// Bookkeeping done at the start of every frame, before anything is
    /// drawn: the scroll keys are handed back to the torrents table, the
    /// table scrollbar is resized to the snapshot, the info popup is closed
    /// when there is no torrent to describe, and — while the committed
    /// password is empty, the sentinel for a configuration that was never
    /// saved — the configuration popup is forced open and, on its first
    /// appearance, the input mode is forced to the editor with the cursor
    /// at the end of the current field.
    pub fn prepare_frame(&mut self)
        ensures
            *final(self) == (App {
                scroll_context: ScrollContext::TorrentsTable,
                scroll_state: final(self).scroll_state,
                torrent_popup: final(self).torrent_popup,
                cfg_popup: final(self).cfg_popup,
                input_mode: final(self).input_mode,
                charcter_index: final(self).charcter_index,
                ..*old(self)
            }),
            final(self).scroll_state == (ScrollbarState {
                content_length: old(self).torrents@.len() as usize,
                viewport_content_length: TABLE_ITEM_HEIGHT,
                ..old(self).scroll_state
            }),
            final(self).torrent_popup == (old(self).torrent_popup && old(self).torrents@.len()
                > 0),
            old(self).cfg.password@.len() == 0 ==> final(self).cfg_popup == true,
            old(self).cfg.password@.len() != 0 ==> final(self).cfg_popup == old(self).cfg_popup,
            final(self).input_mode == (if old(self).cfg.password@.len() == 0 && !old(
                self,
            ).first_cfg {
                InputMode::Config
            } else {
                old(self).input_mode
            }),
            final(self).charcter_index == (if old(self).cfg.password@.len() == 0 && !old(
                self,
            ).first_cfg {
                final(self).current_field_view().len() as int
            } else {
                old(self).charcter_index as int
            }),
    {
        self.scroll_context = ScrollContext::TorrentsTable;
        let n = self.torrents.len();
        self.scroll_state = self.scroll_state.content_length(n).viewport_content_length(
            TABLE_ITEM_HEIGHT,
        );
        if !(self.torrent_popup && n > 0) {
            self.torrent_popup = false;
        }
        if self.cfg.password.len() == 0 {
            self.cfg_popup = true;
            if !self.first_cfg {
                self.input_mode = InputMode::Config;
                self.reset_cursor();
            }
        }
    }
}

/// Copies the characters of a string slice into a vector with the same view.
pub fn str_to_chars(s: &str) -> (r: Vec<char>)
    ensures
        r@ == s@,
{
    let n = s.unicode_len();
    let mut r: Vec<char> = Vec::new();
    let mut i: usize = 0;
    while i < n
        invariant
            n == s@.len(),
            i <= n,
            r@ == s@.subrange(0, i as int),
        decreases n - i,
    {
        r.push(s.get_char(i));
        proof {
            assert(r@ =~= s@.subrange(0, i + 1 as int));
        }
        i = i + 1;
    }
    proof {
        assert(r@ =~= s@);
    }
    r
}

} // verus!
