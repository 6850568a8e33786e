//! The messages of the dispatcher: every intent a key event can produce,
//! applied to the state one at a time, each possibly chaining into one
//! follow-up message.

use vstd::prelude::*;

use crate::input::{CurentInput, InputMode};
use crate::model::{FileEntry, PeerEntry, TorrentEntry, TrackerEntry};
use crate::{App, TableState};

verus! {

/// One intent produced from a key event and applied to the state.  A handled
/// message may return a follow-up message; every chain of follow-ups is
/// finite and never repeats a kind.
#[derive(Clone, Copy, Debug, PartialEq, Eq, Structural)]
pub enum Message {
    /// Refresh the list of torrents and other displayed torrent data.
    RefreshTorrents,
    /// Fetch the file list of the selected torrent.
    TorrentFiles,
    /// Fetch the tracker list of the selected torrent.
    TorrentTrackers,
    /// Fetch the peer map of the selected torrent.
    TorrentPeers,
    /// Toggle the display of the torrent-info popup.
    DisplayTorrentInfo,
    /// Toggle the display of the add-torrent popup.
    DisplayAddTorrent,
    /// Add a torrent from the magnet-link scratch buffer.
    AddTorrentMagnet,
    /// Add a torrent from the chosen torrent file.
    AddTorrentFile,
    /// Toggle the display of the configuration editor popup, switching the
    /// input mode with it.
    DisplayCfgEditor,
    /// Persist the scratch configuration and commit it.
    SaveCfg,
    /// Quit and exit the application.
    Quit,
}

/// What came back from the remote call a message asked for.  A fetch that
/// failed carries nothing, and the stale data is kept; `NoCall` marks a
/// message that needed no call in the current state.
#[derive(Debug)]
pub enum ApiOutcome {
    /// The message needed no remote call.
    NoCall,
    /// The fetched torrent snapshot, or nothing on failure.
    Torrents(Option<Vec<TorrentEntry>>),
    /// The fetched file list, or nothing on failure.
    Files(Option<Vec<FileEntry>>),
    /// The fetched tracker list, or nothing on failure.
    Trackers(Option<Vec<TrackerEntry>>),
    /// The fetched peer list, or nothing on failure.
    Peers(Option<Vec<PeerEntry>>),
    /// Whether an add-torrent call succeeded.
    Added(bool),
    /// Whether persisting the configuration succeeded.
    Stored(bool),
}

/// The outcome fits the message: it is the kind of result the call planned
/// for this message in this state produces, and `NoCall` exactly where no
/// call is planned.
pub open spec fn outcome_matches(a: App, msg: Message, outcome: ApiOutcome) -> bool {
    match msg {
        Message::RefreshTorrents => outcome matches ApiOutcome::Torrents(_),
        Message::TorrentFiles => if a.spec_selected_hash() is Some {
            outcome matches ApiOutcome::Files(_)
        } else {
            outcome is NoCall
        },
        Message::TorrentTrackers => if a.spec_selected_hash() is Some {
            outcome matches ApiOutcome::Trackers(_)
        } else {
            outcome is NoCall
        },
        Message::TorrentPeers => if a.spec_selected_hash() is Some {
            outcome matches ApiOutcome::Peers(_)
        } else {
            outcome is NoCall
        },
        Message::AddTorrentMagnet => a.magnet_link@.len() != 0 && outcome matches ApiOutcome::Added(
            _,
        ),
        Message::AddTorrentFile => a.torrent_file_path@.len() != 0
            && outcome matches ApiOutcome::Added(_),
        Message::SaveCfg => outcome matches ApiOutcome::Stored(_),
        Message::DisplayTorrentInfo | Message::DisplayAddTorrent | Message::DisplayCfgEditor
            | Message::Quit => outcome is NoCall,
    }
}

/// The selection over a freshly replaced snapshot: clamped to the last
/// entry when it points past the end, gone when the snapshot is empty, and
/// still absent when it was absent.
pub open spec fn spec_clamped_selection(sel: Option<usize>, len: int) -> Option<usize> {
    if len == 0 {
        None
    } else {
        match sel {
            Some(i) => if i < len {
                Some(i)
            } else {
                Some((len - 1) as usize)
            },
            None => None,
        }
    }
}

/// How applying the message `msg` with the call outcome `outcome` relates
/// the state `b` and the chained message `next` to the state `a` it
/// started from.
pub open spec fn update_rel(
    a: App,
    msg: Message,
    outcome: ApiOutcome,
    b: App,
    next: Option<Message>,
) -> bool {
    match msg {
        Message::RefreshTorrents => {
            &&& (match outcome {
                ApiOutcome::Torrents(Some(v)) => b.torrents == v,
                _ => b.torrents == a.torrents,
            })
            &&& b == (App {
                torrents: b.torrents,
                state: (TableState {
                    selected: spec_clamped_selection(
                        a.state.selected,
                        b.torrents@.len() as int,
                    ),
                }),
                ..a
            })
            &&& next == (if a.torrent_popup {
                a.info_tab.spec_update_message()
            } else {
                None
            })
        },
        Message::TorrentFiles => {
            &&& (match outcome {
                ApiOutcome::Files(Some(v)) => b == (App { torrent_content: b.torrent_content, ..a })
                    && b.torrent_content == v,
                _ => b == a,
            })
            &&& next is None
        },
        Message::TorrentTrackers => {
            &&& (match outcome {
                ApiOutcome::Trackers(Some(v)) => b == (App {
                    torrent_trackers: b.torrent_trackers,
                    ..a
                }) && b.torrent_trackers == v,
                _ => b == a,
            })
            &&& next is None
        },
        Message::TorrentPeers => {
            &&& (match outcome {
                ApiOutcome::Peers(Some(v)) => b == (App { torrent_peers: b.torrent_peers, ..a })
                    && b.torrent_peers == Some(v),
                _ => b == a,
            })
            &&& next is None
        },
        Message::DisplayTorrentInfo => {
            &&& b == (App { torrent_popup: !a.torrent_popup, ..a })
            &&& next is None
        },
        Message::DisplayAddTorrent => {
            &&& b == (App {
                add_torrent_popup: !a.add_torrent_popup,
                input_mode: a.input_mode.spec_toggle_add_torrent(),
                magnet_link: b.magnet_link,
                charcter_index: b.charcter_index,
                ..a
            })
            &&& b.magnet_link@ == (if b.input_mode is AddTorrent {
                Seq::<char>::empty()
            } else {
                a.magnet_link@
            })
            &&& b.charcter_index as int == (if b.input_mode is Normal {
                a.charcter_index as int
            } else {
                b.current_field_view().len() as int
            })
            &&& next == Some(Message::RefreshTorrents)
        },
        Message::AddTorrentMagnet | Message::AddTorrentFile => {
            &&& b == a
            &&& next == (match outcome {
                ApiOutcome::Added(true) => Some(Message::DisplayAddTorrent),
                _ => Some(Message::RefreshTorrents),
            })
        },
        Message::DisplayCfgEditor => {
            &&& b == (App {
                cfg_popup: !a.cfg_popup,
                input_mode: a.input_mode.spec_toggle_config(),
                input: b.input,
                current_input: b.current_input,
                charcter_index: b.charcter_index,
                ..a
            })
            &&& (if b.input_mode is Config {
                &&& b.input.api_url@ == a.cfg.api_url@
                &&& b.input.username@ == a.cfg.username@
                &&& b.input.password@ == a.cfg.password@
                &&& b.current_input == CurentInput::ApiUrl
            } else {
                &&& b.input == a.input
                &&& b.current_input == a.current_input
            })
            &&& b.charcter_index as int == (if b.input_mode is Normal {
                a.charcter_index as int
            } else {
                b.current_field_view().len() as int
            })
            &&& next == Some(Message::RefreshTorrents)
        },
        Message::SaveCfg => {
            &&& b == (App { cfg: b.cfg, ..a })
            &&& b.cfg.api_url@ == a.input.api_url@
            &&& b.cfg.username@ == a.input.username@
            &&& b.cfg.password@ == a.input.password@
            &&& next == Some(Message::DisplayCfgEditor)
        },
        Message::Quit => {
            &&& b == (App { running: false, ..a })
            &&& next is None
        },
    }
}

/// An upper bound on how many follow-up messages can still come after a
/// message of this kind is handled.
pub open spec fn spec_chain_rank(msg: Message) -> int {
    match msg {
        Message::SaveCfg | Message::AddTorrentMagnet | Message::AddTorrentFile => 3,
        Message::DisplayAddTorrent | Message::DisplayCfgEditor => 2,
        Message::RefreshTorrents => 1,
        Message::TorrentFiles | Message::TorrentTrackers | Message::TorrentPeers
            | Message::DisplayTorrentInfo | Message::Quit => 0,
    }
}

/// Message chaining terminates: whatever the state and the call outcome, a
/// handled message only ever chains into a message of strictly smaller
/// rank, no rank exceeds three, and — since every kind has one fixed rank —
/// no chain ever revisits a kind.
pub proof fn lemma_chain_terminates(
    a: App,
    msg: Message,
    outcome: ApiOutcome,
    b: App,
    next: Option<Message>,
)
    requires
        update_rel(a, msg, outcome, b, next),
    ensures
        next matches Some(m2) ==> spec_chain_rank(m2) < spec_chain_rank(msg),
        next matches Some(m2) ==> m2 != msg,
        spec_chain_rank(msg) <= 3,
{
}

/// Applying any message keeps the torrents-table selection inside the
/// snapshot: a refreshed snapshot clamps it — the clamping policy of the
/// cache — and every other message leaves snapshot and selection untouched.
pub proof fn lemma_update_preserves_selection(
    a: App,
    msg: Message,
    outcome: ApiOutcome,
    b: App,
    next: Option<Message>,
)
    requires
        a.selection_in_range(),
        update_rel(a, msg, outcome, b, next),
    ensures
        b.selection_in_range(),
{
}

impl App {
    /// Applies one message to the state, given the outcome of the remote
    /// call the message asked for, and returns the follow-up message to
    /// process before the next frame, if any.
    ///
    /// A failed fetch of any kind leaves the stale data in place — the
    /// interface stays responsive and shows what it last saw.  A refreshed
    /// snapshot clamps the selection to its new length.  Opening the
    /// configuration editor
    /// reloads the scratch record from the committed one and puts the
    /// cursor at the end of the first field; opening the add-torrent popup
    /// starts with a cleared magnet link.
    pub fn update(&mut self, msg: Message, outcome: ApiOutcome) -> (next: Option<Message>)
        requires
            outcome_matches(*old(self), msg, outcome),
        ensures
            update_rel(*old(self), msg, outcome, *final(self), next),
    {
        match msg {
            Message::RefreshTorrents => {
                match outcome {
                    ApiOutcome::Torrents(Some(v)) => {
                        self.torrents = v;
                    },
                    _ => {},
                }
                let n = self.torrents.len();
                if n == 0 {
                    self.state.select(None);
                } else {
                    match self.state.selected() {
                        Some(i) => if i >= n {
                            self.state.select(Some(n - 1));
                        },
                        None => {},
                    }
                }
                if self.torrent_popup {
                    return self.info_tab.update_selected();
                }
            },
            Message::TorrentFiles => {
                match outcome {
                    ApiOutcome::Files(Some(v)) => {
                        self.torrent_content = v;
                    },
                    _ => {},
                }
            },
            Message::TorrentTrackers => {
                match outcome {
                    ApiOutcome::Trackers(Some(v)) => {
                        self.torrent_trackers = v;
                    },
                    _ => {},
                }
            },
            Message::TorrentPeers => {
                match outcome {
                    ApiOutcome::Peers(Some(v)) => {
                        self.torrent_peers = Some(v);
                    },
                    _ => {},
                }
            },
            Message::DisplayTorrentInfo => {
                self.torrent_popup = !self.torrent_popup;
            },
            Message::DisplayAddTorrent => {
                self.add_torrent_popup = !self.add_torrent_popup;
                self.input_mode.toggle_add_torrent();
                if matches!(self.input_mode, InputMode::AddTorrent) {
                    self.magnet_link = Vec::new();
                }
                self.reset_cursor();
                return Some(Message::RefreshTorrents);
            },
            Message::AddTorrentMagnet | Message::AddTorrentFile => {
                match outcome {
                    ApiOutcome::Added(true) => {
                        return Some(Message::DisplayAddTorrent);
                    },
                    _ => {
                        return Some(Message::RefreshTorrents);
                    },
                }
            },
            Message::DisplayCfgEditor => {
                self.cfg_popup = !self.cfg_popup;
                self.input_mode.toggle_config();
                if matches!(self.input_mode, InputMode::Config) {
                    self.input = self.cfg.duplicate();
                    self.current_input = CurentInput::ApiUrl;
                }
                self.reset_cursor();
                return Some(Message::RefreshTorrents);
            },
            Message::SaveCfg => {
                self.cfg = self.input.duplicate();
                return Some(Message::DisplayCfgEditor);
            },
            Message::Quit => {
                self.running = false;
            },
        }
        None
    }
}

} // verus!
