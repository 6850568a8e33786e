//! The small selector enums of the user interface: which list the scroll
//! keys move, which info tab is shown, and which tab of the add-torrent
//! popup is active.

use vstd::prelude::*;

use crate::signals::Message;

verus! {

/// Which list the scroll keys currently move: the main torrents table, or
/// the sublist inside the torrent-info tab.
#[derive(Clone, Copy, Debug, PartialEq, Eq, Structural)]
pub enum ScrollContext {
    TorrentsTable,
    InfoTab,
}

/// The tab selected inside the torrent-info popup.
#[derive(Clone, Copy, Debug, PartialEq, Eq, Structural)]
pub enum SelectedInfoTab {
    Details,
    Files,
    Trackers,
    Peers,
}

impl SelectedInfoTab {
    /// The position of the tab in the fixed left-to-right tab order.
    pub fn to_index(self) -> (i: usize)
        ensures
            i == self.spec_index(),
    {
        match self {
            SelectedInfoTab::Details => 0,
            SelectedInfoTab::Files => 1,
            SelectedInfoTab::Trackers => 2,
            SelectedInfoTab::Peers => 3,
        }
    }

    /// The tab at a position of the tab order; only the four positions exist.
    pub fn from_index(i: usize) -> (t: Self)
        requires
            i < 4,
        ensures
            t.spec_index() == i,
    {
        match i {
            0 => SelectedInfoTab::Details,
            1 => SelectedInfoTab::Files,
            2 => SelectedInfoTab::Trackers,
            _ => SelectedInfoTab::Peers,
        }
    }

    /// The position of the tab, at the specification level.
    pub open spec fn spec_index(self) -> int {
        match self {
            SelectedInfoTab::Details => 0,
            SelectedInfoTab::Files => 1,
            SelectedInfoTab::Trackers => 2,
            SelectedInfoTab::Peers => 3,
        }
    }

    /// The tab that follows this one, wrapping from the last tab to the first.
    pub open spec fn spec_next(self) -> Self {
        match self {
            SelectedInfoTab::Details => SelectedInfoTab::Files,
            SelectedInfoTab::Files => SelectedInfoTab::Trackers,
            SelectedInfoTab::Trackers => SelectedInfoTab::Peers,
            SelectedInfoTab::Peers => SelectedInfoTab::Details,
        }
    }

    /// The tab that precedes this one, wrapping from the first tab to the last.
    pub open spec fn spec_previous(self) -> Self {
        match self {
            SelectedInfoTab::Details => SelectedInfoTab::Peers,
            SelectedInfoTab::Files => SelectedInfoTab::Details,
            SelectedInfoTab::Trackers => SelectedInfoTab::Files,
            SelectedInfoTab::Peers => SelectedInfoTab::Trackers,
        }
    }

    /// Advances to the following tab, wrapping past the last one, and returns
    /// the message that refreshes the newly selected tab's content.
    pub fn next(&mut self) -> (msg: Option<Message>)
        ensures
            *final(self) == old(self).spec_next(),
            msg == final(self).spec_update_message(),
    {
        let current_index = self.to_index();
        let new_index = (current_index + 1) % 4;
        *self = Self::from_index(new_index);
        self.update_selected()
    }

    /// Retreats to the preceding tab, wrapping past the first one, and returns
    /// the message that refreshes the newly selected tab's content.
    pub fn previous(&mut self) -> (msg: Option<Message>)
        ensures
            *final(self) == old(self).spec_previous(),
            msg == final(self).spec_update_message(),
    {
        let current_index = self.to_index();
        let new_index = if current_index == 0 {
            3
        } else {
            (current_index - 1) % 4
        };
        *self = Self::from_index(new_index);
        self.update_selected()
    }

    /// The message that fetches the content shown by the tab; the details tab
    /// needs no fetch.
    pub open spec fn spec_update_message(self) -> Option<Message> {
        match self {
            SelectedInfoTab::Files => Some(Message::TorrentFiles),
            SelectedInfoTab::Trackers => Some(Message::TorrentTrackers),
            SelectedInfoTab::Peers => Some(Message::TorrentPeers),
            _ => None,
        }
    }

    /// Returns the message that refreshes the content of the selected tab.
    pub fn update_selected(self) -> (msg: Option<Message>)
        ensures
            msg == self.spec_update_message(),
    {
        match self {
            SelectedInfoTab::Files => Some(Message::TorrentFiles),
            SelectedInfoTab::Trackers => Some(Message::TorrentTrackers),
            SelectedInfoTab::Peers => Some(Message::TorrentPeers),
            _ => None,
        }
    }
}

/// The tab selected inside the add-torrent popup: enter a magnet link, or
/// pick a torrent file.
#[derive(Clone, Copy, Debug, PartialEq, Eq, Structural)]
pub enum SelectedAddTorrentTab {
    MagnetLink,
    File,
}

impl SelectedAddTorrentTab {
    /// The other of the two tabs.
    pub open spec fn spec_toggle(self) -> Self {
        match self {
            SelectedAddTorrentTab::MagnetLink => SelectedAddTorrentTab::File,
            SelectedAddTorrentTab::File => SelectedAddTorrentTab::MagnetLink,
        }
    }

    /// Switches to the other of the two tabs.
    pub fn toggle(&mut self)
        ensures
            *final(self) == old(self).spec_toggle(),
    {
        match self {
            SelectedAddTorrentTab::MagnetLink => *self = SelectedAddTorrentTab::File,
            SelectedAddTorrentTab::File => *self = SelectedAddTorrentTab::MagnetLink,
        };
    }
}

} // verus!
