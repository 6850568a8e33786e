//! The remote-call side of the dispatcher: which call a message needs,
//! and the validation that rejects an add-torrent command before any call
//! is made.

use vstd::prelude::*;
use vstd::string::StringExecFns;

use crate::signals::Message;
use crate::{clone_chars, App};

verus! {

/// One remote call the state machine asks the surrounding program to
/// perform.  The program performs it and hands the result back as an
/// [`crate::signals::ApiOutcome`].
#[derive(Debug, PartialEq, Eq)]
pub enum ApiRequest {
    /// Fetch the torrent snapshot.
    FetchTorrents,
    /// Fetch the file list of the torrent with this hash.
    FetchFiles { hash: String },
    /// Fetch the tracker list of the torrent with this hash.
    FetchTrackers { hash: String },
    /// Fetch the peer list of the torrent with this hash.
    FetchPeers { hash: String },
    /// Add the torrent this magnet link names.
    AddMagnet { magnet: Vec<char> },
    /// Add the torrent stored in the file at this path.
    AddFile { path: String },
    /// Persist the scratch configuration record.
    StoreConfig,
}

/// The reasons an add-torrent command is rejected before any remote call
/// is made.
#[derive(Clone, Copy, Debug, PartialEq, Eq, Structural)]
pub enum AddTorrentError {
    /// The magnet-link scratch buffer is empty.
    EmptyMagnetLink,
    /// No torrent file has been picked.
    EmptyFilePath,
}

impl AddTorrentError {
    /// A line describing the rejection, as shown to the user.
    pub fn message(&self) -> (r: String)
        ensures
            *self is EmptyMagnetLink ==> r@ == "Magnet link is empty"@,
            *self is EmptyFilePath ==> r@ == "Torrent file path is empty"@,
    {
        match self {
            AddTorrentError::EmptyMagnetLink => String::from_str("Magnet link is empty"),
            AddTorrentError::EmptyFilePath => String::from_str("Torrent file path is empty"),
        }
    }
}

impl App {
    /// The hash a detail fetch is scoped to: the hash of the selected
    /// torrent, and nothing at all while no torrent is selected or the
    /// selection is out of range — a detail fetch is then a no-op rather
    /// than a fault.
    pub open spec fn spec_selected_hash(self) -> Option<Seq<char>> {
        match self.state.selected {
            Some(i) => if i < self.torrents@.len() {
                Some(self.torrents@[i as int].hash@)
            } else {
                None
            },
            None => None,
        }
    }

    /// Returns the hash of the torrent a detail fetch would be scoped to,
    /// if there is one.
    pub fn selected_torrent_hash(&self) -> (r: Option<String>)
        ensures
            match r {
                Some(h) => self.spec_selected_hash() == Some(h@),
                None => self.spec_selected_hash() is None,
            },
    {
        match self.state.selected() {
            Some(i) => if i < self.torrents.len() {
                Some(self.torrents[i].hash.clone())
            } else {
                None
            },
            None => None,
        }
    }

    /// Validates the magnet-link scratch buffer: an empty buffer is
    /// rejected without any remote call, anything else becomes the request
    /// that adds it.  Emptiness is the only check made here — the remote
    /// client's parse of a plain string into its URL list cannot fail, so
    /// judging the link's syntax is left to the service itself.
    pub fn add_torrent_magnet(&self) -> (r: Result<ApiRequest, AddTorrentError>)
        ensures
            self.magnet_link@.len() == 0 ==> r == Err::<ApiRequest, AddTorrentError>(
                AddTorrentError::EmptyMagnetLink,
            ),
            self.magnet_link@.len() != 0 ==> (r matches Ok(ApiRequest::AddMagnet { magnet })
                && magnet@ == self.magnet_link@),
    {
        if self.magnet_link.len() == 0 {
            Err(AddTorrentError::EmptyMagnetLink)
        } else {
            Ok(ApiRequest::AddMagnet { magnet: clone_chars(&self.magnet_link) })
        }
    }

    /// Validates the picked torrent-file path: an empty path is rejected
    /// without any remote call, anything else becomes the request that
    /// reads the file and adds it.
    pub fn add_torrent_file(&self) -> (r: Result<ApiRequest, AddTorrentError>)
        ensures
            self.torrent_file_path@.len() == 0 ==> r == Err::<ApiRequest, AddTorrentError>(
                AddTorrentError::EmptyFilePath,
            ),
            self.torrent_file_path@.len() != 0 ==> (r matches Ok(ApiRequest::AddFile { path })
                && path@ == self.torrent_file_path@),
    {
        if self.torrent_file_path.as_str().is_empty() {
            Err(AddTorrentError::EmptyFilePath)
        } else {
            Ok(ApiRequest::AddFile { path: self.torrent_file_path.clone() })
        }
    }

    /// The remote call a message needs in the current state, if any: the
    /// fetches for the refresh messages — a detail fetch with no torrent to
    /// scope it to needs no call at all — the add requests after their
    /// validation, and the store request for a configuration save.
    pub fn update_request(&self, msg: &Message) -> (r: Result<
        Option<ApiRequest>,
        AddTorrentError,
    >)
        ensures
            ({
                let a = *self;
                match *msg {
                    Message::RefreshTorrents => r matches Ok(Some(ApiRequest::FetchTorrents)),
                    Message::TorrentFiles => match a.spec_selected_hash() {
                        Some(h) => r matches Ok(Some(ApiRequest::FetchFiles { hash })) && hash@
                            == h,
                        None => r == Ok::<Option<ApiRequest>, AddTorrentError>(None),
                    },
                    Message::TorrentTrackers => match a.spec_selected_hash() {
                        Some(h) => r matches Ok(Some(ApiRequest::FetchTrackers { hash })) && hash@
                            == h,
                        None => r == Ok::<Option<ApiRequest>, AddTorrentError>(None),
                    },
                    Message::TorrentPeers => match a.spec_selected_hash() {
                        Some(h) => r matches Ok(Some(ApiRequest::FetchPeers { hash })) && hash@
                            == h,
                        None => r == Ok::<Option<ApiRequest>, AddTorrentError>(None),
                    },
                    Message::AddTorrentMagnet => if a.magnet_link@.len() == 0 {
                        r == Err::<Option<ApiRequest>, AddTorrentError>(
                            AddTorrentError::EmptyMagnetLink,
                        )
                    } else {
                        r matches Ok(Some(ApiRequest::AddMagnet { magnet })) && magnet@
                            == a.magnet_link@
                    },
                    Message::AddTorrentFile => if a.torrent_file_path@.len() == 0 {
                        r == Err::<Option<ApiRequest>, AddTorrentError>(
                            AddTorrentError::EmptyFilePath,
                        )
                    } else {
                        r matches Ok(Some(ApiRequest::AddFile { path })) && path@
                            == a.torrent_file_path@
                    },
                    Message::SaveCfg => r matches Ok(Some(ApiRequest::StoreConfig)),
                    _ => r == Ok::<Option<ApiRequest>, AddTorrentError>(None),
                }
            }),
    {
        match msg {
            Message::RefreshTorrents => Ok(Some(ApiRequest::FetchTorrents)),
            Message::TorrentFiles => match self.selected_torrent_hash() {
                Some(hash) => Ok(Some(ApiRequest::FetchFiles { hash })),
                None => Ok(None),
            },
            Message::TorrentTrackers => match self.selected_torrent_hash() {
                Some(hash) => Ok(Some(ApiRequest::FetchTrackers { hash })),
                None => Ok(None),
            },
            Message::TorrentPeers => match self.selected_torrent_hash() {
                Some(hash) => Ok(Some(ApiRequest::FetchPeers { hash })),
                None => Ok(None),
            },
            Message::AddTorrentMagnet => match self.add_torrent_magnet() {
                Ok(req) => Ok(Some(req)),
                Err(e) => Err(e),
            },
            Message::AddTorrentFile => match self.add_torrent_file() {
                Ok(req) => Ok(Some(req)),
                Err(e) => Err(e),
            },
            Message::SaveCfg => Ok(Some(ApiRequest::StoreConfig)),
            _ => Ok(None),
        }
    }
}

} // verus!
