//! Plain-value records for the data fetched from the remote torrent
//! service: the torrent snapshot and the per-torrent detail sets (files,
//! trackers, peers), together with the enumerations that classify them.

use vstd::prelude::*;

verus! {

/// The lifecycle state a torrent can be in, as reported by the remote
/// service.
#[derive(Clone, Copy, Debug, PartialEq, Eq, Structural)]
pub enum State {
    Error,
    MissingFiles,
    Uploading,
    PausedUP,
    QueuedUP,
    StalledUP,
    CheckingUP,
    ForcedUP,
    Allocating,
    Downloading,
    MetaDL,
    PausedDL,
    QueuedDL,
    StalledDL,
    CheckingDL,
    ForcedDL,
    CheckingResumeData,
    Moving,
    Unknown,
}

/// The working state of one tracker of a torrent.
#[derive(Clone, Copy, Debug, PartialEq, Eq, Structural)]
pub enum TrackerStatus {
    Disabled,
    NotContacted,
    Working,
    Updating,
    NotWorking,
}

/// The download priority of one file inside a torrent.
#[derive(Clone, Copy, Debug, PartialEq, Eq, Structural)]
pub enum Priority {
    DoNotDownload,
    Normal,
    Mixed,
    High,
    Maximal,
}

/// One entry of the torrent snapshot.  A torrent is identified by its
/// hash — every detail fetch is scoped to the hash of the selected entry —
/// and carries the values the table and the details panel display.  Fields
/// the remote service may leave out are optional; the two completion
/// ratios are kept as fixed-point values, in ten-thousandths.
#[derive(Clone, Debug)]
pub struct TorrentEntry {
    pub hash: String,
    pub name: Option<String>,
    pub size: Option<i64>,
    pub downloaded: Option<i64>,
    pub uploaded: Option<i64>,
    /// Completion of the transfer, in ten-thousandths of the whole.
    pub progress_e4: Option<i64>,
    pub state: Option<State>,
    pub dlspeed: Option<i64>,
    pub upspeed: Option<i64>,
    pub eta: Option<i64>,
    /// Share ratio, in ten-thousandths.
    pub ratio_e4: Option<i64>,
    pub time_active: Option<i64>,
    pub num_complete: Option<i64>,
    pub num_seeds: Option<i64>,
    pub num_incomplete: Option<i64>,
    pub dl_limit: Option<i64>,
    pub up_limit: Option<i64>,
    pub seq_dl: Option<bool>,
    pub last_activity: Option<i64>,
    pub added_on: Option<i64>,
    pub completion_on: Option<i64>,
    pub tracker: Option<String>,
    pub save_path: Option<String>,
}

impl TorrentEntry {
    /// An entry that carries nothing but its identifying hash.
    pub fn new(hash: String) -> (r: TorrentEntry)
        ensures
            r.hash == hash,
            r.name is None,
    {
        TorrentEntry {
            hash,
            name: None,
            size: None,
            downloaded: None,
            uploaded: None,
            progress_e4: None,
            state: None,
            dlspeed: None,
            upspeed: None,
            eta: None,
            ratio_e4: None,
            time_active: None,
            num_complete: None,
            num_seeds: None,
            num_incomplete: None,
            dl_limit: None,
            up_limit: None,
            seq_dl: None,
            last_activity: None,
            added_on: None,
            completion_on: None,
            tracker: None,
            save_path: None,
        }
    }
}

/// One file of the selected torrent, as shown in the files tab.
#[derive(Clone, Debug)]
pub struct FileEntry {
    pub name: String,
    pub size: i64,
    pub priority: Priority,
    /// Completion of the file, in ten-thousandths of the whole.
    pub progress_e4: i64,
}

/// One tracker of the selected torrent, as shown in the trackers tab.
#[derive(Clone, Debug)]
pub struct TrackerEntry {
    pub url: String,
    pub status: TrackerStatus,
    pub num_peers: i64,
    pub num_seeds: i64,
}

/// One peer of the selected torrent, as shown in the peers tab.  The peer
/// is identified by its address; the other fields are display values the
/// remote service may leave out.
#[derive(Clone, Debug)]
pub struct PeerEntry {
    pub addr: String,
    pub connection: Option<String>,
    pub country: Option<String>,
    pub downloaded: Option<i64>,
    pub uploaded: Option<i64>,
    pub dl_speed: Option<i64>,
    pub up_speed: Option<i64>,
    /// Completion of the peer's transfer, in ten-thousandths of the whole.
    pub progress_e4: Option<i64>,
    pub client: Option<String>,
}

} // verus!
