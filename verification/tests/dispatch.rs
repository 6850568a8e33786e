use qbtui::api::{AddTorrentError, ApiRequest};
use qbtui::enums::SelectedInfoTab;
use qbtui::input::{CurentInput, InputMode};
use qbtui::model::TorrentEntry;
use qbtui::signals::{ApiOutcome, Message};
use qbtui::App;

fn chars(s: &str) -> Vec<char> {
    s.chars().collect()
}

#[test]
fn empty_password_forces_the_config_editor_before_any_key() {
    let mut app = App::new();
    assert_eq!(app.cfg.password, chars(""));
    app.prepare_frame();
    assert!(app.cfg_popup);
    assert!(matches!(app.input_mode, InputMode::Config));
}

#[test]
fn configured_password_leaves_the_mode_alone() {
    let mut app = App::new();
    app.cfg.password = chars("secret");
    app.prepare_frame();
    assert!(!app.cfg_popup);
    assert!(matches!(app.input_mode, InputMode::Normal));
}

#[test]
fn save_config_commits_the_scratch_record_and_chains_a_refresh() {
    let mut app = App::new();
    app.input_mode = InputMode::Config;
    app.cfg_popup = true;
    app.input.api_url = chars("http://x:8080");
    app.input.username = chars("a");
    app.input.password = chars("b");
    let next = app.update(Message::SaveCfg, ApiOutcome::Stored(true));
    assert_eq!(app.cfg.api_url, chars("http://x:8080"));
    assert_eq!(app.cfg.username, chars("a"));
    assert_eq!(app.cfg.password, chars("b"));
    assert_eq!(next, Some(Message::DisplayCfgEditor));
    let next = app.update(Message::DisplayCfgEditor, ApiOutcome::NoCall);
    assert!(!app.cfg_popup);
    assert!(matches!(app.input_mode, InputMode::Normal));
    assert_eq!(next, Some(Message::RefreshTorrents));
}

#[test]
fn empty_magnet_link_is_rejected_without_any_call() {
    let app = App::new();
    assert_eq!(app.magnet_link, chars(""));
    let request = app.update_request(&Message::AddTorrentMagnet);
    assert_eq!(request, Err(AddTorrentError::EmptyMagnetLink));
    assert_eq!(app.torrents.len(), 0);
}

#[test]
fn nonempty_magnet_link_becomes_an_add_request() {
    let mut app = App::new();
    app.magnet_link = chars("magnet:?xt=urn:btih:abc");
    match app.update_request(&Message::AddTorrentMagnet) {
        Ok(Some(ApiRequest::AddMagnet { magnet })) => {
            assert_eq!(magnet, chars("magnet:?xt=urn:btih:abc"));
        },
        other => panic!("unexpected request: {:?}", other),
    }
}

#[test]
fn empty_file_path_is_rejected_without_any_call() {
    let app = App::new();
    let request = app.update_request(&Message::AddTorrentFile);
    assert_eq!(request, Err(AddTorrentError::EmptyFilePath));
}

#[test]
fn add_torrent_error_messages_match_the_rejections() {
    assert_eq!(AddTorrentError::EmptyMagnetLink.message(), "Magnet link is empty");
    assert_eq!(AddTorrentError::EmptyFilePath.message(), "Torrent file path is empty");
}

#[test]
fn detail_fetch_with_empty_snapshot_needs_no_call() {
    let app = App::new();
    assert_eq!(app.update_request(&Message::TorrentFiles), Ok(None));
    assert_eq!(app.update_request(&Message::TorrentTrackers), Ok(None));
    assert_eq!(app.update_request(&Message::TorrentPeers), Ok(None));
}

#[test]
fn detail_fetch_is_scoped_to_the_selected_hash() {
    let mut app = App::new();
    app.torrents = vec![
        TorrentEntry::new(String::from("aaa")),
        TorrentEntry::new(String::from("bbb")),
    ];
    app.state.select(Some(1));
    match app.update_request(&Message::TorrentFiles) {
        Ok(Some(ApiRequest::FetchFiles { hash })) => assert_eq!(hash, "bbb"),
        other => panic!("unexpected request: {:?}", other),
    }
    app.state.select(Some(0));
    match app.update_request(&Message::TorrentPeers) {
        Ok(Some(ApiRequest::FetchPeers { hash })) => assert_eq!(hash, "aaa"),
        other => panic!("unexpected request: {:?}", other),
    }
    match app.update_request(&Message::TorrentTrackers) {
        Ok(Some(ApiRequest::FetchTrackers { hash })) => assert_eq!(hash, "aaa"),
        other => panic!("unexpected request: {:?}", other),
    }
}

#[test]
fn detail_fetch_with_no_selection_needs_no_call() {
    let mut app = App::new();
    app.torrents = vec![
        TorrentEntry::new(String::from("aaa")),
        TorrentEntry::new(String::from("bbb")),
    ];
    assert_eq!(app.state.selected(), None);
    assert_eq!(app.update_request(&Message::TorrentFiles), Ok(None));
    assert_eq!(app.update_request(&Message::TorrentTrackers), Ok(None));
    assert_eq!(app.update_request(&Message::TorrentPeers), Ok(None));
    let next = app.update(Message::TorrentFiles, ApiOutcome::NoCall);
    assert_eq!(app.torrent_content.len(), 0);
    assert_eq!(next, None);
}

#[test]
fn failed_peer_fetch_keeps_the_stale_list() {
    let mut app = App::new();
    app.torrents = vec![TorrentEntry::new(String::from("h"))];
    app.state.select(Some(0));
    app.torrent_peers = Some(vec![qbtui::model::PeerEntry {
        addr: String::from("10.0.0.1:6881"),
        connection: None,
        country: None,
        downloaded: None,
        uploaded: None,
        dl_speed: None,
        up_speed: None,
        progress_e4: None,
        client: None,
    }]);
    let next = app.update(Message::TorrentPeers, ApiOutcome::Peers(None));
    let peers = app.torrent_peers.as_ref().expect("stale peer list kept");
    assert_eq!(peers.len(), 1);
    assert_eq!(peers[0].addr, "10.0.0.1:6881");
    assert_eq!(next, None);
}

#[test]
fn refresh_request_is_always_planned() {
    let app = App::new();
    assert!(matches!(
        app.update_request(&Message::RefreshTorrents),
        Ok(Some(ApiRequest::FetchTorrents))
    ));
    assert!(matches!(app.update_request(&Message::SaveCfg), Ok(Some(ApiRequest::StoreConfig))));
    assert_eq!(app.update_request(&Message::Quit), Ok(None));
    assert_eq!(app.update_request(&Message::DisplayTorrentInfo), Ok(None));
}

#[test]
fn successful_add_chains_into_closing_the_popup() {
    let mut app = App::new();
    app.magnet_link = chars("magnet:?xt");
    let next = app.update(Message::AddTorrentMagnet, ApiOutcome::Added(true));
    assert_eq!(next, Some(Message::DisplayAddTorrent));
}

#[test]
fn failed_add_chains_into_a_refresh() {
    let mut app = App::new();
    app.magnet_link = chars("magnet:?xt");
    let next = app.update(Message::AddTorrentMagnet, ApiOutcome::Added(false));
    assert_eq!(next, Some(Message::RefreshTorrents));
}

#[test]
fn opening_the_add_torrent_popup_resets_the_magnet_scratch() {
    let mut app = App::new();
    app.magnet_link = chars("left over");
    app.charcter_index = 9;
    let next = app.update(Message::DisplayAddTorrent, ApiOutcome::NoCall);
    assert!(app.add_torrent_popup);
    assert!(matches!(app.input_mode, InputMode::AddTorrent));
    assert_eq!(app.magnet_link, chars(""));
    assert_eq!(app.charcter_index, 0);
    assert_eq!(next, Some(Message::RefreshTorrents));
}

#[test]
fn opening_the_config_editor_loads_the_committed_record() {
    let mut app = App::new();
    app.cfg.api_url = chars("http://srv:9090");
    app.cfg.username = chars("root");
    app.cfg.password = chars("pw");
    app.input.username = chars("draft");
    app.current_input = CurentInput::Password;
    let next = app.update(Message::DisplayCfgEditor, ApiOutcome::NoCall);
    assert!(app.cfg_popup);
    assert!(matches!(app.input_mode, InputMode::Config));
    assert!(matches!(app.current_input, CurentInput::ApiUrl));
    assert_eq!(app.input.api_url, chars("http://srv:9090"));
    assert_eq!(app.input.username, chars("root"));
    assert_eq!(app.input.password, chars("pw"));
    assert_eq!(app.charcter_index, "http://srv:9090".chars().count());
    assert_eq!(next, Some(Message::RefreshTorrents));
}

#[test]
fn quit_stops_the_loop() {
    let mut app = App::new();
    app.running = true;
    let next = app.update(Message::Quit, ApiOutcome::NoCall);
    assert!(!app.running);
    assert_eq!(next, None);
}

#[test]
fn toggling_the_info_popup_chains_nothing() {
    let mut app = App::new();
    let next = app.update(Message::DisplayTorrentInfo, ApiOutcome::NoCall);
    assert!(app.torrent_popup);
    assert_eq!(next, None);
}

#[test]
fn refresh_with_info_popup_open_chains_the_active_detail_fetch() {
    let mut app = App::new();
    app.torrent_popup = true;
    app.info_tab = SelectedInfoTab::Peers;
    let next = app.update(
        Message::RefreshTorrents,
        ApiOutcome::Torrents(Some(vec![TorrentEntry::new(String::from("h"))])),
    );
    assert_eq!(next, Some(Message::TorrentPeers));
}

#[test]
fn every_chain_drains_within_the_documented_bound() {
    for start in [
        Message::RefreshTorrents,
        Message::TorrentFiles,
        Message::TorrentTrackers,
        Message::TorrentPeers,
        Message::DisplayTorrentInfo,
        Message::DisplayAddTorrent,
        Message::AddTorrentMagnet,
        Message::AddTorrentFile,
        Message::DisplayCfgEditor,
        Message::SaveCfg,
        Message::Quit,
    ] {
        let mut app = App::new();
        app.torrent_popup = true;
        app.info_tab = SelectedInfoTab::Files;
        app.magnet_link = chars("magnet:?xt");
        app.torrent_file_path = String::from("a.torrent");
        let mut seen = vec![start];
        let mut msg = Some(start);
        let mut steps = 0;
        while let Some(m) = msg {
            assert!(steps <= 4, "chain from {:?} did not terminate", start);
            msg = match app.update_request(&m) {
                Ok(None) => app.update(m, ApiOutcome::NoCall),
                Ok(Some(req)) => {
                    let outcome = match req {
                        ApiRequest::FetchTorrents => ApiOutcome::Torrents(None),
                        ApiRequest::FetchFiles { .. } => ApiOutcome::Files(None),
                        ApiRequest::FetchTrackers { .. } => ApiOutcome::Trackers(None),
                        ApiRequest::FetchPeers { .. } => ApiOutcome::Peers(None),
                        ApiRequest::AddMagnet { .. } | ApiRequest::AddFile { .. } => {
                            ApiOutcome::Added(false)
                        },
                        ApiRequest::StoreConfig => ApiOutcome::Stored(false),
                    };
                    app.update(m, outcome)
                },
                Err(_) => None,
            };
            if let Some(m2) = msg {
                assert!(!seen.contains(&m2), "chain from {:?} revisited {:?}", start, m2);
                seen.push(m2);
            }
            steps += 1;
        }
        assert!(steps <= 4);
    }
}
