use qbtui::enums::{SelectedAddTorrentTab, SelectedInfoTab};
use qbtui::input::InputMode;
use qbtui::signals::Message;
use qbtui::App;

#[test]
fn info_tab_cycles_forward_through_all_four_tabs() {
    let mut tab = SelectedInfoTab::Details;
    assert_eq!(tab.next(), Some(Message::TorrentFiles));
    assert_eq!(tab, SelectedInfoTab::Files);
    assert_eq!(tab.next(), Some(Message::TorrentTrackers));
    assert_eq!(tab, SelectedInfoTab::Trackers);
    assert_eq!(tab.next(), Some(Message::TorrentPeers));
    assert_eq!(tab, SelectedInfoTab::Peers);
    assert_eq!(tab.next(), None);
    assert_eq!(tab, SelectedInfoTab::Details);
}

#[test]
fn info_tab_cycles_backward_through_all_four_tabs() {
    let mut tab = SelectedInfoTab::Details;
    assert_eq!(tab.previous(), Some(Message::TorrentPeers));
    assert_eq!(tab, SelectedInfoTab::Peers);
    assert_eq!(tab.previous(), Some(Message::TorrentTrackers));
    assert_eq!(tab, SelectedInfoTab::Trackers);
    assert_eq!(tab.previous(), Some(Message::TorrentFiles));
    assert_eq!(tab, SelectedInfoTab::Files);
    assert_eq!(tab.previous(), None);
    assert_eq!(tab, SelectedInfoTab::Details);
}

#[test]
fn update_selected_names_the_fetch_for_each_tab() {
    assert_eq!(SelectedInfoTab::Details.update_selected(), None);
    assert_eq!(SelectedInfoTab::Files.update_selected(), Some(Message::TorrentFiles));
    assert_eq!(SelectedInfoTab::Trackers.update_selected(), Some(Message::TorrentTrackers));
    assert_eq!(SelectedInfoTab::Peers.update_selected(), Some(Message::TorrentPeers));
}

#[test]
fn info_tab_index_round_trips() {
    for i in 0..4 {
        assert_eq!(SelectedInfoTab::from_index(i).to_index(), i);
    }
}

#[test]
fn switching_the_info_tab_resets_the_sublist_selection() {
    let mut app = App::new();
    app.info_tab_state.select(Some(7));
    app.next_column();
    assert_eq!(app.info_tab_state.selected(), None);
    assert_eq!(app.info_tab, SelectedInfoTab::Files);

    app.info_tab_state.select(Some(3));
    app.previous_column();
    assert_eq!(app.info_tab_state.selected(), None);
    assert_eq!(app.info_tab, SelectedInfoTab::Details);
}

#[test]
fn add_torrent_tab_toggles_between_its_two_tabs() {
    let mut tab = SelectedAddTorrentTab::MagnetLink;
    tab.toggle();
    assert_eq!(tab, SelectedAddTorrentTab::File);
    tab.toggle();
    assert_eq!(tab, SelectedAddTorrentTab::MagnetLink);
}

#[test]
fn mode_toggles_move_between_normal_and_each_editor() {
    let mut mode = InputMode::Normal;
    mode.toggle_config();
    assert_eq!(mode, InputMode::Config);
    mode.toggle_config();
    assert_eq!(mode, InputMode::Normal);
    mode.toggle_add_torrent();
    assert_eq!(mode, InputMode::AddTorrent);
    mode.toggle_config();
    assert_eq!(mode, InputMode::AddTorrent);
    mode.toggle_add_torrent();
    assert_eq!(mode, InputMode::Normal);
}

#[test]
fn info_popup_closes_when_the_snapshot_is_empty() {
    let mut app = App::new();
    app.torrent_popup = true;
    app.prepare_frame();
    assert!(!app.torrent_popup);

    let mut app = App::new();
    app.torrents = vec![qbtui::model::TorrentEntry::new(String::from("h"))];
    app.torrent_popup = true;
    app.cfg.password = "x".chars().collect();
    app.prepare_frame();
    assert!(app.torrent_popup);
    assert_eq!(app.scroll_state.content_length, 1);
    assert_eq!(app.scroll_state.viewport_content_length, qbtui::TABLE_ITEM_HEIGHT);
}
