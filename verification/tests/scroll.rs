use qbtui::enums::ScrollContext;
use qbtui::model::TorrentEntry;
use qbtui::signals::{ApiOutcome, Message};
use qbtui::App;

fn torrents(n: usize) -> Vec<TorrentEntry> {
    (0..n).map(|i| TorrentEntry::new(format!("hash{}", i))).collect()
}

fn app_with_torrents(n: usize) -> App {
    let mut app = App::new();
    app.torrents = torrents(n);
    app
}

#[test]
fn next_wraps_and_cycles_back_to_start() {
    let n = 4;
    let mut app = app_with_torrents(n);
    app.state.select(Some(2));
    for _ in 0..n {
        app.scroll_down();
    }
    assert_eq!(app.state.selected(), Some(2));
}

#[test]
fn previous_wraps_and_cycles_back_to_start() {
    let n = 5;
    let mut app = app_with_torrents(n);
    app.state.select(Some(1));
    for _ in 0..n {
        app.scroll_up();
    }
    assert_eq!(app.state.selected(), Some(1));
}

#[test]
fn next_past_last_selects_first() {
    let mut app = app_with_torrents(3);
    app.state.select(Some(2));
    app.scroll_down();
    assert_eq!(app.state.selected(), Some(0));
    assert_eq!(app.scroll_state.position, 0);
}

#[test]
fn previous_past_first_selects_last() {
    let mut app = app_with_torrents(3);
    app.state.select(Some(0));
    app.scroll_up();
    assert_eq!(app.state.selected(), Some(2));
    assert_eq!(app.scroll_state.position, 2);
}

#[test]
fn movement_from_no_selection_selects_first() {
    let mut app = app_with_torrents(3);
    app.scroll_down();
    assert_eq!(app.state.selected(), Some(0));
    let mut app = app_with_torrents(3);
    app.scroll_up();
    assert_eq!(app.state.selected(), Some(0));
}

#[test]
fn empty_collection_movement_is_a_no_op() {
    let mut app = App::new();
    assert_eq!(app.state.selected(), None);
    app.scroll_down();
    assert_eq!(app.state.selected(), None);
    app.scroll_up();
    assert_eq!(app.state.selected(), None);
}

#[test]
fn empty_info_tab_movement_is_a_no_op() {
    let mut app = App::new();
    app.scroll_context = ScrollContext::InfoTab;
    app.info_tab = qbtui::enums::SelectedInfoTab::Files;
    app.scroll_down();
    assert_eq!(app.info_tab_state.selected(), None);
    app.scroll_up();
    assert_eq!(app.info_tab_state.selected(), None);
}

#[test]
fn info_tab_scrollbar_hands_scroll_keys_to_the_sublist() {
    let mut app = App::new();
    app.info_tab_scrollbar(20, 11);
    assert!(matches!(app.scroll_context, ScrollContext::InfoTab));
    assert_eq!(app.info_tab_scroll_state.content_length, 20);
    assert_eq!(app.info_tab_scroll_state.viewport_content_length, 11);
}

#[test]
fn shrinking_snapshot_clamps_selection_to_last_entry() {
    let mut app = app_with_torrents(5);
    app.state.select(Some(4));
    let next = app.update(
        Message::RefreshTorrents,
        ApiOutcome::Torrents(Some(torrents(3))),
    );
    assert_eq!(app.torrents.len(), 3);
    assert_eq!(app.state.selected(), Some(2));
    assert_eq!(next, None);
}

#[test]
fn emptied_snapshot_drops_the_selection() {
    let mut app = app_with_torrents(2);
    app.state.select(Some(1));
    app.update(Message::RefreshTorrents, ApiOutcome::Torrents(Some(Vec::new())));
    assert_eq!(app.state.selected(), None);
}

#[test]
fn failed_refresh_keeps_the_stale_snapshot() {
    let mut app = app_with_torrents(2);
    app.state.select(Some(1));
    let next = app.update(Message::RefreshTorrents, ApiOutcome::Torrents(None));
    assert_eq!(app.torrents.len(), 2);
    assert_eq!(app.torrents[0].hash, "hash0");
    assert_eq!(app.state.selected(), Some(1));
    assert_eq!(next, None);
}

#[test]
fn scrolling_the_table_with_info_popup_open_chains_a_detail_fetch() {
    let mut app = app_with_torrents(3);
    app.torrent_popup = true;
    app.info_tab = qbtui::enums::SelectedInfoTab::Trackers;
    let msg = app.scroll_down();
    assert_eq!(msg, Some(Message::TorrentTrackers));
}
