use qbtui::model::{Priority, State, TrackerStatus};
use qbtui::App;

#[test]
fn format_seconds_spells_out_every_component() {
    let app = App::new();
    assert_eq!(app.format_seconds(694861), "1W:1D:1H:1M:1S");
    assert_eq!(app.format_seconds(90061), "1D:1H:1M:1S");
    assert_eq!(app.format_seconds(3725), "1H:2M:5S");
    assert_eq!(app.format_seconds(59), "59S");
    assert_eq!(app.format_seconds(604805), "1W:5S");
}

#[test]
fn format_seconds_renders_zero_for_the_completed_sentinel() {
    let app = App::new();
    assert_eq!(app.format_seconds(8640000), "0");
}

#[test]
fn format_seconds_renders_zero_for_nothing_elapsed() {
    let app = App::new();
    assert_eq!(app.format_seconds(0), "0");
    assert_eq!(app.format_seconds(-5), "0");
    assert_eq!(app.format_seconds(i64::MIN), "0");
}

#[test]
fn format_seconds_drops_empty_middle_components() {
    let app = App::new();
    assert_eq!(app.format_seconds(604800), "1W");
    assert_eq!(app.format_seconds(86400 + 60), "1D:1M");
    assert_eq!(app.format_seconds(3600 * 25), "1D:1H");
}

#[test]
fn torrent_states_render_as_their_labels() {
    let app = App::new();
    assert_eq!(app.get_torrent_state(Some(State::Error)), "Error");
    assert_eq!(app.get_torrent_state(Some(State::MissingFiles)), "Missing Files");
    assert_eq!(app.get_torrent_state(Some(State::Uploading)), "Seeding");
    assert_eq!(app.get_torrent_state(Some(State::StalledUP)), "Seeding");
    assert_eq!(app.get_torrent_state(Some(State::ForcedUP)), "Seeding");
    assert_eq!(app.get_torrent_state(Some(State::CheckingUP)), "Checking");
    assert_eq!(app.get_torrent_state(Some(State::CheckingDL)), "Checking");
    assert_eq!(app.get_torrent_state(Some(State::CheckingResumeData)), "Checking");
    assert_eq!(app.get_torrent_state(Some(State::PausedUP)), "Completed");
    assert_eq!(app.get_torrent_state(Some(State::QueuedUP)), "Queued");
    assert_eq!(app.get_torrent_state(Some(State::Allocating)), "Allocating");
    assert_eq!(app.get_torrent_state(Some(State::Downloading)), "Downloading");
    assert_eq!(app.get_torrent_state(Some(State::MetaDL)), "Downloading");
    assert_eq!(app.get_torrent_state(Some(State::ForcedDL)), "Downloading");
    assert_eq!(app.get_torrent_state(Some(State::PausedDL)), "Paused");
    assert_eq!(app.get_torrent_state(Some(State::StalledDL)), "Stalled");
    assert_eq!(app.get_torrent_state(Some(State::Moving)), "Moving");
    assert_eq!(app.get_torrent_state(Some(State::Unknown)), "Unknown");
    assert_eq!(app.get_torrent_state(Some(State::QueuedDL)), "Very Unknown");
    assert_eq!(app.get_torrent_state(None), "Very Unknown");
}

#[test]
fn tracker_statuses_render_as_their_labels() {
    let app = App::new();
    assert_eq!(app.get_tracker_status(TrackerStatus::Disabled), "Disabled");
    assert_eq!(app.get_tracker_status(TrackerStatus::NotContacted), "Not Contacted");
    assert_eq!(app.get_tracker_status(TrackerStatus::Working), "Working");
    assert_eq!(app.get_tracker_status(TrackerStatus::Updating), "Updating");
    assert_eq!(app.get_tracker_status(TrackerStatus::NotWorking), "Not Working");
}

#[test]
fn priorities_render_as_their_labels() {
    let app = App::new();
    assert_eq!(app.format_priority(Priority::DoNotDownload), "Do Not Download");
    assert_eq!(app.format_priority(Priority::Normal), "Normal");
    assert_eq!(app.format_priority(Priority::Mixed), "Medium");
    assert_eq!(app.format_priority(Priority::High), "High");
    assert_eq!(app.format_priority(Priority::Maximal), "Max");
}

#[test]
fn timestamps_render_as_utc_date_and_time() {
    let app = App::new();
    assert_eq!(app.timestamp_human_readable(Some(0)), "1970-01-01 00:00:00");
    assert_eq!(app.timestamp_human_readable(Some(1700000000)), "2023-11-14 22:13:20");
}

#[test]
fn absent_and_unrepresentable_timestamps_get_placeholders() {
    let app = App::new();
    assert_eq!(app.timestamp_human_readable(None), "N/A");
    assert_eq!(app.timestamp_human_readable(Some(i64::MAX)), "Invalid timestamp");
}
