use mp3cd::burn::BurnStage;
use mp3cd::folder::{AudioFileInfo, FolderId, FolderKind};
use mp3cd::input::KeyPress;
use mp3cd::status_bar::{
    burn_button_text, get_stage_color, is_stage_cancelable, ActionPanel, BitrateEstimate,
    ProgressDisplay, StageColor, StatusBarState,
};
use mp3cd::track_editor::{DraggedTrack, TrackEditorUpdate, TrackEditorWindow, TrackEntry, TrackKeyOutcome};
use mp3cd::folder::DraggedFolder;

fn file(path: &str, duration_ms: u64) -> AudioFileInfo {
    AudioFileInfo {
        path: path.to_string(),
        duration_ms,
        bitrate: 320,
        size: 1000,
        codec: "mp3".to_string(),
        is_lossy: true,
    }
}

fn entry(path: &str, duration_ms: u64, included: bool) -> TrackEntry {
    TrackEntry { file_info: file(path, duration_ms), album_art: None, included }
}

fn album_editor() -> TrackEditorWindow {
    TrackEditorWindow::new(
        FolderId("album-1".to_string()),
        FolderKind::Album,
        "Album".to_string(),
        vec![entry("/m/01 Intro.flac", 1000, true), entry("/m/02 Song.flac", 2000, true), entry("/m/03 Outro.flac", 4000, false)],
        None,
    )
}

fn status() -> StatusBarState {
    StatusBarState {
        total_files: 0,
        total_size: 0,
        bitrate_estimate: None,
        has_folders: true,
        is_importing: false,
        import_progress: (0, 0),
        is_converting: false,
        conversion_progress: (0, 0, 0),
        burn_stage: BurnStage::Converting,
        burn_progress: -1,
        is_cancelled: false,
        can_burn_another: false,
        iso_exceeds_limit: false,
        iso_size_bytes: None,
        iso_has_been_burned: false,
        is_manual_override: false,
        effective_bitrate: 0,
        is_bitrate_preliminary: false,
    }
}

#[test]
fn test_dragged_folder_creation() {
    let path = "/Users/test/Music/Album".to_string();
    let dragged = DraggedFolder::new(0, path.clone(), None, 10, 50_000_000);

    assert_eq!(dragged.index, 0);
    assert_eq!(dragged.path, path);
    assert_eq!(dragged.file_count, 10);
    assert_eq!(dragged.total_size, 50_000_000);
}

#[test]
fn test_dragged_track_creation() {
    let dragged = DraggedTrack::new(0, "Test Track".to_string(), "Mixtape Editor".to_string());
    assert_eq!(dragged.index, 0);
    assert_eq!(dragged.name, "Test Track");
    assert_eq!(dragged.source_window_title, "Mixtape Editor");
}

#[test]
fn dragged_track_preview_only_in_its_window() {
    let dragged = DraggedTrack::new(1, "Track".to_string(), "Test Window".to_string());
    assert!(dragged.renders_in("Test Window"));
    assert!(!dragged.renders_in("Other Window"));
}

#[test]
fn fresh_editor_has_no_changes() {
    let w = album_editor();
    assert!(!w.has_changes());
    assert_eq!(w.track_order, vec![0, 1, 2]);
    assert_eq!(w.included_count(), 2);
    assert_eq!(w.included_duration_ms(), 3000);
    assert_eq!(w.track_display_name(&w.tracks[0]), "01 Intro");
}

#[test]
fn toggling_twice_leaves_no_changes() {
    let mut w = album_editor();
    w.toggle_track(2);
    assert!(w.has_changes());
    assert_eq!(w.included_count(), 3);
    w.toggle_track(2);
    assert!(!w.has_changes());
    w.toggle_track(9);
    assert!(!w.has_changes());
}

#[test]
fn moving_and_resetting_the_order() {
    let mut w = album_editor();
    w.move_track(0, 2);
    assert_eq!(w.track_order, vec![1, 2, 0]);
    assert!(w.has_changes());
    w.move_track(2, 0);
    assert_eq!(w.track_order, vec![0, 1, 2]);
    w.move_track(0, 1);
    w.reset_order();
    assert_eq!(w.track_order, vec![0, 1, 2]);
    assert!(!w.has_changes());
    w.move_track(1, 1);
    w.move_track(5, 0);
    assert_eq!(w.track_order, vec![0, 1, 2]);
}

#[test]
fn applying_reports_each_change_then_closes() {
    let mut w = album_editor();
    let only_close = w.apply_and_close();
    assert_eq!(only_close.len(), 1);
    assert!(matches!(only_close[0], TrackEditorUpdate::Closed { .. }));
    w.move_track(0, 1);
    w.toggle_track(0);
    let updates = w.apply_and_close();
    assert_eq!(updates.len(), 3);
    match &updates[0] {
        TrackEditorUpdate::OrderChanged { order, .. } => assert_eq!(order, &vec![1, 0, 2]),
        _ => panic!("order first"),
    }
    match &updates[1] {
        TrackEditorUpdate::ExclusionsChanged { excluded, .. } => {
            assert_eq!(excluded, &vec!["/m/01 Intro.flac".to_string(), "/m/03 Outro.flac".to_string()])
        }
        _ => panic!("exclusions second"),
    }
    assert!(matches!(updates[2], TrackEditorUpdate::Closed { .. }));
    assert!(matches!(w.cancel(), TrackEditorUpdate::Closed { .. }));
}

#[test]
fn mixtape_name_editing() {
    let mut w = TrackEditorWindow::new(
        FolderId("tape".to_string()),
        FolderKind::Mixtape { name: "My Mixtape".to_string() },
        "My Mixtape".to_string(),
        Vec::new(),
        None,
    );
    let key = |k: &str, c: Option<&str>| KeyPress { key: k.to_string(), key_char: c.map(|s| s.to_string()) };
    assert_eq!(w.handle_key(&key("a", Some("a"))), TrackKeyOutcome::Ignored);
    w.editing_name = true;
    assert_eq!(w.handle_key(&key("backspace", None)), TrackKeyOutcome::Handled);
    assert_eq!(w.name, "My Mixtap");
    w.handle_key(&key("e", Some("e!")));
    assert_eq!(w.name, "My Mixtape!");
    assert_eq!(w.handle_key(&key("enter", None)), TrackKeyOutcome::Handled);
    assert!(!w.editing_name);
    assert_eq!(w.handle_key(&key("escape", None)), TrackKeyOutcome::Cancel);
    assert!(w.has_changes());
}

#[test]
fn mixtape_tracks_added_and_removed() {
    let mut w = TrackEditorWindow::new(
        FolderId("tape".to_string()),
        FolderKind::Mixtape { name: "T".to_string() },
        "T".to_string(),
        Vec::new(),
        None,
    );
    assert!(w.add_track(file("/a.mp3", 10), None));
    assert!(w.add_track(file("/b.mp3", 20), Some("/art.jpg".to_string())));
    assert!(!w.add_track(file("/a.mp3", 10), None));
    match w.finish_adding_tracks() {
        TrackEditorUpdate::TracksChanged { tracks, album_arts, .. } => {
            assert_eq!(tracks.len(), 2);
            assert_eq!(album_arts, vec![None, Some("/art.jpg".to_string())]);
        }
        _ => panic!("tracks update"),
    }
    assert_eq!(w.track_order, vec![0, 1]);
    assert!(w.remove_track(7).is_none());
    match w.remove_track(0) {
        Some(TrackEditorUpdate::TracksChanged { tracks, .. }) => assert_eq!(tracks[0].path, "/b.mp3"),
        _ => panic!("tracks update"),
    }
    assert_eq!(w.track_order, vec![0]);
}

#[test]
fn status_bar_bitrate_and_panels() {
    let mut s = status();
    assert_eq!(s.bitrate_display(), "--");
    s.bitrate_estimate = Some(BitrateEstimate { target_bitrate: 285, show_bitrate: true });
    assert_eq!(s.bitrate_display(), "285 kbps");
    s.bitrate_estimate = Some(BitrateEstimate { target_bitrate: 285, show_bitrate: false });
    assert_eq!(s.bitrate_display(), "--");
    s.is_manual_override = true;
    s.effective_bitrate = 192;
    assert_eq!(s.bitrate_display(), "192 kbps*");
    s.is_manual_override = false;
    assert_eq!(s.action_panel(), ActionPanel::ConvertBurnButton);
    s.can_burn_another = true;
    assert_eq!(s.action_panel(), ActionPanel::BurnButton);
    s.iso_exceeds_limit = true;
    assert_eq!(s.action_panel(), ActionPanel::IsoTooLarge);
    s.is_converting = true;
    assert_eq!(s.action_panel(), ActionPanel::ConversionProgress);
    s.is_importing = true;
    s.import_progress = (3, 8);
    assert_eq!(s.action_panel(), ActionPanel::ImportProgress);
    assert_eq!(s.import_progress_text(), "3/8");
    assert_eq!(s.import_fraction(), (3, 8));
    assert_eq!(burn_button_text(false), "Burn");
    assert_eq!(burn_button_text(true), "Burn\nAnother");
}

#[test]
fn progress_box_per_stage() {
    let mut s = status();
    s.is_converting = true;
    s.conversion_progress = (4, 1, 10);
    let d = ProgressDisplay::from_state(&s);
    assert_eq!((d.fraction_num, d.fraction_den), (5, 10));
    assert_eq!(d.text, "5/10");
    assert_eq!(d.stage_text, "Converting...");
    s.burn_stage = BurnStage::Burning;
    s.burn_progress = 37;
    let d = ProgressDisplay::from_state(&s);
    assert_eq!((d.fraction_num, d.fraction_den), (37, 100));
    assert_eq!(d.text, "37%");
    s.burn_stage = BurnStage::Complete;
    let d = ProgressDisplay::from_state(&s);
    assert_eq!(d.text, "✓");
    assert_eq!(get_stage_color(&s), StageColor::Success);
    s.burn_stage = BurnStage::Burning;
    s.is_cancelled = true;
    assert_eq!(s.progress_label(), "Cancelling...");
    s.burn_stage = BurnStage::ErasableDiscDetected;
    assert!(s.shows_cd_rw());
    assert!(!s.shows_progress_box());
    assert!(is_stage_cancelable(&status()));
}

#[test]
fn editor_titles_and_summary() {
    assert_eq!(TrackEditorWindow::window_title(&FolderKind::Album, "Abbey Road"), "Abbey Road - Track Editor");
    assert_eq!(
        TrackEditorWindow::window_title(&FolderKind::Mixtape { name: "T".to_string() }, "T"),
        "Mixtape Editor"
    );
    let mut w = album_editor();
    assert_eq!(w.summary_line("0:03"), "2 of 3 tracks, 0:03");
    w.set_all_included(true);
    assert_eq!(w.included_count(), 3);
    assert_eq!(w.summary_line("0:07"), "3 tracks, 0:07");
    assert!(w.has_changes());
    w.set_all_included(false);
    assert_eq!(w.included_count(), 0);
    assert_eq!(w.included_duration_ms(), 0);
    assert_eq!(w.summary_line("0:00"), "0 of 3 tracks, 0:00");
}

#[test]
fn progress_box_outside_conversion_ignores_the_file_counts() {
    let mut s = status();
    s.conversion_progress = (usize::MAX, usize::MAX, 1);
    s.burn_stage = BurnStage::Cancelled;
    let d = ProgressDisplay::from_state(&s);
    assert_eq!((d.fraction_num, d.fraction_den), (0, 1));
    assert_eq!(d.text, "");
    assert_eq!(d.stage_text, "Cancelled");
    s.burn_stage = BurnStage::WaitingForCd;
    let d = ProgressDisplay::from_state(&s);
    assert_eq!((d.fraction_num, d.fraction_den), (1, 1));
    assert_eq!(d.stage_text, "Insert blank CD");
}

#[test]
fn drops_onto_the_editor() {
    let mut album = album_editor();
    assert!(album.finish_external_drop(2).is_none());
    let mut w = TrackEditorWindow::new(
        FolderId("tape".to_string()),
        FolderKind::Mixtape { name: "T".to_string() },
        "T".to_string(),
        Vec::new(),
        None,
    );
    assert!(w.finish_external_drop(0).is_none());
    w.add_track(file("/a.mp3", 1), None);
    match w.finish_external_drop(1) {
        Some(TrackEditorUpdate::TracksChanged { tracks, .. }) => assert_eq!(tracks.len(), 1),
        _ => panic!("tracks update"),
    }
    assert_eq!(w.track_order, vec![0]);
}
