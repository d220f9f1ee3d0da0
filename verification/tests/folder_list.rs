use mp3cd::burn::ConversionState;
use mp3cd::folder::{FolderConversionStatus, FolderId, FolderKind, MusicFolder};
use mp3cd::folder_list::FolderList;
use mp3cd::status_bar::BitrateEstimate;
use mp3cd::bitrate_override::BitrateChoice;

/// A scanned album of ten files, 50 MB and 40 minutes, as the tests use.
fn test_folder(path: &str) -> MusicFolder {
    MusicFolder {
        id: FolderId(path.to_string()),
        path: path.to_string(),
        kind: FolderKind::Album,
        file_count: 10,
        total_size: 50_000_000,
        total_duration_ms: 2_400_000,
        album_name: None,
        artist_name: None,
        year: None,
        album_art: None,
        audio_files: Vec::new(),
        excluded_tracks: Vec::new(),
        track_order: None,
        conversion_status: FolderConversionStatus::NotConverted,
        source_available: true,
    }
}

fn paths(list: &FolderList) -> Vec<String> {
    list.folders.iter().map(|f| f.path.clone()).collect()
}

#[test]
fn folder_list_test_folder_list_new() {
    let list = FolderList::new_for_test();
    assert!(list.is_empty());
    assert_eq!(list.len(), 0);
}

#[test]
fn folder_list_test_add_folder() {
    let mut list = FolderList::new_for_test();
    list.folders.push(test_folder("/test/folder1"));
    list.folders.push(test_folder("/test/folder2"));

    assert_eq!(list.len(), 2);
}

#[test]
fn folder_list_test_remove_folder() {
    let mut list = FolderList::new_for_test();
    list.folders.push(test_folder("/test/folder1"));
    list.folders.push(test_folder("/test/folder2"));

    list.remove_folder(0, 0);

    assert_eq!(list.len(), 1);
    assert_eq!(list.folders[0].path, "/test/folder2");
}

#[test]
fn folder_list_test_move_folder_forward() {
    let mut list = FolderList::new_for_test();
    list.folders.push(test_folder("/test/a"));
    list.folders.push(test_folder("/test/b"));
    list.folders.push(test_folder("/test/c"));

    list.move_folder(0, 2);

    assert_eq!(list.folders[0].path, "/test/b");
    assert_eq!(list.folders[1].path, "/test/a");
    assert_eq!(list.folders[2].path, "/test/c");
}

#[test]
fn folder_list_test_move_folder_backward() {
    let mut list = FolderList::new_for_test();
    list.folders.push(test_folder("/test/a"));
    list.folders.push(test_folder("/test/b"));
    list.folders.push(test_folder("/test/c"));

    list.move_folder(2, 0);

    assert_eq!(list.folders[0].path, "/test/c");
    assert_eq!(list.folders[1].path, "/test/a");
    assert_eq!(list.folders[2].path, "/test/b");
}

#[test]
fn folder_list_test_clear() {
    let mut list = FolderList::new_for_test();
    list.folders.push(test_folder("/test/folder1"));
    list.folders.push(test_folder("/test/folder2"));

    list.clear();

    assert!(list.is_empty());
}

#[test]
fn folder_list_test_total_files() {
    let mut list = FolderList::new_for_test();
    list.folders.push(test_folder("/test/folder1"));
    list.folders.push(test_folder("/test/folder2"));

    assert_eq!(list.total_files(), 20);
}

#[test]
fn folder_list_test_total_size() {
    let mut list = FolderList::new_for_test();
    list.folders.push(test_folder("/test/folder1"));
    list.folders.push(test_folder("/test/folder2"));

    assert_eq!(list.total_size(), 100_000_000);
}

#[test]
fn tests_test_folder_list_new() {
    let list = FolderList::new_for_test();
    assert!(list.is_empty());
    assert_eq!(list.len(), 0);
}

#[test]
fn tests_test_add_folder() {
    let mut list = FolderList::new_for_test();
    list.folders.push(test_folder("/test/folder1"));
    list.folders.push(test_folder("/test/folder2"));

    assert_eq!(list.len(), 2);
}

#[test]
fn tests_test_remove_folder() {
    let mut list = FolderList::new_for_test();
    list.folders.push(test_folder("/test/folder1"));
    list.folders.push(test_folder("/test/folder2"));

    list.remove_folder(0, 0);

    assert_eq!(list.len(), 1);
    assert_eq!(list.folders[0].path, "/test/folder2");
}

#[test]
fn tests_test_move_folder_forward() {
    let mut list = FolderList::new_for_test();
    list.folders.push(test_folder("/test/a"));
    list.folders.push(test_folder("/test/b"));
    list.folders.push(test_folder("/test/c"));

    list.move_folder(0, 2);

    assert_eq!(list.folders[0].path, "/test/b");
    assert_eq!(list.folders[1].path, "/test/a");
    assert_eq!(list.folders[2].path, "/test/c");
}

#[test]
fn tests_test_move_folder_backward() {
    let mut list = FolderList::new_for_test();
    list.folders.push(test_folder("/test/a"));
    list.folders.push(test_folder("/test/b"));
    list.folders.push(test_folder("/test/c"));

    list.move_folder(2, 0);

    assert_eq!(list.folders[0].path, "/test/c");
    assert_eq!(list.folders[1].path, "/test/a");
    assert_eq!(list.folders[2].path, "/test/b");
}

#[test]
fn tests_test_clear() {
    let mut list = FolderList::new_for_test();
    list.folders.push(test_folder("/test/folder1"));
    list.folders.push(test_folder("/test/folder2"));

    list.clear();

    assert!(list.is_empty());
}

#[test]
fn tests_test_total_files() {
    let mut list = FolderList::new_for_test();
    list.folders.push(test_folder("/test/folder1"));
    list.folders.push(test_folder("/test/folder2"));

    assert_eq!(list.total_files(), 20);
}

#[test]
fn tests_test_total_size() {
    let mut list = FolderList::new_for_test();
    list.folders.push(test_folder("/test/folder1"));
    list.folders.push(test_folder("/test/folder2"));

    assert_eq!(list.total_size(), 100_000_000);
}

#[test]
fn add_folder_rejects_a_path_already_listed() {
    let mut list = FolderList::new();
    assert_eq!(list.add_folder(test_folder("/music/a"), 1_000), Some(0));
    assert_eq!(list.add_folder(test_folder("/music/b"), 2_000), Some(1));
    assert_eq!(list.add_folder(test_folder("/music/a"), 3_000), None);
    assert_eq!(list.len(), 2);
    assert_eq!(list.last_folder_change, Some(2_000));
    assert!(list.has_unsaved_changes);
    assert!(list.contains_path(&"/music/b".to_string()));
    assert!(!list.contains_path(&"/music/c".to_string()));
}

#[test]
fn remove_folder_out_of_range_changes_nothing() {
    let mut list = FolderList::new();
    list.add_folder(test_folder("/music/a"), 0);
    assert!(list.remove_folder(5, 10).is_none());
    assert_eq!(list.len(), 1);
    let removed = list.remove_folder(0, 10).unwrap();
    assert_eq!(removed.0, "/music/a");
    assert!(list.is_empty());
}

#[test]
fn move_folder_to_the_end_and_refused_moves() {
    let mut list = FolderList::new();
    for p in ["/a", "/b", "/c"] {
        list.add_folder(test_folder(p), 0);
    }
    assert!(list.move_folder(0, 3));
    assert_eq!(paths(&list), vec!["/b", "/c", "/a"]);
    assert!(!list.move_folder(1, 1));
    assert!(!list.move_folder(3, 0));
    assert!(!list.move_folder(0, 4));
    assert_eq!(paths(&list), vec!["/b", "/c", "/a"]);
}

#[test]
fn moving_keeps_the_totals() {
    let mut list = FolderList::new();
    let mut big = test_folder("/big");
    big.file_count = 7;
    big.total_size = 1_000;
    big.total_duration_ms = 60_000;
    list.add_folder(test_folder("/a"), 0);
    list.add_folder(big, 0);
    list.add_folder(test_folder("/c"), 0);
    let before = (list.total_files(), list.total_size(), list.total_duration_ms());
    assert_eq!(before, (27, 100_001_000, 4_860_000));
    list.move_folder(1, 0);
    assert_eq!(paths(&list), vec!["/big", "/a", "/c"]);
    assert_eq!((list.total_files(), list.total_size(), list.total_duration_ms()), before);
}

#[test]
fn removal_subtracts_the_removed_folder() {
    let mut list = FolderList::new();
    list.add_folder(test_folder("/a"), 0);
    let mut small = test_folder("/b");
    small.file_count = 3;
    small.total_size = 42;
    list.add_folder(small, 0);
    assert_eq!(list.total_files(), 13);
    list.remove_folder(1, 0);
    assert_eq!(list.total_files(), 10);
    assert_eq!(list.total_size(), 50_000_000);
}

#[test]
fn removing_the_added_folder_restores_the_list() {
    let mut list = FolderList::new();
    list.add_folder(test_folder("/a"), 0);
    list.add_folder(test_folder("/b"), 0);
    let index = list.add_folder(test_folder("/new"), 5).unwrap();
    list.remove_folder(index, 6);
    assert_eq!(paths(&list), vec!["/a", "/b"]);
}

#[test]
fn manual_bitrate_is_in_force_until_folders_change() {
    let mut list = FolderList::new();
    list.add_folder(test_folder("/a"), 0);
    assert_eq!(list.calculated_bitrate(Some(256)), 256);
    assert_eq!(list.calculated_bitrate(None), 320);
    assert_eq!(list.apply_bitrate_override(192), 192);
    assert_eq!(list.calculated_bitrate(Some(256)), 192);
    assert_eq!(list.calculated_bitrate(None), 192);
    assert!(list.bitrate_recalc_pending);
    list.add_folder(test_folder("/b"), 0);
    assert_eq!(list.calculated_bitrate(Some(256)), 256);
}

#[test]
fn override_resets_folders_converted_at_another_bitrate() {
    let mut list = FolderList::new();
    let converted = |path: &str, br: Option<u32>| {
        let mut f = test_folder(path);
        f.conversion_status = FolderConversionStatus::Converted {
            output_dir: format!("/out{}", path),
            lossless_bitrate: br,
            output_size: 10,
            completed_at: 1,
        };
        f
    };
    list.add_folder(converted("/a", Some(256)), 0);
    list.add_folder(converted("/b", Some(192)), 0);
    list.add_folder(converted("/c", None), 0);
    list.apply_bitrate_override(192);
    assert!(matches!(list.folders[0].conversion_status, FolderConversionStatus::NotConverted));
    assert!(matches!(list.folders[1].conversion_status, FolderConversionStatus::Converted { .. }));
    assert!(matches!(list.folders[2].conversion_status, FolderConversionStatus::Converted { .. }));
    assert!(list.iso_state.is_none());
}

#[test]
fn folder_conversion_status_by_id() {
    let mut list = FolderList::new();
    list.add_folder(test_folder("/a"), 0);
    let mut b = test_folder("/b");
    b.conversion_status = FolderConversionStatus::Converting { files_completed: 2, files_total: 9 };
    list.add_folder(b, 0);
    assert!(matches!(
        list.get_folder_conversion_status(&FolderId("/b".to_string())),
        FolderConversionStatus::Converting { files_completed: 2, files_total: 9 }
    ));
    assert!(matches!(
        list.get_folder_conversion_status(&FolderId("/zzz".to_string())),
        FolderConversionStatus::NotConverted
    ));
}

#[test]
fn mixtapes_are_added_at_the_end() {
    let mut list = FolderList::new();
    list.add_folder(test_folder("/a"), 0);
    assert_eq!(list.create_mixtape_from_files(FolderId("t0".to_string()), Vec::new(), 9), None);
    assert_eq!(list.len(), 1);
    let song = |path: &str, duration_ms: u64, size: u64| mp3cd::folder::AudioFileInfo {
        path: path.to_string(),
        duration_ms,
        bitrate: 900,
        size,
        codec: "flac".to_string(),
        is_lossy: false,
    };
    let files = vec![song("/x/a.flac", 1000, 5), song("/y/b.flac", 2000, 7)];
    assert_eq!(list.create_mixtape_from_files(FolderId("t1".to_string()), files, 9), Some(1));
    assert_eq!(list.last_folder_change, Some(9));
    let tape = &list.folders[1];
    assert_eq!(tape.id.0, "t1");
    assert_eq!(tape.path, "");
    assert!(matches!(&tape.kind, FolderKind::Mixtape { name } if name == "My Mixtape"));
    assert_eq!((tape.file_count, tape.total_size, tape.total_duration_ms), (2, 12, 3000));
    assert_eq!(tape.audio_files[1].path, "/y/b.flac");
    assert!(matches!(tape.conversion_status, FolderConversionStatus::NotConverted));
    assert!(tape.source_available);
    assert_eq!(list.add_new_mixtape(FolderId("t2".to_string())), 2);
    assert_eq!(list.len(), 3);
    assert!(matches!(&list.folders[2].kind, FolderKind::Mixtape { name } if name == "My Mixtape"));
    assert_eq!(list.folders[2].file_count, 0);
}

#[test]
fn use_automatic_drops_the_manual_bitrate() {
    let mut list = FolderList::new();
    list.add_folder(test_folder("/a"), 0);
    assert_eq!(list.apply_bitrate_choice(BitrateChoice::Manual(160)), Some(160));
    assert_eq!(list.calculated_bitrate(Some(256)), 160);
    list.awaiting_bitrate_override = true;
    assert_eq!(list.apply_bitrate_choice(BitrateChoice::Automatic), None);
    assert_eq!(list.manual_bitrate_override, None);
    assert!(!list.awaiting_bitrate_override);
    assert_eq!(list.calculated_bitrate(Some(256)), 256);
    assert_eq!(list.calculated_bitrate(None), 320);
}

#[test]
fn conversion_state_of_a_new_list_is_idle() {
    let list = FolderList::new();
    let state: &ConversionState = &list.conversion_state;
    assert!(!state.is_converting());
    assert_eq!(list.volume_label, "Untitled MP3CD");
}

#[test]
fn status_bar_shows_a_manual_bitrate_with_an_asterisk() {
    let mut list = FolderList::new();
    list.add_folder(test_folder("/a"), 0);
    let estimate = Some(BitrateEstimate { target_bitrate: 256, show_bitrate: true });
    let s = list.build_status_bar_state(estimate, false, (0, 0), false, false, false);
    assert_eq!(s.total_files, 10);
    assert_eq!(s.total_size, 50_000_000);
    assert!(s.has_folders);
    assert_eq!(s.bitrate_display(), "256 kbps");
    list.apply_bitrate_override(285);
    let estimate = Some(BitrateEstimate { target_bitrate: 256, show_bitrate: true });
    let s = list.build_status_bar_state(estimate, false, (0, 0), false, false, false);
    assert_eq!(s.effective_bitrate, 285);
    assert_eq!(s.bitrate_display(), "285 kbps*");
}

#[test]
fn opening_the_track_editor() {
    let mut list = FolderList::new();
    let mut f = test_folder("/Music/Abbey Road");
    f.album_art = Some("/Music/Abbey Road/cover.jpg".to_string());
    for p in ["/Music/Abbey Road/1.flac", "/Music/Abbey Road/2.flac"] {
        f.audio_files.push(mp3cd::folder::AudioFileInfo {
            path: p.to_string(),
            duration_ms: 1,
            bitrate: 1,
            size: 1,
            codec: "flac".to_string(),
            is_lossy: false,
        });
    }
    f.excluded_tracks.push("/Music/Abbey Road/2.flac".to_string());
    list.add_folder(f, 0);
    assert!(list.open_track_editor(3).is_none());
    let req = list.open_track_editor(0).unwrap();
    assert_eq!(req.name, "Abbey Road");
    assert_eq!(req.included, vec![true, false]);
    assert_eq!(req.shared_album_art, Some("/Music/Abbey Road/cover.jpg".to_string()));
    assert_eq!(list.editing_folder_index, Some(0));
    assert!(list.open_track_editor(0).is_none());
}

#[test]
fn test_list_starts_like_a_new_one() {
    let list = FolderList::new_for_test();
    assert!(list.is_empty());
    assert_eq!(list.volume_label, "Untitled MP3CD");
    assert!(list.manual_bitrate_override.is_none());
    assert!(!list.has_unsaved_changes);
    assert!(list.iso_state.is_none());
    assert!(list.pending_error_message.is_none());
}
