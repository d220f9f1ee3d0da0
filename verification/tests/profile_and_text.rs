use mp3cd::folder::{FolderConversionStatus, FolderId, FolderKind, MusicFolder};
use mp3cd::folder_list::{FolderList, IsoState};
use mp3cd::profile::{
    failed_folders_message_for, find_profile_path, first_path_position, is_profile_path,
    profile_folder_inputs, profile_import_error,
    source_unavailable_notice,
    profile_folder_source, source_unavailable_message, volume_root_of, AfterSave,
    ProfileFlow, ProfileFolderSource, ProfileLoadError, SaveDialogStep, SavedFolderKind,
    SavedFolderState, UnsavedChoice,
};
use mp3cd::text::{decimal_string, join_strings, parse_u32};

fn folder(path: &str) -> MusicFolder {
    MusicFolder {
        id: FolderId(path.to_string()),
        path: path.to_string(),
        kind: FolderKind::Album,
        file_count: 1,
        total_size: 1,
        total_duration_ms: 1,
        album_name: None,
        artist_name: None,
        year: None,
        album_art: None,
        audio_files: Vec::new(),
        excluded_tracks: Vec::new(),
        track_order: None,
        conversion_status: FolderConversionStatus::NotConverted,
        source_available: true,
    }
}

#[test]
fn decimal_spelling_and_parsing() {
    assert_eq!(decimal_string(0), "0");
    assert_eq!(decimal_string(1234567), "1234567");
    assert_eq!(parse_u32("320"), Some(320));
    assert_eq!(parse_u32("+7"), Some(7));
    assert_eq!(parse_u32("4294967295"), Some(u32::MAX));
    assert_eq!(parse_u32("4294967296"), None);
    assert_eq!(parse_u32(""), None);
    assert_eq!(parse_u32("+"), None);
    assert_eq!(parse_u32("12a"), None);
    assert_eq!(parse_u32("-1"), None);
    for n in [0u32, 9, 10, 65535, u32::MAX] {
        assert_eq!(parse_u32(&decimal_string(n as u64)), Some(n));
    }
}

#[test]
fn profile_paths_by_extension() {
    assert!(is_profile_path("/Users/me/Summer.mp3cd"));
    assert!(is_profile_path("/Users/me/Summer.MP3CD"));
    assert!(!is_profile_path("/Users/me/Summer.mp3"));
    assert!(!is_profile_path("/Users/me/mp3cd"));
    let dropped = vec!["/a/song.flac".to_string(), "/b/x.Mp3Cd".to_string(), "/c/y.mp3cd".to_string()];
    assert_eq!(find_profile_path(&dropped), Some(1));
    assert_eq!(find_profile_path(&vec!["/a".to_string()]), None);
}

#[test]
fn volume_roots_and_messages() {
    assert_eq!(volume_root_of("/Volumes/Ext/Music/Album"), Some("//Volumes/Ext".to_string()));
    assert_eq!(volume_root_of("/Volumes"), None);
    assert_eq!(join_strings(&vec!["a".to_string(), "b".to_string(), "c".to_string()], ", "), "a, b, c");
    assert_eq!(
        source_unavailable_message(1),
        "1 folder loaded from saved converted files.\n\nYou can still burn a CD, but cannot re-encode at a different bitrate without reconnecting the source volume."
    );
    assert!(source_unavailable_message(3).starts_with("3 folders loaded"));
    let one_root = failed_folders_message_for(&vec![
        "/Volumes/Ext/A".to_string(),
        "/Volumes/Ext/B".to_string(),
    ]);
    assert_eq!(
        one_root,
        "2 folders could not be loaded because the source files are not accessible.\n\nPlease connect or mount: //Volumes/Ext\n\nThen reload the profile to access these folders."
    );
    let two_roots = failed_folders_message_for(&vec![
        "/Volumes/One/A".to_string(),
        "/Volumes/Two/B".to_string(),
    ]);
    assert!(two_roots.contains("these locations:\n• //Volumes/One\n• //Volumes/Two"));
}

#[test]
fn window_title_shows_a_set_label() {
    let mut list = FolderList::new();
    assert_eq!(list.window_title(), "MP3 CD Burner");
    assert_eq!(list.profile_volume_label(), None);
    list.apply_volume_label("ROADTRIP".to_string());
    assert_eq!(list.window_title(), "MP3 CD Burner - ROADTRIP");
    assert_eq!(list.profile_volume_label(), Some("ROADTRIP".to_string()));
}

#[test]
fn unsaved_prompt_choices() {
    let mut list = FolderList::new();
    assert!(!list.needs_unsaved_prompt());
    list.add_folder(folder("/a"), 0);
    assert!(list.needs_unsaved_prompt());
    assert_eq!(list.resolve_unsaved_prompt(2, ProfileFlow::New), UnsavedChoice::Cancelled);
    assert!(!list.pending_new_after_save);
    assert_eq!(list.resolve_unsaved_prompt(1, ProfileFlow::Open), UnsavedChoice::Proceed);
    assert!(!list.pending_open_after_save);
    assert_eq!(list.resolve_unsaved_prompt(0, ProfileFlow::New), UnsavedChoice::SaveFirst);
    assert!(list.pending_new_after_save);
    let AfterSave { show_open_picker, load_profile } = list.save_succeeded("/docs/a.mp3cd".to_string());
    assert!(!show_open_picker);
    assert_eq!(load_profile, None);
    assert!(list.is_empty());
    assert!(!list.has_unsaved_changes);
}

#[test]
fn save_format_prompt() {
    let mut list = FolderList::new();
    assert_eq!(list.resolve_save_format_prompt(0), Some(true));
    assert_eq!(list.resolve_save_format_prompt(1), Some(false));
    list.pending_open_after_save = true;
    assert_eq!(list.resolve_save_format_prompt(2), None);
    assert!(!list.pending_open_after_save);
}

#[test]
fn save_suggestion_names() {
    let mut list = FolderList::new();
    let s = list.save_suggestion("/Users/me/Documents".to_string());
    assert_eq!(s.file_name, "Untitled.mp3cd");
    assert_eq!(s.directory, "/Users/me/Documents");
    list.add_folder(folder("/Music/Abbey Road"), 0);
    let s = list.save_suggestion("/Users/me/Documents".to_string());
    assert_eq!(s.file_name, "Abbey Road.mp3cd");
    list.current_profile_path = Some("/Profiles/Mix.mp3cd".to_string());
    let s = list.save_suggestion("/Users/me/Documents".to_string());
    assert_eq!(s.file_name, "Mix.mp3cd");
    assert_eq!(s.directory, "/Profiles");
    assert_eq!(FolderList::chosen_profile_name("/x/Road Trip.mp3cd", "Fallback".to_string()), "Road Trip");
}

#[test]
fn profile_load_errors() {
    let mut list = FolderList::new();
    list.add_folder(folder("/a"), 0);
    assert_eq!(
        list.begin_profile_load("/p.mp3cd".to_string(), 3, None, None, true),
        Err(ProfileLoadError::ImportInProgress)
    );
    assert_eq!(
        list.begin_profile_load("/p.mp3cd".to_string(), 0, None, None, false),
        Err(ProfileLoadError::NoFolders)
    );
    assert_eq!(list.len(), 1);
    assert_eq!(
        list.begin_profile_load("/p.mp3cd".to_string(), 2, Some("TRIP".to_string()), Some(160), false),
        Ok(())
    );
    assert!(list.is_empty());
    assert_eq!(list.volume_label, "TRIP");
    assert_eq!(list.manual_bitrate_override, Some(160));
    assert!(!list.has_unsaved_changes);
}

#[test]
fn where_profile_folders_come_from() {
    let album = Some(SavedFolderState {
        kind: SavedFolderKind::Album { excluded_tracks: Vec::new(), track_order: None },
        lossless_bitrate: None,
        output_size: 0,
        completed_at: None,
    });
    let tape = Some(SavedFolderState {
        kind: SavedFolderKind::Mixtape { name: "Tape".to_string() },
        lossless_bitrate: None,
        output_size: 0,
        completed_at: None,
    });
    assert_eq!(profile_folder_source("", &tape, false, false, false), ProfileFolderSource::SavedMixtape);
    assert_eq!(profile_folder_source("", &album, true, true, true), ProfileFolderSource::Skipped);
    assert_eq!(profile_folder_source("/a", &album, false, false, true), ProfileFolderSource::Scanned);
    assert_eq!(profile_folder_source("/a", &album, true, true, false), ProfileFolderSource::SavedMetadata);
    assert_eq!(profile_folder_source("/a", &tape, true, true, false), ProfileFolderSource::SavedMixtape);
    assert_eq!(profile_folder_source("/a", &album, true, false, false), ProfileFolderSource::Failed);
    assert_eq!(profile_folder_source("/a", &None, true, true, false), ProfileFolderSource::Failed);
}

#[test]
fn finishing_an_import_drops_unusable_folders() {
    let mut list = FolderList::new();
    let mut gone = folder("/gone");
    gone.source_available = false;
    list.folders.push(folder("/ok"));
    list.folders.push(gone);
    let mut kept = folder("/kept");
    kept.source_available = false;
    kept.conversion_status = FolderConversionStatus::Converted {
        output_dir: "/out".to_string(),
        lossless_bitrate: Some(224),
        output_size: 3,
        completed_at: 0,
    };
    list.folders.push(kept);
    let summary = list.finish_profile_import(&Vec::new());
    let paths: Vec<String> = list.folders.iter().map(|f| f.path.clone()).collect();
    assert_eq!(paths, vec!["/ok", "/kept"]);
    assert_eq!(summary.needs_encoding.len(), 1);
    assert_eq!(summary.needs_encoding[0].path, "/ok");
    assert_eq!(summary.source_unavailable_converted, 1);
}

#[test]
fn folders_to_encode_are_taken_before_unusable_paths_are_dropped() {
    let mut list = FolderList::new();
    let mut gone = folder("/same");
    gone.source_available = false;
    list.folders.push(folder("/same"));
    list.folders.push(gone);
    list.last_calculated_bitrate = Some(99);
    let summary = list.finish_profile_import(&Vec::new());
    assert!(list.is_empty());
    assert_eq!(summary.needs_encoding.len(), 1);
    assert_eq!(summary.needs_encoding[0].path, "/same");
    assert_eq!(list.last_calculated_bitrate, Some(99));
}

#[test]
fn nothing_to_encode_takes_the_saved_lossless_bitrate() {
    let mut list = FolderList::new();
    let mut done = folder("/done");
    done.conversion_status = FolderConversionStatus::Converted {
        output_dir: "/out".to_string(),
        lossless_bitrate: Some(288),
        output_size: 1,
        completed_at: 1,
    };
    list.folders.push(done);
    let summary = list.finish_profile_import(&Vec::new());
    assert!(summary.needs_encoding.is_empty());
    assert_eq!(summary.source_unavailable_converted, 0);
    assert_eq!(list.last_calculated_bitrate, Some(288));
}

#[test]
fn bundle_copies_move_or_reset_converted_folders() {
    let mut list = FolderList::new();
    let mut done = folder("/done");
    done.conversion_status = FolderConversionStatus::Converted {
        output_dir: "/bundle/x".to_string(),
        lossless_bitrate: Some(256),
        output_size: 7,
        completed_at: 3,
    };
    list.folders.push(done);
    list.folders.push(folder("/todo"));
    list.apply_bundle_copy(0, Some("/tmp/x".to_string()));
    match &list.folders[0].conversion_status {
        FolderConversionStatus::Converted { output_dir, lossless_bitrate, output_size, completed_at } => {
            assert_eq!(output_dir, "/tmp/x");
            assert_eq!((*lossless_bitrate, *output_size, *completed_at), (Some(256), 7, 3));
        }
        _ => panic!("still converted"),
    }
    list.apply_bundle_copy(1, None);
    assert!(matches!(list.folders[1].conversion_status, FolderConversionStatus::NotConverted));
    list.apply_bundle_copy(0, None);
    assert!(matches!(list.folders[0].conversion_status, FolderConversionStatus::NotConverted));
    list.apply_bundle_copy(5, None);
    assert_eq!(list.len(), 2);
}

#[test]
fn profile_folders_get_their_saved_state() {
    let saved = || {
        Some(SavedFolderState {
            kind: SavedFolderKind::Album { excluded_tracks: vec!["/a/1.flac".to_string()], track_order: Some(vec![1, 0]) },
            lossless_bitrate: Some(256),
            output_size: 10,
            completed_at: None,
        })
    };
    let mut list = FolderList::new();
    list.add_profile_folder(folder("/a"), saved(), true, true, "/out/a".to_string(), Some(12));
    let a = &list.folders[0];
    assert_eq!(a.excluded_tracks, vec!["/a/1.flac".to_string()]);
    assert_eq!(a.track_order, Some(vec![1, 0]));
    match &a.conversion_status {
        FolderConversionStatus::Converted { output_dir, output_size, completed_at, .. } => {
            assert_eq!(output_dir, "/out/a");
            assert_eq!((*output_size, *completed_at), (12, 0));
        }
        _ => panic!("restored"),
    }
    list.add_profile_folder(folder("/b"), saved(), true, false, "/out/b".to_string(), None);
    assert!(matches!(list.folders[1].conversion_status, FolderConversionStatus::NotConverted));
    assert_eq!(list.folders[1].track_order, Some(vec![1, 0]));
    list.add_late_profile_folder(folder("/c"), saved(), true, true, "/out/c".to_string(), None);
    let c = &list.folders[2];
    assert!(c.excluded_tracks.is_empty());
    assert_eq!(c.track_order, None);
    assert!(matches!(c.conversion_status, FolderConversionStatus::Converted { output_size: 10, .. }));
}

#[test]
fn save_and_new_first_steps() {
    let mut list = FolderList::new();
    assert_eq!(list.save_profile_dialog(), SaveDialogStep::NothingToSave);
    list.add_folder(folder("/a"), 0);
    assert_eq!(list.save_profile_dialog(), SaveDialogStep::PickFile);
    list.folders[0].conversion_status = FolderConversionStatus::Converted {
        output_dir: "/out".to_string(),
        lossless_bitrate: None,
        output_size: 1,
        completed_at: 1,
    };
    assert_eq!(list.save_profile_dialog(), SaveDialogStep::AskFormat);
    assert!(list.new_profile());
    assert_eq!(list.len(), 1);
    list.has_unsaved_changes = false;
    assert!(!list.new_profile());
    assert!(list.is_empty());
    assert_eq!(list.window_title(), "MP3 CD Burner");
}

#[test]
fn load_refusals_have_messages() {
    assert_eq!(ProfileLoadError::ImportInProgress.message(), "Import already in progress");
    assert_eq!(ProfileLoadError::NoFolders.message(), "Profile has no folders");
}

#[test]
fn failed_folders_raise_an_error_and_unavailable_sources_a_notice() {
    assert_eq!(profile_import_error(&Vec::new()), None);
    let (title, message) = profile_import_error(&vec!["/Volumes/Ext/A".to_string()]).unwrap();
    assert_eq!(title, "Could Not Load All Folders");
    assert!(message.starts_with("1 folder could not be loaded because the source files are not accessible."));
    assert_eq!(source_unavailable_notice(0), None);
    assert_eq!(source_unavailable_notice(2).unwrap().0, "Source Files Not Available");

    let mut list = FolderList::new();
    let mut kept = folder("/kept");
    kept.source_available = false;
    kept.conversion_status = FolderConversionStatus::Converted {
        output_dir: "/out".to_string(),
        lossless_bitrate: None,
        output_size: 3,
        completed_at: 0,
    };
    list.folders.push(kept);
    list.finish_profile_import(&vec!["/Volumes/Ext/A".to_string(), "/Volumes/Ext/B".to_string()]);
    let (title, message) = list.take_pending_error_message().unwrap();
    assert_eq!(title, "Could Not Load All Folders");
    assert!(message.starts_with("2 folders could not be loaded"));
    assert!(list.take_pending_error_message().is_none());
    let (title, message) = list.take_pending_info_message().unwrap();
    assert_eq!(title, "Source Files Not Available");
    assert!(message.starts_with("1 folder loaded from saved converted files."));
    assert!(list.pending_info_message.is_none());
}

#[test]
fn what_a_profile_says_of_a_loaded_folder() {
    let paths = vec!["/a".to_string(), "/b".to_string(), "/a".to_string()];
    let dirs = vec!["out/a".to_string(), "out/b".to_string(), "out/a2".to_string()];
    let valid = vec!["/b".to_string()];
    assert_eq!(first_path_position(&paths, &"/a".to_string()), Some(0));
    assert_eq!(first_path_position(&paths, &"/z".to_string()), None);
    let bundle = Some("/Profiles/Mix.mp3cd".to_string());
    assert_eq!(
        profile_folder_inputs(&"/b".to_string(), &paths, &dirs, &valid, &bundle),
        (Some(1), true, "/Profiles/Mix.mp3cd/out/b".to_string())
    );
    assert_eq!(
        profile_folder_inputs(&"/a".to_string(), &paths, &dirs, &valid, &None),
        (Some(0), false, "out/a".to_string())
    );
    assert_eq!(
        profile_folder_inputs(&"/z".to_string(), &paths, &dirs, &valid, &bundle),
        (None, false, String::new())
    );
}

#[test]
fn after_a_load_the_encoder_hears_the_bitrates_and_the_iso_comes_back() {
    let mut list = FolderList::new();
    list.folders.push(folder("/todo"));
    let summary = list.finish_profile_import(&Vec::new());
    assert_eq!(list.load_bitrate_commands(&summary), vec![0]);
    list.manual_bitrate_override = Some(192);
    assert_eq!(list.load_bitrate_commands(&summary), vec![0, 192]);
    list.folders.clear();
    let summary = list.finish_profile_import(&Vec::new());
    assert_eq!(list.load_bitrate_commands(&summary), vec![192]);
    list.restore_iso_state(None);
    assert!(list.iso_state.is_none());
    list.restore_iso_state(Some(IsoState { path: "/tmp/cd.iso".to_string(), size_bytes: 42 }));
    assert_eq!(list.iso_state.as_ref().unwrap().path, "/tmp/cd.iso");
}
