use mp3cd::display_settings::DisplaySettings;
use mp3cd::folder::{
    AudioFileInfo, FolderConversionStatus, FolderId, FolderKind, InfoPart, MusicFolder, RowIcon,
    RowTone,
};

fn track(path: &str) -> AudioFileInfo {
    AudioFileInfo {
        path: path.to_string(),
        duration_ms: 1,
        bitrate: 1,
        size: 1,
        codec: "flac".to_string(),
        is_lossy: false,
    }
}

fn album(path: &str) -> MusicFolder {
    MusicFolder {
        id: FolderId(path.to_string()),
        path: path.to_string(),
        kind: FolderKind::Album,
        file_count: 3,
        total_size: 3000,
        total_duration_ms: 3,
        album_name: None,
        artist_name: None,
        year: None,
        album_art: None,
        audio_files: vec![track("/m/a.flac"), track("/m/b.flac"), track("/m/c.flac")],
        excluded_tracks: Vec::new(),
        track_order: None,
        conversion_status: FolderConversionStatus::NotConverted,
        source_available: true,
    }
}

fn all_on() -> DisplaySettings {
    DisplaySettings {
        show_file_count: true,
        show_original_size: true,
        show_converted_size: true,
        show_source_format: true,
        show_source_bitrate: true,
        show_final_bitrate: true,
    }
}

#[test]
fn display_names() {
    let mut f = album("/Music/Abbey Road");
    assert_eq!(f.raw_name(), "Abbey Road");
    assert_eq!(f.display_name(), "Abbey Road");
    f.album_name = Some("Abbey Road".to_string());
    f.artist_name = Some("The Beatles".to_string());
    assert_eq!(f.display_name(), "Abbey Road - The Beatles");
    f.year = Some("1969".to_string());
    assert_eq!(f.display_name(), "Abbey Road (1969) - The Beatles");
    f.artist_name = None;
    assert_eq!(f.display_name(), "Abbey Road (1969)");
    f.kind = FolderKind::Mixtape { name: "Road Trip".to_string() };
    assert_eq!(f.display_name(), "Road Trip");
    assert_eq!(album("/").raw_name(), "/");
}

#[test]
fn excluded_tracks_are_not_counted() {
    let mut f = album("/m");
    assert_eq!(f.active_track_count(), 3);
    f.excluded_tracks.push("/m/b.flac".to_string());
    assert!(f.is_track_excluded(&"/m/b.flac".to_string()));
    assert!(!f.is_track_excluded(&"/m/a.flac".to_string()));
    assert_eq!(f.active_track_count(), 2);
    let parts = f.info_parts(&all_on(), "FLAC", "");
    assert_eq!(parts, vec![InfoPart::SourceFormat, InfoPart::TracksOf(2, 3), InfoPart::OriginalSize(3000)]);
}

#[test]
fn detail_line_while_converting_and_after() {
    let mut f = album("/m");
    f.conversion_status = FolderConversionStatus::Converting { files_completed: 1, files_total: 3 };
    assert_eq!(f.conversion_progress(), Some((1, 3)));
    assert_eq!(
        f.info_parts(&all_on(), "", "320k"),
        vec![InfoPart::SourceBitrate, InfoPart::FilesProgress(1, 3), InfoPart::OriginalSize(3000), InfoPart::Encoding]
    );
    f.conversion_status = FolderConversionStatus::Converted {
        output_dir: "/out".to_string(),
        lossless_bitrate: Some(256),
        output_size: 900,
        completed_at: 5,
    };
    f.source_available = false;
    assert_eq!(f.conversion_progress(), None);
    assert_eq!(
        f.info_parts(&all_on(), "", ""),
        vec![
            InfoPart::Files(3),
            InfoPart::OriginalSize(3000),
            InfoPart::ConvertedSize(900),
            InfoPart::FinalBitrate(256),
            InfoPart::SourceUnavailable,
        ]
    );
}

#[test]
fn row_tones_and_icons() {
    let mut f = album("/m");
    assert_eq!(f.row_tone(true), RowTone::DropTarget);
    assert_eq!(f.row_tone(false), RowTone::Queued);
    f.conversion_status = FolderConversionStatus::Converted {
        output_dir: "/out".to_string(),
        lossless_bitrate: None,
        output_size: 1,
        completed_at: 1,
    };
    assert_eq!(f.hover_tone(), RowTone::Card);
    f.source_available = false;
    assert_eq!(f.row_tone(false), RowTone::Warning);
    assert_eq!(f.row_icon(), RowIcon::Folder);
    f.kind = FolderKind::Mixtape { name: "T".to_string() };
    assert_eq!(f.row_icon(), RowIcon::Mixtape);
    f.album_art = Some("/art.jpg".to_string());
    assert_eq!(f.row_icon(), RowIcon::AlbumArt);
    assert!(!f.needs_transcoding());
}

#[test]
fn detail_line_text() {
    let mut f = album("/m");
    f.excluded_tracks.push("/m/c.flac".to_string());
    assert_eq!(f.detail_line(&all_on(), "FLAC", "", "3 KB", "1 KB"), "FLAC, 2 of 3 tracks, 3 KB");
    f.conversion_status = FolderConversionStatus::Converted {
        output_dir: "/out".to_string(),
        lossless_bitrate: Some(192),
        output_size: 1000,
        completed_at: 1,
    };
    f.excluded_tracks.clear();
    f.source_available = false;
    assert_eq!(
        f.detail_line(&all_on(), "", "900k", "3 KB", "1 KB"),
        "900k, 3 files, 3 KB, → 1 KB, @192k, ⚠️ Source unavailable"
    );
    f.conversion_status = FolderConversionStatus::Converting { files_completed: 2, files_total: 3 };
    f.source_available = true;
    assert_eq!(f.detail_line(&all_on(), "", "", "3 KB", ""), "2/3 files, 3 KB, (encoding...)");
    let none = DisplaySettings {
        show_file_count: false,
        show_original_size: false,
        show_converted_size: false,
        show_source_format: false,
        show_source_bitrate: false,
        show_final_bitrate: false,
    };
    f.conversion_status = FolderConversionStatus::NotConverted;
    assert_eq!(f.detail_line(&none, "FLAC", "900k", "3 KB", ""), "");
    f.kind = FolderKind::Mixtape { name: "T".to_string() };
    assert_eq!(MusicFolder::info_part_text(InfoPart::Tracks(12), "", "", "", ""), "12 tracks");
}
