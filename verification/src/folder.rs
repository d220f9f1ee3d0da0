//! Music folders (albums and mixtapes) and how one is presented in the list.

use vstd::prelude::*;
use crate::display_settings::DisplaySettings;
use crate::paths::{file_name, path_file_name};
use crate::text::{decimal, decimal_string, join, join_strings, push_decimal};

verus! {

/// Identity of a folder in the list and in the encoder.
pub struct FolderId(pub String);

impl FolderId {
    /// A copy of the id.
    pub fn duplicate(&self) -> (r: FolderId)
        ensures
            r == *self,
    {
        FolderId(self.0.clone())
    }

    /// Whether two ids name the same folder.
    pub fn same(&self, other: &FolderId) -> (b: bool)
        ensures
            b == (self.0@ == other.0@),
    {
        self.0 == other.0
    }
}

/// An album found on disk, or a mixtape assembled from single files.
pub enum FolderKind {
    Album,
    Mixtape { name: String },
}

/// How far a folder's conversion to MP3 has got.
pub enum FolderConversionStatus {
    NotConverted,
    Converting { files_completed: usize, files_total: usize },
    Converted { output_dir: String, lossless_bitrate: Option<u32>, output_size: u64, completed_at: u64 },
}

impl FolderConversionStatus {
    /// A copy of the status.
    pub fn duplicate(&self) -> (r: FolderConversionStatus)
        ensures
            r == *self,
    {
        match self {
            FolderConversionStatus::NotConverted => FolderConversionStatus::NotConverted,
            FolderConversionStatus::Converting { files_completed, files_total } =>
                FolderConversionStatus::Converting { files_completed: *files_completed, files_total: *files_total },
            FolderConversionStatus::Converted { output_dir, lossless_bitrate, output_size, completed_at } =>
                FolderConversionStatus::Converted {
                    output_dir: output_dir.clone(),
                    lossless_bitrate: *lossless_bitrate,
                    output_size: *output_size,
                    completed_at: *completed_at,
                },
        }
    }
}

/// One audio file of a folder.
pub struct AudioFileInfo {
    pub path: String,
    pub duration_ms: u64,
    pub bitrate: u32,
    pub size: u64,
    pub codec: String,
    pub is_lossy: bool,
}

/// A copy of an optional string.
pub fn duplicate_opt_string(o: &Option<String>) -> (r: Option<String>)
    ensures
        r == *o,
{
    match o {
        Some(s) => Some(s.clone()),
        None => None,
    }
}

impl AudioFileInfo {
    /// A copy of the file information.
    pub fn duplicate(&self) -> (r: AudioFileInfo)
        ensures
            r == *self,
    {
        AudioFileInfo {
            path: self.path.clone(),
            duration_ms: self.duration_ms,
            bitrate: self.bitrate,
            size: self.size,
            codec: self.codec.clone(),
            is_lossy: self.is_lossy,
        }
    }
}

/// A folder in the burn list.
pub struct MusicFolder {
    pub id: FolderId,
    pub path: String,
    pub kind: FolderKind,
    pub file_count: u32,
    pub total_size: u64,
    pub total_duration_ms: u64,
    pub album_name: Option<String>,
    pub artist_name: Option<String>,
    pub year: Option<String>,
    pub album_art: Option<String>,
    pub audio_files: Vec<AudioFileInfo>,
    /// Paths of tracks left out of the CD.
    pub excluded_tracks: Vec<String>,
    /// Order of the tracks on the CD, as indices into `audio_files`.
    pub track_order: Option<Vec<usize>>,
    pub conversion_status: FolderConversionStatus,
    /// The source files can be read (false for folders restored from saved
    /// converted files only).
    pub source_available: bool,
}

/// `a` holds the same values as `b` (its lists are other lists with the
/// same contents).
pub open spec fn copy_of(a: MusicFolder, b: MusicFolder) -> bool {
    &&& a == MusicFolder {
        audio_files: a.audio_files,
        excluded_tracks: a.excluded_tracks,
        track_order: a.track_order,
        ..b
    }
    &&& a.audio_files@ == b.audio_files@
    &&& a.excluded_tracks@ == b.excluded_tracks@
    &&& match (a.track_order, b.track_order) {
        (Some(x), Some(y)) => x@ == y@,
        (None, None) => true,
        _ => false,
    }
}

/// A copy of a list of strings.
pub fn duplicate_strings(v: &Vec<String>) -> (r: Vec<String>)
    ensures
        r@ == v@,
{
    let mut r: Vec<String> = Vec::new();
    let mut i: usize = 0;
    while i < v.len()
        invariant
            i <= v.len(),
            r@ == v@.take(i as int),
        decreases v.len() - i,
    {
        r.push(v[i].clone());
        assert(v@.take(i + 1) =~= v@.take(i as int).push(v@[i as int]));
        i = i + 1;
    }
    assert(v@.take(v.len() as int) =~= v@);
    r
}

/// A copy of a list of audio files.
pub fn duplicate_files(v: &Vec<AudioFileInfo>) -> (r: Vec<AudioFileInfo>)
    ensures
        r@ == v@,
{
    let mut r: Vec<AudioFileInfo> = Vec::new();
    let mut i: usize = 0;
    while i < v.len()
        invariant
            i <= v.len(),
            r@ == v@.take(i as int),
        decreases v.len() - i,
    {
        r.push(v[i].duplicate());
        assert(v@.take(i + 1) =~= v@.take(i as int).push(v@[i as int]));
        i = i + 1;
    }
    assert(v@.take(v.len() as int) =~= v@);
    r
}

impl MusicFolder {
    /// A copy of the folder, as handed to the encoder.
    pub fn duplicate(&self) -> (r: MusicFolder)
        ensures
            copy_of(r, *self),
    {
        MusicFolder {
            id: self.id.duplicate(),
            path: self.path.clone(),
            kind: self.kind.duplicate(),
            file_count: self.file_count,
            total_size: self.total_size,
            total_duration_ms: self.total_duration_ms,
            album_name: duplicate_opt_string(&self.album_name),
            artist_name: duplicate_opt_string(&self.artist_name),
            year: duplicate_opt_string(&self.year),
            album_art: duplicate_opt_string(&self.album_art),
            audio_files: duplicate_files(&self.audio_files),
            excluded_tracks: duplicate_strings(&self.excluded_tracks),
            track_order: match &self.track_order {
                Some(o) => Some(crate::reorder::copy_indices(o)),
                None => None,
            },
            conversion_status: self.conversion_status.duplicate(),
            source_available: self.source_available,
        }
    }
}

/// The text of an optional string.
pub open spec fn opt_view(o: Option<String>) -> Option<Seq<char>> {
    match o {
        Some(s) => Some(s@),
        None => None,
    }
}

/// `path` is among the excluded track paths.
pub open spec fn is_excluded(excluded: Seq<String>, path: Seq<char>) -> bool {
    exists|j: int| 0 <= j < excluded.len() && #[trigger] excluded[j]@ == path
}

/// Number of files not excluded.
pub open spec fn active_count(files: Seq<AudioFileInfo>, excluded: Seq<String>) -> nat
    decreases files.len(),
{
    if files.len() == 0 {
        0
    } else {
        active_count(files.drop_last(), excluded) + if is_excluded(excluded, files.last().path@) { 0nat } else { 1nat }
    }
}

/// The folder has been converted.
pub open spec fn is_converted_status(s: FolderConversionStatus) -> bool {
    s is Converted
}

/// The name shown for an album: "Album (Year) - Artist" and its shorter forms,
/// or `fallback` when the album name is unknown.
pub open spec fn album_display_name(
    album: Option<Seq<char>>,
    year: Option<Seq<char>>,
    artist: Option<Seq<char>>,
    fallback: Seq<char>,
) -> Seq<char> {
    match album {
        Some(a) => match (year, artist) {
            (Some(y), Some(ar)) => a + " ("@ + y + ") - "@ + ar,
            (Some(y), None) => a + " ("@ + y + ")"@,
            (None, Some(ar)) => a + " - "@ + ar,
            (None, None) => a,
        },
        None => fallback,
    }
}

/// The name shown for a folder whose path's last component is `raw_name`.
pub open spec fn folder_display_name(f: MusicFolder, raw_name: Seq<char>) -> Seq<char> {
    match f.kind {
        FolderKind::Mixtape { name } => name@,
        FolderKind::Album => album_display_name(opt_view(f.album_name), opt_view(f.year), opt_view(f.artist_name), raw_name),
    }
}

/// The folder's own name: the last component of its path, or the whole path.
pub open spec fn raw_folder_name(path: Seq<char>) -> Seq<char> {
    match path_file_name(path) {
        Some(n) => n,
        None => path,
    }
}

/// One piece of the detail line under a folder's name.
#[derive(Clone, Copy, Debug, PartialEq, Eq, Structural)]
pub enum InfoPart {
    /// The source format summary (such as "FLAC").
    SourceFormat,
    /// The source bitrate summary (such as "320k").
    SourceBitrate,
    /// "N tracks" (mixtapes).
    Tracks(usize),
    /// "N of M tracks" (albums with excluded tracks).
    TracksOf(usize, usize),
    /// "N files".
    Files(u32),
    /// The size of the source files.
    OriginalSize(u64),
    /// "→ size" of the converted files.
    ConvertedSize(u64),
    /// "@Nk", the bitrate lossless files were converted at.
    FinalBitrate(u32),
    /// "N/M files" while converting.
    FilesProgress(usize, usize),
    /// "(encoding...)".
    Encoding,
    /// "⚠️ Source unavailable".
    SourceUnavailable,
}

/// `seq![p]` when `b`, empty otherwise.
pub open spec fn part_if(b: bool, p: InfoPart) -> Seq<InfoPart> {
    if b { seq![p] } else { Seq::empty() }
}

/// The track or file count part.
pub open spec fn count_part(f: MusicFolder) -> InfoPart {
    let active = active_count(f.audio_files@, f.excluded_tracks@);
    if f.kind is Mixtape {
        InfoPart::Tracks(active as usize)
    } else if active < f.audio_files@.len() {
        InfoPart::TracksOf(active as usize, f.audio_files@.len() as usize)
    } else {
        InfoPart::Files(f.file_count)
    }
}

/// The parts that depend on the conversion status.
pub open spec fn status_parts(f: MusicFolder, s: DisplaySettings) -> Seq<InfoPart> {
    match f.conversion_status {
        FolderConversionStatus::Converted { output_size, lossless_bitrate, .. } =>
            part_if(s.show_file_count, count_part(f))
            + part_if(s.show_original_size, InfoPart::OriginalSize(f.total_size))
            + part_if(s.show_converted_size, InfoPart::ConvertedSize(output_size))
            + match lossless_bitrate {
                Some(b) => part_if(s.show_final_bitrate, InfoPart::FinalBitrate(b)),
                None => Seq::empty(),
            },
        FolderConversionStatus::Converting { files_completed, files_total } =>
            seq![InfoPart::FilesProgress(files_completed, files_total)]
            + part_if(s.show_original_size, InfoPart::OriginalSize(f.total_size))
            + seq![InfoPart::Encoding],
        FolderConversionStatus::NotConverted =>
            part_if(s.show_file_count, count_part(f))
            + part_if(s.show_original_size, InfoPart::OriginalSize(f.total_size)),
    }
}

/// The detail line of a folder, piece by piece, given whether its format and
/// bitrate summaries are empty.
pub open spec fn info_parts(f: MusicFolder, s: DisplaySettings, format_empty: bool, bitrate_empty: bool) -> Seq<InfoPart> {
    part_if(s.show_source_format && !format_empty, InfoPart::SourceFormat)
    + part_if(s.show_source_bitrate && !bitrate_empty, InfoPart::SourceBitrate)
    + status_parts(f, s)
    + part_if(!f.source_available, InfoPart::SourceUnavailable)
}

/// The text of one piece of the detail line. The summaries and the two
/// sizes come already spelled out.
pub open spec fn info_part_text(
    p: InfoPart,
    format_summary: Seq<char>,
    bitrate_summary: Seq<char>,
    original_size: Seq<char>,
    converted_size: Seq<char>,
) -> Seq<char> {
    match p {
        InfoPart::SourceFormat => format_summary,
        InfoPart::SourceBitrate => bitrate_summary,
        InfoPart::Tracks(n) => decimal(n as nat) + " tracks"@,
        InfoPart::TracksOf(n, m) => decimal(n as nat) + " of "@ + decimal(m as nat) + " tracks"@,
        InfoPart::Files(n) => decimal(n as nat) + " files"@,
        InfoPart::OriginalSize(_) => original_size,
        InfoPart::ConvertedSize(_) => "→ "@ + converted_size,
        InfoPart::FinalBitrate(b) => "@"@ + decimal(b as nat) + "k"@,
        InfoPart::FilesProgress(c, t) => decimal(c as nat) + "/"@ + decimal(t as nat) + " files"@,
        InfoPart::Encoding => "(encoding...)"@,
        InfoPart::SourceUnavailable => "⚠️ Source unavailable"@,
    }
}

/// The texts of the pieces of a detail line.
pub open spec fn info_texts(
    parts: Seq<InfoPart>,
    format_summary: Seq<char>,
    bitrate_summary: Seq<char>,
    original_size: Seq<char>,
    converted_size: Seq<char>,
) -> Seq<Seq<char>> {
    parts.map_values(|p: InfoPart| info_part_text(p, format_summary, bitrate_summary, original_size, converted_size))
}

/// Background of a folder row.
#[derive(Clone, Copy, Debug, PartialEq, Eq, Structural)]
pub enum RowTone {
    /// The row is the current drop target (accent colour).
    DropTarget,
    /// The source is unavailable (warning colour).
    Warning,
    /// The folder still has to be converted (queued colour).
    Queued,
    /// Ordinary card colour.
    Card,
}

/// Icon shown for a folder without album art, or the art itself.
#[derive(Clone, Copy, Debug, PartialEq, Eq, Structural)]
pub enum RowIcon {
    AlbumArt,
    Mixtape,
    Folder,
}

impl MusicFolder {
    /// Whether the folder is a mixtape.
    pub fn is_mixtape(&self) -> (b: bool)
        ensures
            b == (self.kind is Mixtape),
    {
        match self.kind {
            FolderKind::Mixtape { .. } => true,
            FolderKind::Album => false,
        }
    }

    /// Whether the folder has been converted.
    pub fn is_converted(&self) -> (b: bool)
        ensures
            b == is_converted_status(self.conversion_status),
    {
        match self.conversion_status {
            FolderConversionStatus::Converted { .. } => true,
            _ => false,
        }
    }

    /// Whether the folder is still waiting for or in conversion.
    pub fn needs_transcoding(&self) -> (b: bool)
        ensures
            b == !is_converted_status(self.conversion_status),
    {
        !self.is_converted()
    }

    /// Whether the track at `path` is excluded from the CD.
    pub fn is_track_excluded(&self, path: &String) -> (b: bool)
        ensures
            b == is_excluded(self.excluded_tracks@, path@),
    {
        let n = self.excluded_tracks.len();
        let mut j: usize = 0;
        while j < n
            invariant
                j <= n,
                n == self.excluded_tracks@.len(),
                forall|k: int| 0 <= k < j ==> self.excluded_tracks@[k]@ != path@,
            decreases n - j,
        {
            if self.excluded_tracks[j] == *path {
                assert(self.excluded_tracks@[j as int]@ == path@);
                return true;
            }
            j = j + 1;
        }
        false
    }

    /// Number of tracks that go on the CD (all files not excluded).
    pub fn active_track_count(&self) -> (n: usize)
        ensures
            n == active_count(self.audio_files@, self.excluded_tracks@),
    {
        let len = self.audio_files.len();
        let mut count: usize = 0;
        let mut i: usize = 0;
        while i < len
            invariant
                i <= len,
                len == self.audio_files@.len(),
                count == active_count(self.audio_files@.take(i as int), self.excluded_tracks@),
                count <= i,
            decreases len - i,
        {
            assert(self.audio_files@.take(i + 1).drop_last() =~= self.audio_files@.take(i as int));
            if !self.is_track_excluded(&self.audio_files[i].path) {
                count = count + 1;
            }
            i = i + 1;
        }
        assert(self.audio_files@.take(len as int) =~= self.audio_files@);
        count
    }

    /// The name shown for the folder, given the last component of its path.
    pub fn display_name_with(&self, raw_name: String) -> (s: String)
        ensures
            s@ == folder_display_name(*self, raw_name@),
    {
        match &self.kind {
            FolderKind::Mixtape { name } => name.clone(),
            FolderKind::Album => match &self.album_name {
                Some(album) => {
                    let mut s = album.clone();
                    match (&self.year, &self.artist_name) {
                        (Some(year), Some(artist)) => {
                            s.append(" (");
                            s.append(year.as_str());
                            s.append(") - ");
                            s.append(artist.as_str());
                        },
                        (Some(year), None) => {
                            s.append(" (");
                            s.append(year.as_str());
                            s.append(")");
                        },
                        (None, Some(artist)) => {
                            s.append(" - ");
                            s.append(artist.as_str());
                        },
                        (None, None) => {},
                    }
                    s
                },
                None => raw_name,
            },
        }
    }

    /// The folder's own name: the last component of its path, or the path.
    pub fn raw_name(&self) -> (s: String)
        ensures
            s@ == raw_folder_name(self.path@),
    {
        match file_name(self.path.as_str()) {
            Some(n) => n,
            None => self.path.clone(),
        }
    }

    /// The name shown for the folder in the list.
    pub fn display_name(&self) -> (s: String)
        ensures
            s@ == folder_display_name(*self, raw_folder_name(self.path@)),
    {
        let raw = self.raw_name();
        self.display_name_with(raw)
    }

    /// The track or file count part of the detail line.
    fn count_info_part(&self) -> (p: InfoPart)
        ensures
            p == count_part(*self),
    {
        let active = self.active_track_count();
        if self.is_mixtape() {
            InfoPart::Tracks(active)
        } else if active < self.audio_files.len() {
            InfoPart::TracksOf(active, self.audio_files.len())
        } else {
            InfoPart::Files(self.file_count)
        }
    }

    /// The parts of the detail line that depend on the conversion status.
    fn status_info_parts(&self, settings: &DisplaySettings) -> (parts: Vec<InfoPart>)
        ensures
            parts@ == status_parts(*self, *settings),
    {
        let mut parts: Vec<InfoPart> = Vec::new();
        match &self.conversion_status {
            FolderConversionStatus::Converted { output_size, lossless_bitrate, .. } => {
                if settings.show_file_count {
                    parts.push(self.count_info_part());
                }
                if settings.show_original_size {
                    parts.push(InfoPart::OriginalSize(self.total_size));
                }
                if settings.show_converted_size {
                    parts.push(InfoPart::ConvertedSize(*output_size));
                }
                if settings.show_final_bitrate {
                    if let Some(b) = lossless_bitrate {
                        parts.push(InfoPart::FinalBitrate(*b));
                    }
                }
                assert(parts@ =~= status_parts(*self, *settings));
            },
            FolderConversionStatus::Converting { files_completed, files_total } => {
                parts.push(InfoPart::FilesProgress(*files_completed, *files_total));
                if settings.show_original_size {
                    parts.push(InfoPart::OriginalSize(self.total_size));
                }
                parts.push(InfoPart::Encoding);
                assert(parts@ =~= status_parts(*self, *settings));
            },
            FolderConversionStatus::NotConverted => {
                if settings.show_file_count {
                    parts.push(self.count_info_part());
                }
                if settings.show_original_size {
                    parts.push(InfoPart::OriginalSize(self.total_size));
                }
                assert(parts@ =~= status_parts(*self, *settings));
            },
        }
        parts
    }

    /// The detail line under the folder's name, piece by piece, as the
    /// display settings ask for it.
    pub fn info_parts(&self, settings: &DisplaySettings, format_summary: &str, bitrate_summary: &str) -> (parts: Vec<InfoPart>)
        ensures
            parts@ == info_parts(*self, *settings, format_summary@.len() == 0, bitrate_summary@.len() == 0),
    {
        let mut parts: Vec<InfoPart> = Vec::new();
        if settings.show_source_format && format_summary.unicode_len() > 0 {
            parts.push(InfoPart::SourceFormat);
        }
        if settings.show_source_bitrate && bitrate_summary.unicode_len() > 0 {
            parts.push(InfoPart::SourceBitrate);
        }
        let ghost head = parts@;
        assert(head =~= part_if(settings.show_source_format && format_summary@.len() != 0, InfoPart::SourceFormat)
            + part_if(settings.show_source_bitrate && bitrate_summary@.len() != 0, InfoPart::SourceBitrate));
        let mut rest = self.status_info_parts(settings);
        parts.append(&mut rest);
        if !self.source_available {
            parts.push(InfoPart::SourceUnavailable);
        }
        assert(parts@ =~= info_parts(*self, *settings, format_summary@.len() == 0, bitrate_summary@.len() == 0));
        parts
    }

    /// The text of one piece of the detail line.
    pub fn info_part_text(
        part: InfoPart,
        format_summary: &str,
        bitrate_summary: &str,
        original_size: &str,
        converted_size: &str,
    ) -> (t: String)
        ensures
            t@ == info_part_text(part, format_summary@, bitrate_summary@, original_size@, converted_size@),
    {
        match part {
            InfoPart::SourceFormat => String::from_str(format_summary),
            InfoPart::SourceBitrate => String::from_str(bitrate_summary),
            InfoPart::Tracks(n) => {
                let mut t = decimal_string(n as u64);
                t.append(" tracks");
                t
            },
            InfoPart::TracksOf(n, m) => {
                let mut t = decimal_string(n as u64);
                t.append(" of ");
                push_decimal(&mut t, m as u64);
                t.append(" tracks");
                t
            },
            InfoPart::Files(n) => {
                let mut t = decimal_string(n as u64);
                t.append(" files");
                t
            },
            InfoPart::OriginalSize(_) => String::from_str(original_size),
            InfoPart::ConvertedSize(_) => {
                let mut t = String::from_str("→ ");
                t.append(converted_size);
                t
            },
            InfoPart::FinalBitrate(b) => {
                let mut t = String::from_str("@");
                push_decimal(&mut t, b as u64);
                t.append("k");
                t
            },
            InfoPart::FilesProgress(c, total) => {
                let mut t = decimal_string(c as u64);
                t.append("/");
                push_decimal(&mut t, total as u64);
                t.append(" files");
                t
            },
            InfoPart::Encoding => String::from_str("(encoding...)"),
            InfoPart::SourceUnavailable => String::from_str("⚠️ Source unavailable"),
        }
    }

    /// The detail line under the folder's name: its pieces joined by ", "
    /// (empty when there is none). `original_size` and `converted_size` are
    /// the folder's source and converted sizes as text.
    pub fn detail_line(
        &self,
        settings: &DisplaySettings,
        format_summary: &str,
        bitrate_summary: &str,
        original_size: &str,
        converted_size: &str,
    ) -> (line: String)
        ensures
            line@ == join(
                info_texts(
                    info_parts(*self, *settings, format_summary@.len() == 0, bitrate_summary@.len() == 0),
                    format_summary@, bitrate_summary@, original_size@, converted_size@,
                ),
                ", "@,
            ),
    {
        let parts = self.info_parts(settings, format_summary, bitrate_summary);
        let ghost ps = parts@;
        let mut texts: Vec<String> = Vec::new();
        let mut i: usize = 0;
        while i < parts.len()
            invariant
                i <= parts.len(),
                ps == parts@,
                texts@.map_values(|t: String| t@)
                    =~= info_texts(ps.take(i as int), format_summary@, bitrate_summary@, original_size@, converted_size@),
            decreases parts.len() - i,
        {
            let t = Self::info_part_text(parts[i], format_summary, bitrate_summary, original_size, converted_size);
            let ghost before = texts@;
            texts.push(t);
            assert(ps.take(i + 1) =~= ps.take(i as int).push(ps[i as int]));
            assert(texts@.map_values(|t: String| t@) =~= before.map_values(|t: String| t@).push(t@));
            assert(info_texts(ps.take(i + 1), format_summary@, bitrate_summary@, original_size@, converted_size@)
                =~= info_texts(ps.take(i as int), format_summary@, bitrate_summary@, original_size@, converted_size@)
                    .push(info_part_text(ps[i as int], format_summary@, bitrate_summary@, original_size@, converted_size@)));
            i = i + 1;
        }
        assert(ps.take(parts.len() as int) =~= ps);
        join_strings(&texts, ", ")
    }

    /// Conversion progress as `(completed, total)` files, while converting a
    /// non-empty folder.
    pub fn conversion_progress(&self) -> (p: Option<(usize, usize)>)
        ensures
            p == (match self.conversion_status {
                FolderConversionStatus::Converting { files_completed, files_total } =>
                    if files_total > 0 { Some((files_completed, files_total)) } else { None },
                _ => None,
            }),
    {
        match &self.conversion_status {
            FolderConversionStatus::Converting { files_completed, files_total } =>
                if *files_total > 0 { Some((*files_completed, *files_total)) } else { None },
            _ => None,
        }
    }

    /// Background of the folder's row.
    pub fn row_tone(&self, is_drop_target: bool) -> (t: RowTone)
        ensures
            t == (if is_drop_target { RowTone::DropTarget }
                else if !self.source_available { RowTone::Warning }
                else if !is_converted_status(self.conversion_status) { RowTone::Queued }
                else { RowTone::Card }),
    {
        if is_drop_target {
            RowTone::DropTarget
        } else if !self.source_available {
            RowTone::Warning
        } else if self.needs_transcoding() {
            RowTone::Queued
        } else {
            RowTone::Card
        }
    }

    /// Background of the folder's row under the pointer.
    pub fn hover_tone(&self) -> (t: RowTone)
        ensures
            t == (if !self.source_available { RowTone::Warning }
                else if !is_converted_status(self.conversion_status) { RowTone::Queued }
                else { RowTone::Card }),
    {
        self.row_tone(false)
    }

    /// The picture at the start of the row.
    pub fn row_icon(&self) -> (i: RowIcon)
        ensures
            i == (if self.album_art is Some { RowIcon::AlbumArt }
                else if self.kind is Mixtape { RowIcon::Mixtape }
                else { RowIcon::Folder }),
    {
        if self.album_art.is_some() {
            RowIcon::AlbumArt
        } else if self.is_mixtape() {
            RowIcon::Mixtape
        } else {
            RowIcon::Folder
        }
    }
}

/// What a drag of a folder row carries.
pub struct DraggedFolder {
    pub index: usize,
    pub path: String,
    pub album_art: Option<String>,
    pub file_count: u32,
    pub total_size: u64,
}

impl DraggedFolder {
    /// The drag data of the folder at `index`.
    pub fn new(index: usize, path: String, album_art: Option<String>, file_count: u32, total_size: u64) -> (d: Self)
        ensures
            d.index == index,
            d.path == path,
            d.album_art == album_art,
            d.file_count == file_count,
            d.total_size == total_size,
    {
        DraggedFolder { index, path, album_art, file_count, total_size }
    }
}

} // verus!
