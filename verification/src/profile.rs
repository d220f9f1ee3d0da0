//! Burn profiles: saving and loading the folder list, the questions asked
//! about unsaved changes, and putting a loaded profile's folders back in
//! the state they were saved in.

use vstd::prelude::*;
use crate::folder::{FolderConversionStatus, FolderKind, MusicFolder, copy_of, is_converted_status, opt_view};
use crate::folder_list::{FolderList, IsoState, iso_invalidated};
use crate::paths::{
    components, extension, file_name, file_stem, lowercase, parent, path_components, path_extension,
    path_file_name, path_file_stem, path_join, path_parent, to_lowercase,
};
use crate::text::{decimal, join, join_strings, push_decimal, str_eq};
use crate::volume_label::{default_label, default_label_string};

verus! {

/// The file extension of burn profiles.
pub open spec fn profile_extension() -> Seq<char> {
    ".mp3cd"@
}

/// Whether a dropped path is a burn profile: its extension is "mp3cd" in
/// any letter case.
pub open spec fn is_profile_path_spec(path: Seq<char>) -> bool {
    match path_extension(path) {
        Some(ext) => lowercase(ext) == "mp3cd"@,
        None => false,
    }
}

/// Whether a dropped path is a burn profile.
pub fn is_profile_path(path: &str) -> (b: bool)
    ensures
        b == is_profile_path_spec(path@),
{
    match extension(path) {
        Some(ext) => {
            let lower = to_lowercase(ext.as_str());
            str_eq(lower.as_str(), "mp3cd")
        },
        None => false,
    }
}

/// The first dropped path that is a burn profile.
pub fn find_profile_path(paths: &Vec<String>) -> (r: Option<usize>)
    ensures
        r matches Some(i) ==> i < paths@.len() && is_profile_path_spec(paths@[i as int]@)
            && forall|j: int| 0 <= j < i ==> !is_profile_path_spec(#[trigger] paths@[j]@),
        r is None ==> forall|j: int| 0 <= j < paths@.len() ==> !is_profile_path_spec(#[trigger] paths@[j]@),
{
    let mut i: usize = 0;
    while i < paths.len()
        invariant
            i <= paths.len(),
            forall|j: int| 0 <= j < i ==> !is_profile_path_spec(#[trigger] paths@[j]@),
        decreases paths.len() - i,
    {
        if is_profile_path(paths[i].as_str()) {
            return Some(i);
        }
        i = i + 1;
    }
    None
}

/// A request that may have to wait for unsaved changes to be saved.
pub enum ProfileFlow {
    /// File > New.
    New,
    /// File > Open.
    Open,
    /// A profile file was dropped on the window.
    LoadDropped(String),
}

/// The answer to "You have folders that haven't been saved to a Burn
/// Profile. What would you like to do?".
#[derive(Clone, Copy, Debug, PartialEq, Eq, Structural)]
pub enum UnsavedChoice {
    /// Show the save dialog first; the request follows once the save succeeded.
    SaveFirst,
    /// Go on without saving.
    Proceed,
    /// Do nothing.
    Cancelled,
}

/// What File > Save does first.
#[derive(Clone, Copy, Debug, PartialEq, Eq, Structural)]
pub enum SaveDialogStep {
    /// The list is empty: there is nothing to save.
    NothingToSave,
    /// Ask whether to include the converted audio files.
    AskFormat,
    /// Show the file picker straight away (metadata only).
    PickFile,
}

/// What to do once a save succeeded.
pub struct AfterSave {
    /// Show the open dialog (File > Open after saving).
    pub show_open_picker: bool,
    /// Load this profile (a dropped profile after saving).
    pub load_profile: Option<String>,
}

/// Where the save dialog starts.
pub struct SaveSuggestion {
    pub directory: String,
    pub file_name: String,
    /// The profile's name: the file name without ".mp3cd".
    pub profile_name: String,
}

/// Why a profile cannot be loaded.
#[derive(Clone, Copy, Debug, PartialEq, Eq, Structural)]
pub enum ProfileLoadError {
    /// An import is running.
    ImportInProgress,
    /// The profile lists no folders.
    NoFolders,
}

impl ProfileLoadError {
    /// The message the refusal is reported with.
    pub fn message(&self) -> (m: &'static str)
        ensures
            m@ == (match *self {
                ProfileLoadError::ImportInProgress => "Import already in progress"@,
                ProfileLoadError::NoFolders => "Profile has no folders"@,
            }),
    {
        match self {
            ProfileLoadError::ImportInProgress => "Import already in progress",
            ProfileLoadError::NoFolders => "Profile has no folders",
        }
    }
}

/// How a folder was saved in a profile.
#[derive(Clone)]
pub enum SavedFolderKind {
    Album { excluded_tracks: Vec<String>, track_order: Option<Vec<usize>> },
    Mixtape { name: String },
}

/// The saved state of a folder, as a profile holds it.
#[derive(Clone)]
pub struct SavedFolderState {
    pub kind: SavedFolderKind,
    pub lossless_bitrate: Option<u32>,
    pub output_size: u64,
    pub completed_at: Option<u64>,
}

/// Where a folder listed by a profile being loaded comes from.
#[derive(Clone, Copy, Debug, PartialEq, Eq, Structural)]
pub enum ProfileFolderSource {
    /// A mixtape rebuilt from the tracks the profile saved.
    SavedMixtape,
    /// The folder as scanned from disk.
    Scanned,
    /// An album rebuilt from the metadata the profile saved (its source is gone).
    SavedMetadata,
    /// The folder could not be scanned nor rebuilt; it is reported as failed.
    Failed,
    /// Nothing to load (an empty path that is no mixtape).
    Skipped,
}

/// Where the folder saved under `path` comes from. An empty path stands for
/// a mixtape. A folder that cannot be scanned is rebuilt from its saved
/// metadata only when the profile is a bundle that holds its converted files.
pub open spec fn profile_folder_source_spec(
    path: Seq<char>,
    saved_is_mixtape: Option<bool>,
    saved_has_display_metadata: bool,
    is_bundle: bool,
    scan_ok: bool,
) -> ProfileFolderSource {
    if path.len() == 0 {
        if saved_is_mixtape == Some(true) { ProfileFolderSource::SavedMixtape } else { ProfileFolderSource::Skipped }
    } else if scan_ok {
        ProfileFolderSource::Scanned
    } else if is_bundle && saved_is_mixtape is Some && saved_has_display_metadata {
        if saved_is_mixtape == Some(true) { ProfileFolderSource::SavedMixtape } else { ProfileFolderSource::SavedMetadata }
    } else {
        ProfileFolderSource::Failed
    }
}

/// Whether a saved state is that of a mixtape (`None` when nothing was saved).
pub open spec fn saved_is_mixtape(saved: Option<SavedFolderState>) -> Option<bool> {
    match saved {
        Some(st) => Some(st.kind is Mixtape),
        None => None,
    }
}

/// Where the folder saved under `path` comes from, given what the profile
/// saved for it, whether the saved state holds display metadata, whether
/// the profile is a bundle, and whether scanning the path succeeded (not
/// looked at for an empty path, which is never scanned).
pub fn profile_folder_source(
    path: &str,
    saved: &Option<SavedFolderState>,
    saved_has_display_metadata: bool,
    is_bundle: bool,
    scan_ok: bool,
) -> (src: ProfileFolderSource)
    ensures
        src == profile_folder_source_spec(path@, saved_is_mixtape(*saved), saved_has_display_metadata, is_bundle, scan_ok),
{
    let is_mixtape = match saved {
        Some(st) => Some(match st.kind {
            SavedFolderKind::Mixtape { .. } => true,
            SavedFolderKind::Album { .. } => false,
        }),
        None => None,
    };
    if path.unicode_len() == 0 {
        if is_mixtape == Some(true) { ProfileFolderSource::SavedMixtape } else { ProfileFolderSource::Skipped }
    } else if scan_ok {
        ProfileFolderSource::Scanned
    } else if is_bundle && is_mixtape.is_some() && saved_has_display_metadata {
        if is_mixtape == Some(true) { ProfileFolderSource::SavedMixtape } else { ProfileFolderSource::SavedMetadata }
    } else {
        ProfileFolderSource::Failed
    }
}

/// The file name suggested for saving: the current profile's name, or the
/// first folder's name, or "Untitled", with ".mp3cd".
pub open spec fn suggested_stem(l: FolderList) -> Seq<char> {
    match l.current_profile_path {
        Some(p) => match path_file_stem(p@) {
            Some(s) => s,
            None => "Untitled"@,
        },
        None => if l.folders@.len() > 0 {
            match path_file_name(l.folders@[0].path@) {
                Some(n) => n,
                None => "Untitled"@,
            }
        } else {
            "Untitled"@
        },
    }
}

/// The directory suggested for saving: that of the current profile, else
/// the documents directory.
pub open spec fn suggested_dir(l: FolderList, documents_dir: Seq<char>) -> Seq<char> {
    match l.current_profile_path {
        Some(p) => match path_parent(p@) {
            Some(d) => d,
            None => documents_dir,
        },
        None => documents_dir,
    }
}

/// The state right after File > New.
pub open spec fn cleared_for_new_profile(l: FolderList, new: FolderList) -> bool {
    &&& new.folders@.len() == 0
    &&& new.volume_label@ == default_label()
    &&& new == (FolderList {
        folders: new.folders,
        volume_label: new.volume_label,
        last_folder_change: None,
        last_calculated_bitrate: None,
        manual_bitrate_override: None,
        current_profile_path: None,
        has_unsaved_changes: false,
        ..iso_invalidated(l)
    })
}


/// The volume holding `path`: its first three components joined by "/",
/// when it has that many.
pub open spec fn volume_root(path: Seq<char>) -> Option<Seq<char>> {
    let cs = path_components(path);
    if cs.len() >= 3 { Some(join(cs.take(3), "/"@)) } else { None }
}

/// The roots of `paths`, each once, in the order they first occur.
pub open spec fn unique_roots(paths: Seq<String>) -> Seq<Seq<char>>
    decreases paths.len(),
{
    if paths.len() == 0 {
        Seq::empty()
    } else {
        let prev = unique_roots(paths.drop_last());
        match volume_root(paths.last()@) {
            Some(r) => if prev.contains(r) { prev } else { prev.push(r) },
            None => prev,
        }
    }
}

/// "" for one, "s" otherwise.
pub open spec fn plural_s(n: nat) -> Seq<char> {
    if n == 1 { Seq::empty() } else { "s"@ }
}

/// The message shown when folders of a profile could not be loaded.
pub open spec fn failed_folders_message(count: nat, roots: Seq<Seq<char>>) -> Seq<char> {
    let head = decimal(count) + " folder"@ + plural_s(count)
        + " could not be loaded because the source files are not accessible.\n\n"@;
    let tail = "\n\nThen reload the profile to access these folders."@;
    if roots.len() == 1 {
        head + "Please connect or mount: "@ + roots[0] + tail
    } else {
        head + "Please connect or mount these locations:\n• "@ + join(roots, "\n• "@) + tail
    }
}

/// The message shown when folders were restored from saved converted files
/// only.
pub open spec fn source_unavailable_message_spec(count: nat) -> Seq<char> {
    decimal(count) + " "@ + (if count == 1 { "folder"@ } else { "folders"@ })
        + " loaded from saved converted files.\n\nYou can still burn a CD, but cannot re-encode at a different bitrate without reconnecting the source volume."@
}

/// The title of the main window: the application's name, with the volume
/// label once it is set.
pub open spec fn window_title_spec(label: Seq<char>) -> Seq<char> {
    if label == default_label() || label.len() == 0 {
        "MP3 CD Burner"@
    } else {
        "MP3 CD Burner - "@ + label
    }
}

/// A folder from a loaded profile, with what was saved for it applied:
/// album exclusions and track order or the mixtape name always, and the
/// converted state when `restore` allows it.
pub open spec fn restored_folder(
    f: MusicFolder,
    saved: SavedFolderState,
    restore: bool,
    output_dir: String,
    measured_size: Option<u64>,
) -> MusicFolder {
    let with_kind = match saved.kind {
        SavedFolderKind::Album { excluded_tracks, track_order } =>
            MusicFolder { excluded_tracks, track_order, ..f },
        SavedFolderKind::Mixtape { name } => MusicFolder { kind: FolderKind::Mixtape { name }, ..f },
    };
    if restore {
        MusicFolder { conversion_status: saved_status(saved, output_dir, measured_size), ..with_kind }
    } else {
        with_kind
    }
}

/// The converted state saved for a folder, with its output where it now
/// lies and its size as measured there (the saved size when it could not
/// be measured).
pub open spec fn saved_status(saved: SavedFolderState, output_dir: String, measured_size: Option<u64>) -> FolderConversionStatus {
    FolderConversionStatus::Converted {
        output_dir,
        lossless_bitrate: saved.lossless_bitrate,
        output_size: match measured_size {
            Some(m) => m,
            None => saved.output_size,
        },
        completed_at: match saved.completed_at {
            Some(t) => t,
            None => 0,
        },
    }
}

/// The folders a loaded profile keeps: all but those whose path is also
/// the path of a folder that has neither source files nor converted ones.
pub open spec fn unusable(f: MusicFolder) -> bool {
    !f.source_available && !is_converted_status(f.conversion_status)
}

/// Some folder sharing the path of `f` is unusable.
pub open spec fn path_unusable(fs: Seq<MusicFolder>, path: Seq<char>) -> bool {
    exists|j: int| 0 <= j < fs.len() && unusable(#[trigger] fs[j]) && fs[j].path@ == path
}

/// The folders of `fs` that are kept, in order.
pub open spec fn kept_folders(all: Seq<MusicFolder>, fs: Seq<MusicFolder>) -> Seq<MusicFolder>
    decreases fs.len(),
{
    if fs.len() == 0 {
        Seq::empty()
    } else if path_unusable(all, fs[0].path@) {
        kept_folders(all, fs.drop_first())
    } else {
        seq![fs[0]] + kept_folders(all, fs.drop_first())
    }
}

/// Number of folders restored from saved converted files only.
pub open spec fn unavailable_converted(fs: Seq<MusicFolder>) -> nat
    decreases fs.len(),
{
    if fs.len() == 0 {
        0
    } else {
        unavailable_converted(fs.drop_last())
            + if !fs.last().source_available && is_converted_status(fs.last().conversion_status) { 1nat } else { 0nat }
    }
}

/// The lossless bitrate of the first converted folder that has one.
pub open spec fn first_lossless_bitrate(fs: Seq<MusicFolder>) -> Option<u32>
    decreases fs.len(),
{
    if fs.len() == 0 {
        None
    } else {
        match fs[0].conversion_status {
            FolderConversionStatus::Converted { lossless_bitrate: Some(b), .. } => Some(b),
            _ => first_lossless_bitrate(fs.drop_first()),
        }
    }
}

/// The folders that still have to be encoded: not converted, with their
/// source files at hand, in list order.
pub open spec fn to_encode(fs: Seq<MusicFolder>) -> Seq<MusicFolder>
    decreases fs.len(),
{
    if fs.len() == 0 {
        Seq::empty()
    } else if !is_converted_status(fs.last().conversion_status) && fs.last().source_available {
        to_encode(fs.drop_last()).push(fs.last())
    } else {
        to_encode(fs.drop_last())
    }
}

/// `copies` holds a copy of each of `fs`, in order.
pub open spec fn copies_of(copies: Seq<MusicFolder>, fs: Seq<MusicFolder>) -> bool {
    copies.len() == fs.len() && forall|k: int| 0 <= k < fs.len() ==> copy_of(#[trigger] copies[k], fs[k])
}

/// A converted folder of a bundle profile once its converted files were
/// copied out of the bundle (to `copied_to`), or could not be
/// (`None`: it has to be converted again).
pub open spec fn after_bundle_copy(f: MusicFolder, copied_to: Option<String>) -> MusicFolder {
    match f.conversion_status {
        FolderConversionStatus::Converted { lossless_bitrate, output_size, completed_at, .. } => match copied_to {
            Some(dir) => MusicFolder {
                conversion_status: FolderConversionStatus::Converted { output_dir: dir, lossless_bitrate, output_size, completed_at },
                ..f
            },
            None => MusicFolder { conversion_status: FolderConversionStatus::NotConverted, ..f },
        },
        _ => f,
    }
}

/// Summary of a finished profile import.
pub struct ProfileImportSummary {
    /// Copies of the folders that still have to be encoded, to queue.
    pub needs_encoding: Vec<MusicFolder>,
    /// Folders restored from saved converted files only.
    pub source_unavailable_converted: usize,
}

/// `s` followed by the decimal spelling of `n`.
fn append_decimal(s: &mut String, n: usize)
    ensures
        final(s)@ == old(s)@ + decimal(n as nat),
{
    push_decimal(s, n as u64);
}

/// The message shown when folders were restored from saved converted files only.
pub fn source_unavailable_message(count: usize) -> (m: String)
    ensures
        m@ == source_unavailable_message_spec(count as nat),
{
    let mut m = String::new();
    append_decimal(&mut m, count);
    m.append(" ");
    if count == 1 {
        m.append("folder");
    } else {
        m.append("folders");
    }
    m.append(" loaded from saved converted files.\n\nYou can still burn a CD, but cannot re-encode at a different bitrate without reconnecting the source volume.");
    m
}


/// The volume holding `path`, when its path has three components.
pub fn volume_root_of(path: &str) -> (r: Option<String>)
    ensures
        r is Some == volume_root(path@) is Some,
        r matches Some(v) ==> v@ == volume_root(path@).unwrap(),
{
    let cs = components(path);
    if cs.len() < 3 {
        return None;
    }
    let mut first3: Vec<String> = Vec::new();
    first3.push(cs[0].clone());
    first3.push(cs[1].clone());
    first3.push(cs[2].clone());
    assert(first3@.map_values(|p: String| p@) =~= path_components(path@).take(3));
    Some(join_strings(&first3, "/"))
}

/// `p` is the text of some string of `v`.
pub open spec fn listed(v: Seq<String>, p: Seq<char>) -> bool {
    exists|k: int| 0 <= k < v.len() && #[trigger] v[k]@ == p
}

/// Whether `s` is among `v`.
pub fn contains_string(v: &Vec<String>, s: &String) -> (b: bool)
    ensures
        b == listed(v@, s@),
        b == v@.map_values(|p: String| p@).contains(s@),
{
    let mut i: usize = 0;
    while i < v.len()
        invariant
            i <= v.len(),
            forall|j: int| 0 <= j < i ==> v@[j]@ != s@,
        decreases v.len() - i,
    {
        if v[i] == *s {
            assert(v@.map_values(|p: String| p@)[i as int] == s@);
            assert(v@[i as int]@ == s@);
            return true;
        }
        i = i + 1;
    }
    assert(!v@.map_values(|p: String| p@).contains(s@));
    false
}

/// `i` is the first position of `path` in `paths`.
pub open spec fn first_position(paths: Seq<String>, path: Seq<char>, i: int) -> bool {
    0 <= i < paths.len() && paths[i]@ == path && forall|j: int| 0 <= j < i ==> paths[j]@ != path
}

/// Where the converted files of a folder saved under `saved_dir` lie: in a
/// bundle profile the saved folder is relative to the bundle, otherwise it
/// is the folder itself.
pub open spec fn resolved_output_dir(bundle_path: Option<Seq<char>>, saved_dir: Seq<char>) -> Seq<char> {
    match bundle_path {
        Some(b) => path_join(b, saved_dir),
        None => saved_dir,
    }
}

/// The first position of `path` in `paths`.
pub fn first_path_position(paths: &Vec<String>, path: &String) -> (r: Option<usize>)
    ensures
        r matches Some(i) ==> first_position(paths@, path@, i as int),
        r is None ==> forall|j: int| 0 <= j < paths@.len() ==> paths@[j]@ != path@,
{
    let mut i: usize = 0;
    while i < paths.len()
        invariant
            i <= paths.len(),
            forall|j: int| 0 <= j < i ==> paths@[j]@ != path@,
        decreases paths.len() - i,
    {
        if paths[i] == *path {
            return Some(i);
        }
        i = i + 1;
    }
    None
}

/// What a profile being loaded says of a folder that arrived from the scan:
/// the position of its path among the profile's paths (first match),
/// whether the folder is unchanged since the profile was saved, and where
/// its converted files lie (empty when the profile does not list it).
pub fn profile_folder_inputs(
    folder_path: &String,
    paths: &Vec<String>,
    output_dirs: &Vec<String>,
    valid_folders: &Vec<String>,
    bundle_path: &Option<String>,
) -> (r: (Option<usize>, bool, String))
    ensures
        r.0 matches Some(i) ==> first_position(paths@, folder_path@, i as int),
        r.0 is None ==> forall|j: int| 0 <= j < paths@.len() ==> paths@[j]@ != folder_path@,
        r.1 == listed(valid_folders@, folder_path@),
        r.2@ == (match r.0 {
            Some(i) => if (i as int) < output_dirs@.len() {
                resolved_output_dir(opt_view(*bundle_path), output_dirs@[i as int]@)
            } else {
                Seq::<char>::empty()
            },
            None => Seq::<char>::empty(),
        }),
{
    let pos = first_path_position(paths, folder_path);
    let valid = contains_string(valid_folders, folder_path);
    let dir = match pos {
        Some(i) => if i < output_dirs.len() {
            match bundle_path {
                Some(b) => crate::paths::join(b.as_str(), output_dirs[i].as_str()),
                None => output_dirs[i].clone(),
            }
        } else {
            String::new()
        },
        None => String::new(),
    };
    (pos, valid, dir)
}

/// The message shown when folders of a profile could not be loaded,
/// naming the volumes to connect.
pub fn failed_folders_message_for(failed_paths: &Vec<String>) -> (m: String)
    ensures
        m@ == failed_folders_message(failed_paths@.len(), unique_roots(failed_paths@)),
{
    let mut roots: Vec<String> = Vec::new();
    let mut i: usize = 0;
    while i < failed_paths.len()
        invariant
            i <= failed_paths.len(),
            roots@.map_values(|p: String| p@) =~= unique_roots(failed_paths@.take(i as int)),
        decreases failed_paths.len() - i,
    {
        assert(failed_paths@.take(i + 1).drop_last() =~= failed_paths@.take(i as int));
        if let Some(root) = volume_root_of(failed_paths[i].as_str()) {
            if !contains_string(&roots, &root) {
                roots.push(root);
            }
        }
        i = i + 1;
    }
    assert(failed_paths@.take(failed_paths.len() as int) =~= failed_paths@);
    let count = failed_paths.len();
    let mut m = String::new();
    append_decimal(&mut m, count);
    m.append(" folder");
    if count != 1 {
        m.append("s");
    }
    m.append(" could not be loaded because the source files are not accessible.\n\n");
    if roots.len() == 1 {
        m.append("Please connect or mount: ");
        m.append(roots[0].as_str());
    } else {
        m.append("Please connect or mount these locations:\n• ");
        let joined = join_strings(&roots, "\n• ");
        m.append(joined.as_str());
    }
    m.append("\n\nThen reload the profile to access these folders.");
    m
}

/// The error raised when folders of a profile could not be loaded: its
/// title and message, or nothing when every folder loaded.
pub fn profile_import_error(failed_paths: &Vec<String>) -> (e: Option<(String, String)>)
    ensures
        failed_paths@.len() == 0 ==> e is None,
        failed_paths@.len() > 0 ==> (e matches Some((t, m)) && t@ == "Could Not Load All Folders"@
            && m@ == failed_folders_message(failed_paths@.len(), unique_roots(failed_paths@))),
{
    if failed_paths.len() == 0 {
        None
    } else {
        Some((String::from_str("Could Not Load All Folders"), failed_folders_message_for(failed_paths)))
    }
}

/// The notice shown when `count` folders were restored from saved converted
/// files only: its title and message, or nothing when there are none.
pub fn source_unavailable_notice(count: usize) -> (n: Option<(String, String)>)
    ensures
        count == 0 ==> n is None,
        count > 0 ==> (n matches Some((t, m)) && t@ == "Source Files Not Available"@
            && m@ == source_unavailable_message_spec(count as nat)),
{
    if count == 0 {
        None
    } else {
        Some((String::from_str("Source Files Not Available"), source_unavailable_message(count)))
    }
}

impl FolderList {
    /// The title of the main window.
    pub fn window_title(&self) -> (t: String)
        ensures
            t@ == window_title_spec(self.volume_label@),
    {
        let default = default_label_string();
        if self.volume_label == default || self.volume_label.as_str().unicode_len() == 0 {
            String::from_str("MP3 CD Burner")
        } else {
            let mut t = String::from_str("MP3 CD Burner - ");
            t.append(self.volume_label.as_str());
            t
        }
    }

    /// The volume label a profile stores: none for the default label.
    pub fn profile_volume_label(&self) -> (l: Option<String>)
        ensures
            self.volume_label@ == default_label() ==> l is None,
            self.volume_label@ != default_label() ==> (l matches Some(v) && v@ == self.volume_label@),
    {
        let default = default_label_string();
        if self.volume_label == default {
            None
        } else {
            Some(self.volume_label.clone())
        }
    }

    /// File > New, once any unsaved changes are dealt with: an empty list,
    /// the default label, automatic bitrate, no profile.
    pub fn clear_for_new_profile(&mut self)
        ensures
            cleared_for_new_profile(*old(self), *final(self)),
    {
        self.folders.clear();
        self.iso_state = None;
        self.iso_generation_attempted = false;
        self.iso_has_been_burned = false;
        self.last_folder_change = None;
        self.last_calculated_bitrate = None;
        self.manual_bitrate_override = None;
        self.volume_label = default_label_string();
        self.current_profile_path = None;
        self.has_unsaved_changes = false;
    }

    /// File > New, Open or a dropped profile has to ask about unsaved changes first.
    pub fn needs_unsaved_prompt(&self) -> (b: bool)
        ensures
            b == self.has_unsaved_changes,
    {
        self.has_unsaved_changes
    }

    /// The answer to the unsaved-changes question for `flow`: button 0 saves
    /// first (the request is remembered until the save succeeds), button 1
    /// goes on, anything else cancels.
    pub fn resolve_unsaved_prompt(&mut self, choice: usize, flow: ProfileFlow) -> (c: UnsavedChoice)
        ensures
            c == (if choice == 0 { UnsavedChoice::SaveFirst } else if choice == 1 { UnsavedChoice::Proceed } else { UnsavedChoice::Cancelled }),
            choice == 0 ==> match flow {
                ProfileFlow::New => *final(self) == (FolderList { pending_new_after_save: true, ..*old(self) }),
                ProfileFlow::Open => *final(self) == (FolderList { pending_open_after_save: true, ..*old(self) }),
                ProfileFlow::LoadDropped(p) => *final(self) == (FolderList { pending_load_profile_path: Some(p), ..*old(self) }),
            },
            choice != 0 ==> *final(self) == *old(self),
    {
        if choice == 0 {
            match flow {
                ProfileFlow::New => self.pending_new_after_save = true,
                ProfileFlow::Open => self.pending_open_after_save = true,
                ProfileFlow::LoadDropped(p) => self.pending_load_profile_path = Some(p),
            }
            UnsavedChoice::SaveFirst
        } else if choice == 1 {
            UnsavedChoice::Proceed
        } else {
            UnsavedChoice::Cancelled
        }
    }

    /// Forgets the requests that were waiting for a save (the save was
    /// cancelled or failed).
    pub fn save_abandoned(&mut self)
        ensures
            *final(self) == (FolderList {
                pending_new_after_save: false,
                pending_open_after_save: false,
                pending_load_profile_path: None,
                ..*old(self)
            }),
    {
        self.pending_new_after_save = false;
        self.pending_open_after_save = false;
        self.pending_load_profile_path = None;
    }

    /// Whether the save dialog asks to include the converted audio: only
    /// when some folder is converted.
    pub fn asks_save_format(&self) -> (b: bool)
        ensures
            b == exists|i: int| 0 <= i < self.folders@.len() && is_converted_status(#[trigger] self.folders@[i].conversion_status),
    {
        self.has_converted_folders()
    }

    /// The error waiting to be shown, which is then forgotten.
    pub fn take_pending_error_message(&mut self) -> (e: Option<(String, String)>)
        ensures
            e == old(self).pending_error_message,
            *final(self) == (FolderList { pending_error_message: None, ..*old(self) }),
    {
        self.pending_error_message.take()
    }

    /// The notice waiting to be shown, which is then forgotten.
    pub fn take_pending_info_message(&mut self) -> (n: Option<(String, String)>)
        ensures
            n == old(self).pending_info_message,
            *final(self) == (FolderList { pending_info_message: None, ..*old(self) }),
    {
        self.pending_info_message.take()
    }

    /// File > Save: nothing for an empty list; the format question when
    /// some folder is converted; otherwise the file picker.
    pub fn save_profile_dialog(&self) -> (step: SaveDialogStep)
        ensures
            step == (if self.folders@.len() == 0 {
                SaveDialogStep::NothingToSave
            } else if exists|i: int| 0 <= i < self.folders@.len() && is_converted_status(#[trigger] self.folders@[i].conversion_status) {
                SaveDialogStep::AskFormat
            } else {
                SaveDialogStep::PickFile
            }),
    {
        if self.folders.len() == 0 {
            SaveDialogStep::NothingToSave
        } else if self.asks_save_format() {
            SaveDialogStep::AskFormat
        } else {
            SaveDialogStep::PickFile
        }
    }

    /// File > New: without unsaved changes the list is cleared at once;
    /// otherwise nothing changes yet and the unsaved-changes question is to
    /// be asked. Returns whether to ask it.
    pub fn new_profile(&mut self) -> (ask: bool)
        ensures
            ask == old(self).has_unsaved_changes,
            ask ==> *final(self) == *old(self),
            !ask ==> cleared_for_new_profile(*old(self), *final(self)),
    {
        if self.has_unsaved_changes {
            return true;
        }
        self.clear_for_new_profile();
        false
    }

    /// The answer to "Include Audio Files / Metadata Only / Cancel": whether
    /// to save a bundle with the audio, or nothing (cancel, which also
    /// forgets waiting requests).
    pub fn resolve_save_format_prompt(&mut self, choice: usize) -> (for_bundle: Option<bool>)
        ensures
            for_bundle == (if choice == 0 { Some(true) } else if choice == 1 { Some(false) } else { None }),
            choice <= 1 ==> *final(self) == *old(self),
            choice > 1 ==> *final(self) == (FolderList {
                pending_new_after_save: false,
                pending_open_after_save: false,
                pending_load_profile_path: None,
                ..*old(self)
            }),
    {
        if choice == 0 {
            Some(true)
        } else if choice == 1 {
            Some(false)
        } else {
            self.save_abandoned();
            None
        }
    }

    /// Where the save dialog starts and what it suggests.
    pub fn save_suggestion(&self, documents_dir: String) -> (s: SaveSuggestion)
        ensures
            s.directory@ == suggested_dir(*self, documents_dir@),
            s.file_name@ == suggested_stem(*self) + profile_extension(),
            s.profile_name@ == suggested_stem(*self),
    {
        let (dir, stem) = match &self.current_profile_path {
            Some(p) => {
                let dir = match parent(p.as_str()) {
                    Some(d) => d,
                    None => documents_dir,
                };
                let stem = match file_stem(p.as_str()) {
                    Some(s) => s,
                    None => String::from_str("Untitled"),
                };
                (dir, stem)
            },
            None => {
                let stem = if self.folders.len() > 0 {
                    match file_name(self.folders[0].path.as_str()) {
                        Some(n) => n,
                        None => String::from_str("Untitled"),
                    }
                } else {
                    String::from_str("Untitled")
                };
                (documents_dir, stem)
            },
        };
        let mut file_name = stem.clone();
        file_name.append(".mp3cd");
        SaveSuggestion { directory: dir, file_name, profile_name: stem }
    }

    /// The name a profile saved at `chosen_path` gets: the file's stem, or
    /// the suggested name.
    pub fn chosen_profile_name(chosen_path: &str, suggested: String) -> (n: String)
        ensures
            n@ == (match path_file_stem(chosen_path@) {
                Some(s) => s,
                None => suggested@,
            }),
    {
        match file_stem(chosen_path) {
            Some(s) => s,
            None => suggested,
        }
    }

    /// A save to `path` succeeded: the profile is current and saved, and the
    /// requests that waited for it go ahead (File > New clears the list here).
    pub fn save_succeeded(&mut self, path: String) -> (next: AfterSave)
        ensures
            next.show_open_picker == old(self).pending_open_after_save,
            next.load_profile == old(self).pending_load_profile_path,
            old(self).pending_new_after_save ==> {
                let saved = FolderList {
                    current_profile_path: Some(path),
                    has_unsaved_changes: false,
                    pending_new_after_save: false,
                    pending_open_after_save: false,
                    pending_load_profile_path: None,
                    ..*old(self)
                };
                cleared_for_new_profile(saved, *final(self))
            },
            !old(self).pending_new_after_save ==> *final(self) == (FolderList {
                current_profile_path: Some(path),
                has_unsaved_changes: false,
                pending_open_after_save: false,
                pending_load_profile_path: None,
                ..*old(self)
            }),
    {
        self.current_profile_path = Some(path);
        self.has_unsaved_changes = false;
        let show_open_picker = self.pending_open_after_save;
        self.pending_open_after_save = false;
        let load_profile = self.pending_load_profile_path.take();
        if self.pending_new_after_save {
            self.pending_new_after_save = false;
            self.clear_for_new_profile();
        }
        AfterSave { show_open_picker, load_profile }
    }

    /// Starts loading a profile that lists `folder_count` folders: refused
    /// while an import runs or when it lists none; otherwise the list is
    /// emptied and the profile's label and manual bitrate take effect.
    pub fn begin_profile_load(
        &mut self,
        path: String,
        folder_count: usize,
        volume_label: Option<String>,
        manual_bitrate_override: Option<u32>,
        import_in_progress: bool,
    ) -> (r: Result<(), ProfileLoadError>)
        ensures
            import_in_progress ==> r == Err::<(), ProfileLoadError>(ProfileLoadError::ImportInProgress) && *final(self) == *old(self),
            !import_in_progress && folder_count == 0 ==> r == Err::<(), ProfileLoadError>(ProfileLoadError::NoFolders) && *final(self) == *old(self),
            !import_in_progress && folder_count > 0 ==> {
                &&& r is Ok
                &&& final(self).folders@.len() == 0
                &&& final(self).volume_label@ == (match volume_label { Some(l) => l@, None => default_label() })
                &&& *final(self) == (FolderList {
                    folders: final(self).folders,
                    volume_label: final(self).volume_label,
                    last_calculated_bitrate: None,
                    current_profile_path: Some(path),
                    has_unsaved_changes: false,
                    manual_bitrate_override: manual_bitrate_override,
                    ..iso_invalidated(*old(self))
                })
            },
    {
        if import_in_progress {
            return Err(ProfileLoadError::ImportInProgress);
        }
        if folder_count == 0 {
            return Err(ProfileLoadError::NoFolders);
        }
        self.folders.clear();
        self.iso_state = None;
        self.iso_generation_attempted = false;
        self.iso_has_been_burned = false;
        self.last_calculated_bitrate = None;
        self.current_profile_path = Some(path);
        self.has_unsaved_changes = false;
        self.volume_label = match volume_label {
            Some(l) => l,
            None => default_label_string(),
        };
        self.manual_bitrate_override = manual_bitrate_override;
        Ok(())
    }

    /// Adds a folder scanned for a profile being loaded, with what the
    /// profile saved for it. Its converted state comes back when the folder
    /// is unchanged (`valid`) or its source is gone; `output_dir` is where
    /// the converted files lie and `measured_size` their measured size.
    pub fn add_profile_folder(
        &mut self,
        folder: MusicFolder,
        saved: Option<SavedFolderState>,
        loading_profile: bool,
        valid: bool,
        output_dir: String,
        measured_size: Option<u64>,
    )
        ensures
            final(self).folders@ == old(self).folders@.push(match saved {
                Some(st) => restored_folder(folder, st, loading_profile && (valid || !folder.source_available), output_dir, measured_size),
                None => folder,
            }),
            *final(self) == (FolderList { folders: final(self).folders, ..*old(self) }),
    {
        let restore = loading_profile && (valid || !folder.source_available);
        let mut folder = folder;
        if let Some(st) = saved {
            let SavedFolderState { kind, lossless_bitrate, output_size, completed_at } = st;
            match kind {
                SavedFolderKind::Album { excluded_tracks, track_order } => {
                    folder.excluded_tracks = excluded_tracks;
                    folder.track_order = track_order;
                },
                SavedFolderKind::Mixtape { name } => {
                    folder.kind = FolderKind::Mixtape { name };
                },
            }
            if restore {
                folder.conversion_status = FolderConversionStatus::Converted {
                    output_dir,
                    lossless_bitrate,
                    output_size: match measured_size {
                        Some(m) => m,
                        None => output_size,
                    },
                    completed_at: match completed_at {
                        Some(t) => t,
                        None => 0,
                    },
                };
            }
        }
        self.folders.push(folder);
    }

    /// Adds a folder that was scanned for a profile being loaded but only
    /// collected once the scan had finished: of what the profile saved for
    /// it, only the converted state comes back (when the folder is unchanged
    /// or its source is gone), not its exclusions, order or name.
    pub fn add_late_profile_folder(
        &mut self,
        folder: MusicFolder,
        saved: Option<SavedFolderState>,
        loading_profile: bool,
        valid: bool,
        output_dir: String,
        measured_size: Option<u64>,
    )
        ensures
            final(self).folders@ == old(self).folders@.push(match saved {
                Some(st) => if loading_profile && (valid || !folder.source_available) {
                    MusicFolder { conversion_status: saved_status(st, output_dir, measured_size), ..folder }
                } else {
                    folder
                },
                None => folder,
            }),
            *final(self) == (FolderList { folders: final(self).folders, ..*old(self) }),
    {
        let restore = loading_profile && (valid || !folder.source_available);
        let mut folder = folder;
        if let Some(st) = saved {
            if restore {
                folder.conversion_status = FolderConversionStatus::Converted {
                    output_dir,
                    lossless_bitrate: st.lossless_bitrate,
                    output_size: match measured_size {
                        Some(m) => m,
                        None => st.output_size,
                    },
                    completed_at: match st.completed_at {
                        Some(t) => t,
                        None => 0,
                    },
                };
            }
        }
        self.folders.push(folder);
    }

    /// Finishes loading a profile. The folders still to encode (not
    /// converted, source at hand) are copied out for the encoder; then the
    /// folders with neither source files nor converted ones are dropped,
    /// together with every folder of the same path. When nothing was left
    /// to encode, the lossless bitrate of the first converted folder is
    /// taken as the calculated bitrate.
    pub fn finish_profile_import(&mut self, failed_paths: &Vec<String>) -> (summary: ProfileImportSummary)
        ensures
            failed_paths@.len() == 0 ==> final(self).pending_error_message == old(self).pending_error_message,
            failed_paths@.len() > 0 ==> (final(self).pending_error_message matches Some((t, m))
                && t@ == "Could Not Load All Folders"@
                && m@ == failed_folders_message(failed_paths@.len(), unique_roots(failed_paths@))),
            summary.source_unavailable_converted == 0 ==> final(self).pending_info_message == old(self).pending_info_message,
            summary.source_unavailable_converted > 0 ==> (final(self).pending_info_message matches Some((t, m))
                && t@ == "Source Files Not Available"@
                && m@ == source_unavailable_message_spec(summary.source_unavailable_converted as nat)),
            copies_of(summary.needs_encoding@, to_encode(old(self).folders@)),
            final(self).folders@ == kept_folders(old(self).folders@, old(self).folders@),
            summary.source_unavailable_converted == unavailable_converted(final(self).folders@),
            summary.needs_encoding@.len() == 0 ==> final(self).last_calculated_bitrate == (
                match first_lossless_bitrate(final(self).folders@) {
                    Some(b) => Some(b),
                    None => old(self).last_calculated_bitrate,
                }),
            summary.needs_encoding@.len() > 0 ==> final(self).last_calculated_bitrate == old(self).last_calculated_bitrate,
            *final(self) == (FolderList {
                folders: final(self).folders,
                last_calculated_bitrate: final(self).last_calculated_bitrate,
                pending_error_message: final(self).pending_error_message,
                pending_info_message: final(self).pending_info_message,
                ..*old(self)
            }),
    {
        if let Some(e) = profile_import_error(failed_paths) {
            self.pending_error_message = Some(e);
        }
        let needs = self.folders_to_encode();
        self.drop_unusable_folders();
        let unavailable = self.unavailable_converted_count();
        if needs.len() == 0 {
            if let Some(b) = self.first_lossless_bitrate() {
                self.last_calculated_bitrate = Some(b);
            }
        }
        if let Some(n) = source_unavailable_notice(unavailable) {
            self.pending_info_message = Some(n);
        }
        ProfileImportSummary { needs_encoding: needs, source_unavailable_converted: unavailable }
    }

    /// The bitrates to send the encoder once a profile has loaded: first the
    /// automatic mode (0) when folders are left to encode, so that the
    /// encoder settles the bitrate after measuring the lossy files; then the
    /// bitrate set by hand, when the profile has one.
    pub fn load_bitrate_commands(&self, summary: &ProfileImportSummary) -> (cmds: Vec<u32>)
        ensures
            cmds@ == (if summary.needs_encoding@.len() > 0 { seq![0u32] } else { Seq::<u32>::empty() })
                + (match self.manual_bitrate_override {
                    Some(b) => seq![b],
                    None => Seq::<u32>::empty(),
                }),
    {
        let mut cmds: Vec<u32> = Vec::new();
        if summary.needs_encoding.len() > 0 {
            cmds.push(0);
        }
        if let Some(b) = self.manual_bitrate_override {
            cmds.push(b);
        }
        proof {
            let head = if summary.needs_encoding@.len() > 0 { seq![0u32] } else { Seq::<u32>::empty() };
            let tail = match self.manual_bitrate_override { Some(b) => seq![b], None => Seq::<u32>::empty() };
            assert(cmds@ =~= head + tail);
        }
        cmds
    }

    /// The ISO a loaded profile saved, once checked against the loaded
    /// folders (`None` when there was none or it no longer matches): a
    /// matching one becomes the current ISO again.
    pub fn restore_iso_state(&mut self, checked: Option<IsoState>)
        ensures
            *final(self) == (FolderList {
                iso_state: match checked {
                    Some(iso) => Some(iso),
                    None => old(self).iso_state,
                },
                ..*old(self)
            }),
    {
        if let Some(iso) = checked {
            self.iso_state = Some(iso);
        }
    }

    /// The converted folder at `index` of a bundle profile, once its files
    /// were copied out of the bundle to `copied_to` (or could not be).
    /// Other folders are left as they are.
    pub fn apply_bundle_copy(&mut self, index: usize, copied_to: Option<String>)
        ensures
            index < old(self).folders@.len() ==> final(self).folders@
                == old(self).folders@.update(index as int, after_bundle_copy(old(self).folders@[index as int], copied_to)),
            index >= old(self).folders@.len() ==> final(self).folders@ == old(self).folders@,
            *final(self) == (FolderList { folders: final(self).folders, ..*old(self) }),
    {
        if index >= self.folders.len() {
            return;
        }
        let ghost before = self.folders@;
        let st = self.folders[index].conversion_status.duplicate();
        match st {
            FolderConversionStatus::Converted { output_dir: _, lossless_bitrate, output_size, completed_at } => {
                match copied_to {
                    Some(dir) => {
                        self.folders[index].conversion_status =
                            FolderConversionStatus::Converted { output_dir: dir, lossless_bitrate, output_size, completed_at };
                    },
                    None => {
                        self.folders[index].conversion_status = FolderConversionStatus::NotConverted;
                    },
                }
                assert(self.folders@ =~= before.update(index as int, after_bundle_copy(before[index as int], copied_to)));
            },
            _ => {
                assert(before.update(index as int, after_bundle_copy(before[index as int], copied_to)) =~= before);
            },
        }
    }

    /// Drops the folders that have neither source files nor converted ones,
    /// together with all folders of the same path.
    fn drop_unusable_folders(&mut self)
        ensures
            final(self).folders@ == kept_folders(old(self).folders@, old(self).folders@),
            *final(self) == (FolderList { folders: final(self).folders, ..*old(self) }),
    {
        let ghost all = self.folders@;
        let mut remove_paths: Vec<String> = Vec::new();
        let mut i: usize = 0;
        while i < self.folders.len()
            invariant
                i <= self.folders.len(),
                self.folders@ == all,
                forall|j: int| 0 <= j < remove_paths@.len() ==> path_unusable(all, #[trigger] remove_paths@[j]@),
                forall|j: int| 0 <= j < i && unusable(#[trigger] all[j]) ==> listed(remove_paths@, all[j].path@),
            decreases self.folders.len() - i,
        {
            if !self.folders[i].source_available && !self.folders[i].is_converted() {
                let ghost before = remove_paths@;
                remove_paths.push(self.folders[i].path.clone());
                assert forall|j: int| 0 <= j < i + 1 && unusable(#[trigger] all[j]) implies listed(remove_paths@, all[j].path@) by {
                    if j < i {
                        let k = choose|k: int| 0 <= k < before.len() && #[trigger] before[k]@ == all[j].path@;
                        assert(remove_paths@[k]@ == all[j].path@);
                    } else {
                        assert(remove_paths@[remove_paths@.len() - 1]@ == all[j].path@);
                    }
                }
                assert(path_unusable(all, all[i as int].path@));
            }
            i = i + 1;
        }
        let mut i: usize = self.folders.len();
        assert(all.skip(all.len() as int) =~= Seq::<MusicFolder>::empty());
        assert(all.take(all.len() as int) =~= all);
        assert(self.folders@ =~= all.take(i as int) + kept_folders(all, all.skip(i as int)));
        while i > 0
            invariant
                i <= all.len(),
                self.folders@ == all.take(i as int) + kept_folders(all, all.skip(i as int)),
                forall|j: int| 0 <= j < remove_paths@.len() ==> path_unusable(all, #[trigger] remove_paths@[j]@),
                forall|j: int| 0 <= j < all.len() && unusable(#[trigger] all[j]) ==> listed(remove_paths@, all[j].path@),
                *self == (FolderList { folders: self.folders, ..*old(self) }),
                all == old(self).folders@,
            decreases i,
        {
            let ghost tail = all.skip(i - 1);
            assert(tail.drop_first() =~= all.skip(i as int));
            assert(tail[0] == all[i - 1]);
            assert(self.folders@[i - 1] == all[i - 1]);
            let drop = contains_string(&remove_paths, &self.folders[i - 1].path);
            proof {
                if drop {
                    let k = choose|k: int| 0 <= k < remove_paths@.len() && #[trigger] remove_paths@[k]@ == all[i - 1].path@;
                    assert(path_unusable(all, remove_paths@[k]@));
                } else {
                    if path_unusable(all, all[i - 1].path@) {
                        let j = choose|j: int| 0 <= j < all.len() && unusable(#[trigger] all[j]) && all[j].path@ == all[i - 1].path@;
                        assert(listed(remove_paths@, all[j].path@));
                    }
                }
            }
            if drop {
                self.folders.remove(i - 1);
                assert(self.folders@ =~= all.take(i - 1) + kept_folders(all, tail));
            } else {
                assert(self.folders@ =~= all.take(i - 1) + kept_folders(all, tail));
            }
            i = i - 1;
        }
        assert(all.skip(0) =~= all);
        assert(self.folders@ =~= kept_folders(all, all));
    }

    /// Copies of the folders still to encode, in list order.
    fn folders_to_encode(&self) -> (r: Vec<MusicFolder>)
        ensures
            copies_of(r@, to_encode(self.folders@)),
    {
        let mut r: Vec<MusicFolder> = Vec::new();
        let mut i: usize = 0;
        while i < self.folders.len()
            invariant
                i <= self.folders.len(),
                copies_of(r@, to_encode(self.folders@.take(i as int))),
            decreases self.folders.len() - i,
        {
            assert(self.folders@.take(i + 1).drop_last() =~= self.folders@.take(i as int));
            assert(self.folders@.take(i + 1).last() == self.folders@[i as int]);
            if !self.folders[i].is_converted() && self.folders[i].source_available {
                r.push(self.folders[i].duplicate());
            }
            i = i + 1;
        }
        assert(self.folders@.take(self.folders.len() as int) =~= self.folders@);
        r
    }

    /// Number of folders restored from saved converted files only.
    fn unavailable_converted_count(&self) -> (n: usize)
        ensures
            n == unavailable_converted(self.folders@),
    {
        let mut n: usize = 0;
        let mut i: usize = 0;
        while i < self.folders.len()
            invariant
                i <= self.folders.len(),
                n == unavailable_converted(self.folders@.take(i as int)),
                n <= i,
            decreases self.folders.len() - i,
        {
            assert(self.folders@.take(i + 1).drop_last() =~= self.folders@.take(i as int));
            if !self.folders[i].source_available && self.folders[i].is_converted() {
                n = n + 1;
            }
            i = i + 1;
        }
        assert(self.folders@.take(self.folders.len() as int) =~= self.folders@);
        n
    }

    /// The lossless bitrate of the first converted folder that has one.
    fn first_lossless_bitrate(&self) -> (b: Option<u32>)
        ensures
            b == first_lossless_bitrate(self.folders@),
    {
        let mut i: usize = 0;
        assert(self.folders@.skip(0) =~= self.folders@);
        while i < self.folders.len()
            invariant
                i <= self.folders.len(),
                first_lossless_bitrate(self.folders@) == first_lossless_bitrate(self.folders@.skip(i as int)),
            decreases self.folders.len() - i,
        {
            assert(self.folders@.skip(i as int).drop_first() =~= self.folders@.skip(i + 1));
            match &self.folders[i].conversion_status {
                FolderConversionStatus::Converted { lossless_bitrate: Some(b), .. } => {
                    return Some(*b);
                },
                _ => {},
            }
            i = i + 1;
        }
        assert(self.folders@.skip(i as int) =~= Seq::<MusicFolder>::empty());
        None
    }
}

} // verus!
