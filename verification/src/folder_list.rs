//! The folder list: the folders to burn, in CD order, and the state the main
//! window keeps around them (the ISO image, the bitrate, the volume label,
//! unsaved changes).
//!
//! Drawing, timers, dialogs and the background encoder are driven from
//! outside; the methods here take what those report and say what to do next.

use vstd::prelude::*;
use crate::burn::{BurnStage, ConversionState};
use crate::bitrate_override::BitrateChoice;
use crate::status_bar::{BitrateEstimate, StatusBarState};
use crate::folder::{
    AudioFileInfo, FolderConversionStatus, FolderId, FolderKind, MusicFolder, duplicate_opt_string, is_converted_status,
    is_excluded,
};
use crate::paths::{file_name, path_file_name};
use crate::reorder::copy_indices;
use crate::track_editor::TrackEditorUpdate;
use crate::reorder::moved;
use crate::volume_label::{default_label, default_label_string};

verus! {

/// An ISO image built from the folders.
pub struct IsoState {
    pub path: String,
    pub size_bytes: u64,
}

/// What to do once the volume label dialog has closed.
#[derive(Clone, Copy, Debug, PartialEq, Eq, Structural)]
pub enum PendingBurnAction {
    /// Burn the existing ISO.
    BurnExisting,
    /// Convert the folders, then burn.
    ConvertAndBurn,
}

/// The main window's folder list and the state around it.
pub struct FolderList {
    /// The folders, in CD order.
    pub folders: Vec<MusicFolder>,
    /// Row under a dragged folder.
    pub drop_target_index: Option<usize>,
    pub conversion_state: ConversionState,
    /// The ISO image for the current folders, if one was built.
    pub iso_state: Option<IsoState>,
    /// Automatic ISO generation was tried for the current folders.
    pub iso_generation_attempted: bool,
    /// The current ISO has been burned at least once.
    pub iso_has_been_burned: bool,
    /// When the folders last changed (milliseconds on the caller's clock),
    /// while a bitrate recalculation is still due.
    pub last_folder_change: Option<u64>,
    /// The bitrate last calculated for the folders.
    pub last_calculated_bitrate: Option<u32>,
    /// Clear the list once the running save completes (File > New).
    pub pending_new_after_save: bool,
    /// Show the open dialog once the running save completes (File > Open).
    pub pending_open_after_save: bool,
    /// Load this profile once the running save completes (a dropped profile).
    pub pending_load_profile_path: Option<String>,
    /// The CD volume label.
    pub volume_label: String,
    /// The volume label dialog is open.
    pub awaiting_volume_label: bool,
    /// What to do after the volume label dialog.
    pub pending_burn_action: Option<PendingBurnAction>,
    /// Where the profile was last saved or loaded from.
    pub current_profile_path: Option<String>,
    pub has_unsaved_changes: bool,
    /// A bitrate chosen by hand, in force instead of the calculated one.
    pub manual_bitrate_override: Option<u32>,
    /// The bitrate override dialog is open.
    pub awaiting_bitrate_override: bool,
    /// A bitrate change was sent to the encoder and not yet acknowledged.
    pub bitrate_recalc_pending: bool,
    /// The folder whose track editor is open.
    pub editing_folder_index: Option<usize>,
    /// An error to show the user: title and message.
    pub pending_error_message: Option<(String, String)>,
    /// A notice to show the user: title and message.
    pub pending_info_message: Option<(String, String)>,
}


/// Where the background encoder is in its two-pass plan.
#[derive(Clone, Copy, Debug, PartialEq, Eq, Structural)]
pub enum EncodingPhase {
    Idle,
    /// Lossy files are being transcoded; the lossless bitrate is preliminary.
    LossyPass,
    /// Lossless files are being encoded at the final bitrate.
    LosslessPass,
    Complete,
}

/// What the background encoder reports.
pub enum EncoderEvent {
    FolderStarted { id: FolderId, files_total: usize },
    FolderProgress { id: FolderId, files_completed: usize, files_total: usize },
    FolderCompleted { id: FolderId, output_dir: String, output_size: u64, lossless_bitrate: Option<u32> },
    FolderFailed { id: FolderId, error: String },
    FolderCancelled(FolderId),
    /// The target bitrate changed; the listed folders are encoded again.
    BitrateRecalculated { new_bitrate: u32, reencode_needed: Vec<FolderId> },
    /// The encoder moved to another pass, with the bitrate it settled on.
    PhaseTransition { phase: EncodingPhase, measured_lossy_size: u64, optimal_bitrate: u32 },
}

/// `i` is the first position of a folder with the id `id`.
pub open spec fn is_first_with_id(fs: Seq<MusicFolder>, id: Seq<char>, i: int) -> bool {
    0 <= i < fs.len() && fs[i].id.0@ == id && forall|j: int| 0 <= j < i ==> fs[j].id.0@ != id
}

/// `fs` with the status of the folder at `i` replaced.
pub open spec fn with_status(fs: Seq<MusicFolder>, i: int, st: FolderConversionStatus) -> Seq<MusicFolder> {
    fs.update(i, MusicFolder { conversion_status: st, ..fs[i] })
}

/// `new` is `old` with the status of the first folder with the id `id` set
/// to `st` (and `old` itself when there is no such folder).
pub open spec fn first_status_set(old: Seq<MusicFolder>, new: Seq<MusicFolder>, id: Seq<char>, st: FolderConversionStatus) -> bool {
    if exists|i: int| is_first_with_id(old, id, i) {
        new == with_status(old, choose|i: int| is_first_with_id(old, id, i), st)
    } else {
        new == old
    }
}

/// The id is among `ids`.
pub open spec fn id_listed(ids: Seq<FolderId>, id: Seq<char>) -> bool {
    exists|j: int| 0 <= j < ids.len() && #[trigger] ids[j].0@ == id
}

/// A folder converted at a lossless bitrate other than `bitrate` has to be
/// converted again.
pub open spec fn stale_at_bitrate(st: FolderConversionStatus, bitrate: u32) -> bool {
    match st {
        FolderConversionStatus::Converted { lossless_bitrate, .. } => match lossless_bitrate {
            Some(br) => br != bitrate,
            None => false,
        },
        _ => false,
    }
}

/// A folder once the bitrate has been set to `bitrate` by hand: one
/// converted at another lossless bitrate is to be converted again.
pub open spec fn after_override(f: MusicFolder, bitrate: u32) -> MusicFolder {
    if stale_at_bitrate(f.conversion_status, bitrate) {
        MusicFolder { conversion_status: FolderConversionStatus::NotConverted, ..f }
    } else {
        f
    }
}

/// The bitrate that encoding uses: the manual override, else the estimate,
/// else 320 kbps.
pub open spec fn effective_bitrate(manual: Option<u32>, estimate: Option<u32>) -> u32 {
    match manual {
        Some(b) => b,
        None => match estimate {
            Some(e) => e,
            None => 320,
        },
    }
}

/// An ISO should be generated now: all folders converted, no valid ISO
/// yet, not tried before, nothing else running or pending.
pub open spec fn iso_generation_due(l: FolderList, has_valid_iso: bool, encoder_has_pending_work: bool, import_in_progress: bool) -> bool {
    !l.bitrate_recalc_pending && !encoder_has_pending_work && !import_in_progress
        && !has_valid_iso && !l.iso_generation_attempted && all_converted(l.folders@)
        && !l.conversion_state.converting
}

/// Milliseconds to wait after the last change of the folders before the
/// bitrate is recalculated.
pub const DEBOUNCE_MS: u64 = 500;


/// What the track editor of a folder is opened with.
pub struct TrackEditorRequest {
    pub folder_id: FolderId,
    pub folder_kind: FolderKind,
    /// The name shown in the editor.
    pub name: String,
    /// Whether each of the folder's files is included.
    pub included: Vec<bool>,
    /// The folder's track order, if it has one.
    pub existing_track_order: Option<Vec<usize>>,
    /// The album art all tracks of an album share; the tracks of a mixtape
    /// each bring their own (`None` here).
    pub shared_album_art: Option<String>,
}

/// The name the track editor shows for a folder whose path's last component
/// is `raw`: the mixtape name, the album name, the folder name, or "Unknown".
pub open spec fn editor_name(f: MusicFolder, raw: Option<Seq<char>>) -> Seq<char> {
    match f.kind {
        FolderKind::Mixtape { name } => name@,
        FolderKind::Album => match f.album_name {
            Some(a) => a@,
            None => match raw {
                Some(n) => n,
                None => "Unknown"@,
            },
        },
    }
}

/// Sum of the file sizes.
pub open spec fn files_size(files: Seq<AudioFileInfo>) -> nat
    decreases files.len(),
{
    if files.len() == 0 { 0 } else { files_size(files.drop_last()) + files.last().size as nat }
}

/// Sum of the file durations in milliseconds.
pub open spec fn files_duration(files: Seq<AudioFileInfo>) -> nat
    decreases files.len(),
{
    if files.len() == 0 { 0 } else { files_duration(files.drop_last()) + files.last().duration_ms as nat }
}

/// The paths among `paths` that are not in the list yet, in their order.
pub open spec fn new_paths(fs: Seq<MusicFolder>, paths: Seq<String>) -> Seq<String>
    decreases paths.len(),
{
    if paths.len() == 0 {
        Seq::empty()
    } else if has_path(fs, paths.last()@) {
        new_paths(fs, paths.drop_last())
    } else {
        new_paths(fs, paths.drop_last()).push(paths.last())
    }
}

/// Sum of the file counts.
pub open spec fn files_sum(fs: Seq<MusicFolder>) -> nat
    decreases fs.len(),
{
    if fs.len() == 0 { 0 } else { files_sum(fs.drop_last()) + fs.last().file_count as nat }
}

/// Sum of the sizes.
pub open spec fn size_sum(fs: Seq<MusicFolder>) -> nat
    decreases fs.len(),
{
    if fs.len() == 0 { 0 } else { size_sum(fs.drop_last()) + fs.last().total_size as nat }
}

/// Sum of the durations in milliseconds.
pub open spec fn duration_sum(fs: Seq<MusicFolder>) -> nat
    decreases fs.len(),
{
    if fs.len() == 0 { 0 } else { duration_sum(fs.drop_last()) + fs.last().total_duration_ms as nat }
}

/// Number of folders whose source is unavailable.
pub open spec fn unavailable_count(fs: Seq<MusicFolder>) -> nat
    decreases fs.len(),
{
    if fs.len() == 0 { 0 } else { unavailable_count(fs.drop_last()) + if fs.last().source_available { 0nat } else { 1nat } }
}

/// Some folder has the path `path`.
pub open spec fn has_path(fs: Seq<MusicFolder>, path: Seq<char>) -> bool {
    exists|i: int| 0 <= i < fs.len() && #[trigger] fs[i].path@ == path
}

/// Position at which a folder dragged from `from` and dropped before row
/// `to` lands once it has been taken out.
pub open spec fn insert_position(from: int, to: int) -> int {
    if to > from { to - 1 } else { to }
}

/// Every folder has been converted (and there is at least one).
pub open spec fn all_converted(fs: Seq<MusicFolder>) -> bool {
    fs.len() > 0 && forall|i: int| 0 <= i < fs.len() ==> is_converted_status(#[trigger] fs[i].conversion_status)
}

/// The ids of the converted folders, in list order.
pub open spec fn converted_ids(fs: Seq<MusicFolder>) -> Seq<Seq<char>>
    decreases fs.len(),
{
    if fs.len() == 0 {
        Seq::empty()
    } else if is_converted_status(fs.last().conversion_status) {
        converted_ids(fs.drop_last()).push(fs.last().id.0@)
    } else {
        converted_ids(fs.drop_last())
    }
}

/// `l` with the ISO dropped, as after any change of the folders: a new ISO
/// has to be built, and it has not been tried or burned yet.
pub open spec fn iso_invalidated(l: FolderList) -> FolderList {
    FolderList { iso_state: None, iso_generation_attempted: false, iso_has_been_burned: false, ..l }
}

impl FolderList {
    /// An empty list with the default volume label.
    pub fn new() -> (l: Self)
        ensures
            l.folders@.len() == 0,
            l.drop_target_index is None,
            !l.conversion_state.converting,
            l.iso_state is None,
            !l.iso_generation_attempted && !l.iso_has_been_burned,
            l.last_folder_change is None && l.last_calculated_bitrate is None,
            !l.pending_new_after_save && !l.pending_open_after_save && l.pending_load_profile_path is None,
            l.volume_label@ == default_label(),
            !l.awaiting_volume_label && l.pending_burn_action is None,
            l.current_profile_path is None && !l.has_unsaved_changes,
            l.manual_bitrate_override is None && !l.awaiting_bitrate_override && !l.bitrate_recalc_pending,
            l.editing_folder_index is None,
            l.pending_error_message is None && l.pending_info_message is None,
    {
        FolderList {
            folders: Vec::new(),
            drop_target_index: None,
            conversion_state: ConversionState::new(),
            iso_state: None,
            iso_generation_attempted: false,
            iso_has_been_burned: false,
            last_folder_change: None,
            last_calculated_bitrate: None,
            pending_new_after_save: false,
            pending_open_after_save: false,
            pending_load_profile_path: None,
            volume_label: default_label_string(),
            awaiting_volume_label: false,
            pending_burn_action: None,
            current_profile_path: None,
            has_unsaved_changes: false,
            manual_bitrate_override: None,
            awaiting_bitrate_override: false,
            bitrate_recalc_pending: false,
            editing_folder_index: None,
            pending_error_message: None,
            pending_info_message: None,
        }
    }

    /// An empty list, as the tests start from.
    pub fn new_for_test() -> (l: Self)
        ensures
            l.folders@.len() == 0,
            l.drop_target_index is None,
            !l.conversion_state.converting,
            l.iso_state is None,
            !l.iso_generation_attempted && !l.iso_has_been_burned,
            l.last_folder_change is None && l.last_calculated_bitrate is None,
            !l.pending_new_after_save && !l.pending_open_after_save && l.pending_load_profile_path is None,
            l.volume_label@ == default_label(),
            !l.awaiting_volume_label && l.pending_burn_action is None,
            l.current_profile_path is None && !l.has_unsaved_changes,
            l.manual_bitrate_override is None && !l.awaiting_bitrate_override && !l.bitrate_recalc_pending,
            l.editing_folder_index is None,
            l.pending_error_message is None && l.pending_info_message is None,
    {
        Self::new()
    }

    /// Number of folders.
    pub fn len(&self) -> (n: usize)
        ensures
            n == self.folders@.len(),
    {
        self.folders.len()
    }

    /// Whether the list is empty.
    pub fn is_empty(&self) -> (b: bool)
        ensures
            b == (self.folders@.len() == 0),
    {
        self.folders.len() == 0
    }

    /// Whether a folder with this path is in the list.
    pub fn contains_path(&self, path: &String) -> (b: bool)
        ensures
            b == has_path(self.folders@, path@),
    {
        let mut i: usize = 0;
        while i < self.folders.len()
            invariant
                i <= self.folders.len(),
                forall|j: int| 0 <= j < i ==> self.folders@[j].path@ != path@,
            decreases self.folders.len() - i,
        {
            if self.folders[i].path == *path {
                return true;
            }
            i = i + 1;
        }
        false
    }

    /// Adds a scanned folder at the end, unless its path is in the list
    /// already. Returns the position of the new folder, which the encoder
    /// is to queue.
    pub fn add_folder(&mut self, folder: MusicFolder, now_ms: u64) -> (added: Option<usize>)
        ensures
            has_path(old(self).folders@, folder.path@) ==> added is None && *final(self) == *old(self),
            !has_path(old(self).folders@, folder.path@) ==> {
                &&& final(self).folders@ == old(self).folders@.push(folder)
                &&& added == Some(old(self).folders@.len() as usize)
                &&& *final(self) == (FolderList {
                    folders: final(self).folders,
                    manual_bitrate_override: None,
                    has_unsaved_changes: true,
                    last_folder_change: Some(now_ms),
                    ..iso_invalidated(*old(self))
                })
            },
    {
        if self.contains_path(&folder.path) {
            return None;
        }
        self.folders.push(folder);
        self.iso_state = None;
        self.iso_generation_attempted = false;
        self.iso_has_been_burned = false;
        self.manual_bitrate_override = None;
        self.has_unsaved_changes = true;
        self.last_folder_change = Some(now_ms);
        Some(self.folders.len() - 1)
    }

    /// Removes the folder at `index`. Returns its id, of which the encoder
    /// is to be told.
    pub fn remove_folder(&mut self, index: usize, now_ms: u64) -> (removed: Option<FolderId>)
        ensures
            index >= old(self).folders@.len() ==> removed is None && *final(self) == *old(self),
            index < old(self).folders@.len() ==> {
                &&& final(self).folders@ == old(self).folders@.remove(index as int)
                &&& removed == Some(old(self).folders@[index as int].id)
                &&& *final(self) == (FolderList {
                    folders: final(self).folders,
                    manual_bitrate_override: None,
                    last_calculated_bitrate: None,
                    has_unsaved_changes: true,
                    last_folder_change: Some(now_ms),
                    ..iso_invalidated(*old(self))
                })
            },
    {
        if index >= self.folders.len() {
            return None;
        }
        let folder = self.folders.remove(index);
        self.iso_state = None;
        self.iso_generation_attempted = false;
        self.iso_has_been_burned = false;
        self.manual_bitrate_override = None;
        self.last_calculated_bitrate = None;
        self.has_unsaved_changes = true;
        self.last_folder_change = Some(now_ms);
        Some(folder.id)
    }

    /// Moves the folder at `from` so that it lands before the folder that
    /// was at `to` (or at the end when `to` is the length). Returns whether
    /// the order changed, of which the encoder is to be told.
    pub fn move_folder(&mut self, from: usize, to: usize) -> (reordered: bool)
        ensures
            reordered == (from < old(self).folders@.len() && to <= old(self).folders@.len() && from != to),
            !reordered ==> *final(self) == *old(self),
            reordered ==> {
                &&& final(self).folders@ == moved(old(self).folders@, from as int, insert_position(from as int, to as int))
                &&& *final(self) == (FolderList {
                    folders: final(self).folders,
                    has_unsaved_changes: true,
                    ..iso_invalidated(*old(self))
                })
            },
    {
        if from < self.folders.len() && to <= self.folders.len() && from != to {
            let folder = self.folders.remove(from);
            let insert_at = if to > from { to - 1 } else { to };
            self.folders.insert(insert_at, folder);
            self.iso_state = None;
            self.iso_generation_attempted = false;
            self.iso_has_been_burned = false;
            self.has_unsaved_changes = true;
            true
        } else {
            false
        }
    }

    /// The folders, in CD order.
    pub fn get_folders(&self) -> (fs: &[MusicFolder])
        ensures
            fs@ == self.folders@,
    {
        self.folders.as_slice()
    }

    /// Replaces the folders by those scanned for a saved list of paths
    /// (the paths that could not be scanned are left out); the ISO is dropped.
    pub fn set_folders(&mut self, scanned: Vec<MusicFolder>)
        ensures
            *final(self) == (FolderList { folders: scanned, iso_state: None, ..*old(self) }),
    {
        self.folders = scanned;
        self.iso_state = None;
    }

    /// The ISO image built from the folders, if any.
    pub fn iso_state(&self) -> (iso: Option<&IsoState>)
        ensures
            iso == match self.iso_state { Some(i) => Some(&i), None => None },
    {
        self.iso_state.as_ref()
    }

    /// Records the ISO image (after a successful build or burn).
    pub fn set_iso_state(&mut self, iso: IsoState)
        ensures
            *final(self) == (FolderList { iso_state: Some(iso), ..*old(self) }),
    {
        self.iso_state = Some(iso);
    }

    /// Forgets the ISO image.
    pub fn clear_iso_state(&mut self)
        ensures
            *final(self) == (FolderList { iso_state: None, ..*old(self) }),
    {
        self.iso_state = None;
    }

    /// Empties the list.
    pub fn clear(&mut self)
        ensures
            final(self).folders@.len() == 0,
            *final(self) == (FolderList {
                folders: final(self).folders,
                manual_bitrate_override: None,
                ..iso_invalidated(*old(self))
            }),
    {
        self.folders.clear();
        self.iso_state = None;
        self.iso_generation_attempted = false;
        self.iso_has_been_burned = false;
        self.manual_bitrate_override = None;
    }

    /// The paths of the folders, in list order.
    pub fn get_folder_paths(&self) -> (paths: Vec<String>)
        ensures
            paths@.len() == self.folders@.len(),
            forall|i: int| 0 <= i < paths@.len() ==> #[trigger] paths@[i] == self.folders@[i].path,
    {
        let mut paths: Vec<String> = Vec::new();
        let mut i: usize = 0;
        while i < self.folders.len()
            invariant
                i <= self.folders.len(),
                paths@.len() == i,
                forall|j: int| 0 <= j < i ==> #[trigger] paths@[j] == self.folders@[j].path,
            decreases self.folders.len() - i,
        {
            paths.push(self.folders[i].path.clone());
            i = i + 1;
        }
        paths
    }

    /// Total number of files in all folders.
    pub fn total_files(&self) -> (n: u32)
        requires
            files_sum(self.folders@) <= u32::MAX,
        ensures
            n == files_sum(self.folders@),
    {
        let mut n: u32 = 0;
        let mut i: usize = 0;
        while i < self.folders.len()
            invariant
                i <= self.folders.len(),
                n == files_sum(self.folders@.take(i as int)),
                files_sum(self.folders@) <= u32::MAX,
            decreases self.folders.len() - i,
        {
            proof {
                lemma_files_sum_prefix(self.folders@, i as int + 1);
                assert(self.folders@.take(i + 1).drop_last() =~= self.folders@.take(i as int));
            }
            n = n + self.folders[i].file_count;
            i = i + 1;
        }
        assert(self.folders@.take(self.folders.len() as int) =~= self.folders@);
        n
    }

    /// Total size of all folders in bytes.
    pub fn total_size(&self) -> (n: u64)
        requires
            size_sum(self.folders@) <= u64::MAX,
        ensures
            n == size_sum(self.folders@),
    {
        let mut n: u64 = 0;
        let mut i: usize = 0;
        while i < self.folders.len()
            invariant
                i <= self.folders.len(),
                n == size_sum(self.folders@.take(i as int)),
                size_sum(self.folders@) <= u64::MAX,
            decreases self.folders.len() - i,
        {
            proof {
                lemma_size_sum_prefix(self.folders@, i as int + 1);
                assert(self.folders@.take(i + 1).drop_last() =~= self.folders@.take(i as int));
            }
            n = n + self.folders[i].total_size;
            i = i + 1;
        }
        assert(self.folders@.take(self.folders.len() as int) =~= self.folders@);
        n
    }

    /// Total playing time of all folders in milliseconds.
    pub fn total_duration_ms(&self) -> (n: u64)
        requires
            duration_sum(self.folders@) <= u64::MAX,
        ensures
            n == duration_sum(self.folders@),
    {
        let mut n: u64 = 0;
        let mut i: usize = 0;
        while i < self.folders.len()
            invariant
                i <= self.folders.len(),
                n == duration_sum(self.folders@.take(i as int)),
                duration_sum(self.folders@) <= u64::MAX,
            decreases self.folders.len() - i,
        {
            proof {
                lemma_duration_sum_prefix(self.folders@, i as int + 1);
                assert(self.folders@.take(i + 1).drop_last() =~= self.folders@.take(i as int));
            }
            n = n + self.folders[i].total_duration_ms;
            i = i + 1;
        }
        assert(self.folders@.take(self.folders.len() as int) =~= self.folders@);
        n
    }

    /// Whether every folder is converted (false for an empty list).
    pub fn all_folders_converted(&self) -> (b: bool)
        ensures
            b == all_converted(self.folders@),
    {
        if self.folders.len() == 0 {
            return false;
        }
        let mut i: usize = 0;
        while i < self.folders.len()
            invariant
                i <= self.folders.len(),
                forall|j: int| 0 <= j < i ==> is_converted_status(#[trigger] self.folders@[j].conversion_status),
            decreases self.folders.len() - i,
        {
            if !self.folders[i].is_converted() {
                return false;
            }
            i = i + 1;
        }
        true
    }

    /// Whether some folder is converted.
    pub fn has_converted_folders(&self) -> (b: bool)
        ensures
            b == exists|i: int| 0 <= i < self.folders@.len() && is_converted_status(#[trigger] self.folders@[i].conversion_status),
    {
        let mut i: usize = 0;
        while i < self.folders.len()
            invariant
                i <= self.folders.len(),
                forall|j: int| 0 <= j < i ==> !is_converted_status(#[trigger] self.folders@[j].conversion_status),
            decreases self.folders.len() - i,
        {
            if self.folders[i].is_converted() {
                return true;
            }
            i = i + 1;
        }
        false
    }

    /// Whether some folder's source files are unavailable.
    pub fn has_source_unavailable_folders(&self) -> (b: bool)
        ensures
            b == exists|i: int| 0 <= i < self.folders@.len() && !(#[trigger] self.folders@[i]).source_available,
    {
        let mut i: usize = 0;
        while i < self.folders.len()
            invariant
                i <= self.folders.len(),
                forall|j: int| 0 <= j < i ==> (#[trigger] self.folders@[j]).source_available,
            decreases self.folders.len() - i,
        {
            if !self.folders[i].source_available {
                return true;
            }
            i = i + 1;
        }
        false
    }

    /// Number of folders whose source files are unavailable.
    pub fn source_unavailable_count(&self) -> (n: usize)
        ensures
            n == unavailable_count(self.folders@),
    {
        let mut n: usize = 0;
        let mut i: usize = 0;
        while i < self.folders.len()
            invariant
                i <= self.folders.len(),
                n == unavailable_count(self.folders@.take(i as int)),
                n <= i,
            decreases self.folders.len() - i,
        {
            assert(self.folders@.take(i + 1).drop_last() =~= self.folders@.take(i as int));
            if !self.folders[i].source_available {
                n = n + 1;
            }
            i = i + 1;
        }
        assert(self.folders@.take(self.folders.len() as int) =~= self.folders@);
        n
    }

    /// The ids of the converted folders.
    pub fn get_encoded_folder_ids(&self) -> (ids: Vec<FolderId>)
        ensures
            ids@.map_values(|id: FolderId| id.0@) == converted_ids(self.folders@),
    {
        let mut ids: Vec<FolderId> = Vec::new();
        let mut i: usize = 0;
        while i < self.folders.len()
            invariant
                i <= self.folders.len(),
                ids@.map_values(|id: FolderId| id.0@) =~= converted_ids(self.folders@.take(i as int)),
            decreases self.folders.len() - i,
        {
            assert(self.folders@.take(i + 1).drop_last() =~= self.folders@.take(i as int));
            if self.folders[i].is_converted() {
                ids.push(self.folders[i].id.duplicate());
            }
            i = i + 1;
        }
        assert(self.folders@.take(self.folders.len() as int) =~= self.folders@);
        ids
    }

    /// Position of the first folder with the id `id`.
    pub fn position_of(&self, id: &FolderId) -> (p: Option<usize>)
        ensures
            p matches Some(i) ==> i < self.folders@.len() && is_first_with_id(self.folders@, id.0@, i as int)
                && self.position_of_spec(id.0@) == Some(i as int),
            p is None ==> (forall|j: int| 0 <= j < self.folders@.len() ==> self.folders@[j].id.0@ != id.0@)
                && self.position_of_spec(id.0@) is None,
    {
        let mut i: usize = 0;
        while i < self.folders.len()
            invariant
                i <= self.folders.len(),
                forall|j: int| 0 <= j < i ==> self.folders@[j].id.0@ != id.0@,
            decreases self.folders.len() - i,
        {
            if self.folders[i].id.same(id) {
                assert(is_first_with_id(self.folders@, id.0@, i as int));
                assert forall|k: int| is_first_with_id(self.folders@, id.0@, k) implies k == i by {
                    if k < i {
                        assert(self.folders@[k].id.0@ != id.0@);
                    } else if k > i {
                        assert(self.folders@[i as int].id.0@ != id.0@);
                    }
                }
                return Some(i);
            }
            i = i + 1;
        }
        assert(!exists|k: int| is_first_with_id(self.folders@, id.0@, k));
        None
    }
}


impl FolderList {
    /// The conversion status of the first folder with the id `id`, or
    /// `NotConverted` when no folder has it.
    pub fn get_folder_conversion_status(&self, id: &FolderId) -> (st: FolderConversionStatus)
        ensures
            st == (match self.position_of_spec(id.0@) {
                Some(i) => self.folders@[i].conversion_status,
                None => FolderConversionStatus::NotConverted,
            }),
    {
        match self.position_of(id) {
            Some(i) => self.folders[i].conversion_status.duplicate(),
            None => FolderConversionStatus::NotConverted,
        }
    }

    /// Adds a mixtape named "My Mixtape" made of the dropped audio files that
    /// could be read, unless there is none. `id` is the new folder's fresh
    /// identity. Returns the position of the mixtape, whose track editor is
    /// to open.
    pub fn create_mixtape_from_files(&mut self, id: FolderId, files: Vec<AudioFileInfo>, now_ms: u64) -> (added: Option<usize>)
        requires
            files@.len() <= u32::MAX,
            files_size(files@) <= u64::MAX,
            files_duration(files@) <= u64::MAX,
        ensures
            files@.len() == 0 ==> added is None && *final(self) == *old(self),
            files@.len() > 0 ==> {
                &&& final(self).folders@.len() == old(self).folders@.len() + 1
                &&& final(self).folders@.drop_last() == old(self).folders@
                &&& is_new_mixtape(final(self).folders@.last(), id, files@)
                &&& added == Some(old(self).folders@.len() as usize)
                &&& *final(self) == (FolderList {
                    folders: final(self).folders,
                    manual_bitrate_override: None,
                    has_unsaved_changes: true,
                    last_folder_change: Some(now_ms),
                    ..iso_invalidated(*old(self))
                })
            },
    {
        if files.len() == 0 {
            return None;
        }
        let mixtape = MusicFolder::new_mixtape(id, files);
        let ghost before = self.folders@;
        self.folders.push(mixtape);
        assert(self.folders@.drop_last() =~= before);
        self.iso_state = None;
        self.iso_generation_attempted = false;
        self.iso_has_been_burned = false;
        self.manual_bitrate_override = None;
        self.has_unsaved_changes = true;
        self.last_folder_change = Some(now_ms);
        Some(self.folders.len() - 1)
    }

    /// Adds an empty mixtape named "My Mixtape" with the fresh identity `id`.
    /// Returns its position, whose track editor is to open.
    pub fn add_new_mixtape(&mut self, id: FolderId) -> (index: usize)
        ensures
            final(self).folders@.len() == old(self).folders@.len() + 1,
            final(self).folders@.drop_last() == old(self).folders@,
            is_new_mixtape(final(self).folders@.last(), id, Seq::empty()),
            index == old(self).folders@.len(),
            *final(self) == (FolderList {
                folders: final(self).folders,
                iso_state: None,
                iso_generation_attempted: false,
                has_unsaved_changes: true,
                ..*old(self)
            }),
    {
        let files: Vec<AudioFileInfo> = Vec::new();
        assert(files_size(files@) == 0 && files_duration(files@) == 0);
        let mixtape = MusicFolder::new_mixtape(id, files);
        let ghost before = self.folders@;
        self.folders.push(mixtape);
        assert(self.folders@.drop_last() =~= before);
        self.iso_state = None;
        self.iso_generation_attempted = false;
        self.has_unsaved_changes = true;
        self.folders.len() - 1
    }
}

/// `f` is a fresh mixtape: named "My Mixtape", with no path, made of `files`
/// in their order, with totals summed over them, nothing excluded, no order
/// of its own, not converted yet.
pub open spec fn is_new_mixtape(f: MusicFolder, id: FolderId, files: Seq<AudioFileInfo>) -> bool {
    &&& f.id == id
    &&& f.path@ == Seq::<char>::empty()
    &&& (f.kind matches FolderKind::Mixtape { name } && name@ == "My Mixtape"@)
    &&& f.file_count == files.len()
    &&& f.total_size == files_size(files)
    &&& f.total_duration_ms == files_duration(files)
    &&& f.album_name is None && f.artist_name is None && f.year is None && f.album_art is None
    &&& f.audio_files@ == files
    &&& f.excluded_tracks@.len() == 0
    &&& f.track_order is None
    &&& f.conversion_status == FolderConversionStatus::NotConverted
    &&& f.source_available
}

impl MusicFolder {
    /// A fresh mixtape named "My Mixtape" made of `files`.
    pub fn new_mixtape(id: FolderId, files: Vec<AudioFileInfo>) -> (f: MusicFolder)
        requires
            files@.len() <= u32::MAX,
            files_size(files@) <= u64::MAX,
            files_duration(files@) <= u64::MAX,
        ensures
            is_new_mixtape(f, id, files@),
    {
        let (count, size, duration) = totals_of(&files);
        let name = String::from_str("My Mixtape");
        proof { reveal_strlit("My Mixtape"); }
        MusicFolder {
            id,
            path: String::new(),
            kind: FolderKind::Mixtape { name },
            file_count: count,
            total_size: size,
            total_duration_ms: duration,
            album_name: None,
            artist_name: None,
            year: None,
            album_art: None,
            audio_files: files,
            excluded_tracks: Vec::new(),
            track_order: None,
            conversion_status: FolderConversionStatus::NotConverted,
            source_available: true,
        }
    }
}

impl FolderList {
    /// Sets the status of the first folder with the id `id`.
    fn set_status_of(&mut self, id: &FolderId, st: FolderConversionStatus)
        ensures
            first_status_set(old(self).folders@, final(self).folders@, id.0@, st),
            *final(self) == (FolderList { folders: final(self).folders, ..*old(self) }),
    {
        match self.position_of(id) {
            Some(i) => {
                let ghost old_folders = self.folders@;
                self.folders[i].conversion_status = st;
                assert(self.folders@ =~= with_status(old_folders, i as int, st));
            },
            None => {},
        }
    }

    /// Applies one report of the background encoder. `now_secs` is the time
    /// a completed folder is stamped with.
    pub fn apply_encoder_event(&mut self, event: EncoderEvent, now_secs: u64)
        ensures
            match event {
                EncoderEvent::FolderStarted { id, files_total } => {
                    &&& first_status_set(old(self).folders@, final(self).folders@, id.0@,
                        FolderConversionStatus::Converting { files_completed: 0, files_total })
                    &&& *final(self) == (FolderList { folders: final(self).folders, ..*old(self) })
                },
                EncoderEvent::FolderProgress { id, files_completed, files_total } => {
                    &&& first_status_set(old(self).folders@, final(self).folders@, id.0@,
                        FolderConversionStatus::Converting { files_completed, files_total })
                    &&& *final(self) == (FolderList { folders: final(self).folders, ..*old(self) })
                },
                EncoderEvent::FolderCompleted { id, output_dir, output_size, lossless_bitrate } => {
                    &&& first_status_set(old(self).folders@, final(self).folders@, id.0@,
                        FolderConversionStatus::Converted { output_dir, lossless_bitrate, output_size, completed_at: now_secs })
                    &&& *final(self) == (FolderList { folders: final(self).folders, ..*old(self) })
                },
                EncoderEvent::FolderFailed { .. } => *final(self) == *old(self),
                EncoderEvent::FolderCancelled(_) => *final(self) == *old(self),
                EncoderEvent::BitrateRecalculated { reencode_needed, .. } => {
                    &&& final(self).folders@.len() == old(self).folders@.len()
                    &&& forall|i: int| 0 <= i < old(self).folders@.len() ==> #[trigger] final(self).folders@[i] == (
                        if id_listed(reencode_needed@, old(self).folders@[i].id.0@) {
                            MusicFolder { conversion_status: FolderConversionStatus::NotConverted, ..old(self).folders@[i] }
                        } else {
                            old(self).folders@[i]
                        })
                    &&& *final(self) == (FolderList {
                        folders: final(self).folders,
                        iso_state: None,
                        iso_generation_attempted: false,
                        bitrate_recalc_pending: false,
                        ..*old(self)
                    })
                },
                EncoderEvent::PhaseTransition { optimal_bitrate, .. } => *final(self) == (FolderList {
                    last_calculated_bitrate: Some(optimal_bitrate),
                    iso_state: None,
                    iso_generation_attempted: false,
                    ..*old(self)
                }),
            },
    {
        match event {
            EncoderEvent::FolderStarted { id, files_total } => {
                self.set_status_of(&id, FolderConversionStatus::Converting { files_completed: 0, files_total });
            },
            EncoderEvent::FolderProgress { id, files_completed, files_total } => {
                self.set_status_of(&id, FolderConversionStatus::Converting { files_completed, files_total });
            },
            EncoderEvent::FolderCompleted { id, output_dir, output_size, lossless_bitrate } => {
                self.set_status_of(&id, FolderConversionStatus::Converted {
                    output_dir,
                    lossless_bitrate,
                    output_size,
                    completed_at: now_secs,
                });
            },
            EncoderEvent::FolderFailed { .. } => {},
            EncoderEvent::FolderCancelled(_) => {},
            EncoderEvent::BitrateRecalculated { new_bitrate: _, reencode_needed } => {
                let mut i: usize = 0;
                while i < self.folders.len()
                    invariant
                        i <= self.folders.len(),
                        self.folders@.len() == old(self).folders@.len(),
                        forall|k: int| 0 <= k < i ==> #[trigger] self.folders@[k] == (
                            if id_listed(reencode_needed@, old(self).folders@[k].id.0@) {
                                MusicFolder { conversion_status: FolderConversionStatus::NotConverted, ..old(self).folders@[k] }
                            } else {
                                old(self).folders@[k]
                            }),
                        forall|k: int| i <= k < self.folders@.len() ==> #[trigger] self.folders@[k] == old(self).folders@[k],
                        *self == (FolderList { folders: self.folders, ..*old(self) }),
                    decreases self.folders.len() - i,
                {
                    let mut listed = false;
                    let mut j: usize = 0;
                    while j < reencode_needed.len()
                        invariant
                            j <= reencode_needed.len(),
                            i < self.folders.len(),
                            listed == exists|m: int| 0 <= m < j && #[trigger] reencode_needed@[m].0@ == self.folders@[i as int].id.0@,
                        decreases reencode_needed.len() - j,
                    {
                        if reencode_needed[j].same(&self.folders[i].id) {
                            listed = true;
                        }
                        j = j + 1;
                    }
                    if listed {
                        self.folders[i].conversion_status = FolderConversionStatus::NotConverted;
                    }
                    i = i + 1;
                }
                self.iso_state = None;
                self.iso_generation_attempted = false;
                self.bitrate_recalc_pending = false;
            },
            EncoderEvent::PhaseTransition { optimal_bitrate, .. } => {
                self.last_calculated_bitrate = Some(optimal_bitrate);
                self.iso_state = None;
                self.iso_generation_attempted = false;
            },
        }
    }
}


impl FolderList {
    /// A bitrate chosen in the override dialog: it is in force from now on,
    /// folders converted at another lossless bitrate are converted again,
    /// and the ISO is dropped. Returns the bitrate to send to the encoder.
    pub fn apply_bitrate_override(&mut self, new_bitrate: u32) -> (send: u32)
        ensures
            send == new_bitrate,
            final(self).folders@.len() == old(self).folders@.len(),
            forall|i: int| 0 <= i < old(self).folders@.len()
                ==> #[trigger] final(self).folders@[i] == after_override(old(self).folders@[i], new_bitrate),
            *final(self) == (FolderList {
                folders: final(self).folders,
                manual_bitrate_override: Some(new_bitrate),
                awaiting_bitrate_override: false,
                bitrate_recalc_pending: true,
                iso_state: None,
                iso_generation_attempted: false,
                ..*old(self)
            }),
    {
        self.manual_bitrate_override = Some(new_bitrate);
        self.awaiting_bitrate_override = false;
        self.bitrate_recalc_pending = true;
        let mut i: usize = 0;
        while i < self.folders.len()
            invariant
                i <= self.folders.len(),
                self.folders@.len() == old(self).folders@.len(),
                forall|k: int| 0 <= k < i
                    ==> #[trigger] self.folders@[k] == after_override(old(self).folders@[k], new_bitrate),
                forall|k: int| i <= k < self.folders@.len() ==> #[trigger] self.folders@[k] == old(self).folders@[k],
                *self == (FolderList {
                    folders: self.folders,
                    manual_bitrate_override: Some(new_bitrate),
                    awaiting_bitrate_override: false,
                    bitrate_recalc_pending: true,
                    ..*old(self)
                }),
            decreases self.folders.len() - i,
        {
            let stale = match &self.folders[i].conversion_status {
                FolderConversionStatus::Converted { lossless_bitrate: Some(br), .. } => *br != new_bitrate,
                _ => false,
            };
            if stale {
                self.folders[i].conversion_status = FolderConversionStatus::NotConverted;
            }
            i = i + 1;
        }
        self.iso_state = None;
        self.iso_generation_attempted = false;
        new_bitrate
    }

    /// "Use Automatic": the bitrate set by hand is dropped, so the
    /// calculated bitrate is in force again, and the dialog is closed.
    pub fn use_automatic_bitrate(&mut self)
        ensures
            *final(self) == (FolderList {
                manual_bitrate_override: None,
                awaiting_bitrate_override: false,
                ..*old(self)
            }),
    {
        self.manual_bitrate_override = None;
        self.awaiting_bitrate_override = false;
    }

    /// Takes what the bitrate dialog handed back: a bitrate set by hand is
    /// applied (and returned, to send to the encoder); "Use Automatic" goes
    /// back to the calculated bitrate.
    pub fn apply_bitrate_choice(&mut self, choice: BitrateChoice) -> (send: Option<u32>)
        ensures
            match choice {
                BitrateChoice::Manual(b) => send == Some(b)
                    && final(self).manual_bitrate_override == Some(b)
                    && final(self).folders@.len() == old(self).folders@.len()
                    && (forall|i: int| 0 <= i < old(self).folders@.len()
                        ==> #[trigger] final(self).folders@[i] == after_override(old(self).folders@[i], b))
                    && *final(self) == (FolderList {
                        folders: final(self).folders,
                        manual_bitrate_override: Some(b),
                        awaiting_bitrate_override: false,
                        bitrate_recalc_pending: true,
                        iso_state: None,
                        iso_generation_attempted: false,
                        ..*old(self)
                    }),
                BitrateChoice::Automatic => send is None && *final(self) == (FolderList {
                    manual_bitrate_override: None,
                    awaiting_bitrate_override: false,
                    ..*old(self)
                }),
            },
    {
        match choice {
            BitrateChoice::Manual(b) => Some(self.apply_bitrate_override(b)),
            BitrateChoice::Automatic => {
                self.use_automatic_bitrate();
                None
            },
        }
    }

    /// Opens the bitrate override dialog: the field starts at the bitrate in
    /// force, and the calculated one is shown for reference.
    pub fn bitrate_override_dialog(&mut self, estimate: Option<u32>) -> (d: crate::bitrate_override::BitrateOverrideDialog)
        ensures
            d.text@ == crate::text::decimal(effective_bitrate(old(self).manual_bitrate_override, estimate) as nat),
            d.calculated_bitrate == effective_bitrate(None, estimate),
            d.warning_message is None,
            d.has_custom_bitrate == (old(self).manual_bitrate_override is Some),
            *final(self) == (FolderList { awaiting_bitrate_override: true, ..*old(self) }),
    {
        self.awaiting_bitrate_override = true;
        let current = self.calculated_bitrate(estimate);
        let calculated = match estimate {
            Some(e) => e,
            None => 320,
        };
        crate::bitrate_override::BitrateOverrideDialog::new(
            current,
            calculated,
            None,
            self.manual_bitrate_override.is_some(),
        )
    }

    /// The label chosen in the volume label dialog. A changed label drops
    /// the ISO, which carries the old label. Returns whether the ISO was dropped.
    pub fn apply_volume_label(&mut self, label: String) -> (dropped_iso: bool)
        ensures
            dropped_iso == (label@ != old(self).volume_label@ && old(self).iso_state is Some),
            final(self).volume_label@ == label@,
            !final(self).awaiting_volume_label,
            dropped_iso ==> final(self).iso_state is None && !final(self).iso_generation_attempted,
            !dropped_iso ==> final(self).iso_state == old(self).iso_state
                && final(self).iso_generation_attempted == old(self).iso_generation_attempted,
            final(self).folders == old(self).folders,
            final(self).pending_burn_action == old(self).pending_burn_action,
            final(self).conversion_state == old(self).conversion_state,
            final(self).has_unsaved_changes == old(self).has_unsaved_changes,
            final(self).iso_has_been_burned == old(self).iso_has_been_burned,
    {
        let dropped = self.volume_label != label && self.iso_state.is_some();
        if dropped {
            self.iso_state = None;
            self.iso_generation_attempted = false;
        }
        self.volume_label = label;
        self.awaiting_volume_label = false;
        dropped
    }

    /// Opens the volume label dialog, to be followed by `pending_action`.
    /// Returns the label the dialog starts with.
    pub fn open_volume_label_dialog(&mut self, pending_action: Option<PendingBurnAction>) -> (label: String)
        ensures
            label@ == old(self).volume_label@,
            *final(self) == (FolderList {
                pending_burn_action: pending_action,
                awaiting_volume_label: true,
                ..*old(self)
            }),
    {
        self.pending_burn_action = pending_action;
        self.awaiting_volume_label = true;
        self.volume_label.clone()
    }

    /// The burn action to start now, if any: none while the label dialog is
    /// open; burning the existing ISO waits until there is an ISO.
    pub fn take_pending_burn_action(&mut self) -> (action: Option<PendingBurnAction>)
        ensures
            action == (if old(self).awaiting_volume_label {
                None
            } else {
                match old(self).pending_burn_action {
                    Some(PendingBurnAction::BurnExisting) =>
                        if old(self).iso_state is None { None } else { Some(PendingBurnAction::BurnExisting) },
                    other => other,
                }
            }),
            action is Some ==> *final(self) == (FolderList { pending_burn_action: None, ..*old(self) }),
            action is None ==> *final(self) == *old(self),
    {
        if self.awaiting_volume_label {
            return None;
        }
        match self.pending_burn_action {
            Some(PendingBurnAction::BurnExisting) => {
                if self.iso_state.is_none() {
                    return None;
                }
                self.pending_burn_action = None;
                Some(PendingBurnAction::BurnExisting)
            },
            Some(PendingBurnAction::ConvertAndBurn) => {
                self.pending_burn_action = None;
                Some(PendingBurnAction::ConvertAndBurn)
            },
            None => None,
        }
    }

    /// The bitrate that encoding uses, given the estimate for the folders.
    pub fn calculated_bitrate(&self, estimate: Option<u32>) -> (b: u32)
        ensures
            b == effective_bitrate(self.manual_bitrate_override, estimate),
    {
        match self.manual_bitrate_override {
            Some(b) => b,
            None => match estimate {
                Some(e) => e,
                None => 320,
            },
        }
    }

    /// Whether any folder has audio files.
    pub fn has_audio_files(&self) -> (b: bool)
        ensures
            b == exists|i: int| 0 <= i < self.folders@.len() && (#[trigger] self.folders@[i]).audio_files@.len() > 0,
    {
        let mut i: usize = 0;
        while i < self.folders.len()
            invariant
                i <= self.folders.len(),
                forall|j: int| 0 <= j < i ==> (#[trigger] self.folders@[j]).audio_files@.len() == 0,
            decreases self.folders.len() - i,
        {
            if self.folders[i].audio_files.len() > 0 {
                return true;
            }
            i = i + 1;
        }
        false
    }

    /// The estimate shown for the folders: none without audio files;
    /// otherwise the estimator's, with the bitrate the encoder settled on
    /// once the estimate is no longer preliminary.
    pub fn calculated_bitrate_estimate(&self, raw: BitrateEstimate, is_preliminary: bool) -> (e: Option<BitrateEstimate>)
        ensures
            !(exists|i: int| 0 <= i < self.folders@.len() && (#[trigger] self.folders@[i]).audio_files@.len() > 0) ==> e is None,
            (exists|i: int| 0 <= i < self.folders@.len() && (#[trigger] self.folders@[i]).audio_files@.len() > 0) ==> e == Some(
                match self.last_calculated_bitrate {
                    Some(b) => if !is_preliminary { BitrateEstimate { target_bitrate: b, ..raw } } else { raw },
                    None => raw,
                }),
    {
        if self.folders.len() == 0 || !self.has_audio_files() {
            return None;
        }
        let mut estimate = raw;
        if let Some(optimized) = self.last_calculated_bitrate {
            if !is_preliminary {
                estimate.target_bitrate = optimized;
            }
        }
        Some(estimate)
    }

    /// What the status bar is drawn from. The estimate for the folders, the
    /// import's state, whether the ISO can be burned (and is too large) and
    /// whether the bitrate is preliminary come from outside the list.
    pub fn build_status_bar_state(
        &self,
        estimate: Option<BitrateEstimate>,
        is_importing: bool,
        import_progress: (usize, usize),
        can_burn_another: bool,
        iso_exceeds_limit: bool,
        is_bitrate_preliminary: bool,
    ) -> (s: StatusBarState)
        requires
            files_sum(self.folders@) <= u32::MAX,
            size_sum(self.folders@) <= u64::MAX,
        ensures
            s.total_files == files_sum(self.folders@),
            s.total_size == size_sum(self.folders@),
            s.bitrate_estimate == estimate,
            s.has_folders == (self.folders@.len() > 0),
            s.is_importing == is_importing,
            s.import_progress == import_progress,
            s.is_converting == self.conversion_state.converting,
            s.conversion_progress == (self.conversion_state.completed, self.conversion_state.failed, self.conversion_state.total),
            s.burn_stage == self.conversion_state.stage,
            s.burn_progress == self.conversion_state.burn_progress,
            s.is_cancelled == self.conversion_state.cancelled,
            s.can_burn_another == can_burn_another,
            s.iso_exceeds_limit == iso_exceeds_limit,
            s.iso_size_bytes == (match self.iso_state { Some(i) => Some(i.size_bytes), None => None }),
            s.iso_has_been_burned == self.iso_has_been_burned,
            s.is_manual_override == (self.manual_bitrate_override is Some),
            s.effective_bitrate == effective_bitrate(
                self.manual_bitrate_override,
                match estimate { Some(e) => Some(e.target_bitrate), None => None },
            ),
            s.is_bitrate_preliminary == is_bitrate_preliminary,
    {
        let estimated = match &estimate {
            Some(e) => Some(e.target_bitrate),
            None => None,
        };
        let effective = self.calculated_bitrate(estimated);
        StatusBarState {
            total_files: self.total_files(),
            total_size: self.total_size(),
            bitrate_estimate: estimate,
            has_folders: self.folders.len() > 0,
            is_importing,
            import_progress,
            is_converting: self.conversion_state.is_converting(),
            conversion_progress: self.conversion_state.progress(),
            burn_stage: self.conversion_state.get_stage(),
            burn_progress: self.conversion_state.get_burn_progress(),
            is_cancelled: self.conversion_state.is_cancelled(),
            can_burn_another,
            iso_exceeds_limit,
            iso_size_bytes: match &self.iso_state {
                Some(i) => Some(i.size_bytes),
                None => None,
            },
            iso_has_been_burned: self.iso_has_been_burned,
            is_manual_override: self.manual_bitrate_override.is_some(),
            effective_bitrate: effective,
            is_bitrate_preliminary,
        }
    }

    /// Whether the bitrate shown is preliminary: during the lossy pass, or
    /// before encoding starts when lossless files wait. Without an encoder
    /// it is final.
    pub fn is_bitrate_preliminary(phase: Option<EncodingPhase>, any_lossless_files: bool) -> (b: bool)
        ensures
            b == (match phase {
                Some(EncodingPhase::LossyPass) => true,
                Some(EncodingPhase::Idle) => any_lossless_files,
                _ => false,
            }),
    {
        match phase {
            Some(EncodingPhase::LossyPass) => true,
            Some(EncodingPhase::Idle) => any_lossless_files,
            _ => false,
        }
    }

    /// Recalculates the bitrate once the folders have been left alone for
    /// the debounce time. Returns the new bitrate when it changed and the
    /// encoder has to hear of it.
    pub fn check_debounced_bitrate_recalculation(&mut self, now_ms: u64, estimate: Option<u32>) -> (send: Option<u32>)
        ensures
            match old(self).last_folder_change {
                None => send is None && *final(self) == *old(self),
                Some(t) => if now_ms < t || now_ms - t < DEBOUNCE_MS {
                    send is None && *final(self) == *old(self)
                } else if old(self).folders@.len() == 0 {
                    send is None && *final(self) == (FolderList {
                        last_folder_change: None,
                        last_calculated_bitrate: None,
                        ..*old(self)
                    })
                } else {
                    let b = effective_bitrate(old(self).manual_bitrate_override, estimate);
                    &&& *final(self) == (FolderList {
                        last_folder_change: None,
                        last_calculated_bitrate: Some(b),
                        ..*old(self)
                    })
                    &&& send == (if old(self).last_calculated_bitrate == Some(b) { None } else { Some(b) })
                },
            },
    {
        let due = match self.last_folder_change {
            Some(t) => now_ms >= t && now_ms - t >= DEBOUNCE_MS,
            None => false,
        };
        if !due {
            return None;
        }
        self.last_folder_change = None;
        if self.folders.len() == 0 {
            self.last_calculated_bitrate = None;
            return None;
        }
        let new_bitrate = self.calculated_bitrate(estimate);
        let changed = match self.last_calculated_bitrate {
            Some(old) => old != new_bitrate,
            None => true,
        };
        self.last_calculated_bitrate = Some(new_bitrate);
        if changed { Some(new_bitrate) } else { None }
    }

    /// Whether an ISO should be generated now: all folders converted, no
    /// valid ISO yet, not tried before, nothing else running or pending.
    pub fn should_generate_iso(&self, has_valid_iso: bool, encoder_has_pending_work: bool, import_in_progress: bool) -> (b: bool)
        ensures
            b == iso_generation_due(*self, has_valid_iso, encoder_has_pending_work, import_in_progress),
            import_in_progress ==> !b,
            encoder_has_pending_work ==> !b,
            has_valid_iso ==> !b,
    {
        if self.bitrate_recalc_pending || encoder_has_pending_work || import_in_progress {
            return false;
        }
        !has_valid_iso && !self.iso_generation_attempted && self.all_folders_converted()
            && !self.conversion_state.is_converting()
    }

    /// Generates the ISO automatically when it should be, marking the
    /// attempt so that a failure is not retried. Returns whether generation
    /// is to start (it needs the output manager).
    pub fn maybe_generate_iso(
        &mut self,
        has_valid_iso: bool,
        encoder_has_pending_work: bool,
        import_in_progress: bool,
        has_output_manager: bool,
    ) -> (start: bool)
        ensures
            start == (iso_generation_due(*old(self), has_valid_iso, encoder_has_pending_work, import_in_progress) && has_output_manager),
            iso_generation_due(*old(self), has_valid_iso, encoder_has_pending_work, import_in_progress)
                ==> *final(self) == (FolderList { iso_generation_attempted: true, ..*old(self) }),
            !iso_generation_due(*old(self), has_valid_iso, encoder_has_pending_work, import_in_progress)
                ==> *final(self) == *old(self),
    {
        if !self.should_generate_iso(has_valid_iso, encoder_has_pending_work, import_in_progress) {
            return false;
        }
        self.iso_generation_attempted = true;
        has_output_manager
    }

    /// Starts a convert-and-burn run, unless one is running, the list is
    /// empty, or the encoder or output manager is missing. The run starts
    /// at ISO creation when everything is converted already, and waits for
    /// the conversion otherwise.
    pub fn begin_conversion_run(&mut self, has_encoder: bool, has_output_manager: bool) -> (started: bool)
        ensures
            started == (!old(self).conversion_state.converting && old(self).folders@.len() > 0 && has_encoder && has_output_manager),
            !started ==> *final(self) == *old(self),
            started ==> {
                &&& final(self).conversion_state == (ConversionState {
                    converting: true,
                    cancelled: false,
                    completed: 0,
                    failed: 0,
                    total: old(self).folders@.len() as usize,
                    stage: if all_converted(old(self).folders@) { BurnStage::CreatingIso } else { BurnStage::Converting },
                    ..old(self).conversion_state
                })
                &&& *final(self) == (FolderList { conversion_state: final(self).conversion_state, ..*old(self) })
            },
    {
        if self.conversion_state.is_converting() || self.folders.len() == 0 || !has_encoder || !has_output_manager {
            return false;
        }
        let all_converted = self.all_folders_converted();
        let total = self.folders.len();
        self.conversion_state.reset(total);
        if all_converted {
            self.conversion_state.set_stage(BurnStage::CreatingIso);
        } else {
            self.conversion_state.set_stage(BurnStage::Converting);
        }
        true
    }

    /// Starts burning the existing ISO ("Burn Another"), if its file is
    /// there and nothing is running. Returns the ISO's path.
    pub fn begin_burn_existing(&mut self, iso_file_exists: bool) -> (iso: Option<String>)
        ensures
            iso is Some == (old(self).iso_state is Some && iso_file_exists && !old(self).conversion_state.converting),
            iso matches Some(p) ==> p@ == old(self).iso_state.unwrap().path@
                && final(self).conversion_state == (ConversionState {
                    converting: true, cancelled: false, completed: 0, failed: 0, total: 0,
                    ..old(self).conversion_state
                })
                && *final(self) == (FolderList { conversion_state: final(self).conversion_state, ..*old(self) }),
            iso is None ==> *final(self) == *old(self),
    {
        let path = match &self.iso_state {
            Some(iso) => if iso_file_exists { iso.path.clone() } else { return None; },
            None => { return None; },
        };
        if self.conversion_state.is_converting() {
            return None;
        }
        self.conversion_state.reset(0);
        Some(path)
    }

    /// Asks a running conversion to stop. Returns whether one was running.
    pub fn cancel_conversion(&mut self) -> (was_running: bool)
        ensures
            was_running == old(self).conversion_state.converting,
            was_running ==> *final(self) == (FolderList {
                conversion_state: ConversionState { cancelled: true, ..old(self).conversion_state },
                ..*old(self)
            }),
            !was_running ==> *final(self) == *old(self),
    {
        if self.conversion_state.is_converting() {
            self.conversion_state.request_cancel();
            true
        } else {
            false
        }
    }

    /// A run has ended. An ISO it produced becomes the current one (unless
    /// it is the one already known); a run that completed marks the ISO as
    /// burned. Returns whether to announce a completed burn.
    pub fn finish_run(&mut self, produced_iso: Option<IsoState>) -> (completed: bool)
        ensures
            completed == (old(self).conversion_state.stage == BurnStage::Complete),
            final(self).iso_state == (match produced_iso {
                Some(new_iso) => match old(self).iso_state {
                    Some(existing) => if existing.path@ != new_iso.path@ { Some(new_iso) } else { Some(existing) },
                    None => Some(new_iso),
                },
                None => old(self).iso_state,
            }),
            final(self).iso_has_been_burned == (old(self).iso_has_been_burned || completed),
            *final(self) == (FolderList {
                iso_state: final(self).iso_state,
                iso_has_been_burned: final(self).iso_has_been_burned,
                ..*old(self)
            }),
    {
        if let Some(new_iso) = produced_iso {
            let replace = match &self.iso_state {
                Some(existing) => existing.path != new_iso.path,
                None => true,
            };
            if replace {
                self.iso_state = Some(new_iso);
            }
        }
        let completed = self.conversion_state.get_stage() == BurnStage::Complete;
        if completed {
            self.iso_has_been_burned = true;
        }
        completed
    }
}


impl FolderKind {
    /// A copy of the kind.
    pub fn duplicate(&self) -> (k: FolderKind)
        ensures
            k == *self,
    {
        match self {
            FolderKind::Album => FolderKind::Album,
            FolderKind::Mixtape { name } => FolderKind::Mixtape { name: name.clone() },
        }
    }
}

impl FolderList {
    /// The dropped directories to import: none while an import runs, and
    /// otherwise those not in the list yet. Starting an import drops a
    /// manual bitrate, so that the bitrate is calculated for the new set.
    pub fn add_external_folders(&mut self, dir_paths: Vec<String>, import_in_progress: bool) -> (paths: Vec<String>)
        ensures
            import_in_progress ==> paths@.len() == 0 && *final(self) == *old(self),
            !import_in_progress ==> paths@ == new_paths(old(self).folders@, dir_paths@),
            !import_in_progress && paths@.len() > 0 ==> *final(self) == (FolderList { manual_bitrate_override: None, ..*old(self) }),
            !import_in_progress && paths@.len() == 0 ==> *final(self) == *old(self),
            forall|k: int| 0 <= k < paths@.len() ==> !has_path(old(self).folders@, (#[trigger] paths@[k])@),
            forall|k: int| 0 <= k < paths@.len() ==> dir_paths@.contains(#[trigger] paths@[k]),
            !import_in_progress ==> forall|j: int| 0 <= j < dir_paths@.len() && !has_path(old(self).folders@, (#[trigger] dir_paths@[j])@)
                ==> paths@.contains(dir_paths@[j]),
    {
        proof {
            crate::list_laws::import_takes_exactly_the_new_folders(self.folders@, dir_paths@);
        }
        let mut paths: Vec<String> = Vec::new();
        if import_in_progress {
            return paths;
        }
        let mut i: usize = 0;
        while i < dir_paths.len()
            invariant
                i <= dir_paths.len(),
                paths@ == new_paths(self.folders@, dir_paths@.take(i as int)),
                *self == *old(self),
            decreases dir_paths.len() - i,
        {
            assert(dir_paths@.take(i + 1).drop_last() =~= dir_paths@.take(i as int));
            if !self.contains_path(&dir_paths[i]) {
                paths.push(dir_paths[i].clone());
            }
            i = i + 1;
        }
        assert(dir_paths@.take(dir_paths.len() as int) =~= dir_paths@);
        if paths.len() > 0 {
            self.manual_bitrate_override = None;
        }
        paths
    }

    /// Appends folders an import has scanned. Returns the positions of the
    /// new folders, `start..end`, which the encoder is to queue.
    pub fn add_imported_folders(&mut self, folders: Vec<MusicFolder>) -> (range: (usize, usize))
        ensures
            range == (old(self).folders@.len() as usize, final(self).folders@.len() as usize),
            final(self).folders@ == old(self).folders@ + folders@,
            folders@.len() == 0 ==> *final(self) == *old(self),
            folders@.len() > 0 ==> *final(self) == (FolderList {
                folders: final(self).folders,
                has_unsaved_changes: true,
                ..iso_invalidated(*old(self))
            }),
    {
        let start = self.folders.len();
        if folders.len() == 0 {
            assert(self.folders@ + folders@ =~= self.folders@);
            return (start, start);
        }
        let mut folders = folders;
        self.folders.append(&mut folders);
        self.iso_state = None;
        self.iso_generation_attempted = false;
        self.iso_has_been_burned = false;
        self.has_unsaved_changes = true;
        (start, self.folders.len())
    }

    /// An import has ended: the bitrate is calculated afresh for all
    /// folders and, with an encoder, remembered. Returns the bitrate to set
    /// before encoding resumes.
    pub fn finish_import(&mut self, estimate: Option<u32>, has_encoder: bool) -> (bitrate: u32)
        ensures
            bitrate == effective_bitrate(old(self).manual_bitrate_override, estimate),
            *final(self) == (FolderList {
                last_calculated_bitrate: if has_encoder { Some(bitrate) } else { None },
                ..*old(self)
            }),
    {
        self.last_calculated_bitrate = None;
        let new_bitrate = self.calculated_bitrate(estimate);
        if has_encoder {
            self.last_calculated_bitrate = Some(new_bitrate);
        }
        new_bitrate
    }

    /// Opens the track editor for the folder at `index`, unless it is open
    /// already or there is no such folder.
    pub fn open_track_editor(&mut self, index: usize) -> (req: Option<TrackEditorRequest>)
        ensures
            (index >= old(self).folders@.len() || old(self).editing_folder_index == Some(index))
                ==> req is None && *final(self) == *old(self),
            !(index >= old(self).folders@.len() || old(self).editing_folder_index == Some(index)) ==> {
                let f = old(self).folders@[index as int];
                &&& *final(self) == (FolderList { editing_folder_index: Some(index), ..*old(self) })
                &&& req matches Some(r) && r.folder_id == f.id && r.folder_kind == f.kind
                    && r.name@ == editor_name(f, path_file_name(f.path@))
                    && r.included@.len() == f.audio_files@.len()
                    && (forall|i: int| 0 <= i < f.audio_files@.len() ==>
                        #[trigger] r.included@[i] == !is_excluded(f.excluded_tracks@, f.audio_files@[i].path@))
                    && match (r.existing_track_order, f.track_order) {
                        (Some(a), Some(b)) => a@ == b@,
                        (None, None) => true,
                        _ => false,
                    }
                    && r.shared_album_art == (if f.kind is Mixtape { None } else { f.album_art })
            },
    {
        if index >= self.folders.len() {
            return None;
        }
        if let Some(editing) = self.editing_folder_index {
            if editing == index {
                return None;
            }
        }
        let folder = &self.folders[index];
        let mut included: Vec<bool> = Vec::new();
        let mut i: usize = 0;
        while i < folder.audio_files.len()
            invariant
                i <= folder.audio_files.len(),
                included@.len() == i,
                forall|k: int| 0 <= k < i ==> #[trigger] included@[k] == !is_excluded(folder.excluded_tracks@, folder.audio_files@[k].path@),
            decreases folder.audio_files.len() - i,
        {
            included.push(!folder.is_track_excluded(&folder.audio_files[i].path));
            i = i + 1;
        }
        let name = match &folder.kind {
            FolderKind::Mixtape { name } => name.clone(),
            FolderKind::Album => match &folder.album_name {
                Some(a) => a.clone(),
                None => match file_name(folder.path.as_str()) {
                    Some(n) => n,
                    None => String::from_str("Unknown"),
                },
            },
        };
        let existing_track_order = match &folder.track_order {
            Some(o) => Some(copy_indices(o)),
            None => None,
        };
        let shared_album_art = if folder.is_mixtape() { None } else { duplicate_opt_string(&folder.album_art) };
        let req = TrackEditorRequest {
            folder_id: folder.id.duplicate(),
            folder_kind: folder.kind.duplicate(),
            name,
            included,
            existing_track_order,
            shared_album_art,
        };
        self.editing_folder_index = Some(index);
        Some(req)
    }

    /// Applies a report of the track editor. Returns the position of a folder
    /// that has to be encoded again (after exclusions or mixtape tracks
    /// changed); its old converted output is then obsolete.
    pub fn apply_track_editor_update(&mut self, update: TrackEditorUpdate) -> (requeue: Option<usize>)
        requires
            update matches TrackEditorUpdate::TracksChanged { tracks, .. } ==> tracks@.len() <= u32::MAX
                && files_size(tracks@) <= u64::MAX && files_duration(tracks@) <= u64::MAX,
        ensures
            match update {
                TrackEditorUpdate::OrderChanged { id, order } => match old(self).position_of_spec(id.0@) {
                    Some(i) => requeue is None
                        && final(self).folders@.len() == old(self).folders@.len()
                        && (forall|k: int| 0 <= k < old(self).folders@.len() && k != i ==> #[trigger] final(self).folders@[k] == old(self).folders@[k])
                        && (final(self).folders@[i].track_order matches Some(o) && o@ == order@)
                        && final(self).folders@[i] == (MusicFolder { track_order: final(self).folders@[i].track_order, ..old(self).folders@[i] })
                        && *final(self) == (FolderList {
                            folders: final(self).folders,
                            iso_state: None,
                            iso_generation_attempted: false,
                            has_unsaved_changes: true,
                            ..*old(self)
                        }),
                    None => requeue is None && *final(self) == *old(self),
                },
                TrackEditorUpdate::ExclusionsChanged { id, excluded } => match old(self).position_of_spec(id.0@) {
                    Some(i) => requeue == Some(i as usize)
                        && final(self).folders@ == old(self).folders@.update(i, MusicFolder {
                            excluded_tracks: excluded,
                            conversion_status: FolderConversionStatus::NotConverted,
                            ..old(self).folders@[i]
                        })
                        && *final(self) == (FolderList {
                            folders: final(self).folders,
                            iso_state: None,
                            iso_generation_attempted: false,
                            has_unsaved_changes: true,
                            ..*old(self)
                        }),
                    None => requeue is None && *final(self) == *old(self),
                },
                TrackEditorUpdate::TracksChanged { id, tracks, .. } => match old(self).position_of_spec(id.0@) {
                    Some(i) => requeue == Some(i as usize)
                        && final(self).folders@.len() == old(self).folders@.len()
                        && (forall|k: int| 0 <= k < old(self).folders@.len() && k != i ==> #[trigger] final(self).folders@[k] == old(self).folders@[k])
                        && final(self).folders@[i].audio_files@ == tracks@
                        && final(self).folders@[i].file_count == tracks@.len()
                        && final(self).folders@[i].total_size == files_size(tracks@)
                        && final(self).folders@[i].total_duration_ms == files_duration(tracks@)
                        && final(self).folders@[i] == (MusicFolder {
                            audio_files: final(self).folders@[i].audio_files,
                            file_count: final(self).folders@[i].file_count,
                            total_size: final(self).folders@[i].total_size,
                            total_duration_ms: final(self).folders@[i].total_duration_ms,
                            conversion_status: FolderConversionStatus::NotConverted,
                            ..old(self).folders@[i]
                        })
                        && *final(self) == (FolderList {
                            folders: final(self).folders,
                            iso_state: None,
                            iso_generation_attempted: false,
                            has_unsaved_changes: true,
                            ..*old(self)
                        }),
                    None => requeue is None && *final(self) == *old(self),
                },
                TrackEditorUpdate::NameChanged { id, name } => match old(self).position_of_spec(id.0@) {
                    Some(i) => requeue is None
                        && final(self).folders@ == old(self).folders@.update(i, MusicFolder {
                            kind: match old(self).folders@[i].kind {
                                FolderKind::Mixtape { .. } => FolderKind::Mixtape { name },
                                FolderKind::Album => FolderKind::Album,
                            },
                            ..old(self).folders@[i]
                        })
                        && *final(self) == (FolderList {
                            folders: final(self).folders,
                            has_unsaved_changes: true,
                            ..*old(self)
                        }),
                    None => requeue is None && *final(self) == *old(self),
                },
                TrackEditorUpdate::Closed { .. } => requeue is None
                    && *final(self) == (FolderList { editing_folder_index: None, ..*old(self) }),
            },
    {
        match update {
            TrackEditorUpdate::OrderChanged { id, order } => {
                match self.position_of(&id) {
                    Some(i) => {
                        self.folders[i].track_order = Some(order);
                        self.iso_state = None;
                        self.iso_generation_attempted = false;
                        self.has_unsaved_changes = true;
                        None
                    },
                    None => None,
                }
            },
            TrackEditorUpdate::ExclusionsChanged { id, excluded } => {
                match self.position_of(&id) {
                    Some(i) => {
                        self.folders[i].excluded_tracks = excluded;
                        self.folders[i].conversion_status = FolderConversionStatus::NotConverted;
                        self.iso_state = None;
                        self.iso_generation_attempted = false;
                        self.has_unsaved_changes = true;
                        Some(i)
                    },
                    None => None,
                }
            },
            TrackEditorUpdate::TracksChanged { id, tracks, album_arts: _ } => {
                match self.position_of(&id) {
                    Some(i) => {
                        let (count, size, duration) = totals_of(&tracks);
                        self.folders[i].audio_files = tracks;
                        self.folders[i].file_count = count;
                        self.folders[i].total_size = size;
                        self.folders[i].total_duration_ms = duration;
                        self.folders[i].conversion_status = FolderConversionStatus::NotConverted;
                        self.iso_state = None;
                        self.iso_generation_attempted = false;
                        self.has_unsaved_changes = true;
                        Some(i)
                    },
                    None => None,
                }
            },
            TrackEditorUpdate::NameChanged { id, name } => {
                match self.position_of(&id) {
                    Some(i) => {
                        let is_mixtape = self.folders[i].is_mixtape();
                        if is_mixtape {
                            self.folders[i].kind = FolderKind::Mixtape { name };
                        }
                        self.has_unsaved_changes = true;
                        None
                    },
                    None => None,
                }
            },
            TrackEditorUpdate::Closed { .. } => {
                self.editing_folder_index = None;
                None
            },
        }
    }

    /// The position of the first folder with the id `id`.
    pub open spec fn position_of_spec(&self, id: Seq<char>) -> Option<int> {
        if exists|i: int| is_first_with_id(self.folders@, id, i) {
            Some(choose|i: int| is_first_with_id(self.folders@, id, i))
        } else {
            None
        }
    }
}

/// Number, total size and total duration of `tracks`.
fn totals_of(tracks: &Vec<AudioFileInfo>) -> (t: (u32, u64, u64))
    requires
        tracks@.len() <= u32::MAX,
        files_size(tracks@) <= u64::MAX,
        files_duration(tracks@) <= u64::MAX,
    ensures
        t.0 == tracks@.len(),
        t.1 == files_size(tracks@),
        t.2 == files_duration(tracks@),
{
    let mut size: u64 = 0;
    let mut duration: u64 = 0;
    let mut i: usize = 0;
    while i < tracks.len()
        invariant
            i <= tracks.len(),
            size == files_size(tracks@.take(i as int)),
            duration == files_duration(tracks@.take(i as int)),
            files_size(tracks@) <= u64::MAX,
            files_duration(tracks@) <= u64::MAX,
        decreases tracks.len() - i,
    {
        proof {
            lemma_files_totals_prefix(tracks@, i as int + 1);
            assert(tracks@.take(i + 1).drop_last() =~= tracks@.take(i as int));
        }
        size = size + tracks[i].size;
        duration = duration + tracks[i].duration_ms;
        i = i + 1;
    }
    assert(tracks@.take(tracks.len() as int) =~= tracks@);
    (tracks.len() as u32, size, duration)
}

/// A prefix of the files is no larger and no longer than all of them.
proof fn lemma_files_totals_prefix(files: Seq<AudioFileInfo>, k: int)
    requires
        0 <= k <= files.len(),
    ensures
        files_size(files.take(k)) <= files_size(files),
        files_duration(files.take(k)) <= files_duration(files),
    decreases files.len() - k,
{
    if k < files.len() {
        lemma_files_totals_prefix(files, k + 1);
        assert(files.take(k + 1).drop_last() =~= files.take(k));
    } else {
        assert(files.take(k) =~= files);
    }
}

/// A prefix of the folders has no more files than the whole list.
proof fn lemma_files_sum_prefix(fs: Seq<MusicFolder>, k: int)
    requires
        0 <= k <= fs.len(),
    ensures
        files_sum(fs.take(k)) <= files_sum(fs),
    decreases fs.len() - k,
{
    if k < fs.len() {
        lemma_files_sum_prefix(fs, k + 1);
        assert(fs.take(k + 1).drop_last() =~= fs.take(k));
    } else {
        assert(fs.take(k) =~= fs);
    }
}

/// A prefix of the folders is no larger than the whole list.
proof fn lemma_size_sum_prefix(fs: Seq<MusicFolder>, k: int)
    requires
        0 <= k <= fs.len(),
    ensures
        size_sum(fs.take(k)) <= size_sum(fs),
    decreases fs.len() - k,
{
    if k < fs.len() {
        lemma_size_sum_prefix(fs, k + 1);
        assert(fs.take(k + 1).drop_last() =~= fs.take(k));
    } else {
        assert(fs.take(k) =~= fs);
    }
}

/// A prefix of the folders plays no longer than the whole list.
proof fn lemma_duration_sum_prefix(fs: Seq<MusicFolder>, k: int)
    requires
        0 <= k <= fs.len(),
    ensures
        duration_sum(fs.take(k)) <= duration_sum(fs),
    decreases fs.len() - k,
{
    if k < fs.len() {
        lemma_duration_sum_prefix(fs, k + 1);
        assert(fs.take(k + 1).drop_last() =~= fs.take(k));
    } else {
        assert(fs.take(k) =~= fs);
    }
}

} // verus!
