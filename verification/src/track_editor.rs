//! The track editor: one window for the tracks of an album (include or
//! exclude them, fix their order) or of a mixtape (add, remove, reorder and
//! rename).

use vstd::prelude::*;
use crate::folder::{AudioFileInfo, FolderId, FolderKind, duplicate_opt_string};
use crate::input::KeyPress;
use crate::paths::{file_stem, path_file_stem};
use crate::reorder::{copy_indices, identity_order, moved};
use crate::text::{char_is_control, decimal, is_control_char, push_decimal, string_pop, string_push};

verus! {

/// One track in the editor.
pub struct TrackEntry {
    pub file_info: AudioFileInfo,
    /// Album art of the track (mixtape tracks may each have their own).
    pub album_art: Option<String>,
    /// The track goes on the CD.
    pub included: bool,
}

/// Changes the editor reports back to the folder list.
pub enum TrackEditorUpdate {
    /// The order of the tracks changed (indices into the folder's files).
    OrderChanged { id: FolderId, order: Vec<usize> },
    /// The set of excluded tracks changed (albums).
    ExclusionsChanged { id: FolderId, excluded: Vec<String> },
    /// The tracks themselves changed (mixtapes).
    TracksChanged { id: FolderId, tracks: Vec<AudioFileInfo>, album_arts: Vec<Option<String>> },
    /// The mixtape was renamed.
    NameChanged { id: FolderId, name: String },
    /// The editor window closed.
    Closed { id: FolderId },
}

/// The kind of a report from the editor.
#[derive(Clone, Copy, Debug, PartialEq, Eq, Structural)]
pub enum UpdateKind {
    Order,
    Exclusions,
    Tracks,
    Name,
    Closed,
}

/// The kind of `u`.
pub open spec fn kind_of(u: TrackEditorUpdate) -> UpdateKind {
    match u {
        TrackEditorUpdate::OrderChanged { .. } => UpdateKind::Order,
        TrackEditorUpdate::ExclusionsChanged { .. } => UpdateKind::Exclusions,
        TrackEditorUpdate::TracksChanged { .. } => UpdateKind::Tracks,
        TrackEditorUpdate::NameChanged { .. } => UpdateKind::Name,
        TrackEditorUpdate::Closed { .. } => UpdateKind::Closed,
    }
}

/// The kinds of a list of reports.
pub open spec fn kinds(us: Seq<TrackEditorUpdate>) -> Seq<UpdateKind> {
    us.map_values(|u: TrackEditorUpdate| kind_of(u))
}

/// `seq![k]` when `b`, empty otherwise.
pub open spec fn kind_if(b: bool, k: UpdateKind) -> Seq<UpdateKind> {
    if b { seq![k] } else { Seq::empty() }
}

/// What a key press did to the editor.
#[derive(Clone, Copy, Debug, PartialEq, Eq, Structural)]
pub enum TrackKeyOutcome {
    Ignored,
    Handled,
    /// Close the editor without applying anything.
    Cancel,
}

/// Whether each track is included.
pub open spec fn inclusions(tracks: Seq<TrackEntry>) -> Seq<bool> {
    tracks.map_values(|t: TrackEntry| t.included)
}

/// The tracks listed by `order`, skipping indices out of range.
pub open spec fn tracks_in_order(tracks: Seq<TrackEntry>, order: Seq<usize>) -> Seq<TrackEntry>
    decreases order.len(),
{
    if order.len() == 0 {
        Seq::empty()
    } else {
        let prev = tracks_in_order(tracks, order.drop_last());
        if (order.last() as int) < tracks.len() { prev.push(tracks[order.last() as int]) } else { prev }
    }
}

/// Paths of the tracks that are not included.
pub open spec fn excluded_paths(tracks: Seq<TrackEntry>) -> Seq<Seq<char>>
    decreases tracks.len(),
{
    if tracks.len() == 0 {
        Seq::empty()
    } else {
        let prev = excluded_paths(tracks.drop_last());
        if tracks.last().included { prev } else { prev.push(tracks.last().file_info.path@) }
    }
}

/// Number of included tracks.
pub open spec fn included_count(tracks: Seq<TrackEntry>) -> nat
    decreases tracks.len(),
{
    if tracks.len() == 0 {
        0
    } else {
        included_count(tracks.drop_last()) + if tracks.last().included { 1nat } else { 0nat }
    }
}

/// The name typed so far after the characters `chars` (control characters are skipped).
pub open spec fn name_after_chars(name: Seq<char>, chars: Seq<char>) -> Seq<char>
    decreases chars.len(),
{
    if chars.len() == 0 {
        name
    } else {
        let prev = name_after_chars(name, chars.drop_last());
        if is_control_char(chars.last()) { prev } else { prev.push(chars.last()) }
    }
}

/// A track is shown by its file name without extension, or "Unknown".
pub open spec fn track_display_name_spec(path: Seq<char>) -> Seq<char> {
    match path_file_stem(path) {
        Some(s) => s,
        None => "Unknown"@,
    }
}

/// `tracks` with the track at `i` switched between included and excluded.
pub open spec fn toggled(tracks: Seq<TrackEntry>, i: int) -> Seq<TrackEntry> {
    tracks.update(i, TrackEntry { included: !tracks[i].included, ..tracks[i] })
}

/// The editor holds changes that Done would apply: another order, other
/// inclusions, another name, or (for a mixtape) tracks added or removed.
pub open spec fn has_edits(w: TrackEditorWindow) -> bool {
    w.track_order@ != w.original_order@
        || inclusions(w.tracks@) != w.original_inclusions@
        || w.name@ != w.original_name@
        || (w.folder_kind is Mixtape && w.tracks@.len() != w.original_inclusions@.len())
}

/// State of a track editor window.
pub struct TrackEditorWindow {
    pub folder_id: FolderId,
    pub folder_kind: FolderKind,
    /// Display name (album or mixtape name).
    pub name: String,
    pub original_name: String,
    /// The mixtape name is being edited.
    pub editing_name: bool,
    pub tracks: Vec<TrackEntry>,
    /// Order the editor started with (what "Reset Order" restores).
    pub original_order: Vec<usize>,
    pub original_inclusions: Vec<bool>,
    /// Current order, as indices into `tracks`.
    pub track_order: Vec<usize>,
    /// Row under a dragged track.
    pub drop_target: Option<usize>,
}

/// `0, 1, ..., n - 1` as a vector.
pub fn identity_order_vec(n: usize) -> (r: Vec<usize>)
    ensures
        r@ == identity_order(n as nat),
{
    let mut r: Vec<usize> = Vec::new();
    let mut i: usize = 0;
    while i < n
        invariant
            i <= n,
            r@ =~= identity_order(i as nat),
        decreases n - i,
    {
        r.push(i);
        i = i + 1;
    }
    r
}

/// Whether two index sequences are equal.
fn same_indices(a: &Vec<usize>, b: &Vec<usize>) -> (r: bool)
    ensures
        r == (a@ == b@),
{
    if a.len() != b.len() {
        return false;
    }
    let mut i: usize = 0;
    while i < a.len()
        invariant
            i <= a.len(),
            a.len() == b.len(),
            forall|j: int| 0 <= j < i ==> a@[j] == b@[j],
        decreases a.len() - i,
    {
        if a[i] != b[i] {
            return false;
        }
        i = i + 1;
    }
    assert(a@ =~= b@);
    true
}

impl TrackEditorWindow {
    /// An editor for the given tracks, in `existing_track_order` if the
    /// folder has one and in file order otherwise.
    pub fn new(
        folder_id: FolderId,
        folder_kind: FolderKind,
        name: String,
        tracks: Vec<TrackEntry>,
        existing_track_order: Option<Vec<usize>>,
    ) -> (w: Self)
        ensures
            w.folder_id == folder_id,
            w.folder_kind == folder_kind,
            w.name@ == name@,
            w.original_name@ == name@,
            !w.editing_name,
            w.tracks@ == tracks@,
            w.track_order@ == (match existing_track_order {
                Some(o) => o@,
                None => identity_order(tracks@.len()),
            }),
            w.original_order@ == w.track_order@,
            w.original_inclusions@ == inclusions(tracks@),
            w.drop_target is None,
            !has_edits(w),
    {
        let track_order = match existing_track_order {
            Some(o) => o,
            None => identity_order_vec(tracks.len()),
        };
        let original_order = copy_indices(&track_order);
        let mut original_inclusions: Vec<bool> = Vec::new();
        let mut i: usize = 0;
        while i < tracks.len()
            invariant
                i <= tracks.len(),
                original_inclusions@ =~= inclusions(tracks@.take(i as int)),
            decreases tracks.len() - i,
        {
            original_inclusions.push(tracks[i].included);
            assert(tracks@.take(i + 1) =~= tracks@.take(i as int).push(tracks@[i as int]));
            i = i + 1;
        }
        assert(tracks@.take(tracks.len() as int) =~= tracks@);
        let original_name = name.clone();
        TrackEditorWindow {
            folder_id,
            folder_kind,
            name,
            original_name,
            editing_name: false,
            tracks,
            original_order,
            original_inclusions,
            track_order,
            drop_target: None,
        }
    }

    /// Whether the editor edits a mixtape.
    pub fn is_mixtape(&self) -> (b: bool)
        ensures
            b == (self.folder_kind is Mixtape),
    {
        match self.folder_kind {
            FolderKind::Mixtape { .. } => true,
            FolderKind::Album => false,
        }
    }

    /// The name a track is listed under.
    pub fn track_display_name(&self, track: &TrackEntry) -> (s: String)
        ensures
            s@ == track_display_name_spec(track.file_info.path@),
    {
        match file_stem(track.file_info.path.as_str()) {
            Some(s) => s,
            None => String::from_str("Unknown"),
        }
    }

    /// Reacts to a key press. Escape ends name editing, or else closes the
    /// editor; enter ends name editing; while editing, backspace deletes and
    /// typed characters (other than control characters) are appended.
    pub fn handle_key(&mut self, key: &KeyPress) -> (out: TrackKeyOutcome)
        ensures
            final(self).folder_id == old(self).folder_id,
            final(self).folder_kind == old(self).folder_kind,
            final(self).tracks == old(self).tracks,
            final(self).track_order == old(self).track_order,
            final(self).original_order == old(self).original_order,
            final(self).original_inclusions == old(self).original_inclusions,
            final(self).original_name == old(self).original_name,
            final(self).drop_target == old(self).drop_target,
            key.key@ == "escape"@ ==> final(self).name@ == old(self).name@ && if old(self).editing_name {
                out is Handled && !final(self).editing_name
            } else {
                out is Cancel && !final(self).editing_name
            },
            key.key@ != "escape"@ && key.key@ == "enter"@ && old(self).editing_name ==>
                out is Handled && !final(self).editing_name && final(self).name@ == old(self).name@,
            key.key@ != "escape"@ && !(key.key@ == "enter"@ && old(self).editing_name) ==> {
                &&& final(self).editing_name == old(self).editing_name
                &&& if !old(self).editing_name {
                    out is Ignored && final(self).name@ == old(self).name@
                } else if key.key@ == "backspace"@ && old(self).name@.len() > 0 {
                    out is Handled && final(self).name@ == old(self).name@.drop_last()
                } else {
                    match key.key_char {
                        Some(kc) => out is Handled && final(self).name@ == name_after_chars(old(self).name@, kc@),
                        None => out is Ignored && final(self).name@ == old(self).name@,
                    }
                }
            },
    {
        if key.is_key("escape") {
            if self.editing_name {
                self.editing_name = false;
                return TrackKeyOutcome::Handled;
            }
            return TrackKeyOutcome::Cancel;
        }
        if key.is_key("enter") && self.editing_name {
            self.editing_name = false;
            return TrackKeyOutcome::Handled;
        }
        if self.editing_name {
            if key.is_key("backspace") && self.name.as_str().unicode_len() > 0 {
                let _ = string_pop(&mut self.name);
                return TrackKeyOutcome::Handled;
            }
            match &key.key_char {
                Some(kc) => {
                    let n = kc.as_str().unicode_len();
                    let ghost n0 = self.name@;
                    let mut i: usize = 0;
                    assert(kc@.take(0) =~= Seq::<char>::empty());
                    while i < n
                        invariant
                            i <= n,
                            n == kc@.len(),
                            self.name@ == name_after_chars(n0, kc@.take(i as int)),
                            self.folder_id == old(self).folder_id,
                            self.folder_kind == old(self).folder_kind,
                            self.tracks == old(self).tracks,
                            self.track_order == old(self).track_order,
                            self.original_order == old(self).original_order,
                            self.original_inclusions == old(self).original_inclusions,
                            self.original_name == old(self).original_name,
                            self.drop_target == old(self).drop_target,
                            self.editing_name == old(self).editing_name,
                        decreases n - i,
                    {
                        let c = kc.as_str().get_char(i);
                        assert(kc@.take(i + 1).drop_last() =~= kc@.take(i as int));
                        assert(kc@.take(i + 1).last() == c);
                        if !char_is_control(c) {
                            string_push(&mut self.name, c);
                        }
                        i = i + 1;
                    }
                    assert(kc@.take(n as int) =~= kc@);
                    return TrackKeyOutcome::Handled;
                },
                None => {},
            }
        }
        TrackKeyOutcome::Ignored
    }

    /// Includes an excluded track or excludes an included one.
    pub fn toggle_track(&mut self, track_index: usize)
        ensures
            track_index < old(self).tracks@.len() ==> final(self).tracks@ == toggled(old(self).tracks@, track_index as int),
            track_index >= old(self).tracks@.len() ==> final(self).tracks@ == old(self).tracks@,
            final(self).track_order == old(self).track_order,
            final(self).original_order == old(self).original_order,
            final(self).original_inclusions == old(self).original_inclusions,
            final(self).name == old(self).name,
            final(self).original_name == old(self).original_name,
            final(self).editing_name == old(self).editing_name,
            final(self).folder_id == old(self).folder_id,
            final(self).folder_kind == old(self).folder_kind,
            final(self).drop_target == old(self).drop_target,
    {
        if track_index < self.tracks.len() {
            let flipped = !self.tracks[track_index].included;
            self.tracks[track_index].included = flipped;
        }
    }

    /// Moves the track shown at position `from` to position `to`; nothing
    /// happens when the positions are equal or out of range.
    pub fn move_track(&mut self, from: usize, to: usize)
        ensures
            (from == to || from >= old(self).track_order@.len() || to >= old(self).track_order@.len())
                ==> final(self).track_order@ == old(self).track_order@,
            !(from == to || from >= old(self).track_order@.len() || to >= old(self).track_order@.len())
                ==> final(self).track_order@ == moved(old(self).track_order@, from as int, to as int),
            final(self).tracks == old(self).tracks,
            final(self).original_order == old(self).original_order,
            final(self).original_inclusions == old(self).original_inclusions,
            final(self).name == old(self).name,
            final(self).original_name == old(self).original_name,
            final(self).editing_name == old(self).editing_name,
            final(self).folder_id == old(self).folder_id,
            final(self).folder_kind == old(self).folder_kind,
            final(self).drop_target == old(self).drop_target,
    {
        if from == to || from >= self.track_order.len() || to >= self.track_order.len() {
            return;
        }
        let track_idx = self.track_order.remove(from);
        self.track_order.insert(to, track_idx);
    }

    /// Restores the order the editor started with.
    pub fn reset_order(&mut self)
        ensures
            final(self).track_order@ == old(self).original_order@,
            final(self).tracks == old(self).tracks,
            final(self).original_order == old(self).original_order,
            final(self).original_inclusions == old(self).original_inclusions,
            final(self).name == old(self).name,
            final(self).original_name == old(self).original_name,
            final(self).editing_name == old(self).editing_name,
            final(self).folder_id == old(self).folder_id,
            final(self).folder_kind == old(self).folder_kind,
            final(self).drop_target == old(self).drop_target,
    {
        self.track_order = copy_indices(&self.original_order);
    }

    /// Number of included tracks.
    pub fn included_count(&self) -> (n: usize)
        ensures
            n == included_count(self.tracks@),
    {
        let mut n: usize = 0;
        let mut i: usize = 0;
        while i < self.tracks.len()
            invariant
                i <= self.tracks.len(),
                n == included_count(self.tracks@.take(i as int)),
                n <= i,
            decreases self.tracks.len() - i,
        {
            assert(self.tracks@.take(i + 1).drop_last() =~= self.tracks@.take(i as int));
            if self.tracks[i].included {
                n = n + 1;
            }
            i = i + 1;
        }
        assert(self.tracks@.take(self.tracks.len() as int) =~= self.tracks@);
        n
    }

    /// Whether any track's inclusion differs from the start.
    fn inclusions_changed(&self) -> (b: bool)
        ensures
            b == (inclusions(self.tracks@) != self.original_inclusions@),
    {
        if self.tracks.len() != self.original_inclusions.len() {
            assert(inclusions(self.tracks@).len() != self.original_inclusions@.len());
            return true;
        }
        let mut i: usize = 0;
        while i < self.tracks.len()
            invariant
                i <= self.tracks.len(),
                self.tracks.len() == self.original_inclusions.len(),
                forall|j: int| 0 <= j < i ==> self.tracks@[j].included == self.original_inclusions@[j],
            decreases self.tracks.len() - i,
        {
            if self.tracks[i].included != self.original_inclusions[i] {
                assert(inclusions(self.tracks@)[i as int] != self.original_inclusions@[i as int]);
                return true;
            }
            i = i + 1;
        }
        assert(inclusions(self.tracks@) =~= self.original_inclusions@);
        false
    }

    /// Whether the editor holds changes that Done would apply.
    pub fn has_changes(&self) -> (b: bool)
        ensures
            b == has_edits(*self),
    {
        if !same_indices(&self.track_order, &self.original_order) {
            return true;
        }
        if self.inclusions_changed() {
            return true;
        }
        if self.name != self.original_name {
            return true;
        }
        self.is_mixtape() && self.tracks.len() != self.original_inclusions.len()
    }

    /// The files and album art of the tracks in the current order.
    pub fn ordered_tracks(&self) -> (r: (Vec<AudioFileInfo>, Vec<Option<String>>))
        ensures
            r.0@ == tracks_in_order(self.tracks@, self.track_order@).map_values(|t: TrackEntry| t.file_info),
            r.1@ == tracks_in_order(self.tracks@, self.track_order@).map_values(|t: TrackEntry| t.album_art),
    {
        let mut files: Vec<AudioFileInfo> = Vec::new();
        let mut arts: Vec<Option<String>> = Vec::new();
        let mut k: usize = 0;
        while k < self.track_order.len()
            invariant
                k <= self.track_order.len(),
                files@ =~= tracks_in_order(self.tracks@, self.track_order@.take(k as int)).map_values(|t: TrackEntry| t.file_info),
                arts@ =~= tracks_in_order(self.tracks@, self.track_order@.take(k as int)).map_values(|t: TrackEntry| t.album_art),
            decreases self.track_order.len() - k,
        {
            assert(self.track_order@.take(k + 1).drop_last() =~= self.track_order@.take(k as int));
            let i = self.track_order[k];
            if i < self.tracks.len() {
                files.push(self.tracks[i].file_info.duplicate());
                arts.push(duplicate_opt_string(&self.tracks[i].album_art));
            }
            k = k + 1;
        }
        assert(self.track_order@.take(self.track_order.len() as int) =~= self.track_order@);
        (files, arts)
    }

    /// The "tracks changed" report for a mixtape.
    pub fn tracks_update(&self) -> (u: TrackEditorUpdate)
        ensures
            u matches TrackEditorUpdate::TracksChanged { id, tracks, album_arts } && id == self.folder_id
                && tracks@ == tracks_in_order(self.tracks@, self.track_order@).map_values(|t: TrackEntry| t.file_info)
                && album_arts@ == tracks_in_order(self.tracks@, self.track_order@).map_values(|t: TrackEntry| t.album_art),
    {
        let (tracks, album_arts) = self.ordered_tracks();
        TrackEditorUpdate::TracksChanged { id: self.folder_id.duplicate(), tracks, album_arts }
    }

    /// Removes a track from a mixtape; the order becomes file order again
    /// and the new track list is reported.
    pub fn remove_track(&mut self, track_index: usize) -> (u: Option<TrackEditorUpdate>)
        ensures
            track_index >= old(self).tracks@.len() ==> u is None && *final(self) == *old(self),
            track_index < old(self).tracks@.len() ==> {
                &&& final(self).tracks@ == old(self).tracks@.remove(track_index as int)
                &&& final(self).track_order@ == identity_order(final(self).tracks@.len())
                &&& final(self).original_order@ == final(self).track_order@
                &&& *final(self) == (TrackEditorWindow {
                    tracks: final(self).tracks,
                    track_order: final(self).track_order,
                    original_order: final(self).original_order,
                    ..*old(self)
                })
                &&& u matches Some(TrackEditorUpdate::TracksChanged { id, tracks, .. }) && id == old(self).folder_id
                    && tracks@ == final(self).tracks@.map_values(|t: TrackEntry| t.file_info)
            },
    {
        if track_index >= self.tracks.len() {
            return None;
        }
        let _ = self.tracks.remove(track_index);
        self.track_order = identity_order_vec(self.tracks.len());
        self.original_order = identity_order_vec(self.tracks.len());
        proof {
            lemma_identity_order_selects_all(self.tracks@);
        }
        Some(self.tracks_update())
    }

    /// Adds a file to a mixtape unless a track with that path is there
    /// already; returns whether it was added.
    pub fn add_track(&mut self, file_info: AudioFileInfo, album_art: Option<String>) -> (added: bool)
        ensures
            added == !(exists|j: int| 0 <= j < old(self).tracks@.len() && #[trigger] old(self).tracks@[j].file_info.path@ == file_info.path@),
            added ==> final(self).tracks@ == old(self).tracks@.push(TrackEntry { file_info, album_art, included: true }),
            !added ==> final(self).tracks@ == old(self).tracks@,
            final(self).track_order == old(self).track_order,
            final(self).original_order == old(self).original_order,
            final(self).original_inclusions == old(self).original_inclusions,
            final(self).name == old(self).name,
            final(self).folder_id == old(self).folder_id,
            final(self).folder_kind == old(self).folder_kind,
    {
        let mut j: usize = 0;
        while j < self.tracks.len()
            invariant
                j <= self.tracks.len(),
                forall|k: int| 0 <= k < j ==> self.tracks@[k].file_info.path@ != file_info.path@,
            decreases self.tracks.len() - j,
        {
            if self.tracks[j].file_info.path == file_info.path {
                return false;
            }
            j = j + 1;
        }
        self.tracks.push(TrackEntry { file_info, album_art, included: true });
        true
    }

    /// After files were added to a mixtape: the order becomes file order and
    /// the new track list is reported.
    pub fn finish_adding_tracks(&mut self) -> (u: TrackEditorUpdate)
        ensures
            final(self).tracks == old(self).tracks,
            final(self).track_order@ == identity_order(old(self).tracks@.len()),
            final(self).original_order@ == final(self).track_order@,
            *final(self) == (TrackEditorWindow {
                track_order: final(self).track_order,
                original_order: final(self).original_order,
                ..*old(self)
            }),
            u matches TrackEditorUpdate::TracksChanged { id, tracks, .. } && id == old(self).folder_id
                && tracks@ == old(self).tracks@.map_values(|t: TrackEntry| t.file_info),
    {
        self.track_order = identity_order_vec(self.tracks.len());
        self.original_order = identity_order_vec(self.tracks.len());
        proof {
            lemma_identity_order_selects_all(self.tracks@);
        }
        self.tracks_update()
    }

    /// Paths of the excluded tracks.
    fn excluded(&self) -> (r: Vec<String>)
        ensures
            r@.map_values(|s: String| s@) == excluded_paths(self.tracks@),
    {
        let mut r: Vec<String> = Vec::new();
        let mut i: usize = 0;
        while i < self.tracks.len()
            invariant
                i <= self.tracks.len(),
                r@.map_values(|s: String| s@) =~= excluded_paths(self.tracks@.take(i as int)),
            decreases self.tracks.len() - i,
        {
            assert(self.tracks@.take(i + 1).drop_last() =~= self.tracks@.take(i as int));
            if !self.tracks[i].included {
                r.push(self.tracks[i].file_info.path.clone());
            }
            i = i + 1;
        }
        assert(self.tracks@.take(self.tracks.len() as int) =~= self.tracks@);
        r
    }

    /// Done: reports each kind of change that was made, in the order order,
    /// exclusions, name, tracks, and then that the editor closed.
    pub fn apply_and_close(&self) -> (updates: Vec<TrackEditorUpdate>)
        ensures
            kinds(updates@) == kind_if(self.track_order@ != self.original_order@, UpdateKind::Order)
                + kind_if(inclusions(self.tracks@) != self.original_inclusions@, UpdateKind::Exclusions)
                + kind_if(self.name@ != self.original_name@, UpdateKind::Name)
                + kind_if(self.folder_kind is Mixtape && self.tracks@.len() != self.original_inclusions@.len(), UpdateKind::Tracks)
                + seq![UpdateKind::Closed],
            forall|k: int| 0 <= k < updates@.len() ==> match #[trigger] updates@[k] {
                TrackEditorUpdate::OrderChanged { id, order } => id == self.folder_id && order@ == self.track_order@,
                TrackEditorUpdate::ExclusionsChanged { id, excluded } => id == self.folder_id
                    && excluded@.map_values(|s: String| s@) == excluded_paths(self.tracks@),
                TrackEditorUpdate::NameChanged { id, name } => id == self.folder_id && name@ == self.name@,
                TrackEditorUpdate::TracksChanged { id, tracks, .. } => id == self.folder_id
                    && tracks@ == tracks_in_order(self.tracks@, self.track_order@).map_values(|t: TrackEntry| t.file_info),
                TrackEditorUpdate::Closed { id } => id == self.folder_id,
            },
    {
        let mut updates: Vec<TrackEditorUpdate> = Vec::new();
        let ghost k0 = kind_if(self.track_order@ != self.original_order@, UpdateKind::Order);
        let ghost k1 = k0 + kind_if(inclusions(self.tracks@) != self.original_inclusions@, UpdateKind::Exclusions);
        let ghost k2 = k1 + kind_if(self.name@ != self.original_name@, UpdateKind::Name);
        let ghost k3 = k2 + kind_if(self.folder_kind is Mixtape && self.tracks@.len() != self.original_inclusions@.len(), UpdateKind::Tracks);
        if !same_indices(&self.track_order, &self.original_order) {
            updates.push(TrackEditorUpdate::OrderChanged {
                id: self.folder_id.duplicate(),
                order: copy_indices(&self.track_order),
            });
        }
        assert(kinds(updates@) =~= k0);
        if self.inclusions_changed() {
            let ghost before = updates@;
            updates.push(TrackEditorUpdate::ExclusionsChanged { id: self.folder_id.duplicate(), excluded: self.excluded() });
            assert(kinds(updates@) =~= kinds(before).push(UpdateKind::Exclusions));
        }
        assert(kinds(updates@) =~= k1);
        if self.name != self.original_name {
            let ghost before = updates@;
            updates.push(TrackEditorUpdate::NameChanged { id: self.folder_id.duplicate(), name: self.name.clone() });
            assert(kinds(updates@) =~= kinds(before).push(UpdateKind::Name));
        }
        assert(kinds(updates@) =~= k2);
        if self.is_mixtape() && self.tracks.len() != self.original_inclusions.len() {
            let ghost before = updates@;
            updates.push(self.tracks_update());
            assert(kinds(updates@) =~= kinds(before).push(UpdateKind::Tracks));
        }
        assert(kinds(updates@) =~= k3);
        let ghost before = updates@;
        updates.push(TrackEditorUpdate::Closed { id: self.folder_id.duplicate() });
        assert(kinds(updates@) =~= kinds(before).push(UpdateKind::Closed));
        updates
    }

    /// Ends a drop of files and folders onto the editor, of which `taken`
    /// were folders or audio files (their tracks added already). Only a
    /// mixtape takes drops; when something was taken, the order starts over
    /// from the file order and the new track list is reported.
    pub fn finish_external_drop(&mut self, taken: usize) -> (u: Option<TrackEditorUpdate>)
        ensures
            (old(self).folder_kind is Album || taken == 0) ==> u is None && *final(self) == *old(self),
            !(old(self).folder_kind is Album || taken == 0) ==> {
                &&& final(self).tracks == old(self).tracks
                &&& final(self).track_order@ == identity_order(old(self).tracks@.len())
                &&& final(self).original_order@ == final(self).track_order@
                &&& *final(self) == (TrackEditorWindow {
                    track_order: final(self).track_order,
                    original_order: final(self).original_order,
                    ..*old(self)
                })
                &&& u matches Some(TrackEditorUpdate::TracksChanged { id, tracks, .. }) && id == old(self).folder_id
                    && tracks@ == old(self).tracks@.map_values(|t: TrackEntry| t.file_info)
            },
    {
        if !self.is_mixtape() || taken == 0 {
            return None;
        }
        Some(self.finish_adding_tracks())
    }

    /// The title of an editor window for a folder named `name`.
    pub fn window_title(folder_kind: &FolderKind, name: &str) -> (t: String)
        ensures
            t@ == (match folder_kind {
                FolderKind::Album => name@ + " - Track Editor"@,
                FolderKind::Mixtape { .. } => "Mixtape Editor"@,
            }),
    {
        match folder_kind {
            FolderKind::Album => {
                let mut t = String::from_str(name);
                t.append(" - Track Editor");
                t
            },
            FolderKind::Mixtape { .. } => String::from_str("Mixtape Editor"),
        }
    }

    /// "Select All" (`true`) or "Deselect All" (`false`): every track is
    /// included or excluded; nothing else changes.
    pub fn set_all_included(&mut self, included: bool)
        ensures
            final(self).tracks@.len() == old(self).tracks@.len(),
            forall|i: int| 0 <= i < old(self).tracks@.len() ==> #[trigger] final(self).tracks@[i]
                == (TrackEntry { included, ..old(self).tracks@[i] }),
            inclusions(final(self).tracks@) == Seq::new(old(self).tracks@.len(), |i: int| included),
            *final(self) == (TrackEditorWindow { tracks: final(self).tracks, ..*old(self) }),
    {
        let mut i: usize = 0;
        while i < self.tracks.len()
            invariant
                i <= self.tracks.len(),
                self.tracks@.len() == old(self).tracks@.len(),
                forall|k: int| 0 <= k < i ==> #[trigger] self.tracks@[k] == (TrackEntry { included, ..old(self).tracks@[k] }),
                forall|k: int| i <= k < self.tracks@.len() ==> #[trigger] self.tracks@[k] == old(self).tracks@[k],
                *self == (TrackEditorWindow { tracks: self.tracks, ..*old(self) }),
            decreases self.tracks.len() - i,
        {
            self.tracks[i].included = included;
            i = i + 1;
        }
        assert(inclusions(self.tracks@) =~= Seq::new(old(self).tracks@.len(), |i: int| included));
    }

    /// The summary beside the name: "N tracks, D", or "K of N tracks, D"
    /// for an album with excluded tracks, where `duration_text` is the
    /// included tracks' total playing time as text.
    pub fn summary_line(&self, duration_text: &str) -> (s: String)
        ensures
            s@ == (if self.folder_kind is Album && included_count(self.tracks@) != self.tracks@.len() {
                decimal(included_count(self.tracks@)) + " of "@ + decimal(self.tracks@.len()) + " tracks, "@ + duration_text@
            } else {
                decimal(self.tracks@.len()) + " tracks, "@ + duration_text@
            }),
    {
        let total = self.tracks.len();
        let included = self.included_count();
        let mut s = String::new();
        if !self.is_mixtape() && included != total {
            push_decimal(&mut s, included as u64);
            s.append(" of ");
        }
        push_decimal(&mut s, total as u64);
        s.append(" tracks, ");
        s.append(duration_text);
        s
    }

    /// Cancel: only reports that the editor closed.
    pub fn cancel(&self) -> (u: TrackEditorUpdate)
        ensures
            u matches TrackEditorUpdate::Closed { id } && id == self.folder_id,
    {
        TrackEditorUpdate::Closed { id: self.folder_id.duplicate() }
    }

    /// Total playing time of the included tracks, in the current order, in milliseconds.
    pub fn included_duration_ms(&self) -> (total: u64)
        requires
            included_duration(tracks_in_order(self.tracks@, self.track_order@)) <= u64::MAX,
        ensures
            total == included_duration(tracks_in_order(self.tracks@, self.track_order@)),
    {
        let mut total: u64 = 0;
        let mut k: usize = 0;
        while k < self.track_order.len()
            invariant
                k <= self.track_order.len(),
                total == included_duration(tracks_in_order(self.tracks@, self.track_order@.take(k as int))),
                included_duration(tracks_in_order(self.tracks@, self.track_order@)) <= u64::MAX,
            decreases self.track_order.len() - k,
        {
            proof {
                lemma_included_duration_prefix(self.tracks@, self.track_order@, k as int + 1);
                lemma_included_duration_step(self.tracks@, self.track_order@, k as int);
            }
            let i = self.track_order[k];
            if i < self.tracks.len() && self.tracks[i].included {
                total = total + self.tracks[i].file_info.duration_ms;
            }
            k = k + 1;
        }
        assert(self.track_order@.take(self.track_order.len() as int) =~= self.track_order@);
        total
    }
}

/// Sum of the durations of the included tracks.
pub open spec fn included_duration(tracks: Seq<TrackEntry>) -> nat
    decreases tracks.len(),
{
    if tracks.len() == 0 {
        0
    } else {
        included_duration(tracks.drop_last()) + if tracks.last().included { tracks.last().file_info.duration_ms as nat } else { 0nat }
    }
}

/// The durations of a prefix of the order add up to no more than the whole.
proof fn lemma_included_duration_prefix(tracks: Seq<TrackEntry>, order: Seq<usize>, k: int)
    requires
        0 <= k <= order.len(),
    ensures
        included_duration(tracks_in_order(tracks, order.take(k))) <= included_duration(tracks_in_order(tracks, order)),
    decreases order.len() - k,
{
    if k < order.len() {
        lemma_included_duration_prefix(tracks, order, k + 1);
        lemma_included_duration_step(tracks, order, k);
    } else {
        assert(order.take(k) =~= order);
    }
}

/// One more index of the order adds the duration of the track it selects,
/// if that track is included.
proof fn lemma_included_duration_step(tracks: Seq<TrackEntry>, order: Seq<usize>, k: int)
    requires
        0 <= k < order.len(),
    ensures
        included_duration(tracks_in_order(tracks, order.take(k + 1))) == included_duration(tracks_in_order(tracks, order.take(k)))
            + if (order[k] as int) < tracks.len() && tracks[order[k] as int].included {
                tracks[order[k] as int].file_info.duration_ms as nat
            } else {
                0nat
            },
{
    assert(order.take(k + 1).drop_last() =~= order.take(k));
    assert(order.take(k + 1).last() == order[k]);
    let a = tracks_in_order(tracks, order.take(k));
    if (order[k] as int) < tracks.len() {
        assert(a.push(tracks[order[k] as int]).drop_last() =~= a);
    }
}

/// File order selects every track once, in file order.
proof fn lemma_identity_order_selects_all(tracks: Seq<TrackEntry>)
    requires
        tracks.len() <= usize::MAX,
    ensures
        tracks_in_order(tracks, identity_order(tracks.len())) == tracks,
    decreases tracks.len(),
{
    if tracks.len() > 0 {
        let n = tracks.len();
        let prev = identity_order((n - 1) as nat);
        lemma_identity_order_selects_all(tracks.drop_last());
        assert forall|i: int| 0 <= i < prev.len() implies (#[trigger] prev[i] as int) < tracks.len() - 1 by {}
        lemma_tracks_in_order_prefix_independent(tracks, prev);
        assert(identity_order(n).drop_last() =~= prev);
        assert(identity_order(n).last() == (n - 1) as usize);
        assert(((n - 1) as usize) as int == n - 1);
        assert(tracks_in_order(tracks, identity_order(n)) == tracks_in_order(tracks, prev).push(tracks[n - 1]));
        assert(tracks.drop_last().push(tracks.last()) =~= tracks);
    } else {
        assert(tracks =~= Seq::<TrackEntry>::empty());
    }
}

/// An order that only uses indices below `tracks.len() - 1` selects the same
/// tracks from `tracks` as from `tracks` without its last element.
proof fn lemma_tracks_in_order_prefix_independent(tracks: Seq<TrackEntry>, order: Seq<usize>)
    requires
        tracks.len() > 0,
        forall|i: int| 0 <= i < order.len() ==> (#[trigger] order[i] as int) < tracks.len() - 1,
    ensures
        tracks_in_order(tracks, order) == tracks_in_order(tracks.drop_last(), order),
    decreases order.len(),
{
    if order.len() > 0 {
        lemma_tracks_in_order_prefix_independent(tracks, order.drop_last());
    }
}

/// What a drag of a track row carries.
pub struct DraggedTrack {
    pub index: usize,
    /// The name shown on the dragged row.
    pub name: String,
    /// Title of the window the drag started in; the preview is drawn there only.
    pub source_window_title: String,
}

impl DraggedTrack {
    /// The drag data of the track shown at `index` in the window `window_title`.
    pub fn new(index: usize, name: String, window_title: String) -> (d: Self)
        ensures
            d.index == index,
            d.name == name,
            d.source_window_title == window_title,
    {
        DraggedTrack { index, name, source_window_title: window_title }
    }

    /// Whether the drag preview is drawn in the window titled `window_title`.
    pub fn renders_in(&self, window_title: &str) -> (b: bool)
        ensures
            b == (window_title@ == self.source_window_title@),
    {
        crate::text::str_eq(self.source_window_title.as_str(), window_title)
    }
}

/// Clicking a track's checkbox twice leaves the tracks as they were.
pub proof fn toggling_twice_restores(tracks: Seq<TrackEntry>, i: int)
    requires
        0 <= i < tracks.len(),
    ensures
        toggled(toggled(tracks, i), i) == tracks,
{
    assert(toggled(toggled(tracks, i), i) =~= tracks);
}

/// Clicking a track's checkbox flips that track's inclusion and no other.
pub proof fn toggling_flips_one_track(tracks: Seq<TrackEntry>, i: int)
    requires
        0 <= i < tracks.len(),
    ensures
        inclusions(toggled(tracks, i)) == inclusions(tracks).update(i, !tracks[i].included),
        included_count(toggled(tracks, i)) + (if tracks[i].included { 1int } else { 0int })
            == included_count(tracks) + (if tracks[i].included { 0int } else { 1int }),
    decreases tracks.len(),
{
    assert(inclusions(toggled(tracks, i)) =~= inclusions(tracks).update(i, !tracks[i].included));
    if i < tracks.len() - 1 {
        toggling_flips_one_track(tracks.drop_last(), i);
        assert(toggled(tracks, i).drop_last() =~= toggled(tracks.drop_last(), i));
    } else {
        assert(toggled(tracks, i).drop_last() =~= tracks.drop_last());
    }
}

} // verus!
