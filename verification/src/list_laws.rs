//! What holds of the folder list across its operations: the totals that the
//! status bar shows follow the folders that are added, removed and moved.

use vstd::prelude::*;
use crate::folder::{FolderConversionStatus, FolderKind, MusicFolder};
use crate::folder_list::{
    after_override, duration_sum, editor_name, effective_bitrate, files_sum, has_path,
    insert_position, iso_generation_due, new_paths, size_sum, stale_at_bitrate, unavailable_count,
};
use crate::folder_list::FolderList;
use crate::profile::{cleared_for_new_profile, first_lossless_bitrate, window_title_spec};
use crate::reorder::{move_is_permutation, moved};

verus! {

/// Taking the folder at `i` out of the list takes its files, size and
/// duration out of the totals.
pub proof fn removal_subtracts_folder(fs: Seq<MusicFolder>, i: int)
    requires
        0 <= i < fs.len(),
    ensures
        files_sum(fs.remove(i)) + fs[i].file_count == files_sum(fs),
        size_sum(fs.remove(i)) + fs[i].total_size == size_sum(fs),
        duration_sum(fs.remove(i)) + fs[i].total_duration_ms == duration_sum(fs),
        unavailable_count(fs.remove(i)) + (if fs[i].source_available { 0int } else { 1int })
            == unavailable_count(fs),
    decreases fs.len(),
{
    if i == fs.len() - 1 {
        assert(fs.remove(i) =~= fs.drop_last());
    } else {
        removal_subtracts_folder(fs.drop_last(), i);
        assert(fs.remove(i).drop_last() =~= fs.drop_last().remove(i));
        assert(fs.remove(i).last() == fs.last());
    }
}

/// Putting a folder into the list at any position adds its files, size and
/// duration to the totals.
pub proof fn insertion_adds_folder(fs: Seq<MusicFolder>, i: int, f: MusicFolder)
    requires
        0 <= i <= fs.len(),
    ensures
        files_sum(fs.insert(i, f)) == files_sum(fs) + f.file_count,
        size_sum(fs.insert(i, f)) == size_sum(fs) + f.total_size,
        duration_sum(fs.insert(i, f)) == duration_sum(fs) + f.total_duration_ms,
        unavailable_count(fs.insert(i, f))
            == unavailable_count(fs) + (if f.source_available { 0int } else { 1int }),
{
    removal_subtracts_folder(fs.insert(i, f), i);
    assert(fs.insert(i, f).remove(i) =~= fs);
}

/// A folder added at the end of the list adds to the totals, and the list
/// then holds its path.
pub proof fn adding_grows_totals(fs: Seq<MusicFolder>, f: MusicFolder)
    ensures
        files_sum(fs.push(f)) == files_sum(fs) + f.file_count,
        size_sum(fs.push(f)) == size_sum(fs) + f.total_size,
        duration_sum(fs.push(f)) == duration_sum(fs) + f.total_duration_ms,
        has_path(fs.push(f), f.path@),
{
    assert(fs.push(f).drop_last() =~= fs);
    assert(fs.push(f)[fs.len() as int] == f);
}

/// Removing the folder that was just added gives the list back as it was.
pub proof fn removing_the_added_folder_restores(fs: Seq<MusicFolder>, f: MusicFolder)
    ensures
        fs.push(f).remove(fs.len() as int) == fs,
{
    assert(fs.push(f).remove(fs.len() as int) =~= fs);
}

/// Dragging a folder to another row keeps every folder (each once) and
/// leaves the file count, size, duration and number of unavailable
/// sources unchanged.
pub proof fn moving_keeps_folders_and_totals(fs: Seq<MusicFolder>, from: int, to: int)
    requires
        0 <= from < fs.len(),
        0 <= to <= fs.len(),
        from != to,
    ensures
        moved(fs, from, insert_position(from, to)).to_multiset() == fs.to_multiset(),
        files_sum(moved(fs, from, insert_position(from, to))) == files_sum(fs),
        size_sum(moved(fs, from, insert_position(from, to))) == size_sum(fs),
        duration_sum(moved(fs, from, insert_position(from, to))) == duration_sum(fs),
        unavailable_count(moved(fs, from, insert_position(from, to))) == unavailable_count(fs),
{
    let at = insert_position(from, to);
    move_is_permutation(fs, from, at);
    removal_subtracts_folder(fs, from);
    insertion_adds_folder(fs.remove(from), at, fs[from]);
}

/// A bitrate set by hand is the one that encoding uses, whatever the
/// estimate for the folders.
pub proof fn manual_bitrate_is_in_force(bitrate: u32, estimate: Option<u32>)
    ensures
        effective_bitrate(Some(bitrate), estimate) == bitrate,
{
}

/// Once a bitrate has been set by hand, no folder is left converted at
/// another lossless bitrate, and a folder that had to be converted again
/// keeps everything but its status.
pub proof fn override_leaves_nothing_stale(f: MusicFolder, bitrate: u32)
    ensures
        !stale_at_bitrate(after_override(f, bitrate).conversion_status, bitrate),
        after_override(f, bitrate).path == f.path,
        after_override(f, bitrate).audio_files == f.audio_files,
{
}

/// File > New starts afresh: no folders, nothing to save, no ISO, no
/// manual bitrate, and the window shows the application's bare title.
pub proof fn new_profile_starts_fresh(before: FolderList, after: FolderList, estimate: Option<u32>)
    requires
        cleared_for_new_profile(before, after),
    ensures
        after.folders@.len() == 0,
        files_sum(after.folders@) == 0,
        size_sum(after.folders@) == 0,
        !after.has_unsaved_changes,
        after.iso_state is None,
        effective_bitrate(after.manual_bitrate_override, estimate) == effective_bitrate(None, estimate),
        window_title_spec(after.volume_label@) == "MP3 CD Burner"@,
{
}

/// Without a bitrate set by hand, encoding uses the estimate for the
/// folders, or 320 kbps when there is none: "Use Automatic" brings back
/// exactly the calculated bitrate.
pub proof fn automatic_bitrate_follows_the_estimate(estimate: Option<u32>)
    ensures
        effective_bitrate(None, estimate) == (match estimate {
            Some(b) => b,
            None => 320u32,
        }),
{
}

/// No ISO is built on its own while an import runs, while the encoder has
/// work or a recalculation is pending, while a run is under way, when a
/// valid ISO exists, after it was tried once, or while some folder is not
/// converted. Otherwise, with folders all converted, it is built.
pub proof fn iso_waits_for_everything_else(l: FolderList, has_valid_iso: bool, encoder_has_pending_work: bool, import_in_progress: bool)
    ensures
        import_in_progress ==> !iso_generation_due(l, has_valid_iso, encoder_has_pending_work, import_in_progress),
        encoder_has_pending_work ==> !iso_generation_due(l, has_valid_iso, encoder_has_pending_work, import_in_progress),
        has_valid_iso ==> !iso_generation_due(l, has_valid_iso, encoder_has_pending_work, import_in_progress),
        l.bitrate_recalc_pending ==> !iso_generation_due(l, has_valid_iso, encoder_has_pending_work, import_in_progress),
        l.iso_generation_attempted ==> !iso_generation_due(l, has_valid_iso, encoder_has_pending_work, import_in_progress),
        l.conversion_state.converting ==> !iso_generation_due(l, has_valid_iso, encoder_has_pending_work, import_in_progress),
        l.folders@.len() == 0 ==> !iso_generation_due(l, has_valid_iso, encoder_has_pending_work, import_in_progress),
        (exists|i: int| 0 <= i < l.folders@.len() && !(#[trigger] l.folders@[i].conversion_status is Converted))
            ==> !iso_generation_due(l, has_valid_iso, encoder_has_pending_work, import_in_progress),
        (!import_in_progress && !encoder_has_pending_work && !has_valid_iso && !l.bitrate_recalc_pending
            && !l.iso_generation_attempted && !l.conversion_state.converting && l.folders@.len() > 0
            && (forall|i: int| 0 <= i < l.folders@.len() ==> (#[trigger] l.folders@[i].conversion_status is Converted)))
            ==> iso_generation_due(l, has_valid_iso, encoder_has_pending_work, import_in_progress),
{
}

/// The folders an import takes from a drop are exactly the dropped ones
/// not in the list yet: none of them is listed already, each was dropped,
/// and every dropped folder not listed is taken.
pub proof fn import_takes_exactly_the_new_folders(fs: Seq<MusicFolder>, dropped: Seq<String>)
    ensures
        forall|k: int| 0 <= k < new_paths(fs, dropped).len() ==> !has_path(fs, (#[trigger] new_paths(fs, dropped)[k])@),
        forall|k: int| 0 <= k < new_paths(fs, dropped).len() ==> dropped.contains(#[trigger] new_paths(fs, dropped)[k]),
        forall|j: int| 0 <= j < dropped.len() && !has_path(fs, (#[trigger] dropped[j])@) ==> new_paths(fs, dropped).contains(dropped[j]),
    decreases dropped.len(),
{
    if dropped.len() > 0 {
        let prev = dropped.drop_last();
        import_takes_exactly_the_new_folders(fs, prev);
        let r = new_paths(fs, dropped);
        let rp = new_paths(fs, prev);
        assert forall|k: int| 0 <= k < r.len() implies !has_path(fs, (#[trigger] r[k])@) && dropped.contains(r[k]) by {
            if k < rp.len() {
                assert(r[k] == rp[k]);
                assert(prev.contains(rp[k]));
                let m = choose|m: int| 0 <= m < prev.len() && prev[m] == rp[k];
                assert(dropped[m] == prev[m]);
            } else {
                assert(r[k] == dropped.last());
                assert(dropped[dropped.len() - 1] == dropped.last());
            }
        }
        assert forall|j: int| 0 <= j < dropped.len() && !has_path(fs, (#[trigger] dropped[j])@) implies r.contains(dropped[j]) by {
            if j < dropped.len() - 1 {
                assert(prev[j] == dropped[j]);
                assert(rp.contains(prev[j]));
                let m = choose|m: int| 0 <= m < rp.len() && rp[m] == prev[j];
                assert(r[m] == rp[m]);
            } else {
                assert(r[r.len() - 1] == dropped[j]);
            }
        }
    }
}

/// `f` is a converted folder that carries a lossless bitrate.
pub open spec fn has_lossless_bitrate(f: MusicFolder) -> bool {
    f.conversion_status matches FolderConversionStatus::Converted { lossless_bitrate: Some(_), .. }
}

/// The bitrate a fully converted profile brings back is the lossless
/// bitrate of the first converted folder that has one, however many
/// converted folders without one come before it; with none, there is none.
pub proof fn restored_bitrate_is_the_first_lossless_one(fs: Seq<MusicFolder>, i: int)
    requires
        0 <= i < fs.len(),
        has_lossless_bitrate(fs[i]),
        forall|j: int| 0 <= j < i ==> !has_lossless_bitrate(#[trigger] fs[j]),
    ensures
        fs[i].conversion_status matches FolderConversionStatus::Converted { lossless_bitrate: Some(b), .. }
            && first_lossless_bitrate(fs) == Some(b),
    decreases i,
{
    if i > 0 {
        let rest = fs.drop_first();
        assert(!has_lossless_bitrate(fs[0]));
        assert forall|j: int| 0 <= j < i - 1 implies !has_lossless_bitrate(#[trigger] rest[j]) by {
            assert(rest[j] == fs[j + 1]);
        }
        assert(rest[i - 1] == fs[i]);
        restored_bitrate_is_the_first_lossless_one(rest, i - 1);
    }
}

/// Without any converted folder that carries a lossless bitrate, a loaded
/// profile brings back no bitrate.
pub proof fn no_lossless_bitrate_restores_none(fs: Seq<MusicFolder>)
    requires
        forall|j: int| 0 <= j < fs.len() ==> !has_lossless_bitrate(#[trigger] fs[j]),
    ensures
        first_lossless_bitrate(fs) is None,
    decreases fs.len(),
{
    if fs.len() > 0 {
        let rest = fs.drop_first();
        assert(!has_lossless_bitrate(fs[0]));
        assert forall|j: int| 0 <= j < rest.len() implies !has_lossless_bitrate(#[trigger] rest[j]) by {
            assert(rest[j] == fs[j + 1]);
        }
        no_lossless_bitrate_restores_none(rest);
    }
}

/// The track editor of an album is titled with the album's name from its
/// tags; the folder's own name serves only when there is none, and
/// "Unknown" when there is neither. A mixtape's editor shows its name.
pub proof fn editor_prefers_the_album_name(f: MusicFolder, raw: Option<Seq<char>>)
    ensures
        (f.kind is Album && f.album_name is Some) ==> editor_name(f, raw) == f.album_name.unwrap()@,
        (f.kind is Album && f.album_name is None && raw is Some) ==> editor_name(f, raw) == raw.unwrap(),
        (f.kind is Album && f.album_name is None && raw is None) ==> editor_name(f, raw) == "Unknown"@,
        f.kind matches FolderKind::Mixtape { name } ==> editor_name(f, raw) == name@,
{
}

} // verus!
