//! Burn stages, the shared conversion progress record and the minimal burn window.

use vstd::prelude::*;
use crate::text::{decimal, push_decimal};

verus! {

/// The stages a conversion-and-burn run goes through.
#[derive(Clone, Copy, Debug, PartialEq, Eq, Structural)]
pub enum BurnStage {
    Converting,
    CreatingIso,
    WaitingForCd,
    Erasing,
    Burning,
    Finishing,
    ErasableDiscDetected,
    Complete,
    Cancelled,
}

/// Text shown by the burn progress window for each stage.
pub open spec fn burn_window_stage_text(stage: BurnStage) -> Seq<char> {
    match stage {
        BurnStage::Converting => "Converting files..."@,
        BurnStage::CreatingIso => "Creating ISO..."@,
        BurnStage::WaitingForCd => "Insert blank CD..."@,
        BurnStage::Erasing => "Erasing disc..."@,
        BurnStage::Burning => "Burning CD..."@,
        BurnStage::Finishing => "Finishing..."@,
        BurnStage::ErasableDiscDetected => "Erasable disc detected..."@,
        BurnStage::Complete => "Complete!"@,
        BurnStage::Cancelled => "Cancelled"@,
    }
}


/// Progress of a conversion-and-burn run, as the burn worker reports it and
/// the windows read it.
#[derive(Clone)]
pub struct ConversionState {
    /// A run is in progress.
    pub converting: bool,
    /// Cancellation was requested for the current run.
    pub cancelled: bool,
    /// Items finished successfully in the current run.
    pub completed: usize,
    /// Items that failed in the current run.
    pub failed: usize,
    /// Items in the current run.
    pub total: usize,
    /// Current stage.
    pub stage: BurnStage,
    /// Burn progress in percent, or a negative value while it is unknown.
    pub burn_progress: i32,
    /// The user approved erasing a rewritable disc.
    pub erase_approved: bool,
    /// The ISO image produced by the run, once there is one.
    pub iso_path: Option<String>,
}

impl ConversionState {
    /// An idle state: no run, nothing counted.
    pub fn new() -> (s: Self)
        ensures
            !s.converting,
            !s.cancelled,
            s.completed == 0 && s.failed == 0 && s.total == 0,
            s.stage == BurnStage::Converting,
            s.burn_progress == -1,
            !s.erase_approved,
            s.iso_path is None,
    {
        ConversionState {
            converting: false,
            cancelled: false,
            completed: 0,
            failed: 0,
            total: 0,
            stage: BurnStage::Converting,
            burn_progress: -1,
            erase_approved: false,
            iso_path: None,
        }
    }

    /// Starts a new run of `total` items: converting, nothing counted yet,
    /// and any earlier cancellation forgotten.
    pub fn reset(&mut self, total: usize)
        ensures
            final(self).converting,
            !final(self).cancelled,
            final(self).completed == 0 && final(self).failed == 0,
            final(self).total == total,
            final(self).stage == old(self).stage,
            final(self).burn_progress == old(self).burn_progress,
            final(self).erase_approved == old(self).erase_approved,
            final(self).iso_path == old(self).iso_path,
    {
        self.converting = true;
        self.cancelled = false;
        self.completed = 0;
        self.failed = 0;
        self.total = total;
    }

    /// Ends the current run.
    pub fn finish(&mut self)
        ensures
            *final(self) == (ConversionState { converting: false, ..*old(self) }),
    {
        self.converting = false;
    }

    /// Asks the current run to stop; items already in flight still finish.
    pub fn request_cancel(&mut self)
        ensures
            *final(self) == (ConversionState { cancelled: true, ..*old(self) }),
    {
        self.cancelled = true;
    }

    /// Counts `n` more finished items (wrapping like an atomic counter).
    pub fn add_completed(&mut self, n: usize)
        ensures
            *final(self) == (ConversionState { completed: old(self).completed.wrapping_add(n), ..*old(self) }),
    {
        self.completed = self.completed.wrapping_add(n);
    }

    /// Counts `n` more failed items (wrapping like an atomic counter).
    pub fn add_failed(&mut self, n: usize)
        ensures
            *final(self) == (ConversionState { failed: old(self).failed.wrapping_add(n), ..*old(self) }),
    {
        self.failed = self.failed.wrapping_add(n);
    }

    /// Moves the run to `stage`.
    pub fn set_stage(&mut self, stage: BurnStage)
        ensures
            *final(self) == (ConversionState { stage: stage, ..*old(self) }),
    {
        self.stage = stage;
    }

    /// Records the burn progress in percent (negative: unknown).
    pub fn set_burn_progress(&mut self, progress: i32)
        ensures
            *final(self) == (ConversionState { burn_progress: progress, ..*old(self) }),
    {
        self.burn_progress = progress;
    }

    /// Records that erasing a rewritable disc was approved.
    pub fn approve_erase(&mut self)
        ensures
            *final(self) == (ConversionState { erase_approved: true, ..*old(self) }),
    {
        self.erase_approved = true;
    }

    /// Whether a run is in progress.
    pub fn is_converting(&self) -> (b: bool)
        ensures
            b == self.converting,
    {
        self.converting
    }

    /// Whether cancellation was requested.
    pub fn is_cancelled(&self) -> (b: bool)
        ensures
            b == self.cancelled,
    {
        self.cancelled
    }

    /// `(completed, failed, total)` of the current run.
    pub fn progress(&self) -> (p: (usize, usize, usize))
        ensures
            p == (self.completed, self.failed, self.total),
    {
        (self.completed, self.failed, self.total)
    }

    /// The current stage.
    pub fn get_stage(&self) -> (st: BurnStage)
        ensures
            st == self.stage,
    {
        self.stage
    }

    /// The burn progress in percent (negative: unknown).
    pub fn get_burn_progress(&self) -> (p: i32)
        ensures
            p == self.burn_progress,
    {
        self.burn_progress
    }
}

/// The percentage line: `"N%"` for a known progress, `"..."` otherwise.
pub open spec fn percent_text(progress: i32) -> Seq<char> {
    if progress >= 0 {
        decimal(progress as nat) + "%"@
    } else {
        "..."@
    }
}

/// Minimal window shown while a burn continues after the main window closed.
pub struct BurnProgressWindow {
    pub conversion_state: ConversionState,
}

impl BurnProgressWindow {
    /// The line of text that names the current stage.
    pub fn stage_text(&self) -> (text: &'static str)
        ensures
            text@ == burn_window_stage_text(self.conversion_state.stage),
    {
        match self.conversion_state.get_stage() {
            BurnStage::Converting => "Converting files...",
            BurnStage::CreatingIso => "Creating ISO...",
            BurnStage::WaitingForCd => "Insert blank CD...",
            BurnStage::Erasing => "Erasing disc...",
            BurnStage::Burning => "Burning CD...",
            BurnStage::Finishing => "Finishing...",
            BurnStage::ErasableDiscDetected => "Erasable disc detected...",
            BurnStage::Complete => "Complete!",
            BurnStage::Cancelled => "Cancelled",
        }
    }

    /// The large progress line under the stage.
    pub fn progress_text(&self) -> (text: String)
        ensures
            text@ == percent_text(self.conversion_state.burn_progress),
    {
        let progress = self.conversion_state.get_burn_progress();
        if progress >= 0 {
            let mut s = String::new();
            push_decimal(&mut s, progress as u64);
            s.append("%");
            s
        } else {
            String::from_str("...")
        }
    }

    /// The burn window keeps polling while the run is in progress; once it
    /// ends, the application quits.
    pub fn should_quit(&self) -> (b: bool)
        ensures
            b == !self.conversion_state.converting,
    {
        !self.conversion_state.is_converting()
    }
}

} // verus!
