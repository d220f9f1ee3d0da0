//! What the status bar under the folder list shows: the bitrate line, the
//! progress box of a run, and which action button is offered.

use vstd::prelude::*;
use crate::burn::BurnStage;
use crate::text::{decimal, decimal_string, push_decimal};

verus! {

/// The bitrate estimate for the folders, as the estimator reports it.
pub struct BitrateEstimate {
    /// Target MP3 bitrate in kbps.
    pub target_bitrate: u32,
    /// The estimate is meaningful enough to be shown.
    pub show_bitrate: bool,
}

/// Everything the status bar is drawn from.
pub struct StatusBarState {
    pub total_files: u32,
    pub total_size: u64,
    pub bitrate_estimate: Option<BitrateEstimate>,
    pub has_folders: bool,
    pub is_importing: bool,
    /// `(completed, total)` folders of an import.
    pub import_progress: (usize, usize),
    pub is_converting: bool,
    /// `(completed, failed, total)` items of a run.
    pub conversion_progress: (usize, usize, usize),
    pub burn_stage: BurnStage,
    /// Burn progress in percent, negative while unknown.
    pub burn_progress: i32,
    pub is_cancelled: bool,
    /// A valid ISO for the current folders exists.
    pub can_burn_another: bool,
    pub iso_exceeds_limit: bool,
    /// Size of the ISO in bytes, when there is one.
    pub iso_size_bytes: Option<u64>,
    pub iso_has_been_burned: bool,
    /// A bitrate set by hand is in force.
    pub is_manual_override: bool,
    /// The bitrate encoding uses (the manual one when set).
    pub effective_bitrate: u32,
    /// The calculated bitrate may still change once the lossy files are measured.
    pub is_bitrate_preliminary: bool,
}

/// The bitrate line: a bitrate set by hand as `"N kbps*"`; otherwise
/// `"N kbps"` when an estimate is to be shown, `"--"` when not.
pub open spec fn bitrate_display_spec(s: StatusBarState) -> Seq<char> {
    if s.is_manual_override {
        decimal(s.effective_bitrate as nat) + " kbps*"@
    } else {
        match s.bitrate_estimate {
            Some(est) => if est.show_bitrate { decimal(est.target_bitrate as nat) + " kbps"@ } else { "--"@ },
            None => "--"@,
        }
    }
}

/// The share of the progress box that is filled, as a fraction `(num, den)`.
pub open spec fn progress_fraction(s: StatusBarState) -> (nat, nat) {
    let (completed, failed, total) = s.conversion_progress;
    match s.burn_stage {
        BurnStage::Converting => if total > 0 { ((completed + failed) as nat, total as nat) } else { (0, 1) },
        BurnStage::Erasing | BurnStage::Burning =>
            if s.burn_progress >= 0 { (s.burn_progress as nat, 100) } else { (0, 1) },
        BurnStage::Cancelled => (0, 1),
        _ => (1, 1),
    }
}

/// The large text inside the progress box.
pub open spec fn progress_text(s: StatusBarState) -> Seq<char> {
    let (completed, failed, total) = s.conversion_progress;
    match s.burn_stage {
        BurnStage::Converting => decimal((completed + failed) as nat) + "/"@ + decimal(total as nat),
        BurnStage::Erasing | BurnStage::Burning =>
            if s.burn_progress >= 0 { decimal(s.burn_progress as nat) + "%"@ } else { Seq::<char>::empty() },
        BurnStage::Complete => "✓"@,
        _ => Seq::<char>::empty(),
    }
}

/// The stage line inside the progress box.
pub open spec fn progress_stage_text(stage: BurnStage) -> Seq<char> {
    match stage {
        BurnStage::Converting => "Converting..."@,
        BurnStage::CreatingIso => "Creating ISO..."@,
        BurnStage::WaitingForCd => "Insert blank CD"@,
        BurnStage::ErasableDiscDetected => "CD-RW detected"@,
        BurnStage::Erasing => "Erasing..."@,
        BurnStage::Burning => "Burning..."@,
        BurnStage::Finishing => "Finishing..."@,
        BurnStage::Complete => "Complete!"@,
        BurnStage::Cancelled => "Cancelled"@,
    }
}

/// The values the progress box is drawn from.
pub struct ProgressDisplay {
    /// Filled share of the box is `fraction_num / fraction_den`.
    pub fraction_num: u64,
    pub fraction_den: u64,
    pub text: String,
    pub stage_text: &'static str,
}

/// The colour of the progress box.
#[derive(Clone, Copy, Debug, PartialEq, Eq, Structural)]
pub enum StageColor {
    Danger,
    Success,
}

/// The panel on the right of the status bar.
#[derive(Clone, Copy, Debug, PartialEq, Eq, Structural)]
pub enum ActionPanel {
    /// Progress of a folder import.
    ImportProgress,
    /// Progress of a run, with cancel.
    ConversionProgress,
    /// The ISO does not fit on a CD.
    IsoTooLarge,
    /// Burn the existing ISO ("Burn" or "Burn Another").
    BurnButton,
    /// Convert the folders and burn.
    ConvertBurnButton,
}

/// Which panel the status bar offers.
pub open spec fn action_panel_spec(s: StatusBarState) -> ActionPanel {
    if s.is_importing {
        ActionPanel::ImportProgress
    } else if s.is_converting {
        ActionPanel::ConversionProgress
    } else if s.can_burn_another && s.iso_exceeds_limit {
        ActionPanel::IsoTooLarge
    } else if s.can_burn_another {
        ActionPanel::BurnButton
    } else {
        ActionPanel::ConvertBurnButton
    }
}

impl StatusBarState {
    /// The bitrate line of the stats panel.
    pub fn bitrate_display(&self) -> (s: String)
        ensures
            s@ == bitrate_display_spec(*self),
    {
        if self.is_manual_override {
            let mut s = decimal_string(self.effective_bitrate as u64);
            s.append(" kbps*");
            return s;
        }
        match &self.bitrate_estimate {
            Some(e) => if e.show_bitrate {
                let mut s = decimal_string(e.target_bitrate as u64);
                s.append(" kbps");
                s
            } else {
                String::from_str("--")
            },
            None => String::from_str("--"),
        }
    }

    /// The "completed/total" line of an import.
    pub fn import_progress_text(&self) -> (s: String)
        ensures
            s@ == decimal(self.import_progress.0 as nat) + "/"@ + decimal(self.import_progress.1 as nat),
    {
        let mut s = decimal_string(self.import_progress.0 as u64);
        s.append("/");
        push_decimal(&mut s, self.import_progress.1 as u64);
        s
    }

    /// The filled share of the import box, as `(num, den)`.
    pub fn import_fraction(&self) -> (f: (u64, u64))
        ensures
            self.import_progress.1 > 0 ==> f == (self.import_progress.0 as u64, self.import_progress.1 as u64),
            self.import_progress.1 == 0 ==> f == (0u64, 1u64),
    {
        if self.import_progress.1 > 0 {
            (self.import_progress.0 as u64, self.import_progress.1 as u64)
        } else {
            (0, 1)
        }
    }

    /// The "CD-RW" marker is shown while a run waits on a rewritable disc.
    pub fn shows_cd_rw(&self) -> (b: bool)
        ensures
            b == (self.is_converting && self.burn_stage == BurnStage::ErasableDiscDetected),
    {
        self.is_converting && self.burn_stage == BurnStage::ErasableDiscDetected
    }

    /// Which panel to offer on the right.
    pub fn action_panel(&self) -> (p: ActionPanel)
        ensures
            p == action_panel_spec(*self),
    {
        if self.is_importing {
            ActionPanel::ImportProgress
        } else if self.is_converting {
            ActionPanel::ConversionProgress
        } else if self.can_burn_another && self.iso_exceeds_limit {
            ActionPanel::IsoTooLarge
        } else if self.can_burn_another {
            ActionPanel::BurnButton
        } else {
            ActionPanel::ConvertBurnButton
        }
    }

    /// The stage line of the progress box, which says "Cancelling..." while
    /// a requested cancellation has not yet taken effect.
    pub fn progress_label(&self) -> (s: &'static str)
        ensures
            self.is_cancelled && self.burn_stage != BurnStage::Cancelled ==> s@ == "Cancelling..."@,
            !(self.is_cancelled && self.burn_stage != BurnStage::Cancelled) ==> s@ == progress_stage_text(self.burn_stage),
    {
        if self.is_cancelled && self.burn_stage != BurnStage::Cancelled {
            "Cancelling..."
        } else {
            ProgressDisplay::stage_label(self.burn_stage)
        }
    }

    /// The progress box is shown unless the run waits for approval to erase
    /// a rewritable disc (then the "Erase & Burn" button is shown instead).
    pub fn shows_progress_box(&self) -> (b: bool)
        ensures
            b == (self.burn_stage != BurnStage::ErasableDiscDetected),
    {
        self.burn_stage != BurnStage::ErasableDiscDetected
    }
}

impl ProgressDisplay {
    /// The stage line for `stage`.
    pub fn stage_label(stage: BurnStage) -> (s: &'static str)
        ensures
            s@ == progress_stage_text(stage),
    {
        match stage {
            BurnStage::Converting => "Converting...",
            BurnStage::CreatingIso => "Creating ISO...",
            BurnStage::WaitingForCd => "Insert blank CD",
            BurnStage::ErasableDiscDetected => "CD-RW detected",
            BurnStage::Erasing => "Erasing...",
            BurnStage::Burning => "Burning...",
            BurnStage::Finishing => "Finishing...",
            BurnStage::Complete => "Complete!",
            BurnStage::Cancelled => "Cancelled",
        }
    }

    /// The progress box for the state's stage.
    pub fn from_state(state: &StatusBarState) -> (d: Self)
        requires
            state.burn_stage == BurnStage::Converting
                ==> state.conversion_progress.0 + state.conversion_progress.1 <= usize::MAX,
        ensures
            (d.fraction_num as nat, d.fraction_den as nat) == progress_fraction(*state),
            d.fraction_den > 0,
            d.text@ == progress_text(*state),
            d.stage_text@ == progress_stage_text(state.burn_stage),
            (state.burn_stage == BurnStage::Erasing || state.burn_stage == BurnStage::Burning) && state.burn_progress >= 0
                ==> d.fraction_num == state.burn_progress && d.fraction_den == 100
                    && d.text@ == decimal(state.burn_progress as nat) + "%"@,
    {
        let (completed, failed, total) = state.conversion_progress;
        let stage_text = Self::stage_label(state.burn_stage);
        match state.burn_stage {
            BurnStage::Converting => {
                let done = completed + failed;
                let (num, den) = if total > 0 { (done as u64, total as u64) } else { (0u64, 1u64) };
                let mut text = decimal_string(done as u64);
                text.append("/");
                push_decimal(&mut text, total as u64);
                ProgressDisplay { fraction_num: num, fraction_den: den, text, stage_text }
            },
            BurnStage::Erasing | BurnStage::Burning => {
                let p = state.burn_progress;
                if p >= 0 {
                    let mut text = decimal_string(p as u64);
                    text.append("%");
                    ProgressDisplay { fraction_num: p as u64, fraction_den: 100, text, stage_text }
                } else {
                    ProgressDisplay { fraction_num: 0, fraction_den: 1, text: String::new(), stage_text }
                }
            },
            BurnStage::Complete => ProgressDisplay {
                fraction_num: 1,
                fraction_den: 1,
                text: String::from_str("✓"),
                stage_text,
            },
            BurnStage::Cancelled => ProgressDisplay {
                fraction_num: 0,
                fraction_den: 1,
                text: String::new(),
                stage_text,
            },
            _ => ProgressDisplay { fraction_num: 1, fraction_den: 1, text: String::new(), stage_text },
        }
    }
}

/// The colour of the progress box: red for a cancelled or cancelling run,
/// green otherwise.
pub fn get_stage_color(state: &StatusBarState) -> (c: StageColor)
    ensures
        c == (match state.burn_stage {
            BurnStage::Cancelled => StageColor::Danger,
            BurnStage::Complete => StageColor::Success,
            _ => if state.is_cancelled { StageColor::Danger } else { StageColor::Success },
        }),
{
    match state.burn_stage {
        BurnStage::Cancelled => StageColor::Danger,
        BurnStage::Complete => StageColor::Success,
        _ => if state.is_cancelled { StageColor::Danger } else { StageColor::Success },
    }
}

/// A click on the progress box cancels the run unless it is over or a
/// cancellation is already under way.
pub fn is_stage_cancelable(state: &StatusBarState) -> (b: bool)
    ensures
        b == (state.burn_stage != BurnStage::Complete && state.burn_stage != BurnStage::Cancelled
            && !state.is_cancelled),
{
    state.burn_stage != BurnStage::Complete && state.burn_stage != BurnStage::Cancelled
        && !state.is_cancelled
}

/// Text of the burn button: "Burn" for a fresh ISO, "Burn\nAnother" once it was burned.
pub fn burn_button_text(iso_has_been_burned: bool) -> (s: &'static str)
    ensures
        s@ == (if iso_has_been_burned { "Burn\nAnother"@ } else { "Burn"@ }),
{
    if iso_has_been_burned { "Burn\nAnother" } else { "Burn" }
}

/// Element id of the burn button.
pub fn burn_button_id(iso_has_been_burned: bool) -> (s: &'static str)
    ensures
        s@ == (if iso_has_been_burned { "burn-another-btn"@ } else { "burn-btn"@ }),
{
    if iso_has_been_burned { "burn-another-btn" } else { "burn-btn" }
}

/// While a rewritable disc is erased the progress box fills and reads
/// exactly as while burning: `p` percent of the box and "p%" for a known
/// progress `p`, an empty box and no text while it is unknown.
pub proof fn erasing_progress_shows_like_burning(s: StatusBarState)
    requires
        s.burn_stage == BurnStage::Erasing || s.burn_stage == BurnStage::Burning,
    ensures
        s.burn_progress >= 0 ==> progress_fraction(s) == (s.burn_progress as nat, 100nat),
        s.burn_progress >= 0 ==> progress_text(s) == decimal(s.burn_progress as nat) + "%"@,
        s.burn_progress < 0 ==> progress_fraction(s) == (0nat, 1nat),
        s.burn_progress < 0 ==> progress_text(s) == Seq::<char>::empty(),
        progress_fraction(s) == progress_fraction(StatusBarState { burn_stage: BurnStage::Burning, ..s }),
        progress_text(s) == progress_text(StatusBarState { burn_stage: BurnStage::Burning, ..s }),
{
}

} // verus!
