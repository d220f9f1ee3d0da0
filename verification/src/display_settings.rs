//! Which details the folder list shows for each folder, and the modal that
//! toggles them.

use vstd::prelude::*;

verus! {

/// The details shown for each folder.
#[derive(Clone, Copy, Debug, PartialEq, Eq, Structural)]
pub struct DisplaySettings {
    pub show_file_count: bool,
    pub show_original_size: bool,
    pub show_converted_size: bool,
    pub show_source_format: bool,
    pub show_source_bitrate: bool,
    pub show_final_bitrate: bool,
}

/// One of the six switches of the display settings.
#[derive(Clone, Copy, Debug, PartialEq, Eq, Structural)]
pub enum DisplaySetting {
    FileCount,
    OriginalSize,
    ConvertedSize,
    SourceFormat,
    SourceBitrate,
    FinalBitrate,
}

/// `s` with the switch `which` flipped.
pub open spec fn toggled(s: DisplaySettings, which: DisplaySetting) -> DisplaySettings {
    match which {
        DisplaySetting::FileCount => DisplaySettings { show_file_count: !s.show_file_count, ..s },
        DisplaySetting::OriginalSize => DisplaySettings { show_original_size: !s.show_original_size, ..s },
        DisplaySetting::ConvertedSize => DisplaySettings { show_converted_size: !s.show_converted_size, ..s },
        DisplaySetting::SourceFormat => DisplaySettings { show_source_format: !s.show_source_format, ..s },
        DisplaySetting::SourceBitrate => DisplaySettings { show_source_bitrate: !s.show_source_bitrate, ..s },
        DisplaySetting::FinalBitrate => DisplaySettings { show_final_bitrate: !s.show_final_bitrate, ..s },
    }
}

/// State of the display settings modal: a working copy of the settings.
pub struct DisplaySettingsModal {
    pub settings: DisplaySettings,
}

impl DisplaySettingsModal {
    /// A modal showing the current settings.
    pub fn new(current: DisplaySettings) -> (m: Self)
        ensures
            m.settings == current,
    {
        DisplaySettingsModal { settings: current }
    }

    /// Flips one switch; the returned settings are what is stored and saved.
    pub fn toggle(&mut self, which: DisplaySetting) -> (saved: DisplaySettings)
        ensures
            final(self).settings == toggled(old(self).settings, which),
            saved == final(self).settings,
    {
        match which {
            DisplaySetting::FileCount => self.settings.show_file_count = !self.settings.show_file_count,
            DisplaySetting::OriginalSize => self.settings.show_original_size = !self.settings.show_original_size,
            DisplaySetting::ConvertedSize => self.settings.show_converted_size = !self.settings.show_converted_size,
            DisplaySetting::SourceFormat => self.settings.show_source_format = !self.settings.show_source_format,
            DisplaySetting::SourceBitrate => self.settings.show_source_bitrate = !self.settings.show_source_bitrate,
            DisplaySetting::FinalBitrate => self.settings.show_final_bitrate = !self.settings.show_final_bitrate,
        }
        self.settings
    }
}

/// Flipping the same switch twice restores the settings.
pub proof fn toggle_twice_restores(s: DisplaySettings, which: DisplaySetting)
    ensures
        toggled(toggled(s, which), which) == s,
{
}

/// Flipping a switch changes that switch and no other.
pub proof fn toggle_changes_one_switch(s: DisplaySettings, which: DisplaySetting, other: DisplaySetting)
    requires
        which != other,
    ensures
        toggled(s, which) != s,
        toggled(toggled(s, which), other) == toggled(toggled(s, other), which),
{
}

} // verus!
