use mp3cd::bitrate_override::{BitrateChoice, BitrateKeyOutcome, BitrateOverrideDialog};
use mp3cd::display_settings::{DisplaySetting, DisplaySettings, DisplaySettingsModal};
use mp3cd::input::KeyPress;
use mp3cd::theme::{Appearance, Theme};
use mp3cd::volume_label::{is_valid_char, KeyOutcome, VolumeLabelDialog};

fn key(name: &str) -> KeyPress {
    KeyPress { key: name.to_string(), key_char: None }
}

fn typed(text: &str) -> KeyPress {
    KeyPress { key: text.to_string(), key_char: Some(text.to_string()) }
}

#[test]
fn volume_label_starts_with_the_default() {
    let d = VolumeLabelDialog::new(None);
    assert_eq!(d.text, "Untitled MP3CD");
    assert!(d.is_default);
    assert_eq!(d.chars_remaining(), 2);
    let d = VolumeLabelDialog::new(Some("SUMMER".to_string()));
    assert!(!d.is_default);
    assert_eq!(d.chars_remaining(), 10);
}

#[test]
fn volume_label_first_character_replaces_the_default() {
    let mut d = VolumeLabelDialog::new(None);
    assert!(matches!(d.handle_key(&typed("M")), KeyOutcome::Handled));
    assert_eq!(d.text, "M");
    assert!(!d.is_default);
}

#[test]
fn volume_label_skips_forbidden_characters_and_stops_at_sixteen() {
    let mut d = VolumeLabelDialog::new(Some(String::new()));
    d.handle_key(&typed("a/b:c*d?e;f\\g"));
    assert_eq!(d.text, "abcdefg");
    d.handle_key(&typed("0123456789abcdef"));
    assert_eq!(d.text, "abcdefg012345678");
    assert_eq!(d.chars_remaining(), 0);
    assert!(!is_valid_char('/'));
    assert!(!is_valid_char('\u{7}'));
    assert!(is_valid_char('Z'));
}

#[test]
fn volume_label_backspace_escape_enter() {
    let mut d = VolumeLabelDialog::new(None);
    assert!(matches!(d.handle_key(&key("backspace")), KeyOutcome::Handled));
    assert_eq!(d.text, "");
    d.handle_key(&typed("AB"));
    d.handle_key(&key("backspace"));
    assert_eq!(d.text, "A");
    assert!(matches!(d.handle_key(&key("escape")), KeyOutcome::Cancelled));
    match d.handle_key(&key("enter")) {
        KeyOutcome::Confirmed(l) => assert_eq!(l, "A"),
        _ => panic!("enter should confirm"),
    }
    assert!(matches!(d.handle_key(&key("shift")), KeyOutcome::Ignored));
}

#[test]
fn bitrate_dialog_field_and_confirm() {
    let mut d = BitrateOverrideDialog::new(256, 224, None, false);
    assert_eq!(d.text, "256");
    assert_eq!(d.confirm(), Some(256));
    assert_eq!(d.calculated_label(), "Calculated: 224 kbps");
    d.handle_key(&key("backspace"));
    d.handle_key(&key("backspace"));
    assert_eq!(d.text, "2");
    assert!(d.shows_error());
    assert_eq!(d.confirm(), None);
    d.handle_key(&typed("x9"));
    assert_eq!(d.text, "29");
    d.handle_key(&typed("99"));
    assert_eq!(d.text, "299");
    assert!(matches!(d.handle_key(&key("enter")), BitrateKeyOutcome::Confirmed(299)));
    assert!(matches!(d.handle_key(&key("escape")), BitrateKeyOutcome::Cancelled));
    assert!(matches!(d.handle_key(&key("shift")), BitrateKeyOutcome::Ignored));
    assert_eq!(d.text, "299");
}

#[test]
fn bitrate_dialog_rejects_out_of_range() {
    let d = BitrateOverrideDialog::new(500, 224, None, true);
    assert_eq!(d.parse_bitrate(), Some(500));
    assert!(!d.is_valid());
    assert_eq!(d.confirm(), None);
    let mut low = BitrateOverrideDialog::new(63, 224, None, false);
    assert_eq!(low.confirm(), None);
    assert!(matches!(low.handle_key(&key("enter")), BitrateKeyOutcome::Handled));
    let empty = BitrateOverrideDialog { text: String::new(), calculated_bitrate: 1, warning_message: None, has_custom_bitrate: false };
    assert!(!empty.shows_error());
    assert_eq!(empty.parse_bitrate(), None);
}

#[test]
fn bitrate_dialog_height() {
    assert_eq!(BitrateOverrideDialog::window_height(&None, false), 200);
    assert_eq!(BitrateOverrideDialog::window_height(&None, true), 260);
    assert_eq!(BitrateOverrideDialog::window_height(&Some("warn".to_string()), false), 260);
}

#[test]
fn display_setting_toggled_twice_is_unchanged() {
    let start = DisplaySettings {
        show_file_count: true,
        show_original_size: false,
        show_converted_size: true,
        show_source_format: false,
        show_source_bitrate: false,
        show_final_bitrate: true,
    };
    let mut m = DisplaySettingsModal::new(start);
    let saved = m.toggle(DisplaySetting::OriginalSize);
    assert!(saved.show_original_size);
    assert!(saved.show_file_count && saved.show_converted_size && saved.show_final_bitrate);
    assert!(!saved.show_source_format && !saved.show_source_bitrate);
    let back = m.toggle(DisplaySetting::OriginalSize);
    assert!(back == start);
}

#[test]
fn theme_follows_appearance() {
    let dark = Theme::from_appearance(Appearance::VibrantDark);
    assert_eq!(dark.bg, 0x1e1e1e);
    assert_eq!(dark.progress_line, 0x6b3a3a);
    let light = Theme::from_appearance(Appearance::Light);
    assert_eq!(light.bg, 0xf5f5f5);
    assert_eq!(light.text, 0x1e293b);
    assert_eq!(Theme::dark().accent, Theme::light().accent);
}

#[test]
fn an_initial_label_is_cut_down_to_a_valid_one() {
    let d = VolumeLabelDialog::new(Some("ABCDEFGHIJKLMNOPQRS".to_string()));
    assert_eq!(d.text, "ABCDEFGHIJKLMNOP");
    let mut d = VolumeLabelDialog::new(Some("a*b/c:d".to_string()));
    assert_eq!(d.text, "abcd");
    assert!(!d.is_default);
    match d.handle_key(&key("enter")) {
        KeyOutcome::Confirmed(l) => assert_eq!(l, "abcd"),
        _ => panic!("enter should confirm"),
    }
    let d = VolumeLabelDialog::new(Some("Untitled MP3CD".to_string()));
    assert!(d.is_default);
    let d = VolumeLabelDialog::new(Some("ROAD TRIP 2024".to_string()));
    assert_eq!(d.text, "ROAD TRIP 2024");
}

#[test]
fn bitrate_dialog_choices() {
    let d = BitrateOverrideDialog::new(224, 200, None, true);
    assert_eq!(d.apply_choice(), Some(BitrateChoice::Manual(224)));
    assert!(d.shows_use_automatic());
    assert_eq!(d.use_automatic(), BitrateChoice::Automatic);
    let d = BitrateOverrideDialog::new(999, 200, None, false);
    assert_eq!(d.apply_choice(), None);
    assert!(!d.shows_use_automatic());
}
