//! The bitrate override dialog: a numeric field for a manual MP3 bitrate in
//! the range the LAME encoder accepts (64 to 320 kbps).

use vstd::prelude::*;
use crate::input::KeyPress;
use crate::text::{
    all_digits, char_is_digit, decimal, decimal_string, is_digit, parse_u32, parse_u32_spec,
    push_decimal, string_pop, string_push, decimal_parse_round_trip,
};

verus! {

/// Lowest bitrate the encoder accepts, in kbps.
pub const MIN_BITRATE: u32 = 64;
/// Highest bitrate the encoder accepts, in kbps.
pub const MAX_BITRATE: u32 = 320;
/// Most digits the field takes (enough for 320).
pub const MAX_DIGITS: usize = 3;

/// A bitrate the encoder accepts.
pub open spec fn bitrate_in_range(b: u32) -> bool {
    MIN_BITRATE <= b && b <= MAX_BITRATE
}

/// The bitrate the field holds, if its text is a number in range.
pub open spec fn valid_bitrate(text: Seq<char>) -> Option<u32> {
    match parse_u32_spec(text) {
        Some(b) => if bitrate_in_range(b) { Some(b) } else { None },
        None => None,
    }
}

/// The field after one typed character: only digits are taken, and only
/// while the field is shorter than three characters.
pub open spec fn bitrate_after_char(text: Seq<char>, c: char) -> Seq<char> {
    if !is_digit(c) || text.len() >= MAX_DIGITS {
        text
    } else {
        text.push(c)
    }
}

/// The field after the characters `chars` are typed one after the other.
pub open spec fn bitrate_after_chars(text: Seq<char>, chars: Seq<char>) -> Seq<char>
    decreases chars.len(),
{
    if chars.len() == 0 {
        text
    } else {
        bitrate_after_char(bitrate_after_chars(text, chars.drop_last()), chars.last())
    }
}

/// What a key press did to the bitrate dialog.
pub enum BitrateKeyOutcome {
    /// The key was not handled.
    Ignored,
    /// The key was handled; the field may have changed.
    Handled,
    /// The dialog is applied with this bitrate.
    Confirmed(u32),
    /// The dialog is dismissed.
    Cancelled,
}

/// What the dialog hands back to the folder list.
#[derive(Clone, Copy, Debug, PartialEq, Eq, Structural)]
pub enum BitrateChoice {
    /// Apply this bitrate by hand.
    Manual(u32),
    /// Go back to the calculated bitrate ("Use Automatic").
    Automatic,
}

/// State of the bitrate override dialog.
pub struct BitrateOverrideDialog {
    /// Current input (digits).
    pub text: String,
    /// The automatically calculated bitrate, shown for reference.
    pub calculated_bitrate: u32,
    /// A warning to show above the field (for example about folders whose
    /// source is unavailable).
    pub warning_message: Option<String>,
    /// A manual bitrate is in force, so "Use Automatic" is offered.
    pub has_custom_bitrate: bool,
}

impl BitrateOverrideDialog {
    /// A dialog whose field starts with `current_bitrate`.
    pub fn new(
        current_bitrate: u32,
        calculated_bitrate: u32,
        warning_message: Option<String>,
        has_custom_bitrate: bool,
    ) -> (d: Self)
        ensures
            d.text@ == decimal(current_bitrate as nat),
            d.calculated_bitrate == calculated_bitrate,
            d.warning_message == warning_message,
            d.has_custom_bitrate == has_custom_bitrate,
    {
        BitrateOverrideDialog {
            text: decimal_string(current_bitrate as u64),
            calculated_bitrate,
            warning_message,
            has_custom_bitrate,
        }
    }

    /// Height of the dialog window in pixels: taller when a warning or the
    /// "Use Automatic" button is shown.
    pub fn window_height(warning_message: &Option<String>, has_custom_bitrate: bool) -> (h: u32)
        ensures
            h == (if warning_message is Some || has_custom_bitrate { 260u32 } else { 200u32 }),
    {
        if warning_message.is_some() || has_custom_bitrate { 260 } else { 200 }
    }

    /// The field's text read as a number.
    pub fn parse_bitrate(&self) -> (r: Option<u32>)
        ensures
            r == parse_u32_spec(self.text@),
    {
        parse_u32(self.text.as_str())
    }

    /// Whether the field holds a bitrate in range.
    pub fn is_valid(&self) -> (b: bool)
        ensures
            b == (valid_bitrate(self.text@) is Some),
    {
        match self.parse_bitrate() {
            Some(br) => MIN_BITRATE <= br && br <= MAX_BITRATE,
            None => false,
        }
    }

    /// The field is drawn with an error border: it holds text that is not a
    /// bitrate in range.
    pub fn shows_error(&self) -> (b: bool)
        ensures
            b == (valid_bitrate(self.text@) is None && self.text@.len() > 0),
    {
        !(self.is_valid() || self.text.as_str().unicode_len() == 0)
    }

    /// The bitrate that Apply hands on: present exactly when the field holds
    /// a bitrate in range, which is then between 64 and 320.
    pub fn confirm(&self) -> (r: Option<u32>)
        ensures
            r == valid_bitrate(self.text@),
            r matches Some(b) ==> bitrate_in_range(b),
    {
        match self.parse_bitrate() {
            Some(b) => if MIN_BITRATE <= b && b <= MAX_BITRATE { Some(b) } else { None },
            None => None,
        }
    }

    /// The choice Apply hands back: the bitrate in the field, when it is a
    /// bitrate in range (otherwise Apply only closes the dialog).
    pub fn apply_choice(&self) -> (c: Option<BitrateChoice>)
        ensures
            c == (match valid_bitrate(self.text@) {
                Some(b) => Some(BitrateChoice::Manual(b)),
                None => None,
            }),
    {
        match self.confirm() {
            Some(b) => Some(BitrateChoice::Manual(b)),
            None => None,
        }
    }

    /// Whether the "Use Automatic" button is offered: only while a bitrate
    /// set by hand is in force.
    pub fn shows_use_automatic(&self) -> (b: bool)
        ensures
            b == self.has_custom_bitrate,
    {
        self.has_custom_bitrate
    }

    /// The choice "Use Automatic" hands back.
    pub fn use_automatic(&self) -> (c: BitrateChoice)
        ensures
            c == BitrateChoice::Automatic,
    {
        BitrateChoice::Automatic
    }

    /// The reference line "Calculated: N kbps".
    pub fn calculated_label(&self) -> (s: String)
        ensures
            s@ == "Calculated: "@ + decimal(self.calculated_bitrate as nat) + " kbps"@,
    {
        let mut s = String::from_str("Calculated: ");
        push_decimal(&mut s, self.calculated_bitrate as u64);
        s.append(" kbps");
        s
    }

    /// Types one character into the field.
    fn type_char(&mut self, c: char)
        ensures
            final(self).text@ == bitrate_after_char(old(self).text@, c),
            final(self).calculated_bitrate == old(self).calculated_bitrate,
            final(self).warning_message == old(self).warning_message,
            final(self).has_custom_bitrate == old(self).has_custom_bitrate,
    {
        if !char_is_digit(c) {
            return;
        }
        if self.text.as_str().unicode_len() >= MAX_DIGITS {
            return;
        }
        string_push(&mut self.text, c);
    }

    /// Reacts to a key press: backspace deletes the last character, escape
    /// cancels, enter applies when the field is valid, and typed digits are
    /// added while the field is shorter than three characters.
    pub fn handle_key(&mut self, key: &KeyPress) -> (out: BitrateKeyOutcome)
        ensures
            final(self).calculated_bitrate == old(self).calculated_bitrate,
            final(self).warning_message == old(self).warning_message,
            final(self).has_custom_bitrate == old(self).has_custom_bitrate,
            key.key@ == "backspace"@ ==> out is Handled && final(self).text@ == (
                if old(self).text@.len() > 0 { old(self).text@.drop_last() } else { old(self).text@ }),
            key.key@ != "backspace"@ && key.key@ == "escape"@ ==> out is Cancelled
                && final(self).text@ == old(self).text@,
            key.key@ != "backspace"@ && key.key@ != "escape"@ && key.key@ == "enter"@ ==> {
                &&& final(self).text@ == old(self).text@
                &&& match valid_bitrate(old(self).text@) {
                    Some(b) => out == BitrateKeyOutcome::Confirmed(b),
                    None => out is Handled,
                }
            },
            key.key@ != "backspace"@ && key.key@ != "escape"@ && key.key@ != "enter"@ ==> match key.key_char {
                Some(kc) => out is Handled && final(self).text@ == bitrate_after_chars(old(self).text@, kc@),
                None => out is Ignored && final(self).text@ == old(self).text@,
            },
            all_digits(old(self).text@) ==> all_digits(final(self).text@),
            old(self).text@.len() <= MAX_DIGITS ==> final(self).text@.len() <= MAX_DIGITS,
    {
        if key.is_key("backspace") {
            if self.text.as_str().unicode_len() > 0 {
                let _ = string_pop(&mut self.text);
            }
            return BitrateKeyOutcome::Handled;
        }
        if key.is_key("escape") {
            return BitrateKeyOutcome::Cancelled;
        }
        if key.is_key("enter") {
            return match self.confirm() {
                Some(b) => BitrateKeyOutcome::Confirmed(b),
                None => BitrateKeyOutcome::Handled,
            };
        }
        match &key.key_char {
            Some(kc) => {
                let n = kc.as_str().unicode_len();
                let ghost t0 = self.text@;
                let mut i: usize = 0;
                assert(kc@.take(0) =~= Seq::<char>::empty());
                while i < n
                    invariant
                        i <= n,
                        n == kc@.len(),
                        self.text@ == bitrate_after_chars(t0, kc@.take(i as int)),
                        self.calculated_bitrate == old(self).calculated_bitrate,
                        self.warning_message == old(self).warning_message,
                        self.has_custom_bitrate == old(self).has_custom_bitrate,
                        all_digits(t0) ==> all_digits(self.text@),
                        t0.len() <= MAX_DIGITS ==> self.text@.len() <= MAX_DIGITS,
                    decreases n - i,
                {
                    let c = kc.as_str().get_char(i);
                    assert(kc@.take(i + 1).drop_last() =~= kc@.take(i as int));
                    assert(kc@.take(i + 1).last() == c);
                    self.type_char(c);
                    i = i + 1;
                }
                assert(kc@.take(n as int) =~= kc@);
                BitrateKeyOutcome::Handled
            },
            None => BitrateKeyOutcome::Ignored,
        }
    }
}

/// A dialog opened at a bitrate in range applies that very bitrate when
/// confirmed untouched; one opened out of range applies nothing.
pub proof fn untouched_dialog_confirms_its_bitrate(current_bitrate: u32)
    ensures
        bitrate_in_range(current_bitrate) ==> valid_bitrate(decimal(current_bitrate as nat)) == Some(current_bitrate),
        !bitrate_in_range(current_bitrate) ==> valid_bitrate(decimal(current_bitrate as nat)) is None,
{
    decimal_parse_round_trip(current_bitrate);
}

} // verus!
