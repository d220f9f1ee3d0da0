//! The CD volume label dialog: a one-line text field with Joliet rules
//! (at most 16 characters, no control characters, none of `* / : ; ? \`).

use vstd::prelude::*;
use crate::input::KeyPress;
use crate::text::{char_is_control, is_control_char, string_pop, string_push};

verus! {

/// Maximum length of a Joliet volume label.
pub const MAX_LABEL_LENGTH: usize = 16;

/// The label a new CD gets.
pub open spec fn default_label() -> Seq<char> {
    "Untitled MP3CD"@
}

/// The default label as a new string.
pub fn default_label_string() -> (s: String)
    ensures
        s@ == default_label(),
{
    String::from_str("Untitled MP3CD")
}

/// Characters that Joliet forbids in a volume label.
pub open spec fn is_excluded_char(c: char) -> bool {
    c == '*' || c == '/' || c == ':' || c == ';' || c == '?' || c == '\\'
}

/// A character may appear in a volume label.
pub open spec fn is_valid_label_char(c: char) -> bool {
    !is_control_char(c) && !is_excluded_char(c)
}

/// A label that obeys the Joliet rules.
pub open spec fn is_valid_label(s: Seq<char>) -> bool {
    s.len() <= MAX_LABEL_LENGTH && forall|i: int| 0 <= i < s.len() ==> is_valid_label_char(#[trigger] s[i])
}

/// Whether `c` may appear in a volume label.
pub fn is_valid_char(c: char) -> (b: bool)
    ensures
        b == is_valid_label_char(c),
{
    !char_is_control(c) && !(c == '*' || c == '/' || c == ':' || c == ';' || c == '?' || c == '\\')
}

/// The field after one typed character: invalid characters are ignored, the
/// default text is cleared by the first valid one, and the field stops
/// growing at the maximum length.
pub open spec fn label_after_char(text: Seq<char>, is_default: bool, c: char) -> (Seq<char>, bool) {
    if !is_valid_label_char(c) {
        (text, is_default)
    } else {
        let t = if is_default { Seq::<char>::empty() } else { text };
        if t.len() >= MAX_LABEL_LENGTH {
            (t, false)
        } else {
            (t.push(c), false)
        }
    }
}

/// The field after the characters `chars` are typed one after the other.
pub open spec fn label_after_chars(text: Seq<char>, is_default: bool, chars: Seq<char>) -> (Seq<char>, bool)
    decreases chars.len(),
{
    if chars.len() == 0 {
        (text, is_default)
    } else {
        let prev = label_after_chars(text, is_default, chars.drop_last());
        label_after_char(prev.0, prev.1, chars.last())
    }
}

/// What a key press did to a dialog.
pub enum KeyOutcome {
    /// The key was not handled.
    Ignored,
    /// The key was handled; the field may have changed.
    Handled,
    /// The dialog is confirmed with this value.
    Confirmed(String),
    /// The dialog is dismissed without a value.
    Cancelled,
}

/// State of the volume label dialog.
pub struct VolumeLabelDialog {
    pub text: String,
    /// The field still shows the default text, which the first edit replaces.
    pub is_default: bool,
}

impl VolumeLabelDialog {
    /// A dialog showing the default label, or `initial_label` cut down to a
    /// valid label: its characters that a label may hold, at most 16 of
    /// them, as if typed into an empty field. A valid label is kept as it is.
    pub fn new(initial_label: Option<String>) -> (d: Self)
        ensures
            d.text@ == (match initial_label {
                Some(l) => label_after_chars(Seq::<char>::empty(), false, l@).0,
                None => default_label(),
            }),
            d.is_default == (d.text@ == default_label()),
            is_valid_label(d.text@),
            (initial_label matches Some(l) && is_valid_label(l@)) ==> d.text@ == initial_label.unwrap()@,
    {
        let mut d = VolumeLabelDialog { text: String::new(), is_default: false };
        match initial_label {
            Some(l) => {
                let n = l.as_str().unicode_len();
                let mut i: usize = 0;
                assert(l@.take(0) =~= Seq::<char>::empty());
                while i < n
                    invariant
                        i <= n,
                        n == l@.len(),
                        (d.text@, d.is_default) == label_after_chars(Seq::<char>::empty(), false, l@.take(i as int)),
                        is_valid_label(d.text@),
                    decreases n - i,
                {
                    let c = l.as_str().get_char(i);
                    assert(l@.take(i + 1).drop_last() =~= l@.take(i as int));
                    assert(l@.take(i + 1).last() == c);
                    d.type_char(c);
                    i = i + 1;
                }
                assert(l@.take(n as int) =~= l@);
                proof {
                    if is_valid_label(l@) {
                        lemma_valid_label_types_back(l@);
                    }
                }
            },
            None => {
                d.text = default_label_string();
                proof { default_label_is_valid(); }
            },
        }
        let default = default_label_string();
        d.is_default = d.text == default;
        d
    }

    /// How many more characters fit into the label.
    pub fn chars_remaining(&self) -> (n: usize)
        ensures
            n == (if self.text@.len() >= MAX_LABEL_LENGTH { 0 } else { MAX_LABEL_LENGTH - self.text@.len() }),
    {
        let len = self.text.as_str().unicode_len();
        if len >= MAX_LABEL_LENGTH { 0 } else { MAX_LABEL_LENGTH - len }
    }

    /// Types one character into the field.
    fn type_char(&mut self, c: char)
        ensures
            (final(self).text@, final(self).is_default) == label_after_char(old(self).text@, old(self).is_default, c),
    {
        if !is_valid_char(c) {
            return;
        }
        if self.is_default {
            self.text = String::new();
            self.is_default = false;
        }
        if self.text.as_str().unicode_len() >= MAX_LABEL_LENGTH {
            return;
        }
        string_push(&mut self.text, c);
    }

    /// Reacts to a key press: backspace deletes (clearing the default text
    /// entirely), escape cancels, enter confirms with the current text, and
    /// typed text is added character by character.
    pub fn handle_key(&mut self, key: &KeyPress) -> (out: KeyOutcome)
        ensures
            key.key@ == "backspace"@ ==> {
                &&& out is Handled
                &&& if old(self).is_default {
                    final(self).text@ == Seq::<char>::empty() && !final(self).is_default
                } else if old(self).text@.len() > 0 {
                    final(self).text@ == old(self).text@.drop_last() && !final(self).is_default
                } else {
                    final(self).text@ == old(self).text@ && final(self).is_default == old(self).is_default
                }
            },
            key.key@ != "backspace"@ && key.key@ == "escape"@ ==> out is Cancelled && *final(self) == *old(self),
            key.key@ != "backspace"@ && key.key@ != "escape"@ && key.key@ == "enter"@ ==> *final(self) == *old(self) && match out {
                KeyOutcome::Confirmed(l) => l@ == old(self).text@,
                _ => false,
            },
            key.key@ != "backspace"@ && key.key@ != "escape"@ && key.key@ != "enter"@ ==> match key.key_char {
                Some(kc) => out is Handled
                    && (final(self).text@, final(self).is_default) == label_after_chars(old(self).text@, old(self).is_default, kc@),
                None => out is Ignored && *final(self) == *old(self),
            },
            is_valid_label(old(self).text@) ==> is_valid_label(final(self).text@),
            is_valid_label(old(self).text@) ==> (out matches KeyOutcome::Confirmed(l) ==> is_valid_label(l@)),
    {
        if key.is_key("backspace") {
            if self.is_default {
                self.text = String::new();
                self.is_default = false;
            } else if self.text.as_str().unicode_len() > 0 {
                let _ = string_pop(&mut self.text);
            }
            return KeyOutcome::Handled;
        }
        if key.is_key("escape") {
            return KeyOutcome::Cancelled;
        }
        if key.is_key("enter") {
            return KeyOutcome::Confirmed(self.text.clone());
        }
        match &key.key_char {
            Some(kc) => {
                let n = kc.as_str().unicode_len();
                let ghost t0 = self.text@;
                let ghost d0 = self.is_default;
                let mut i: usize = 0;
                assert(kc@.take(0) =~= Seq::<char>::empty());
                while i < n
                    invariant
                        i <= n,
                        n == kc@.len(),
                        (self.text@, self.is_default) == label_after_chars(t0, d0, kc@.take(i as int)),
                        is_valid_label(t0) ==> is_valid_label(self.text@),
                    decreases n - i,
                {
                    let c = kc.as_str().get_char(i);
                    assert(kc@.take(i + 1).drop_last() =~= kc@.take(i as int));
                    assert(kc@.take(i + 1).last() == c);
                    self.type_char(c);
                    i = i + 1;
                }
                assert(kc@.take(n as int) =~= kc@);
                KeyOutcome::Handled
            },
            None => KeyOutcome::Ignored,
        }
    }
}

/// The default label obeys the Joliet rules, so a dialog that starts from
/// it only ever confirms valid labels.
pub proof fn default_label_is_valid()
    ensures
        is_valid_label(default_label()),
{
    reveal_strlit("Untitled MP3CD");
    assert forall|i: int| 0 <= i < default_label().len() implies is_valid_label_char(#[trigger] default_label()[i]) by {
        reveal_strlit("Untitled MP3CD");
    }
}

/// Typing a valid label into an empty field gives that label back.
proof fn lemma_valid_label_types_back(l: Seq<char>)
    requires
        is_valid_label(l),
    ensures
        label_after_chars(Seq::<char>::empty(), false, l) == (l, false),
    decreases l.len(),
{
    if l.len() > 0 {
        let p = l.drop_last();
        assert(is_valid_label(p)) by {
            assert forall|i: int| 0 <= i < p.len() implies is_valid_label_char(#[trigger] p[i]) by {
                assert(p[i] == l[i]);
            }
        }
        lemma_valid_label_types_back(p);
        assert(is_valid_label_char(l[l.len() - 1]));
        assert(p.push(l.last()) =~= l);
    }
}

} // verus!
