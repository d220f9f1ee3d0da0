//! Key presses as the dialogs receive them.

use vstd::prelude::*;
use crate::text::str_eq;

verus! {

/// A key press: the key's name (such as `"enter"`) and the text it types, if any.
pub struct KeyPress {
    pub key: String,
    pub key_char: Option<String>,
}

impl KeyPress {
    /// Whether the key's name is `name`.
    pub fn is_key(&self, name: &str) -> (r: bool)
        ensures
            r == (self.key@ == name@),
    {
        str_eq(self.key.as_str(), name)
    }
}

} // verus!
