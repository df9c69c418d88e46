//! The hotkey binding: normalisation of the user's key names and the record
//! of what is currently bound. Registering the shortcut with the OS is the
//! surrounding application's job; it registers exactly what `plan_binding`
//! hands it and commits the binding here once that succeeded.

use vstd::prelude::*;

use crate::text::replace_spec;
use crate::text::str_replace;
use crate::text::str_trim;
use crate::text::trim_spec;

verus! {

/// A binding spelled with the platform's key names: on hosts with
/// macOS-style keys, `Alt` reads `Option` and `Cmd` reads `Command`;
/// elsewhere the binding stands as written. An empty binding stays empty.
pub open spec fn normalize_spec(binding: Seq<char>, mac_keys: bool) -> Seq<char> {
    if binding.len() == 0 {
        binding
    } else if mac_keys {
        replace_spec(replace_spec(binding, "Alt"@, "Option"@), "Cmd"@, "Command"@)
    } else {
        binding
    }
}

/// Rewrites a binding with the platform's key names (`mac_keys` says whether
/// the host wants macOS-style names).
pub fn normalize_binding(binding: &str, mac_keys: bool) -> (r: String)
    ensures
        r@ == normalize_spec(binding@, mac_keys),
{
    if binding.is_empty() {
        return String::new();
    }
    if mac_keys {
        proof {
            reveal_strlit("Alt");
            reveal_strlit("Cmd");
        }
        let step = str_replace(binding, "Alt", "Option");
        str_replace(step.as_str(), "Cmd", "Command")
    } else {
        binding.to_owned()
    }
}

/// Remembers which global shortcut is currently registered.
pub struct HotkeyManager {
    pub binding: String,
}

impl HotkeyManager {
    /// A fresh manager with nothing bound yet.
    pub fn new() -> (r: HotkeyManager)
        ensures
            r.binding@.len() == 0,
    {
        HotkeyManager { binding: String::new() }
    }

    /// The currently registered binding.
    pub fn binding(&self) -> (r: String)
        ensures
            r@ == self.binding@,
    {
        self.binding.clone()
    }

    /// What a requested binding registers as: trimmed, then spelled with the
    /// platform's key names. An empty result means the hotkey is cleared and
    /// nothing is registered.
    pub fn plan_binding(binding: &str, mac_keys: bool) -> (r: String)
        ensures
            r@ == normalize_spec(trim_spec(binding@), mac_keys),
    {
        let trimmed = str_trim(binding);
        normalize_binding(trimmed.as_str(), mac_keys)
    }

    /// Commits a binding once the OS accepted it (or an empty one once the
    /// shortcut was cleared).
    pub fn update(&mut self, registered: String)
        ensures
            final(self).binding == registered,
    {
        self.binding = registered;
    }

    /// The event the hotkey (or a manual trigger) emits toward the UI.
    pub fn event_name() -> (r: &'static str)
        ensures
            r@ == "trigger_record"@,
    {
        "trigger_record"
    }
}

} // verus!
