//! The paste decision. Applying a transcript always puts it on the
//! clipboard; whether a paste keystroke is simulated on top is decided here.
//! The clipboard and the keystrokes themselves are driven by the surrounding
//! application.

use vstd::prelude::*;

verus! {

/// How a transcript was applied.
#[derive(Clone, Copy, Debug)]
pub enum PasteOutcome {
    /// The text only landed on the clipboard.
    ClipboardOnly,
    /// A paste keystroke was simulated on top.
    SimulatedPaste,
}

/// Applies transcripts to the system: clipboard always, keystroke on demand.
pub struct PasteManager;

impl PasteManager {
    pub fn new() -> PasteManager {
        PasteManager
    }

    /// The outcome applying a transcript reports: a simulated paste exactly
    /// when auto-paste is on.
    pub fn plan(&self, auto_paste: bool) -> (r: PasteOutcome)
        ensures
            auto_paste <==> r is SimulatedPaste,
            !auto_paste <==> r is ClipboardOnly,
    {
        if auto_paste {
            PasteOutcome::SimulatedPaste
        } else {
            PasteOutcome::ClipboardOnly
        }
    }
}

} // verus!
