//! The user-facing settings record and its normalisation rule. Reading and
//! writing the settings file is the surrounding application's job; the rules
//! about what a well-formed settings value looks like live here.

use vstd::prelude::*;
use vstd::string::StringExecFns;

use crate::text::is_blank;

verus! {

/// The model identifier a blank `model` field falls back to.
pub open spec fn default_model_spec() -> Seq<char> {
    "gpt-realtime-mini"@
}

/// The model identifier a blank `model` field falls back to.
pub fn default_realtime_model() -> (r: &'static str)
    ensures
        r@ == default_model_spec(),
{
    "gpt-realtime-mini"
}

/// Everything the user can configure: credentials, model, hotkey, paste and
/// history behaviour, and the audio request.
#[derive(Debug, Clone)]
pub struct AppSettings {
    pub api_key: String,
    pub model: String,
    pub hotkey: String,
    pub auto_paste: bool,
    pub save_history: bool,
    pub sample_rate: u32,
    pub input_device: Option<String>,
}

impl Default for AppSettings {
    /// Fresh settings: no API key, the default model, `Alt+Space`, paste and
    /// history on, 16 kHz, no preferred device.
    fn default() -> (r: AppSettings)
        ensures
            r.api_key@.len() == 0,
            r.model@ == default_model_spec(),
            r.hotkey@ == "Alt+Space"@,
            r.auto_paste == true,
            r.save_history == true,
            r.sample_rate == 16000,
            r.input_device is None,
    {
        AppSettings {
            api_key: String::new(),
            model: String::from_str(default_realtime_model()),
            hotkey: String::from_str("Alt+Space"),
            auto_paste: true,
            save_history: true,
            sample_rate: 16000,
            input_device: None,
        }
    }
}

impl AppSettings {
    /// A copy with a blank model identifier replaced by the default model;
    /// every other field is kept as it is.
    pub fn normalized(self) -> (r: AppSettings)
        ensures
            r.model@ == if is_blank(self.model@) {
                default_model_spec()
            } else {
                self.model@
            },
            r.api_key == self.api_key,
            r.hotkey == self.hotkey,
            r.auto_paste == self.auto_paste,
            r.save_history == self.save_history,
            r.sample_rate == self.sample_rate,
            r.input_device == self.input_device,
    {
        if crate::text::str_is_blank(self.model.as_str()) {
            AppSettings { model: String::from_str(default_realtime_model()), ..self }
        } else {
            self
        }
    }
}

} // verus!
