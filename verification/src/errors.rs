use vstd::prelude::*;
use vstd::string::StringExecFns;

verus! {

/// Every failure the core can produce, each with a stable code and a
/// human-readable message.
#[derive(Debug, Clone)]
pub enum AppError {
    RecorderBusy,
    RecorderNotRunning,
    AudioStreamUnavailable,
    AudioDevice(String),
    AudioInit(String),
    AudioEmpty,
    Realtime(String),
    MissingApiKey,
    Validation(String),
    Paste(String),
    History(String),
    Settings(String),
    Hotkey(String),
    Internal(String),
}

impl AppError {
    /// Stable machine-readable code for each error class.
    pub fn code(&self) -> (r: &'static str)
        ensures
            r@ == self.code_spec(),
    {
        match self {
            AppError::RecorderBusy => "RECORDER_BUSY",
            AppError::RecorderNotRunning => "RECORDER_NOT_RUNNING",
            AppError::AudioStreamUnavailable => "AUDIO_STREAM_UNAVAILABLE",
            AppError::AudioDevice(_) => "AUDIO_DEVICE",
            AppError::AudioInit(_) => "AUDIO_INIT",
            AppError::AudioEmpty => "AUDIO_EMPTY",
            AppError::Realtime(_) => "REALTIME",
            AppError::MissingApiKey => "MISSING_API_KEY",
            AppError::Validation(_) => "VALIDATION",
            AppError::Paste(_) => "PASTE",
            AppError::History(_) => "HISTORY",
            AppError::Settings(_) => "SETTINGS",
            AppError::Hotkey(_) => "HOTKEY",
            AppError::Internal(_) => "INTERNAL",
        }
    }

    /// The human-readable message carried by each error.
    pub fn message(&self) -> (r: String)
        ensures
            r@ == self.message_spec(),
    {
        match self {
            AppError::RecorderBusy => String::from_str("Recorder is already running"),
            AppError::RecorderNotRunning => String::from_str("Recorder is not running"),
            AppError::AudioStreamUnavailable => String::from_str("Audio stream unavailable"),
            AppError::AudioDevice(s) => String::from_str("Audio input device error: ").concat(
                s.as_str(),
            ),
            AppError::AudioInit(s) => String::from_str(
                "Failed to initialize audio capture: ",
            ).concat(s.as_str()),
            AppError::AudioEmpty => String::from_str("No audio samples captured"),
            AppError::Realtime(s) => String::from_str("Realtime service error: ").concat(
                s.as_str(),
            ),
            AppError::MissingApiKey => String::from_str("Missing OpenAI API key"),
            AppError::Validation(s) => s.clone(),
            AppError::Paste(s) => String::from_str("Paste simulation failed: ").concat(s.as_str()),
            AppError::History(s) => String::from_str("History storage error: ").concat(s.as_str()),
            AppError::Settings(s) => String::from_str("Settings error: ").concat(s.as_str()),
            AppError::Hotkey(s) => String::from_str("Hotkey error: ").concat(s.as_str()),
            AppError::Internal(s) => s.clone(),
        }
    }

    pub open spec fn message_spec(&self) -> Seq<char> {
        match self {
            AppError::RecorderBusy => "Recorder is already running"@,
            AppError::RecorderNotRunning => "Recorder is not running"@,
            AppError::AudioStreamUnavailable => "Audio stream unavailable"@,
            AppError::AudioDevice(s) => "Audio input device error: "@ + s@,
            AppError::AudioInit(s) => "Failed to initialize audio capture: "@ + s@,
            AppError::AudioEmpty => "No audio samples captured"@,
            AppError::Realtime(s) => "Realtime service error: "@ + s@,
            AppError::MissingApiKey => "Missing OpenAI API key"@,
            AppError::Validation(s) => s@,
            AppError::Paste(s) => "Paste simulation failed: "@ + s@,
            AppError::History(s) => "History storage error: "@ + s@,
            AppError::Settings(s) => "Settings error: "@ + s@,
            AppError::Hotkey(s) => "Hotkey error: "@ + s@,
            AppError::Internal(s) => s@,
        }
    }

    pub open spec fn code_spec(&self) -> Seq<char> {
        match self {
            AppError::RecorderBusy => "RECORDER_BUSY"@,
            AppError::RecorderNotRunning => "RECORDER_NOT_RUNNING"@,
            AppError::AudioStreamUnavailable => "AUDIO_STREAM_UNAVAILABLE"@,
            AppError::AudioDevice(_) => "AUDIO_DEVICE"@,
            AppError::AudioInit(_) => "AUDIO_INIT"@,
            AppError::AudioEmpty => "AUDIO_EMPTY"@,
            AppError::Realtime(_) => "REALTIME"@,
            AppError::MissingApiKey => "MISSING_API_KEY"@,
            AppError::Validation(_) => "VALIDATION"@,
            AppError::Paste(_) => "PASTE"@,
            AppError::History(_) => "HISTORY"@,
            AppError::Settings(_) => "SETTINGS"@,
            AppError::Hotkey(_) => "HOTKEY"@,
            AppError::Internal(_) => "INTERNAL"@,
        }
    }
}

/// The serialisable failure shape handed to command callers: a stable code
/// and a human-readable message.
#[derive(Debug)]
pub struct CommandError {
    pub code: &'static str,
    pub message: String,
}

impl CommandError {
    pub fn new(code: &'static str, message: String) -> (r: CommandError)
        ensures
            r.code@ == code@,
            r.message@ == message@,
    {
        CommandError { code, message }
    }

    /// Carries an `AppError` to a command caller: its code and its message.
    pub fn from_app(value: &AppError) -> (r: CommandError)
        ensures
            r.code@ == value.code_spec(),
            r.message@ == value.message_spec(),
    {
        CommandError::new(value.code(), value.message())
    }
}

} // verus!
