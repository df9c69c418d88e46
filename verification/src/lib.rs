//! Core of a push-to-talk transcription tool: a recorder session state
//! machine, PCM sample conversion, and the realtime streaming protocol
//! client that turns audio chunks into one transcript.

pub mod capture;
pub mod commands;
pub mod errors;
pub mod history;
pub mod hotkey;
pub mod paste;
pub mod realtime;
pub mod recorder;
pub mod settings;
pub mod text;

pub use capture::ConfigChoice;
pub use capture::DeviceChoice;
pub use commands::RecordingSummary;
pub use commands::StopDecision;
pub use errors::AppError;
pub use errors::CommandError;
pub use history::HistoryEntry;
pub use hotkey::HotkeyManager;
pub use paste::PasteManager;
pub use paste::PasteOutcome;
pub use realtime::ConnectState;
pub use realtime::InboundEvent;
pub use realtime::InboundStep;
pub use realtime::StreamSession;
pub use recorder::RecorderRequest;
pub use recorder::RecorderService;
pub use settings::AppSettings;
