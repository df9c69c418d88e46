use coolchatty::capture::capture_step;
use coolchatty::capture::convert_frames_f32;
use coolchatty::capture::convert_sample_f32_bits;
use coolchatty::capture::convert_sample_i16;
use coolchatty::capture::convert_sample_u16;
use coolchatty::capture::on_send_result;
use coolchatty::capture::resolve_stream_config;
use coolchatty::capture::select_input_device;
use coolchatty::capture::CaptureDirective;
use coolchatty::capture::RecvEvent;
use coolchatty::capture::SendStatus;
use coolchatty::commands::is_model_error;
use coolchatty::commands::require_api_key;
use coolchatty::commands::resolve_transcript;
use coolchatty::commands::wants_history;
use coolchatty::commands::wants_paste;
use coolchatty::realtime::bearer_header;
use coolchatty::realtime::beta_header_value;
use coolchatty::realtime::close_error;
use coolchatty::realtime::commit_frame;
use coolchatty::realtime::parse_event;
use coolchatty::realtime::request_url;
use coolchatty::realtime::response_frame;
use coolchatty::realtime::samples_to_le_bytes;
use coolchatty::realtime::subprotocol_header_value;
use coolchatty::recorder::ReadyOutcome;
use coolchatty::settings::default_realtime_model;
use coolchatty::AppError;
use coolchatty::AppSettings;
use coolchatty::CommandError;
use coolchatty::ConfigChoice;
use coolchatty::ConnectState;
use coolchatty::DeviceChoice;
use coolchatty::HotkeyManager;
use coolchatty::InboundEvent;
use coolchatty::InboundStep;
use coolchatty::PasteManager;
use coolchatty::PasteOutcome;
use coolchatty::RecorderService;
use coolchatty::StopDecision;
use coolchatty::StreamSession;

fn f32_sample(x: f32) -> i16 {
    convert_sample_f32_bits(x.to_bits())
}

#[test]
fn f32_conversion_matches_round_clamp_scale() {
    assert_eq!(f32_sample(0.0), 0);
    assert_eq!(f32_sample(-0.0), 0);
    assert_eq!(f32_sample(1.0), 32767);
    assert_eq!(f32_sample(-1.0), -32767);
    assert_eq!(f32_sample(2.5), 32767);
    assert_eq!(f32_sample(-7.0), -32767);
    assert_eq!(f32_sample(f32::INFINITY), 32767);
    assert_eq!(f32_sample(f32::NEG_INFINITY), -32767);
    assert_eq!(f32_sample(f32::NAN), 0);
    // 0.5 * 32767 = 16383.5: ties round away from zero.
    assert_eq!(f32_sample(0.5), 16384);
    assert_eq!(f32_sample(-0.5), -16384);
    // 0.25 * 32767 = 8191.75.
    assert_eq!(f32_sample(0.25), 8192);
    // -0.75 * 32767 = -24575.25.
    assert_eq!(f32_sample(-0.75), -24575);
    // The largest float below 1 still rounds up to full scale.
    assert_eq!(f32_sample(0.99999994), 32767);
    // Subnormals vanish.
    assert_eq!(f32_sample(1.0e-45), 0);
}

#[test]
fn f32_conversion_agrees_with_reference_formula() {
    let values = [0.1f32, -0.1, 0.3333, 0.9, -0.99, 0.0001, -0.000061, 0.708];
    for &x in values.iter() {
        let expected = (x.clamp(-1.0, 1.0) * 32767.0f32).round() as i16;
        assert_eq!(f32_sample(x), expected, "value {x}");
    }
}

#[test]
fn frame_conversion_samples_only_channel_zero() {
    let frames: Vec<u32> = vec![
        0.5f32.to_bits(),
        (-1.0f32).to_bits(),
        0.25f32.to_bits(),
        1.0f32.to_bits(),
    ];
    let chunk = convert_frames_f32(&frames, 2);
    assert_eq!(chunk, vec![16384, 8192]);
}

#[test]
fn frame_conversion_mono_keeps_every_frame() {
    let frames: Vec<u32> = vec![0.0f32.to_bits(), 0.5f32.to_bits()];
    assert_eq!(convert_frames_f32(&frames, 1), vec![0, 16384]);
}

#[test]
fn integer_sample_conversions_saturate() {
    assert_eq!(convert_sample_i16(0), 0);
    assert_eq!(convert_sample_i16(1), 32767);
    assert_eq!(convert_sample_i16(300), 32767);
    assert_eq!(convert_sample_i16(-1), -32767);
    assert_eq!(convert_sample_i16(i16::MIN), -32767);
    assert_eq!(convert_sample_u16(0), 0);
    assert_eq!(convert_sample_u16(7), 32767);
}

#[test]
fn le_byte_packing_is_little_endian_twos_complement() {
    let bytes = samples_to_le_bytes(&vec![0i16, 1, -1, -2, 0x1234]);
    assert_eq!(bytes, vec![0x00, 0x00, 0x01, 0x00, 0xFF, 0xFF, 0xFE, 0xFF, 0x34, 0x12]);
}

#[test]
fn append_chunk_builds_the_append_frame() {
    let mut sess = StreamSession::new(16000);
    let frame = sess.append_chunk(&vec![0i16, 1, -1]).expect("non-empty chunk");
    assert_eq!(
        frame,
        "{\"type\":\"input_audio_buffer.append\",\"audio\":\"AAABAP//\"}"
    );
    assert_eq!(sess.total_samples, 3);
}

#[test]
fn append_chunk_skips_empty_chunks() {
    let mut sess = StreamSession::new(16000);
    assert!(sess.append_chunk(&Vec::new()).is_none());
    assert_eq!(sess.total_samples, 0);
}

#[test]
fn finalize_with_no_audio_is_the_empty_audio_error() {
    // Starting and immediately stopping gives the client nothing: the
    // exchange must fail empty, never succeed with an empty transcript.
    let mut svc = RecorderService::new();
    let rate = svc.start(ReadyOutcome::Ready(16000), 0).expect("start");
    svc.stop(5).expect("stop");
    let sess = StreamSession::new(rate);
    match sess.finalize_frames() {
        Err(AppError::AudioEmpty) => {}
        other => panic!("expected AudioEmpty, got {other:?}"),
    }
}

#[test]
fn finalize_below_200ms_is_too_short_and_sends_nothing() {
    let mut sess = StreamSession::new(16000);
    // 1600 samples at 16 kHz: 100 ms.
    sess.append_chunk(&vec![1i16; 1600]);
    match sess.finalize_frames() {
        Err(AppError::Validation(m)) => {
            assert_eq!(m, "Recording too short (only 100.0 ms). Please speak a bit longer.");
        }
        other => panic!("expected Validation, got {other:?}"),
    }
}

#[test]
fn too_short_message_rounds_to_tenths() {
    let mut sess = StreamSession::new(16000);
    sess.append_chunk(&vec![1i16; 1601]);
    match sess.finalize_frames() {
        Err(AppError::Validation(m)) => {
            assert_eq!(m, "Recording too short (only 100.1 ms). Please speak a bit longer.");
        }
        other => panic!("expected Validation, got {other:?}"),
    }
}

#[test]
fn finalize_at_200ms_sends_commit_then_response() {
    let mut sess = StreamSession::new(16000);
    // Exactly 200 ms is long enough.
    sess.append_chunk(&vec![1i16; 3200]);
    let (commit, response) = sess.finalize_frames().expect("long enough");
    assert_eq!(commit, "{\"type\":\"input_audio_buffer.commit\"}");
    assert_eq!(
        response,
        "{\"type\":\"response.create\",\"response\":{\"modalities\":[\"text\"],\"instructions\":\"Transcribe the latest audio sample\"}}"
    );
    assert_eq!(commit, commit_frame());
    assert_eq!(response, response_frame());
}

#[test]
fn finalize_just_below_200ms_fails() {
    let mut sess = StreamSession::new(16000);
    sess.append_chunk(&vec![1i16; 3199]);
    assert!(matches!(sess.finalize_frames(), Err(AppError::Validation(_))));
}

#[test]
fn too_short_exchange_sends_only_append_frames() {
    // A fake socket: every frame the client would send lands here.
    let mut sent: Vec<String> = Vec::new();
    let mut sess = StreamSession::new(16000);
    // Three non-empty chunks, 50 ms each: 150 ms in total.
    for _ in 0..3 {
        if let Some(frame) = sess.append_chunk(&vec![1i16; 800]) {
            sent.push(frame);
        }
    }
    let finalize = sess.finalize_frames();
    if let Ok((commit, response)) = finalize {
        sent.push(commit);
        sent.push(response);
    }
    assert!(matches!(sess.finalize_frames(), Err(AppError::Validation(_))));
    assert_eq!(sent.len(), 3);
    for frame in &sent {
        assert!(frame.starts_with("{\"type\":\"input_audio_buffer.append\""));
    }
    assert!(!sent.iter().any(|f| f.contains("commit") || f.contains("response.create")));
}

#[test]
fn deltas_concatenate_in_arrival_order() {
    let mut sess = StreamSession::new(16000);
    for frag in ["Hel", "lo, ", "world"] {
        match sess.on_inbound(InboundEvent::Delta(frag.to_string())) {
            InboundStep::Continue => {}
            InboundStep::Finish(r) => panic!("unexpected finish: {r:?}"),
        }
    }
    match sess.on_inbound(InboundEvent::Completed) {
        InboundStep::Finish(Ok(t)) => assert_eq!(t, "Hello, world"),
        other => panic!("expected success, got {other:?}"),
    }
}

#[test]
fn remote_error_discards_prior_fragments() {
    let mut sess = StreamSession::new(16000);
    sess.on_inbound(InboundEvent::Delta("partial text".to_string()));
    match sess.on_inbound(InboundEvent::RemoteError("quota exceeded".to_string())) {
        InboundStep::Finish(Err(AppError::Realtime(m))) => assert_eq!(m, "quota exceeded"),
        other => panic!("expected realtime error, got {other:?}"),
    }
}

#[test]
fn completion_with_blank_transcript_is_no_transcript() {
    let mut sess = StreamSession::new(16000);
    sess.on_inbound(InboundEvent::Delta("  \t ".to_string()));
    match sess.on_inbound(InboundEvent::Completed) {
        InboundStep::Finish(Err(AppError::Realtime(m))) => {
            assert_eq!(m, "No transcript received from realtime endpoint");
        }
        other => panic!("expected no-transcript error, got {other:?}"),
    }
}

#[test]
fn unrecognized_events_are_ignored() {
    let mut sess = StreamSession::new(16000);
    sess.on_inbound(InboundEvent::Delta("Hi".to_string()));
    match sess.on_inbound(InboundEvent::Other) {
        InboundStep::Continue => {}
        InboundStep::Finish(r) => panic!("unexpected finish: {r:?}"),
    }
    match sess.on_inbound(InboundEvent::Completed) {
        InboundStep::Finish(Ok(t)) => assert_eq!(t, "Hi"),
        other => panic!("expected success, got {other:?}"),
    }
}

#[test]
fn parse_event_decodes_delta_events() {
    let ev = parse_event("{\"type\":\"response.output_text.delta\",\"delta\":\"Hi\"}").unwrap();
    match ev {
        InboundEvent::Delta(d) => assert_eq!(d, "Hi"),
        other => panic!("expected delta, got {other:?}"),
    }
}

#[test]
fn parse_event_decodes_completion_and_errors() {
    assert!(matches!(
        parse_event("{\"type\":\"response.completed\"}").unwrap(),
        InboundEvent::Completed
    ));
    match parse_event("{\"type\":\"error\",\"error\":{\"message\":\"boom\"}}").unwrap() {
        InboundEvent::RemoteError(m) => assert_eq!(m, "boom"),
        other => panic!("expected remote error, got {other:?}"),
    }
    match parse_event("{\"type\":\"error\"}").unwrap() {
        InboundEvent::RemoteError(m) => assert_eq!(m, "unknown error"),
        other => panic!("expected remote error, got {other:?}"),
    }
}

#[test]
fn parse_event_ignores_unknown_types_and_missing_fields() {
    assert!(matches!(
        parse_event("{\"type\":\"session.created\",\"session\":{}}").unwrap(),
        InboundEvent::Other
    ));
    assert!(matches!(
        parse_event("{\"no_type\":1}").unwrap(),
        InboundEvent::Other
    ));
    // A delta event without its fragment is ignored too.
    assert!(matches!(
        parse_event("{\"type\":\"response.output_text.delta\"}").unwrap(),
        InboundEvent::Other
    ));
}

#[test]
fn parse_event_rejects_invalid_json() {
    assert!(matches!(
        parse_event("not json at all"),
        Err(AppError::Realtime(_))
    ));
}

#[test]
fn close_frames_abort_with_reason_or_generic_message() {
    match close_error(Some("server going away".to_string())) {
        AppError::Realtime(m) => assert_eq!(m, "server going away"),
        other => panic!("unexpected error: {other:?}"),
    }
    match close_error(None) {
        AppError::Realtime(m) => assert_eq!(m, "connection closed"),
        other => panic!("unexpected error: {other:?}"),
    }
}

#[test]
fn connect_retries_with_doubling_delays_then_succeeds() {
    // Three failures, then success: exactly four attempts, delays doubling.
    let mut st = ConnectState::begin();
    let mut delays = Vec::new();
    let mut attempts = 0usize;
    loop {
        attempts += 1;
        let outcome = if attempts <= 3 {
            Err(format!("refused #{attempts}"))
        } else {
            Ok(())
        };
        match st.on_connect_result(outcome) {
            Some(d) => delays.push(d),
            None => break,
        }
    }
    assert_eq!(attempts, 4);
    assert_eq!(delays, vec![400, 800, 1600]);
    assert!(matches!(st, ConnectState::Connected));
}

#[test]
fn connect_gives_up_after_the_attempt_cap() {
    let mut st = ConnectState::begin();
    for attempt in 1..=4u32 {
        let d = st.on_connect_result(Err(format!("refused #{attempt}")));
        if attempt < 4 {
            assert!(d.is_some());
        } else {
            assert!(d.is_none());
        }
    }
    match st {
        ConnectState::Failed { error: AppError::Realtime(m) } => {
            assert_eq!(m, "refused #4");
        }
        other => panic!("expected failure, got {other:?}"),
    }
}

#[test]
fn request_pieces_carry_model_and_credentials() {
    assert_eq!(
        request_url("gpt-realtime-mini"),
        "wss://api.openai.com/v1/realtime?model=gpt-realtime-mini"
    );
    assert_eq!(bearer_header("sk-test"), "Bearer sk-test");
    assert_eq!(beta_header_value(), "realtime=v1");
    assert_eq!(subprotocol_header_value(), "openai-realtime-v1");
}

#[test]
fn start_while_recording_is_busy_and_changes_nothing() {
    let mut svc = RecorderService::new();
    let rate = svc.start(ReadyOutcome::Ready(44100), 100).expect("first start");
    assert_eq!(rate, 44100);
    assert!(svc.is_recording());
    assert!(matches!(
        svc.start(ReadyOutcome::Ready(48000), 200),
        Err(AppError::RecorderBusy)
    ));
    // The existing session is untouched: stopping still measures from the
    // first start.
    assert_eq!(svc.stop(350).expect("stop"), 250);
}

#[test]
fn stop_while_idle_is_not_running() {
    let mut svc = RecorderService::new();
    assert!(matches!(svc.stop(10), Err(AppError::RecorderNotRunning)));
}

#[test]
fn failed_or_timed_out_handshake_stays_idle() {
    let mut svc = RecorderService::new();
    let r = svc.start(ReadyOutcome::Failed(AppError::AudioDevice("no mic".to_string())), 0);
    assert!(matches!(r, Err(AppError::AudioDevice(_))));
    assert!(!svc.is_recording());
    match svc.start(ReadyOutcome::TimedOut, 0) {
        Err(AppError::AudioInit(m)) => {
            assert_eq!(m, "audio device initialization timed out");
        }
        other => panic!("expected init timeout, got {other:?}"),
    }
    assert!(!svc.is_recording());
}

#[test]
fn the_chunk_receiver_is_taken_exactly_once() {
    let mut svc = RecorderService::new();
    assert!(!svc.take_receiver());
    svc.start(ReadyOutcome::Ready(16000), 0).expect("start");
    assert!(svc.take_receiver());
    assert!(!svc.take_receiver());
}

#[test]
fn one_streaming_session_slot() {
    let mut svc = RecorderService::new();
    svc.attach_session().expect("first attach");
    assert!(matches!(svc.attach_session(), Err(AppError::RecorderBusy)));
    assert!(svc.take_session());
    assert!(!svc.take_session());
    svc.attach_session().expect("slot free again");
}

#[test]
fn device_selection_prefers_exact_trimmed_match() {
    let names = vec!["Mic A".to_string(), "Mic B".to_string()];
    assert!(matches!(
        select_input_device(&names, &Some("  Mic B  ".to_string())),
        DeviceChoice::Preferred(1)
    ));
    assert!(matches!(
        select_input_device(&names, &Some("Mic C".to_string())),
        DeviceChoice::FallbackDefault
    ));
    assert!(matches!(
        select_input_device(&names, &Some("   ".to_string())),
        DeviceChoice::DefaultDevice
    ));
    assert!(matches!(
        select_input_device(&names, &None),
        DeviceChoice::DefaultDevice
    ));
}

#[test]
fn config_resolution_takes_the_first_matching_range() {
    let ranges = vec![(8000u32, 12000u32), (16000, 48000), (16000, 96000)];
    match resolve_stream_config(&ranges, 16000) {
        ConfigChoice::Matching { index } => {
            assert_eq!(index, 1);
            assert_eq!(
                resolve_stream_config(&ranges, 16000).negotiated_rate(16000, 44100),
                16000
            );
        }
        ConfigChoice::DeviceDefault => panic!("expected a match"),
    }
    let fallback = resolve_stream_config(&ranges, 192000);
    assert!(matches!(fallback, ConfigChoice::DeviceDefault));
    assert_eq!(fallback.negotiated_rate(192000, 44100), 44100);
}

#[test]
fn capture_loop_decisions() {
    let mut total = 0u64;
    assert!(matches!(
        capture_step(true, RecvEvent::Chunk(vec![1]), &mut total),
        CaptureDirective::Exit
    ));
    assert_eq!(total, 0);
    assert!(matches!(
        capture_step(false, RecvEvent::Chunk(Vec::new()), &mut total),
        CaptureDirective::Poll
    ));
    match capture_step(false, RecvEvent::Chunk(vec![1, 2, 3]), &mut total) {
        CaptureDirective::Deliver(c) => assert_eq!(c, vec![1, 2, 3]),
        other => panic!("expected delivery, got {other:?}"),
    }
    assert_eq!(total, 3);
    assert!(matches!(
        capture_step(false, RecvEvent::TimedOut, &mut total),
        CaptureDirective::Poll
    ));
    assert!(matches!(
        capture_step(false, RecvEvent::Disconnected, &mut total),
        CaptureDirective::Exit
    ));
    assert!(matches!(on_send_result(SendStatus::Delivered), CaptureDirective::Poll));
    assert!(matches!(on_send_result(SendStatus::ChannelFull), CaptureDirective::Poll));
    assert!(matches!(on_send_result(SendStatus::ConsumerGone), CaptureDirective::Exit));
}

#[test]
fn capture_sample_counter_saturates() {
    let mut total = u64::MAX - 1;
    match capture_step(false, RecvEvent::Chunk(vec![1, 2, 3]), &mut total) {
        CaptureDirective::Deliver(_) => {}
        other => panic!("expected delivery, got {other:?}"),
    }
    assert_eq!(total, u64::MAX);
}

#[test]
fn hotkey_bindings_normalize_per_platform() {
    assert_eq!(coolchatty::hotkey::normalize_binding("Alt+Space", true), "Option+Space");
    assert_eq!(
        coolchatty::hotkey::normalize_binding("Cmd+Alt+V", true),
        "Command+Option+V"
    );
    assert_eq!(coolchatty::hotkey::normalize_binding("Alt+Space", false), "Alt+Space");
    assert_eq!(coolchatty::hotkey::normalize_binding("", true), "");
    assert_eq!(HotkeyManager::plan_binding("  Alt+Space  ", true), "Option+Space");
    assert_eq!(HotkeyManager::plan_binding("   ", true), "");
}

#[test]
fn hotkey_manager_tracks_the_registered_binding() {
    let mut mgr = HotkeyManager::new();
    assert_eq!(mgr.binding(), "");
    mgr.update("Option+Space".to_string());
    assert_eq!(mgr.binding(), "Option+Space");
    assert_eq!(HotkeyManager::event_name(), "trigger_record");
}

#[test]
fn model_errors_are_recognized_by_message() {
    assert!(is_model_error("the model gpt-x does not exist"));
    assert!(is_model_error("feature not supported"));
    assert!(!is_model_error("No audio samples captured"));
}

#[test]
fn model_failures_on_a_custom_model_reset_to_the_default() {
    let outcome = Err(AppError::Realtime("model not found".to_string()));
    match resolve_transcript(outcome, "gpt-4o-transcribe") {
        StopDecision::ResetModel { error: AppError::Validation(m) } => {
            assert_eq!(
                m,
                "Realtime service error: model not found. Model reset to GPT Realtime mini. Please try again."
            );
        }
        other => panic!("expected model reset, got {other:?}"),
    }
}

#[test]
fn model_failures_on_the_default_model_pass_through() {
    let outcome = Err(AppError::Realtime("model not found".to_string()));
    match resolve_transcript(outcome, default_realtime_model()) {
        StopDecision::Fail(AppError::Realtime(m)) => assert_eq!(m, "model not found"),
        other => panic!("expected pass-through, got {other:?}"),
    }
}

#[test]
fn other_failures_and_successes_pass_through() {
    match resolve_transcript(Ok("hello".to_string()), "gpt-4o-transcribe") {
        StopDecision::Deliver(t) => assert_eq!(t, "hello"),
        other => panic!("expected delivery, got {other:?}"),
    }
    assert!(matches!(
        resolve_transcript(Err(AppError::AudioEmpty), "gpt-4o-transcribe"),
        StopDecision::Fail(AppError::AudioEmpty)
    ));
}

#[test]
fn starting_needs_a_non_blank_api_key() {
    assert!(matches!(require_api_key(""), Err(AppError::MissingApiKey)));
    assert!(matches!(require_api_key(" \t "), Err(AppError::MissingApiKey)));
    assert!(require_api_key("sk-123").is_ok());
}

#[test]
fn blank_transcripts_are_neither_pasted_nor_saved() {
    assert!(!wants_paste("  "));
    assert!(wants_paste("hello"));
    assert!(!wants_history(true, "  "));
    assert!(!wants_history(false, "hello"));
    assert!(wants_history(true, "hello"));
}

#[test]
fn paste_outcome_follows_the_auto_paste_flag() {
    let mgr = PasteManager::new();
    assert!(matches!(mgr.plan(true), PasteOutcome::SimulatedPaste));
    assert!(matches!(mgr.plan(false), PasteOutcome::ClipboardOnly));
}

#[test]
fn default_settings_match_the_documented_defaults() {
    let s = AppSettings::default();
    assert_eq!(s.api_key, "");
    assert_eq!(s.model, "gpt-realtime-mini");
    assert_eq!(s.hotkey, "Alt+Space");
    assert!(s.auto_paste);
    assert!(s.save_history);
    assert_eq!(s.sample_rate, 16000);
    assert!(s.input_device.is_none());
}

#[test]
fn normalization_fills_a_blank_model() {
    let mut s = AppSettings::default();
    s.model = "   ".to_string();
    s.api_key = "sk".to_string();
    let n = s.normalized();
    assert_eq!(n.model, "gpt-realtime-mini");
    assert_eq!(n.api_key, "sk");
    let mut t = AppSettings::default();
    t.model = "gpt-4o-transcribe".to_string();
    assert_eq!(t.normalized().model, "gpt-4o-transcribe");
}

#[test]
fn errors_carry_stable_codes_and_messages() {
    assert_eq!(AppError::RecorderBusy.code(), "RECORDER_BUSY");
    assert_eq!(AppError::RecorderBusy.message(), "Recorder is already running");
    assert_eq!(AppError::RecorderNotRunning.code(), "RECORDER_NOT_RUNNING");
    assert_eq!(AppError::RecorderNotRunning.message(), "Recorder is not running");
    assert_eq!(AppError::AudioEmpty.code(), "AUDIO_EMPTY");
    assert_eq!(AppError::AudioEmpty.message(), "No audio samples captured");
    assert_eq!(AppError::MissingApiKey.code(), "MISSING_API_KEY");
    let dev = AppError::AudioDevice("no mic".to_string());
    assert_eq!(dev.code(), "AUDIO_DEVICE");
    assert_eq!(dev.message(), "Audio input device error: no mic");
    let rt = AppError::Realtime("boom".to_string());
    assert_eq!(rt.code(), "REALTIME");
    assert_eq!(rt.message(), "Realtime service error: boom");
    let v = AppError::Validation("just this".to_string());
    assert_eq!(v.code(), "VALIDATION");
    assert_eq!(v.message(), "just this");
    assert_eq!(AppError::AudioStreamUnavailable.code(), "AUDIO_STREAM_UNAVAILABLE");
    assert_eq!(AppError::AudioInit("x".to_string()).code(), "AUDIO_INIT");
    assert_eq!(AppError::Paste("x".to_string()).message(), "Paste simulation failed: x");
    assert_eq!(AppError::History("x".to_string()).message(), "History storage error: x");
    assert_eq!(AppError::Settings("x".to_string()).message(), "Settings error: x");
    assert_eq!(AppError::Hotkey("x".to_string()).message(), "Hotkey error: x");
    assert_eq!(AppError::Internal("x".to_string()).message(), "x");
}

#[test]
fn command_errors_wrap_app_errors() {
    let e = CommandError::from_app(&AppError::RecorderBusy);
    assert_eq!(e.code, "RECORDER_BUSY");
    assert_eq!(e.message, "Recorder is already running");
    let n = CommandError::new("CUSTOM", "something".to_string());
    assert_eq!(n.code, "CUSTOM");
    assert_eq!(n.message, "something");
}
