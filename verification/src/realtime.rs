//! The realtime streaming client: outbound audio framing, end-of-audio
//! validation, the commit/response finalisation pair, inbound event handling
//! into one accumulated transcript, and connection retry with exponential
//! backoff. The socket itself is driven by the surrounding application,
//! which feeds connection results, chunks and inbound frame bodies through
//! the state machines here.

use base64::Engine;
use vstd::prelude::*;
use vstd::arithmetic::power2::lemma2_to64;
use vstd::arithmetic::power2::lemma_pow2_strictly_increases;
use vstd::arithmetic::power2::lemma_pow2_unfold;
use vstd::arithmetic::power2::pow2;
use vstd::bits::lemma_u64_shl_is_mul;
use vstd::string::StringExecFns;

use crate::errors::AppError;
use crate::text::is_blank;
use crate::text::dec_spec;
use crate::text::str_eq;
use crate::text::str_is_blank;
use crate::text::u64_to_dec;

verus! {

/// How often a connection is attempted before giving up.
pub const MAX_CONNECT_ATTEMPTS: usize = 4;

/// The low byte of a sample's little-endian 16-bit two's-complement encoding.
pub open spec fn sample_lo(s: i16) -> u8 {
    ((s as int % 65536) % 256) as u8
}

/// The high byte of a sample's little-endian 16-bit two's-complement
/// encoding.
pub open spec fn sample_hi(s: i16) -> u8 {
    ((s as int % 65536) / 256) as u8
}

/// The little-endian byte encoding of a sample sequence: two bytes per
/// sample, low byte first.
pub open spec fn le_bytes_of(samples: Seq<i16>) -> Seq<u8> {
    Seq::new(
        (2 * samples.len()) as nat,
        |j: int|
            if j % 2 == 0 {
                sample_lo(samples[j / 2])
            } else {
                sample_hi(samples[j / 2])
            },
    )
}

/// Packs samples as little-endian 16-bit two's-complement bytes.
pub fn samples_to_le_bytes(samples: &Vec<i16>) -> (r: Vec<u8>)
    ensures
        r@ == le_bytes_of(samples@),
{
    let n = samples.len();
    let mut r: Vec<u8> = Vec::new();
    let mut i: usize = 0;
    while i < n
        invariant
            i <= n,
            n == samples@.len(),
            r@.len() == 2 * i,
            forall|j: int| 0 <= j < r@.len() ==> r@[j] == le_bytes_of(samples@)[j],
        decreases n - i,
    {
        let s = samples[i];
        let u: u32 = if s >= 0 {
            s as u32
        } else {
            (s as i32 + 65536) as u32
        };
        assert(u == s as int % 65536) by {
            if s >= 0 {
                assert(s as int % 65536 == s as int) by (nonlinear_arith)
                    requires
                        0 <= s < 65536,
                ;
            } else {
                assert(s as int % 65536 == s as int + 65536) by (nonlinear_arith)
                    requires
                        -65536 <= s < 0,
                ;
            }
        };
        let lo: u8 = (u % 256) as u8;
        let hi: u8 = (u / 256) as u8;
        r.push(lo);
        r.push(hi);
        i += 1;
        assert(forall|j: int| 0 <= j < r@.len() ==> r@[j] == le_bytes_of(samples@)[j]);
    }
    assert(r@ =~= le_bytes_of(samples@));
    r
}

/// What the standard base64 encoding of a byte sequence reads, pad included.
pub uninterp spec fn b64_of(bytes: Seq<u8>) -> Seq<char>;

/// Relies on base64's `STANDARD` engine: encodes the bytes as base64 with
/// `=` padding; the result depends on the bytes alone, and is four
/// characters for every started group of three bytes.
#[verifier::external_body]
fn base64_encode(bytes: &Vec<u8>) -> (r: String)
    ensures
        r@ == b64_of(bytes@),
        r@.len() == 4 * ((bytes@.len() + 2) / 3),
{
    base64::engine::general_purpose::STANDARD.encode(bytes)
}

/// The append-audio control frame carrying one base64 payload. The payload
/// is base64 text, so it never needs JSON escaping.
pub open spec fn append_frame_spec(payload: Seq<char>) -> Seq<char> {
    "{\"type\":\"input_audio_buffer.append\",\"audio\":\""@ + payload + "\"}"@
}

/// The commit control frame: no further audio will be appended.
pub open spec fn commit_frame_spec() -> Seq<char> {
    "{\"type\":\"input_audio_buffer.commit\"}"@
}

/// The response-request control frame asking for text-only output.
pub open spec fn response_frame_spec() -> Seq<char> {
    "{\"type\":\"response.create\",\"response\":{\"modalities\":[\"text\"],\"instructions\":\"Transcribe the latest audio sample\"}}"@
}

/// Builds the append-audio frame around one encoded payload.
fn append_frame(payload: &str) -> (r: String)
    ensures
        r@ == append_frame_spec(payload@),
{
    String::from_str("{\"type\":\"input_audio_buffer.append\",\"audio\":\"").concat(
        payload,
    ).concat("\"}")
}

/// The commit control frame.
pub fn commit_frame() -> (r: String)
    ensures
        r@ == commit_frame_spec(),
{
    String::from_str("{\"type\":\"input_audio_buffer.commit\"}")
}

/// The response-request control frame.
pub fn response_frame() -> (r: String)
    ensures
        r@ == response_frame_spec(),
{
    String::from_str(
        "{\"type\":\"response.create\",\"response\":{\"modalities\":[\"text\"],\"instructions\":\"Transcribe the latest audio sample\"}}",
    )
}

/// The secure socket endpoint, parameterized by the model identifier.
pub fn request_url(model: &str) -> (r: String)
    ensures
        r@ == "wss://api.openai.com/v1/realtime?model="@ + model@,
{
    String::from_str("wss://api.openai.com/v1/realtime?model=").concat(model)
}

/// The bearer authorization header value for the API key.
pub fn bearer_header(api_key: &str) -> (r: String)
    ensures
        r@ == "Bearer "@ + api_key@,
{
    String::from_str("Bearer ").concat(api_key)
}

/// The beta/version marker header value.
pub fn beta_header_value() -> (r: &'static str)
    ensures
        r@ == "realtime=v1"@,
{
    "realtime=v1"
}

/// The sub-protocol identifier header value.
pub fn subprotocol_header_value() -> (r: &'static str)
    ensures
        r@ == "openai-realtime-v1"@,
{
    "openai-realtime-v1"
}

/// The validation message for a recording of `total` samples at `rate`
/// samples per second that is too short: it names the duration in
/// milliseconds with one decimal digit, rounded to the nearest tenth.
pub open spec fn too_short_message_spec(total: int, rate: int) -> Seq<char>
    recommends
        rate > 0,
{
    let tenths = (total * 10000 + rate / 2) / rate;
    "Recording too short (only "@ + dec_spec((tenths / 10) as nat) + "."@ + dec_spec(
        (tenths % 10) as nat,
    ) + " ms). Please speak a bit longer."@
}

/// One in-flight protocol exchange: the negotiated sample rate, the running
/// count of appended samples, and the transcript accumulated so far. The
/// open socket itself stays with the caller.
pub struct StreamSession {
    pub sample_rate: u32,
    pub total_samples: u64,
    pub transcript: String,
}

/// One inbound event, already decoded from a frame body.
#[derive(Debug)]
pub enum InboundEvent {
    /// A transcript fragment to append.
    Delta(String),
    /// The exchange is complete.
    Completed,
    /// The service reported an error with this message.
    RemoteError(String),
    /// An event of some other type: ignored, the protocol is
    /// forward-compatible.
    Other,
}

/// What the inbound loop does after one event.
#[derive(Debug)]
pub enum InboundStep {
    /// Keep reading frames.
    Continue,
    /// The exchange is over, with this result.
    Finish(Result<String, AppError>),
}

impl StreamSession {
    pub open spec fn wf(&self) -> bool {
        self.sample_rate > 0
    }

    /// Opens an exchange at the negotiated sample rate: nothing appended,
    /// empty transcript.
    pub fn new(sample_rate: u32) -> (r: StreamSession)
        requires
            sample_rate > 0,
        ensures
            r.wf(),
            r.sample_rate == sample_rate,
            r.total_samples == 0,
            r.transcript@.len() == 0,
    {
        StreamSession { sample_rate, total_samples: 0, transcript: String::new() }
    }

    /// Takes one chunk from the stream: an empty chunk is skipped and
    /// nothing is sent; a non-empty chunk is counted and becomes one
    /// append-audio frame carrying its base64-encoded little-endian bytes.
    pub fn append_chunk(&mut self, chunk: &Vec<i16>) -> (r: Option<String>)
        requires
            old(self).wf(),
            old(self).total_samples + chunk@.len() <= u64::MAX,
        ensures
            final(self).wf(),
            final(self).sample_rate == old(self).sample_rate,
            final(self).transcript == old(self).transcript,
            chunk@.len() == 0 ==> r is None && *final(self) == *old(self),
            chunk@.len() > 0 ==> final(self).total_samples == old(self).total_samples
                + chunk@.len() && (r matches Some(f) && f@ == append_frame_spec(
                b64_of(le_bytes_of(chunk@)),
            )),
    {
        if chunk.len() == 0 {
            return None;
        }
        self.total_samples = self.total_samples + chunk.len() as u64;
        let payload = base64_encode(&samples_to_le_bytes(chunk));
        Some(append_frame(payload.as_str()))
    }

    /// End-of-audio validation and finalisation. With no samples appended
    /// the exchange fails empty; with less than 200 ms of audio it fails as
    /// too short, and in both cases no frame is produced. Otherwise exactly
    /// the commit frame and the response-request frame come back, to be sent
    /// in that order with nothing after them.
    pub fn finalize_frames(&self) -> (r: Result<(String, String), AppError>)
        requires
            self.wf(),
        ensures
            self.total_samples == 0 ==> r matches Err(AppError::AudioEmpty),
            self.total_samples > 0 && self.total_samples * 1000 < 200 * self.sample_rate ==> (
            r matches Err(AppError::Validation(m)) && m@ == too_short_message_spec(
                self.total_samples as int,
                self.sample_rate as int,
            )),
            self.total_samples * 1000 >= 200 * self.sample_rate ==> (r matches Ok(p) && p.0@
                == commit_frame_spec() && p.1@ == response_frame_spec()),
    {
        if self.total_samples == 0 {
            return Err(AppError::AudioEmpty);
        }
        let total: u128 = self.total_samples as u128;
        let rate: u128 = self.sample_rate as u128;
        if total * 1000 < 200 * rate {
            let tenths128: u128 = (total * 10000 + rate / 2) / rate;
            proof {
                assert(total * 10000 + rate / 2 < 2001 * rate) by (nonlinear_arith)
                    requires
                        total * 1000 < 200 * rate,
                        rate >= 1,
                ;
                assert(tenths128 < 2001) by (nonlinear_arith)
                    requires
                        tenths128 as int == (total as int * 10000 + (rate as int) / 2) / (
                        rate as int),
                        total as int * 10000 + (rate as int) / 2 < 2001 * (rate as int),
                        rate as int >= 1,
                ;
            }
            let tenths: u64 = tenths128 as u64;
            let msg = String::from_str("Recording too short (only ").concat(
                u64_to_dec(tenths / 10).as_str(),
            ).concat(".").concat(u64_to_dec(tenths % 10).as_str()).concat(
                " ms). Please speak a bit longer.",
            );
            return Err(AppError::Validation(msg));
        }
        Ok((commit_frame(), response_frame()))
    }

    /// Reacts to one inbound event. A delta appends its fragment, in arrival
    /// order; an unrecognized event changes nothing; a completion ends the
    /// exchange — successfully exactly when the transcript is not blank,
    /// else with the no-transcript error; a remote error ends the exchange
    /// with that message, discarding any prior fragments. Each call takes
    /// exactly one step of `run_inbound_spec`.
    pub fn on_inbound(&mut self, ev: InboundEvent) -> (r: InboundStep)
        ensures
            final(self).sample_rate == old(self).sample_rate,
            final(self).total_samples == old(self).total_samples,
            ev matches InboundEvent::Delta(d) ==> final(self).transcript@ == old(self).transcript@
                + d@ && r is Continue,
            ev is Completed ==> final(self).transcript == old(self).transcript && if is_blank(
                old(self).transcript@,
            ) {
                r matches InboundStep::Finish(res) && (res matches Err(AppError::Realtime(m)) && m@
                    == "No transcript received from realtime endpoint"@)
            } else {
                r matches InboundStep::Finish(res) && (res matches Ok(t) && t@ == old(
                    self,
                ).transcript@)
            },
            ev matches InboundEvent::RemoteError(m) ==> final(self).transcript == old(
                self,
            ).transcript && (r matches InboundStep::Finish(res) && res == Err::<String, AppError>(
                AppError::Realtime(m),
            )),
            ev is Other ==> final(self).transcript == old(self).transcript && r is Continue,
            run_inbound_spec(old(self).transcript@, seq![ev]) == (match r {
                InboundStep::Continue => InboundRun::StillOpen(final(self).transcript@),
                InboundStep::Finish(res) => match res {
                    Result::Ok(t) => InboundRun::Success(t@),
                    Result::Err(_) => if ev is Completed {
                        InboundRun::NoTranscript
                    } else {
                        InboundRun::Aborted(remote_message(ev))
                    },
                },
            }),
    {
        proof {
            assert(seq![ev].drop_first() =~= Seq::<InboundEvent>::empty());
            assert(run_inbound_spec(self.transcript@, Seq::<InboundEvent>::empty())
                == InboundRun::StillOpen(self.transcript@));
        }
        match ev {
            InboundEvent::Delta(d) => {
                self.transcript.append(d.as_str());
                proof {
                    assert(run_inbound_spec(self.transcript@, Seq::<InboundEvent>::empty())
                        == InboundRun::StillOpen(self.transcript@));
                }
                InboundStep::Continue
            },
            InboundEvent::Completed => {
                if str_is_blank(self.transcript.as_str()) {
                    InboundStep::Finish(
                        Err(
                            AppError::Realtime(
                                String::from_str("No transcript received from realtime endpoint"),
                            ),
                        ),
                    )
                } else {
                    InboundStep::Finish(Ok(self.transcript.clone()))
                }
            },
            InboundEvent::RemoteError(m) => InboundStep::Finish(Err(AppError::Realtime(m))),
            InboundEvent::Other => InboundStep::Continue,
        }
    }
}

/// The error for a close frame: the provided reason, or a generic message
/// when the frame carries none. The same generic message stands when the
/// socket ends without any close frame before completion.
pub fn close_error(reason: Option<String>) -> (r: AppError)
    ensures
        r matches AppError::Realtime(m) && m@ == match reason {
            Option::Some(s) => s@,
            Option::None => "connection closed"@,
        },
{
    match reason {
        Option::Some(s) => AppError::Realtime(s),
        Option::None => AppError::Realtime(String::from_str("connection closed")),
    }
}

/// The three string fields the client reads from one inbound frame body:
/// its `type`, its `delta` and its `error.message`, each where present —
/// or nothing, when the body is not valid JSON.
pub uninterp spec fn event_fields_of(body: Seq<char>) -> Option<
    (Option<Seq<char>>, Option<Seq<char>>, Option<Seq<char>>),
>;

/// The views of optionally-present text.
pub open spec fn view_opt(o: Option<String>) -> Option<Seq<char>> {
    match o {
        Option::Some(s) => Option::Some(s@),
        Option::None => Option::None,
    }
}

/// Relies on serde_json: `from_str` parses the frame body into a `Value`
/// (failing exactly on invalid JSON, with serde_json's own message),
/// `Value::get` looks an object key up, and `Value::as_str` gives a string
/// value's text. The fields picked out are `type`, `delta` and
/// `error.message`; the whole result is a function of the body text alone.
#[verifier::external_body]
fn parse_event_fields(body: &str) -> (r: Result<
    (Option<String>, Option<String>, Option<String>),
    String,
>)
    ensures
        (r is Ok) == (event_fields_of(body@) is Some),
        r matches Ok(f) ==> event_fields_of(body@) == Option::Some(
            (view_opt(f.0), view_opt(f.1), view_opt(f.2)),
        ),
{
    let v: serde_json::Value = match serde_json::from_str(body) {
        Ok(v) => v,
        Err(e) => return Err(e.to_string()),
    };
    let t = v.get("type").and_then(|x| x.as_str()).map(|s| s.to_string());
    let d = v.get("delta").and_then(|x| x.as_str()).map(|s| s.to_string());
    let e = v.get("error").and_then(|x| x.get("message")).and_then(|x| x.as_str()).map(
        |s| s.to_string(),
    );
    Ok((t, d, e))
}

/// How the fields of one frame body classify into an event: the `type`
/// field decides; a delta without its fragment is ignored; an error without
/// a message reads "unknown error"; anything unrecognized is ignored.
pub open spec fn event_matches(
    ev: InboundEvent,
    fields: (Option<Seq<char>>, Option<Seq<char>>, Option<Seq<char>>),
) -> bool {
    match fields.0 {
        Option::None => ev is Other,
        Option::Some(t) => {
            if t == "response.output_text.delta"@ {
                match fields.1 {
                    Option::Some(d) => ev matches InboundEvent::Delta(x) && x@ == d,
                    Option::None => ev is Other,
                }
            } else if t == "response.completed"@ {
                ev is Completed
            } else if t == "error"@ {
                match fields.2 {
                    Option::Some(m) => ev matches InboundEvent::RemoteError(x) && x@ == m,
                    Option::None => ev matches InboundEvent::RemoteError(x) && x@
                        == "unknown error"@,
                }
            } else {
                ev is Other
            }
        },
    }
}

/// Decodes one inbound frame body. A body that is not valid JSON aborts the
/// exchange with the parser's message as a realtime error; every valid body
/// classifies by its `type` field as `event_matches` says.
pub fn parse_event(body: &str) -> (r: Result<InboundEvent, AppError>)
    ensures
        event_fields_of(body@) is None <==> r matches Err(AppError::Realtime(_)),
        event_fields_of(body@) matches Some(fields) ==> (r matches Ok(ev) && event_matches(
            ev,
            fields,
        )),
{
    proof {
        reveal_strlit("response.output_text.delta");
        reveal_strlit("response.completed");
        reveal_strlit("error");
    }
    match parse_event_fields(body) {
        Result::Err(m) => Err(AppError::Realtime(m)),
        Result::Ok((t, d, e)) => match t {
            Option::None => Ok(InboundEvent::Other),
            Option::Some(ty) => {
                if str_eq(ty.as_str(), "response.output_text.delta") {
                    match d {
                        Option::Some(frag) => Ok(InboundEvent::Delta(frag)),
                        Option::None => Ok(InboundEvent::Other),
                    }
                } else if str_eq(ty.as_str(), "response.completed") {
                    Ok(InboundEvent::Completed)
                } else if str_eq(ty.as_str(), "error") {
                    match e {
                        Option::Some(m) => Ok(InboundEvent::RemoteError(m)),
                        Option::None => Ok(
                            InboundEvent::RemoteError(String::from_str("unknown error")),
                        ),
                    }
                } else {
                    Ok(InboundEvent::Other)
                }
            },
        },
    }
}

/// The delay before retry number `attempt + 1`, after failed attempt
/// `attempt`: 400 ms doubled for each failure before it.
pub open spec fn backoff_spec(attempt: int) -> int
    recommends
        attempt >= 1,
{
    400 * pow2((attempt - 1) as nat) as int
}

/// Each retry waits exactly twice as long as the retry before it.
pub proof fn lemma_backoff_doubles(attempt: int)
    requires
        attempt >= 1,
    ensures
        backoff_spec(attempt + 1) == 2 * backoff_spec(attempt),
{
    lemma_pow2_unfold(attempt as nat);
}

/// Retry delays strictly increase with the attempt number.
pub proof fn lemma_backoff_strictly_increases(earlier: int, later: int)
    requires
        1 <= earlier < later,
    ensures
        backoff_spec(earlier) < backoff_spec(later),
    decreases later - earlier,
{
    vstd::arithmetic::power2::lemma_pow2_pos((earlier - 1) as nat);
    lemma_backoff_doubles(earlier);
    if earlier + 1 < later {
        lemma_backoff_strictly_increases(earlier + 1, later);
    }
}

/// The connection lifecycle: trying attempt number `attempt`, connected, or
/// given up with the error to surface.
#[derive(Debug)]
pub enum ConnectState {
    Connecting { attempt: usize },
    Connected,
    Failed { error: AppError },
}

impl ConnectState {
    /// A fresh connection lifecycle, about to make attempt 1.
    pub fn begin() -> (r: ConnectState)
        ensures
            r == (ConnectState::Connecting { attempt: 1usize }),
    {
        ConnectState::Connecting { attempt: 1 }
    }

    /// Feeds in the result of the attempt under way. Success connects. A
    /// failure before the attempt cap schedules the next attempt and says
    /// how long to sleep first — 400 ms after the first failure, doubling
    /// after each further one. A failure at the cap gives up, surfacing the
    /// last underlying failure as the connection error. Each call takes
    /// exactly one step of `run_connect_spec`.
    pub fn on_connect_result(&mut self, outcome: Result<(), String>) -> (delay: Option<u64>)
        requires
            *old(self) matches ConnectState::Connecting { attempt } && 1 <= attempt
                <= MAX_CONNECT_ATTEMPTS,
        ensures
            outcome is Ok ==> *final(self) is Connected && delay is None,
            *old(self) matches ConnectState::Connecting { attempt } && outcome matches Err(m) ==> {
                if attempt < MAX_CONNECT_ATTEMPTS {
                    *final(self) == (ConnectState::Connecting { attempt: (attempt + 1) as usize })
                        && delay == Some(backoff_spec(attempt as int) as u64)
                } else {
                    (*final(self) matches ConnectState::Failed { error } && (
                    error matches AppError::Realtime(em) && em == m)) && delay is None
                }
            },
            *old(self) matches ConnectState::Connecting { attempt } ==> run_connect_spec(
                attempt as int,
                seq![outcome],
            ) == (match *final(self) {
                ConnectState::Connected => ConnectRun::Reached {
                    attempts: attempt as int,
                    delays: Seq::empty(),
                },
                ConnectState::Connecting { attempt: next } => ConnectRun::StillConnecting {
                    next_attempt: next as int,
                    delays: seq![backoff_spec(attempt as int)],
                },
                ConnectState::Failed { .. } => ConnectRun::GaveUp {
                    message: attempt_error(outcome),
                    delays: Seq::empty(),
                },
            }),
    {
        let attempt: usize = match *self {
            ConnectState::Connecting { attempt } => attempt,
            _ => 1,
        };
        proof {
            assert(seq![outcome].drop_first() =~= Seq::<Result<(), String>>::empty());
            assert(run_connect_spec(attempt as int + 1, Seq::<Result<(), String>>::empty())
                == (ConnectRun::StillConnecting {
                next_attempt: attempt as int + 1,
                delays: Seq::<int>::empty(),
            }));
            assert(seq![backoff_spec(attempt as int)] + Seq::<int>::empty() =~= seq![
                backoff_spec(attempt as int),
            ]);
        }
        match outcome {
            Result::Ok(()) => {
                *self = ConnectState::Connected;
                None
            },
            Result::Err(m) => {
                if attempt < MAX_CONNECT_ATTEMPTS {
                    let shift: u64 = (attempt - 1) as u64;
                    let delay: u64 = 400u64 << shift;
                    proof {
                        lemma2_to64();
                        if shift < 3 {
                            lemma_pow2_strictly_increases(shift as nat, 3);
                        }
                        lemma_u64_shl_is_mul(400u64, shift);
                    }
                    *self = ConnectState::Connecting { attempt: attempt + 1 };
                    Some(delay)
                } else {
                    *self = ConnectState::Failed { error: AppError::Realtime(m) };
                    None
                }
            },
        }
    }
}

/// How a run of connection attempts ends.
pub enum ConnectRun {
    /// The given outcomes ran out before success or the cap: the attempt
    /// that would come next, and the delays slept so far.
    StillConnecting { next_attempt: int, delays: Seq<int> },
    /// Connected after `attempts` attempts, sleeping `delays` between them.
    Reached { attempts: int, delays: Seq<int> },
    /// Every allowed attempt failed: the last failure's message, and the
    /// delays slept between the attempts.
    GaveUp { message: Seq<char>, delays: Seq<int> },
}

/// The message a failed attempt carries.
pub open spec fn attempt_error(outcome: Result<(), String>) -> Seq<char> {
    match outcome {
        Result::Err(m) => m@,
        Result::Ok(_) => Seq::empty(),
    }
}

/// The same run with one more delay slept before it.
pub open spec fn after_delay(d: int, run: ConnectRun) -> ConnectRun {
    match run {
        ConnectRun::StillConnecting { next_attempt, delays } => ConnectRun::StillConnecting {
            next_attempt,
            delays: seq![d] + delays,
        },
        ConnectRun::Reached { attempts, delays } => ConnectRun::Reached {
            attempts,
            delays: seq![d] + delays,
        },
        ConnectRun::GaveUp { message, delays } => ConnectRun::GaveUp {
            message,
            delays: seq![d] + delays,
        },
    }
}

/// The whole connection phase, modelled on a sequence of attempt outcomes,
/// starting at attempt number `attempt`: success connects at once; a failure
/// before the cap sleeps the backoff delay and tries again; a failure at the
/// cap gives up with that failure's message. One step of this model is
/// exactly what `ConnectState::on_connect_result` ensures.
pub open spec fn run_connect_spec(attempt: int, outcomes: Seq<Result<(), String>>) -> ConnectRun
    decreases outcomes.len(),
{
    if outcomes.len() == 0 {
        ConnectRun::StillConnecting { next_attempt: attempt, delays: Seq::empty() }
    } else {
        match outcomes[0] {
            Result::Ok(_) => ConnectRun::Reached { attempts: attempt, delays: Seq::empty() },
            Result::Err(m) => if attempt < MAX_CONNECT_ATTEMPTS {
                after_delay(
                    backoff_spec(attempt),
                    run_connect_spec(attempt + 1, outcomes.drop_first()),
                )
            } else {
                ConnectRun::GaveUp { message: m@, delays: Seq::empty() }
            },
        }
    }
}

proof fn lemma_connect_reaches_from(attempt: int, outcomes: Seq<Result<(), String>>, k: int)
    requires
        1 <= attempt,
        0 <= k,
        attempt + k <= MAX_CONNECT_ATTEMPTS,
        k < outcomes.len(),
        outcomes[k] is Ok,
        forall|i: int| 0 <= i < k ==> outcomes[i] is Err,
    ensures
        run_connect_spec(attempt, outcomes) == (ConnectRun::Reached {
            attempts: attempt + k,
            delays: Seq::new(k as nat, |i: int| backoff_spec(attempt + i)),
        }),
    decreases k,
{
    if k == 0 {
        assert(Seq::new(0, |i: int| backoff_spec(attempt + i)) =~= Seq::<int>::empty());
    } else {
        let rest = outcomes.drop_first();
        assert(outcomes[0] is Err);
        assert(rest[k - 1] == outcomes[k]);
        assert(forall|i: int| 0 <= i < k - 1 ==> rest[i] == outcomes[i + 1] && outcomes[i + 1]
            is Err);
        lemma_connect_reaches_from(attempt + 1, rest, k - 1);
        assert(seq![backoff_spec(attempt)] + Seq::new(
            (k - 1) as nat,
            |i: int| backoff_spec(attempt + 1 + i),
        ) =~= Seq::new(k as nat, |i: int| backoff_spec(attempt + i)));
    }
}

/// The client connects on the first successful attempt: with the first
/// success at attempt `k + 1` (within the cap of four), it makes exactly
/// `k + 1` connection attempts, and sleeps exactly `k` delays between them —
/// 400 ms first, each one twice the one before, strictly increasing.
pub proof fn lemma_connect_reaches(outcomes: Seq<Result<(), String>>, k: int)
    requires
        0 <= k < MAX_CONNECT_ATTEMPTS,
        k < outcomes.len(),
        outcomes[k] is Ok,
        forall|i: int| 0 <= i < k ==> outcomes[i] is Err,
    ensures
        run_connect_spec(1, outcomes) matches ConnectRun::Reached { attempts, delays }
            && attempts == k + 1 && delays.len() == k && delays == Seq::new(
            k as nat,
            |i: int| backoff_spec(i + 1),
        ) && (forall|i: int| 0 <= i < k - 1 ==> #[trigger] delays[i + 1] == 2 * delays[i]),
{
    lemma_connect_reaches_from(1, outcomes, k);
    let delays = Seq::new(k as nat, |i: int| backoff_spec(i + 1));
    assert(Seq::new(k as nat, |i: int| backoff_spec(1 + i)) =~= delays);
    assert forall|i: int| 0 <= i < k - 1 implies #[trigger] delays[i + 1] == 2 * delays[i] by {
        lemma_backoff_doubles(i + 1);
    }
}

proof fn lemma_connect_gives_up_from(attempt: int, outcomes: Seq<Result<(), String>>)
    requires
        1 <= attempt <= MAX_CONNECT_ATTEMPTS,
        outcomes.len() >= MAX_CONNECT_ATTEMPTS - attempt + 1,
        forall|i: int| 0 <= i <= MAX_CONNECT_ATTEMPTS - attempt ==> outcomes[i] is Err,
    ensures
        run_connect_spec(attempt, outcomes) == (ConnectRun::GaveUp {
            message: attempt_error(outcomes[MAX_CONNECT_ATTEMPTS - attempt]),
            delays: Seq::new(
                (MAX_CONNECT_ATTEMPTS - attempt) as nat,
                |i: int| backoff_spec(attempt + i),
            ),
        }),
    decreases MAX_CONNECT_ATTEMPTS - attempt,
{
    let left = MAX_CONNECT_ATTEMPTS - attempt;
    if attempt == MAX_CONNECT_ATTEMPTS {
        assert(outcomes[0] is Err);
        assert(Seq::new(0, |i: int| backoff_spec(attempt + i)) =~= Seq::<int>::empty());
    } else {
        let rest = outcomes.drop_first();
        assert(outcomes[0] is Err);
        assert(forall|i: int| 0 <= i <= left - 1 ==> rest[i] == outcomes[i + 1] && outcomes[i + 1]
            is Err);
        lemma_connect_gives_up_from(attempt + 1, rest);
        assert(rest[left - 1] == outcomes[left]);
        assert(seq![backoff_spec(attempt)] + Seq::new(
            (left - 1) as nat,
            |i: int| backoff_spec(attempt + 1 + i),
        ) =~= Seq::new(left as nat, |i: int| backoff_spec(attempt + i)));
    }
}

/// When the first four attempts all fail, the client gives up after exactly
/// four attempts, sleeping three doubling delays along the way, and surfaces
/// the fourth failure's message.
pub proof fn lemma_connect_gives_up(outcomes: Seq<Result<(), String>>)
    requires
        outcomes.len() >= MAX_CONNECT_ATTEMPTS,
        forall|i: int| 0 <= i < MAX_CONNECT_ATTEMPTS ==> outcomes[i] is Err,
    ensures
        run_connect_spec(1, outcomes) == (ConnectRun::GaveUp {
            message: attempt_error(outcomes[MAX_CONNECT_ATTEMPTS - 1]),
            delays: Seq::new(
                (MAX_CONNECT_ATTEMPTS - 1) as nat,
                |i: int| backoff_spec(i + 1),
            ),
        }),
{
    lemma_connect_gives_up_from(1, outcomes);
    assert(Seq::new((MAX_CONNECT_ATTEMPTS - 1) as nat, |i: int| backoff_spec(1 + i)) =~= Seq::new(
        (MAX_CONNECT_ATTEMPTS - 1) as nat,
        |i: int| backoff_spec(i + 1),
    ));
}

/// The whole inbound phase, modelled on an event sequence: starting from
/// `transcript`, events apply in order — a delta appends its fragment, an
/// unrecognized event changes nothing — until a completion or an error ends
/// the exchange; whatever follows the ending event is never read. One step
/// of this model is exactly what `StreamSession::on_inbound` ensures.
pub open spec fn run_inbound_spec(transcript: Seq<char>, events: Seq<InboundEvent>) -> InboundRun
    decreases events.len(),
{
    if events.len() == 0 {
        InboundRun::StillOpen(transcript)
    } else {
        match events[0] {
            InboundEvent::Delta(d) => run_inbound_spec(transcript + d@, events.drop_first()),
            InboundEvent::Completed => if is_blank(transcript) {
                InboundRun::NoTranscript
            } else {
                InboundRun::Success(transcript)
            },
            InboundEvent::RemoteError(m) => InboundRun::Aborted(m@),
            InboundEvent::Other => run_inbound_spec(transcript, events.drop_first()),
        }
    }
}

/// How an inbound event sequence leaves the exchange.
pub enum InboundRun {
    /// No terminal event yet: the transcript so far.
    StillOpen(Seq<char>),
    /// Completed with this non-blank transcript.
    Success(Seq<char>),
    /// Completed, but the transcript was blank.
    NoTranscript,
    /// A remote error event ended the exchange with this message.
    Aborted(Seq<char>),
}

/// The delta fragments of an event sequence, in arrival order.
pub open spec fn fragments_of(events: Seq<InboundEvent>) -> Seq<Seq<char>>
    decreases events.len(),
{
    if events.len() == 0 {
        Seq::empty()
    } else {
        match events[0] {
            InboundEvent::Delta(d) => seq![d@] + fragments_of(events.drop_first()),
            _ => fragments_of(events.drop_first()),
        }
    }
}

/// The message a remote-error event carries.
pub open spec fn remote_message(ev: InboundEvent) -> Seq<char> {
    match ev {
        InboundEvent::RemoteError(m) => m@,
        _ => Seq::empty(),
    }
}

/// Delta fragments are concatenated strictly in arrival order: any run of
/// delta (and ignored) events ending in a completion succeeds with exactly
/// the initial text followed by every fragment in order — nothing reordered,
/// deduplicated or dropped — and fails as "no transcript" exactly when that
/// concatenation is blank.
pub proof fn lemma_deltas_then_completion(transcript: Seq<char>, events: Seq<InboundEvent>)
    requires
        events.len() >= 1,
        events.last() is Completed,
        forall|i: int|
            0 <= i < events.len() - 1 ==> events[i] is Delta || events[i] is Other,
    ensures
        run_inbound_spec(transcript, events) == {
            let full = transcript + fragments_of(events).flatten();
            if is_blank(full) {
                InboundRun::NoTranscript
            } else {
                InboundRun::Success(full)
            }
        },
    decreases events.len(),
{
    let rest = events.drop_first();
    if events.len() == 1 {
        assert(events[0] is Completed);
        assert(fragments_of(events) == Seq::<Seq<char>>::empty());
        assert(Seq::<Seq<char>>::empty().flatten() == Seq::<char>::empty());
        assert(transcript + Seq::<char>::empty() =~= transcript);
    } else {
        assert(rest.last() == events.last());
        assert(forall|i: int| 0 <= i < rest.len() - 1 ==> rest[i] is Delta || rest[i] is Other);
        match events[0] {
            InboundEvent::Delta(d) => {
                lemma_deltas_then_completion(transcript + d@, rest);
                assert(fragments_of(events) == seq![d@] + fragments_of(rest));
                assert((seq![d@] + fragments_of(rest)).drop_first() =~= fragments_of(rest));
                assert(fragments_of(events).flatten() == d@ + fragments_of(rest).flatten());
                assert((transcript + d@) + fragments_of(rest).flatten() =~= transcript + (d@
                    + fragments_of(rest).flatten()));
            },
            InboundEvent::Other => {
                lemma_deltas_then_completion(transcript, rest);
            },
            _ => {
                assert(events[0] is Delta || events[0] is Other);
            },
        }
    }
}

/// A remote error event aborts the exchange with exactly that event's
/// message, wherever it comes: fragments received before it are discarded,
/// never returned.
pub proof fn lemma_error_event_aborts(transcript: Seq<char>, events: Seq<InboundEvent>, k: int)
    requires
        0 <= k < events.len(),
        events[k] is RemoteError,
        forall|i: int| 0 <= i < k ==> events[i] is Delta || events[i] is Other,
    ensures
        run_inbound_spec(transcript, events) == InboundRun::Aborted(remote_message(events[k])),
    decreases k,
{
    if k == 0 {
        assert(events[0] is RemoteError);
    } else {
        let rest = events.drop_first();
        assert(events[0] is Delta || events[0] is Other);
        assert(rest[k - 1] == events[k]);
        assert(forall|i: int| 0 <= i < k - 1 ==> rest[i] is Delta || rest[i] is Other);
        match events[0] {
            InboundEvent::Delta(d) => {
                lemma_error_event_aborts(transcript + d@, rest, k - 1);
            },
            _ => {
                lemma_error_event_aborts(transcript, rest, k - 1);
            },
        }
    }
}

} // verus!
