//! One speaker's conversation with the assistant: waiting for the wake
//! word, recording an utterance until the speaker falls silent, and waiting
//! for the reply.
//!
//! Time is a count of milliseconds on a clock that the caller reads; scores
//! of the voice-activity engine are fractions of 65536.

use vstd::prelude::*;
use crate::assistant::{cleared, flushed, AssistantView, DiscordAssistant};

verus! {

/// A speaking confidence below this counts as silence: three quarters, in
/// units of 1/65536.
pub const SPEAKING_THRESHOLD: u32 = 49152;

/// Silence that ends an utterance, in milliseconds.
pub const SILENCE_WINDOW_MS: u64 = 3000;

/// An utterance with less speech than this is taken for noise, in
/// milliseconds.
pub const MIN_UTTERANCE_MS: u64 = 500;

/// The channels of an utterance: the recording is mono.
pub const UTTERANCE_CHANNELS: u16 = 1;

/// The bits of one sample of an utterance.
pub const UTTERANCE_BITS: u16 = 16;

/// The most samples that fit into one container.
pub const MAX_UTTERANCE_SAMPLES: usize = 2147483629;

/// The highest sample rate that a container's header can hold for samples
/// of two bytes.
pub const MAX_SAMPLE_RATE: u32 = 2147483647;

/// What a session is doing with the frames it receives.
#[derive(Clone, Copy, Debug, PartialEq, Eq, Structural)]
pub enum ConversationState {
    /// Frames go to the wake-word engine and are then dropped.
    Detection,
    /// Frames are scored for speech and recorded.
    Listening,
    /// Frames are dropped while the reply is composed and played.
    Responding,
}

/// What [`Session::conclude`] did.
#[derive(Debug)]
pub enum Conclusion {
    /// The utterance has not ended, or the session was not listening.
    Pending,
    /// The recording held too little speech and was thrown away.
    FalseTrigger,
    /// The utterance is complete: these samples go to the backend.
    Utterance(Vec<i16>),
}

/// What a [`Session`] is, as a mathematical value.
pub struct SessionView {
    /// The speaker's source id.
    pub ssrc: u32,
    /// The state of the conversation.
    pub state: ConversationState,
    /// When listening began.
    pub listening_since: Option<u64>,
    /// When the speaker fell silent, while the silence lasts.
    pub not_speaking_since: Option<u64>,
    /// The samples recorded for the utterance under way.
    pub utterance: Seq<i16>,
}

impl SessionView {
    /// Whether the session is in a conversation.
    pub open spec fn active(self) -> bool {
        self.state != ConversationState::Detection
    }
}

/// Whether a wake-word result is a match. A failed detection is none.
pub open spec fn is_wake(detection: Option<i32>) -> bool {
    detection matches Some(index) && index >= 0
}

/// The milliseconds from `since` to `now`, and none where the clock has not
/// advanced.
pub open spec fn elapsed(now: u64, since: u64) -> int {
    if now >= since {
        now - since
    } else {
        0
    }
}

/// The start of the current silence after one more score.
pub open spec fn silence_after(since: Option<u64>, confidence: u32, now: u64) -> Option<u64> {
    if confidence >= SPEAKING_THRESHOLD {
        None
    } else if since.is_some() {
        since
    } else {
        Some(now)
    }
}

/// Whether a listening session has been silent for the whole window.
pub open spec fn endpoint_reached(s: SessionView, now: u64) -> bool {
    &&& s.state == ConversationState::Listening
    &&& s.not_speaking_since matches Some(silent) && elapsed(now, silent) >= SILENCE_WINDOW_MS
}

/// Whether the time spent listening, less the silence at its end, is too
/// short for an utterance.
pub open spec fn false_trigger(s: SessionView, now: u64) -> bool {
    &&& s.listening_since matches Some(begun)
    &&& s.not_speaking_since matches Some(silent)
    &&& elapsed(now, begun) - elapsed(now, silent) < MIN_UTTERANCE_MS
}

/// The backend after session `s` has ended.
pub open spec fn assistant_after_disconnect(s: SessionView, a: AssistantView) -> AssistantView {
    AssistantView { respondant: cleared(a.respondant, s.ssrc), ..a }
}

/// The session that waits for the wake word again, with nothing recorded.
pub open spec fn rearmed(s: SessionView) -> SessionView {
    SessionView {
        ssrc: s.ssrc,
        state: ConversationState::Detection,
        listening_since: None,
        not_speaking_since: None,
        utterance: Seq::empty(),
    }
}

/// The session that has just begun to listen at `now`.
pub open spec fn listening_from(s: SessionView, now: u64) -> SessionView {
    SessionView {
        ssrc: s.ssrc,
        state: ConversationState::Listening,
        listening_since: Some(now),
        not_speaking_since: None,
        utterance: Seq::empty(),
    }
}

/// Whether a wake-word result starts a conversation, given who owns the
/// attention.
pub open spec fn wake_accepted(s: SessionView, owner: Option<u32>, detection: Option<i32>) -> bool {
    &&& s.state == ConversationState::Detection
    &&& is_wake(detection)
    &&& (owner.is_none() || owner == Some(s.ssrc))
}

/// The session after a wake-word result.
pub open spec fn after_wake(s: SessionView, owner: Option<u32>, detection: Option<i32>, now: u64) -> SessionView {
    if wake_accepted(s, owner, detection) {
        listening_from(s, now)
    } else {
        s
    }
}

/// The backend after a wake-word result of session `s`: where the
/// conversation starts, the attention is the session's and the transcript
/// is fresh.
pub open spec fn assistant_after_wake(s: SessionView, a: AssistantView, detection: Option<i32>) -> AssistantView {
    if wake_accepted(s, a.respondant, detection) {
        flushed(AssistantView { respondant: Some(s.ssrc), ..a })
    } else {
        a
    }
}

/// Whether a frame with this score is recorded.
pub open spec fn frame_recorded(s: SessionView, confidence: Option<u32>) -> bool {
    s.state == ConversationState::Listening && confidence.is_some()
}

/// The session after one scored frame.
pub open spec fn after_voice(s: SessionView, frame: Seq<i16>, confidence: Option<u32>, now: u64) -> SessionView {
    if frame_recorded(s, confidence) {
        SessionView {
            not_speaking_since: silence_after(s.not_speaking_since, confidence.unwrap(), now),
            utterance: s.utterance + frame,
            ..s
        }
    } else {
        s
    }
}

/// The session after the end of its utterance was looked for.
pub open spec fn after_conclude(s: SessionView, now: u64) -> SessionView {
    if !endpoint_reached(s, now) {
        s
    } else if false_trigger(s, now) {
        rearmed(s)
    } else {
        SessionView { state: ConversationState::Responding, utterance: Seq::empty(), ..s }
    }
}

/// The backend after session `s` looked for the end of its utterance.
pub open spec fn assistant_after_conclude(s: SessionView, a: AssistantView, now: u64) -> AssistantView {
    if !endpoint_reached(s, now) {
        a
    } else if false_trigger(s, now) {
        AssistantView { respondant: cleared(a.respondant, s.ssrc), ..a }
    } else {
        AssistantView { is_responding: true, ..a }
    }
}

/// Whether a reply is still under way: the backend composes it, or its
/// playback has not finished.
pub open spec fn reply_under_way(a: AssistantView, playback_finished: bool) -> bool {
    a.is_responding || !playback_finished
}

/// The session after it asked whether the reply is over.
pub open spec fn after_poll(s: SessionView, a: AssistantView, playback_finished: bool, now: u64) -> SessionView {
    let owner = a.respondant;
    if s.state != ConversationState::Responding || reply_under_way(a, playback_finished) {
        s
    } else if owner == Some(s.ssrc) {
        listening_from(s, now)
    } else {
        SessionView { listening_since: Some(now), ..rearmed(s) }
    }
}

/// The bytes of the WAV container that the `wav` crate writes for 16-bit
/// samples under a header with these channels, sample rate and bits per
/// sample.
pub uninterp spec fn wav_container(samples: Seq<i16>, channels: u16, sample_rate: u32, bits: u16) -> Seq<u8>;

/// Whether an utterance at this sample rate fits into a container: the
/// header can hold its byte rate, and the whole file's length fits into the
/// 32 bits that the container has for it.
pub open spec fn packable(samples: Seq<i16>, sample_rate: u32) -> bool {
    samples.len() <= MAX_UTTERANCE_SAMPLES && sample_rate <= MAX_SAMPLE_RATE
}

/// Writes 16-bit samples into a WAV container in memory.
///
/// Calls `wav::Header::new` for PCM data and `wav::write` with
/// `BitDepth::Sixteen` into a `std::io::Cursor`. The contract leaves out
/// the headers whose byte rate or block size the crate cannot compute, and
/// the recordings that are too long for a container's 32-bit lengths (36
/// bytes of the file besides the samples are counted in them). Of the rest
/// it claims that the write succeeds, the cursor being in memory, and that
/// the bytes depend on the arguments alone, under the name
/// [`wav_container`].
#[verifier::external_body]
fn write_wav(samples: Vec<i16>, channels: u16, sample_rate: u32, bits: u16) -> (container: Option<Vec<u8>>)
    requires
        (bits / 8) * channels <= u16::MAX,
        (bits / 8) * channels * sample_rate <= u32::MAX,
        2 * samples@.len() + 36 <= u32::MAX,
    ensures
        container.is_some(),
        container.unwrap()@ == wav_container(samples@, channels, sample_rate, bits),
{
    let mut out = std::io::Cursor::new(Vec::new());
    let header = wav::Header::new(wav::WAV_FORMAT_PCM, channels, sample_rate, bits);
    match wav::write(header, &wav::BitDepth::Sixteen(samples), &mut out) {
        Ok(()) => Some(out.into_inner()),
        Err(_) => None,
    }
}

/// Packs an utterance for the backend: the mono recording at `sample_rate`
/// as a WAV container. An utterance that does not fit into a container is
/// not packed.
pub fn package_utterance(samples: Vec<i16>, sample_rate: u32) -> (container: Option<Vec<u8>>)
    ensures
        container.is_some() == packable(samples@, sample_rate),
        container matches Some(bytes) ==> bytes@ == wav_container(
            samples@,
            UTTERANCE_CHANNELS,
            sample_rate,
            UTTERANCE_BITS,
        ),
{
    if samples.len() > MAX_UTTERANCE_SAMPLES || sample_rate > MAX_SAMPLE_RATE {
        return None;
    }
    write_wav(samples, UTTERANCE_CHANNELS, sample_rate, UTTERANCE_BITS)
}

/// One speaker's side of the conversation.
pub struct Session {
    ssrc: u32,
    conversation_state: ConversationState,
    time_listening: Option<u64>,
    time_not_speaking: Option<u64>,
    transcription_audio: Vec<i16>,
}

impl View for Session {
    type V = SessionView;

    closed spec fn view(&self) -> SessionView {
        SessionView {
            ssrc: self.ssrc,
            state: self.conversation_state,
            listening_since: self.time_listening,
            not_speaking_since: self.time_not_speaking,
            utterance: self.transcription_audio@,
        }
    }
}

/// The milliseconds from `since` to `now`, none where the clock has not
/// advanced.
fn millis_between(now: u64, since: u64) -> (span: u64)
    ensures
        span == elapsed(now, since),
{
    if now >= since {
        now - since
    } else {
        0
    }
}

impl Session {
    /// A session for the speaker `ssrc` that waits for the wake word.
    pub fn new(ssrc: u32) -> (session: Session)
        ensures
            session@ == (SessionView {
                ssrc,
                state: ConversationState::Detection,
                listening_since: None,
                not_speaking_since: None,
                utterance: Seq::empty(),
            }),
    {
        Session {
            ssrc,
            conversation_state: ConversationState::Detection,
            time_listening: None,
            time_not_speaking: None,
            transcription_audio: Vec::new(),
        }
    }

    /// The speaker's source id.
    pub fn ssrc(&self) -> (ssrc: u32)
        ensures
            ssrc == self@.ssrc,
    {
        self.ssrc
    }

    /// The state of the conversation.
    pub fn state(&self) -> (state: ConversationState)
        ensures
            state == self@.state,
    {
        self.conversation_state
    }

    /// The number of samples recorded for the utterance under way.
    pub fn recorded(&self) -> (count: usize)
        ensures
            count == self@.utterance.len(),
    {
        self.transcription_audio.len()
    }

    /// Whether a wake-word result asks for the assistant's attention: the
    /// session is waiting for the wake word and the result is a match.
    pub fn heard_wake_word(&self, detection: Option<i32>) -> (heard: bool)
        ensures
            heard == (self@.state == ConversationState::Detection && is_wake(detection)),
    {
        match self.conversation_state {
            ConversationState::Detection => match detection {
                Some(index) => index >= 0,
                None => false,
            },
            _ => false,
        }
    }

    /// Handles a wake-word result. On a match the session tries to take the
    /// attention; where it gets it, the backend is flushed and the session
    /// listens from `now` with nothing recorded. The answer is `true`
    /// exactly when the conversation started.
    pub fn on_wake(&mut self, assistant: &mut DiscordAssistant, detection: Option<i32>, now: u64) -> (started: bool)
        ensures
            started == wake_accepted(old(self)@, old(assistant)@.respondant, detection),
            final(self)@ == after_wake(old(self)@, old(assistant)@.respondant, detection, now),
            final(assistant)@ == assistant_after_wake(old(self)@, old(assistant)@, detection),
    {
        if !self.heard_wake_word(detection) {
            return false;
        }
        if !assistant.try_grab_attention(self.ssrc) {
            return false;
        }
        assistant.flush();
        self.conversation_state = ConversationState::Listening;
        self.time_listening = Some(now);
        self.time_not_speaking = None;
        self.transcription_audio.clear();
        true
    }

    /// Handles one frame and its speaking confidence while listening: the
    /// frame is moved to the end of the recording and the silence is
    /// tracked. A frame that the engine could not score is skipped, and so
    /// is every frame outside `Listening`. The answer tells whether the
    /// silence has lasted the whole window, so that the utterance can be
    /// concluded.
    pub fn on_voice(&mut self, frame: &mut Vec<i16>, confidence: Option<u32>, now: u64) -> (ended: bool)
        ensures
            final(self)@ == after_voice(old(self)@, old(frame)@, confidence, now),
            final(frame)@ == if frame_recorded(old(self)@, confidence) {
                Seq::empty()
            } else {
                old(frame)@
            },
            ended == endpoint_reached(final(self)@, now),
    {
        match self.conversation_state {
            ConversationState::Listening => {},
            _ => {
                return false;
            },
        }
        let score: u32 = match confidence {
            Some(score) => score,
            None => {
                return self.silence_exceeded(now);
            },
        };
        self.transcription_audio.append(frame);
        if score < SPEAKING_THRESHOLD {
            if self.time_not_speaking.is_none() {
                self.time_not_speaking = Some(now);
            }
        } else {
            self.time_not_speaking = None;
        }
        self.silence_exceeded(now)
    }

    /// Whether the session listens and has heard nothing but silence for
    /// the whole window.
    pub fn silence_exceeded(&self, now: u64) -> (ended: bool)
        ensures
            ended == endpoint_reached(self@, now),
    {
        match self.conversation_state {
            ConversationState::Listening => match self.time_not_speaking {
                Some(silent) => millis_between(now, silent) >= SILENCE_WINDOW_MS,
                None => false,
            },
            _ => false,
        }
    }

    /// Ends the utterance once the silence has lasted the whole window.
    /// Too little speech before the silence is a false trigger: the
    /// recording is dropped, the attention given back and the session waits
    /// for the wake word again. Otherwise the recording is handed out, the
    /// backend is marked as responding and the session waits for the reply
    /// with nothing recorded. Before the window is over nothing changes.
    pub fn conclude(&mut self, assistant: &mut DiscordAssistant, now: u64) -> (conclusion: Conclusion)
        ensures
            final(self)@ == after_conclude(old(self)@, now),
            final(assistant)@ == assistant_after_conclude(old(self)@, old(assistant)@, now),
            match conclusion {
                Conclusion::Pending => !endpoint_reached(old(self)@, now),
                Conclusion::FalseTrigger => endpoint_reached(old(self)@, now) && false_trigger(
                    old(self)@,
                    now,
                ),
                Conclusion::Utterance(samples) => {
                    &&& endpoint_reached(old(self)@, now)
                    &&& !false_trigger(old(self)@, now)
                    &&& samples@ == old(self)@.utterance
                },
            },
    {
        if !self.silence_exceeded(now) {
            return Conclusion::Pending;
        }
        if self.too_short(now) {
            self.conversation_state = ConversationState::Detection;
            self.transcription_audio.clear();
            self.time_not_speaking = None;
            self.time_listening = None;
            assistant.try_clear_attention(self.ssrc);
            return Conclusion::FalseTrigger;
        }
        self.conversation_state = ConversationState::Responding;
        assistant.set_responding();
        let mut utterance: Vec<i16> = Vec::new();
        utterance.append(&mut self.transcription_audio);
        Conclusion::Utterance(utterance)
    }

    /// Whether listening, less the silence at its end, has been too short
    /// for an utterance.
    fn too_short(&self, now: u64) -> (short: bool)
        ensures
            short == false_trigger(self@, now),
    {
        match (self.time_listening, self.time_not_speaking) {
            (Some(begun), Some(silent)) => {
                let listening: u64 = millis_between(now, begun);
                let silence: u64 = millis_between(now, silent);
                listening < silence || listening - silence < MIN_UTTERANCE_MS
            },
            _ => false,
        }
    }

    /// Asks whether the reply is over, while responding. Once the backend
    /// is neither composing nor playing, the session listens again from
    /// `now` if it still owns the attention, and waits for the wake word if
    /// it does not. Either way nothing is recorded yet.
    pub fn poll(&mut self, assistant: &DiscordAssistant, playback_finished: bool, now: u64)
        ensures
            final(self)@ == after_poll(old(self)@, assistant@, playback_finished, now),
    {
        match self.conversation_state {
            ConversationState::Responding => {},
            _ => {
                return ;
            },
        }
        if assistant.is_responding(playback_finished) {
            return ;
        }
        self.time_not_speaking = None;
        self.time_listening = Some(now);
        self.transcription_audio.clear();
        match assistant.get_attention_id() {
            Some(id) => {
                if id == self.ssrc {
                    self.conversation_state = ConversationState::Listening;
                } else {
                    self.conversation_state = ConversationState::Detection;
                }
            },
            None => {
                self.conversation_state = ConversationState::Detection;
            },
        }
    }

    /// Ends the session when its speaker has left: whatever was recorded is
    /// dropped without being sent, and the attention is given back if this
    /// speaker held it.
    pub fn disconnect(&mut self, assistant: &mut DiscordAssistant)
        ensures
            final(self)@ == rearmed(old(self)@),
            final(assistant)@ == assistant_after_disconnect(old(self)@, old(assistant)@),
    {
        self.conversation_state = ConversationState::Detection;
        self.time_listening = None;
        self.time_not_speaking = None;
        self.transcription_audio.clear();
        assistant.try_clear_attention(self.ssrc);
    }
}

} // verus!
