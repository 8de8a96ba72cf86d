//! A model of one voice connection: the sessions of its speakers and the
//! backend that they share, and what holds of them whatever the speakers
//! do.

use vstd::prelude::*;
use crate::assistant::AssistantView;
use crate::listener::{
    after_conclude, after_poll, after_voice, after_wake, assistant_after_conclude,
    assistant_after_disconnect, assistant_after_wake, endpoint_reached, false_trigger, is_wake,
    rearmed, ConversationState, SessionView,
};

verus! {

/// What can happen to one session.
pub enum Input {
    /// A result of the wake-word engine has come while the session could
    /// reach the backend.
    Wake { detection: Option<i32>, now: u64 },
    /// A frame has come with its score from the voice-activity engine.
    Voice { frame: Seq<i16>, confidence: Option<u32>, now: u64 },
    /// The session looks for the end of its utterance.
    Conclude { now: u64 },
    /// The session asks whether the reply is over.
    Poll { playback_finished: bool, now: u64 },
    /// The speaker has left.
    Disconnect,
}

/// The session `s` after `input`, beside a backend `a`.
pub open spec fn session_after(s: SessionView, a: AssistantView, input: Input) -> SessionView {
    match input {
        Input::Wake { detection, now } => after_wake(s, a.respondant, detection, now),
        Input::Voice { frame, confidence, now } => after_voice(s, frame, confidence, now),
        Input::Conclude { now } => after_conclude(s, now),
        Input::Poll { playback_finished, now } => after_poll(s, a, playback_finished, now),
        Input::Disconnect => rearmed(s),
    }
}

/// The backend `a` after `input` has come to the session `s`.
pub open spec fn assistant_after(s: SessionView, a: AssistantView, input: Input) -> AssistantView {
    match input {
        Input::Wake { detection, now } => assistant_after_wake(s, a, detection),
        Input::Voice { frame, confidence, now } => a,
        Input::Conclude { now } => assistant_after_conclude(s, a, now),
        Input::Poll { playback_finished, now } => a,
        Input::Disconnect => assistant_after_disconnect(s, a),
    }
}

/// Whether an input is a match of the wake word.
pub open spec fn wakes(input: Input) -> bool {
    input matches Input::Wake { detection, now } && is_wake(detection)
}

/// A session after a run of inputs beside a backend that nobody else
/// touches, and that backend.
pub open spec fn session_run(s: SessionView, a: AssistantView, inputs: Seq<Input>) -> (SessionView, AssistantView)
    decreases inputs.len(),
{
    if inputs.len() == 0 {
        (s, a)
    } else {
        let (before, backend) = session_run(s, a, inputs.drop_last());
        (session_after(before, backend, inputs.last()), assistant_after(before, backend, inputs.last()))
    }
}

/// Whether a session holds a recording only while it listens.
pub open spec fn records_only_while_listening(s: SessionView) -> bool {
    s.state != ConversationState::Listening ==> s.utterance.len() == 0
}

/// A recording exists only while a session listens: whatever comes, a
/// session that waits for the wake word or for a reply has nothing
/// recorded.
pub proof fn lemma_recording_only_while_listening(s: SessionView, a: AssistantView, input: Input)
    requires
        records_only_while_listening(s),
    ensures
        records_only_while_listening(session_after(s, a, input)),
{
}

/// A session that waits for the wake word with nothing recorded stays so
/// for as long as no wake word is matched, whatever else comes.
pub proof fn lemma_no_wake_no_conversation(s: SessionView, a: AssistantView, inputs: Seq<Input>)
    requires
        s.state == ConversationState::Detection,
        s.utterance.len() == 0,
        forall|i: int| 0 <= i < inputs.len() ==> !wakes(#[trigger] inputs[i]),
    ensures
        session_run(s, a, inputs).0.state == ConversationState::Detection,
        session_run(s, a, inputs).0.utterance.len() == 0,
        session_run(s, a, inputs).0.ssrc == s.ssrc,
    decreases inputs.len(),
{
    if inputs.len() > 0 {
        lemma_no_wake_no_conversation(s, a, inputs.drop_last());
    }
}

/// A session that has listened to too little speech before the silence
/// that ends its utterance drops the recording, gives the attention back
/// and waits for the wake word again.
pub proof fn lemma_false_trigger_ends_conversation(s: SessionView, a: AssistantView, now: u64)
    requires
        endpoint_reached(s, now),
        false_trigger(s, now),
    ensures
        after_conclude(s, now).state == ConversationState::Detection,
        after_conclude(s, now).utterance.len() == 0,
        assistant_after_conclude(s, a, now).respondant != Some(s.ssrc),
        assistant_after_conclude(s, a, now).is_responding == a.is_responding,
{
}

/// A session whose utterance has ended with enough speech in it waits for
/// the reply with nothing recorded, keeps the attention that it has, and
/// has the backend marked as responding.
pub proof fn lemma_utterance_ends_in_responding(s: SessionView, a: AssistantView, now: u64)
    requires
        endpoint_reached(s, now),
        !false_trigger(s, now),
    ensures
        after_conclude(s, now).state == ConversationState::Responding,
        after_conclude(s, now).utterance.len() == 0,
        assistant_after_conclude(s, a, now).respondant == a.respondant,
        assistant_after_conclude(s, a, now).is_responding,
{
}

/// A session whose speaker leaves, in whatever state, ends with nothing
/// recorded and without the attention.
pub proof fn lemma_disconnect_frees_attention(s: SessionView, a: AssistantView)
    ensures
        session_after(s, a, Input::Disconnect).state == ConversationState::Detection,
        session_after(s, a, Input::Disconnect).utterance.len() == 0,
        assistant_after(s, a, Input::Disconnect).respondant != Some(s.ssrc),
        assistant_after(s, a, Input::Disconnect).is_responding == a.is_responding,
{
}

/// The samples that a run of scored frames adds to a recording, in order.
pub open spec fn frames_joined(frames: Seq<Seq<i16>>) -> Seq<i16>
    decreases frames.len(),
{
    if frames.len() == 0 {
        Seq::empty()
    } else {
        frames_joined(frames.drop_last()) + frames.last()
    }
}

/// A listening session after a run of frames that were all scored.
pub open spec fn after_frames(s: SessionView, frames: Seq<Seq<i16>>, scores: Seq<u32>, times: Seq<u64>) -> SessionView
    decreases frames.len(),
{
    if frames.len() == 0 {
        s
    } else {
        after_voice(
            after_frames(s, frames.drop_last(), scores.drop_last(), times.drop_last()),
            frames.last(),
            Some(scores.last()),
            times.last(),
        )
    }
}

/// While a session listens, every sample of every scored frame is
/// recorded, once and in the order of arrival: the recording grows by
/// exactly the frames' samples.
pub proof fn lemma_recording_keeps_frames(s: SessionView, frames: Seq<Seq<i16>>, scores: Seq<u32>, times: Seq<u64>)
    requires
        s.state == ConversationState::Listening,
        frames.len() == scores.len(),
        frames.len() == times.len(),
    ensures
        after_frames(s, frames, scores, times).state == ConversationState::Listening,
        after_frames(s, frames, scores, times).utterance == s.utterance + frames_joined(frames),
    decreases frames.len(),
{
    if frames.len() > 0 {
        lemma_recording_keeps_frames(s, frames.drop_last(), scores.drop_last(), times.drop_last());
    }
}

/// The sessions of one voice connection and the backend that they share.
pub struct Room {
    /// The backend.
    pub assistant: AssistantView,
    /// The sessions, one for each speaker.
    pub sessions: Seq<SessionView>,
}

/// What can happen in a room.
pub enum Step {
    /// An input comes to the session at index `who`.
    Session { who: int, input: Input },
    /// The backend has composed its reply.
    Composed,
    /// The backend ends the conversation by itself and frees the
    /// attention.
    Released,
}

/// Whether a step can be taken in a room of this many sessions.
pub open spec fn step_fits(room: Room, step: Step) -> bool {
    step matches Step::Session { who, input } ==> 0 <= who < room.sessions.len()
}

/// The room after a step.
pub open spec fn room_after(room: Room, step: Step) -> Room {
    match step {
        Step::Session { who, input } => Room {
            assistant: assistant_after(room.sessions[who], room.assistant, input),
            sessions: room.sessions.update(
                who,
                session_after(room.sessions[who], room.assistant, input),
            ),
        },
        Step::Composed => Room {
            assistant: AssistantView { is_responding: false, ..room.assistant },
            sessions: room.sessions,
        },
        Step::Released => Room {
            assistant: AssistantView { respondant: None, ..room.assistant },
            sessions: room.sessions,
        },
    }
}

/// The room after a run of steps.
pub open spec fn room_run(room: Room, steps: Seq<Step>) -> Room
    decreases steps.len(),
{
    if steps.len() == 0 {
        room
    } else {
        room_after(room_run(room, steps.drop_last()), steps.last())
    }
}

/// Whether no two sessions of the room belong to one source id.
pub open spec fn distinct_speakers(room: Room) -> bool {
    forall|i: int, j: int|
        0 <= i < room.sessions.len() && 0 <= j < room.sessions.len() && i != j
            ==> #[trigger] room.sessions[i].ssrc != #[trigger] room.sessions[j].ssrc
}

/// Whether every session that is in a conversation owns the attention.
pub open spec fn exclusive(room: Room) -> bool {
    &&& distinct_speakers(room)
    &&& forall|i: int|
        0 <= i < room.sessions.len() && (#[trigger] room.sessions[i]).active()
            ==> room.assistant.respondant == Some(room.sessions[i].ssrc)
}

/// Whether every session that listens owns the attention.
pub open spec fn listeners_exclusive(room: Room) -> bool {
    &&& distinct_speakers(room)
    &&& forall|i: int|
        0 <= i < room.sessions.len() && (#[trigger] room.sessions[i]).state
            == ConversationState::Listening ==> room.assistant.respondant == Some(
            room.sessions[i].ssrc,
        )
}

/// Whether the session that owns the attention listens.
pub open spec fn owner_listens(room: Room) -> bool {
    exists|i: int|
        0 <= i < room.sessions.len() && (#[trigger] room.sessions[i]).state
            == ConversationState::Listening && room.assistant.respondant == Some(
            room.sessions[i].ssrc,
        )
}

/// A room whose sessions have all just been made, for speakers with
/// different source ids, is exclusive.
pub proof fn lemma_fresh_room_exclusive(room: Room)
    requires
        distinct_speakers(room),
        forall|i: int|
            0 <= i < room.sessions.len() ==> (#[trigger] room.sessions[i]).state
                == ConversationState::Detection,
    ensures
        exclusive(room),
{
}

/// In an exclusive room at most one session is in a conversation.
pub proof fn lemma_exclusive_one_conversation(room: Room, i: int, j: int)
    requires
        exclusive(room),
        0 <= i < room.sessions.len(),
        0 <= j < room.sessions.len(),
        i != j,
    ensures
        !(room.sessions[i].active() && room.sessions[j].active()),
{
}

/// A wake word that is matched while another speaker owns the attention
/// starts nothing: the session and the backend stay as they are.
pub proof fn lemma_wake_under_contention(s: SessionView, a: AssistantView, detection: Option<i32>, now: u64)
    requires
        s.state == ConversationState::Detection,
        a.respondant matches Some(holder) && holder != s.ssrc,
    ensures
        after_wake(s, a.respondant, detection, now) == s,
        assistant_after_wake(s, a, detection) == a,
{
}

/// No step of a session, and no end of composing, lets a second session
/// into a conversation: as long as only sessions free the attention, an
/// exclusive room stays exclusive.
pub proof fn lemma_step_keeps_exclusive(room: Room, step: Step)
    requires
        exclusive(room),
        step_fits(room, step),
        !(step is Released),
    ensures
        exclusive(room_after(room, step)),
{
}

/// Whatever the sessions do, in whatever order, at most one of them is in
/// a conversation at any time, as long as only sessions free the
/// attention.
pub proof fn lemma_run_keeps_exclusive(room: Room, steps: Seq<Step>)
    requires
        exclusive(room),
        forall|k: int|
            0 <= k < steps.len() ==> !(#[trigger] steps[k] is Released) && (steps[k] matches Step::Session {
                who,
                input,
            } ==> 0 <= who < room.sessions.len()),
    ensures
        exclusive(room_run(room, steps)),
        room_run(room, steps).sessions.len() == room.sessions.len(),
    decreases steps.len(),
{
    if steps.len() > 0 {
        lemma_run_keeps_exclusive(room, steps.drop_last());
        lemma_step_keeps_exclusive(room_run(room, steps.drop_last()), steps.last());
    }
}

/// Where the backend may free the attention by itself, but not under a
/// session that listens, no step lets a second session listen: every
/// listener still owns the attention.
pub proof fn lemma_step_keeps_listeners_exclusive(room: Room, step: Step)
    requires
        listeners_exclusive(room),
        step_fits(room, step),
        step is Released ==> !owner_listens(room),
    ensures
        listeners_exclusive(room_after(room, step)),
{
}

/// Where every listener owns the attention, at most one session listens.
pub proof fn lemma_one_listener(room: Room, i: int, j: int)
    requires
        listeners_exclusive(room),
        0 <= i < room.sessions.len(),
        0 <= j < room.sessions.len(),
        i != j,
    ensures
        !(room.sessions[i].state == ConversationState::Listening && room.sessions[j].state
            == ConversationState::Listening),
{
}

} // verus!
