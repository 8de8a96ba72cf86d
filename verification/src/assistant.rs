//! The shared conversational backend: who holds its attention, whether it
//! is busy with a reply, and what it does with the answers of the language
//! model.
//!
//! The requests themselves are the caller's to send. The handle keeps what
//! goes into them (the transcript and the functions that the model may
//! call) and decides what follows from what comes back.

use vstd::prelude::*;
use crate::actions::{
    AssistantAction, AssistantActionView, MusicBotAction, MusicBotActionView,
};

verus! {

/// What the assistant says when the model gave no answer.
pub const NO_ANSWER: &'static str = "Sorry, I'm a big dum guy and couldn't think of a response, tee hee!";

/// What the assistant says when it queues a title.
pub const REQUEST_TAKEN: &'static str = "On it!";

/// What the assistant says when a request names no title.
pub const REQUEST_UNCLEAR: &'static str = "Sorry I made a fucky wucky!";

/// The member of a request's arguments that holds the title.
pub const TITLE_KEY: &'static str = "title";

/// The function by which the model ends the conversation.
pub const FN_DONE: &'static str = "done";

/// The function by which the model calls the music bot in.
pub const FN_SUMMON: &'static str = "summon_music_bot";

/// The function by which the model sends the music bot away.
pub const FN_DISMISS: &'static str = "dismiss_music_bot";

/// The function by which the model queues a title.
pub const FN_REQUEST: &'static str = "request_music_bot";

/// What the model is told about [`FN_DONE`].
pub const ABOUT_DONE: &'static str =
    "The user no longer wants to speak or already had their question answered.";

/// What the model is told about [`FN_SUMMON`].
pub const ABOUT_SUMMON: &'static str = "The user wants to add the music bot to the discord channel.";

/// What the model is told about [`FN_DISMISS`].
pub const ABOUT_DISMISS: &'static str = "The user wants to remove the music bot from the discord channel.";

/// What the model is told about [`FN_REQUEST`].
pub const ABOUT_REQUEST: &'static str =
    "The user wants to add a song or video by title to the music bot queue.";

/// The parameters of a function that takes none, as a JSON schema.
pub const NO_PARAMETERS: &'static str = "{\"type\": \"object\", \"properties\": {}}";

/// The parameters of a request for a title, as a JSON schema.
pub const TITLE_PARAMETERS: &'static str =
    "{\"type\": \"object\", \"properties\": { \"title\": { \"type\": \"string\", \"description\": \"The title of the song or video, e.g. Abba - Dancing Queen\" } }}";

/// What is known of the track that plays the assistant's reply.
#[derive(Clone, Copy, Debug, PartialEq, Eq, Structural)]
pub enum Playback {
    /// No reply has been played yet.
    Idle,
    /// The track does not say how it is doing.
    Unknown,
    /// The track is playing.
    Play,
    /// The track is paused.
    Pause,
    /// The track was stopped.
    Stop,
    /// The track has reached its end.
    End,
    /// The track failed.
    Errored,
}

/// Whether the playback of the reply counts as finished: the track has
/// reached its end, or there is none to ask.
pub open spec fn playback_over(playback: Playback) -> bool {
    playback == Playback::Idle || playback == Playback::Unknown || playback == Playback::End
}

/// Whether the playback of the reply counts as finished: the track has
/// reached its end, or there is none to ask.
pub fn playback_finished(playback: Playback) -> (finished: bool)
    ensures
        finished == playback_over(playback),
{
    match playback {
        Playback::Idle | Playback::Unknown | Playback::End => true,
        _ => false,
    }
}

/// Who wrote a message of the transcript.
#[derive(Clone, Copy, Debug, PartialEq, Eq, Structural)]
pub enum ChatRole {
    System,
    User,
    Assistant,
}

/// One message of the transcript that goes to the model.
#[derive(Clone, Debug)]
pub struct ChatMessage {
    pub role: ChatRole,
    pub content: String,
}

/// What a [`ChatMessage`] is, as a mathematical value.
pub struct ChatMessageView {
    pub role: ChatRole,
    pub content: Seq<char>,
}

impl View for ChatMessage {
    type V = ChatMessageView;

    open spec fn view(&self) -> ChatMessageView {
        ChatMessageView { role: self.role, content: self.content@ }
    }
}

/// A function that the model may call.
#[derive(Clone, Debug)]
pub struct ChatFunction {
    pub name: String,
    pub description: String,
    /// The parameters, as the text of a JSON schema.
    pub parameters: String,
}

/// What a [`ChatFunction`] is, as a mathematical value.
pub struct ChatFunctionView {
    pub name: Seq<char>,
    pub description: Seq<char>,
    pub parameters: Seq<char>,
}

impl View for ChatFunction {
    type V = ChatFunctionView;

    open spec fn view(&self) -> ChatFunctionView {
        ChatFunctionView {
            name: self.name@,
            description: self.description@,
            parameters: self.parameters@,
        }
    }
}

/// A call of a function by the model.
#[derive(Clone, Debug)]
pub struct FunctionCall {
    pub name: String,
    /// The arguments, as JSON text.
    pub arguments: String,
}

/// The model's answer, as far as the assistant looks at it.
#[derive(Clone, Debug)]
pub enum Choice {
    /// The model stopped to call a function.
    FunctionCall(FunctionCall),
    /// The model stopped with something to say.
    Content(String),
    /// The model gave no reason for stopping.
    Unfinished,
}

/// What the caller is to do after an answer of the model.
#[derive(Clone, Debug)]
pub struct Reaction {
    /// The action to announce to the other bots, first.
    pub action: Option<AssistantAction>,
    /// The text to speak, next.
    pub speech: Option<String>,
    /// Whether to stop the playback.
    pub stop: bool,
}

/// What a [`Reaction`] is, as a mathematical value.
pub struct ReactionView {
    pub action: Option<AssistantActionView>,
    pub speech: Option<Seq<char>>,
    pub stop: bool,
}

impl View for Reaction {
    type V = ReactionView;

    open spec fn view(&self) -> ReactionView {
        ReactionView {
            action: match self.action {
                Some(action) => Some(action@),
                None => None,
            },
            speech: match self.speech {
                Some(speech) => Some(speech@),
                None => None,
            },
            stop: self.stop,
        }
    }
}

/// What a [`DiscordAssistant`] is, as a mathematical value.
pub struct AssistantView {
    /// The speaker that owns the conversation, if any.
    pub respondant: Option<u32>,
    /// Whether a reply is being composed.
    pub is_responding: bool,
    /// The transcript of the conversation.
    pub messages: Seq<ChatMessageView>,
    /// The functions that the model may call.
    pub functions: Seq<ChatFunctionView>,
    /// The name of the model.
    pub model: Seq<char>,
    /// The instructions that open every conversation.
    pub pragma: Seq<char>,
}

/// The attention slot after `id` tries to take it: a free slot goes to `id`,
/// a held slot stays with its holder.
pub open spec fn grabbed(owner: Option<u32>, id: u32) -> Option<u32> {
    match owner {
        Some(holder) => Some(holder),
        None => Some(id),
    }
}

/// The attention slot after `id` lets go of it: only the holder's call
/// frees the slot.
pub open spec fn cleared(owner: Option<u32>, id: u32) -> Option<u32> {
    if owner == Some(id) {
        None
    } else {
        owner
    }
}

/// The messages of a transcript, as mathematical values.
pub open spec fn transcript(messages: Seq<ChatMessage>) -> Seq<ChatMessageView> {
    Seq::new(messages.len(), |i: int| messages[i]@)
}

/// The functions of a list, as mathematical values.
pub open spec fn catalogue(functions: Seq<ChatFunction>) -> Seq<ChatFunctionView> {
    Seq::new(functions.len(), |i: int| functions[i]@)
}

/// The functions that the model may call in every conversation.
pub open spec fn standard_functions() -> Seq<ChatFunctionView> {
    seq![
        ChatFunctionView { name: FN_DONE@, description: ABOUT_DONE@, parameters: NO_PARAMETERS@ },
        ChatFunctionView { name: FN_SUMMON@, description: ABOUT_SUMMON@, parameters: NO_PARAMETERS@ },
        ChatFunctionView { name: FN_DISMISS@, description: ABOUT_DISMISS@, parameters: NO_PARAMETERS@ },
        ChatFunctionView {
            name: FN_REQUEST@,
            description: ABOUT_REQUEST@,
            parameters: TITLE_PARAMETERS@,
        },
    ]
}

/// The backend at the start of a conversation: the transcript holds the
/// instructions and nothing else, and the standard functions are on offer.
pub open spec fn flushed(a: AssistantView) -> AssistantView {
    AssistantView {
        messages: seq![ChatMessageView { role: ChatRole::System, content: a.pragma }],
        functions: standard_functions(),
        ..a
    }
}

/// The reaction that asks nothing of the caller.
pub open spec fn no_reaction() -> ReactionView {
    ReactionView { action: None, speech: None, stop: false }
}

/// The string member `key` of the JSON document `text`, as
/// `serde_json` reads it: `None` where the text is no JSON document,
/// `Some(None)` where the document is no object or has no string under
/// that key, and the string otherwise.
pub uninterp spec fn json_string_member(text: Seq<char>, key: Seq<char>) -> Option<Option<Seq<char>>>;

/// A looked-up member, as a mathematical value.
pub open spec fn member_view(member: Option<Option<String>>) -> Option<Option<Seq<char>>> {
    match member {
        None => None,
        Some(None) => Some(None),
        Some(Some(text)) => Some(Some(text@)),
    }
}

/// What the assistant does when the model calls the function `name` with
/// `arguments`, where `title` is the title looked up in the arguments.
pub open spec fn call_reaction(name: Seq<char>, arguments: Seq<char>, title: Option<Option<Seq<char>>>) -> ReactionView {
    if name == FN_DONE@ {
        ReactionView { action: None, speech: None, stop: true }
    } else if name == FN_SUMMON@ {
        ReactionView {
            action: Some(AssistantActionView::MusicBot(MusicBotActionView::Summon)),
            speech: Some(arguments),
            stop: false,
        }
    } else if name == FN_DISMISS@ {
        ReactionView {
            action: Some(AssistantActionView::MusicBot(MusicBotActionView::Dismiss)),
            speech: Some(arguments),
            stop: false,
        }
    } else if name == FN_REQUEST@ {
        match title {
            Some(Some(title)) => ReactionView {
                action: Some(AssistantActionView::MusicBot(MusicBotActionView::Request(title))),
                speech: Some(REQUEST_TAKEN@),
                stop: false,
            },
            Some(None) => ReactionView { action: None, speech: Some(REQUEST_UNCLEAR@), stop: false },
            None => no_reaction(),
        }
    } else {
        no_reaction()
    }
}

/// Whether a call of the function `name` ends the conversation, so that
/// the attention becomes free.
pub open spec fn call_releases(name: Seq<char>, title: Option<Option<Seq<char>>>) -> bool {
    ||| name == FN_DONE@
    ||| name == FN_SUMMON@
    ||| name == FN_DISMISS@
    ||| (name == FN_REQUEST@ && title.is_some())
}

/// The backend after the model has called the function `name`.
pub open spec fn after_call(a: AssistantView, name: Seq<char>, title: Option<Option<Seq<char>>>) -> AssistantView {
    if call_releases(name, title) {
        AssistantView { respondant: None, ..a }
    } else {
        a
    }
}

/// What the assistant does with the model's answer, where `title` is the
/// title looked up in the arguments of a call.
pub open spec fn response_reaction(response: Option<Choice>, title: Option<Option<Seq<char>>>) -> ReactionView {
    match response {
        None => ReactionView { action: None, speech: Some(NO_ANSWER@), stop: false },
        Some(Choice::Unfinished) => no_reaction(),
        Some(Choice::Content(content)) => ReactionView {
            action: None,
            speech: Some(content@),
            stop: false,
        },
        Some(Choice::FunctionCall(call)) => call_reaction(call.name@, call.arguments@, title),
    }
}

/// The backend after the model's answer.
pub open spec fn after_response(a: AssistantView, response: Option<Choice>, title: Option<Option<Seq<char>>>) -> AssistantView {
    match response {
        Some(Choice::Content(content)) => AssistantView {
            messages: a.messages.push(
                ChatMessageView { role: ChatRole::Assistant, content: content@ },
            ),
            ..a
        },
        Some(Choice::FunctionCall(call)) => after_call(a, call.name@, title),
        _ => a,
    }
}

/// The title that a call's arguments name, as `serde_json` reads them.
pub open spec fn title_named(arguments: Seq<char>) -> Option<Option<Seq<char>>> {
    json_string_member(arguments, TITLE_KEY@)
}

/// The title that the arguments of an answer's call name, if the answer is
/// a call.
pub open spec fn title_in(response: Option<Choice>) -> Option<Option<Seq<char>>> {
    match response {
        Some(Choice::FunctionCall(call)) => title_named(call.arguments@),
        _ => None,
    }
}

/// The member `key` of the JSON document `text`, if it is a string.
///
/// Calls `serde_json::from_str` for a `serde_json::Value`, then
/// `Value::get` with `key` and `Value::as_str`. The contract claims that
/// the outcome depends on the two texts alone, and gives it the name
/// [`json_string_member`]: which texts are JSON documents is not stated.
#[verifier::external_body]
fn string_member(text: &str, key: &str) -> (member: Option<Option<String>>)
    ensures
        member_view(member) == json_string_member(text@, key@),
{
    match serde_json::from_str::<serde_json::Value>(text) {
        Ok(document) => Some(document.get(key).and_then(serde_json::Value::as_str).map(String::from)),
        Err(_) => None,
    }
}

/// The backend handle that all sessions of one voice connection share.
pub struct DiscordAssistant {
    respondant: Option<u32>,
    is_responding: bool,
    messages: Vec<ChatMessage>,
    functions: Vec<ChatFunction>,
    assistant_model: String,
    assistant_pragma: String,
}

impl View for DiscordAssistant {
    type V = AssistantView;

    closed spec fn view(&self) -> AssistantView {
        AssistantView {
            respondant: self.respondant,
            is_responding: self.is_responding,
            messages: transcript(self.messages@),
            functions: catalogue(self.functions@),
            model: self.assistant_model@,
            pragma: self.assistant_pragma@,
        }
    }
}

impl DiscordAssistant {
    /// A backend for the model `assistant_model` that nobody talks to yet
    /// and that composes nothing. Every conversation will open with
    /// `assistant_instructions`.
    pub fn new(assistant_model: String, assistant_instructions: String) -> (assistant: DiscordAssistant)
        ensures
            assistant@ == (AssistantView {
                respondant: None,
                is_responding: false,
                messages: Seq::empty(),
                functions: Seq::empty(),
                model: assistant_model@,
                pragma: assistant_instructions@,
            }),
    {
        let assistant = DiscordAssistant {
            respondant: None,
            is_responding: false,
            messages: Vec::new(),
            functions: Vec::new(),
            assistant_model,
            assistant_pragma: assistant_instructions,
        };
        assert(assistant@.messages =~= Seq::empty());
        assert(assistant@.functions =~= Seq::empty());
        assistant
    }

    /// Takes the attention for `id` unless another speaker holds it. Never
    /// waits: the answer is `true` exactly when `id` owns the attention
    /// afterwards.
    pub fn try_grab_attention(&mut self, id: u32) -> (granted: bool)
        ensures
            final(self)@ == (AssistantView { respondant: grabbed(old(self)@.respondant, id), ..old(self)@ }),
            granted == (old(self)@.respondant.is_none() || old(self)@.respondant == Some(id)),
            granted == (final(self)@.respondant == Some(id)),
    {
        if let Some(respondant) = self.respondant {
            respondant == id
        } else {
            self.respondant = Some(id);
            true
        }
    }

    /// Gives the attention back if `id` holds it; a call from anyone else
    /// changes nothing.
    pub fn try_clear_attention(&mut self, id: u32)
        ensures
            final(self)@ == (AssistantView { respondant: cleared(old(self)@.respondant, id), ..old(self)@ }),
    {
        if let Some(respondant) = self.respondant {
            if respondant == id {
                self.respondant = None;
            }
        }
    }

    /// The speaker that owns the attention, if any.
    pub fn get_attention_id(&self) -> (owner: Option<u32>)
        ensures
            owner == self@.respondant,
    {
        self.respondant
    }

    /// Marks the backend as composing a reply.
    pub fn set_responding(&mut self)
        ensures
            final(self)@ == (AssistantView { is_responding: true, ..old(self)@ }),
    {
        self.is_responding = true;
    }

    /// Whether a reply is still under way: it is being composed, or its
    /// playback has not finished.
    pub fn is_responding(&self, playback_finished: bool) -> (busy: bool)
        ensures
            busy == (self@.is_responding || !playback_finished),
    {
        self.is_responding || !playback_finished
    }

    /// The transcript that goes to the model.
    pub fn messages(&self) -> (messages: &Vec<ChatMessage>)
        ensures
            transcript(messages@) == self@.messages,
    {
        &self.messages
    }

    /// The functions that the model may call.
    pub fn functions(&self) -> (functions: &Vec<ChatFunction>)
        ensures
            catalogue(functions@) == self@.functions,
    {
        &self.functions
    }

    /// The name of the model.
    pub fn model(&self) -> (model: &String)
        ensures
            model@ == self@.model,
    {
        &self.assistant_model
    }

    /// Starts a conversation afresh: the transcript holds the instructions
    /// and nothing else, and the standard functions are on offer.
    pub fn flush(&mut self)
        ensures
            final(self)@ == flushed(old(self)@),
    {
        self.messages.clear();
        self.messages.push(
            ChatMessage { role: ChatRole::System, content: self.assistant_pragma.clone() },
        );
        self.functions.clear();
        self.functions.push(
            ChatFunction {
                name: FN_DONE.to_owned(),
                description: ABOUT_DONE.to_owned(),
                parameters: NO_PARAMETERS.to_owned(),
            },
        );
        self.functions.push(
            ChatFunction {
                name: FN_SUMMON.to_owned(),
                description: ABOUT_SUMMON.to_owned(),
                parameters: NO_PARAMETERS.to_owned(),
            },
        );
        self.functions.push(
            ChatFunction {
                name: FN_DISMISS.to_owned(),
                description: ABOUT_DISMISS.to_owned(),
                parameters: NO_PARAMETERS.to_owned(),
            },
        );
        self.functions.push(
            ChatFunction {
                name: FN_REQUEST.to_owned(),
                description: ABOUT_REQUEST.to_owned(),
                parameters: TITLE_PARAMETERS.to_owned(),
            },
        );
        assert(self@.messages =~= flushed(old(self)@).messages);
        assert(self@.functions =~= standard_functions());
    }

    /// Takes what the speaker said. Where nothing was understood there is
    /// nothing to ask: the answer is `false` and the transcript stays as it
    /// is. Otherwise the text goes to the end of the transcript as the
    /// user's message, and the answer is `true`: the caller asks the model.
    pub fn on_transcription(&mut self, text: String) -> (ask: bool)
        ensures
            ask == (text@.len() > 0),
            final(self)@ == if text@.len() > 0 {
                AssistantView {
                    messages: old(self)@.messages.push(
                        ChatMessageView { role: ChatRole::User, content: text@ },
                    ),
                    ..old(self)@
                }
            } else {
                old(self)@
            },
    {
        if text.as_str().unicode_len() == 0 {
            return false;
        }
        self.messages.push(ChatMessage { role: ChatRole::User, content: text });
        assert(self@.messages =~= old(self)@.messages.push(
            ChatMessageView { role: ChatRole::User, content: text@ },
        ));
        true
    }

    /// Reacts to a call of a function by the model, given the title that
    /// was looked up in its arguments. Ending the conversation, and calling
    /// or dismissing the music bot, free the attention. So does a request,
    /// unless its arguments are no JSON document: then nothing happens at
    /// all. A function that the assistant does not offer changes nothing.
    pub fn react_to_call(&mut self, call: &FunctionCall, title: Option<Option<String>>) -> (reaction: Reaction)
        ensures
            reaction@ == call_reaction(call.name@, call.arguments@, member_view(title)),
            final(self)@ == after_call(old(self)@, call.name@, member_view(title)),
    {
        if call.name == FN_DONE.to_owned() {
            self.respondant = None;
            Reaction { action: None, speech: None, stop: true }
        } else if call.name == FN_SUMMON.to_owned() {
            self.respondant = None;
            Reaction {
                action: Some(AssistantAction::MusicBot(MusicBotAction::Summon)),
                speech: Some(call.arguments.clone()),
                stop: false,
            }
        } else if call.name == FN_DISMISS.to_owned() {
            self.respondant = None;
            Reaction {
                action: Some(AssistantAction::MusicBot(MusicBotAction::Dismiss)),
                speech: Some(call.arguments.clone()),
                stop: false,
            }
        } else if call.name == FN_REQUEST.to_owned() {
            match title {
                Some(Some(title)) => {
                    self.respondant = None;
                    Reaction {
                        action: Some(AssistantAction::MusicBot(MusicBotAction::Request(title))),
                        speech: Some(REQUEST_TAKEN.to_owned()),
                        stop: false,
                    }
                },
                Some(None) => {
                    self.respondant = None;
                    Reaction { action: None, speech: Some(REQUEST_UNCLEAR.to_owned()), stop: false }
                },
                None => Reaction { action: None, speech: None, stop: false },
            }
        } else {
            Reaction { action: None, speech: None, stop: false }
        }
    }

    /// Reacts to a call of a function by the model. The title of a request
    /// is read from the call's arguments as a JSON document.
    pub fn handle_function_call(&mut self, call: &FunctionCall) -> (reaction: Reaction)
        ensures
            reaction@ == call_reaction(call.name@, call.arguments@, title_named(call.arguments@)),
            final(self)@ == after_call(old(self)@, call.name@, title_named(call.arguments@)),
    {
        if call.name == FN_REQUEST.to_owned() {
            let title = string_member(call.arguments.as_str(), TITLE_KEY);
            self.react_to_call(call, title)
        } else {
            self.react_to_call(call, None)
        }
    }

    /// Reacts to the model's answer, given the title that was looked up in
    /// the arguments of its call, if it is one. No answer at all is
    /// apologised for; an answer without a reason for stopping is passed
    /// over; something to say goes to the end of the transcript as the
    /// assistant's message and is spoken; a call of a function is reacted
    /// to as [`DiscordAssistant::react_to_call`] says. The reply still
    /// counts as being composed afterwards.
    pub fn react_to_response(&mut self, response: Option<Choice>, title: Option<Option<String>>) -> (reaction: Reaction)
        ensures
            reaction@ == response_reaction(response, member_view(title)),
            final(self)@ == after_response(old(self)@, response, member_view(title)),
    {
        match response {
            None => Reaction { action: None, speech: Some(NO_ANSWER.to_owned()), stop: false },
            Some(Choice::Unfinished) => Reaction { action: None, speech: None, stop: false },
            Some(Choice::Content(content)) => {
                self.messages.push(ChatMessage { role: ChatRole::Assistant, content: content.clone() });
                assert(self@.messages =~= old(self)@.messages.push(
                    ChatMessageView { role: ChatRole::Assistant, content: content@ },
                ));
                Reaction { action: None, speech: Some(content), stop: false }
            },
            Some(Choice::FunctionCall(call)) => self.react_to_call(&call, title),
        }
    }

    /// Reacts to the model's answer. The title of a request is read from
    /// the arguments of the call as a JSON document.
    pub fn on_response(&mut self, response: Option<Choice>) -> (reaction: Reaction)
        ensures
            reaction@ == response_reaction(response, title_in(response)),
            final(self)@ == after_response(old(self)@, response, title_in(response)),
    {
        match response {
            Some(Choice::FunctionCall(call)) => self.handle_function_call(&call),
            other => self.react_to_response(other, None),
        }
    }

    /// Marks the reply as composed: what is left of it is its playback.
    pub fn finish_message(&mut self)
        ensures
            final(self)@ == (AssistantView { is_responding: false, ..old(self)@ }),
    {
        self.is_responding = false;
    }
}

} // verus!
