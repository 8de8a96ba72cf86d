//! What the assistant asks of the other bots in the channel, and the chat
//! commands that say it.

use vstd::prelude::*;
use vstd::string::StringExecFns;

verus! {

/// Something that the assistant wants done.
#[derive(Clone, Debug)]
pub enum AssistantAction {
    /// A request to the music bot.
    MusicBot(MusicBotAction),
}

/// Something that the music bot can do.
#[derive(Clone, Debug)]
pub enum MusicBotAction {
    /// Join the voice channel.
    Summon,
    /// Leave the voice channel.
    Dismiss,
    /// Queue the song or video with this title.
    Request(String),
    /// Skip the current track.
    Skip,
    /// Shuffle the queue.
    Shuffle,
    /// Repeat the current track.
    Loop,
    /// Empty the queue.
    Clear,
    /// Boost the bass.
    BassBoost,
    /// Play the playlist with this name.
    PlayPlaylist(String),
}

/// What a [`MusicBotAction`] is, as a mathematical value.
pub enum MusicBotActionView {
    Summon,
    Dismiss,
    Request(Seq<char>),
    Skip,
    Shuffle,
    Loop,
    Clear,
    BassBoost,
    PlayPlaylist(Seq<char>),
}

/// What an [`AssistantAction`] is, as a mathematical value.
pub enum AssistantActionView {
    MusicBot(MusicBotActionView),
}

impl View for MusicBotAction {
    type V = MusicBotActionView;

    open spec fn view(&self) -> MusicBotActionView {
        match *self {
            MusicBotAction::Summon => MusicBotActionView::Summon,
            MusicBotAction::Dismiss => MusicBotActionView::Dismiss,
            MusicBotAction::Request(title) => MusicBotActionView::Request(title@),
            MusicBotAction::Skip => MusicBotActionView::Skip,
            MusicBotAction::Shuffle => MusicBotActionView::Shuffle,
            MusicBotAction::Loop => MusicBotActionView::Loop,
            MusicBotAction::Clear => MusicBotActionView::Clear,
            MusicBotAction::BassBoost => MusicBotActionView::BassBoost,
            MusicBotAction::PlayPlaylist(name) => MusicBotActionView::PlayPlaylist(name@),
        }
    }
}

impl View for AssistantAction {
    type V = AssistantActionView;

    open spec fn view(&self) -> AssistantActionView {
        match *self {
            AssistantAction::MusicBot(action) => AssistantActionView::MusicBot(action@),
        }
    }
}

/// The chat command that asks the music bot for an action.
pub open spec fn music_command(action: MusicBotActionView) -> Seq<char> {
    match action {
        MusicBotActionView::Summon => "=join"@,
        MusicBotActionView::Dismiss => "=leave"@,
        MusicBotActionView::Request(title) => "=p "@ + title,
        MusicBotActionView::Skip => "=skip"@,
        MusicBotActionView::Shuffle => "=shuffle"@,
        MusicBotActionView::Loop => "=loop"@,
        MusicBotActionView::Clear => "=clear"@,
        MusicBotActionView::BassBoost => "=bb"@,
        MusicBotActionView::PlayPlaylist(name) => "=playlist play "@ + name,
    }
}

/// The chat command that carries out an action.
pub open spec fn command_of(action: AssistantActionView) -> Seq<char> {
    match action {
        AssistantActionView::MusicBot(action) => music_command(action),
    }
}

/// The text to say in the command channel for `action`.
pub fn command_text(action: &AssistantAction) -> (text: String)
    ensures
        text@ == command_of(action@),
{
    match action {
        AssistantAction::MusicBot(music) => match music {
            MusicBotAction::Summon => "=join".to_owned(),
            MusicBotAction::Dismiss => "=leave".to_owned(),
            MusicBotAction::Request(title) => "=p ".to_owned().concat(title.as_str()),
            MusicBotAction::Skip => "=skip".to_owned(),
            MusicBotAction::Shuffle => "=shuffle".to_owned(),
            MusicBotAction::Loop => "=loop".to_owned(),
            MusicBotAction::Clear => "=clear".to_owned(),
            MusicBotAction::BassBoost => "=bb".to_owned(),
            MusicBotAction::PlayPlaylist(name) => "=playlist play ".to_owned().concat(name.as_str()),
        },
    }
}

} // verus!
