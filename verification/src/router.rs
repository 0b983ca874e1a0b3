//! What each inbound event leads to: a command, a pressed button, or a line
//! of free text.

use vstd::prelude::*;
use vstd::string::*;
use crate::codec::{decode, interaction_of, Interaction};
use crate::prompts::{
    choice_prompt, choice_prompt_spec, game_menu, menu_prompt, plain_prompt, text_prompt, Prompt,
    PromptView, GREETING_TEXT, HELP_TEXT, START_TEXT, UNKNOWN_TEXT,
};
use crate::state::{Choice, GameType};
use crate::text::{chars_of, is_text};

verus! {

/// The commands of the game.
#[derive(Clone, Copy, Debug, PartialEq, Eq, Structural)]
pub enum Command {
    /// Greet the player.
    Start,
    /// Explain the game.
    Help,
    /// Offer the variants.
    Play,
}

/// What a line of free text is taken for.
#[derive(Clone, Copy, Debug, PartialEq, Eq, Structural)]
pub enum TextIntent {
    /// The player wants to play.
    Play,
    /// The player says hello.
    Greeting,
    /// Anything else.
    Unknown,
}

/// What a pressed button leads to.
#[derive(Clone, Copy, Debug, PartialEq, Eq, Structural)]
pub enum CallbackAction {
    /// Ask for a guess in this variant.
    Ask(GameType),
    /// Play a round on this guess.
    Play(Choice),
    /// Send nothing, and put the unknown token on record.
    Report,
    /// Do nothing: the press came without a token, or without a conversation
    /// to answer in.
    Ignore,
}

/// The handlers of the game: what each inbound event is answered with.
#[derive(Clone, Copy, Debug, Default)]
pub struct BotHandler;

/// What begins the record of an unknown token.
pub const UNKNOWN_CALLBACK_LEAD: &'static str = "Неизвестный callback: ";

/// The lower-case form of a text as `str::to_lowercase` gives it.
pub uninterp spec fn lowercase_of(text: Seq<char>) -> Seq<char>;

/// The reply to a command: the welcome and the instructions are text with
/// markup, and the play command brings the menu of variants.
pub open spec fn command_reply_spec(command: Command) -> PromptView {
    match command {
        Command::Start => plain_prompt(START_TEXT@, true),
        Command::Help => plain_prompt(HELP_TEXT@, true),
        Command::Play => menu_prompt(),
    }
}

/// What a line of text in lower case is taken for: one of four words asks for
/// a game, one of three says hello, and every other line is unknown.
pub open spec fn intent_of(lowered: Seq<char>) -> TextIntent {
    if lowered == "играть"@ || lowered == "игра"@ || lowered == "кубик"@ || lowered == "кубики"@ {
        TextIntent::Play
    } else if lowered == "привет"@ || lowered == "hello"@ || lowered == "hi"@ {
        TextIntent::Greeting
    } else {
        TextIntent::Unknown
    }
}

/// The reply to a line of free text.
pub open spec fn intent_reply_spec(intent: TextIntent) -> PromptView {
    match intent {
        TextIntent::Play => menu_prompt(),
        TextIntent::Greeting => plain_prompt(GREETING_TEXT@, false),
        TextIntent::Unknown => plain_prompt(UNKNOWN_TEXT@, false),
    }
}

/// What an interaction leads to: a menu selection to the question of its
/// variant, a guess to a round, an unrecognized token to the record.
pub open spec fn action_for(interaction: Interaction) -> CallbackAction {
    match interaction {
        Interaction::Menu(game) => CallbackAction::Ask(game),
        Interaction::Play(choice) => CallbackAction::Play(choice),
        Interaction::Unrecognized => CallbackAction::Report,
    }
}

/// What a pressed button leads to, given its token, if it has one, and
/// whether there is a conversation to answer in.
pub open spec fn callback_action_spec(data: Option<Seq<char>>, has_message: bool)
    -> CallbackAction {
    match data {
        Some(token) => if has_message {
            action_for(interaction_of(token))
        } else {
            CallbackAction::Ignore
        },
        None => CallbackAction::Ignore,
    }
}

/// Whether an action sends anything to the player.
pub open spec fn replies(action: CallbackAction) -> bool {
    action is Ask || action is Play
}

/// Turns a text into lower case by `str::to_lowercase`. The contract gives the
/// result its name and claims nothing else of it.
#[verifier::external_body]
fn lowercase(text: &str) -> (lowered: String)
    ensures
        lowered@ == lowercase_of(text@),
{
    text.to_lowercase()
}

/// What a line of text that is already in lower case is taken for.
pub fn classify_lowered(lowered: &str) -> (intent: TextIntent)
    ensures
        intent == intent_of(lowered@),
{
    let chars = chars_of(lowered);
    let chars = chars.as_slice();
    if is_text("играть", chars) || is_text("игра", chars) || is_text("кубик", chars) || is_text(
        "кубики",
        chars,
    ) {
        TextIntent::Play
    } else if is_text("привет", chars) || is_text("hello", chars) || is_text("hi", chars) {
        TextIntent::Greeting
    } else {
        TextIntent::Unknown
    }
}

/// What a line of free text is taken for, whatever its case.
pub fn classify_text(text: &str) -> (intent: TextIntent)
    ensures
        intent == intent_of(lowercase_of(text@)),
{
    let lowered = lowercase(text);
    classify_lowered(lowered.as_str())
}

impl BotHandler {
    /// A handler.
    pub fn new() -> Self {
        BotHandler
    }

    /// The reply to a command.
    pub fn command_reply(command: Command) -> (prompt: Prompt)
        ensures
            prompt@ == command_reply_spec(command),
    {
        match command {
            Command::Start => text_prompt(START_TEXT, true),
            Command::Help => text_prompt(HELP_TEXT, true),
            Command::Play => game_menu(),
        }
    }

    /// The reply to a line of free text, by what it was taken for.
    pub fn intent_reply(intent: TextIntent) -> (prompt: Prompt)
        ensures
            prompt@ == intent_reply_spec(intent),
    {
        match intent {
            TextIntent::Play => game_menu(),
            TextIntent::Greeting => text_prompt(GREETING_TEXT, false),
            TextIntent::Unknown => text_prompt(UNKNOWN_TEXT, false),
        }
    }

    /// The reply to a message: none where the message has no text, else the
    /// reply to what its text is taken for.
    pub fn handle_message(text: Option<&str>) -> (reply: Option<Prompt>)
        ensures
            match text {
                Some(line) => reply is Some && reply->0@ == intent_reply_spec(
                    intent_of(lowercase_of(line@)),
                ),
                None => reply is None,
            },
    {
        match text {
            Some(line) => Some(Self::intent_reply(classify_text(line))),
            None => None,
        }
    }

    /// What a pressed button leads to. A guess that comes out is well formed.
    pub fn handle_callback(data: Option<&str>, has_message: bool) -> (action: CallbackAction)
        ensures
            action == callback_action_spec(
                match data {
                    Some(token) => Some(token@),
                    None => None,
                },
                has_message,
            ),
            action matches CallbackAction::Play(choice) ==> choice.valid(),
    {
        match data {
            Some(token) => {
                if has_message {
                    match decode(token) {
                        Interaction::Menu(game) => CallbackAction::Ask(game),
                        Interaction::Play(choice) => CallbackAction::Play(choice),
                        Interaction::Unrecognized => CallbackAction::Report,
                    }
                } else {
                    CallbackAction::Ignore
                }
            },
            None => CallbackAction::Ignore,
        }
    }

    /// The prompt that an action sends before anything else, where it sends
    /// one: the question of the variant that was picked.
    pub fn callback_prompt(action: CallbackAction) -> (prompt: Option<Prompt>)
        ensures
            match action {
                CallbackAction::Ask(game) => prompt is Some && prompt->0@ == choice_prompt_spec(game),
                _ => prompt is None,
            },
    {
        match action {
            CallbackAction::Ask(game) => Some(choice_prompt(game)),
            _ => None,
        }
    }

    /// The line that puts an unknown token on record.
    pub fn unknown_callback_text(token: &str) -> (line: String)
        ensures
            line@ == UNKNOWN_CALLBACK_LEAD@ + token@,
    {
        let mut line = String::from_str(UNKNOWN_CALLBACK_LEAD);
        line.append(token);
        line
    }
}

/// A token that the codec does not recognize leads to the record and to no
/// reply, wherever it came from.
pub proof fn lemma_unrecognized_is_silent(token: Seq<char>)
    requires
        interaction_of(token) is Unrecognized,
    ensures
        callback_action_spec(Some(token), true) == CallbackAction::Report,
        !replies(callback_action_spec(Some(token), true)),
        !replies(callback_action_spec(Some(token), false)),
{
}

} // verus!
