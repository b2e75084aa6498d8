//! The rules of the chat: what is announced when players come and go, and
//! what a line that a player sends does.

use vstd::prelude::*;
use vstd::string::*;
use crate::players::GameMode;
use crate::skybox::TimeOfDay;

verus! {

/// Size of the font of chat lines.
pub const CHAT_FONT_SIZE: u32 = 8;

/// Colour of chat lines.
pub const CHAT_TEXT_COLOR: &'static str = "#ffffff";

/// Marks the chat rules of the game.
pub struct ChatPlugin;

/// A player joined or left the server.
#[derive(Clone, Debug, PartialEq, Eq)]
pub enum NetworkEvent {
    Connected { username: String },
    Disconnected { username: String },
}

/// A line of text for a text box of the players' interface.
#[derive(Clone, Debug, PartialEq, Eq)]
pub struct InterfaceTextUpdate {
    /// The text box that the line goes to.
    pub interface_path: String,
    /// Where in the box the line is put.
    pub index: i32,
    pub text: String,
    pub font_size: u32,
    pub color: String,
}

/// What an `InterfaceTextUpdate` holds.
pub struct TextUpdate {
    pub interface_path: Seq<char>,
    pub index: int,
    pub text: Seq<char>,
    pub font_size: int,
    pub color: Seq<char>,
}

impl View for InterfaceTextUpdate {
    type V = TextUpdate;

    open spec fn view(&self) -> TextUpdate {
        TextUpdate {
            interface_path: self.interface_path@,
            index: self.index as int,
            text: self.text@,
            font_size: self.font_size as int,
            color: self.color@,
        }
    }
}

/// The line `text` as it is appended to the history of the chat.
pub open spec fn history_line(text: Seq<char>) -> TextUpdate {
    TextUpdate {
        interface_path: "chat/history"@,
        index: i32::MAX as int,
        text,
        font_size: CHAT_FONT_SIZE as int,
        color: CHAT_TEXT_COLOR@,
    }
}

/// The line that announces an event to the players.
pub open spec fn connection_message(event: NetworkEvent) -> TextUpdate {
    match event {
        NetworkEvent::Connected { username } => history_line(username@ + " joined the game"@),
        NetworkEvent::Disconnected { username } => history_line(username@ + " left the game"@),
    }
}

/// The line `text` as it is appended to the history of the chat.
fn line_for_history(text: String) -> (line: InterfaceTextUpdate)
    ensures
        line@ == history_line(text@),
{
    InterfaceTextUpdate {
        interface_path: "chat/history".to_owned(),
        index: i32::MAX,
        text,
        font_size: CHAT_FONT_SIZE,
        color: CHAT_TEXT_COLOR.to_owned(),
    }
}

/// The lines that announce to the players who joined and who left, one for
/// each event, in their order.
pub fn send_connection_messages(network_events: &Vec<NetworkEvent>) -> (messages: Vec<
    InterfaceTextUpdate,
>)
    ensures
        messages.len() == network_events.len(),
        forall|i: int|
            0 <= i < messages.len() ==> (#[trigger] messages[i])@ == connection_message(
                network_events[i],
            ),
{
    let mut messages: Vec<InterfaceTextUpdate> = Vec::new();
    let mut i: usize = 0;
    while i < network_events.len()
        invariant
            i <= network_events.len(),
            messages.len() == i,
            forall|j: int|
                0 <= j < i ==> (#[trigger] messages[j])@ == connection_message(network_events[j]),
        decreases network_events.len() - i,
    {
        let mut text = String::new();
        match &network_events[i] {
            NetworkEvent::Connected { username } => {
                text.append(username.as_str());
                text.append(" joined the game");
            },
            NetworkEvent::Disconnected { username } => {
                text.append(username.as_str());
                text.append(" left the game");
            },
        }
        messages.push(line_for_history(text));
        i += 1;
    }
    messages
}

/// A line of text that a player entered into a text box.
#[derive(Clone, Debug, PartialEq, Eq)]
pub struct ChatMessage {
    /// The name of the player.
    pub username: String,
    /// The text box that the line was entered into.
    pub interface_path: String,
    pub text: String,
}

/// What a line of text that a player entered does.
#[derive(Clone, Debug, PartialEq, Eq)]
pub enum ChatAction {
    /// Nothing.
    Ignore,
    /// The clock is set.
    SetTime(TimeOfDay),
    /// The game mode of the player changes.
    SetGameMode(GameMode),
    /// The line is sent to every player.
    Broadcast(InterfaceTextUpdate),
}

/// What a `ChatAction` holds.
pub enum Action {
    Ignore,
    SetTime(TimeOfDay),
    SetGameMode(GameMode),
    Broadcast(TextUpdate),
}

impl View for ChatAction {
    type V = Action;

    open spec fn view(&self) -> Action {
        match self {
            ChatAction::Ignore => Action::Ignore,
            ChatAction::SetTime(time) => Action::SetTime(*time),
            ChatAction::SetGameMode(mode) => Action::SetGameMode(*mode),
            ChatAction::Broadcast(line) => Action::Broadcast(line@),
        }
    }
}

/// Whether a line is a command: whether it begins with a slash.
pub open spec fn is_command(text: Seq<char>) -> bool {
    text.len() > 0 && text[0] == '/'
}

/// What a command does. A command that is not known does nothing.
pub open spec fn command_action(text: Seq<char>) -> Action {
    if text == "/time noon"@ {
        Action::SetTime(TimeOfDay::Noon)
    } else if text == "/time midnight"@ {
        Action::SetTime(TimeOfDay::Midnight)
    } else if text == "/time sunrise"@ {
        Action::SetTime(TimeOfDay::Sunrise)
    } else if text == "/time sunset"@ {
        Action::SetTime(TimeOfDay::Sunset)
    } else if text == "/gamemode 0"@ {
        Action::SetGameMode(GameMode::Survival)
    } else if text == "/gamemode 1"@ {
        Action::SetGameMode(GameMode::Creative)
    } else {
        Action::Ignore
    }
}

/// What a line of text that a player entered does.
///
/// Only what is entered into the chat counts. There a command is carried
/// out, and any other line is sent to every player under the name of its
/// author.
pub open spec fn chat_action(message: ChatMessage) -> Action {
    if message.interface_path@ != "chat/input"@ {
        Action::Ignore
    } else if is_command(message.text@) {
        command_action(message.text@)
    } else {
        Action::Broadcast(
            history_line("["@ + message.username@ + "] "@ + message.text@),
        )
    }
}

/// Whether `text` reads `literal`.
fn reads(text: &String, literal: &str) -> (result: bool)
    ensures
        result == (text@ == literal@),
{
    *text == literal.to_owned()
}

/// What a command does.
fn run_command(text: &String) -> (action: ChatAction)
    ensures
        action@ == command_action(text@),
{
    if reads(text, "/time noon") {
        ChatAction::SetTime(TimeOfDay::Noon)
    } else if reads(text, "/time midnight") {
        ChatAction::SetTime(TimeOfDay::Midnight)
    } else if reads(text, "/time sunrise") {
        ChatAction::SetTime(TimeOfDay::Sunrise)
    } else if reads(text, "/time sunset") {
        ChatAction::SetTime(TimeOfDay::Sunset)
    } else if reads(text, "/gamemode 0") {
        ChatAction::SetGameMode(GameMode::Survival)
    } else if reads(text, "/gamemode 1") {
        ChatAction::SetGameMode(GameMode::Creative)
    } else {
        ChatAction::Ignore
    }
}

/// What one line of text that a player entered does.
pub fn handle_chat_message(message: &ChatMessage) -> (action: ChatAction)
    ensures
        action@ == chat_action(*message),
{
    if !reads(&message.interface_path, "chat/input") {
        return ChatAction::Ignore;
    }
    let text = message.text.as_str();
    if !text.is_empty() && text.get_char(0) == '/' {
        return run_command(&message.text);
    }
    let mut line = String::new();
    line.append("[");
    line.append(message.username.as_str());
    line.append("] ");
    line.append(text);
    assert(line@ =~= "["@ + message.username@ + "] "@ + message.text@);
    ChatAction::Broadcast(line_for_history(line))
}

/// What the lines of text that players entered do, one action for each
/// line, in their order.
pub fn handle_chat_messages(chat_messages: &Vec<ChatMessage>) -> (actions: Vec<ChatAction>)
    ensures
        actions.len() == chat_messages.len(),
        forall|i: int|
            0 <= i < actions.len() ==> (#[trigger] actions[i])@ == chat_action(chat_messages[i]),
{
    let mut actions: Vec<ChatAction> = Vec::new();
    let mut i: usize = 0;
    while i < chat_messages.len()
        invariant
            i <= chat_messages.len(),
            actions.len() == i,
            forall|j: int|
                0 <= j < i ==> (#[trigger] actions[j])@ == chat_action(chat_messages[j]),
        decreases chat_messages.len() - i,
    {
        actions.push(handle_chat_message(&chat_messages[i]));
        i += 1;
    }
    actions
}

} // verus!
