//! The commands of the chat prompt: what a line of input asks for.
//!
//! Reading the line and carrying the command out are the caller's
//! business; here the line is taken apart and classified.
use vstd::prelude::*;
use vstd::string::*;
use crate::text::{copy_text, join_texts, joined_spec, split_words, texts_view, words_spec};

verus! {

/// A command that lacks an argument.
#[derive(Debug, Clone, Copy, PartialEq, Eq, Structural)]
pub enum Usage {
    Status,
    Connect,
    Send,
    Nick,
}

/// What a line of input asks for.
#[derive(Debug)]
pub enum Command {
    /// The line is empty or does not begin with a slash.
    Invalid,
    Help,
    Id,
    Peers,
    /// The liveness of the peer with this identifier.
    Status(String),
    /// A connection to this address.
    Connect(String),
    /// To this peer, this text.
    Send(String, String),
    /// A new display name.
    Nick(String),
    /// The recent messages: as many as the number says, if one was given.
    History(Option<u64>),
    Info,
    Quit,
    /// The command lacks an argument.
    Usage(Usage),
    /// No such command.
    Unknown(String),
}

/// The mathematical value of a [`Command`].
pub enum CommandView {
    Invalid,
    Help,
    Id,
    Peers,
    Status(Seq<char>),
    Connect(Seq<char>),
    Send(Seq<char>, Seq<char>),
    Nick(Seq<char>),
    History(Option<u64>),
    Info,
    Quit,
    Usage(Usage),
    Unknown(Seq<char>),
}

impl View for Command {
    type V = CommandView;

    open spec fn view(&self) -> CommandView {
        match self {
            Command::Invalid => CommandView::Invalid,
            Command::Help => CommandView::Help,
            Command::Id => CommandView::Id,
            Command::Peers => CommandView::Peers,
            Command::Status(peer) => CommandView::Status(peer@),
            Command::Connect(address) => CommandView::Connect(address@),
            Command::Send(peer, text) => CommandView::Send(peer@, text@),
            Command::Nick(name) => CommandView::Nick(name@),
            Command::History(limit) => CommandView::History(*limit),
            Command::Info => CommandView::Info,
            Command::Quit => CommandView::Quit,
            Command::Usage(usage) => CommandView::Usage(*usage),
            Command::Unknown(word) => CommandView::Unknown(word@),
        }
    }
}

/// The number that a text states, as `str::parse` reads a `u64`; nothing
/// for a text that is no such number.
pub uninterp spec fn count_spec(text: Seq<char>) -> Option<u64>;

/// Calls `str::parse::<u64>`. Trusted: the result is the named number,
/// nothing where the text is refused.
#[verifier::external_body]
fn parse_count(text: &str) -> (count: Option<u64>)
    ensures
        count == count_spec(text@),
{
    text.parse::<u64>().ok()
}

/// The words from the position `from` on, joined by single spaces.
pub open spec fn rest_spec(words: Seq<Seq<char>>, from: int) -> Seq<char> {
    joined_spec(words.subrange(from, words.len() as int), " "@)
}

/// The command that the words of a line spell. The first word names the
/// command and must begin with a slash; the words after it are its
/// arguments, and the last argument of `/send` and `/nick` takes all the
/// words that remain.
pub open spec fn command_spec(words: Seq<Seq<char>>) -> CommandView {
    if words.len() == 0 || words[0].len() == 0 || words[0][0] != '/' {
        CommandView::Invalid
    } else if words[0] == "/help"@ {
        CommandView::Help
    } else if words[0] == "/id"@ {
        CommandView::Id
    } else if words[0] == "/peers"@ {
        CommandView::Peers
    } else if words[0] == "/status"@ {
        if words.len() < 2 {
            CommandView::Usage(Usage::Status)
        } else {
            CommandView::Status(words[1])
        }
    } else if words[0] == "/connect"@ {
        if words.len() < 2 {
            CommandView::Usage(Usage::Connect)
        } else {
            CommandView::Connect(words[1])
        }
    } else if words[0] == "/send"@ {
        if words.len() < 3 {
            CommandView::Usage(Usage::Send)
        } else {
            CommandView::Send(words[1], rest_spec(words, 2))
        }
    } else if words[0] == "/nick"@ {
        if words.len() < 2 {
            CommandView::Usage(Usage::Nick)
        } else {
            CommandView::Nick(rest_spec(words, 1))
        }
    } else if words[0] == "/history"@ {
        CommandView::History(None)
    } else if words[0] == "/quit"@ {
        CommandView::Quit
    } else {
        CommandView::Unknown(words[0])
    }
}

/// The number of messages that `/history` shows in a session where none is
/// asked for.
pub const SESSION_HISTORY: u64 = 10;

/// The number of messages after `/history`: the number that follows it, or
/// else ten.
pub open spec fn history_limit_spec(words: Seq<Seq<char>>) -> u64 {
    if words.len() < 2 {
        SESSION_HISTORY
    } else {
        match count_spec(words[1]) {
            Some(limit) => limit,
            None => SESSION_HISTORY,
        }
    }
}

/// The command that the words of a line spell at the prompt of a session.
/// The first word names the command: `/help`, `/connect` with an address,
/// `/peers`, `/info`, `/history` with or without a number, and `/quit` or
/// `/exit`. Every other line is unknown, and is handed back with single
/// spaces between its words.
pub open spec fn session_command_spec(words: Seq<Seq<char>>) -> CommandView {
    if words.len() == 0 {
        CommandView::Unknown(Seq::empty())
    } else if words[0] == "/help"@ {
        CommandView::Help
    } else if words[0] == "/connect"@ {
        if words.len() < 2 {
            CommandView::Usage(Usage::Connect)
        } else {
            CommandView::Connect(words[1])
        }
    } else if words[0] == "/peers"@ {
        CommandView::Peers
    } else if words[0] == "/info"@ {
        CommandView::Info
    } else if words[0] == "/history"@ {
        CommandView::History(Some(history_limit_spec(words)))
    } else if words[0] == "/quit"@ || words[0] == "/exit"@ {
        CommandView::Quit
    } else {
        CommandView::Unknown(rest_spec(words, 0))
    }
}

/// The lines of the help text, one for each command.
pub open spec fn commands_spec() -> Seq<Seq<char>> {
    seq![
        "/connect <IP:PORT> - Connect to a peer"@,
        "/send <peer_id> <message> - Send message to peer"@,
        "/nick <name> - Set display name"@,
        "/peers - List connected peers"@,
        "/status <peer_id> - Check peer online status"@,
        "/history - Show message history"@,
        "/id - Show user ID and info"@,
        "/help - Show this help"@,
        "/quit - Exit application"@,
    ]
}

/// How a command that lacks an argument is to be written.
pub open spec fn usage_spec(usage: Usage) -> Seq<char> {
    match usage {
        Usage::Status => "Usage: /status <peer_id>"@,
        Usage::Connect => "Usage: /connect <IP:PORT>"@,
        Usage::Send => "Usage: /send <peer_id> <message>"@,
        Usage::Nick => "Usage: /nick <nickname>"@,
    }
}

/// The answer to a command that can be answered without the network;
/// nothing for the others.
pub open spec fn reply_spec(command: CommandView) -> Option<Seq<char>> {
    match command {
        CommandView::Invalid => Some("Invalid command. Type /help for available commands."@),
        CommandView::Help => Some("Available commands:\n"@ + joined_spec(commands_spec(), "\n"@)),
        CommandView::Quit => Some("quit"@),
        CommandView::Usage(usage) => Some(usage_spec(usage)),
        CommandView::Unknown(word) => Some(
            "Unknown command: "@ + word + ". Type /help for available commands."@,
        ),
        _ => None,
    }
}

/// The view of an optional text.
pub open spec fn reply_view(reply: Option<String>) -> Option<Seq<char>> {
    match reply {
        Some(text) => Some(text@),
        None => None,
    }
}

/// The lines of the help text.
pub fn list_commands() -> (lines: Vec<String>)
    ensures
        texts_view(lines@) == commands_spec(),
{
    let mut lines: Vec<String> = Vec::new();
    lines.push("/connect <IP:PORT> - Connect to a peer".to_string());
    lines.push("/send <peer_id> <message> - Send message to peer".to_string());
    lines.push("/nick <name> - Set display name".to_string());
    lines.push("/peers - List connected peers".to_string());
    lines.push("/status <peer_id> - Check peer online status".to_string());
    lines.push("/history - Show message history".to_string());
    lines.push("/id - Show user ID and info".to_string());
    lines.push("/help - Show this help".to_string());
    lines.push("/quit - Exit application".to_string());
    assert(texts_view(lines@) =~= commands_spec());
    lines
}

/// The command that the words of a line spell.
pub fn command_of(words: &Vec<String>) -> (command: Command)
    ensures
        command@ == command_spec(texts_view(words@)),
{
    if words.len() == 0 {
        return Command::Invalid;
    }
    let ghost spelled = texts_view(words@);
    assert(spelled[0] == words@[0]@);
    let first = &words[0];
    if first.as_str().unicode_len() == 0 || first.as_str().get_char(0) != '/' {
        return Command::Invalid;
    }
    if *first == "/help".to_string() {
        Command::Help
    } else if *first == "/id".to_string() {
        Command::Id
    } else if *first == "/peers".to_string() {
        Command::Peers
    } else if *first == "/status".to_string() {
        if words.len() < 2 {
            Command::Usage(Usage::Status)
        } else {
            assert(spelled[1] == words@[1]@);
            Command::Status(copy_text(&words[1]))
        }
    } else if *first == "/connect".to_string() {
        if words.len() < 2 {
            Command::Usage(Usage::Connect)
        } else {
            assert(spelled[1] == words@[1]@);
            Command::Connect(copy_text(&words[1]))
        }
    } else if *first == "/send".to_string() {
        if words.len() < 3 {
            Command::Usage(Usage::Send)
        } else {
            assert(spelled[1] == words@[1]@);
            Command::Send(copy_text(&words[1]), join_texts(words, 2, " "))
        }
    } else if *first == "/nick".to_string() {
        if words.len() < 2 {
            Command::Usage(Usage::Nick)
        } else {
            Command::Nick(join_texts(words, 1, " "))
        }
    } else if *first == "/history".to_string() {
        Command::History(None)
    } else if *first == "/quit".to_string() {
        Command::Quit
    } else {
        Command::Unknown(copy_text(first))
    }
}

/// The command that the words of a line spell at the prompt of a
/// session.
pub fn session_command_of(words: &Vec<String>) -> (command: Command)
    ensures
        command@ == session_command_spec(texts_view(words@)),
{
    if words.len() == 0 {
        return Command::Unknown(String::new());
    }
    let ghost spelled = texts_view(words@);
    assert(spelled[0] == words@[0]@);
    let first = &words[0];
    if *first == "/help".to_string() {
        Command::Help
    } else if *first == "/connect".to_string() {
        if words.len() < 2 {
            Command::Usage(Usage::Connect)
        } else {
            assert(spelled[1] == words@[1]@);
            Command::Connect(copy_text(&words[1]))
        }
    } else if *first == "/peers".to_string() {
        Command::Peers
    } else if *first == "/info".to_string() {
        Command::Info
    } else if *first == "/history".to_string() {
        if words.len() < 2 {
            Command::History(Some(SESSION_HISTORY))
        } else {
            assert(spelled[1] == words@[1]@);
            match parse_count(words[1].as_str()) {
                Some(limit) => Command::History(Some(limit)),
                None => Command::History(Some(SESSION_HISTORY)),
            }
        }
    } else if *first == "/quit".to_string() || *first == "/exit".to_string() {
        Command::Quit
    } else {
        Command::Unknown(join_texts(words, 0, " "))
    }
}

/// The command that a line of input spells at the prompt of a session:
/// its words are those between white space.
pub fn parse_session_command(input: &str) -> (command: Command)
    ensures
        command@ == session_command_spec(words_spec(input@)),
{
    let words = split_words(input);
    session_command_of(&words)
}

/// The command that a line of input spells: its words are those between
/// white space.
pub fn parse_command(input: &str) -> (command: Command)
    ensures
        command@ == command_spec(words_spec(input@)),
{
    let words = split_words(input);
    command_of(&words)
}

impl Command {
    /// The answer to the command where it needs no network: to a line
    /// that is no command, to a command that is unknown or lacks an
    /// argument, to `/help` and to `/quit`.
    pub fn reply(&self) -> (reply: Option<String>)
        ensures
            reply_view(reply) == reply_spec(self@),
    {
        match self {
            Command::Invalid => Some(
                "Invalid command. Type /help for available commands.".to_string(),
            ),
            Command::Help => {
                let lines = list_commands();
                let listed = join_texts(&lines, 0, "\n");
                assert(texts_view(lines@).subrange(0, lines@.len() as int) =~= commands_spec());
                Some(String::from_str("Available commands:\n").concat(listed.as_str()))
            },
            Command::Quit => Some("quit".to_string()),
            Command::Usage(usage) => Some(
                match usage {
                    Usage::Status => "Usage: /status <peer_id>".to_string(),
                    Usage::Connect => "Usage: /connect <IP:PORT>".to_string(),
                    Usage::Send => "Usage: /send <peer_id> <message>".to_string(),
                    Usage::Nick => "Usage: /nick <nickname>".to_string(),
                },
            ),
            Command::Unknown(word) => Some(
                String::from_str("Unknown command: ").concat(word.as_str()).concat(
                    ". Type /help for available commands.",
                ),
            ),
            _ => None,
        }
    }
}

/// The answer to `/connect`: `error` says why the connection failed, if
/// it did.
pub open spec fn connect_reply_spec(address: Seq<char>, error: Option<Seq<char>>) -> Seq<char> {
    match error {
        None => "Successfully connected to "@ + address,
        Some(reason) => "Failed to connect to "@ + address + ": "@ + reason,
    }
}

/// The answer to `/send`.
pub open spec fn send_reply_spec(peer_id: Seq<char>, error: Option<Seq<char>>) -> Seq<char> {
    match error {
        None => "Message sent to "@ + peer_id,
        Some(reason) => "Failed to send message: "@ + reason,
    }
}

/// The answer to `/nick`.
pub open spec fn nick_reply_spec(nickname: Seq<char>, error: Option<Seq<char>>) -> Seq<char> {
    match error {
        None => "Nickname set to: "@ + nickname,
        Some(reason) => "Failed to set nickname: "@ + reason,
    }
}

/// The word for a peer that answers, and for one that does not.
pub open spec fn online_word(is_online: bool) -> Seq<char> {
    if is_online {
        "online"@
    } else {
        "offline"@
    }
}

/// The answer to `/status`.
pub open spec fn status_reply_spec(peer_id: Seq<char>, is_online: bool, last_seen: Seq<char>)
    -> Seq<char> {
    "Peer "@ + peer_id + " status: "@ + online_word(is_online) + " (last seen: "@ + last_seen
        + ")"@
}

/// The line of one peer in the answer to `/peers`.
pub open spec fn peer_line_spec(email: Seq<char>, id: Seq<char>, is_online: bool) -> Seq<char> {
    "\u{2022} "@ + email + " ("@ + id + ") - "@ + online_word(is_online)
}

/// The answer to `/peers`, given the line of each peer.
pub open spec fn peers_reply_spec(lines: Seq<Seq<char>>) -> Seq<char> {
    if lines.len() == 0 {
        "No connected peers."@
    } else {
        "Connected Peers:\n"@ + joined_spec(lines, "\n"@)
    }
}

/// The line of one message in the answer to `/history`.
pub open spec fn history_line_spec(time: Seq<char>, sender: Seq<char>, content: Seq<char>) -> Seq<
    char,
> {
    "["@ + time + "] "@ + sender + ": "@ + content
}

/// The answer to `/history`, given the line of each message.
pub open spec fn history_reply_spec(lines: Seq<Seq<char>>) -> Seq<char> {
    if lines.len() == 0 {
        "No message history."@
    } else {
        "Recent Messages:\n"@ + joined_spec(lines, "\n"@)
    }
}

/// The text `success` followed by `subject`, or, where there is an error,
/// `failure` followed by the reason.
fn outcome_reply(success: &str, subject: &str, failure: String, error: Option<&str>) -> (reply:
    String)
    ensures
        reply@ == match error {
            None => success@ + subject@,
            Some(reason) => failure@ + reason@,
        },
{
    match error {
        None => String::from_str(success).concat(subject),
        Some(reason) => failure.concat(reason),
    }
}

/// The view of an optional text.
pub open spec fn reason_view(error: Option<&str>) -> Option<Seq<char>> {
    match error {
        Some(reason) => Some(reason@),
        None => None,
    }
}

/// The answer to `/connect`.
pub fn connect_reply(address: &str, error: Option<&str>) -> (reply: String)
    ensures
        reply@ == connect_reply_spec(address@, reason_view(error)),
{
    let failure = String::from_str("Failed to connect to ").concat(address).concat(": ");
    outcome_reply("Successfully connected to ", address, failure, error)
}

/// The answer to `/send`.
pub fn send_reply(peer_id: &str, error: Option<&str>) -> (reply: String)
    ensures
        reply@ == send_reply_spec(peer_id@, reason_view(error)),
{
    outcome_reply("Message sent to ", peer_id, String::from_str("Failed to send message: "), error)
}

/// The answer to `/nick`.
pub fn nick_reply(nickname: &str, error: Option<&str>) -> (reply: String)
    ensures
        reply@ == nick_reply_spec(nickname@, reason_view(error)),
{
    outcome_reply(
        "Nickname set to: ",
        nickname,
        String::from_str("Failed to set nickname: "),
        error,
    )
}

/// The answer to `/status`.
pub fn status_reply(peer_id: &str, is_online: bool, last_seen: &str) -> (reply: String)
    ensures
        reply@ == status_reply_spec(peer_id@, is_online, last_seen@),
{
    let word = if is_online {
        "online"
    } else {
        "offline"
    };
    String::from_str("Peer ").concat(peer_id).concat(" status: ").concat(word).concat(
        " (last seen: ",
    ).concat(last_seen).concat(")")
}

/// The line of one peer in the answer to `/peers`.
pub fn peer_line(email: &str, id: &str, is_online: bool) -> (line: String)
    ensures
        line@ == peer_line_spec(email@, id@, is_online),
{
    let word = if is_online {
        "online"
    } else {
        "offline"
    };
    String::from_str("\u{2022} ").concat(email).concat(" (").concat(id).concat(") - ").concat(word)
}

/// The answer to `/peers`, given the line of each peer.
pub fn peers_reply(lines: &Vec<String>) -> (reply: String)
    ensures
        reply@ == peers_reply_spec(texts_view(lines@)),
{
    if lines.len() == 0 {
        "No connected peers.".to_string()
    } else {
        let listed = join_texts(lines, 0, "\n");
        assert(texts_view(lines@).subrange(0, lines@.len() as int) =~= texts_view(lines@));
        String::from_str("Connected Peers:\n").concat(listed.as_str())
    }
}

/// The line of one message in the answer to `/history`.
pub fn history_line(time: &str, sender: &str, content: &str) -> (line: String)
    ensures
        line@ == history_line_spec(time@, sender@, content@),
{
    String::from_str("[").concat(time).concat("] ").concat(sender).concat(": ").concat(content)
}

/// The answer to `/history`, given the line of each message.
pub fn history_reply(lines: &Vec<String>) -> (reply: String)
    ensures
        reply@ == history_reply_spec(texts_view(lines@)),
{
    if lines.len() == 0 {
        "No message history.".to_string()
    } else {
        let listed = join_texts(lines, 0, "\n");
        assert(texts_view(lines@).subrange(0, lines@.len() as int) =~= texts_view(lines@));
        String::from_str("Recent Messages:\n").concat(listed.as_str())
    }
}

} // verus!
