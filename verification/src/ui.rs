//! The state of the chat screen: the line being typed, the messages shown
//! and whether the user has asked to leave.
//!
//! Drawing the screen and reading the keyboard are the caller's business.
//! Each key that was pressed is handed to [`ChatUI::handle_key`], which
//! changes the state and says what the application is to do.
use vstd::prelude::*;
use vstd::string::*;

verus! {

/// The number of messages that the screen keeps.
pub const MAX_MESSAGES: usize = 100;

/// What the screen asks the application to do.
#[derive(Debug)]
pub enum UIEvent {
    Quit,
    SendMessage(String),
    SwitchTab(usize),
    StatusCheck(String),
    Input(String),
}

/// The mathematical value of a [`UIEvent`].
pub enum UIEventView {
    Quit,
    SendMessage(Seq<char>),
    SwitchTab(usize),
    StatusCheck(Seq<char>),
    Input(Seq<char>),
}

impl View for UIEvent {
    type V = UIEventView;

    open spec fn view(&self) -> UIEventView {
        match self {
            UIEvent::Quit => UIEventView::Quit,
            UIEvent::SendMessage(text) => UIEventView::SendMessage(text@),
            UIEvent::SwitchTab(tab) => UIEventView::SwitchTab(*tab),
            UIEvent::StatusCheck(peer) => UIEventView::StatusCheck(peer@),
            UIEvent::Input(line) => UIEventView::Input(line@),
        }
    }
}

/// The view of an optional event.
pub open spec fn event_view(event: Option<UIEvent>) -> Option<UIEventView> {
    match event {
        Some(e) => Some(e@),
        None => None,
    }
}

/// A key of the keyboard, as far as the screen tells keys apart.
#[derive(Debug, Clone, Copy, PartialEq, Eq, Structural)]
pub enum Key {
    /// The letter c with the control key held.
    Interrupt,
    Enter,
    Backspace,
    Escape,
    Char(char),
    Other,
}

/// One line of the screen.
#[derive(Debug)]
pub struct ScreenMessage {
    pub sender: String,
    pub content: String,
    pub timestamp: i64,
    pub is_own: bool,
    pub is_system: bool,
}

/// The line that asks to leave.
pub open spec fn quit_line() -> Seq<char> {
    "/quit"@
}

/// The messages after one more arrived: behind the others, and where the
/// screen was full the oldest goes.
pub open spec fn screen_after(before: Seq<ScreenMessage>, message: ScreenMessage) -> Seq<
    ScreenMessage,
> {
    if before.len() + 1 > MAX_MESSAGES {
        before.push(message).subrange(1, before.len() as int + 1)
    } else {
        before.push(message)
    }
}

/// Calls `String::from_iter` on the characters. Trusted: the text holds
/// exactly these characters, in order.
#[verifier::external_body]
fn text_of(chars: &Vec<char>) -> (text: String)
    ensures
        text@ == chars@,
{
    String::from_iter(chars.iter())
}

/// The chat screen.
#[derive(Debug)]
pub struct ChatUI {
    pub messages: Vec<ScreenMessage>,
    pub input: Vec<char>,
    pub should_quit: bool,
}

impl ChatUI {
    /// A screen without messages and with an empty line.
    pub fn new() -> (ui: ChatUI)
        ensures
            ui.messages@.len() == 0,
            ui.input@.len() == 0,
            !ui.should_quit,
    {
        ChatUI { messages: Vec::new(), input: Vec::new(), should_quit: false }
    }

    /// Takes a key that was pressed.
    ///
    /// Interrupt and escape ask to leave. A character goes to the end of
    /// the line, and backspace takes the last one away. Enter on an empty
    /// line does nothing; on `/quit` it asks to leave; on any other line it
    /// hands the line to the application. Enter always empties the line.
    /// The messages are not touched.
    pub fn handle_key(&mut self, key: Key) -> (event: Option<UIEvent>)
        ensures
            final(self).messages == old(self).messages,
            match key {
                Key::Interrupt | Key::Escape => {
                    &&& event_view(event) == Some(UIEventView::Quit)
                    &&& final(self).should_quit
                    &&& final(self).input == old(self).input
                },
                Key::Char(c) => {
                    &&& event is None
                    &&& final(self).input@ == old(self).input@.push(c)
                    &&& final(self).should_quit == old(self).should_quit
                },
                Key::Backspace => {
                    &&& event is None
                    &&& final(self).input@ == if old(self).input@.len() > 0 {
                        old(self).input@.drop_last()
                    } else {
                        old(self).input@
                    }
                    &&& final(self).should_quit == old(self).should_quit
                },
                Key::Enter => {
                    &&& final(self).input@.len() == 0
                    &&& if old(self).input@.len() == 0 {
                        event is None && final(self).should_quit == old(self).should_quit
                    } else if old(self).input@ == quit_line() {
                        event_view(event) == Some(UIEventView::Quit) && final(self).should_quit
                    } else {
                        event_view(event) == Some(UIEventView::Input(old(self).input@))
                            && final(self).should_quit == old(self).should_quit
                    }
                },
                Key::Other => event is None && *final(self) == *old(self),
            },
    {
        match key {
            Key::Interrupt | Key::Escape => {
                self.should_quit = true;
                Some(UIEvent::Quit)
            },
            Key::Char(c) => {
                self.input.push(c);
                None
            },
            Key::Backspace => {
                if self.input.len() > 0 {
                    let _ = self.input.pop();
                    assert(self.input@ =~= old(self).input@.drop_last());
                }
                None
            },
            Key::Enter => {
                if self.input.len() == 0 {
                    return None;
                }
                let line = text_of(&self.input);
                self.input.clear();
                if line == "/quit".to_string() {
                    self.should_quit = true;
                    Some(UIEvent::Quit)
                } else {
                    Some(UIEvent::Input(line))
                }
            },
            Key::Other => None,
        }
    }

    /// What the application is to do next: leave, once that was asked.
    pub fn next_event(&self) -> (event: Option<UIEvent>)
        ensures
            event_view(event) == if self.should_quit {
                Some(UIEventView::Quit)
            } else {
                None
            },
    {
        if self.should_quit {
            Some(UIEvent::Quit)
        } else {
            None
        }
    }

    /// Puts a line on the screen; the oldest goes where the screen is full.
    fn show(&mut self, message: ScreenMessage)
        ensures
            final(self).messages@ == screen_after(old(self).messages@, message),
            final(self).input == old(self).input,
            final(self).should_quit == old(self).should_quit,
    {
        self.messages.push(message);
        if self.messages.len() > MAX_MESSAGES {
            let ghost full = self.messages@;
            let _ = self.messages.remove(0);
            assert(self.messages@ =~= full.subrange(1, full.len() as int));
        }
    }

    /// Shows a message of `sender` that arrived or was sent at `now`.
    pub fn add_message(&mut self, sender: &str, content: &str, is_own: bool, now: i64)
        ensures
            final(self).messages@.len() == if old(self).messages@.len() >= MAX_MESSAGES {
                old(self).messages@.len()
            } else {
                old(self).messages@.len() + 1
            },
            final(self).messages@.drop_last() == if old(self).messages@.len() >= MAX_MESSAGES {
                old(self).messages@.subrange(1, old(self).messages@.len() as int)
            } else {
                old(self).messages@
            },
            final(self).messages@.last().sender@ == sender@,
            final(self).messages@.last().content@ == content@,
            final(self).messages@.last().timestamp == now,
            final(self).messages@.last().is_own == is_own,
            !final(self).messages@.last().is_system,
            final(self).input == old(self).input,
            final(self).should_quit == old(self).should_quit,
    {
        let message = ScreenMessage {
            sender: sender.to_string(),
            content: content.to_string(),
            timestamp: now,
            is_own,
            is_system: false,
        };
        self.show(message);
        assert(self.messages@.drop_last() =~= if old(self).messages@.len() >= MAX_MESSAGES {
            old(self).messages@.subrange(1, old(self).messages@.len() as int)
        } else {
            old(self).messages@
        });
    }

    /// Shows a notice of the application itself at `now`.
    pub fn add_system_message(&mut self, content: &str, now: i64)
        ensures
            final(self).messages@.len() == if old(self).messages@.len() >= MAX_MESSAGES {
                old(self).messages@.len()
            } else {
                old(self).messages@.len() + 1
            },
            final(self).messages@.drop_last() == if old(self).messages@.len() >= MAX_MESSAGES {
                old(self).messages@.subrange(1, old(self).messages@.len() as int)
            } else {
                old(self).messages@
            },
            final(self).messages@.last().sender@ == crate::message::system_name(),
            final(self).messages@.last().content@ == content@,
            final(self).messages@.last().timestamp == now,
            !final(self).messages@.last().is_own,
            final(self).messages@.last().is_system,
            final(self).input == old(self).input,
            final(self).should_quit == old(self).should_quit,
    {
        let message = ScreenMessage {
            sender: "System".to_string(),
            content: content.to_string(),
            timestamp: now,
            is_own: false,
            is_system: true,
        };
        self.show(message);
        assert(self.messages@.drop_last() =~= if old(self).messages@.len() >= MAX_MESSAGES {
            old(self).messages@.subrange(1, old(self).messages@.len() as int)
        } else {
            old(self).messages@
        });
    }
}

} // verus!
