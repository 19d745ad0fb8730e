//! The state behind the chat window: the conversation so far, the line being
//! typed, and what the user has asked for.

use vstd::prelude::*;
use vstd::string::*;
use crate::message::decode;
use crate::message::deserialise;
use crate::message::encode;
use crate::message::frameable;
use crate::message::lemma_decode_frame_then;
use crate::message::lemma_decode_with_bar;
use crate::message::lemma_decode_without_last_newline;
use crate::message::views;
use crate::message::Message;
use crate::message::MessageView;
use crate::text::push_chars;

verus! {

/// How long the window's poller pauses when the inbox held nothing, in
/// milliseconds.
pub const IDLE_POLL_MILLIS: u64 = 500;

/// A pressed key, as far as the window tells keys apart.
pub enum Key {
    Esc,
    Backspace,
    Enter,
    Char(char),
    Other,
}

/// What one round of the window's poller asks for.
pub struct Poll {
    /// The message to send to the server, where the user submitted one.
    pub outgoing: Option<Message>,
    /// Whether the window has to be drawn again.
    pub redraw: bool,
}

/// One line of the drawn conversation.
pub struct Row {
    /// The author, drawn in the colour of notices or in that of peers.
    pub author: String,
    /// Whether the line is one of the server's own notices.
    pub notice: bool,
    /// The content, drawn behind the separator.
    pub content: String,
}

/// The value of a [`Row`].
pub struct RowView {
    pub author: Seq<char>,
    pub notice: bool,
    pub content: Seq<char>,
}

impl View for Row {
    type V = RowView;

    open spec fn view(&self) -> RowView {
        RowView { author: self.author@, notice: self.notice, content: self.content@ }
    }
}

impl DeepView for Row {
    type V = RowView;

    open spec fn deep_view(&self) -> RowView {
        self@
    }
}

/// What the window shows: a title on the frame's upper edge, the
/// conversation inside the frame, the typed line on its lower edge.
pub struct Screen {
    pub title: String,
    pub rows: Vec<Row>,
    pub input: String,
}

/// The value of a [`Screen`].
pub struct ScreenView {
    pub title: Seq<char>,
    pub rows: Seq<RowView>,
    pub input: Seq<char>,
}

impl View for Screen {
    type V = ScreenView;

    open spec fn view(&self) -> ScreenView {
        ScreenView { title: self.title@, rows: self.rows.deep_view(), input: self.input@ }
    }
}

/// What stands between author and content on a drawn line.
pub const SEPARATOR: &'static str = " -> ";

/// The line drawn for a message.
pub open spec fn row_of(m: MessageView) -> RowView {
    RowView { author: m.author, notice: m.author == "SERVER"@, content: m.content }
}

/// The screen of a window with this conversation and this typed line: one
/// row for each message, oldest first.
pub open spec fn screen_of(conversation: Seq<MessageView>, typed: Seq<char>) -> ScreenView {
    ScreenView {
        title: " Rust Messaging App "@,
        rows: Seq::new(conversation.len(), |i: int| row_of(conversation[i])),
        input: typed,
    }
}

/// The window's state.
pub struct Application {
    messages: Vec<Message>,
    user_input: Vec<char>,
    pub exit: bool,
    send: bool,
}

/// The line that composing decodes: host name, `|`, typed line.
pub open spec fn composed_line(hostname: Seq<char>, user_input: Seq<char>) -> Seq<char> {
    hostname + seq!['|'] + user_input
}

/// The message a user at `hostname` submits by the line `user_input`: the
/// first message that `hostname|user_input` decodes to. There always is one,
/// by [`lemma_compose_exists`].
pub open spec fn compose(hostname: Seq<char>, user_input: Seq<char>) -> MessageView {
    decode(composed_line(hostname, user_input))[0]
}

/// Every host name and line compose to a message: the `|` between them is
/// part of some fragment, and that fragment decodes.
pub proof fn lemma_compose_exists(hostname: Seq<char>, user_input: Seq<char>)
    ensures
        decode(composed_line(hostname, user_input)).len() > 0,
{
    lemma_decode_with_bar(composed_line(hostname, user_input), hostname.len() as int);
}

/// Plain composing: a host name without `|` and newline and a line without
/// newline make the message with the host name as author and the line as
/// content.
pub proof fn lemma_compose_plain(hostname: Seq<char>, user_input: Seq<char>)
    requires
        frameable(MessageView { author: hostname, content: user_input }),
    ensures
        compose(hostname, user_input) == (MessageView { author: hostname, content: user_input }),
{
    let m = MessageView { author: hostname, content: user_input };
    let line = composed_line(hostname, user_input);
    // The frame of `m` is the composed line and a newline, and a text decodes
    // alike with and without a newline at its end.
    lemma_decode_frame_then(m, Seq::empty());
    lemma_decode_without_last_newline(line);
}

impl Default for Application {
    fn default() -> (application: Self)
        ensures
            application.conversation().len() == 0,
            application.typed().len() == 0,
            !application.wants_exit(),
            !application.wants_send(),
    {
        Application::new()
    }
}

impl Application {
    /// The conversation so far.
    pub closed spec fn conversation(&self) -> Seq<MessageView> {
        views(self.messages@)
    }

    /// The line being typed.
    pub closed spec fn typed(&self) -> Seq<char> {
        self.user_input@
    }

    /// Whether the user has asked to leave.
    pub closed spec fn wants_exit(&self) -> bool {
        self.exit
    }

    /// Whether the user has asked to send the typed line.
    pub closed spec fn wants_send(&self) -> bool {
        self.send
    }

    /// A window with no conversation, an empty line, and nothing asked for.
    pub fn new() -> (application: Self)
        ensures
            application.conversation().len() == 0,
            application.typed().len() == 0,
            !application.wants_exit(),
            !application.wants_send(),
    {
        Application { messages: Vec::new(), user_input: Vec::new(), exit: false, send: false }
    }

    /// Applies one key press: Esc asks to leave, Enter asks to send the typed
    /// line, Backspace removes the line's last character if it has one, a
    /// character key adds its character. Any other key does nothing.
    pub fn handle_key_event(&mut self, key: Key)
        ensures
            final(self).conversation() == old(self).conversation(),
            final(self).wants_exit() == (old(self).wants_exit() || key is Esc),
            final(self).wants_send() == (old(self).wants_send() || key is Enter),
            final(self).typed() == (match key {
                Key::Backspace => if old(self).typed().len() > 0 {
                    old(self).typed().drop_last()
                } else {
                    old(self).typed()
                },
                Key::Char(c) => old(self).typed().push(c),
                _ => old(self).typed(),
            }),
    {
        match key {
            Key::Esc => {
                self.exit = true;
            },
            Key::Backspace => {
                self.user_input.pop();
            },
            Key::Char(c) => {
                self.user_input.push(c);
            },
            Key::Enter => {
                self.send = true;
            },
            Key::Other => {},
        }
    }

    /// One round of the poller, after it looked into the client's inbox and
    /// found `inbox` there.
    ///
    /// What the inbox held joins the conversation. Where the user asked to
    /// send, the request is taken back, the typed line is composed into a
    /// message from `hostname` and handed out, and the line is cleared. The
    /// window is drawn again when something arrived or was sent.
    pub fn poll(&mut self, hostname: &str, inbox: Option<Vec<Message>>) -> (poll: Poll)
        ensures
            final(self).wants_exit() == old(self).wants_exit(),
            !final(self).wants_send(),
            final(self).conversation() == (match inbox {
                Some(batch) => old(self).conversation() + views(batch@),
                None => old(self).conversation(),
            }),
            poll.outgoing.deep_view() == (if old(self).wants_send() {
                Some(compose(hostname@, old(self).typed()))
            } else {
                None
            }),
            poll.redraw == (inbox is Some || old(self).wants_send()),
            final(self).typed() == (if old(self).wants_send() {
                Seq::empty()
            } else {
                old(self).typed()
            }),
    {
        let mut arrived = false;
        if let Some(batch) = inbox {
            let mut incoming = batch;
            self.messages.append(&mut incoming);
            arrived = true;
        }
        if !self.send {
            return Poll { outgoing: None, redraw: arrived };
        }
        self.send = false;
        let message = submit(hostname, &self.user_input);
        self.user_input.clear();
        Poll { outgoing: Some(message), redraw: true }
    }

    /// What the window has to show now.
    pub fn screen(&self) -> (screen: Screen)
        ensures
            screen@ == screen_of(self.conversation(), self.typed()),
    {
        let mut rows: Vec<Row> = Vec::new();
        let mut i: usize = 0;
        while i < self.messages.len()
            invariant
                i <= self.messages.len(),
                rows.deep_view() == screen_of(self.conversation(), self.typed()).rows.take(
                    i as int,
                ),
            decreases self.messages.len() - i,
        {
            let message = &self.messages[i];
            let row = Row {
                author: message.author.clone(),
                notice: message.is_from_server(),
                content: message.content.clone(),
            };
            let ghost before = rows.deep_view();
            rows.push(row);
            assert(rows.deep_view() =~= before.push(row_of(message@)));
            assert(rows.deep_view() =~= screen_of(self.conversation(), self.typed()).rows.take(
                i + 1,
            ));
            i = i + 1;
        }
        let mut input = String::new();
        push_chars(&mut input, &self.user_input);
        assert(rows.deep_view() =~= screen_of(self.conversation(), self.typed()).rows);
        Screen { title: " Rust Messaging App ".to_owned(), rows, input }
    }

    /// The conversation so far, oldest message first.
    pub fn messages(&self) -> (messages: &Vec<Message>)
        ensures
            views(messages@) == self.conversation(),
    {
        &self.messages
    }

    /// The line being typed.
    pub fn user_input(&self) -> (line: &Vec<char>)
        ensures
            line@ == self.typed(),
    {
        &self.user_input
    }
}

/// Composes the line `user_input`, typed at `hostname`, into the message to
/// send: see [`compose`].
pub fn submit(hostname: &str, user_input: &Vec<char>) -> (message: Message)
    ensures
        message@ == compose(hostname@, user_input@),
{
    let mut line = hostname.to_owned();
    line.push('|');
    push_chars(&mut line, user_input);
    assert(line@ =~= composed_line(hostname@, user_input@));
    proof {
        lemma_compose_exists(hostname@, user_input@);
    }
    let mut decoded = deserialise(line);
    decoded.remove(0)
}

} // verus!
