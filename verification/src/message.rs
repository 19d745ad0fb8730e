//! The chat message and its wire format.
//!
//! A message travels as one frame, `AUTHOR|CONTENT` followed by a newline.
//! Decoding splits a text on newlines, drops every fragment without a `|`,
//! and cuts each remaining fragment at its first `|`.

use vstd::prelude::*;
use vstd::string::*;

verus! {

/// One chat message: who wrote it, and what they wrote.
pub struct Message {
    pub author: String,
    pub content: String,
}

/// The mathematical value of a [`Message`]: its two fields as character sequences.
pub struct MessageView {
    pub author: Seq<char>,
    pub content: Seq<char>,
}

impl View for Message {
    type V = MessageView;

    open spec fn view(&self) -> MessageView {
        MessageView { author: self.author@, content: self.content@ }
    }
}

impl DeepView for Message {
    type V = MessageView;

    open spec fn deep_view(&self) -> MessageView {
        self@
    }
}

impl Clone for Message {
    fn clone(&self) -> (copy: Self)
        ensures
            copy@ == self@,
    {
        Message { author: self.author.clone(), content: self.content.clone() }
    }
}

/// The values of a sequence of messages, in order.
pub open spec fn views(messages: Seq<Message>) -> Seq<MessageView> {
    Seq::new(messages.len(), |i: int| messages[i]@)
}

/// The index of the first `c` in `s`, or `s.len()` where `s` holds none.
pub open spec fn first_index_of(s: Seq<char>, c: char) -> nat
    decreases s.len(),
{
    if s.len() == 0 || s[0] == c {
        0
    } else {
        1 + first_index_of(s.drop_first(), c)
    }
}

/// The frame of one message on the wire: `AUTHOR|CONTENT` and a newline.
pub open spec fn encode(m: MessageView) -> Seq<char> {
    m.author + seq!['|'] + m.content + seq!['\n']
}

/// The frames of a sequence of messages, one after the other.
pub open spec fn encode_all(messages: Seq<MessageView>) -> Seq<char>
    decreases messages.len(),
{
    if messages.len() == 0 {
        Seq::empty()
    } else {
        encode_all(messages.drop_last()) + encode(messages.last())
    }
}

/// What one newline-free fragment decodes to: nothing where it holds no `|`,
/// else the message whose author stands before the first `|` and whose
/// content is all that follows it.
pub open spec fn decode_fragment(fragment: Seq<char>) -> Option<MessageView> {
    let bar = first_index_of(fragment, '|') as int;
    if bar < fragment.len() {
        Some(MessageView { author: fragment.take(bar), content: fragment.skip(bar + 1) })
    } else {
        None
    }
}

/// The messages a text decodes to: its fragments between newlines, each
/// decoded by [`decode_fragment`], undecodable ones left out.
pub open spec fn decode(text: Seq<char>) -> Seq<MessageView>
    decreases text.len(),
{
    if text.len() == 0 {
        Seq::empty()
    } else {
        let end = first_index_of(text, '\n') as int;
        let head = match decode_fragment(text.take(end)) {
            Some(m) => seq![m],
            None => Seq::empty(),
        };
        if end < text.len() {
            head + decode(text.skip(end + 1))
        } else {
            head
        }
    }
}

/// A message that survives the wire unchanged: no `|` in the author, no
/// newline in either field.
pub open spec fn frameable(m: MessageView) -> bool {
    &&& !m.author.contains('|')
    &&& !m.author.contains('\n')
    &&& !m.content.contains('\n')
}

/// [`first_index_of`] is within bounds, points at a `c` unless it is the
/// length, and no `c` stands before it.
pub proof fn lemma_first_index_of(s: Seq<char>, c: char)
    ensures
        first_index_of(s, c) <= s.len(),
        first_index_of(s, c) < s.len() ==> s[first_index_of(s, c) as int] == c,
        forall|j: int| 0 <= j < first_index_of(s, c) ==> s[j] != c,
    decreases s.len(),
{
    if s.len() > 0 && s[0] != c {
        let rest = s.drop_first();
        lemma_first_index_of(rest, c);
        assert forall|j: int| 0 <= j < first_index_of(s, c) implies s[j] != c by {
            if j > 0 {
                assert(s[j] == rest[j - 1]);
            }
        }
    }
}

/// An index with no `c` before it, which is the length or points at a `c`,
/// is [`first_index_of`].
pub proof fn lemma_first_index_is(s: Seq<char>, c: char, k: int)
    requires
        0 <= k <= s.len(),
        forall|j: int| 0 <= j < k ==> s[j] != c,
        k < s.len() ==> s[k] == c,
    ensures
        first_index_of(s, c) == k,
{
    lemma_first_index_of(s, c);
}

/// Where the first newline of a text stands at `end`, the text's messages are
/// those of the fragment before it, then those of what follows it.
proof fn lemma_decode_first_line(text: Seq<char>, end: int)
    requires
        0 <= end < text.len(),
        text[end] == '\n',
        forall|j: int| 0 <= j < end ==> text[j] != '\n',
    ensures
        decode(text) == (match decode_fragment(text.take(end)) {
            Some(m) => seq![m],
            None => Seq::empty(),
        }) + decode(text.skip(end + 1)),
{
    lemma_first_index_is(text, '\n', end);
}

/// A text without a newline is a single fragment.
proof fn lemma_decode_last_line(text: Seq<char>)
    requires
        forall|j: int| 0 <= j < text.len() ==> text[j] != '\n',
    ensures
        decode(text) == (match decode_fragment(text) {
            Some(m) => seq![m],
            None => Seq::<MessageView>::empty(),
        }),
{
    lemma_first_index_is(text, '\n', text.len() as int);
    if text.len() == 0 {
        lemma_first_index_is(text, '|', 0);
    } else {
        assert(text.take(text.len() as int) =~= text);
    }
}

/// A fragment whose first `|` stands at `bar` decodes to the text before it
/// and the text after it.
proof fn lemma_decode_fragment_at(fragment: Seq<char>, bar: int)
    requires
        0 <= bar < fragment.len(),
        fragment[bar] == '|',
        forall|j: int| 0 <= j < bar ==> fragment[j] != '|',
    ensures
        decode_fragment(fragment) == Some(
            MessageView { author: fragment.take(bar), content: fragment.skip(bar + 1) },
        ),
{
    lemma_first_index_is(fragment, '|', bar);
}

/// A fragment without a `|` decodes to nothing.
proof fn lemma_decode_fragment_none(fragment: Seq<char>)
    requires
        forall|j: int| 0 <= j < fragment.len() ==> fragment[j] != '|',
    ensures
        decode_fragment(fragment) is None,
{
    lemma_first_index_is(fragment, '|', fragment.len() as int);
}

/// Decoding one frame followed by any text yields the framed message, then
/// whatever the rest decodes to.
pub proof fn lemma_decode_frame_then(m: MessageView, rest: Seq<char>)
    requires
        frameable(m),
    ensures
        decode(encode(m) + rest) == seq![m] + decode(rest),
{
    let text = encode(m) + rest;
    let bar = m.author.len() as int;
    let end = bar + 1 + m.content.len();
    lemma_decode_first_line(text, end);
    let fragment = text.take(end);
    lemma_decode_fragment_at(fragment, bar);
    assert(fragment.take(bar) =~= m.author);
    assert(fragment.skip(bar + 1) =~= m.content);
    assert(text.skip(end + 1) =~= rest);
}

/// Round trip: a frameable message, encoded and decoded again, comes back as
/// itself and alone.
pub proof fn lemma_round_trip(m: MessageView)
    requires
        frameable(m),
    ensures
        decode(encode(m)) == seq![m],
{
    lemma_decode_frame_then(m, Seq::empty());
}

/// Framing: where a text is empty or ends in a newline, decoding it together
/// with a text that follows gives the messages of the first, then those of
/// the second.
pub proof fn lemma_decode_concat(a: Seq<char>, b: Seq<char>)
    requires
        a.len() == 0 || a.last() == '\n',
    ensures
        decode(a + b) == decode(a) + decode(b),
    decreases a.len(),
{
    if a.len() > 0 {
        lemma_first_index_of(a, '\n');
        let end = first_index_of(a, '\n') as int;
        let text = a + b;
        lemma_decode_first_line(text, end);
        assert(text.take(end) =~= a.take(end));
        let tail = a.skip(end + 1);
        assert(text.skip(end + 1) =~= tail + b);
        lemma_decode_concat(tail, b);
    }
}

/// A newline at the end of a text is optional: the text decodes alike with
/// and without it.
pub proof fn lemma_decode_without_last_newline(text: Seq<char>)
    ensures
        decode(text + seq!['\n']) == decode(text),
    decreases text.len(),
{
    let longer = text + seq!['\n'];
    lemma_first_index_of(text, '\n');
    let end = first_index_of(text, '\n') as int;
    lemma_decode_first_line(longer, end);
    assert(longer.take(end) =~= text.take(end));
    if end < text.len() {
        let tail = text.skip(end + 1);
        assert(longer.skip(end + 1) =~= tail + seq!['\n']);
        lemma_decode_without_last_newline(tail);
    } else if text.len() == 0 {
        lemma_decode_fragment_none(text.take(end));
    }
}

/// A text that holds a `|` decodes to at least one message.
pub proof fn lemma_decode_with_bar(text: Seq<char>, bar: int)
    requires
        0 <= bar < text.len(),
        text[bar] == '|',
    ensures
        decode(text).len() > 0,
    decreases text.len(),
{
    lemma_first_index_of(text, '\n');
    let end = first_index_of(text, '\n') as int;
    if bar < end {
        let fragment = text.take(end);
        lemma_first_index_of(fragment, '|');
        if first_index_of(fragment, '|') == fragment.len() {
            assert(fragment[bar] == '|');
        }
    } else {
        lemma_decode_with_bar(text.skip(end + 1), bar - end - 1);
    }
}

/// A text that holds no `|` decodes to nothing.
pub proof fn lemma_decode_without_bar(text: Seq<char>)
    requires
        !text.contains('|'),
    ensures
        decode(text).len() == 0,
    decreases text.len(),
{
    if text.len() > 0 {
        lemma_first_index_of(text, '\n');
        let end = first_index_of(text, '\n') as int;
        lemma_decode_fragment_none(text.take(end));
        if end < text.len() {
            lemma_decode_without_bar(text.skip(end + 1));
        }
    }
}

/// Whatever a text decodes to is frameable: decoding never yields an author
/// with a `|` or a field with a newline.
pub proof fn lemma_decode_yields_frameable(text: Seq<char>)
    ensures
        forall|i: int| 0 <= i < decode(text).len() ==> frameable(#[trigger] decode(text)[i]),
    decreases text.len(),
{
    if text.len() > 0 {
        lemma_first_index_of(text, '\n');
        let end = first_index_of(text, '\n') as int;
        let fragment = text.take(end);
        lemma_first_index_of(fragment, '|');
        let head = match decode_fragment(fragment) {
            Some(m) => seq![m],
            None => Seq::empty(),
        };
        assert(forall|i: int| 0 <= i < head.len() ==> frameable(#[trigger] head[i]));
        if end < text.len() {
            let tail = decode(text.skip(end + 1));
            lemma_decode_yields_frameable(text.skip(end + 1));
            assert forall|i: int| 0 <= i < decode(text).len() implies frameable(
                #[trigger] decode(text)[i],
            ) by {
                if i >= head.len() {
                    assert(decode(text)[i] == tail[i - head.len()]);
                }
            }
        }
    }
}

/// Decoding is stable under relaying: the messages of a text, framed into a
/// packet and decoded again, are the messages of the text.
pub proof fn lemma_decode_is_stable(text: Seq<char>)
    ensures
        decode(encode_all(decode(text))) == decode(text),
{
    lemma_decode_yields_frameable(text);
    lemma_packet_round_trip(decode(text));
}

/// A packet of frames is empty or ends in a newline.
pub proof fn lemma_encode_all_ends_frame(messages: Seq<MessageView>)
    ensures
        encode_all(messages).len() == 0 || encode_all(messages).last() == '\n',
{
}

/// Packet round trip: frameable messages, framed one after the other and
/// decoded as one text, come back unchanged and in their order.
pub proof fn lemma_packet_round_trip(messages: Seq<MessageView>)
    requires
        forall|i: int| 0 <= i < messages.len() ==> frameable(#[trigger] messages[i]),
    ensures
        decode(encode_all(messages)) == messages,
    decreases messages.len(),
{
    if messages.len() > 0 {
        let front = messages.drop_last();
        lemma_packet_round_trip(front);
        lemma_encode_all_ends_frame(front);
        lemma_decode_concat(encode_all(front), encode(messages.last()));
        lemma_round_trip(messages.last());
    }
}

impl Message {
    /// Frames this message for the wire.
    pub fn serialise(&self) -> (frame: String)
        ensures
            frame@ == encode(self@),
    {
        let mut frame = String::new();
        frame.append(self.author.as_str());
        frame.push('|');
        frame.append(self.content.as_str());
        frame.push('\n');
        frame
    }

    /// Whether this message is one of the server's own notices.
    pub fn is_from_server(&self) -> (notice: bool)
        ensures
            notice == (self@.author == "SERVER"@),
    {
        self.author == "SERVER".to_owned()
    }
}

/// Decodes a received text into the messages it holds, in order. Fragments
/// without a `|` are dropped; nothing is ever rejected.
pub fn deserialise(serialised: String) -> (messages: Vec<Message>)
    ensures
        views(messages@) == decode(serialised@),
{
    let ghost text = serialised@;
    let mut messages: Vec<Message> = Vec::new();
    let mut author = String::new();
    let mut content = String::new();
    let mut seen_bar = false;
    let ghost mut start: int = 0;
    let ghost mut bar: int = 0;
    proof {
        assert(text.skip(0) =~= text);
    }
    for c in it: serialised.as_str().chars()
        invariant
            it.seq() == text,
            0 <= start <= it.index() <= text.len(),
            forall|j: int| start <= j < it.index() ==> text[j] != '\n',
            decode(text) == views(messages@) + decode(text.skip(start)),
            !seen_bar ==> {
                &&& forall|j: int| start <= j < it.index() ==> text[j] != '|'
                &&& author@ == text.subrange(start, it.index() as int)
                &&& content@.len() == 0
            },
            seen_bar ==> {
                &&& start <= bar < it.index()
                &&& text[bar] == '|'
                &&& forall|j: int| start <= j < bar ==> text[j] != '|'
                &&& author@ == text.subrange(start, bar)
                &&& content@ == text.subrange(bar + 1, it.index() as int)
            },
    {
        let ghost at = it.index() as int;
        if c == '\n' {
            proof {
                let rest = text.skip(start);
                let fragment = rest.take(at - start);
                lemma_decode_first_line(rest, at - start);
                assert(rest.skip(at - start + 1) =~= text.skip(at + 1));
                if seen_bar {
                    lemma_decode_fragment_at(fragment, bar - start);
                    assert(fragment.take(bar - start) =~= author@);
                    assert(fragment.skip(bar - start + 1) =~= content@);
                } else {
                    lemma_decode_fragment_none(fragment);
                }
            }
            if seen_bar {
                messages.push(Message { author, content });
            }
            author = String::new();
            content = String::new();
            seen_bar = false;
            proof {
                start = at + 1;
            }
        } else if !seen_bar && c == '|' {
            seen_bar = true;
            proof {
                bar = at;
            }
        } else if seen_bar {
            content.push(c);
        } else {
            author.push(c);
        }
    }
    proof {
        let rest = text.skip(start);
        lemma_decode_last_line(rest);
        if seen_bar {
            lemma_decode_fragment_at(rest, bar - start);
            assert(rest.take(bar - start) =~= author@);
            assert(rest.skip(bar - start + 1) =~= content@);
        } else {
            lemma_decode_fragment_none(rest);
        }
    }
    if seen_bar {
        messages.push(Message { author, content });
    }
    messages
}

/// Frames every message of `messages`, in order, into one packet.
pub fn serialise_all(messages: &Vec<Message>) -> (packet: String)
    ensures
        packet@ == encode_all(views(messages@)),
{
    let mut packet = String::new();
    let mut i: usize = 0;
    while i < messages.len()
        invariant
            i <= messages.len(),
            packet@ == encode_all(views(messages@.take(i as int))),
        decreases messages.len() - i,
    {
        let frame = messages[i].serialise();
        packet.append(frame.as_str());
        proof {
            let done = views(messages@.take(i + 1));
            assert(done.drop_last() =~= views(messages@.take(i as int)));
        }
        i = i + 1;
    }
    assert(messages@.take(messages.len() as int) =~= messages@);
    packet
}

} // verus!
