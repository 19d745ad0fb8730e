//! The client session: the inbox that its reader fills, the frames it sends,
//! and how it comes to know its server.

use vstd::prelude::*;
use vstd::string::*;
use vstd::utf8::*;
use crate::discovery::elect;
use crate::discovery::loopback;
use crate::discovery::Role;
use crate::discovery::RELAY_PORT;
use crate::message::deserialise;
use crate::message::decode;
use crate::message::encode;
use crate::message::encode_all;
use crate::message::frameable;
use crate::message::lemma_packet_round_trip;
use crate::message::Message;
use crate::message::MessageView;
use crate::queue::batch_views;
use crate::queue::drain_rest;
use crate::queue::drain_yield;
use crate::queue::MessageQueue;
use crate::server::distribution;
use crate::server::Server;
use crate::text::lossy_text;
use crate::text::read_view;
use crate::text::text_from_bytes;

verus! {

/// The inbox after the client's reader has dealt with one read: unchanged
/// where the read failed or returned nothing, else extended by what `text`,
/// the received bytes as text, decodes to.
pub open spec fn inbox_after_read(
    inbox: Seq<MessageView>,
    received: Option<Seq<u8>>,
    text: Seq<char>,
) -> Seq<MessageView> {
    if listens_on(received) {
        inbox + decode(text)
    } else {
        inbox
    }
}

/// Whether the client's reader goes on reading after a read: only after one
/// that returned at least one byte.
pub open spec fn listens_on(received: Option<Seq<u8>>) -> bool {
    received matches Some(bytes) && bytes.len() > 0
}

/// Why a process could not start its session.
pub enum StartError {
    /// The discovery socket could not be bound; the reason is attached.
    DiscoveryBind(String),
    /// No announcement was heard, and the machine has no local address to
    /// serve on.
    NoLocalAddress,
    /// The server could not be reached; the reason is attached.
    Connect(String),
}

/// The diagnostic that goes with a [`StartError`].
pub open spec fn start_diagnostic(error: StartError) -> Seq<char> {
    match error {
        StartError::DiscoveryBind(reason) => "Failed to bind UdpSocket: "@ + reason@,
        StartError::NoLocalAddress => "Cannot start server, as no localaddr was found."@,
        StartError::Connect(reason) => "Failed to bind TcpSocket: "@ + reason@,
    }
}

impl StartError {
    /// The diagnostic to show for this error.
    pub fn describe(&self) -> (text: String)
        ensures
            text@ == start_diagnostic(*self),
    {
        match self {
            StartError::DiscoveryBind(reason) => {
                let mut text = "Failed to bind UdpSocket: ".to_owned();
                text.append(reason.as_str());
                text
            },
            StartError::NoLocalAddress => {
                "Cannot start server, as no localaddr was found.".to_owned()
            },
            StartError::Connect(reason) => {
                let mut text = "Failed to bind TcpSocket: ".to_owned();
                text.append(reason.as_str());
                text
            },
        }
    }
}

/// Relay fidelity: what a distribute cycle sends for a queue of frameable
/// messages, read whole by a client's reader, extends that client's inbox by
/// exactly the queued messages, in their order, and keeps the reader going.
pub proof fn lemma_relay_fidelity(
    queued: Seq<MessageView>,
    connections: nat,
    inbox: Seq<MessageView>,
)
    requires
        queued.len() > 0,
        forall|i: int| 0 <= i < queued.len() ==> frameable(#[trigger] queued[i]),
    ensures
        (distribution(queued, connections) matches Some(sent) && {
            let wire = encode_utf8(sent.packet);
            &&& sent.recipients == connections
            &&& valid_utf8(wire)
            &&& listens_on(Some(wire))
            &&& inbox_after_read(inbox, Some(wire), decode_utf8(wire)) == inbox + queued
        }),
{
    let packet = encode_all(queued);
    lemma_packet_round_trip(queued);
    encode_utf8_valid_utf8(packet);
    encode_utf8_decode_utf8(packet);
}

/// The client session's state.
pub struct Client {
    incoming_messages: MessageQueue,
    server_address: String,
    listening: bool,
}

impl Client {
    /// The inbox: what the reader received since the inbox was last consumed.
    pub closed spec fn inbox(&self) -> Seq<MessageView> {
        self.incoming_messages@
    }

    /// The address of the server this session belongs to.
    pub closed spec fn server(&self) -> Seq<char> {
        self.server_address@
    }

    /// Whether the session's reader has not been given up yet.
    pub closed spec fn is_listening(&self) -> bool {
        self.listening
    }

    /// A session that has just been set up for the server at `address`.
    pub open spec fn is_fresh_for(&self, address: Seq<char>) -> bool {
        &&& self.server() == address
        &&& self.inbox().len() == 0
        &&& self.is_listening()
    }

    /// A session for the server at `server_address`, with an empty inbox and
    /// its reader about to start.
    pub fn joining(server_address: String) -> (client: Self)
        ensures
            client.is_fresh_for(server_address@),
    {
        Client { incoming_messages: MessageQueue::new(), server_address, listening: true }
    }

    /// Sets a starting process up from the outcome of discovery: `Some`
    /// payload of the announcement it heard, or `None` where it heard none.
    ///
    /// With an announcement it becomes a client of the announced server and
    /// nothing else. Without one it also becomes the server, on the relay
    /// port of its local address, and a client of itself; that alone can
    /// fail, where the machine has no local address.
    pub fn new(beacon: Option<&[u8]>) -> (session: Result<(Self, Option<Server>), StartError>)
        ensures
            (match beacon {
                Some(payload) => {
                    &&& session matches Ok((client, server))
                    &&& server is None
                    &&& client.is_fresh_for(lossy_text(payload@))
                    &&& valid_utf8(payload@) ==> client.is_fresh_for(decode_utf8(payload@))
                },
                None => match session {
                    Ok((client, server)) => {
                        &&& server matches Some(s)
                        &&& client.is_fresh_for(s.address())
                        &&& exists|host: Seq<char>|
                            host != loopback() && #[trigger] s.is_fresh_on(host, RELAY_PORT as nat)
                    },
                    Err(error) => error is NoLocalAddress,
                },
            }),
    {
        match elect(beacon) {
            Role::Client(server_address) => Ok((Client::joining(server_address), None)),
            Role::Server => match Server::new(RELAY_PORT) {
                Some(server) => {
                    let client = Client::joining(server.clone_addr());
                    Ok((client, Some(server)))
                },
                None => Err(StartError::NoLocalAddress),
            },
        }
    }

    /// The address of the server to connect to.
    pub fn server_address(&self) -> (address: String)
        ensures
            address@ == self.server(),
    {
        self.server_address.clone()
    }

    /// One step of the session's reader: deals with the outcome of one read,
    /// `None` for a failed one, and says whether to read again. Bytes that
    /// arrived are decoded and put into the inbox; an empty or failed read
    /// ends the reader.
    pub fn receive(&mut self, received: Option<&[u8]>) -> (again: bool)
        ensures
            again == listens_on(read_view(received)),
            received matches Some(bytes) ==> final(self).inbox() == inbox_after_read(
                old(self).inbox(),
                Some(bytes@),
                lossy_text(bytes@),
            ),
            received matches Some(bytes) ==> valid_utf8(bytes@) ==> final(self).inbox()
                == inbox_after_read(old(self).inbox(), Some(bytes@), decode_utf8(bytes@)),
            received is None ==> final(self).inbox() == old(self).inbox(),
            final(self).server() == old(self).server(),
            final(self).is_listening() == old(self).is_listening(),
    {
        match received {
            Some(bytes) => {
                if bytes.len() > 0 {
                    self.incoming_messages.append(deserialise(text_from_bytes(bytes)));
                    true
                } else {
                    false
                }
            },
            None => false,
        }
    }

    /// The frame to write to the connection in order to send `message`.
    pub fn send(&self, message: &Message) -> (frame: String)
        ensures
            frame@ == encode(message@),
    {
        message.serialise()
    }

    /// What sending a message results in, given how writing its frame went:
    /// `Ok(1)` where it was written, else the reason of the failure as an
    /// error description.
    pub fn sent(written: Result<(), String>) -> (outcome: Result<usize, String>)
        ensures
            (match written {
                Ok(_) => outcome == Ok::<usize, String>(1),
                Err(reason) => outcome matches Err(text) && text@ == "Error: "@ + reason@,
            }),
    {
        match written {
            Ok(_) => Ok(1),
            Err(reason) => {
                let mut text = "Error: ".to_owned();
                text.append(reason.as_str());
                Err(text)
            },
        }
    }

    /// Removes and returns everything in the inbox, in arrival order, or
    /// `None` where the inbox is empty.
    pub fn consume_inbox(&mut self) -> (batch: Option<Vec<Message>>)
        ensures
            batch_views(batch) == drain_yield(old(self).inbox()),
            final(self).inbox() == drain_rest(old(self).inbox()),
            final(self).server() == old(self).server(),
            final(self).is_listening() == old(self).is_listening(),
    {
        self.incoming_messages.drain()
    }

    /// Gives the session's reader up. Returns whether there was one to wait
    /// for, which is so the first time only.
    pub fn kill(&mut self) -> (waits: bool)
        ensures
            waits == old(self).is_listening(),
            !final(self).is_listening(),
            final(self).inbox() == old(self).inbox(),
            final(self).server() == old(self).server(),
    {
        let waits = self.listening;
        self.listening = false;
        waits
    }
}

} // verus!
