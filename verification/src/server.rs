//! The relay server: it registers the connections it accepts, collects what
//! their readers receive, and hands the collected messages out to all of
//! them.
//!
//! The server here is the relay's state and rules. The program around it owns
//! the sockets: it reports what happened on them and carries out what the
//! rules answer, addressing connections by their position in the registry.

use vstd::prelude::*;
use vstd::string::*;
use vstd::utf8::*;
use crate::discovery::get_localaddr;
use crate::discovery::loopback;
use crate::message::deserialise;
use crate::message::serialise_all;
use crate::message::decode;
use crate::message::encode;
use crate::message::encode_all;
use crate::message::frameable;
use crate::message::lemma_round_trip;
use crate::message::Message;
use crate::message::MessageView;
use crate::queue::MessageQueue;
use crate::text::decimal;
use crate::text::lemma_first_byte_not_nul;
use crate::text::lossy_text;
use crate::text::push_decimal;
use crate::text::read_view;
use crate::text::text_from_bytes;

verus! {

/// One packet, to be written to the first `recipients` connections of the
/// registry, failures ignored.
pub struct Broadcast {
    pub packet: String,
    pub recipients: usize,
}

/// The value of a [`Broadcast`].
pub struct BroadcastView {
    pub packet: Seq<char>,
    pub recipients: nat,
}

impl View for Broadcast {
    type V = BroadcastView;

    open spec fn view(&self) -> BroadcastView {
        BroadcastView { packet: self.packet@, recipients: self.recipients as nat }
    }
}

impl DeepView for Broadcast {
    type V = BroadcastView;

    open spec fn deep_view(&self) -> BroadcastView {
        self@
    }
}

/// What accepting a connection results in.
pub struct Admission {
    /// The name under which the peer is announced and its departure noted.
    pub client: String,
    /// The announcement of the peer to every connection, itself included.
    pub announcement: Broadcast,
}

/// The address a server listens on: host, colon, port in decimal.
pub open spec fn listen_address(host: Seq<char>, port: nat) -> Seq<char> {
    host + seq![':'] + decimal(port)
}

/// The name a peer is displayed under: its address where that could be
/// resolved, else a fixed stand-in.
pub open spec fn display_name(peer: Option<Seq<char>>) -> Seq<char> {
    match peer {
        Some(address) => address,
        None => "<UNKNOWN CLIENT>"@,
    }
}

/// The server's own message that `client` has connected.
pub open spec fn connected_notice(client: Seq<char>) -> MessageView {
    MessageView { author: "SERVER"@, content: client + " connected."@ }
}

/// The server's own message that `client` has disconnected.
pub open spec fn disconnected_notice(client: Seq<char>) -> MessageView {
    MessageView { author: "SERVER"@, content: client + " disconnected."@ }
}

/// What one distribute cycle sends: nothing where nothing is queued, else
/// the frames of everything queued, in order, to every registered connection.
pub open spec fn distribution(queued: Seq<MessageView>, connections: nat) -> Option<BroadcastView> {
    if queued.len() == 0 {
        None
    } else {
        Some(BroadcastView { packet: encode_all(queued), recipients: connections })
    }
}

/// Whether a read that returned `received` means that the peer is gone: it
/// returned no bytes, or the first of them is NUL.
pub open spec fn signals_disconnect(received: Seq<u8>) -> bool {
    received.len() == 0 || received[0] == 0
}

/// The queue after a reader of `client` has dealt with one read. A failed
/// read leaves it as it is; a read that signals disconnection adds the
/// server's notice of it; any other adds what `text`, the received bytes as
/// text, decodes to.
pub open spec fn queue_after_read(
    queue: Seq<MessageView>,
    client: Seq<char>,
    received: Option<Seq<u8>>,
    text: Seq<char>,
) -> Seq<MessageView> {
    match received {
        None => queue,
        Some(bytes) => if signals_disconnect(bytes) {
            queue.push(disconnected_notice(client))
        } else {
            queue + decode(text)
        },
    }
}

/// Whether a reader goes on reading after a read: only after one that
/// neither failed nor signalled disconnection.
pub open spec fn reads_on(received: Option<Seq<u8>>) -> bool {
    match received {
        None => false,
        Some(bytes) => !signals_disconnect(bytes),
    }
}

/// Sending fidelity: the frame of a frameable message whose author does not
/// begin with NUL, read whole by the reader of a connection, queues exactly
/// that message and keeps the reader going.
pub proof fn lemma_send_fidelity(m: MessageView, queue: Seq<MessageView>, client: Seq<char>)
    requires
        frameable(m),
        m.author.len() == 0 || m.author[0] != '\0',
    ensures
        ({
            let wire = encode_utf8(encode(m));
            &&& valid_utf8(wire)
            &&& reads_on(Some(wire))
            &&& queue_after_read(queue, client, Some(wire), decode_utf8(wire)) == queue.push(m)
        }),
{
    let frame = encode(m);
    encode_utf8_valid_utf8(frame);
    encode_utf8_decode_utf8(frame);
    lemma_first_byte_not_nul(frame);
    lemma_round_trip(m);
}

fn server_notice(client: &str, event: &str) -> (notice: Message)
    ensures
        notice@ == (MessageView { author: "SERVER"@, content: client@ + event@ }),
{
    let mut content = client.to_owned();
    content.append(event);
    Message { author: "SERVER".to_owned(), content }
}

/// One step of the reader of `client`'s connection: deals with the outcome
/// of one read, `None` for a failed one, and says whether to read again.
///
/// A read that returned no bytes, or bytes that begin with NUL, means the
/// peer is gone: the server's notice of it is queued and the reader ends. A
/// failed read ends the reader silently. Anything else is decoded and queued.
pub fn read_incoming_messages_from_client(
    received: Option<&[u8]>,
    message_dump: &mut MessageQueue,
    client: &str,
) -> (again: bool)
    ensures
        again == reads_on(read_view(received)),
        received matches Some(bytes) ==> final(message_dump)@ == queue_after_read(
            old(message_dump)@,
            client@,
            Some(bytes@),
            lossy_text(bytes@),
        ),
        received matches Some(bytes) ==> valid_utf8(bytes@) ==> final(message_dump)@
            == queue_after_read(old(message_dump)@, client@, Some(bytes@), decode_utf8(bytes@)),
        received is None ==> final(message_dump)@ == old(message_dump)@,
{
    match received {
        None => false,
        Some(bytes) => {
            if bytes.len() == 0 || bytes[0] == 0 {
                message_dump.push(server_notice(client, " disconnected."));
                false
            } else {
                message_dump.append(deserialise(text_from_bytes(bytes)));
                true
            }
        },
    }
}

/// The relay server's state.
pub struct Server {
    incoming_messages: MessageQueue,
    message_agents: Vec<String>,
    ip_address: String,
    running: bool,
}

impl Server {
    /// The address the server listens on.
    pub closed spec fn address(&self) -> Seq<char> {
        self.ip_address@
    }

    /// Whether the server has not been shut down yet.
    pub closed spec fn is_running(&self) -> bool {
        self.running
    }

    /// The inbound queue: what readers received since the last distribute.
    pub closed spec fn queued(&self) -> Seq<MessageView> {
        self.incoming_messages@
    }

    /// The registry: the display name of every connection ever accepted, in
    /// the order of acceptance. A connection's position is its handle.
    pub closed spec fn registry(&self) -> Seq<Seq<char>> {
        self.message_agents.deep_view()
    }

    /// A server that has just been created on `host` and `port`.
    pub open spec fn is_fresh_on(&self, host: Seq<char>, port: nat) -> bool {
        &&& self.address() == listen_address(host, port)
        &&& self.is_running()
        &&& self.queued().len() == 0
        &&& self.registry().len() == 0
    }

    /// A running server that listens on `host` and `port`, with nothing
    /// queued and nobody connected.
    pub fn at(host: &str, port: usize) -> (server: Self)
        ensures
            server.is_fresh_on(host@, port as nat),
    {
        let mut ip_address = host.to_owned();
        ip_address.push(':');
        push_decimal(&mut ip_address, port);
        let server = Server {
            incoming_messages: MessageQueue::new(),
            message_agents: Vec::new(),
            ip_address,
            running: true,
        };
        assert(server.address() =~= listen_address(host@, port as nat));
        server
    }

    /// A running server on this machine's local address and `port`, or
    /// `None` where the machine has no local address to listen on.
    pub fn new(port: usize) -> (server: Option<Self>)
        ensures
            (match server {
                Some(s) => exists|host: Seq<char>|
                    host != loopback() && #[trigger] s.is_fresh_on(host, port as nat),
                None => true,
            }),
    {
        match get_localaddr() {
            Some(host) => {
                let server = Some(Server::at(host.as_str(), port));
                assert(server matches Some(s) && s.is_fresh_on(host@, port as nat));
                server
            },
            None => None,
        }
    }

    /// The address the server listens on.
    pub fn clone_addr(&self) -> (address: String)
        ensures
            address@ == self.address(),
    {
        self.ip_address.clone()
    }

    /// Registers a newly accepted connection under the next free handle and
    /// announces it to every registered connection, the new one included.
    /// `peer` is the peer's address where it could be resolved.
    pub fn register(&mut self, peer: Option<String>) -> (admission: Admission)
        ensures
            admission.client@ == display_name(peer.deep_view()),
            final(self).registry() == old(self).registry().push(admission.client@),
            admission.announcement@ == (BroadcastView {
                packet: encode(connected_notice(admission.client@)),
                recipients: final(self).registry().len(),
            }),
            final(self).address() == old(self).address(),
            final(self).is_running() == old(self).is_running(),
            final(self).queued() == old(self).queued(),
    {
        let client = match peer {
            Some(address) => address,
            None => "<UNKNOWN CLIENT>".to_owned(),
        };
        self.message_agents.push(client.clone());
        let packet = server_notice(client.as_str(), " connected.").serialise();
        Admission {
            client,
            announcement: Broadcast { packet, recipients: self.message_agents.len() },
        }
    }

    /// One step of the reader of connection `client`: see
    /// [`read_incoming_messages_from_client`], which this applies to the
    /// server's inbound queue. The registry keeps the connection either way.
    pub fn read_from(&mut self, client: &str, received: Option<&[u8]>) -> (again: bool)
        ensures
            again == reads_on(read_view(received)),
            received matches Some(bytes) ==> final(self).queued() == queue_after_read(
                old(self).queued(),
                client@,
                Some(bytes@),
                lossy_text(bytes@),
            ),
            received matches Some(bytes) ==> valid_utf8(bytes@) ==> final(self).queued()
                == queue_after_read(old(self).queued(), client@, Some(bytes@), decode_utf8(bytes@)),
            received is None ==> final(self).queued() == old(self).queued(),
            final(self).registry() == old(self).registry(),
            final(self).address() == old(self).address(),
            final(self).is_running() == old(self).is_running(),
    {
        read_incoming_messages_from_client(received, &mut self.incoming_messages, client)
    }

    /// One distribute cycle: empties the inbound queue and, unless it was
    /// empty, returns its messages framed into one packet for every
    /// registered connection. No connection leaves the registry.
    pub fn distribute(&mut self) -> (broadcast: Option<Broadcast>)
        ensures
            broadcast.deep_view() == distribution(old(self).queued(), old(self).registry().len()),
            final(self).queued().len() == 0,
            final(self).registry() == old(self).registry(),
            final(self).address() == old(self).address(),
            final(self).is_running() == old(self).is_running(),
    {
        match self.incoming_messages.drain() {
            Some(outgoing) => {
                let packet = serialise_all(&outgoing);
                Some(Broadcast { packet, recipients: self.message_agents.len() })
            },
            None => None,
        }
    }

    /// Shuts the server down: it no longer runs. Returns the number of
    /// registered connections, all of which are to be closed.
    pub fn kill(&mut self) -> (connections: usize)
        ensures
            !final(self).is_running(),
            connections == old(self).registry().len(),
            final(self).registry() == old(self).registry(),
            final(self).queued() == old(self).queued(),
            final(self).address() == old(self).address(),
    {
        self.running = false;
        self.message_agents.len()
    }

    /// Whether the server has not been shut down yet.
    pub fn running(&self) -> (running: bool)
        ensures
            running == self.is_running(),
    {
        self.running
    }

    /// The number of registered connections.
    pub fn connections(&self) -> (count: usize)
        ensures
            count == self.registry().len(),
    {
        self.message_agents.len()
    }

    /// The number of messages waiting for the next distribute cycle.
    pub fn pending(&self) -> (count: usize)
        ensures
            count == self.queued().len(),
    {
        self.incoming_messages.len()
    }
}

} // verus!
