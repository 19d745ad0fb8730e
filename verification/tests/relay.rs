use lan_chat::client::Client;
use lan_chat::discovery::broadcast_server_address;
use lan_chat::discovery::elect;
use lan_chat::discovery::BeaconAction;
use lan_chat::discovery::BeaconEvent;
use lan_chat::discovery::Role;
use lan_chat::message::Message;
use lan_chat::queue::MessageQueue;
use lan_chat::server::read_incoming_messages_from_client;
use lan_chat::server::Server;

fn message(author: &str, content: &str) -> Message {
    Message { author: author.to_string(), content: content.to_string() }
}

fn contents(batch: Option<Vec<Message>>) -> Vec<(String, String)> {
    batch.unwrap_or_default().into_iter().map(|m| (m.author, m.content)).collect()
}

fn pair(author: &str, content: &str) -> (String, String) {
    (author.to_string(), content.to_string())
}

#[test]
fn server_listens_on_host_colon_port() {
    assert_eq!(Server::at("10.0.0.5", 7878).clone_addr(), "10.0.0.5:7878");
    assert_eq!(Server::at("192.168.1.20", 0).clone_addr(), "192.168.1.20:0");
    assert_eq!(Server::at("h", 65535).clone_addr(), "h:65535");
    assert_eq!(Server::at("", 9).clone_addr(), ":9");
    assert_eq!(Server::at("h", 10).clone_addr(), "h:10");
    assert_eq!(Server::at("h", 1000).clone_addr(), "h:1000");
}

#[test]
fn a_new_server_runs_with_nothing_queued_and_nobody_connected() {
    let server = Server::at("10.0.0.5", 7878);
    assert!(server.running());
    assert_eq!(server.connections(), 0);
    assert_eq!(server.pending(), 0);
}

#[test]
fn distribute_with_an_empty_queue_writes_nothing() {
    let mut server = Server::at("10.0.0.5", 7878);
    server.register(Some("10.0.0.9".to_string()));
    assert!(server.distribute().is_none());
    assert!(server.distribute().is_none());
}

#[test]
fn distribute_sends_the_queued_frames_to_both_connections() {
    let mut server = Server::at("10.0.0.5", 7878);
    server.register(Some("10.0.0.8".to_string()));
    server.register(Some("10.0.0.9".to_string()));
    assert!(server.read_from("10.0.0.8", Some(b"X|hi\n".as_slice())));
    assert!(server.read_from("10.0.0.9", Some(b"Y|yo\n".as_slice())));
    assert_eq!(server.pending(), 2);
    let broadcast = server.distribute().expect("two messages were queued");
    assert_eq!(broadcast.packet.as_bytes(), b"X|hi\nY|yo\n");
    assert_eq!(broadcast.recipients, 2);
    assert_eq!(server.pending(), 0);
    assert!(server.distribute().is_none());
}

#[test]
fn distribute_without_connections_still_empties_the_queue() {
    let mut server = Server::at("10.0.0.5", 7878);
    assert!(server.read_from("nobody", Some(b"X|hi\n".as_slice())));
    let broadcast = server.distribute().expect("one message was queued");
    assert_eq!(broadcast.packet, "X|hi\n");
    assert_eq!(broadcast.recipients, 0);
    assert_eq!(server.pending(), 0);
}

#[test]
fn one_senders_messages_keep_their_order() {
    let mut server = Server::at("10.0.0.5", 7878);
    server.register(Some("10.0.0.8".to_string()));
    assert!(server.read_from("10.0.0.8", Some(b"X|1\nX|2\n".as_slice())));
    assert!(server.read_from("10.0.0.8", Some(b"X|3\n".as_slice())));
    let broadcast = server.distribute().expect("three messages were queued");
    assert_eq!(broadcast.packet, "X|1\nX|2\nX|3\n");
}

#[test]
fn accepting_announces_the_peer_to_everyone_including_itself() {
    let mut server = Server::at("10.0.0.5", 7878);
    let first = server.register(Some("10.0.0.8".to_string()));
    assert_eq!(first.client, "10.0.0.8");
    assert_eq!(first.announcement.packet, "SERVER|10.0.0.8 connected.\n");
    assert_eq!(first.announcement.recipients, 1);
    let second = server.register(Some("10.0.0.9".to_string()));
    assert_eq!(second.announcement.packet, "SERVER|10.0.0.9 connected.\n");
    assert_eq!(second.announcement.recipients, 2);
    assert_eq!(server.connections(), 2);
    assert_eq!(server.pending(), 0);
}

#[test]
fn a_peer_without_address_is_announced_as_unknown() {
    let mut server = Server::at("10.0.0.5", 7878);
    let admission = server.register(None);
    assert_eq!(admission.client, "<UNKNOWN CLIENT>");
    assert_eq!(admission.announcement.packet, "SERVER|<UNKNOWN CLIENT> connected.\n");
    assert_eq!(admission.announcement.recipients, 1);
}

#[test]
fn a_process_that_joins_is_announced_to_everyone() {
    // A hears nothing and serves on 10.0.0.5:7878.
    assert!(matches!(elect(None), Role::Server));
    let mut server = Server::at("10.0.0.5", 7878);
    let payload = match broadcast_server_address(&server.clone_addr(), BeaconEvent::Bound) {
        BeaconAction::Announce(payload) => payload,
        _ => panic!("the beacon has to announce"),
    };
    assert_eq!(payload, "10.0.0.5:7878");
    // B hears the announcement and connects to the announced address.
    let (client, own_server) = match Client::new(Some(payload.as_bytes())) {
        Ok(roles) => roles,
        Err(_) => panic!("an announcement was heard"),
    };
    assert!(own_server.is_none());
    assert_eq!(client.server_address(), "10.0.0.5:7878");
    // A accepts B and tells everyone, B included.
    let admission = server.register(Some("10.0.0.9".to_string()));
    assert_eq!(admission.announcement.packet.as_bytes(), b"SERVER|10.0.0.9 connected.\n");
    assert_eq!(admission.announcement.recipients, server.connections());
    assert_eq!(server.connections(), 1);
}

#[test]
fn a_closed_connection_is_noted_and_stays_registered() {
    let mut server = Server::at("10.0.0.5", 7878);
    server.register(Some("10.0.0.8".to_string()));
    let b = server.register(Some("10.0.0.9".to_string()));
    // B's connection is closed: its reader sees a read of no bytes.
    let again = server.read_from(&b.client, Some([].as_slice()));
    assert!(!again);
    assert_eq!(server.pending(), 1);
    // The next cycle tells every registered connection; B stays registered.
    let broadcast = server.distribute().expect("the notice was queued");
    assert_eq!(broadcast.packet.as_bytes(), b"SERVER|10.0.0.9 disconnected.\n");
    assert_eq!(broadcast.recipients, 2);
    assert_eq!(server.connections(), 2);
}

#[test]
fn leading_nul_means_the_peer_is_gone() {
    let mut queue = MessageQueue::new();
    let again = read_incoming_messages_from_client(
        Some([0u8, b'A', b'|', b'B', b'\n'].as_slice()),
        &mut queue,
        "10.0.0.9",
    );
    assert!(!again);
    assert_eq!(contents(queue.drain()), vec![pair("SERVER", "10.0.0.9 disconnected.")]);
}

#[test]
fn failed_read_ends_the_reader_silently() {
    let mut queue = MessageQueue::new();
    queue.push(message("a", "b"));
    let again = read_incoming_messages_from_client(None, &mut queue, "10.0.0.9");
    assert!(!again);
    assert_eq!(contents(queue.drain()), vec![pair("a", "b")]);
}

#[test]
fn received_frames_are_queued_behind_what_is_there() {
    let mut queue = MessageQueue::new();
    queue.push(message("a", "b"));
    let again = read_incoming_messages_from_client(
        Some(b"c|d\nnoise\ne|f\n".as_slice()),
        &mut queue,
        "10.0.0.9",
    );
    assert!(again);
    assert_eq!(contents(queue.drain()), vec![pair("a", "b"), pair("c", "d"), pair("e", "f")]);
}

#[test]
fn undecodable_bytes_keep_the_reader_going() {
    let mut queue = MessageQueue::new();
    let again =
        read_incoming_messages_from_client(Some(b"no frame here".as_slice()), &mut queue, "p");
    assert!(again);
    assert!(queue.drain().is_none());
}

#[test]
fn ill_formed_bytes_arrive_as_replacement_characters() {
    let mut queue = MessageQueue::new();
    let again = read_incoming_messages_from_client(
        Some([b'a', b'|', 0xff, b'\n'].as_slice()),
        &mut queue,
        "p",
    );
    assert!(again);
    assert_eq!(contents(queue.drain()), vec![pair("a", "\u{fffd}")]);
}

#[test]
fn kill_stops_the_server_and_names_every_connection() {
    let mut server = Server::at("10.0.0.5", 7878);
    server.register(Some("10.0.0.8".to_string()));
    server.register(None);
    assert!(server.read_from("10.0.0.8", Some(b"X|hi\n".as_slice())));
    assert_eq!(server.kill(), 2);
    assert!(!server.running());
    assert_eq!(server.connections(), 2);
    assert_eq!(server.pending(), 1);
    assert_eq!(server.clone_addr(), "10.0.0.5:7878");
}

#[test]
fn client_inbox_starts_empty() {
    let mut client = match Client::new(Some(b"10.0.0.5:7878".as_slice())) {
        Ok((client, _)) => client,
        Err(_) => panic!("an announcement was heard"),
    };
    assert!(client.consume_inbox().is_none());
}

#[test]
fn client_reader_fills_the_inbox_and_consuming_empties_it() {
    let mut client = Client::joining("10.0.0.5:7878".to_string());
    assert!(client.receive(Some(b"X|hi\nY|yo\n".as_slice())));
    assert!(client.receive(Some(b"SERVER|10.0.0.9 connected.\n".as_slice())));
    assert_eq!(
        contents(client.consume_inbox()),
        vec![pair("X", "hi"), pair("Y", "yo"), pair("SERVER", "10.0.0.9 connected.")]
    );
    assert!(client.consume_inbox().is_none());
}

#[test]
fn client_reader_ends_on_an_empty_or_failed_read() {
    let mut client = Client::joining("10.0.0.5:7878".to_string());
    assert!(client.receive(Some(b"X|hi\n".as_slice())));
    assert!(!client.receive(Some([].as_slice())));
    assert!(!client.receive(None));
    assert_eq!(contents(client.consume_inbox()), vec![pair("X", "hi")]);
}

#[test]
fn client_reader_does_not_stop_at_a_leading_nul() {
    let mut client = Client::joining("10.0.0.5:7878".to_string());
    assert!(client.receive(Some([0u8, b'\n', b'a', b'|', b'b', b'\n'].as_slice())));
    assert_eq!(contents(client.consume_inbox()), vec![pair("a", "b")]);
}

#[test]
fn what_the_server_distributes_a_client_reads_back() {
    let mut server = Server::at("10.0.0.5", 7878);
    server.register(Some("10.0.0.8".to_string()));
    assert!(server.read_from("10.0.0.8", Some("zoë|grüße\nbob|a|b\n".as_bytes())));
    let broadcast = server.distribute().expect("two messages were queued");
    let mut client = Client::joining(server.clone_addr());
    assert!(client.receive(Some(broadcast.packet.as_bytes())));
    assert_eq!(contents(client.consume_inbox()), vec![pair("zoë", "grüße"), pair("bob", "a|b")]);
}

#[test]
fn send_hands_out_the_frame_to_write() {
    let client = Client::joining("10.0.0.5:7878".to_string());
    assert_eq!(client.send(&message("10.0.0.9", "hello")).as_bytes(), b"10.0.0.9|hello\n");
}

#[test]
fn a_written_frame_counts_as_one_message_sent() {
    assert_eq!(Client::sent(Ok(())), Ok(1));
}

#[test]
fn a_failed_write_is_reported_with_its_reason() {
    assert_eq!(
        Client::sent(Err("Kind(BrokenPipe)".to_string())),
        Err("Error: Kind(BrokenPipe)".to_string())
    );
}

#[test]
fn kill_waits_for_the_reader_once() {
    let mut client = Client::joining("10.0.0.5:7878".to_string());
    assert!(client.receive(Some(b"X|hi\n".as_slice())));
    assert!(client.kill());
    assert!(!client.kill());
    assert_eq!(client.server_address(), "10.0.0.5:7878");
    assert_eq!(contents(client.consume_inbox()), vec![pair("X", "hi")]);
}

#[test]
fn what_a_client_sends_the_server_queues() {
    let client = Client::joining("10.0.0.5:7878".to_string());
    let mut server = Server::at("10.0.0.5", 7878);
    server.register(Some("10.0.0.9".to_string()));
    let frame = client.send(&message("10.0.0.9", "grüße | all"));
    assert!(server.read_from("10.0.0.9", Some(frame.as_bytes())));
    let broadcast = server.distribute().expect("one message was queued");
    assert_eq!(broadcast.packet, "10.0.0.9|grüße | all\n");
    assert_eq!(broadcast.recipients, 1);
}

#[test]
fn a_frame_that_begins_with_nul_is_taken_for_a_closed_connection() {
    let client = Client::joining("10.0.0.5:7878".to_string());
    let mut server = Server::at("10.0.0.5", 7878);
    let frame = client.send(&message("\0odd", "hello"));
    assert!(!server.read_from("10.0.0.9", Some(frame.as_bytes())));
    let broadcast = server.distribute().expect("the notice was queued");
    assert_eq!(broadcast.packet, "SERVER|10.0.0.9 disconnected.\n");
}
