use lan_chat::client::Client;
use lan_chat::client::StartError;
use lan_chat::discovery::broadcast_server_address;
use lan_chat::discovery::elect;
use lan_chat::discovery::get_localaddr;
use lan_chat::discovery::pick_local_address;
use lan_chat::discovery::BeaconAction;
use lan_chat::discovery::BeaconEvent;
use lan_chat::discovery::Role;
use lan_chat::discovery::BEACON_PERIOD_MILLIS;
use lan_chat::discovery::DISCOVERY_PORT;
use lan_chat::discovery::DISCOVERY_TIMEOUT_SECS;
use lan_chat::discovery::READ_BUFFER_SIZE;
use lan_chat::discovery::RELAY_PORT;

fn interface(addresses: &[&str]) -> Vec<String> {
    addresses.iter().map(|a| a.to_string()).collect()
}

#[test]
fn protocol_constants() {
    assert_eq!(DISCOVERY_PORT, 12345);
    assert_eq!(RELAY_PORT, 7878);
    assert_eq!(DISCOVERY_TIMEOUT_SECS, 5);
    assert_eq!(BEACON_PERIOD_MILLIS, 1000);
    assert_eq!(READ_BUFFER_SIZE, 512);
}

#[test]
fn silence_elects_the_server() {
    assert!(matches!(elect(None), Role::Server));
}

#[test]
fn an_announcement_elects_a_client_of_the_announced_address() {
    match elect(Some(b"10.0.0.5:7878".as_slice())) {
        Role::Client(address) => assert_eq!(address, "10.0.0.5:7878"),
        Role::Server => panic!("an announcement was heard"),
    }
}

#[test]
fn an_ill_formed_announcement_is_read_with_replacement_characters() {
    match elect(Some([b'a', 0xff, b'b'].as_slice())) {
        Role::Client(address) => assert_eq!(address, "a\u{fffd}b"),
        Role::Server => panic!("an announcement was heard"),
    }
}

#[test]
fn an_empty_announcement_still_elects_a_client() {
    match elect(Some([].as_slice())) {
        Role::Client(address) => assert_eq!(address, ""),
        Role::Server => panic!("an announcement was heard"),
    }
}

#[test]
fn local_address_is_the_first_interfaces_first_address() {
    let interfaces = vec![interface(&["192.168.1.20", "fe80::1"]), interface(&["10.0.0.5"])];
    assert_eq!(pick_local_address(&interfaces), Some("192.168.1.20".to_string()));
}

#[test]
fn local_address_skips_loopback_and_interfaces_without_address() {
    let interfaces = vec![
        interface(&[]),
        interface(&["127.0.0.1", "192.168.1.20"]),
        interface(&["10.0.0.5", "127.0.0.1"]),
    ];
    assert_eq!(pick_local_address(&interfaces), Some("10.0.0.5".to_string()));
}

#[test]
fn local_address_of_a_machine_with_loopback_only_is_none() {
    assert_eq!(pick_local_address(&vec![interface(&["127.0.0.1"])]), None);
    assert_eq!(pick_local_address(&Vec::new()), None);
}

#[test]
fn local_address_looks_at_first_addresses_only() {
    let interfaces = vec![interface(&["127.0.0.1", "10.0.0.5"])];
    assert_eq!(pick_local_address(&interfaces), None);
}

#[test]
fn this_machines_local_address_is_not_loopback() {
    assert_ne!(get_localaddr(), Some("127.0.0.1".to_string()));
}

#[test]
fn beacon_announces_once_bound() {
    match broadcast_server_address("10.0.0.5:7878", BeaconEvent::Bound) {
        BeaconAction::Announce(payload) => assert_eq!(payload, "10.0.0.5:7878"),
        _ => panic!("the beacon has to announce"),
    }
}

#[test]
fn beacon_pauses_a_second_after_each_announcement() {
    match broadcast_server_address("10.0.0.5:7878", BeaconEvent::Sent) {
        BeaconAction::Pause(millis) => assert_eq!(millis, 1000),
        _ => panic!("the beacon has to pause"),
    }
}

#[test]
fn beacon_announces_again_while_the_server_runs() {
    match broadcast_server_address("10.0.0.5:7878", BeaconEvent::Slept { running: true }) {
        BeaconAction::Announce(payload) => assert_eq!(payload, "10.0.0.5:7878"),
        _ => panic!("the beacon has to announce"),
    }
}

#[test]
fn beacon_ends_cleanly_when_the_server_stopped() {
    match broadcast_server_address("10.0.0.5:7878", BeaconEvent::Slept { running: false }) {
        BeaconAction::Finish(outcome) => assert_eq!(outcome, Ok(String::new())),
        _ => panic!("the beacon has to end"),
    }
}

#[test]
fn beacon_ends_with_an_error_when_sending_fails() {
    match broadcast_server_address("10.0.0.5:7878", BeaconEvent::SendFailed) {
        BeaconAction::Finish(outcome) => {
            assert_eq!(outcome, Err("Failed to send address over UDP socket.".to_string()))
        }
        _ => panic!("the beacon has to end"),
    }
}

#[test]
fn beacon_ends_with_an_error_when_binding_fails() {
    let event = BeaconEvent::BindFailed("AddrInUse".to_string());
    match broadcast_server_address("10.0.0.5:7878", event) {
        BeaconAction::Finish(outcome) => {
            assert_eq!(outcome, Err("Failed to broadcast server address: AddrInUse".to_string()))
        }
        _ => panic!("the beacon has to end"),
    }
}

#[test]
fn a_process_that_hears_the_beacon_becomes_a_client_only() {
    let (client, server) = match Client::new(Some(b"10.0.0.5:7878".as_slice())) {
        Ok(roles) => roles,
        Err(_) => panic!("an announcement was heard"),
    };
    assert!(server.is_none());
    assert_eq!(client.server_address(), "10.0.0.5:7878");
}

#[test]
fn a_process_that_hears_nothing_serves_on_its_local_address() {
    match Client::new(None) {
        Ok((client, server)) => {
            let server = server.expect("no announcement was heard");
            assert!(server.running());
            assert_eq!(server.connections(), 0);
            assert_eq!(server.pending(), 0);
            let address = server.clone_addr();
            assert!(address.ends_with(":7878"));
            assert_ne!(address, "127.0.0.1:7878");
            assert_eq!(client.server_address(), address);
        }
        Err(error) => {
            assert!(matches!(error, StartError::NoLocalAddress));
            assert_eq!(error.describe(), "Cannot start server, as no localaddr was found.");
        }
    }
}

#[test]
fn a_refused_discovery_socket_is_reported_with_its_reason() {
    let error = StartError::DiscoveryBind("Os { code: 98 }".to_string());
    assert_eq!(error.describe(), "Failed to bind UdpSocket: Os { code: 98 }");
}

#[test]
fn an_unreachable_server_is_reported_with_its_reason() {
    let error = StartError::Connect("Os { code: 111 }".to_string());
    assert_eq!(error.describe(), "Failed to bind TcpSocket: Os { code: 111 }");
}

#[test]
fn a_machine_without_local_address_cannot_serve() {
    assert_eq!(
        StartError::NoLocalAddress.describe(),
        "Cannot start server, as no localaddr was found."
    );
}
