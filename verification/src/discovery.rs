//! Discovery: how a process finds the relay server, or learns that it has to
//! become it.
//!
//! The server announces its address once a second by UDP broadcast. A
//! starting process listens for one announcement; if none arrives in time it
//! elects itself server on its own non-loopback address.

use vstd::prelude::*;
use vstd::string::*;
use vstd::utf8::*;
use network_interface::NetworkInterface;
use network_interface::NetworkInterfaceConfig;
use crate::text::lossy_text;
use crate::text::text_from_bytes;

verus! {

/// The UDP port on which the server's address is announced.
pub const DISCOVERY_PORT: u16 = 12345;

/// The TCP port on which the relay server listens.
pub const RELAY_PORT: usize = 7878;

/// How long a starting process waits for an announcement, in seconds.
pub const DISCOVERY_TIMEOUT_SECS: u64 = 5;

/// The pause between two announcements, in milliseconds.
pub const BEACON_PERIOD_MILLIS: u64 = 1000;

/// The most bytes that one read from a socket takes, announcements and
/// streams alike.
pub const READ_BUFFER_SIZE: usize = 512;

/// The IPv4 loopback address, which is never announced.
pub open spec fn loopback() -> Seq<char> {
    "127.0.0.1"@
}

/// The address an interface offers: its first one, unless it has none or
/// that one is the loopback address.
pub open spec fn offered_address(addresses: Seq<Seq<char>>) -> Option<Seq<char>> {
    if addresses.len() > 0 && addresses[0] != loopback() {
        Some(addresses[0])
    } else {
        None
    }
}

/// The local address of a machine with these interfaces: what the first
/// interface that offers an address offers.
pub open spec fn local_address(interfaces: Seq<Seq<Seq<char>>>) -> Option<Seq<char>>
    decreases interfaces.len(),
{
    if interfaces.len() == 0 {
        None
    } else {
        match offered_address(interfaces[0]) {
            Some(address) => Some(address),
            None => local_address(interfaces.drop_first()),
        }
    }
}

/// The local address is never the loopback address.
pub proof fn lemma_local_address_not_loopback(interfaces: Seq<Seq<Seq<char>>>)
    ensures
        local_address(interfaces) != Some(loopback()),
    decreases interfaces.len(),
{
    if interfaces.len() > 0 {
        lemma_local_address_not_loopback(interfaces.drop_first());
    }
}

/// `network_interface::Error`, carried through as an opaque value.
#[verifier::external_type_specification]
#[verifier::external_body]
pub struct ExInterfaceError(network_interface::Error);

/// `NetworkInterface::show`: the machine's network interfaces, each as the
/// list of its addresses in text form. What it finds, and in which order,
/// is up to the machine, so nothing is promised of the listing.
#[verifier::external_body]
fn interface_addresses() -> (listing: Result<Vec<Vec<String>>, network_interface::Error>) {
    let interfaces = NetworkInterface::show()?;
    Ok(
        interfaces.into_iter().map(
            |interface| interface.addr.iter().map(|address| address.ip().to_string()).collect(),
        ).collect(),
    )
}

/// Picks the local address among the interfaces of a machine, each given as
/// the list of its addresses: the first address of the first interface whose
/// first address is not the loopback address.
pub fn pick_local_address(interfaces: &Vec<Vec<String>>) -> (address: Option<String>)
    ensures
        address.deep_view() == local_address(interfaces.deep_view()),
{
    let excluded = "127.0.0.1".to_owned();
    let mut i: usize = 0;
    assert(interfaces.deep_view().skip(0) =~= interfaces.deep_view());
    while i < interfaces.len()
        invariant
            i <= interfaces.len(),
            excluded@ == loopback(),
            local_address(interfaces.deep_view()) == local_address(
                interfaces.deep_view().skip(i as int),
            ),
        decreases interfaces.len() - i,
    {
        let ghost rest = interfaces.deep_view().skip(i as int);
        assert(rest.drop_first() =~= interfaces.deep_view().skip(i + 1));
        let addresses = &interfaces[i];
        if addresses.len() > 0 {
            if addresses[0] != excluded {
                return Some(addresses[0].clone());
            }
        }
        i = i + 1;
    }
    None
}

/// This machine's local address: see [`pick_local_address`]. `None` where the
/// machine has no such address or its interfaces cannot be listed.
pub fn get_localaddr() -> (address: Option<String>)
    ensures
        address.deep_view() != Some(loopback()),
{
    match interface_addresses() {
        Ok(interfaces) => {
            proof {
                lemma_local_address_not_loopback(interfaces.deep_view());
            }
            pick_local_address(&interfaces)
        },
        Err(_) => None,
    }
}

/// The part a starting process takes.
pub enum Role {
    /// An announcement was heard: connect to the server at this address.
    Client(String),
    /// None was heard: become the server.
    Server,
}

/// The values of [`Role`].
pub enum RoleView {
    Client(Seq<char>),
    Server,
}

impl View for Role {
    type V = RoleView;

    open spec fn view(&self) -> RoleView {
        match self {
            Role::Client(server_address) => RoleView::Client(server_address@),
            Role::Server => RoleView::Server,
        }
    }
}

/// Decides the role of a starting process from the outcome of its one
/// attempt to hear an announcement: `Some` payload makes it a client of the
/// address that the payload spells, whatever it spells; `None`, for a
/// timeout or a failed receive, makes it the server.
pub fn elect(beacon: Option<&[u8]>) -> (role: Role)
    ensures
        beacon is None ==> role@ == RoleView::Server,
        beacon matches Some(payload) ==> role@ == RoleView::Client(lossy_text(payload@)),
        beacon matches Some(payload) ==> valid_utf8(payload@) ==> role@ == RoleView::Client(
            decode_utf8(payload@),
        ),
{
    match beacon {
        Some(payload) => Role::Client(text_from_bytes(payload)),
        None => Role::Server,
    }
}

/// What the announcing task has just seen.
pub enum BeaconEvent {
    /// The announcement socket is bound.
    Bound,
    /// The announcement socket could not be bound; the reason is attached.
    BindFailed(String),
    /// An announcement went out.
    Sent,
    /// An announcement could not be sent.
    SendFailed,
    /// The pause after an announcement is over; `running` is the server's
    /// flag as read after the pause.
    Slept { running: bool },
}

/// What the announcing task has to do next.
pub enum BeaconAction {
    /// Broadcast this payload on the discovery port.
    Announce(String),
    /// Pause for this many milliseconds.
    Pause(u64),
    /// Stop, with this outcome.
    Finish(Result<String, String>),
}

/// The values of [`BeaconAction`].
pub enum BeaconActionView {
    Announce(Seq<char>),
    Pause(u64),
    Finish(Result<Seq<char>, Seq<char>>),
}

impl View for BeaconAction {
    type V = BeaconActionView;

    open spec fn view(&self) -> BeaconActionView {
        match self {
            BeaconAction::Announce(payload) => BeaconActionView::Announce(payload@),
            BeaconAction::Pause(millis) => BeaconActionView::Pause(*millis),
            BeaconAction::Finish(Ok(text)) => BeaconActionView::Finish(Ok(text@)),
            BeaconAction::Finish(Err(text)) => BeaconActionView::Finish(Err(text@)),
        }
    }
}

/// The announcing task's rule. Once bound it announces the server's address,
/// pauses, and announces again for as long as the server is running; it stops
/// cleanly when the server no longer runs, and with an error when binding or
/// sending fails.
pub open spec fn beacon_rule(server_address: Seq<char>, event: BeaconEvent) -> BeaconActionView {
    match event {
        BeaconEvent::Bound => BeaconActionView::Announce(server_address),
        BeaconEvent::BindFailed(reason) => BeaconActionView::Finish(
            Err("Failed to broadcast server address: "@ + reason@),
        ),
        BeaconEvent::Sent => BeaconActionView::Pause(BEACON_PERIOD_MILLIS),
        BeaconEvent::SendFailed => BeaconActionView::Finish(
            Err("Failed to send address over UDP socket."@),
        ),
        BeaconEvent::Slept { running } => if running {
            BeaconActionView::Announce(server_address)
        } else {
            BeaconActionView::Finish(Ok(Seq::empty()))
        },
    }
}

/// One step of the announcing task: what to do after `event`.
pub fn broadcast_server_address(server_address: &str, event: BeaconEvent) -> (action: BeaconAction)
    ensures
        action@ == beacon_rule(server_address@, event),
{
    match event {
        BeaconEvent::Bound => BeaconAction::Announce(server_address.to_owned()),
        BeaconEvent::BindFailed(reason) => {
            let mut text = "Failed to broadcast server address: ".to_owned();
            text.append(reason.as_str());
            BeaconAction::Finish(Err(text))
        },
        BeaconEvent::Sent => BeaconAction::Pause(BEACON_PERIOD_MILLIS),
        BeaconEvent::SendFailed => BeaconAction::Finish(
            Err("Failed to send address over UDP socket.".to_owned()),
        ),
        BeaconEvent::Slept { running } => {
            if running {
                BeaconAction::Announce(server_address.to_owned())
            } else {
                BeaconAction::Finish(Ok(String::new()))
            }
        },
    }
}

} // verus!
