//! Node discovery: the replies that a poll is answered with.

use vstd::prelude::*;
use artnet_protocol::{ArtCommand, PollReply, ARTNET_PROTOCOL_VERSION};
use nix::sys::socket::{IpAddr, SockAddr};

verus! {

/// UDP port of the Art-Net protocol.
pub const ARTNET_PORT: u16 = 6454;

/// Short name that the node announces: the text "Lumastar Pixie", padded with
/// NUL to the field width.
pub const SHORT_NAME: [u8; 18] = [
    76, 117, 109, 97, 115, 116, 97, 114, 32, 80, 105, 120, 105, 101, 0, 0,
    0, 0,
];

/// Long name that the node announces: the text "Lumastar Pixie Driver", padded
/// with NUL to the field width.
pub const LONG_NAME: [u8; 64] = [
    76, 117, 109, 97, 115, 116, 97, 114, 32, 80, 105, 120, 105, 101, 32, 68,
    114, 105, 118, 101, 114, 0, 0, 0, 0, 0, 0, 0, 0, 0, 0, 0,
    0, 0, 0, 0, 0, 0, 0, 0, 0, 0, 0, 0, 0, 0, 0, 0,
    0, 0, 0, 0, 0, 0, 0, 0, 0, 0, 0, 0, 0, 0, 0, 0,
];

/// High and low part of the port address that the node announces.
pub const ANNOUNCED_PORT_ADDRESS: [u8; 2] = [0, 1];

/// Input universes that the node announces for its four ports.
pub const ANNOUNCED_INPUTS: [u8; 4] = [1, 2, 3, 4];

/// One address of a local network interface, as far as discovery reads it.
#[derive(Clone, Copy, Debug, PartialEq, Eq)]
pub enum HostAddress {
    /// An IPv4 address, by its four octets.
    Ipv4([u8; 4]),
    /// An address of another family, or an interface without an address.
    Other,
}

/// The fields of a discovery reply that this node fills in. Every other
/// field of the packet is sent as zero.
#[derive(Clone, Copy, Debug)]
pub struct DiscoveryReply {
    /// IPv4 address of the interface that the reply announces.
    pub address: [u8; 4],
    /// UDP port of the node.
    pub port: u16,
    /// Announced port address.
    pub port_address: [u8; 2],
    /// Short name, NUL padded.
    pub short_name: [u8; 18],
    /// Long name, NUL padded.
    pub long_name: [u8; 64],
    /// Announced input universes.
    pub swin: [u8; 4],
}

/// A datagram together with the peer it goes to.
#[derive(Debug)]
pub struct Outbound<A> {
    /// The peer that the datagram is sent to.
    pub to: A,
    /// The bytes of the datagram.
    pub payload: Vec<u8>,
}

/// Why a poll could not be answered.
#[derive(Clone, Copy, Debug, PartialEq, Eq, Structural)]
pub enum DiscoveryError {
    /// The host did not tell its interface addresses.
    HostsUnavailable,
    /// The codec refused to encode a reply.
    Unencodable,
}

/// Error number of a failed system call. Nothing inside it is read here.
#[verifier::external_type_specification]
#[verifier::external_body]
pub struct ExErrno(nix::errno::Errno);

/// The reply that announces the interface with the given address: the
/// static identification of this node, and the address.
pub open spec fn spec_discovery_reply(address: [u8; 4]) -> DiscoveryReply {
    DiscoveryReply {
        address,
        port: ARTNET_PORT,
        port_address: ANNOUNCED_PORT_ADDRESS,
        short_name: SHORT_NAME,
        long_name: LONG_NAME,
        swin: ANNOUNCED_INPUTS,
    }
}

/// The IPv4 addresses among the given interface addresses, in their order.
pub open spec fn ipv4_addresses(hosts: Seq<HostAddress>) -> Seq<[u8; 4]>
    decreases hosts.len(),
{
    if hosts.len() == 0 {
        Seq::empty()
    } else {
        let before = ipv4_addresses(hosts.drop_last());
        match hosts.last() {
            HostAddress::Ipv4(address) => before.push(address),
            HostAddress::Other => before,
        }
    }
}

/// The replies that answer a poll on a host with the given interface
/// addresses: one for every IPv4 address, in order.
pub open spec fn spec_discovery_replies(hosts: Seq<HostAddress>) -> Seq<DiscoveryReply> {
    ipv4_addresses(hosts).map_values(|address: [u8; 4]| spec_discovery_reply(address))
}

/// The Art-Net datagram that the codec writes for a reply, or `None` if it
/// refuses to encode it.
pub uninterp spec fn poll_reply_datagram(reply: DiscoveryReply) -> Option<Seq<u8>>;

/// Encodes a reply with `artnet_protocol::ArtCommand::write_to_buffer`.
///
/// Trusted: the packet carries the given fields, the codec's protocol
/// version, and the codec's defaults (zero) in every other field; what the
/// codec writes for it depends on the reply alone and is given the name
/// `poll_reply_datagram`.
#[verifier::external_body]
pub(crate) fn encode_reply(reply: &DiscoveryReply) -> (encoded: Result<
    Vec<u8>,
    artnet_protocol::Error,
>)
    ensures
        encoded is Ok <==> poll_reply_datagram(*reply) is Some,
        encoded is Ok ==> poll_reply_datagram(*reply) == Some(encoded.unwrap()@),
{
    let packet = PollReply {
        address: reply.address.into(),
        port: reply.port,
        version: ARTNET_PROTOCOL_VERSION,
        port_address: reply.port_address,
        short_name: reply.short_name,
        long_name: reply.long_name,
        swin: reply.swin,
        ..PollReply::default()
    };
    ArtCommand::PollReply(Box::new(packet)).write_to_buffer()
}

/// Lists the addresses of the local network interfaces with
/// `nix::ifaddrs::getifaddrs`, one entry per address that the host reports.
///
/// Trusted: nothing is claimed of the answer, which is the host's to give.
/// An IPv4 address is reported by its octets, anything else as `Other`.
#[verifier::external_body]
pub(crate) fn local_addresses() -> (hosts: Result<Vec<HostAddress>, nix::errno::Errno>) {
    Ok(
        nix::ifaddrs::getifaddrs()?.map(
            |entry| match entry.address {
                Some(SockAddr::Inet(inet)) => match inet.ip() {
                    IpAddr::V4(v4) => HostAddress::Ipv4(v4.octets()),
                    IpAddr::V6(_) => HostAddress::Other,
                },
                _ => HostAddress::Other,
            },
        ).collect(),
    )
}

/// The reply that announces the interface with the given address.
pub fn discovery_reply(address: [u8; 4]) -> (reply: DiscoveryReply)
    ensures
        reply == spec_discovery_reply(address),
{
    DiscoveryReply {
        address,
        port: ARTNET_PORT,
        port_address: ANNOUNCED_PORT_ADDRESS,
        short_name: SHORT_NAME,
        long_name: LONG_NAME,
        swin: ANNOUNCED_INPUTS,
    }
}

/// The replies that answer a poll: one for every IPv4 address among the
/// host's interface addresses, in their order.
pub fn discovery_replies(hosts: &[HostAddress]) -> (replies: Vec<DiscoveryReply>)
    ensures
        replies@ == spec_discovery_replies(hosts@),
        replies@.len() == ipv4_addresses(hosts@).len(),
{
    let mut replies: Vec<DiscoveryReply> = Vec::new();
    let mut index: usize = 0;
    while index < hosts.len()
        invariant
            index <= hosts@.len(),
            replies@ == spec_discovery_replies(hosts@.take(index as int)),
        decreases hosts@.len() - index,
    {
        proof {
            let upto = hosts@.take(index + 1);
            assert(upto.drop_last() =~= hosts@.take(index as int));
            assert(upto.last() == hosts@[index as int]);
        }
        match hosts[index] {
            HostAddress::Ipv4(address) => {
                replies.push(discovery_reply(address));
            },
            HostAddress::Other => {},
        }
        index += 1;
        assert(replies@ =~= spec_discovery_replies(hosts@.take(index as int)));
    }
    assert(hosts@.take(index as int) =~= hosts@);
    replies
}

/// Whether the codec encodes every one of the given replies.
pub open spec fn all_encodable(replies: Seq<DiscoveryReply>) -> bool {
    forall|i: int| 0 <= i < replies.len() ==> poll_reply_datagram(#[trigger] replies[i]) is Some
}

/// The datagrams that answer a poll from `sender` on a host with the given
/// interface addresses: the encoded reply of every IPv4 address, in order,
/// each addressed to the sender.
///
/// Fails if the codec refuses one of the replies.
pub fn answer_poll_with<A: Copy>(sender: A, hosts: &[HostAddress]) -> (outcome: Result<
    Vec<Outbound<A>>,
    DiscoveryError,
>)
    ensures
        outcome is Ok <==> all_encodable(spec_discovery_replies(hosts@)),
        outcome is Ok ==> {
            let datagrams = outcome.unwrap()@;
            let replies = spec_discovery_replies(hosts@);
            &&& datagrams.len() == ipv4_addresses(hosts@).len()
            &&& datagrams.len() == replies.len()
            &&& forall|i: int|
                0 <= i < datagrams.len() ==> {
                    &&& (#[trigger] datagrams[i]).to == sender
                    &&& poll_reply_datagram(replies[i]) == Some(datagrams[i].payload@)
                }
        },
        outcome is Err ==> outcome == Err::<Vec<Outbound<A>>, DiscoveryError>(
            DiscoveryError::Unencodable,
        ),
{
    let replies = discovery_replies(hosts);
    let mut datagrams: Vec<Outbound<A>> = Vec::new();
    let mut index: usize = 0;
    while index < replies.len()
        invariant
            index <= replies@.len(),
            replies@ == spec_discovery_replies(hosts@),
            datagrams@.len() == index,
            forall|i: int|
                0 <= i < index ==> poll_reply_datagram(#[trigger] replies@[i]) == Some(
                    datagrams@[i].payload@,
                ),
            forall|i: int| 0 <= i < index ==> (#[trigger] datagrams@[i]).to == sender,
        decreases replies@.len() - index,
    {
        match encode_reply(&replies[index]) {
            Ok(payload) => {
                datagrams.push(Outbound { to: sender, payload });
            },
            Err(_) => {
                assert(poll_reply_datagram(replies@[index as int]) is None);
                return Err(DiscoveryError::Unencodable);
            },
        }
        index += 1;
    }
    Ok(datagrams)
}

/// Whether `datagram` is the encoded discovery reply of some interface.
pub open spec fn is_discovery_datagram(datagram: Seq<u8>) -> bool {
    exists|address: [u8; 4]| #[trigger]
        poll_reply_datagram(spec_discovery_reply(address)) == Some(datagram)
}

/// Answers a poll from `sender` on this host: asks the host for its
/// interface addresses and encodes one reply per IPv4 address.
///
/// Which interfaces the host reports is not known in advance, so the
/// contract says what holds of every answer; `answer_poll_with` says which
/// datagrams belong to a given list of addresses.
pub fn answer_poll<A: Copy>(sender: A) -> (outcome: Result<Vec<Outbound<A>>, DiscoveryError>)
    ensures
        outcome is Ok ==> forall|i: int|
            0 <= i < outcome.unwrap()@.len() ==> {
                &&& (#[trigger] outcome.unwrap()@[i]).to == sender
                &&& is_discovery_datagram(outcome.unwrap()@[i].payload@)
            },
{
    match local_addresses() {
        Ok(hosts) => {
            let outcome = answer_poll_with(sender, hosts.as_slice());
            proof {
                if outcome is Ok {
                    let datagrams = outcome.unwrap()@;
                    let addresses = ipv4_addresses(hosts@);
                    assert forall|i: int| 0 <= i < datagrams.len() implies is_discovery_datagram(
                        (#[trigger] datagrams[i]).payload@,
                    ) by {
                        assert(spec_discovery_replies(hosts@)[i] == spec_discovery_reply(
                            addresses[i],
                        ));
                        assert(poll_reply_datagram(spec_discovery_reply(addresses[i])) == Some(
                            datagrams[i].payload@,
                        ));
                    }
                }
            }
            outcome
        },
        Err(_) => Err(DiscoveryError::HostsUnavailable),
    }
}

} // verus!
