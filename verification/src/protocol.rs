//! Art-Net commands as far as the listener reads them, and the decoding of
//! a datagram into such a command.

use vstd::prelude::*;
use artnet_protocol::ArtCommand;

verus! {

/// Error of the Art-Net codec. Nothing inside it is read here.
#[verifier::external_type_specification]
#[verifier::external_body]
pub struct ExArtnetError(artnet_protocol::Error);

/// An Art-Net command, reduced to what the listener acts on.
#[derive(Debug)]
pub enum Command {
    /// A discovery request.
    Poll,
    /// DMX data for one universe: the port address it is sent to and the
    /// bytes it carries.
    Output { universe: u16, payload: Vec<u8> },
    /// Any other command of the protocol.
    Other,
}

/// A command as mathematical values.
pub enum CommandView {
    Poll,
    Output { universe: u16, payload: Seq<u8> },
    Other,
}

impl View for Command {
    type V = CommandView;

    open spec fn view(&self) -> CommandView {
        match *self {
            Command::Poll => CommandView::Poll,
            Command::Output { universe, payload } => CommandView::Output {
                universe,
                payload: payload@,
            },
            Command::Other => CommandView::Other,
        }
    }
}

/// The command that the Art-Net codec reads from a datagram, or `None` for
/// a datagram that it rejects.
pub uninterp spec fn parsed_command(datagram: Seq<u8>) -> Option<CommandView>;

/// Decodes a datagram with `artnet_protocol::ArtCommand::from_buffer`.
///
/// Trusted: the codec's answer depends on the bytes alone, so it is given
/// the name `parsed_command`. A poll is reported as `Poll`, an ArtDmx
/// packet as `Output` with its port address and its data, every other
/// command that the codec knows as `Other`.
#[verifier::external_body]
pub(crate) fn parse_command(datagram: &[u8]) -> (parsed: Result<Command, artnet_protocol::Error>)
    ensures
        parsed is Ok <==> parsed_command(datagram@) is Some,
        parsed is Ok ==> parsed_command(datagram@) == Some(parsed.unwrap()@),
{
    Ok(
        match ArtCommand::from_buffer(datagram)? {
            ArtCommand::Poll(_) => Command::Poll,
            ArtCommand::Output(output) => Command::Output {
                universe: output.port_address.into(),
                payload: output.data.as_ref().clone(),
            },
            _ => Command::Other,
        },
    )
}

} // verus!
