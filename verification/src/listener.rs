//! Protocol listener: what to do with each thing the socket yields.

use vstd::prelude::*;
use crate::decoder::{decode_universe, decoded_segment, SegmentView, UniverseSegment};
use crate::layout::spec_universe_in_range;
use crate::protocol::{parse_command, parsed_command, Command, CommandView};

verus! {

/// How long the listener rests when no datagram is waiting.
pub const RECEIVE_BACKOFF_MS: u64 = 1;

/// Size of the buffer that a datagram is received into.
pub const RECEIVE_BUFFER_LEN: usize = 1024;

/// What the listener does after one attempt to receive.
#[derive(Debug)]
pub enum ListenerAction {
    /// Nothing was waiting: rest for `millis` milliseconds and try again.
    Backoff { millis: u64 },
    /// Merge `segment` into the frame store at `universe`.
    Merge { universe: u16, segment: UniverseSegment },
    /// Answer a discovery request: one reply per local IPv4 interface.
    Discover,
    /// Nothing to do for this datagram.
    Ignore,
}

/// A listener action as mathematical values.
pub enum ListenerActionView {
    Backoff { millis: u64 },
    Merge { universe: u16, segment: SegmentView },
    Discover,
    Ignore,
}

impl View for ListenerAction {
    type V = ListenerActionView;

    open spec fn view(&self) -> ListenerActionView {
        match *self {
            ListenerAction::Backoff { millis } => ListenerActionView::Backoff { millis },
            ListenerAction::Merge { universe, segment } => ListenerActionView::Merge {
                universe,
                segment: segment@,
            },
            ListenerAction::Discover => ListenerActionView::Discover,
            ListenerAction::Ignore => ListenerActionView::Ignore,
        }
    }
}

/// Why the listener cannot go on.
#[derive(Clone, Copy, Debug, PartialEq, Eq, Structural)]
pub enum ListenerError {
    /// The datagram is not an Art-Net command that the codec can read.
    Undecodable,
}

/// The action that a command calls for: a poll starts discovery, output
/// for a mapped universe is decoded and merged, everything else is
/// ignored.
pub open spec fn action_for(command: CommandView) -> ListenerActionView {
    match command {
        CommandView::Poll => ListenerActionView::Discover,
        CommandView::Output { universe, payload } => if spec_universe_in_range(universe) {
            ListenerActionView::Merge { universe, segment: decoded_segment(universe, payload) }
        } else {
            ListenerActionView::Ignore
        },
        CommandView::Other => ListenerActionView::Ignore,
    }
}

/// Output for a universe that is not mapped onto the strip never reaches
/// the frame store: it is ignored, whatever it carries.
pub proof fn lemma_unmapped_output_is_ignored(universe: u16, payload: Seq<u8>)
    requires
        !spec_universe_in_range(universe),
    ensures
        action_for(CommandView::Output { universe, payload }) == ListenerActionView::Ignore,
{
}

/// Decides what to do with a decoded command.
pub fn dispatch(command: &Command) -> (action: ListenerAction)
    ensures
        action@ == action_for(command@),
{
    match command {
        Command::Poll => ListenerAction::Discover,
        Command::Output { universe, payload } => match decode_universe(
            *universe,
            payload.as_slice(),
        ) {
            Some(segment) => ListenerAction::Merge { universe: *universe, segment },
            None => ListenerAction::Ignore,
        },
        Command::Other => ListenerAction::Ignore,
    }
}

/// Decides what the listener does after one attempt to receive.
///
/// Without a datagram it rests for `RECEIVE_BACKOFF_MS`. A datagram is
/// decoded and dispatched; one that cannot be decoded stops the listener.
pub fn on_receive(received: Option<&[u8]>) -> (outcome: Result<ListenerAction, ListenerError>)
    ensures
        match received {
            None => outcome is Ok && outcome.unwrap()@ == (ListenerActionView::Backoff {
                millis: RECEIVE_BACKOFF_MS,
            }),
            Some(datagram) => match parsed_command(datagram@) {
                Some(command) => outcome is Ok && outcome.unwrap()@ == action_for(command),
                None => outcome == Err::<ListenerAction, ListenerError>(
                    ListenerError::Undecodable,
                ),
            },
        },
{
    match received {
        None => Ok(ListenerAction::Backoff { millis: RECEIVE_BACKOFF_MS }),
        Some(datagram) => match parse_command(datagram) {
            Ok(command) => Ok(dispatch(&command)),
            Err(_) => Err(ListenerError::Undecodable),
        },
    }
}

} // verus!
