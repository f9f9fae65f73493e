use vstd::prelude::*;
use crate::downlink::{ConvertError, DownlinkAck, DownlinkOutcome, DownlinkRequest};
use crate::packet::copy_bytes;
use crate::status::StatusCode;

verus! {

/// Longest wait for a command, in milliseconds. It bounds how long a stop
/// notification goes unnoticed by the command loop.
pub const COMMAND_TIMEOUT_MS: u64 = 100;

/// What the loops of the daemon tell each other. `C` is the configuration
/// that a controller sends.
#[derive(Clone, Debug, PartialEq, Eq)]
pub enum Signal<C> {
    Stop,
    Configuration(C),
}

/// Whether a signal asks the loops to stop. A configuration does not.
pub fn is_stop<C>(signal: &Signal<C>) -> (r: bool)
    ensures
        r == (*signal is Stop),
{
    match signal {
        Signal::Stop => true,
        Signal::Configuration(_) => false,
    }
}

/// Whether what a loop got from its channel within its wait ends it: a stop
/// notification does, a configuration or nothing at all does not.
pub fn stop_received<C>(received: Option<Signal<C>>) -> (r: bool)
    ensures
        r == (received matches Some(signal) && signal is Stop),
{
    match received {
        Some(signal) => is_stop(&signal),
        None => false,
    }
}

/// What was read from the controller.
#[derive(Clone, Debug, PartialEq, Eq)]
pub enum Command<C> {
    /// Nothing arrived within the wait.
    Timeout,
    Downlink(DownlinkRequest),
    GatewayId,
    Configuration(C),
    /// A command that could not be decoded.
    Malformed,
    /// A command of a kind that the daemon does not know.
    Unknown,
}

/// What goes back to the controller.
#[derive(Clone, Debug, PartialEq, Eq)]
pub enum Reply {
    /// A reply without payload.
    Empty,
    /// The gateway's identifier, as the bytes that it was configured with.
    GatewayId(Vec<u8>),
    /// The acknowledgment of a downlink request.
    Ack(DownlinkAck),
}

/// What the command loop is to do with what it read.
#[derive(Clone, Debug, PartialEq, Eq)]
pub enum Dispatch<C> {
    /// Leave the loop; nothing is sent.
    Exit,
    /// Read the next command; nothing is sent.
    Skip,
    /// Handle the request at the current tick, then send `downlink_reply` of
    /// the result.
    Validate(DownlinkRequest),
    /// Send the reply.
    Respond(Reply),
    /// Pass the signal on, then send the reply.
    Forward(Signal<C>, Reply),
}

/// Decides what follows a command. `stopped` says whether a stop
/// notification was there after the read.
///
/// A stop ends the loop, whatever was read. A timeout is passed over. Every
/// other command is answered exactly once: a downlink request after it was
/// handled, a query for the identifier with the identifier, a configuration
/// with an empty reply after it was passed on as a signal, anything
/// malformed or unknown with an empty reply.
pub fn handle_command<C>(stopped: bool, command: Command<C>, gateway_id: &[u8]) -> (r: Dispatch<C>)
    ensures
        stopped ==> r == Dispatch::<C>::Exit,
        !stopped ==> match command {
            Command::Timeout => r == Dispatch::<C>::Skip,
            Command::Downlink(request) => r == Dispatch::<C>::Validate(request),
            Command::GatewayId => r matches Dispatch::Respond(Reply::GatewayId(id)) && id@
                == gateway_id@,
            Command::Configuration(payload) => r == Dispatch::Forward(
                Signal::Configuration(payload),
                Reply::Empty,
            ),
            Command::Malformed => r == Dispatch::<C>::Respond(Reply::Empty),
            Command::Unknown => r == Dispatch::<C>::Respond(Reply::Empty),
        },
{
    if stopped {
        return Dispatch::Exit;
    }
    match command {
        Command::Timeout => Dispatch::Skip,
        Command::Downlink(request) => Dispatch::Validate(request),
        Command::GatewayId => Dispatch::Respond(Reply::GatewayId(copy_bytes(gateway_id))),
        Command::Configuration(payload) => Dispatch::Forward(
            Signal::Configuration(payload),
            Reply::Empty,
        ),
        Command::Malformed => Dispatch::Respond(Reply::Empty),
        Command::Unknown => Dispatch::Respond(Reply::Empty),
    }
}

/// The reply to a downlink request, and the status to count for it: the
/// acknowledgment and the request's status where it was handled, an empty
/// reply and nothing to count where it failed as a whole.
pub fn downlink_reply(result: Result<DownlinkOutcome, ConvertError>) -> (r: (
    Reply,
    Option<StatusCode>,
))
    ensures
        match result {
            Ok(out) => r.0 == Reply::Ack(out.ack) && r.1 == Some(out.status),
            Err(_) => r.0 == Reply::Empty && r.1 == None::<StatusCode>,
        },
{
    match result {
        Ok(out) => (Reply::Ack(out.ack), Some(out.status)),
        Err(_) => (Reply::Empty, None),
    }
}

} // verus!
