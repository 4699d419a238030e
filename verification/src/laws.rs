//! What holds across several operations on one handle. Each law is proved
//! from the step relations that the operations' contracts are stated with.

use crate::client::{Command, MqttClient, RequestView};
use crate::error::ClientError;
use vstd::prelude::*;

verus! {

/// Program order is kept on the request channel. Two attempts to send, one
/// after the other on the same handle, leave the requests that the channel
/// took in the order of the calls, behind all that the handle sent before:
/// both, the first alone, or neither. The second is never taken without the
/// first.
pub proof fn lemma_requests_in_program_order(
    before: MqttClient,
    between: MqttClient,
    after: MqttClient,
    first: RequestView,
    second: RequestView,
    r1: Result<(), ClientError>,
    r2: Result<(), ClientError>,
)
    requires
        MqttClient::request_step(before, between, first, r1),
        MqttClient::request_step(between, after, second, r2),
    ensures
        r1 is Ok && r2 is Ok ==> after.requests() == before.requests() + seq![first, second],
        r1 is Ok && r2 is Err ==> after.requests() == before.requests() + seq![first],
        r1 is Err ==> r2 is Err && after.requests() == before.requests(),
        after.max_packet_size() == before.max_packet_size(),
        after.commands() == before.commands(),
{
    assert(before.requests().push(first).push(second) =~= before.requests() + seq![
        first,
        second,
    ]);
    assert(before.requests().push(first) =~= before.requests() + seq![first]);
}

/// A pause followed by a resume puts exactly those two commands on the command
/// channel, in that order, whatever the request channel holds; the request
/// channel is not touched. If the command channel is found closed at the
/// pause, the resume fails too and no command is sent.
pub proof fn lemma_pause_then_resume(
    before: MqttClient,
    between: MqttClient,
    after: MqttClient,
    r1: Result<(), ClientError>,
    r2: Result<(), ClientError>,
)
    requires
        MqttClient::command_step(before, between, Command::Pause, r1),
        MqttClient::command_step(between, after, Command::Resume, r2),
    ensures
        r1 is Ok && r2 is Ok ==> after.commands() == before.commands() + seq![
            Command::Pause,
            Command::Resume,
        ],
        r1 is Ok && r2 is Err ==> after.commands() == before.commands() + seq![Command::Pause],
        r1 is Err ==> r2 is Err && after.commands() == before.commands(),
        after.requests() == before.requests(),
        after.requests_refused() == before.requests_refused(),
        after.max_packet_size() == before.max_packet_size(),
{
    assert(before.commands().push(Command::Pause).push(Command::Resume) =~= before.commands()
        + seq![Command::Pause, Command::Resume]);
    assert(before.commands().push(Command::Pause) =~= before.commands() + seq![Command::Pause]);
}

/// The two channels are independent. A request step followed by a command
/// step on one handle leaves each channel as its own call alone left it: what
/// the request channel took does not depend on the command, and whether the
/// command is taken does not depend on the request or on its outcome.
pub proof fn lemma_channels_are_independent(
    before: MqttClient,
    between: MqttClient,
    after: MqttClient,
    request: RequestView,
    command: Command,
    r1: Result<(), ClientError>,
    r2: Result<(), ClientError>,
)
    requires
        MqttClient::request_step(before, between, request, r1),
        MqttClient::command_step(between, after, command, r2),
    ensures
        after.requests() == (if r1 is Ok {
            before.requests().push(request)
        } else {
            before.requests()
        }),
        after.commands() == (if r2 is Ok {
            before.commands().push(command)
        } else {
            before.commands()
        }),
        after.requests_refused() == (r1 is Err),
        after.commands_refused() == (r2 is Err),
        before.commands_refused() ==> r2 is Err,
        after.max_packet_size() == before.max_packet_size(),
{
}

/// Once a handle has found the request channel closed, every later attempt to
/// send a request on it reports the same error and sends nothing.
pub proof fn lemma_request_channel_stays_closed(
    before: MqttClient,
    after: MqttClient,
    request: RequestView,
    r: Result<(), ClientError>,
)
    requires
        before.requests_refused(),
        MqttClient::request_step(before, after, request, r),
    ensures
        r == Err::<(), _>(ClientError::MpscSend),
        after.requests() == before.requests(),
        after.requests_refused(),
{
}

/// Once a handle has found the command channel closed, every later attempt to
/// send a command on it reports the same error and sends nothing.
pub proof fn lemma_command_channel_stays_closed(
    before: MqttClient,
    after: MqttClient,
    command: Command,
    r: Result<(), ClientError>,
)
    requires
        before.commands_refused(),
        MqttClient::command_step(before, after, command, r),
    ensures
        r == Err::<(), _>(ClientError::MpscSend),
        after.commands() == before.commands(),
        after.commands_refused(),
{
}

} // verus!
