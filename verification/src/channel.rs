//! The channel endpoints that a handle holds, and what this crate takes on
//! trust about them. Nothing in this file is proved: each item says what it
//! claims of the code it stands for.

use crate::client::{Command, Request, RequestView};
use futures::{Future, Sink};
use vstd::prelude::*;

verus! {

/// `futures::sync::mpsc::Sender`, the sending end of a bounded channel, as an
/// opaque value.
#[verifier::external_type_specification]
#[verifier::external_body]
#[verifier::reject_recursive_types(T)]
pub struct ExSender<T>(futures::sync::mpsc::Sender<T>);

/// `futures::sync::mpsc::SendError`, the error of a send whose receiver is
/// gone, as an opaque value.
#[verifier::external_type_specification]
#[verifier::external_body]
#[verifier::reject_recursive_types(T)]
pub struct ExSendError<T>(futures::sync::mpsc::SendError<T>);

/// `crossbeam_channel::Receiver`, the receiving end of a channel, as an opaque
/// value.
#[verifier::external_type_specification]
#[verifier::external_body]
#[verifier::reject_recursive_types(T)]
pub struct ExReceiver<T>(crossbeam_channel::Receiver<T>);

/// `Clone::clone` of a `futures::sync::mpsc::Sender`: another sending end of
/// the same channel. Nothing is claimed of the clone. The call panics once the
/// channel has as many senders as its counter can hold, more than half of
/// `usize::MAX` less the buffer, which no process can keep alive at once.
pub assume_specification<T>[ <futures::sync::mpsc::Sender<T> as Clone>::clone ](
    tx: &futures::sync::mpsc::Sender<T>,
) -> futures::sync::mpsc::Sender<T>;

/// The requests that this endpoint has pushed onto its channel's queue, oldest
/// first.
pub uninterp spec fn requests_sent(tx: futures::sync::mpsc::Sender<Request>) -> Seq<RequestView>;

/// True once a send on this endpoint has found the receiving end gone.
pub uninterp spec fn requests_refused(tx: futures::sync::mpsc::Sender<Request>) -> bool;

/// The commands that this endpoint has pushed onto its channel's queue, oldest
/// first.
pub uninterp spec fn commands_sent(tx: futures::sync::mpsc::Sender<Command>) -> Seq<Command>;

/// True once a send on this endpoint has found the receiving end gone.
pub uninterp spec fn commands_refused(tx: futures::sync::mpsc::Sender<Command>) -> bool;

/// `Sink::send` on a `futures::sync::mpsc::Sender<Request>`, driven to its end
/// by `Future::wait`: blocks the calling thread while the channel is full.
///
/// Claimed: the call returns `Ok` only after it has pushed `request` onto the
/// queue, behind all that this endpoint pushed before; it returns `Err` only
/// when the receiving end is closed or dropped, and then has pushed nothing.
/// A channel that was closed stays closed, so after one `Err` every later send
/// on the endpoint is an `Err` too.
#[verifier::external_body]
pub(crate) fn send_request(
    tx: &mut futures::sync::mpsc::Sender<Request>,
    request: Request,
) -> (sent: Result<(), futures::sync::mpsc::SendError<Request>>)
    ensures
        requests_refused(*old(tx)) ==> sent is Err,
        sent is Ok ==> requests_sent(*final(tx)) == requests_sent(*old(tx)).push(request@),
        sent is Err ==> requests_sent(*final(tx)) == requests_sent(*old(tx)),
        requests_refused(*final(tx)) == (sent is Err),
{
    match tx.send(request).wait() {
        Ok(_) => Ok(()),
        Err(e) => Err(e),
    }
}

/// `Sink::send` on a `futures::sync::mpsc::Sender<Command>`, driven to its end
/// by `Future::wait`: blocks the calling thread while the channel is full.
///
/// Claimed: as for `send_request`, of the channel of commands.
#[verifier::external_body]
pub(crate) fn send_command(
    tx: &mut futures::sync::mpsc::Sender<Command>,
    command: Command,
) -> (sent: Result<(), futures::sync::mpsc::SendError<Command>>)
    ensures
        commands_refused(*old(tx)) ==> sent is Err,
        sent is Ok ==> commands_sent(*final(tx)) == commands_sent(*old(tx)).push(command),
        sent is Err ==> commands_sent(*final(tx)) == commands_sent(*old(tx)),
        commands_refused(*final(tx)) == (sent is Err),
{
    match tx.send(command).wait() {
        Ok(_) => Ok(()),
        Err(e) => Err(e),
    }
}

} // verus!
