//! What holds of the layer as a whole, stated over the course of an operation:
//! the step it starts with, the step that follows an answer of the stack, and
//! the outcome of a completed call.

use vstd::prelude::*;
use crate::config::{AddressedIo, Config};
use crate::convention::{FAILURE, SUCCESS};
use crate::ops::addressed;
use crate::reply::{OutcomeView, OutputView, ReplyView};
use crate::request::RequestView;
use crate::step::{declined, CategoryQueryView, StepView, SOCK_STREAM};

verus! {

/// Option setting and reading, bind, connect and listen report exactly
/// `SUCCESS` or `FAILURE`, whatever the stack returned: `SUCCESS` where it
/// returned zero, `FAILURE` for every other value. What the stack wrote is
/// handed on in either case.
pub proof fn lemma_binary_outcome(request: RequestView, reply: ReplyView)
    requires
        request is SetSockOpt || request is GetSockOpt || request is Bind || request is Connect
            || request is Listen,
    ensures
        request.completed(reply).code == SUCCESS || request.completed(reply).code == FAILURE,
        request.completed(reply).code == SUCCESS <==> reply.code == 0,
        request.completed(reply).output == reply.output,
{
}

/// Socket creation and accept hand the stack's integer to the caller as it
/// is: a handle stays the handle it was, zero included, and a negative
/// failure stays the failure it was.
pub proof fn lemma_handle_kept(request: RequestView, reply: ReplyView)
    requires
        request is Socket || request is Accept,
    ensures
        request.completed(reply) == (OutcomeView { code: reply.code, output: reply.output }),
{
}

/// Every call other than option setting and reading, bind, connect and listen
/// passes the stack's reply through: the outcome is the reply, integer and
/// output alike.
pub proof fn lemma_raw_passthrough(request: RequestView, reply: ReplyView)
    requires
        !(request is SetSockOpt || request is GetSockOpt || request is Bind || request is Connect
            || request is Listen),
    ensures
        request.completed(reply) == (OutcomeView { code: reply.code, output: reply.output }),
{
}

/// An option value makes the round trip through the layer unchanged.
///
/// Setting an option hands the stack exactly the handle, level, name and bytes
/// given, and reading it asks for exactly that handle, level and name. Where
/// the stack accepts the value (`stored`) and hands the same bytes back when
/// asked (`fetched`), both operations report `SUCCESS` and the bytes read are
/// the bytes set.
pub proof fn lemma_option_round_trip(
    sock: i32,
    level: i32,
    optname: i32,
    value: Seq<u8>,
    optlen: u32,
    stored: ReplyView,
    fetched: ReplyView,
)
    requires
        stored.code == 0,
        fetched == (ReplyView { code: 0, output: OutputView::Bytes(value) }),
    ensures
        (RequestView::SetSockOpt { sock, level, optname, optval: value }).completed(stored).code
            == SUCCESS,
        (RequestView::GetSockOpt { sock, level, optname, optlen }).completed(fetched) == (
        OutcomeView { code: SUCCESS, output: OutputView::Bytes(value) }),
{
}

/// Under the strict policy an addressed send or receive starts by asking for
/// the category of its socket, and holds its own call back meanwhile.
pub proof fn lemma_strict_asks_first(config: Config, sock: i32, request: RequestView)
    requires
        config.policy() == AddressedIo::Strict,
    ensures
        addressed(config, sock, request) == StepView::Query(
            CategoryQueryView { sock, deferred: request },
        ),
{
}

/// Under the permissive policy an addressed send or receive goes to the stack
/// at once, whatever the socket is.
pub proof fn lemma_permissive_forwards(config: Config, sock: i32, request: RequestView)
    requires
        config.policy() == AddressedIo::Permissive,
    ensures
        addressed(config, sock, request) == StepView::Invoke(request),
{
}

/// A stream socket, or a category query that failed, ends an addressed send
/// or receive on the spot: the outcome is `FAILURE` with nothing written, and
/// no step invokes the call that was held back.
pub proof fn lemma_strict_declines(query: CategoryQueryView, code: i32, category: i32)
    requires
        code != 0 || category == SOCK_STREAM,
    ensures
        query.answered(code, category) == StepView::Done(declined()),
        declined() == (OutcomeView { code: FAILURE, output: OutputView::Nothing }),
{
}

/// On a socket of any category but stream, the call that was held back goes
/// to the stack as it was made, and the stack's reply to it is the outcome of
/// the operation, integer and output unchanged.
pub proof fn lemma_strict_forwards(query: CategoryQueryView, category: i32, reply: ReplyView)
    requires
        category != SOCK_STREAM,
        query.deferred is SendTo || query.deferred is RecvFrom,
    ensures
        query.answered(0, category) == StepView::Invoke(query.deferred),
        query.deferred.completed(reply) == (OutcomeView { code: reply.code, output: reply.output }),
{
}

} // verus!
