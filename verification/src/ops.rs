//! The socket operations.
//!
//! Each operation yields the first step of its course. All but three forward
//! exactly one call with the arguments as given, and those three differ in one
//! respect each: socket creation may replace the protocol, addressed send and
//! receive may ask for the socket's category first, and the release of a
//! resolution result makes no call where there is nothing to release.
//!
//! How the stack's integer is surfaced once the call has been made is decided
//! by the request's convention; see `Request::complete`.

use vstd::prelude::*;
use crate::config::{AddressedIo, Config};
use crate::request::{Hints, Message, PollFd, Request, RequestView, Resolution, text_view};
use crate::step::{CategoryQuery, CategoryQueryView, Step, StepView};

verus! {

/// The option name for looping IPv6 multicast back, which the stack's own
/// definitions lack. The stack does not support the feature: what becomes of
/// an attempt to set the option is the stack's to decide, not this layer's.
pub const IPV6_MULTICAST_LOOP: i32 = 19;

/// The first step of an addressed send or receive on `sock`, where `request`
/// is the call that the operation stands for.
///
/// Under the strict policy the request waits for the socket's category; under
/// the permissive one it goes to the stack at once.
pub open spec fn addressed(config: Config, sock: i32, request: RequestView) -> StepView {
    match config.policy() {
        AddressedIo::Strict => StepView::Query(CategoryQueryView { sock, deferred: request }),
        AddressedIo::Permissive => StepView::Invoke(request),
    }
}

fn route_addressed(config: &Config, sock: i32, request: Request) -> (step: Step)
    ensures
        step@ == addressed(*config, sock, request@),
{
    match config.addressed_io() {
        AddressedIo::Strict => Step::Query(CategoryQuery { sock, deferred: request }),
        AddressedIo::Permissive => Step::Invoke(request),
    }
}

/// Creates a socket of the given family and category. The protocol is the
/// caller's, unless the configuration forces one.
pub fn socket(config: &Config, family: i32, socket_type: i32, protocol: i32) -> (step: Step)
    ensures
        step@ == StepView::Invoke(
            RequestView::Socket { family, socket_type, protocol: config.protocol_for(protocol) },
        ),
{
    Step::Invoke(
        Request::Socket { family, socket_type, protocol: config.effective_protocol(protocol) },
    )
}

/// Sets the option `optname` at `level` on `sock` to the bytes of `optval`.
pub fn setsockopt(sock: i32, level: i32, optname: i32, optval: Vec<u8>) -> (step: Step)
    ensures
        step@ == StepView::Invoke(
            RequestView::SetSockOpt { sock, level, optname, optval: optval@ },
        ),
{
    Step::Invoke(Request::SetSockOpt { sock, level, optname, optval })
}

/// Reads the option `optname` at `level` on `sock` into a buffer of `optlen`
/// bytes.
pub fn getsockopt(sock: i32, level: i32, optname: i32, optlen: u32) -> (step: Step)
    ensures
        step@ == StepView::Invoke(RequestView::GetSockOpt { sock, level, optname, optlen }),
{
    Step::Invoke(Request::GetSockOpt { sock, level, optname, optlen })
}

/// Binds `sock` to the address record `name`.
pub fn bind(sock: i32, name: Vec<u8>) -> (step: Step)
    ensures
        step@ == StepView::Invoke(RequestView::Bind { sock, name: name@ }),
{
    Step::Invoke(Request::Bind { sock, name })
}

/// Connects `sock` to the address record `name`.
pub fn connect(sock: i32, name: Vec<u8>) -> (step: Step)
    ensures
        step@ == StepView::Invoke(RequestView::Connect { sock, name: name@ }),
{
    Step::Invoke(Request::Connect { sock, name })
}

/// Makes `sock` listen, with room for `backlog` pending connections.
pub fn listen(sock: i32, backlog: i32) -> (step: Step)
    ensures
        step@ == StepView::Invoke(RequestView::Listen { sock, backlog }),
{
    Step::Invoke(Request::Listen { sock, backlog })
}

/// Accepts a connection on `sock`, with `namelen` bytes of room for the peer's
/// address record.
pub fn accept(sock: i32, namelen: u32) -> (step: Step)
    ensures
        step@ == StepView::Invoke(RequestView::Accept { sock, namelen }),
{
    Step::Invoke(Request::Accept { sock, namelen })
}

/// Reads the local address of `sock` into `namelen` bytes of room.
pub fn getsockname(sock: i32, namelen: u32) -> (step: Step)
    ensures
        step@ == StepView::Invoke(RequestView::GetSockName { sock, namelen }),
{
    Step::Invoke(Request::GetSockName { sock, namelen })
}

/// Reads the peer's address of `sock` into `namelen` bytes of room.
pub fn getpeername(sock: i32, namelen: u32) -> (step: Step)
    ensures
        step@ == StepView::Invoke(RequestView::GetPeerName { sock, namelen }),
{
    Step::Invoke(Request::GetPeerName { sock, namelen })
}

/// Sends the bytes of `mem` on the connected socket `sock`.
pub fn send(sock: i32, mem: Vec<u8>, flags: i32) -> (step: Step)
    ensures
        step@ == StepView::Invoke(RequestView::Send { sock, mem: mem@, flags }),
{
    Step::Invoke(Request::Send { sock, mem, flags })
}

/// Sends the bytes of `mem` from `sock` to the address record `to`.
pub fn sendto(config: &Config, sock: i32, mem: Vec<u8>, flags: i32, to: Vec<u8>) -> (step: Step)
    ensures
        step@ == addressed(*config, sock, RequestView::SendTo { sock, mem: mem@, flags, to: to@ }),
{
    route_addressed(config, sock, Request::SendTo { sock, mem, flags, to })
}

/// Sends the scatter-gather `message` on `sock`.
pub fn sendmsg(sock: i32, message: Message, flags: i32) -> (step: Step)
    ensures
        step@ == StepView::Invoke(RequestView::SendMsg { sock, message: message@, flags }),
{
    Step::Invoke(Request::SendMsg { sock, message, flags })
}

/// Receives up to `len` bytes on the connected socket `sock`.
pub fn recv(sock: i32, len: i32, flags: i32) -> (step: Step)
    ensures
        step@ == StepView::Invoke(RequestView::Recv { sock, len, flags }),
{
    Step::Invoke(Request::Recv { sock, len, flags })
}

/// Receives up to `len` bytes on `sock`, with `fromlen` bytes of room for the
/// sender's address record.
pub fn recvfrom(config: &Config, sock: i32, len: i32, flags: i32, fromlen: u32) -> (step: Step)
    ensures
        step@ == addressed(*config, sock, RequestView::RecvFrom { sock, len, flags, fromlen }),
{
    route_addressed(config, sock, Request::RecvFrom { sock, len, flags, fromlen })
}

/// Receives a scatter-gather message on `sock` into the buffers of `message`.
pub fn recvmsg(sock: i32, message: Message, flags: i32) -> (step: Step)
    ensures
        step@ == StepView::Invoke(RequestView::RecvMsg { sock, message: message@, flags }),
{
    Step::Invoke(Request::RecvMsg { sock, message, flags })
}

/// Resolves a node and a service name, either of which may be absent, under
/// the optional `hints`. The result belongs to the caller, who releases it
/// with `freeaddrinfo`.
pub fn getaddrinfo(
    nodename: Option<Vec<u8>>,
    servname: Option<Vec<u8>>,
    hints: Option<Hints>,
) -> (step: Step)
    ensures
        step@ == StepView::Invoke(
            RequestView::GetAddrInfo {
                nodename: text_view(nodename),
                servname: text_view(servname),
                hints,
            },
        ),
{
    Step::Invoke(Request::GetAddrInfo { nodename, servname, hints })
}

/// Releases a resolution result.
///
/// Yields the call that releases `ai`, or no call where there is no result.
/// What the stack does when it is asked to release nothing is not known, so
/// it is never asked. The call has no result; once it is made, the operation
/// is over.
pub fn freeaddrinfo(ai: Option<Resolution>) -> (call: Option<Request>)
    ensures
        match ai {
            Some(res) => call matches Some(request) && request@ == (RequestView::FreeAddrInfo {
                ai: res,
            }),
            None => call is None,
        },
{
    match ai {
        Some(res) => Some(Request::FreeAddrInfo { ai: res }),
        None => None,
    }
}

/// Shuts down one or both directions of `sock`. The handle itself stays with
/// its owner.
pub fn shutdown(sock: i32, how: i32) -> (step: Step)
    ensures
        step@ == StepView::Invoke(RequestView::Shutdown { sock, how }),
{
    Step::Invoke(Request::Shutdown { sock, how })
}

/// Waits until one of the descriptors in `fds` is ready or `timeout` has
/// passed. The meaning of `timeout`, its sentinels included, is the stack's.
pub fn poll(fds: Vec<PollFd>, timeout: i32) -> (step: Step)
    ensures
        step@ == StepView::Invoke(RequestView::Poll { fds: fds@, timeout }),
{
    Step::Invoke(Request::Poll { fds, timeout })
}

/// Descriptor control in the flag style. The command is not interpreted.
pub fn fcntl(s: i32, cmd: i32, val: i32) -> (step: Step)
    ensures
        step@ == StepView::Invoke(RequestView::Fcntl { s, cmd, val }),
{
    Step::Invoke(Request::Fcntl { s, cmd, val })
}

/// Descriptor control in the device style. Neither the command nor the
/// argument word is interpreted.
pub fn ioctl(s: i32, cmd: i64, argp: usize) -> (step: Step)
    ensures
        step@ == StepView::Invoke(RequestView::Ioctl { s, cmd, argp }),
{
    Step::Invoke(Request::Ioctl { s, cmd, argp })
}

} // verus!
