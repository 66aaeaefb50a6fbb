//! The calls this layer makes on the stack, as plain values.
//!
//! A `Request` names one primitive of the stack and carries its arguments.
//! Untyped memory travels as bytes with their length: option values, address
//! records and message buffers are never looked into here. Where the stack
//! fills a buffer of the caller's, the request carries the room on offer and
//! the bytes come back in the reply.

use vstd::prelude::*;
use crate::convention::Convention;

verus! {

/// One entry of the descriptor array handed to `poll`.
#[derive(Clone, Copy, Debug, PartialEq, Eq, Structural)]
pub struct PollFd {
    /// The handle to watch.
    pub fd: i32,
    /// The events asked for.
    pub events: i16,
    /// The events found; written by the stack.
    pub revents: i16,
}

/// The selection criteria handed to address resolution.
#[derive(Clone, Copy, Debug, PartialEq, Eq, Structural)]
pub struct Hints {
    pub flags: i32,
    pub family: i32,
    pub socktype: i32,
    pub protocol: i32,
}

/// A resolution result, owned by whoever holds this value.
///
/// The stack allocates the result and this layer keeps no record of it. The
/// holder releases it by handing the value to `freeaddrinfo`, which takes it
/// by value: a result cannot be released twice through the same value.
#[derive(Debug, PartialEq, Eq)]
pub struct Resolution {
    /// The stack's own name for the result.
    pub token: usize,
}

/// A scatter-gather message with its address.
#[derive(Debug, PartialEq, Eq)]
pub struct Message {
    /// The address record.
    pub name: Vec<u8>,
    /// The buffers, in order.
    pub iov: Vec<Vec<u8>>,
    /// The ancillary data.
    pub control: Vec<u8>,
    /// The flags on the message.
    pub flags: i32,
}

/// What a `Message` holds.
pub struct MessageView {
    pub name: Seq<u8>,
    pub iov: Seq<Seq<u8>>,
    pub control: Seq<u8>,
    pub flags: i32,
}

impl View for Message {
    type V = MessageView;

    open spec fn view(&self) -> MessageView {
        MessageView {
            name: self.name@,
            iov: Seq::new(self.iov@.len(), |i: int| self.iov@[i]@),
            control: self.control@,
            flags: self.flags,
        }
    }
}

/// The bytes of a text argument that may be absent.
pub open spec fn text_view(text: Option<Vec<u8>>) -> Option<Seq<u8>> {
    match text {
        Some(bytes) => Some(bytes@),
        None => None,
    }
}

/// One call on the stack.
#[allow(inconsistent_fields)]
#[derive(Debug, PartialEq, Eq)]
pub enum Request {
    Socket { family: i32, socket_type: i32, protocol: i32 },
    SetSockOpt { sock: i32, level: i32, optname: i32, optval: Vec<u8> },
    GetSockOpt { sock: i32, level: i32, optname: i32, optlen: u32 },
    Bind { sock: i32, name: Vec<u8> },
    Connect { sock: i32, name: Vec<u8> },
    Listen { sock: i32, backlog: i32 },
    Accept { sock: i32, namelen: u32 },
    GetSockName { sock: i32, namelen: u32 },
    GetPeerName { sock: i32, namelen: u32 },
    Send { sock: i32, mem: Vec<u8>, flags: i32 },
    SendTo { sock: i32, mem: Vec<u8>, flags: i32, to: Vec<u8> },
    SendMsg { sock: i32, message: Message, flags: i32 },
    Recv { sock: i32, len: i32, flags: i32 },
    RecvFrom { sock: i32, len: i32, flags: i32, fromlen: u32 },
    RecvMsg { sock: i32, message: Message, flags: i32 },
    GetAddrInfo { nodename: Option<Vec<u8>>, servname: Option<Vec<u8>>, hints: Option<Hints> },
    FreeAddrInfo { ai: Resolution },
    Shutdown { sock: i32, how: i32 },
    Poll { fds: Vec<PollFd>, timeout: i32 },
    Fcntl { s: i32, cmd: i32, val: i32 },
    Ioctl { s: i32, cmd: i64, argp: usize },
}

/// What a `Request` holds.
#[allow(inconsistent_fields)]
pub enum RequestView {
    Socket { family: i32, socket_type: i32, protocol: i32 },
    SetSockOpt { sock: i32, level: i32, optname: i32, optval: Seq<u8> },
    GetSockOpt { sock: i32, level: i32, optname: i32, optlen: u32 },
    Bind { sock: i32, name: Seq<u8> },
    Connect { sock: i32, name: Seq<u8> },
    Listen { sock: i32, backlog: i32 },
    Accept { sock: i32, namelen: u32 },
    GetSockName { sock: i32, namelen: u32 },
    GetPeerName { sock: i32, namelen: u32 },
    Send { sock: i32, mem: Seq<u8>, flags: i32 },
    SendTo { sock: i32, mem: Seq<u8>, flags: i32, to: Seq<u8> },
    SendMsg { sock: i32, message: MessageView, flags: i32 },
    Recv { sock: i32, len: i32, flags: i32 },
    RecvFrom { sock: i32, len: i32, flags: i32, fromlen: u32 },
    RecvMsg { sock: i32, message: MessageView, flags: i32 },
    GetAddrInfo { nodename: Option<Seq<u8>>, servname: Option<Seq<u8>>, hints: Option<Hints> },
    FreeAddrInfo { ai: Resolution },
    Shutdown { sock: i32, how: i32 },
    Poll { fds: Seq<PollFd>, timeout: i32 },
    Fcntl { s: i32, cmd: i32, val: i32 },
    Ioctl { s: i32, cmd: i64, argp: usize },
}

impl View for Request {
    type V = RequestView;

    open spec fn view(&self) -> RequestView {
        match *self {
            Request::Socket { family, socket_type, protocol } => RequestView::Socket {
                family,
                socket_type,
                protocol,
            },
            Request::SetSockOpt { sock, level, optname, optval } => RequestView::SetSockOpt {
                sock,
                level,
                optname,
                optval: optval@,
            },
            Request::GetSockOpt { sock, level, optname, optlen } => RequestView::GetSockOpt {
                sock,
                level,
                optname,
                optlen,
            },
            Request::Bind { sock, name } => RequestView::Bind { sock, name: name@ },
            Request::Connect { sock, name } => RequestView::Connect { sock, name: name@ },
            Request::Listen { sock, backlog } => RequestView::Listen { sock, backlog },
            Request::Accept { sock, namelen } => RequestView::Accept { sock, namelen },
            Request::GetSockName { sock, namelen } => RequestView::GetSockName { sock, namelen },
            Request::GetPeerName { sock, namelen } => RequestView::GetPeerName { sock, namelen },
            Request::Send { sock, mem, flags } => RequestView::Send { sock, mem: mem@, flags },
            Request::SendTo { sock, mem, flags, to } => RequestView::SendTo {
                sock,
                mem: mem@,
                flags,
                to: to@,
            },
            Request::SendMsg { sock, message, flags } => RequestView::SendMsg {
                sock,
                message: message@,
                flags,
            },
            Request::Recv { sock, len, flags } => RequestView::Recv { sock, len, flags },
            Request::RecvFrom { sock, len, flags, fromlen } => RequestView::RecvFrom {
                sock,
                len,
                flags,
                fromlen,
            },
            Request::RecvMsg { sock, message, flags } => RequestView::RecvMsg {
                sock,
                message: message@,
                flags,
            },
            Request::GetAddrInfo { nodename, servname, hints } => RequestView::GetAddrInfo {
                nodename: text_view(nodename),
                servname: text_view(servname),
                hints,
            },
            Request::FreeAddrInfo { ai } => RequestView::FreeAddrInfo { ai },
            Request::Shutdown { sock, how } => RequestView::Shutdown { sock, how },
            Request::Poll { fds, timeout } => RequestView::Poll { fds: fds@, timeout },
            Request::Fcntl { s, cmd, val } => RequestView::Fcntl { s, cmd, val },
            Request::Ioctl { s, cmd, argp } => RequestView::Ioctl { s, cmd, argp },
        }
    }
}

impl RequestView {
    /// The convention under which the result of this call is surfaced.
    ///
    /// Option setting and reading, bind, connect and listen report a binary
    /// outcome. Socket creation and accept hand out a handle or a negative
    /// failure. Every other call passes the stack's integer through.
    pub open spec fn convention(self) -> Convention {
        match self {
            RequestView::SetSockOpt { .. }
            | RequestView::GetSockOpt { .. }
            | RequestView::Bind { .. }
            | RequestView::Connect { .. }
            | RequestView::Listen { .. } => Convention::BinaryOutcome,
            RequestView::Socket { .. } | RequestView::Accept { .. } => Convention::HandleOrError,
            _ => Convention::RawPassthrough,
        }
    }
}

impl Request {
    /// The convention under which the result of this call is surfaced.
    pub fn convention(&self) -> (tag: Convention)
        ensures
            tag == self@.convention(),
    {
        match self {
            Request::SetSockOpt { .. } => Convention::BinaryOutcome,
            Request::GetSockOpt { .. } => Convention::BinaryOutcome,
            Request::Bind { .. } => Convention::BinaryOutcome,
            Request::Connect { .. } => Convention::BinaryOutcome,
            Request::Listen { .. } => Convention::BinaryOutcome,
            Request::Socket { .. } => Convention::HandleOrError,
            Request::Accept { .. } => Convention::HandleOrError,
            _ => Convention::RawPassthrough,
        }
    }
}

} // verus!
