//! What comes back: the stack's reply to a request, and the outcome that the
//! operation hands to its caller.
//!
//! A reply and an outcome have the same shape and differ in one thing only:
//! the reply holds the stack's integer as returned, the outcome holds it as
//! the operation's convention surfaces it. Whatever the stack wrote travels
//! from the one to the other untouched.

use vstd::prelude::*;
use crate::request::{Message, MessageView, PollFd, Request, RequestView, Resolution};

verus! {

/// What the stack wrote for the caller besides its integer result.
#[derive(Debug, PartialEq, Eq)]
pub enum Output {
    /// The call writes nothing.
    Nothing,
    /// One buffer: an option value, received data, an address record.
    Bytes(Vec<u8>),
    /// Received data with the address record of its sender.
    Datagram { data: Vec<u8>, from: Vec<u8> },
    /// A received scatter-gather message.
    Message(Message),
    /// The descriptor array with the events found.
    Polled(Vec<PollFd>),
    /// A resolution result; its ownership passes to the caller.
    Resolution(Resolution),
}

/// What an `Output` holds.
pub enum OutputView {
    Nothing,
    Bytes(Seq<u8>),
    Datagram { data: Seq<u8>, from: Seq<u8> },
    Message(MessageView),
    Polled(Seq<PollFd>),
    Resolution(Resolution),
}

impl View for Output {
    type V = OutputView;

    open spec fn view(&self) -> OutputView {
        match *self {
            Output::Nothing => OutputView::Nothing,
            Output::Bytes(bytes) => OutputView::Bytes(bytes@),
            Output::Datagram { data, from } => OutputView::Datagram { data: data@, from: from@ },
            Output::Message(message) => OutputView::Message(message@),
            Output::Polled(fds) => OutputView::Polled(fds@),
            Output::Resolution(res) => OutputView::Resolution(res),
        }
    }
}

/// The stack's answer to one request.
#[derive(Debug, PartialEq, Eq)]
pub struct Reply {
    /// The integer the primitive returned.
    pub code: i32,
    /// What it wrote.
    pub output: Output,
}

/// What a `Reply` holds.
pub struct ReplyView {
    pub code: i32,
    pub output: OutputView,
}

impl View for Reply {
    type V = ReplyView;

    open spec fn view(&self) -> ReplyView {
        ReplyView { code: self.code, output: self.output@ }
    }
}

/// What an operation hands to its caller.
#[derive(Debug, PartialEq, Eq)]
pub struct Outcome {
    /// The result, as the operation's convention surfaces it.
    pub code: i32,
    /// What the stack wrote.
    pub output: Output,
}

/// What an `Outcome` holds.
pub struct OutcomeView {
    pub code: i32,
    pub output: OutputView,
}

impl View for Outcome {
    type V = OutcomeView;

    open spec fn view(&self) -> OutcomeView {
        OutcomeView { code: self.code, output: self.output@ }
    }
}

impl RequestView {
    /// The outcome of this call once the stack has answered it with `reply`:
    /// the reply's integer under the call's convention, and the reply's
    /// output as it is.
    pub open spec fn completed(self, reply: ReplyView) -> OutcomeView {
        OutcomeView { code: self.convention().surfaced(reply.code), output: reply.output }
    }
}

impl Request {
    /// Turns the stack's `reply` to this request into the operation's outcome.
    pub fn complete(&self, reply: Reply) -> (outcome: Outcome)
        ensures
            outcome@ == self@.completed(reply@),
    {
        let code: i32 = self.convention().surface(reply.code);
        Outcome { code, output: reply.output }
    }
}

} // verus!
