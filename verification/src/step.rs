//! The course of one operation, as a sequence of steps.
//!
//! This layer never calls the stack itself. An operation yields a `Step` that
//! says what is to be done next: ask the stack for a socket's category, invoke
//! a primitive, or hand the outcome to the caller. Whoever drives the layer
//! performs the step and hands the stack's answer back, until the step is
//! `Done`. Each kind of answer has its own entry point, so an answer cannot be
//! given to a step that did not ask for it.

use vstd::prelude::*;
use crate::convention::FAILURE;
use crate::reply::{Outcome, OutcomeView, Output, OutputView};
use crate::request::{Request, RequestView};

verus! {

/// The category of a connection-oriented socket, as the stack reports it.
pub const SOCK_STREAM: i32 = 1;

/// The category of a datagram socket, as the stack reports it.
pub const SOCK_DGRAM: i32 = 2;

/// The category of a raw socket, as the stack reports it.
pub const SOCK_RAW: i32 = 3;

/// A pending question to the stack: of which category is `sock`?
///
/// The question is the stack's option query for the socket's type. Its
/// answer decides whether the request held back is forwarded at all.
#[derive(Debug, PartialEq, Eq)]
pub struct CategoryQuery {
    /// The handle to ask about.
    pub sock: i32,
    /// The request that waits for the answer.
    pub deferred: Request,
}

/// What a `CategoryQuery` holds.
pub struct CategoryQueryView {
    pub sock: i32,
    pub deferred: RequestView,
}

impl View for CategoryQuery {
    type V = CategoryQueryView;

    open spec fn view(&self) -> CategoryQueryView {
        CategoryQueryView { sock: self.sock, deferred: self.deferred@ }
    }
}

/// What is to be done next in the course of an operation.
#[derive(Debug, PartialEq, Eq)]
pub enum Step {
    /// Ask the stack for the socket's category and give the answer to
    /// `CategoryQuery::answer`.
    Query(CategoryQuery),
    /// Invoke the primitive and give its reply to `Request::complete`.
    Invoke(Request),
    /// The operation is over, and this is its outcome.
    Done(Outcome),
}

/// What a `Step` holds.
pub enum StepView {
    Query(CategoryQueryView),
    Invoke(RequestView),
    Done(OutcomeView),
}

impl View for Step {
    type V = StepView;

    open spec fn view(&self) -> StepView {
        match *self {
            Step::Query(query) => StepView::Query(query@),
            Step::Invoke(request) => StepView::Invoke(request@),
            Step::Done(outcome) => StepView::Done(outcome@),
        }
    }
}

/// The outcome of a call that this layer declines to forward.
pub open spec fn declined() -> OutcomeView {
    OutcomeView { code: FAILURE, output: OutputView::Nothing }
}

impl CategoryQueryView {
    /// The step that follows when the stack answered the query with result
    /// `code` and reported `category`.
    ///
    /// A failed query fails the operation, and so does a stream socket: in
    /// both cases the request held back is dropped. Any other category lets
    /// it through.
    pub open spec fn answered(self, code: i32, category: i32) -> StepView {
        if code != 0 || category == SOCK_STREAM {
            StepView::Done(declined())
        } else {
            StepView::Invoke(self.deferred)
        }
    }
}

impl CategoryQuery {
    /// Takes the stack's answer to the query: `code` is the result of the
    /// query itself, zero on success, and `category` the socket's category,
    /// which counts only where the query succeeded.
    pub fn answer(self, code: i32, category: i32) -> (step: Step)
        ensures
            step@ == self@.answered(code, category),
    {
        if code != 0 || category == SOCK_STREAM {
            Step::Done(Outcome { code: FAILURE, output: Output::Nothing })
        } else {
            Step::Invoke(self.deferred)
        }
    }
}

} // verus!
