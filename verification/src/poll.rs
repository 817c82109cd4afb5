//! Telling clients how a render is coming along.

use crate::service::{RenderService, ServiceView};
use crate::status::{RenderState, RenderStatus, StateView};
use crate::text::{around_number, decimal};
use vstd::prelude::*;

verus! {

/// The text of an event that reports `state`.
pub open spec fn event_text(state: StateView) -> Seq<char> {
    decimal(state.status.id()) + "|"@ + state.progress
}

/// The text of an event that reports `state`.
pub fn sse_state(state: RenderState) -> (text: String)
    ensures
        text@ == event_text(state@),
{
    let mut text = around_number("", state.status.get_id() as u64, "|");
    text.append(state.progress.as_str());
    proof {
        reveal_strlit("");
    }
    assert(text@ =~= event_text(state@));
    text
}

/// The time between two events of a watch, in milliseconds.
pub const POLL_MILLIS: u64 = 500;

/// A client's watch over one render. Once it has reported that the render is complete, it
/// reports nothing else.
pub struct RenderPoll {
    id: u32,
    complete: bool,
}

/// The values in a [`RenderPoll`].
pub struct PollView {
    /// The sequence whose render is watched.
    pub id: u32,
    /// Whether the render was reported to be complete.
    pub complete: bool,
}

impl View for RenderPoll {
    type V = PollView;

    closed spec fn view(&self) -> PollView {
        PollView { id: self.id, complete: self.complete }
    }
}

impl PollView {
    /// The state that is reported next. A render that was never asked for is reported as an
    /// error.
    pub open spec fn report(self, service: ServiceView) -> StateView {
        if self.complete {
            StateView { progress: "1"@, status: RenderStatus::Complete }
        } else if service.states.contains_key(self.id) {
            service.states[self.id]
        } else {
            StateView { progress: "0"@, status: RenderStatus::Error }
        }
    }

    /// The watch after its next report.
    pub open spec fn after(self, service: ServiceView) -> PollView {
        PollView { complete: self.report(service).status == RenderStatus::Complete, ..self }
    }
}

impl RenderPoll {
    /// A watch over the render of sequence `id`.
    pub fn new(id: u32) -> (poll: Self)
        ensures
            poll@ == (PollView { id, complete: false }),
    {
        RenderPoll { id, complete: false }
    }
}

/// The text of the next event of a watch.
pub fn poll_render(poll: &mut RenderPoll, service: &RenderService) -> (text: String)
    ensures
        text@ == event_text(old(poll)@.report(service@)),
        final(poll)@ == old(poll)@.after(service@),
{
    let state = if !poll.complete {
        let state = match service.state(poll.id) {
            Some(state) => state,
            None => RenderState { progress: "0".to_owned(), status: RenderStatus::Error },
        };
        if state.status == RenderStatus::Complete {
            poll.complete = true;
        }
        state
    } else {
        RenderState { progress: "1".to_owned(), status: RenderStatus::Complete }
    };
    sse_state(state)
}

} // verus!
