//! Answering a request to render a sequence.

use crate::args::{Args, ArgsView};
use crate::render::{JobView, Phase, RenderJob};
use crate::sequence::{bytes_contents, load_script};
use crate::service::{RenderService, ServiceView};
use crate::status::{RenderStatus, StateView};
use bytes::Bytes;
use vstd::prelude::*;

verus! {

/// The HTTP status of the answer that the render is there.
pub const FOUND: u16 = 302;

/// The HTTP status of the answer that there is no such sequence.
pub const NOT_FOUND: u16 = 404;

/// The HTTP status of the answer that the render is on its way.
pub const OK: u16 = 200;

/// What has become known about a request.
pub enum StartEvent {
    /// It came in. `exists` tells whether the render is there in every format.
    Requested { exists: bool },
    /// The notes of the sequence were fetched, or could not be.
    Fetched(Option<Bytes>),
}

/// What a request needs next.
pub enum StartAction {
    /// Answer with this HTTP status.
    Reply(u16),
    /// Fetch the notes of the sequence from the server at `origin`.
    Fetch { origin: String },
    /// Set this render going.
    Launch(RenderJob),
}

/// The values in a [`StartAction`].
pub enum StartActionView {
    Reply(u16),
    Fetch { origin: Seq<char> },
    Launch(JobView),
}

impl View for StartAction {
    type V = StartActionView;

    open spec fn view(&self) -> StartActionView {
        match *self {
            StartAction::Reply(status) => StartActionView::Reply(status),
            StartAction::Fetch { origin } => StartActionView::Fetch { origin: origin@ },
            StartAction::Launch(job) => StartActionView::Launch(job@),
        }
    }
}

impl StartActionView {
    /// The HTTP status that the request is answered with, once it needs nothing else.
    pub open spec fn answer(self) -> Option<u16> {
        match self {
            StartActionView::Reply(status) => Some(status),
            StartActionView::Fetch { .. } => None,
            StartActionView::Launch(_) => Some(OK),
        }
    }
}

impl StartAction {
    /// The HTTP status that the request is answered with, once it needs nothing else: a render
    /// that is set going is on its way.
    pub fn answer(&self) -> (status: Option<u16>)
        ensures
            status == self@.answer(),
    {
        match self {
            StartAction::Reply(status) => Some(*status),
            StartAction::Fetch { .. } => None,
            StartAction::Launch(_) => Some(OK),
        }
    }
}

/// Whether `event` makes the service take up a render of sequence `id`: its notes are there, and
/// it was not asked for before.
pub open spec fn launches(service: ServiceView, id: u32, event: StartEvent) -> bool {
    event matches StartEvent::Fetched(Some(_)) && !service.states.contains_key(id)
}

/// What a request to render sequence `id` needs after `event`.
pub open spec fn start_action(
    service: ServiceView,
    args: ArgsView,
    id: u32,
    event: StartEvent,
) -> StartActionView {
    match event {
        StartEvent::Requested { exists: true } => StartActionView::Reply(FOUND),
        StartEvent::Requested { exists: false } => StartActionView::Fetch {
            origin: args.sequence_origin,
        },
        StartEvent::Fetched(None) => StartActionView::Reply(NOT_FOUND),
        StartEvent::Fetched(Some(data)) => if launches(service, id, event) {
            StartActionView::Launch(
                JobView {
                    id,
                    load: load_script(bytes_contents(data)),
                    args,
                    phase: Phase::Queued,
                    profile_id: Seq::empty(),
                },
            )
        } else {
            StartActionView::Reply(OK)
        },
    }
}

/// The records of the service after `event`: a render that is taken up is queued.
pub open spec fn service_after_start(service: ServiceView, id: u32, event: StartEvent) -> ServiceView {
    if launches(service, id, event) {
        service.with_state(id, StateView { progress: "0"@, status: RenderStatus::Queued })
    } else {
        service
    }
}

/// Takes a request to render sequence `id` one step further.
pub fn start_render(
    service: &mut RenderService,
    args: &Args,
    id: u32,
    event: StartEvent,
) -> (action: StartAction)
    requires
        old(service)@.inv(),
    ensures
        action@ == start_action(old(service)@, args@, id, event),
        final(service)@ == service_after_start(old(service)@, id, event),
        final(service)@.inv(),
{
    match event {
        StartEvent::Requested { exists } => if exists {
            StartAction::Reply(FOUND)
        } else {
            StartAction::Fetch { origin: args.sequence_origin.clone() }
        },
        StartEvent::Fetched(None) => StartAction::Reply(NOT_FOUND),
        StartEvent::Fetched(Some(data)) => if service.contains(id) {
            StartAction::Reply(OK)
        } else {
            service.enqueue(id);
            StartAction::Launch(RenderJob::new(id, data, args.clone()))
        },
    }
}

} // verus!
