//! What the service remembers: the state of every render, and which of them hold a slot.

use crate::args::{Args, ArgsView};
use crate::status::{RenderState, RenderStatus, StateView};
use crossbeam_queue::SegQueue;
use std::collections::HashMap;
use vstd::prelude::*;

verus! {

broadcast use vstd::std_specs::hash::group_hash_axioms;

/// A first-in first-out queue without a bound, from the `crossbeam-queue` crate.
#[verifier::external_type_specification]
#[verifier::external_body]
#[verifier::reject_recursive_types(T)]
pub struct ExSegQueue<T>(SegQueue<T>);

/// The items that a [`SegQueue`] holds, from the next to leave to the last that came.
pub uninterp spec fn queue_items(queue: SegQueue<()>) -> Seq<()>;

/// Calls `SegQueue::new`: a queue that holds nothing.
#[verifier::external_body]
fn queue_new() -> (queue: SegQueue<()>)
    ensures
        queue_items(queue) == Seq::<()>::empty(),
{
    SegQueue::new()
}

/// Calls `SegQueue::len` on a queue that nobody else can change meanwhile: the number of its
/// items. The queue stays as it is.
#[verifier::external_body]
fn queue_len(queue: &SegQueue<()>) -> (len: usize)
    ensures
        len == queue_items(*queue).len(),
{
    queue.len()
}

/// Calls `SegQueue::push` with exclusive access: one item joins at the end.
#[verifier::external_body]
fn queue_push(queue: &mut SegQueue<()>)
    requires
        queue_items(*old(queue)).len() < usize::MAX,
    ensures
        queue_items(*final(queue)) == queue_items(*old(queue)).push(()),
{
    queue.push(())
}

/// Calls `SegQueue::pop` with exclusive access: the first item leaves and is returned, unless
/// there is none; then the queue stays empty.
#[verifier::external_body]
fn queue_pop(queue: &mut SegQueue<()>) -> (item: Option<()>)
    ensures
        queue_items(*old(queue)).len() == 0 ==> item is None && queue_items(*final(queue))
            == queue_items(*old(queue)),
        queue_items(*old(queue)).len() > 0 ==> item == Some(queue_items(*old(queue)).first())
            && queue_items(*final(queue)) == queue_items(*old(queue)).drop_first(),
{
    queue.pop()
}

/// What the service remembers.
///
/// A render that has been asked for has a state from then on. A render that is being worked on
/// also holds one of the slots; there are as many slots as renders may run in parallel.
pub struct RenderService {
    states: HashMap<u32, RenderState>,
    /// One item for each slot that is taken.
    running: SegQueue<()>,
    limit: u8,
}

/// The values in a [`RenderService`].
#[verifier::ext_equal]
pub struct ServiceView {
    /// The state of each render that has been asked for.
    pub states: Map<u32, StateView>,
    /// The number of slots taken.
    pub running: nat,
    /// The number of slots.
    pub limit: nat,
}

impl ServiceView {
    /// A service with the settings `args` that was not yet asked for any render.
    pub open spec fn initial(args: ArgsView) -> ServiceView {
        ServiceView { states: Map::empty(), running: 0, limit: args.renders }
    }

    /// No more slots are taken than there are.
    pub open spec fn inv(self) -> bool {
        self.running <= self.limit
    }

    /// Whether a slot is free.
    pub open spec fn has_room(self) -> bool {
        self.running < self.limit
    }

    /// The service with `state` as the state of render `id`.
    pub open spec fn with_state(self, id: u32, state: StateView) -> ServiceView {
        ServiceView { states: self.states.insert(id, state), ..self }
    }
}

impl View for RenderService {
    type V = ServiceView;

    closed spec fn view(&self) -> ServiceView {
        ServiceView {
            states: self.states@.map_values(|state: RenderState| state@),
            running: queue_items(self.running).len(),
            limit: self.limit as nat,
        }
    }
}

impl RenderService {
    /// A service with the settings `args` that was not yet asked for any render. It has a slot
    /// for each render that may run in parallel.
    pub fn new(args: &Args) -> (service: Self)
        ensures
            service@ == ServiceView::initial(args@),
            service@ == (ServiceView { states: Map::empty(), running: 0, limit: args@.renders }),
            service@.inv(),
    {
        let service = RenderService {
            states: HashMap::new(),
            running: queue_new(),
            limit: args.renders,
        };
        assert(service@.states =~= Map::empty());
        service
    }

    /// Whether render `id` has been asked for.
    pub fn contains(&self, id: u32) -> (found: bool)
        ensures
            found == self@.states.contains_key(id),
    {
        self.states.contains_key(&id)
    }

    /// The state of render `id`, if it has been asked for.
    pub fn state(&self, id: u32) -> (state: Option<RenderState>)
        ensures
            match state {
                Some(state) => self@.states.contains_key(id) && state@ == self@.states[id],
                None => !self@.states.contains_key(id),
            },
    {
        match self.states.get(&id) {
            Some(state) => Some(
                RenderState { progress: state.progress.clone(), status: state.status },
            ),
            None => None,
        }
    }

    /// Records that render `id` has been asked for.
    pub(crate) fn enqueue(&mut self, id: u32)
        requires
            !old(self)@.states.contains_key(id),
        ensures
            final(self)@ == old(self)@.with_state(
                id,
                StateView { progress: "0"@, status: RenderStatus::Queued },
            ),
    {
        self.states.insert(
            id,
            RenderState { progress: "0".to_owned(), status: RenderStatus::Queued },
        );
        assert(self@.states =~= old(self)@.states.insert(
            id,
            StateView { progress: "0"@, status: RenderStatus::Queued },
        ));
    }

    /// Records the status of render `id`.
    pub(crate) fn set_status(&mut self, id: u32, status: RenderStatus)
        requires
            old(self)@.states.contains_key(id),
        ensures
            final(self)@ == old(self)@.with_state(
                id,
                StateView { status, ..old(self)@.states[id] },
            ),
    {
        if let Some(mut state) = self.states.remove(&id) {
            state.set_status(status);
            self.states.insert(id, state);
        }
        assert(self@.states =~= old(self)@.states.insert(
            id,
            StateView { status, ..old(self)@.states[id] },
        ));
    }

    /// Records how far render `id` has been played.
    pub(crate) fn set_progress(&mut self, id: u32, progress: String)
        requires
            old(self)@.states.contains_key(id),
        ensures
            final(self)@ == old(self)@.with_state(
                id,
                StateView { progress: progress@, ..old(self)@.states[id] },
            ),
    {
        let ghost text = progress@;
        if let Some(mut state) = self.states.remove(&id) {
            state.set_progress(progress);
            self.states.insert(id, state);
        }
        assert(self@.states =~= old(self)@.states.insert(
            id,
            StateView { progress: text, ..old(self)@.states[id] },
        ));
    }

    /// Whether a slot is free.
    pub(crate) fn has_room(&self) -> (room: bool)
        ensures
            room == self@.has_room(),
    {
        queue_len(&self.running) < self.limit as usize
    }

    /// Takes a free slot.
    pub(crate) fn acquire(&mut self)
        requires
            old(self)@.has_room(),
        ensures
            final(self)@ == (ServiceView { running: old(self)@.running + 1, ..old(self)@ }),
    {
        queue_push(&mut self.running);
    }

    /// Gives back a slot, if any is taken.
    pub(crate) fn release(&mut self)
        ensures
            final(self)@ == (ServiceView {
                running: if old(self)@.running > 0 {
                    (old(self)@.running - 1) as nat
                } else {
                    0
                },
                ..old(self)@
            }),
    {
        queue_pop(&mut self.running);
    }
}

} // verus!
