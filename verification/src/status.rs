//! What clients see of a render, and how a render can fail.

use vstd::prelude::*;

verus! {

/// The stage that a render has reached, as clients see it.
#[derive(Debug, Copy, Clone, PartialEq, Eq, Structural)]
pub enum RenderStatus {
    Queued,
    Initializing,
    Rendering,
    Encoding,
    Converting,
    Complete,
    Error,
}

impl RenderStatus {
    /// The number that stands for this status in progress events.
    pub open spec fn id(self) -> nat {
        match self {
            RenderStatus::Queued => 0,
            RenderStatus::Initializing => 1,
            RenderStatus::Rendering => 2,
            RenderStatus::Encoding => 3,
            RenderStatus::Converting => 4,
            RenderStatus::Complete => 5,
            RenderStatus::Error => 6,
        }
    }

    /// The number that stands for this status in progress events.
    pub fn get_id(&self) -> (id: i32)
        ensures
            id == self.id(),
    {
        match self {
            RenderStatus::Queued => 0,
            RenderStatus::Initializing => 1,
            RenderStatus::Rendering => 2,
            RenderStatus::Encoding => 3,
            RenderStatus::Converting => 4,
            RenderStatus::Complete => 5,
            RenderStatus::Error => 6,
        }
    }
}

/// How far a render has come.
///
/// The fraction played so far is a floating-point number. Nothing here computes with it, so it
/// is held as the text that clients receive: `"0"` at the start, `"1"` when all is played.
#[derive(Debug)]
pub struct RenderState {
    pub progress: String,
    pub status: RenderStatus,
}

/// The values in a [`RenderState`].
pub struct StateView {
    pub progress: Seq<char>,
    pub status: RenderStatus,
}

impl View for RenderState {
    type V = StateView;

    open spec fn view(&self) -> StateView {
        StateView { progress: self.progress@, status: self.status }
    }
}

impl RenderState {
    pub fn set_status(&mut self, status: RenderStatus)
        ensures
            final(self)@ == (StateView { status, ..old(self)@ }),
    {
        self.status = status;
    }

    pub fn set_progress(&mut self, progress: String)
        ensures
            final(self)@ == (StateView { progress: progress@, ..old(self)@ }),
    {
        self.progress = progress;
    }
}

/// Why a render came to nothing.
#[derive(Debug, Copy, Clone, PartialEq, Eq, Structural)]
pub enum RenderError {
    SequenceNotFound,
    DriverFailure,
    FileError,
}

impl RenderError {
    /// The text shown for this error; it is the same for every kind of error.
    pub fn message(&self) -> (text: String)
        ensures
            text@ == "Render error"@,
    {
        "Render error".to_owned()
    }
}

} // verus!
