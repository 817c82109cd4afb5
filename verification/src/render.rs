//! One render, from the moment it is asked for to its end.
//!
//! A render alternates between work that only the outside world can do (a pause, a script in
//! the browser, a file to be written) and a decision on what comes next. [`render`] is
//! that decision: it takes the outcome of the last piece of work, updates the records of the
//! service, and returns the next piece of work.

use crate::args::{Args, ArgsView};
use crate::audio::{base64_decoded, decode_audio};
use crate::command::{Command, CommandView};
use crate::files::{conversion, convert_audio, export_path, export_path_text, AudioFormat};
use crate::scripts::{
    ASK_ENCODING, ASK_LENGTH, ASK_PLAYING, ASK_RESULT, ASK_STARTED, ASK_TIME, OVERRIDE_EXPORT,
    START_RENDER,
};
use crate::sequence::{bytes_contents, load_script, load_script_text};
use crate::service::{RenderService, ServiceView};
use crate::status::{RenderError, RenderStatus, StateView};
use bytes::Bytes;
use vstd::prelude::*;

verus! {

/// What a script returned to the service.
#[derive(Debug)]
pub enum ScriptValue {
    Bool(bool),
    /// A number, given by the bits of the double that it is, or `None` where no double is it.
    Number(Option<u64>),
    Text(String),
    /// Anything else, such as nothing, a list or an object.
    Other,
}

/// How a piece of work ended.
#[derive(Debug)]
pub enum Outcome {
    /// It was done, and there is nothing to tell.
    Done,
    /// It could not be done.
    Failed,
    /// The driver was started, and listens on this port.
    Started(u16),
    /// The browser session was opened, under the profile of this name.
    Connected(String),
    /// The script ran and returned this.
    Value(ScriptValue),
    /// The fraction that was asked for, in decimal text.
    Fraction(String),
}

/// A piece of work for the outside world.
#[derive(Debug)]
pub enum Action {
    /// Wait for so many milliseconds.
    Pause(u64),
    /// Start the browser driver, the program at `path`, on a free port. The outcome is the port.
    StartDriver { path: String },
    /// Open a browser session through the driver on `port`, at the page `origin`. The outcome is
    /// the name of the profile that the session was given.
    Connect { origin: String, port: u16 },
    /// Run a script in the page. The outcome is the value it returned.
    Execute(String),
    /// Divide `time` by `length`, both given by the bits of a double, and cap the quotient at
    /// one. The outcome is that fraction.
    Measure { time: u64, length: u64 },
    /// Write `data` to the file at `path`.
    Write { path: String, data: Vec<u8> },
    /// Run this command to its end.
    Convert(Command),
    /// Close the browser session.
    Close,
    /// Stop the browser driver.
    StopDriver,
    /// Delete the browser profile of this name, if that can be done.
    RemoveProfile { profile_id: String },
    /// Nothing is left to do; this is how the render ended.
    Finish(Result<(), RenderError>),
}

/// The values in an [`Action`].
pub enum ActionView {
    Pause(nat),
    StartDriver { path: Seq<char> },
    Connect { origin: Seq<char>, port: u16 },
    Execute(Seq<char>),
    Measure { time: u64, length: u64 },
    Write { path: Seq<char>, data: Seq<u8> },
    Convert(CommandView),
    Close,
    StopDriver,
    RemoveProfile { profile_id: Seq<char> },
    Finish(Result<(), RenderError>),
}

impl View for Action {
    type V = ActionView;

    open spec fn view(&self) -> ActionView {
        match *self {
            Action::Pause(millis) => ActionView::Pause(millis as nat),
            Action::StartDriver { path } => ActionView::StartDriver { path: path@ },
            Action::Connect { origin, port } => ActionView::Connect { origin: origin@, port },
            Action::Execute(script) => ActionView::Execute(script@),
            Action::Measure { time, length } => ActionView::Measure { time, length },
            Action::Write { path, data } => ActionView::Write { path: path@, data: data@ },
            Action::Convert(command) => ActionView::Convert(command@),
            Action::Close => ActionView::Close,
            Action::StopDriver => ActionView::StopDriver,
            Action::RemoveProfile { profile_id } => ActionView::RemoveProfile {
                profile_id: profile_id@,
            },
            Action::Finish(result) => ActionView::Finish(result),
        }
    }
}

/// Where a render stands. A phase is named for the work that is being done in it.
#[derive(Debug, Copy, Clone, PartialEq, Eq, Structural)]
pub enum Phase {
    /// Waiting for a free slot.
    Queued,
    StartingDriver,
    /// Giving the driver a moment to come up.
    WarmingUp { port: u16 },
    Connecting { port: u16 },
    /// Loading the sequence into the page.
    Loading,
    /// Replacing the page's audio export.
    Patching,
    /// Starting the export.
    Arming,
    AskingStarted,
    /// Pausing after the page said whether the export has started.
    AwaitingStart { started: bool },
    AskingLength,
    /// Pausing before the song is watched.
    Settling { length: u64 },
    AskingPlaying { length: u64 },
    /// Asking for the time, once the page said whether the song is still playing.
    AskingTime { length: u64, playing: bool },
    Measuring { length: u64, playing: bool, time: u64 },
    /// Pausing before the song is looked at again, or left.
    AwaitingEnd { length: u64, playing: bool },
    AskingEncoding,
    /// Pausing after the page said whether the audio is still missing.
    AwaitingEncoding { encoding: bool },
    AskingResult,
    Writing,
    Converting,
    Closing,
    StoppingDriver,
    RemovingProfile,
    /// Ended, with the audio files in place.
    Finished,
    /// Ended early.
    Failed(RenderError),
}

impl Phase {
    /// Whether a render holds a slot in this phase.
    pub open spec fn holds_slot(self) -> bool {
        !(self is Queued || self is Finished || self is Failed)
    }

    /// The status that clients see of a render in this phase. A render that failed keeps the
    /// status it had.
    pub open spec fn status(self) -> Option<RenderStatus> {
        match self {
            Phase::Queued => Some(RenderStatus::Queued),
            Phase::StartingDriver | Phase::WarmingUp { .. } | Phase::Connecting { .. }
            | Phase::Loading | Phase::Patching | Phase::Arming | Phase::AskingStarted
            | Phase::AwaitingStart { .. } | Phase::AskingLength => Some(RenderStatus::Initializing),
            Phase::Settling { .. } | Phase::AskingPlaying { .. } | Phase::AskingTime { .. }
            | Phase::Measuring { .. } | Phase::AwaitingEnd { .. } => Some(RenderStatus::Rendering),
            Phase::AskingEncoding | Phase::AwaitingEncoding { .. } | Phase::AskingResult
            | Phase::Writing => Some(RenderStatus::Encoding),
            Phase::Converting => Some(RenderStatus::Converting),
            Phase::Closing | Phase::StoppingDriver | Phase::RemovingProfile
            | Phase::Finished => Some(RenderStatus::Complete),
            Phase::Failed(_) => None,
        }
    }

    /// Whether the work of this phase is a script in the page.
    pub open spec fn runs_script(self) -> bool {
        match self {
            Phase::Loading | Phase::Patching | Phase::Arming | Phase::AskingStarted
            | Phase::AskingLength | Phase::AskingPlaying { .. } | Phase::AskingTime { .. }
            | Phase::AskingEncoding | Phase::AskingResult => true,
            _ => false,
        }
    }

    /// Whether the render cannot go on without the work of this phase, which gives nothing but
    /// that it is done.
    pub open spec fn must_be_done(self) -> bool {
        match self {
            Phase::Writing | Phase::Converting | Phase::Closing | Phase::StoppingDriver => true,
            _ => false,
        }
    }

    /// The error of a render whose work in this phase could not be done.
    pub open spec fn error(self) -> RenderError {
        if self is Writing {
            RenderError::FileError
        } else {
            RenderError::DriverFailure
        }
    }

    /// The status to be recorded when a render moves from this phase to `next`, if any.
    pub open spec fn status_written(self, next: Phase) -> Option<RenderStatus> {
        if next.status() != self.status() {
            next.status()
        } else {
            None
        }
    }

    /// The phase that follows when the script of this phase returned `value`. `audio` is what
    /// the returned text stands for, where the script asked for the encoded audio.
    pub open spec fn after_value(self, value: ScriptValue, audio: Option<Seq<u8>>) -> Phase {
        match self {
            Phase::Loading => Phase::Patching,
            Phase::Patching => Phase::Arming,
            Phase::Arming => Phase::AskingStarted,
            Phase::AskingStarted => Phase::AwaitingStart {
                started: value == ScriptValue::Bool(true),
            },
            Phase::AskingLength => match value {
                ScriptValue::Number(Some(length)) => Phase::Settling { length },
                _ => Phase::Failed(RenderError::DriverFailure),
            },
            Phase::AskingPlaying { length } => Phase::AskingTime {
                length,
                playing: value != ScriptValue::Bool(false),
            },
            Phase::AskingTime { length, playing } => match value {
                ScriptValue::Number(Some(time)) => Phase::Measuring { length, playing, time },
                _ => Phase::AwaitingEnd { length, playing },
            },
            Phase::AskingEncoding => Phase::AwaitingEncoding {
                encoding: value != ScriptValue::Bool(false),
            },
            Phase::AskingResult => if value is Text && audio is Some {
                Phase::Writing
            } else {
                Phase::Failed(RenderError::DriverFailure)
            },
            _ => self,
        }
    }

    /// The phase that follows this one, given how its work ended and whether a slot is free.
    /// `audio` is as in [`Phase::after_value`].
    pub open spec fn after(self, outcome: Outcome, room: bool, audio: Option<Seq<u8>>) -> Phase {
        if self.runs_script() {
            match outcome {
                Outcome::Value(value) => self.after_value(value, audio),
                _ => Phase::Failed(self.error()),
            }
        } else if self.must_be_done() {
            match self {
                _ if !(outcome is Done) => Phase::Failed(self.error()),
                Phase::Writing => Phase::Converting,
                Phase::Converting => Phase::Closing,
                Phase::Closing => Phase::StoppingDriver,
                _ => Phase::RemovingProfile,
            }
        } else {
            match self {
                Phase::Queued => if room { Phase::StartingDriver } else { Phase::Queued },
                Phase::StartingDriver => match outcome {
                    Outcome::Started(port) => Phase::WarmingUp { port },
                    _ => Phase::Failed(self.error()),
                },
                Phase::WarmingUp { port } => Phase::Connecting { port },
                Phase::Connecting { .. } => match outcome {
                    Outcome::Connected(_) => Phase::Loading,
                    _ => Phase::Failed(self.error()),
                },
                Phase::AwaitingStart { started } => if started {
                    Phase::AskingLength
                } else {
                    Phase::AskingStarted
                },
                Phase::Settling { length } => Phase::AskingPlaying { length },
                Phase::Measuring { length, playing, .. } => Phase::AwaitingEnd { length, playing },
                Phase::AwaitingEnd { length, playing } => if playing {
                    Phase::AskingPlaying { length }
                } else {
                    Phase::AskingEncoding
                },
                Phase::AwaitingEncoding { encoding } => if encoding {
                    Phase::AskingEncoding
                } else {
                    Phase::AskingResult
                },
                Phase::RemovingProfile => Phase::Finished,
                _ => self,
            }
        }
    }

    fn has_slot(self) -> (holds: bool)
        ensures
            holds == self.holds_slot(),
    {
        match self {
            Phase::Queued | Phase::Finished | Phase::Failed(_) => false,
            _ => true,
        }
    }

    fn shown_status(self) -> (status: Option<RenderStatus>)
        ensures
            status == self.status(),
    {
        match self {
            Phase::Queued => Some(RenderStatus::Queued),
            Phase::StartingDriver | Phase::WarmingUp { .. } | Phase::Connecting { .. }
            | Phase::Loading | Phase::Patching | Phase::Arming | Phase::AskingStarted
            | Phase::AwaitingStart { .. } | Phase::AskingLength => Some(RenderStatus::Initializing),
            Phase::Settling { .. } | Phase::AskingPlaying { .. } | Phase::AskingTime { .. }
            | Phase::Measuring { .. } | Phase::AwaitingEnd { .. } => Some(RenderStatus::Rendering),
            Phase::AskingEncoding | Phase::AwaitingEncoding { .. } | Phase::AskingResult
            | Phase::Writing => Some(RenderStatus::Encoding),
            Phase::Converting => Some(RenderStatus::Converting),
            Phase::Closing | Phase::StoppingDriver | Phase::RemovingProfile
            | Phase::Finished => Some(RenderStatus::Complete),
            Phase::Failed(_) => None,
        }
    }

    /// The status to be recorded when a render moves from this phase to `next`.
    fn status_change(self, next: Phase) -> (change: Option<RenderStatus>)
        ensures
            change == self.status_written(next),
    {
        match (self.shown_status(), next.shown_status()) {
            (Some(before), Some(after)) => if before == after { None } else { Some(after) },
            (_, change) => change,
        }
    }

    fn next_after_value(self, value: &ScriptValue, audio: &Option<Vec<u8>>) -> (next: Phase)
        requires
            self.runs_script(),
        ensures
            next == self.after_value(*value, audio_view(*audio)),
    {
        match self {
            Phase::Loading => Phase::Patching,
            Phase::Patching => Phase::Arming,
            Phase::Arming => Phase::AskingStarted,
            Phase::AskingStarted => match value {
                ScriptValue::Bool(started) => Phase::AwaitingStart { started: *started },
                _ => Phase::AwaitingStart { started: false },
            },
            Phase::AskingLength => match value {
                ScriptValue::Number(Some(length)) => Phase::Settling { length: *length },
                _ => Phase::Failed(RenderError::DriverFailure),
            },
            Phase::AskingPlaying { length } => match value {
                ScriptValue::Bool(playing) => Phase::AskingTime { length, playing: *playing },
                _ => Phase::AskingTime { length, playing: true },
            },
            Phase::AskingTime { length, playing } => match value {
                ScriptValue::Number(Some(time)) => Phase::Measuring {
                    length,
                    playing,
                    time: *time,
                },
                _ => Phase::AwaitingEnd { length, playing },
            },
            Phase::AskingEncoding => match value {
                ScriptValue::Bool(encoding) => Phase::AwaitingEncoding { encoding: *encoding },
                _ => Phase::AwaitingEncoding { encoding: true },
            },
            Phase::AskingResult => match value {
                ScriptValue::Text(_) if audio.is_some() => Phase::Writing,
                _ => Phase::Failed(RenderError::DriverFailure),
            },
            _ => self,
        }
    }

    fn next(self, outcome: &Outcome, room: bool, audio: &Option<Vec<u8>>) -> (next: Phase)
        ensures
            next == self.after(*outcome, room, audio_view(*audio)),
    {
        match self {
            Phase::Queued => if room { Phase::StartingDriver } else { Phase::Queued },
            Phase::StartingDriver => match outcome {
                Outcome::Started(port) => Phase::WarmingUp { port: *port },
                _ => Phase::Failed(RenderError::DriverFailure),
            },
            Phase::WarmingUp { port } => Phase::Connecting { port },
            Phase::Connecting { .. } => match outcome {
                Outcome::Connected(_) => Phase::Loading,
                _ => Phase::Failed(RenderError::DriverFailure),
            },
            Phase::AwaitingStart { started } => if started {
                Phase::AskingLength
            } else {
                Phase::AskingStarted
            },
            Phase::Settling { length } => Phase::AskingPlaying { length },
            Phase::Measuring { length, playing, .. } => Phase::AwaitingEnd { length, playing },
            Phase::AwaitingEnd { length, playing } => if playing {
                Phase::AskingPlaying { length }
            } else {
                Phase::AskingEncoding
            },
            Phase::AwaitingEncoding { encoding } => if encoding {
                Phase::AskingEncoding
            } else {
                Phase::AskingResult
            },
            Phase::Writing => match outcome {
                Outcome::Done => Phase::Converting,
                _ => Phase::Failed(RenderError::FileError),
            },
            Phase::Converting => match outcome {
                Outcome::Done => Phase::Closing,
                _ => Phase::Failed(RenderError::DriverFailure),
            },
            Phase::Closing => match outcome {
                Outcome::Done => Phase::StoppingDriver,
                _ => Phase::Failed(RenderError::DriverFailure),
            },
            Phase::StoppingDriver => match outcome {
                Outcome::Done => Phase::RemovingProfile,
                _ => Phase::Failed(RenderError::DriverFailure),
            },
            Phase::RemovingProfile => Phase::Finished,
            Phase::Finished => Phase::Finished,
            Phase::Failed(error) => Phase::Failed(error),
            _ => match outcome {
                Outcome::Value(value) => self.next_after_value(value, audio),
                _ => Phase::Failed(RenderError::DriverFailure),
            },
        }
    }
}

/// The bytes in `audio`.
pub open spec fn audio_view(audio: Option<Vec<u8>>) -> Option<Seq<u8>> {
    match audio {
        Some(data) => Some(data@),
        None => None,
    }
}

/// One render.
pub struct RenderJob {
    id: u32,
    load: String,
    args: Args,
    phase: Phase,
    profile_id: String,
}

/// The values in a [`RenderJob`].
pub struct JobView {
    /// The sequence to render.
    pub id: u32,
    /// The script that loads the sequence into the page.
    pub load: Seq<char>,
    /// The settings of the service.
    pub args: ArgsView,
    pub phase: Phase,
    /// The name of the browser profile; empty until a session is open.
    pub profile_id: Seq<char>,
}

impl View for RenderJob {
    type V = JobView;

    closed spec fn view(&self) -> JobView {
        JobView {
            id: self.id,
            load: self.load@,
            args: self.args@,
            phase: self.phase,
            profile_id: self.profile_id@,
        }
    }
}

impl JobView {
    /// The work of this render in its phase; `audio` is what there is to write.
    pub open spec fn action(self, audio: Option<Seq<u8>>) -> ActionView {
        match self.phase {
            Phase::Queued => ActionView::Pause(200),
            Phase::StartingDriver => ActionView::StartDriver { path: self.args.driver_executable },
            Phase::WarmingUp { .. } => ActionView::Pause(200),
            Phase::Connecting { port } => ActionView::Connect { origin: self.args.origin, port },
            Phase::Loading => ActionView::Execute(self.load),
            Phase::Patching => ActionView::Execute(OVERRIDE_EXPORT@),
            Phase::Arming => ActionView::Execute(START_RENDER@),
            Phase::AskingStarted => ActionView::Execute(ASK_STARTED@),
            Phase::AwaitingStart { .. } => ActionView::Pause(200),
            Phase::AskingLength => ActionView::Execute(ASK_LENGTH@),
            Phase::Settling { .. } => ActionView::Pause(500),
            Phase::AskingPlaying { .. } => ActionView::Execute(ASK_PLAYING@),
            Phase::AskingTime { .. } => ActionView::Execute(ASK_TIME@),
            Phase::Measuring { length, time, .. } => ActionView::Measure { time, length },
            Phase::AwaitingEnd { .. } => ActionView::Pause(500),
            Phase::AskingEncoding => ActionView::Execute(ASK_ENCODING@),
            Phase::AwaitingEncoding { .. } => ActionView::Pause(500),
            Phase::AskingResult => ActionView::Execute(ASK_RESULT@),
            Phase::Writing => ActionView::Write {
                path: export_path(self.id, AudioFormat::Wav),
                data: audio->Some_0,
            },
            Phase::Converting => ActionView::Convert(
                CommandView { program: self.args.ffmpeg_executable, args: conversion(self.id) },
            ),
            Phase::Closing => ActionView::Close,
            Phase::StoppingDriver => ActionView::StopDriver,
            Phase::RemovingProfile => ActionView::RemoveProfile { profile_id: self.profile_id },
            Phase::Finished => ActionView::Finish(Ok(())),
            Phase::Failed(error) => ActionView::Finish(Err(error)),
        }
    }

    /// This render in the phase that follows.
    pub open spec fn after(self, outcome: Outcome, room: bool, audio: Option<Seq<u8>>) -> JobView {
        JobView {
            phase: self.phase.after(outcome, room, audio),
            profile_id: match (self.phase, outcome) {
                (Phase::Connecting { .. }, Outcome::Connected(profile_id)) => profile_id@,
                _ => self.profile_id,
            },
            ..self
        }
    }

    /// The state that clients see of this render after its work ended with `outcome` and it
    /// moved on to `next`; `state` is what they saw before.
    pub open spec fn state_after(self, outcome: Outcome, next: Phase, state: StateView) -> StateView {
        StateView {
            progress: match (self.phase, outcome) {
                (Phase::Measuring { .. }, Outcome::Fraction(progress)) => progress@,
                _ => state.progress,
            },
            status: match self.phase.status_written(next) {
                Some(status) => status,
                None => state.status,
            },
        }
    }

    /// This render after it was given up.
    pub open spec fn abandoned(self) -> JobView {
        if self.phase is Finished || self.phase is Failed {
            self
        } else {
            JobView { phase: Phase::Failed(RenderError::DriverFailure), ..self }
        }
    }

    /// The slots of the service after this render moved on to `next`. A slot is taken when the
    /// render leaves the queue, and given back when it ends.
    pub open spec fn slots_after(self, next: Phase, service: ServiceView) -> ServiceView {
        ServiceView {
            running: if next.holds_slot() && !self.phase.holds_slot() {
                service.running + 1
            } else if self.phase.holds_slot() && !next.holds_slot() && service.running > 0 {
                (service.running - 1) as nat
            } else {
                service.running
            },
            ..service
        }
    }

    /// The records of the service after the work of this render ended with `outcome` and it
    /// moved on to `next`.
    pub open spec fn service_after(
        self,
        outcome: Outcome,
        next: Phase,
        service: ServiceView,
    ) -> ServiceView {
        self.slots_after(
            next,
            service.with_state(
                self.id,
                self.state_after(outcome, next, service.states[self.id]),
            ),
        )
    }
}

/// The audio that the outcome of the script for it stands for: the bytes whose base64 the page
/// returned.
pub open spec fn audio_of(outcome: Outcome) -> Option<Seq<u8>> {
    match outcome {
        Outcome::Value(ScriptValue::Text(text)) => base64_decoded(text@),
        _ => None,
    }
}

impl RenderJob {
    /// A render of the sequence `id`, whose notes are `data`, that waits for its turn.
    pub fn new(id: u32, data: Bytes, args: Args) -> (job: Self)
        ensures
            job@ == (JobView {
                id,
                load: load_script(bytes_contents(data)),
                args: args@,
                phase: Phase::Queued,
                profile_id: Seq::empty(),
            }),
    {
        RenderJob {
            id,
            load: load_script_text(data),
            args,
            phase: Phase::Queued,
            profile_id: String::new(),
        }
    }

    /// The sequence that is rendered.
    pub fn id(&self) -> (id: u32)
        ensures
            id == self@.id,
    {
        self.id
    }

    /// Where this render stands.
    pub fn phase(&self) -> (phase: Phase)
        ensures
            phase == self@.phase,
    {
        self.phase
    }

    fn action(&self, audio: Option<Vec<u8>>) -> (action: Action)
        requires
            self@.phase is Writing ==> audio is Some,
        ensures
            action@ == self@.action(audio_view(audio)),
    {
        match self.phase {
            Phase::Queued => Action::Pause(200),
            Phase::StartingDriver => Action::StartDriver {
                path: self.args.driver_executable.clone(),
            },
            Phase::WarmingUp { .. } => Action::Pause(200),
            Phase::Connecting { port } => Action::Connect {
                origin: self.args.origin.clone(),
                port,
            },
            Phase::Loading => Action::Execute(self.load.clone()),
            Phase::Patching => Action::Execute(OVERRIDE_EXPORT.to_owned()),
            Phase::Arming => Action::Execute(START_RENDER.to_owned()),
            Phase::AskingStarted => Action::Execute(ASK_STARTED.to_owned()),
            Phase::AwaitingStart { .. } => Action::Pause(200),
            Phase::AskingLength => Action::Execute(ASK_LENGTH.to_owned()),
            Phase::Settling { .. } => Action::Pause(500),
            Phase::AskingPlaying { .. } => Action::Execute(ASK_PLAYING.to_owned()),
            Phase::AskingTime { .. } => Action::Execute(ASK_TIME.to_owned()),
            Phase::Measuring { length, time, .. } => Action::Measure { time, length },
            Phase::AwaitingEnd { .. } => Action::Pause(500),
            Phase::AskingEncoding => Action::Execute(ASK_ENCODING.to_owned()),
            Phase::AwaitingEncoding { .. } => Action::Pause(500),
            Phase::AskingResult => Action::Execute(ASK_RESULT.to_owned()),
            Phase::Writing => Action::Write {
                path: export_path_text(self.id, AudioFormat::Wav),
                data: audio.unwrap(),
            },
            Phase::Converting => Action::Convert(
                convert_audio(self.id, self.args.ffmpeg_executable.clone()),
            ),
            Phase::Closing => Action::Close,
            Phase::StoppingDriver => Action::StopDriver,
            Phase::RemovingProfile => Action::RemoveProfile {
                profile_id: self.profile_id.clone(),
            },
            Phase::Finished => Action::Finish(Ok(())),
            Phase::Failed(error) => Action::Finish(Err(error)),
        }
    }

    /// Gives this render up, unless it has ended. If it holds a slot, the slot is given back.
    pub fn abandon(&mut self, service: &mut RenderService)
        requires
            old(service)@.inv(),
        ensures
            final(self)@ == old(self)@.abandoned(),
            final(service)@ == old(self)@.slots_after(final(self)@.phase, old(service)@),
            final(service)@.inv(),
    {
        if self.phase.has_slot() {
            service.release();
        }
        match self.phase {
            Phase::Finished | Phase::Failed(_) => {},
            _ => {
                self.phase = Phase::Failed(RenderError::DriverFailure);
            },
        }
    }
}

/// [`render`], once it is known which audio the page handed over.
fn advance(
    job: &mut RenderJob,
    service: &mut RenderService,
    outcome: Outcome,
    audio: Option<Vec<u8>>,
) -> (action: Action)
    requires
        old(service)@.inv(),
        old(service)@.states.contains_key(old(job)@.id),
    ensures
        final(job)@ == old(job)@.after(outcome, old(service)@.has_room(), audio_view(audio)),
        final(service)@ == old(job)@.service_after(outcome, final(job)@.phase, old(service)@),
        final(service)@.inv(),
        action@ == final(job)@.action(audio_view(audio)),
{
    let phase = job.phase;
    let next = phase.next(&outcome, service.has_room(), &audio);
    if let Phase::Measuring { .. } = phase {
        if let Outcome::Fraction(progress) = &outcome {
            service.set_progress(job.id, progress.clone());
        }
    }
    if let Some(status) = phase.status_change(next) {
        service.set_status(job.id, status);
    }
    if !phase.has_slot() && next.has_slot() {
        service.acquire();
    }
    if phase.has_slot() && !next.has_slot() {
        service.release();
    }
    assert(service@ =~= job@.service_after(outcome, next, old(service)@));
    if let Phase::Connecting { .. } = phase {
        if let Outcome::Connected(profile_id) = &outcome {
            job.profile_id = profile_id.clone();
        }
    }
    job.phase = next;
    job.action(audio)
}

/// Takes a render one step further: its work ended with `outcome`, and the result is the work to
/// be done next. The first step is made with [`Outcome::Done`].
pub fn render(job: &mut RenderJob, service: &mut RenderService, outcome: Outcome) -> (action: Action)
    requires
        old(service)@.inv(),
        old(service)@.states.contains_key(old(job)@.id),
    ensures
        final(job)@ == old(job)@.after(outcome, old(service)@.has_room(), audio_of(outcome)),
        final(service)@ == old(job)@.service_after(outcome, final(job)@.phase, old(service)@),
        final(service)@.inv(),
        action@ == final(job)@.action(audio_of(outcome)),
{
    let audio = match job.phase {
        Phase::AskingResult => match &outcome {
            Outcome::Value(ScriptValue::Text(text)) => decode_audio(text.as_str()),
            _ => None,
        },
        _ => None,
    };
    advance(job, service, outcome, audio)
}

} // verus!
