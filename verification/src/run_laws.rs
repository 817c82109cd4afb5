//! What a render does in the course of its run, and what becomes of the records meanwhile.

use crate::args::ArgsView;
use crate::audio::base64_text;
use crate::driver::{port_step, PortSearch};
use crate::files::{conversion, export_path, AudioFormat};
use crate::laws::{at_work, job_after, stage, Turn};
use crate::poll::{PollView, POLL_MILLIS};
use crate::render::{audio_of, ActionView, JobView, Outcome, Phase, ScriptValue};
use crate::scripts::{
    ASK_ENCODING, ASK_LENGTH, ASK_PLAYING, ASK_RESULT, ASK_STARTED, ASK_TIME, OVERRIDE_EXPORT,
    START_RENDER,
};
use crate::sequence::bytes_contents;
use crate::service::ServiceView;
use crate::start::{launches, service_after_start, start_action, StartActionView, StartEvent};
use crate::status::{RenderError, RenderStatus, StateView};
use crate::text_laws::{law_load_script_lists_data, listed, numbers};
use bytes::Bytes;
use vstd::prelude::*;

verus! {

/// The length of the song that a render carries along, while it follows the song.
pub open spec fn song_length(phase: Phase) -> Option<u64> {
    match phase {
        Phase::Settling { length } => Some(length),
        Phase::AskingPlaying { length } => Some(length),
        Phase::AskingTime { length, .. } => Some(length),
        Phase::Measuring { length, .. } => Some(length),
        Phase::AwaitingEnd { length, .. } => Some(length),
        _ => None,
    }
}

/// The length that a render carries along is the number that the page gave when it was asked for
/// the length.
pub proof fn law_length_is_the_pages(job: JobView, turns: Seq<Turn>, length: u64)
    requires
        job.phase is Queued,
        song_length(job_after(job, turns).phase) == Some(length),
    ensures
        exists|i: int|
            0 <= i < turns.len() && #[trigger] job_after(job, turns.take(i)).phase is AskingLength
                && turns[i].outcome == Outcome::Value(ScriptValue::Number(Some(length))),
    decreases turns.len(),
{
    let before = turns.drop_last();
    assert(turns.take(turns.len() - 1) =~= before);
    if job_after(job, before).phase is AskingLength {
        assert(job_after(job, turns.take(turns.len() - 1)).phase is AskingLength);
    } else {
        law_length_is_the_pages(job, before, length);
        let i = choose|i: int|
            0 <= i < before.len() && #[trigger] job_after(job, before.take(i)).phase
                is AskingLength && before[i].outcome == Outcome::Value(
                ScriptValue::Number(Some(length)),
            );
        assert(before.take(i) =~= turns.take(i));
        assert(job_after(job, turns.take(i)).phase is AskingLength);
    }
}

/// Whenever a render measures how far the song has been played, it divides the number that the
/// page gave just now, when it was asked for the time, by the number that the page gave when it
/// was asked for the length.
pub proof fn law_measures_time_by_length(job: JobView, turns: Seq<Turn>, audio: Option<Seq<u8>>)
    requires
        job.phase is Queued,
        job_after(job, turns).action(audio) is Measure,
    ensures
        job_after(job, turns).action(audio) matches ActionView::Measure { time, length } && {
            &&& turns.len() > 0
            &&& job_after(job, turns.drop_last()).phase is AskingTime
            &&& turns.last().outcome == Outcome::Value(ScriptValue::Number(Some(time)))
            &&& exists|i: int|
                0 <= i < turns.len() && #[trigger] job_after(job, turns.take(i)).phase
                    is AskingLength && turns[i].outcome == Outcome::Value(
                    ScriptValue::Number(Some(length)),
                )
        },
{
    if let ActionView::Measure { time, length } = job_after(job, turns).action(audio) {
        law_length_is_the_pages(job, turns, length);
    }
}

/// The time that the page gives is always measured, and the fraction that comes of it is what is
/// recorded as progress. Nothing else changes the progress of a render.
pub proof fn law_progress_is_what_was_measured(
    service: ServiceView,
    job: JobView,
    outcome: Outcome,
    audio: Option<Seq<u8>>,
    fraction: String,
    time: u64,
)
    ensures
        ({
            let next = job.after(outcome, service.has_room(), audio);
            let after = job.service_after(outcome, next.phase, service);
            &&& job.phase is Measuring && outcome == Outcome::Fraction(fraction)
                ==> after.states[job.id].progress == fraction@
            &&& !(job.phase is Measuring && outcome is Fraction) ==> after.states[job.id].progress
                == service.states[job.id].progress
            &&& job.phase is AskingTime && outcome == Outcome::Value(
                ScriptValue::Number(Some(time)),
            ) ==> next.action(audio) is Measure
        }),
{
}

/// A render stays the render of one sequence, with its notes and its settings.
pub proof fn law_run_keeps_the_task(job: JobView, turns: Seq<Turn>)
    ensures
        job_after(job, turns).id == job.id,
        job_after(job, turns).load == job.load,
        job_after(job, turns).args == job.args,
    decreases turns.len(),
{
    if turns.len() > 0 {
        law_run_keeps_the_task(job, turns.drop_last());
    }
}

/// A render that is taken up is that of the sequence asked for, with the notes that were fetched,
/// and goes by the settings of the service to its end: it starts the driver of the settings, opens
/// the page of the settings, loads the notes into it, writes the file of the sequence, and runs the
/// converter of the settings on the files of the sequence.
pub proof fn law_render_goes_by_the_request(
    service: ServiceView,
    args: ArgsView,
    id: u32,
    data: Bytes,
    turns: Seq<Turn>,
    audio: Option<Seq<u8>>,
)
    requires
        !service.states.contains_key(id),
    ensures
        start_action(service, args, id, StartEvent::Fetched(Some(data))) matches
            StartActionView::Launch(job) && {
            let action = job_after(job, turns).action(audio);
            let open = "loadDataProto(new Uint8Array(["@.len() as int;
            let close = "]))"@.len() as int;
            &&& job.id == id
            &&& job.args == args
            &&& listed(job.load.subrange(open, job.load.len() - close)) == numbers(
                bytes_contents(data),
            )
            &&& job.phase is Queued
            &&& action matches ActionView::StartDriver { path } ==> path == args.driver_executable
            &&& action matches ActionView::Connect { origin, .. } ==> origin == args.origin
            &&& action matches ActionView::Convert(command) ==> command.program
                == args.ffmpeg_executable && command.args == conversion(id)
            &&& action matches ActionView::Write { path, .. } ==> path == export_path(
                id,
                AudioFormat::Wav,
            )
            &&& job_after(job, turns).phase is Loading ==> action == ActionView::Execute(job.load)
        },
{
    law_load_script_lists_data(bytes_contents(data));
    if let StartActionView::Launch(job) = start_action(
        service,
        args,
        id,
        StartEvent::Fetched(Some(data)),
    ) {
        law_run_keeps_the_task(job, turns);
    }
}

/// A request whose render is not there makes the service ask the sequence server of the settings,
/// and nothing is recorded of it yet; a request whose render is there, or whose sequence is not,
/// leaves no trace.
pub proof fn law_request_before_its_notes(
    service: ServiceView,
    args: ArgsView,
    id: u32,
    exists: bool,
)
    ensures
        start_action(service, args, id, StartEvent::Requested { exists }) is Fetch <==> !exists,
        start_action(service, args, id, StartEvent::Requested { exists: false }) == (
        StartActionView::Fetch { origin: args.sequence_origin }),
        service_after_start(service, id, StartEvent::Requested { exists }) == service,
        service_after_start(service, id, StartEvent::Fetched(None)) == service,
{
}

/// When the notes of a sequence are there, its render is taken up if and only if it was not asked
/// for before; then the service remembers it, and nothing else about the service changes.
pub proof fn law_taken_up(service: ServiceView, args: ArgsView, id: u32, data: Bytes, other: u32)
    ensures
        ({
            let event = StartEvent::Fetched(Some(data));
            let after = service_after_start(service, id, event);
            &&& start_action(service, args, id, event) is Launch <==> !service.states.contains_key(id)
            &&& launches(service, id, event) <==> !service.states.contains_key(id)
            &&& after.states.contains_key(id)
            &&& other != id ==> after.states.contains_key(other) == service.states.contains_key(
                other,
            )
            &&& other != id ==> after.states[other] == service.states[other]
            &&& service.states.contains_key(id) ==> after == service
            &&& !service.states.contains_key(id) ==> after.states[id] == (StateView {
                progress: "0"@,
                status: RenderStatus::Queued,
            })
            &&& after.running == service.running
            &&& after.limit == service.limit
        }),
{
}

/// Whether a script ran and returned a number.
pub open spec fn gives_number(outcome: Outcome) -> bool {
    match outcome {
        Outcome::Value(ScriptValue::Number(Some(_))) => true,
        _ => false,
    }
}

/// Whether a script ran and returned text.
pub open spec fn gives_text(outcome: Outcome) -> bool {
    match outcome {
        Outcome::Value(ScriptValue::Text(_)) => true,
        _ => false,
    }
}

/// When a render fails: a script does not run, the driver does not start, no session is opened, the
/// page gives no length, or no audio in base64, the recording is not written, or the conversion,
/// the closing of the session or the stopping of the driver does not succeed. In every other case
/// it goes on.
pub proof fn law_when_a_render_fails(
    phase: Phase,
    outcome: Outcome,
    room: bool,
    audio: Option<Seq<u8>>,
)
    requires
        !(phase is Failed),
    ensures
        phase.after(outcome, room, audio) is Failed <==> match phase {
            Phase::Loading
            | Phase::Patching
            | Phase::Arming
            | Phase::AskingStarted
            | Phase::AskingPlaying { .. }
            | Phase::AskingTime { .. }
            | Phase::AskingEncoding => !(outcome is Value),
            Phase::AskingLength => !gives_number(outcome),
            Phase::AskingResult => audio is None || !gives_text(outcome),
            Phase::StartingDriver => !(outcome is Started),
            Phase::Connecting { .. } => !(outcome is Connected),
            Phase::Writing
            | Phase::Converting
            | Phase::Closing
            | Phase::StoppingDriver => !(outcome is Done),
            _ => false,
        },
{
}

/// A render that does not fail and need not wait goes through its phases one by one, and leaves
/// none out but the measuring where the page gave no time.
pub proof fn law_no_phase_is_skipped(
    phase: Phase,
    outcome: Outcome,
    room: bool,
    audio: Option<Seq<u8>>,
    time: u64,
)
    requires
        !(phase is Finished || phase is Failed),
        !(phase.after(outcome, room, audio) is Failed),
        stage(phase) < stage(phase.after(outcome, room, audio)),
    ensures
        phase.after(outcome, room, audio) is AwaitingEnd && phase is AskingTime || stage(
            phase.after(outcome, room, audio),
        ) == stage(phase) + 1,
        phase is AskingTime && outcome == Outcome::Value(ScriptValue::Number(Some(time)))
            ==> phase.after(outcome, room, audio) is Measuring,
{
}

/// A render that asked whether the export has started goes on if and only if the page said that it
/// has; otherwise it asks again.
pub proof fn law_waits_for_the_start(
    value: ScriptValue,
    outcome: Outcome,
    room: bool,
    audio: Option<Seq<u8>>,
)
    ensures
        ({
            let asked = Phase::AskingStarted.after(Outcome::Value(value), room, audio);
            let next = asked.after(outcome, room, audio);
            if value == ScriptValue::Bool(true) {
                next is AskingLength
            } else {
                next is AskingStarted
            }
        }),
{
}

/// A render that looked at the song goes on if and only if the page said that it is not playing;
/// otherwise it looks again, with the same length.
pub proof fn law_waits_for_the_end(
    length: u64,
    playing: ScriptValue,
    time: ScriptValue,
    measured: Outcome,
    outcome: Outcome,
    room: bool,
    audio: Option<Seq<u8>>,
)
    ensures
        ({
            let asked = Phase::AskingPlaying { length }.after(Outcome::Value(playing), room, audio);
            let timed = asked.after(Outcome::Value(time), room, audio);
            let pausing = if timed is Measuring {
                timed.after(measured, room, audio)
            } else {
                timed
            };
            let next = pausing.after(outcome, room, audio);
            if playing == ScriptValue::Bool(false) {
                next is AskingEncoding
            } else {
                next == Phase::AskingPlaying { length }
            }
        }),
{
}

/// A render that asked whether the audio is still missing goes on if and only if the page said that
/// it is not; otherwise it asks again.
pub proof fn law_waits_for_the_audio(
    value: ScriptValue,
    outcome: Outcome,
    room: bool,
    audio: Option<Seq<u8>>,
)
    ensures
        ({
            let asked = Phase::AskingEncoding.after(Outcome::Value(value), room, audio);
            let next = asked.after(outcome, room, audio);
            if value == ScriptValue::Bool(false) {
                next is AskingResult
            } else {
                next is AskingEncoding
            }
        }),
{
}

/// The text that the page gives for the audio becomes a recording if and only if it is the base64
/// of some bytes.
pub proof fn law_writes_only_base64(text: String, room: bool)
    ensures
        ({
            let outcome = Outcome::Value(ScriptValue::Text(text));
            let next = Phase::AskingResult.after(outcome, room, audio_of(outcome));
            &&& next is Writing <==> exists|data: Seq<u8>|
                #[trigger] base64_text(data) == text@
            &&& !(next is Writing) ==> next == Phase::Failed(RenderError::DriverFailure)
        }),
{
}

/// A render is shown as initializing until it knows the length of the song, as rendering while the
/// song plays, as encoding until its recording is written, as converting during the conversion, and
/// as complete from then on.
pub proof fn law_status_of_a_phase(phase: Phase)
    ensures
        phase is Failed <==> phase.status() is None,
        phase.status() matches Some(status) ==> status == if stage(phase) == 0 {
            RenderStatus::Queued
        } else if stage(phase) < stage(Phase::Settling { length: 0 }) {
            RenderStatus::Initializing
        } else if stage(phase) < stage(Phase::AskingEncoding) {
            RenderStatus::Rendering
        } else if stage(phase) < stage(Phase::Converting) {
            RenderStatus::Encoding
        } else if phase is Converting {
            RenderStatus::Converting
        } else {
            RenderStatus::Complete
        },
{
}

/// A step records the status of the phase it leads to, unless the render failed: then the status
/// stays.
pub proof fn law_step_records_status(
    service: ServiceView,
    job: JobView,
    outcome: Outcome,
    audio: Option<Seq<u8>>,
)
    requires
        job.phase.status() matches Some(status) ==> service.states[job.id].status == status,
    ensures
        ({
            let next = job.after(outcome, service.has_room(), audio).phase;
            let after = job.service_after(outcome, next, service);
            &&& after.states.contains_key(job.id)
            &&& !(next is Failed) ==> next.status() == Some(after.states[job.id].status)
            &&& next is Failed ==> after.states[job.id].status == service.states[job.id].status
        }),
{
}

/// A render pauses for a fifth of a second until the song plays, and for half a second from then
/// on; a watch reports as often as the song is looked at.
pub proof fn law_pauses(job: JobView, audio: Option<Seq<u8>>)
    ensures
        job.action(audio) matches ActionView::Pause(millis) ==> millis == if stage(job.phase)
            < stage(Phase::Settling { length: 0 }) {
            200nat
        } else {
            500nat
        },
        job.action(audio) is Pause <==> job.phase is Queued || job.phase is WarmingUp || job.phase
            is AwaitingStart || job.phase is Settling || job.phase is AwaitingEnd || job.phase
            is AwaitingEncoding,
        job.phase is AwaitingEnd ==> job.action(audio) == ActionView::Pause(POLL_MILLIS as nat),
{
}

/// Which script a render runs depends on its phase alone, but for the one that loads its notes.
pub proof fn law_scripts(job: JobView, audio: Option<Seq<u8>>)
    ensures
        job.action(audio) matches ActionView::Execute(script) ==> match job.phase {
            Phase::Loading => script == job.load,
            Phase::Patching => script == OVERRIDE_EXPORT@,
            Phase::Arming => script == START_RENDER@,
            Phase::AskingStarted => script == ASK_STARTED@,
            Phase::AskingLength => script == ASK_LENGTH@,
            Phase::AskingPlaying { .. } => script == ASK_PLAYING@,
            Phase::AskingTime { .. } => script == ASK_TIME@,
            Phase::AskingEncoding => script == ASK_ENCODING@,
            _ => job.phase is AskingResult && script == ASK_RESULT@,
        },
        stage(Phase::Loading) <= stage(job.phase) <= stage(Phase::AskingStarted)
            ==> job.action(audio) is Execute,
        job.phase is AskingLength || job.phase is AskingPlaying || job.phase is AskingTime
            || job.phase is AskingEncoding || job.phase is AskingResult ==> job.action(audio)
            is Execute,
{
}

/// What is left of a render's work, in its order: the driver and the session are started at the
/// beginning and ended at the end, and the render ends with success if and only if it finished.
pub proof fn law_work_of_a_phase(job: JobView, audio: Option<Seq<u8>>)
    ensures
        job.phase is StartingDriver <==> job.action(audio) is StartDriver,
        job.phase is Connecting <==> job.action(audio) is Connect,
        job.phase matches Phase::Connecting { port } ==> {
            &&& job.action(audio) matches ActionView::Connect { port: named, .. }
            &&& named == port
        },
        job.phase is Measuring <==> job.action(audio) is Measure,
        job.phase is Writing <==> job.action(audio) is Write,
        job.phase is Converting <==> job.action(audio) is Convert,
        job.phase is Closing <==> job.action(audio) is Close,
        job.phase is StoppingDriver <==> job.action(audio) is StopDriver,
        job.phase is RemovingProfile <==> job.action(audio) is RemoveProfile,
        job.phase is Finished <==> job.action(audio) == ActionView::Finish(Ok(())),
        job.phase matches Phase::Failed(error) ==> job.action(audio) == ActionView::Finish(
            Err(error),
        ),
        job.action(audio) is Finish <==> job.phase is Finished || job.phase is Failed,
{
}

/// A render takes one slot when it leaves the queue, gives one back when it ends, and otherwise
/// leaves the slots alone.
pub proof fn law_slots(
    service: ServiceView,
    job: JobView,
    outcome: Outcome,
    audio: Option<Seq<u8>>,
)
    requires
        service.inv(),
        at_work(job.phase) ==> service.running > 0,
    ensures
        ({
            let next = job.after(outcome, service.has_room(), audio).phase;
            let after = job.service_after(outcome, next, service);
            &&& after.running - service.running == (if at_work(next) {
                1int
            } else {
                0
            }) - (if at_work(job.phase) {
                1int
            } else {
                0
            })
            &&& job.phase is Queued ==> (at_work(next) <==> service.running < service.limit)
            &&& after.limit == service.limit
        }),
{
}

/// A render that is given up has ended, and no longer holds a slot; what clients see of it, and of
/// every other render, stays. One that had ended stays as it ended.
pub proof fn law_given_up(service: ServiceView, job: JobView)
    requires
        at_work(job.phase) ==> service.running > 0,
    ensures
        ({
            let after = job.slots_after(job.abandoned().phase, service);
            &&& job.abandoned().phase is Finished || job.abandoned().phase is Failed
            &&& job.phase is Finished || job.phase is Failed ==> job.abandoned() == job
            &&& job.abandoned().phase is Finished ==> job.phase is Finished
            &&& job.abandoned().id == job.id
            &&& after.states == service.states
            &&& after.limit == service.limit
            &&& after.running == service.running - (if at_work(job.phase) {
                1int
            } else {
                0
            })
        }),
{
}

/// Recording the state of a render is seen when it is read, and changes nothing else.
pub proof fn law_records(service: ServiceView, id: u32, state: StateView, other: u32)
    ensures
        service.with_state(id, state).states.contains_key(id),
        service.with_state(id, state).states[id] == state,
        other != id ==> service.with_state(id, state).states.contains_key(other)
            == service.states.contains_key(other),
        other != id ==> service.with_state(id, state).states[other] == service.states[other],
        service.with_state(id, state).running == service.running,
        service.with_state(id, state).limit == service.limit,
{
}

/// A watch that has not reported completion reports what is recorded of the render, its progress
/// included; or, if nothing is, an error and no progress. It has reported completion from the
/// first report that says so.
pub proof fn law_watch_reports_the_records(service: ServiceView, poll: PollView)
    requires
        !poll.complete,
    ensures
        service.states.contains_key(poll.id) ==> poll.report(service).progress
            == service.states[poll.id].progress && poll.report(service).status
            == service.states[poll.id].status,
        !service.states.contains_key(poll.id) ==> poll.report(service).progress == "0"@
            && poll.report(service).status == RenderStatus::Error,
        poll.after(service).complete <==> poll.report(service).status == RenderStatus::Complete,
        poll.after(service).id == poll.id,
{
}

/// What a render measured is what the next report says of its progress, until completion was
/// reported.
pub proof fn law_measured_progress_is_reported(
    service: ServiceView,
    job: JobView,
    fraction: String,
    audio: Option<Seq<u8>>,
    poll: PollView,
)
    requires
        job.phase is Measuring,
        poll.id == job.id,
        !poll.complete,
    ensures
        ({
            let outcome = Outcome::Fraction(fraction);
            let next = job.after(outcome, service.has_room(), audio).phase;
            poll.report(job.service_after(outcome, next, service)).progress == fraction@
        }),
{
}

/// A search for a free port ends with the port last tried if and only if that port is free, whatever
/// is drawn; else the port tried next is the lower half of the number drawn.
pub proof fn law_port_step(tried: Option<(u16, bool)>, random: u32, port: u16)
    ensures
        port_step(tried, random) == PortSearch::Found(port) <==> tried == Some((port, true)),
        port_step(tried, random) matches PortSearch::Try(next) ==> next == random % 0x10000,
{
}

} // verus!
