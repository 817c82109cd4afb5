//! What holds of the service as a whole.

use crate::args::ArgsView;
use crate::audio::{base64_text, law_base64_round_trip};
use crate::command::CommandView;
use crate::driver::{driver_session, port_step, PortSearch};
use crate::files::{conversion, export_path, AudioFormat};
use crate::poll::{event_text, PollView};
use crate::render::{audio_of, ActionView, JobView, Outcome, Phase, ScriptValue};
use crate::sequence::{js_array, js_elements, load_script, sequence_address};
use crate::service::ServiceView;
use crate::start::{launches, service_after_start, start_action, StartActionView, StartEvent};
use crate::status::{RenderError, RenderStatus, StateView};
use crate::text::{
    decimal, is_digit, law_decimal_injective, law_decimal_reads_back, lemma_decimal_digits, number,
};
use vstd::prelude::*;

verus! {

/// The texts before and after a separator are known from the whole, where the separator does
/// not occur in the text before it.
proof fn lemma_split_at_separator(
    before1: Seq<char>,
    after1: Seq<char>,
    before2: Seq<char>,
    after2: Seq<char>,
    separator: char,
)
    requires
        before1.push(separator) + after1 == before2.push(separator) + after2,
        !before1.contains(separator),
        !before2.contains(separator),
    ensures
        before1 == before2,
        after1 == after2,
{
    let whole1 = before1.push(separator) + after1;
    let whole2 = before2.push(separator) + after2;
    if before1.len() < before2.len() {
        assert(whole2[before1.len() as int] == before2[before1.len() as int]);
        assert(whole1[before1.len() as int] == separator);
        assert(false);
    }
    if before2.len() < before1.len() {
        assert(whole1[before2.len() as int] == before1[before2.len() as int]);
        assert(whole2[before2.len() as int] == separator);
        assert(false);
    }
    assert forall|i: int| 0 <= i < before1.len() implies before1[i] == before2[i] by {
        assert(whole1[i] == before1[i]);
        assert(whole2[i] == before2[i]);
    }
    assert(before1 =~= before2);
    assert(after1 =~= whole1.skip(before1.len() as int + 1));
    assert(after2 =~= whole2.skip(before2.len() as int + 1));
}

/// The decimal text of a number holds no other characters than digits.
proof fn lemma_decimal_without(n: nat, c: char)
    requires
        !is_digit(c),
    ensures
        !decimal(n).contains(c),
{
    lemma_decimal_digits(n);
}

/// Different statuses have different numbers, all of them from zero to six.
pub proof fn law_status_ids_distinct(a: RenderStatus, b: RenderStatus)
    ensures
        a.id() == b.id() ==> a == b,
        a.id() <= 6,
{
}

/// An event tells the state that it reports: different states make different events.
pub proof fn law_event_tells_state(a: StateView, b: StateView)
    requires
        event_text(a) == event_text(b),
    ensures
        a == b,
{
    reveal_strlit("|");
    lemma_decimal_without(a.status.id(), '|');
    lemma_decimal_without(b.status.id(), '|');
    assert(event_text(a) =~= decimal(a.status.id()).push('|') + a.progress);
    assert(event_text(b) =~= decimal(b.status.id()).push('|') + b.progress);
    lemma_split_at_separator(
        decimal(a.status.id()),
        a.progress,
        decimal(b.status.id()),
        b.progress,
        '|',
    );
    law_decimal_injective(a.status.id(), b.status.id());
}

/// An event reads back as what it reports: what stands before its first bar is the number of the
/// status, and what follows is the progress. There is no other bar, if the progress holds none.
pub proof fn law_event_reads_back(state: StateView)
    ensures
        ({
            let text = event_text(state);
            let bar = decimal(state.status.id()).len() as int;
            &&& text[bar] == '|'
            &&& number(text.take(bar)) == state.status.id()
            &&& text.skip(bar + 1) == state.progress
            &&& forall|i: int| 0 <= i < bar ==> text[i] != '|'
            &&& !state.progress.contains('|') ==> forall|i: int|
                0 <= i < text.len() && i != bar ==> text[i] != '|'
        }),
{
    reveal_strlit("|");
    let text = event_text(state);
    let id = decimal(state.status.id());
    let bar = id.len() as int;
    lemma_decimal_digits(state.status.id());
    law_decimal_reads_back(state.status.id());
    assert(text.take(bar) =~= id);
    assert(text.skip(bar + 1) =~= state.progress);
    assert forall|i: int| 0 <= i < bar implies text[i] != '|' by {
        assert(text[i] == id[i]);
    }
    assert forall|i: int|
        !state.progress.contains('|') && 0 <= i < text.len() && i != bar implies text[i] != '|' by {
        if i > bar {
            assert(text[i] == state.progress[i - bar - 1]);
        }
    }
}

/// The name of a browser profile reads as the number that was drawn, the browser is told to keep
/// its profile under that name, and different draws make different profiles.
pub proof fn law_profiles_distinct(
    instance: Seq<char>,
    port: u16,
    profiles_dir: Seq<char>,
    download_dir: Seq<char>,
    a: u64,
    b: u64,
)
    ensures
        ({
            let first = driver_session(instance, port, profiles_dir, download_dir, a);
            let second = driver_session(instance, port, profiles_dir, download_dir, b);
            &&& number(first.profile_id) == a
            &&& first.capability.args[0] == "user-data-dir="@ + (profiles_dir + first.profile_id)
            &&& a != b ==> first.profile_id != second.profile_id
            &&& a != b ==> first.capability.args[0] != second.capability.args[0]
        }),
{
    let first = driver_session(instance, port, profiles_dir, download_dir, a);
    let second = driver_session(instance, port, profiles_dir, download_dir, b);
    law_decimal_reads_back(a as nat);
    law_decimal_reads_back(b as nat);
    let prefix = ("user-data-dir="@ + profiles_dir).len() as int;
    assert(first.profile_id =~= first.capability.args[0].skip(prefix));
    assert(second.profile_id =~= second.capability.args[0].skip(prefix));
}

/// No two renders share a file, and no render keeps two formats in one file.
pub proof fn law_export_paths_distinct(
    id_a: u32,
    format_a: AudioFormat,
    id_b: u32,
    format_b: AudioFormat,
)
    requires
        export_path(id_a, format_a) == export_path(id_b, format_b),
    ensures
        id_a == id_b,
        format_a == format_b,
{
    reveal_strlit("exports/");
    reveal_strlit(".wav");
    reveal_strlit(".ogg");
    reveal_strlit(".mp3");
    let a = export_path(id_a, format_a).skip(8);
    let b = export_path(id_b, format_b).skip(8);
    let rest_a = format_a.extension().skip(1);
    let rest_b = format_b.extension().skip(1);
    lemma_decimal_without(id_a as nat, '.');
    lemma_decimal_without(id_b as nat, '.');
    assert(a =~= decimal(id_a as nat).push('.') + rest_a);
    assert(b =~= decimal(id_b as nat).push('.') + rest_b);
    lemma_split_at_separator(decimal(id_a as nat), rest_a, decimal(id_b as nat), rest_b, '.');
    law_decimal_injective(id_a as nat, id_b as nat);
    assert(rest_a[0] == rest_b[0]);
}

/// The conversion of a render reads the recording and leaves the other two formats, in the very
/// files where the render is looked for; it names no file of another render.
pub proof fn law_conversion_fills_exports(id: u32, other: u32, format: AudioFormat)
    ensures
        conversion(id)[1] == "-i"@,
        conversion(id)[2] == export_path(id, AudioFormat::Wav),
        conversion(id).contains(export_path(id, format)),
        conversion(id).contains(export_path(other, format)) ==> other == id,
{
    let path = export_path(id, format);
    match format {
        AudioFormat::Wav => assert(conversion(id)[2] == path),
        AudioFormat::Ogg => assert(conversion(id)[3] == path),
        AudioFormat::Mp3 => assert(conversion(id)[6] == path),
    }
    if conversion(id).contains(export_path(other, format)) {
        let i = conversion(id).index_of(export_path(other, format));
        reveal_strlit("exports/");
        reveal_strlit("-y");
        reveal_strlit("-i");
        reveal_strlit("-q:a");
        reveal_strlit("0");
        assert(export_path(other, format)[0] == 'e');
        if i == 2 {
            law_export_paths_distinct(id, AudioFormat::Wav, other, format);
        } else if i == 3 {
            law_export_paths_distinct(id, AudioFormat::Ogg, other, format);
        } else if i == 6 {
            law_export_paths_distinct(id, AudioFormat::Mp3, other, format);
        }
    }
}

/// Different sequences are fetched from different addresses.
pub proof fn law_addresses_distinct(origin: Seq<char>, a: u32, b: u32)
    requires
        sequence_address(origin, a) == sequence_address(origin, b),
    ensures
        a == b,
{
    let prefix = origin + "/app/api/get_proto.php?id="@;
    assert(decimal(a as nat) =~= sequence_address(origin, a).skip(prefix.len() as int));
    assert(decimal(b as nat) =~= sequence_address(origin, b).skip(prefix.len() as int));
    law_decimal_injective(a as nat, b as nat);
}

/// The elements of an array literal are empty or end with a comma.
proof fn lemma_elements_end(data: Seq<u8>)
    ensures
        data.len() == 0 ==> js_elements(data).len() == 0,
        data.len() > 0 ==> js_elements(data).len() > 0 && js_elements(data).last() == ',',
{
    reveal_strlit(",");
}

proof fn lemma_elements_injective(a: Seq<u8>, b: Seq<u8>)
    requires
        js_elements(a) == js_elements(b),
    ensures
        a == b,
    decreases a.len(),
{
    reveal_strlit(",");
    lemma_elements_end(a);
    lemma_elements_end(b);
    if a.len() > 0 && b.len() > 0 {
        let text = js_elements(a);
        let front_a = js_elements(a.drop_last());
        let front_b = js_elements(b.drop_last());
        let number_a = decimal(a.last() as nat);
        let number_b = decimal(b.last() as nat);
        lemma_elements_end(a.drop_last());
        lemma_elements_end(b.drop_last());
        lemma_decimal_digits(a.last() as nat);
        lemma_decimal_digits(b.last() as nat);
        assert(text == front_a + number_a + ","@);
        assert(text == front_b + number_b + ","@);
        if front_a.len() < front_b.len() {
            let k = front_b.len() as int - 1;
            assert(text[k] == front_b[k]);
            assert(text[k] == number_a[k - front_a.len()]);
            assert(false);
        }
        if front_b.len() < front_a.len() {
            let k = front_a.len() as int - 1;
            assert(text[k] == front_a[k]);
            assert(text[k] == number_b[k - front_b.len()]);
            assert(false);
        }
        assert(front_a =~= text.take(front_a.len() as int));
        assert(front_b =~= text.take(front_b.len() as int));
        assert(number_a =~= text.subrange(front_a.len() as int, text.len() - 1));
        assert(number_b =~= text.subrange(front_b.len() as int, text.len() - 1));
        lemma_elements_injective(a.drop_last(), b.drop_last());
        law_decimal_injective(a.last() as nat, b.last() as nat);
        assert(a =~= a.drop_last().push(a.last()));
        assert(b =~= b.drop_last().push(b.last()));
    } else {
        assert(a =~= b);
    }
}

/// The script that loads a sequence into the page tells all of its bytes: different sequences
/// make different scripts.
pub proof fn law_load_script_tells_data(a: Seq<u8>, b: Seq<u8>)
    requires
        load_script(a) == load_script(b),
    ensures
        a == b,
{
    let open = "loadDataProto("@.len() as int;
    let close = ")"@.len() as int;
    let text = load_script(a);
    assert(js_array(a) =~= text.subrange(open, text.len() - close));
    assert(js_array(b) =~= text.subrange(open, text.len() - close));
    let array = js_array(a);
    let from = "new Uint8Array(["@.len() as int;
    let until = array.len() - "])"@.len();
    assert(js_elements(a) =~= array.subrange(from, until));
    assert(js_elements(b) =~= array.subrange(from, until));
    lemma_elements_injective(a, b);
}

/// The place of a render in the service: the service knows the render, and shows the status of
/// its phase.
pub open spec fn shows(service: ServiceView, job: JobView) -> bool {
    &&& service.states.contains_key(job.id)
    &&& job.phase.status() matches Some(status) ==> service.states[job.id].status == status
}

/// A step of a render keeps the service showing the render's status, and that status never goes
/// back to an earlier one.
pub proof fn law_status_advances(
    service: ServiceView,
    job: JobView,
    outcome: Outcome,
    audio: Option<Seq<u8>>,
)
    requires
        shows(service, job),
    ensures
        ({
            let next = job.after(outcome, service.has_room(), audio);
            let after = job.service_after(outcome, next.phase, service);
            &&& shows(after, next)
            &&& service.states[job.id].status.id() <= after.states[job.id].status.id()
        }),
{
}

/// A step of a render changes no other render's state, forgets no render, and leaves the number
/// of slots as it is.
pub proof fn law_step_leaves_others(
    service: ServiceView,
    job: JobView,
    outcome: Outcome,
    next: Phase,
    other: u32,
)
    requires
        other != job.id,
    ensures
        ({
            let after = job.service_after(outcome, next, service);
            &&& after.states.contains_key(other) == service.states.contains_key(other)
            &&& after.states[other] == service.states[other]
            &&& after.states.contains_key(job.id)
            &&& after.limit == service.limit
        }),
{
}

/// A render that has ended stays as it is, and so do the records of the service, whatever is
/// reported to it.
pub proof fn law_end_is_final(
    service: ServiceView,
    job: JobView,
    outcome: Outcome,
    audio: Option<Seq<u8>>,
)
    requires
        service.states.contains_key(job.id),
        job.phase is Finished || job.phase is Failed,
    ensures
        job.after(outcome, service.has_room(), audio) == job,
        job.service_after(outcome, job.phase, service) == service,
{
    assert(job.service_after(outcome, job.phase, service) =~= service);
}

/// A render fails with a file error if and only if its recording could not be written; every
/// other failure is one of the driver.
pub proof fn law_kinds_of_failure(
    phase: Phase,
    outcome: Outcome,
    room: bool,
    audio: Option<Seq<u8>>,
)
    requires
        !(phase is Failed),
    ensures
        phase.after(outcome, room, audio) == Phase::Failed(RenderError::FileError) <==> phase
            is Writing && !(outcome is Done),
        phase.after(outcome, room, audio) matches Phase::Failed(error) ==> error
            == RenderError::FileError || error == RenderError::DriverFailure,
{
}

/// A render waits if and only if every slot is taken.
pub proof fn law_waits_only_when_full(service: ServiceView, job: JobView, outcome: Outcome)
    requires
        job.phase is Queued,
        service.inv(),
    ensures
        job.after(outcome, service.has_room(), None).phase is Queued <==> service.running
            == service.limit,
{
}

/// Whether a render in this phase is being worked on: it has left the queue and has not ended.
pub open spec fn at_work(phase: Phase) -> bool {
    !(phase is Queued || phase is Finished || phase is Failed)
}

/// The number of renders that are being worked on, among renders in these phases.
pub open spec fn slot_holders(phases: Seq<Phase>) -> nat
    decreases phases.len(),
{
    if phases.len() == 0 {
        0
    } else {
        slot_holders(phases.drop_last()) + if at_work(phases.last()) {
            1nat
        } else {
            0nat
        }
    }
}

proof fn lemma_slot_holders_update(phases: Seq<Phase>, i: int, next: Phase)
    requires
        0 <= i < phases.len(),
    ensures
        slot_holders(phases.update(i, next)) == slot_holders(phases) + (if at_work(next) {
            1int
        } else {
            0
        }) - (if at_work(phases[i]) {
            1int
        } else {
            0
        }),
    decreases phases.len(),
{
    let updated = phases.update(i, next);
    if i == phases.len() - 1 {
        assert(updated.drop_last() =~= phases.drop_last());
    } else {
        assert(updated.drop_last() =~= phases.drop_last().update(i, next));
        lemma_slot_holders_update(phases.drop_last(), i, next);
    }
}

/// Renders run in parallel no more than the settings allow: the slots taken are those of the
/// renders that are being worked on, and there are as many slots as the settings say. This is so
/// at first, and stays so when a render is taken up, makes a step, or is given up.
pub proof fn law_parallel_renders(
    args: ArgsView,
    service: ServiceView,
    phases: Seq<Phase>,
    i: int,
    job: JobView,
    outcome: Outcome,
    audio: Option<Seq<u8>>,
    id: u32,
    event: StartEvent,
)
    requires
        service.inv(),
        service.limit == args.renders,
        slot_holders(phases) == service.running,
        0 <= i < phases.len(),
        job.phase == phases[i],
    ensures
        slot_holders(Seq::empty()) == ServiceView::initial(args).running,
        ServiceView::initial(args).limit == args.renders,
        ({
            let after = service_after_start(service, id, event);
            slot_holders(phases.push(Phase::Queued)) == after.running <= after.limit
                == args.renders
        }),
        ({
            let next = job.after(outcome, service.has_room(), audio).phase;
            let after = job.service_after(outcome, next, service);
            slot_holders(phases.update(i, next)) == after.running <= after.limit == args.renders
        }),
        ({
            let next = job.abandoned().phase;
            let after = job.slots_after(next, service);
            slot_holders(phases.update(i, next)) == after.running <= after.limit == args.renders
        }),
{
    assert(phases.push(Phase::Queued).drop_last() =~= phases);
    lemma_slot_holders_update(
        phases,
        i,
        job.after(outcome, service.has_room(), audio).phase,
    );
    lemma_slot_holders_update(phases, i, job.abandoned().phase);
}

/// What a render is told at one of its steps.
pub struct Turn {
    pub outcome: Outcome,
    pub room: bool,
    pub audio: Option<Seq<u8>>,
}

/// The phase of a render after all of `turns`, from its beginning.
pub open spec fn phase_after(turns: Seq<Turn>) -> Phase
    decreases turns.len(),
{
    if turns.len() == 0 {
        Phase::Queued
    } else {
        phase_after(turns.drop_last()).after(
            turns.last().outcome,
            turns.last().room,
            turns.last().audio,
        )
    }
}

/// As a render goes on, its status never goes back to an earlier one.
pub proof fn law_run_status_advances(turns: Seq<Turn>, i: int)
    requires
        0 <= i <= turns.len(),
    ensures
        phase_after(turns).status() matches Some(later) ==> {
            &&& phase_after(turns.take(i)).status() matches Some(earlier)
            &&& earlier.id() <= later.id()
        },
    decreases turns.len(),
{
    if i == turns.len() {
        assert(turns.take(i) =~= turns);
    } else {
        law_run_status_advances(turns.drop_last(), i);
        assert(turns.drop_last().take(i) =~= turns.take(i));
    }
}

/// The statuses that are recorded of a render, in their order.
pub open spec fn status_order() -> Seq<RenderStatus> {
    seq![
        RenderStatus::Initializing,
        RenderStatus::Rendering,
        RenderStatus::Encoding,
        RenderStatus::Converting,
        RenderStatus::Complete,
    ]
}

/// The statuses that were recorded of a render during `turns`.
pub open spec fn statuses_written(turns: Seq<Turn>) -> Seq<RenderStatus>
    decreases turns.len(),
{
    if turns.len() == 0 {
        Seq::empty()
    } else {
        let before = turns.drop_last();
        match phase_after(before).status_written(phase_after(turns)) {
            Some(status) => statuses_written(before).push(status),
            None => statuses_written(before),
        }
    }
}

/// The statuses that are recorded of a render come in their order, none left out and none twice;
/// as long as the render did not fail, they reach up to the status that it shows.
pub proof fn law_statuses_in_order(turns: Seq<Turn>)
    ensures
        statuses_written(turns).is_prefix_of(status_order()),
        phase_after(turns).status() matches Some(status) ==> statuses_written(turns).len()
            == status.id(),
    decreases turns.len(),
{
    if turns.len() > 0 {
        let before = turns.drop_last();
        law_statuses_in_order(before);
        let phase = phase_after(before);
        if let Some(status) = phase.status_written(phase_after(turns)) {
            assert(status_order()[statuses_written(before).len() as int] == status);
        }
        assert(statuses_written(turns) =~= status_order().take(
            statuses_written(turns).len() as int,
        ));
    }
}

/// How many phases a render has behind it at least.
pub open spec fn stage(phase: Phase) -> nat {
    match phase {
        Phase::Queued => 0,
        Phase::StartingDriver => 1,
        Phase::WarmingUp { .. } => 2,
        Phase::Connecting { .. } => 3,
        Phase::Loading => 4,
        Phase::Patching => 5,
        Phase::Arming => 6,
        Phase::AskingStarted => 7,
        Phase::AwaitingStart { .. } => 8,
        Phase::AskingLength => 9,
        Phase::Settling { .. } => 10,
        Phase::AskingPlaying { .. } => 11,
        Phase::AskingTime { .. } => 12,
        Phase::Measuring { .. } => 13,
        Phase::AwaitingEnd { .. } => 14,
        Phase::AskingEncoding => 15,
        Phase::AwaitingEncoding { .. } => 16,
        Phase::AskingResult => 17,
        Phase::Writing => 18,
        Phase::Converting => 19,
        Phase::Closing => 20,
        Phase::StoppingDriver => 21,
        Phase::RemovingProfile => 22,
        Phase::Finished => 23,
        Phase::Failed(_) => 23,
    }
}

/// Every step takes a render forward, except where it waits: for a slot, or for the page to say
/// that the export has started, that the song has ended, or that the audio is encoded.
pub proof fn law_only_waiting_repeats(
    phase: Phase,
    outcome: Outcome,
    room: bool,
    audio: Option<Seq<u8>>,
)
    requires
        !(phase is Finished || phase is Failed),
        phase is Queued ==> room,
        phase is AwaitingStart ==> phase->started,
        phase is AwaitingEnd ==> !phase->AwaitingEnd_playing,
        phase is AwaitingEncoding ==> !phase->encoding,
    ensures
        stage(phase) < stage(phase.after(outcome, room, audio)),
{
}

/// A render that is shown as converting has written its recording.
pub proof fn law_converting_means_written(turns: Seq<Turn>)
    requires
        phase_after(turns).status() == Some(RenderStatus::Converting) || phase_after(turns).status()
            == Some(RenderStatus::Complete),
    ensures
        exists|i: int|
            0 <= i < turns.len() && #[trigger] phase_after(turns.take(i)) is Writing
                && turns[i].outcome is Done,
    decreases turns.len(),
{
    let before = turns.drop_last();
    if phase_after(before).status() == Some(RenderStatus::Converting) || phase_after(
        before,
    ).status() == Some(RenderStatus::Complete) {
        law_converting_means_written(before);
        let i = choose|i: int|
            0 <= i < before.len() && #[trigger] phase_after(before.take(i)) is Writing
                && before[i].outcome is Done;
        assert(before.take(i) =~= turns.take(i));
        assert(phase_after(turns.take(i)) is Writing);
    } else {
        assert(turns.take(turns.len() - 1) =~= before);
        assert(phase_after(turns.take(turns.len() - 1)) is Writing);
    }
}

/// A render that is shown as complete has written its recording, and then run the conversion to
/// its end.
pub proof fn law_complete_means_converted(turns: Seq<Turn>)
    requires
        phase_after(turns).status() == Some(RenderStatus::Complete),
    ensures
        exists|i: int, j: int|
            0 <= i < j < turns.len() && #[trigger] phase_after(turns.take(i)) is Writing
                && turns[i].outcome is Done && #[trigger] phase_after(turns.take(j)) is Converting
                && turns[j].outcome is Done,
    decreases turns.len(),
{
    let before = turns.drop_last();
    assert(turns.take(turns.len() - 1) =~= before);
    if phase_after(before).status() == Some(RenderStatus::Complete) {
        law_complete_means_converted(before);
        let (i, j) = choose|i: int, j: int|
            0 <= i < j < before.len() && #[trigger] phase_after(before.take(i)) is Writing
                && before[i].outcome is Done && #[trigger] phase_after(before.take(j))
                is Converting && before[j].outcome is Done;
        assert(before.take(i) =~= turns.take(i));
        assert(before.take(j) =~= turns.take(j));
        assert(phase_after(turns.take(i)) is Writing);
        assert(phase_after(turns.take(j)) is Converting);
    } else {
        assert(phase_after(before) is Converting);
        law_converting_means_written(before);
        let i = choose|i: int|
            0 <= i < before.len() && #[trigger] phase_after(before.take(i)) is Writing
                && before[i].outcome is Done;
        assert(before.take(i) =~= turns.take(i));
        assert(phase_after(turns.take(i)) is Writing);
        assert(phase_after(turns.take(turns.len() - 1)) is Converting);
    }
}

/// A request is answered with one of three statuses: that of success if its render is taken up or
/// was before, that of a missing sequence if its notes were not to be had, and that of a render
/// found if all of its files are there. Before it is known whether the notes are to be had, it
/// is not answered.
pub proof fn law_answers(service: ServiceView, args: ArgsView, id: u32, event: StartEvent)
    ensures
        start_action(service, args, id, event).answer() == match event {
            StartEvent::Requested { exists: true } => Some(302u16),
            StartEvent::Requested { exists: false } => None,
            StartEvent::Fetched(None) => Some(404u16),
            StartEvent::Fetched(Some(_)) => Some(200u16),
        },
{
}

/// A request is answered that the render is on its way, without another render of the sequence,
/// once one was taken up; and no request and no step of a render makes the service forget this.
pub proof fn law_taken_up_once(
    service: ServiceView,
    args: ArgsView,
    id: u32,
    event: StartEvent,
    other: u32,
    job: JobView,
    outcome: Outcome,
    next: Phase,
)
    ensures
        launches(service, id, event) ==> service_after_start(
            service,
            id,
            event,
        ).states.contains_key(id),
        service.states.contains_key(id) ==> {
            &&& !(start_action(service, args, id, event) is Launch)
            &&& service_after_start(service, id, event) == service
            &&& service_after_start(service, other, event).states.contains_key(id)
            &&& job.service_after(outcome, next, service).states.contains_key(id)
        },
{
}

/// A render that is taken up is shown as queued, with nothing played yet.
pub proof fn law_taken_up_is_queued(
    service: ServiceView,
    args: ArgsView,
    id: u32,
    event: StartEvent,
)
    requires
        launches(service, id, event),
    ensures
        ({
            let after = service_after_start(service, id, event);
            &&& start_action(service, args, id, event) matches StartActionView::Launch(job)
            &&& job.id == id
            &&& shows(after, job)
            &&& after.states[id] == StateView { progress: "0"@, status: RenderStatus::Queued }
        }),
{
}

/// A watch reports the status of the phase that the render is in, until it has reported that
/// the render is complete.
pub proof fn law_poll_reports_phase(service: ServiceView, job: JobView, poll: PollView)
    requires
        shows(service, job),
        poll.id == job.id,
        !poll.complete,
    ensures
        job.phase.status() matches Some(status) ==> poll.report(service).status == status,
{
}

/// After a watch has reported that the render is complete, it goes on to report that the render
/// is complete and fully played, whatever the service says.
pub proof fn law_poll_stays_complete(service: ServiceView, poll: PollView, later: ServiceView)
    requires
        poll.report(service).status == RenderStatus::Complete,
    ensures
        poll.after(service).report(later) == (StateView {
            progress: "1"@,
            status: RenderStatus::Complete,
        }),
        poll.after(service).after(later) == poll.after(service),
{
}

/// When the page returns the base64 of some audio, the render writes that very audio, to where
/// the conversion that follows looks for it.
pub proof fn law_recording_is_the_audio(job: JobView, text: String, audio: Seq<u8>, room: bool)
    requires
        job.phase is AskingResult,
        text@ == base64_text(audio),
    ensures
        ({
            let outcome = Outcome::Value(ScriptValue::Text(text));
            let path = export_path(job.id, AudioFormat::Wav);
            let writing = job.after(outcome, room, audio_of(outcome));
            let converting = writing.after(Outcome::Done, room, audio_of(Outcome::Done));
            &&& writing.action(audio_of(outcome)) == ActionView::Write { path, data: audio }
            &&& converting.action(audio_of(Outcome::Done)) == ActionView::Convert(
                CommandView { program: job.args.ffmpeg_executable, args: conversion(job.id) },
            )
            &&& conversion(job.id)[2] == path
        }),
{
    law_base64_round_trip(audio);
}

/// A render after all of `turns`, if it was `job` before.
pub open spec fn job_after(job: JobView, turns: Seq<Turn>) -> JobView
    decreases turns.len(),
{
    if turns.len() == 0 {
        job
    } else {
        job_after(job, turns.drop_last()).after(
            turns.last().outcome,
            turns.last().room,
            turns.last().audio,
        )
    }
}

/// A render that waits for its driver, or connects to it, does so on the port that the driver was
/// started on.
pub proof fn law_connects_to_its_driver(job: JobView, turns: Seq<Turn>, port: u16)
    requires
        job.phase is Queued,
        job_after(job, turns).phase == (Phase::WarmingUp { port }) || job_after(job, turns).phase
            == (Phase::Connecting { port }),
    ensures
        exists|i: int|
            0 <= i < turns.len() && #[trigger] job_after(job, turns.take(i)).phase
                is StartingDriver && turns[i].outcome == Outcome::Started(port),
    decreases turns.len(),
{
    let before = turns.drop_last();
    assert(turns.take(turns.len() - 1) =~= before);
    if job_after(job, before).phase is StartingDriver {
        assert(job_after(job, turns.take(turns.len() - 1)).phase is StartingDriver);
    } else {
        law_connects_to_its_driver(job, before, port);
        let i = choose|i: int|
            0 <= i < before.len() && #[trigger] job_after(job, before.take(i)).phase
                is StartingDriver && before[i].outcome == Outcome::Started(port);
        assert(before.take(i) =~= turns.take(i));
        assert(job_after(job, turns.take(i)).phase is StartingDriver);
    }
}

/// Whether `outcome` says that a session was opened under the profile `profile_id`.
pub open spec fn connected_as(outcome: Outcome, profile_id: Seq<char>) -> bool {
    match outcome {
        Outcome::Connected(name) => name@ == profile_id,
        _ => false,
    }
}

/// From the opening of its session on, a render knows the session's profile: the name it holds is
/// the one that the session was opened with. When it is done it removes that profile and no other.
pub proof fn law_removes_its_profile(job: JobView, turns: Seq<Turn>)
    requires
        job.phase is Queued,
        stage(job_after(job, turns).phase) > stage(Phase::Connecting { port: 0 }),
        !(job_after(job, turns).phase is Failed),
    ensures
        exists|i: int|
            0 <= i < turns.len() && #[trigger] job_after(job, turns.take(i)).phase is Connecting
                && connected_as(turns[i].outcome, job_after(job, turns).profile_id),
        job_after(job, turns).phase is RemovingProfile ==> job_after(job, turns).action(None)
            == (ActionView::RemoveProfile { profile_id: job_after(job, turns).profile_id }),
    decreases turns.len(),
{
    let before = turns.drop_last();
    assert(turns.take(turns.len() - 1) =~= before);
    if job_after(job, before).phase is Connecting {
        assert(job_after(job, turns.take(turns.len() - 1)).phase is Connecting);
    } else {
        law_removes_its_profile(job, before);
        let i = choose|i: int|
            0 <= i < before.len() && #[trigger] job_after(job, before.take(i)).phase is Connecting
                && connected_as(before[i].outcome, job_after(job, before).profile_id);
        assert(before.take(i) =~= turns.take(i));
        assert(job_after(job, turns.take(i)).phase is Connecting);
    }
}

/// The end of a search for a free port that goes on from `tried`, when `draws` are the numbers
/// that would be drawn and `free` tells which ports can be bound: the port found, and how many
/// numbers were drawn. There is no end if no port that is drawn is free.
pub open spec fn port_search(
    tried: Option<(u16, bool)>,
    draws: Seq<u32>,
    free: spec_fn(u16) -> bool,
) -> Option<(u16, nat)>
    decreases draws.len(),
{
    match tried {
        Some((port, true)) => Some((port, 0)),
        _ => if draws.len() == 0 {
            None
        } else {
            match port_step(tried, draws[0]) {
                PortSearch::Found(port) => Some((port, 0)),
                PortSearch::Try(port) => match port_search(
                    Some((port, free(port))),
                    draws.drop_first(),
                    free,
                ) {
                    Some((found, drawn)) => Some((found, drawn + 1)),
                    None => None,
                },
            }
        },
    }
}

/// The port found is the first of the ports drawn that is free, and no more numbers are drawn than
/// ports are tried.
pub proof fn law_first_free_port(
    tried: Option<(u16, bool)>,
    draws: Seq<u32>,
    free: spec_fn(u16) -> bool,
    first: int,
)
    requires
        !(tried matches Some((_, true))),
        0 <= first < draws.len(),
        free((draws[first] % 0x10000) as u16),
        forall|i: int| 0 <= i < first ==> !free((#[trigger] draws[i] % 0x10000) as u16),
    ensures
        port_search(tried, draws, free) == Some(
            ((draws[first] % 0x10000) as u16, (first + 1) as nat),
        ),
    decreases first,
{
    let port = (draws[0] % 0x10000) as u16;
    if first == 0 {
        assert(port_search(Some((port, true)), draws.drop_first(), free) == Some((port, 0nat)));
    } else {
        assert(!free(port));
        law_first_free_port(Some((port, false)), draws.drop_first(), free, first - 1);
    }
}

} // verus!
