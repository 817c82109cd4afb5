use bytes::Bytes;
use render_service::args::Args;
use render_service::poll::{poll_render, sse_state, RenderPoll};
use render_service::render::{render, Action, Outcome, Phase, RenderJob, ScriptValue};
use render_service::scripts::OVERRIDE_EXPORT;
use render_service::service::RenderService;
use render_service::start::{start_render, StartAction, StartEvent, FOUND, NOT_FOUND, OK};
use render_service::status::{RenderError, RenderState, RenderStatus};

fn service_with(renders: u8) -> RenderService {
    RenderService::new(&Args { renders, ..Args::default() })
}

fn launch(service: &mut RenderService, id: u32) -> RenderJob {
    let event = StartEvent::Fetched(Some(Bytes::from_static(&[1, 2])));
    let action = start_render(service, &Args::default(), id, event);
    assert_eq!(action.answer(), Some(200));
    match action {
        StartAction::Launch(job) => job,
        _ => panic!("expected a render"),
    }
}

fn status(service: &RenderService, id: u32) -> RenderStatus {
    service.state(id).unwrap().status
}

fn step(job: &mut RenderJob, service: &mut RenderService, outcome: Outcome) -> Action {
    assert!(service.contains(job.id()));
    render(job, service, outcome)
}

fn returned(value: ScriptValue) -> Outcome {
    Outcome::Value(value)
}

fn bool_value(value: bool) -> Outcome {
    returned(ScriptValue::Bool(value))
}

fn number(value: f64) -> Outcome {
    returned(ScriptValue::Number(Some(value.to_bits())))
}

fn pause(action: Action) -> u64 {
    match action {
        Action::Pause(millis) => millis,
        other => panic!("expected a pause, not {:?}", other),
    }
}

fn script(action: Action) -> String {
    match action {
        Action::Execute(script) => script,
        other => panic!("expected a script, not {:?}", other),
    }
}

fn failure(action: Action) -> RenderError {
    match action {
        Action::Finish(Err(error)) => error,
        other => panic!("expected a failure, not {:?}", other),
    }
}

/// Takes a new render to the point where the page is asked whether the export has started.
fn to_asking_started(job: &mut RenderJob, service: &mut RenderService) -> String {
    step(job, service, Outcome::Done);
    step(job, service, Outcome::Started(9515));
    step(job, service, Outcome::Done);
    step(job, service, Outcome::Connected("77".to_owned()));
    step(job, service, returned(ScriptValue::Other));
    step(job, service, returned(ScriptValue::Other));
    script(step(job, service, returned(ScriptValue::Other)))
}

/// Takes a new render to the point where the page is asked for the encoded audio.
fn to_asking_result(job: &mut RenderJob, service: &mut RenderService) -> String {
    to_asking_started(job, service);
    step(job, service, bool_value(true));
    step(job, service, Outcome::Done);
    step(job, service, number(10.0));
    step(job, service, Outcome::Done);
    step(job, service, bool_value(false));
    step(job, service, returned(ScriptValue::Other));
    step(job, service, Outcome::Done);
    step(job, service, bool_value(false));
    script(step(job, service, Outcome::Done))
}

#[test]
fn request_for_a_finished_render_is_found() {
    let mut service = service_with(1);
    let action =
        start_render(&mut service, &Args::default(), 7, StartEvent::Requested { exists: true });
    assert!(matches!(action, StartAction::Reply(302)));
    assert_eq!(action.answer(), Some(302));
    assert_eq!(FOUND, 302);
    assert!(!service.contains(7));
}

#[test]
fn request_fetches_from_the_sequence_server() {
    let mut service = service_with(1);
    let args = Args { sequence_origin: "https://notes".to_owned(), ..Args::default() };
    let action = start_render(&mut service, &args, 7, StartEvent::Requested { exists: false });
    assert_eq!(action.answer(), None);
    match action {
        StartAction::Fetch { origin } => assert_eq!(origin, "https://notes"),
        _ => panic!("expected a fetch"),
    }
    assert!(!service.contains(7));
}

#[test]
fn request_for_a_missing_sequence_is_not_found() {
    let mut service = service_with(1);
    let action = start_render(&mut service, &Args::default(), 7, StartEvent::Fetched(None));
    assert!(matches!(action, StartAction::Reply(404)));
    assert_eq!(action.answer(), Some(404));
    assert_eq!(NOT_FOUND, 404);
    assert!(!service.contains(7));
}

#[test]
fn request_queues_a_render_once() {
    let mut service = service_with(1);
    let job = launch(&mut service, 7);
    assert_eq!(job.id(), 7);
    assert_eq!(job.phase(), Phase::Queued);
    let state = service.state(7).unwrap();
    assert_eq!((state.progress.as_str(), state.status), ("0", RenderStatus::Queued));
    let again = StartEvent::Fetched(Some(Bytes::from_static(&[1, 2])));
    let action = start_render(&mut service, &Args::default(), 7, again);
    assert!(matches!(action, StartAction::Reply(200)));
    assert_eq!(action.answer(), Some(200));
    assert_eq!(OK, 200);
    assert!(!service.contains(8));
}

#[test]
fn whole_render() {
    let mut service = service_with(1);
    let service = &mut service;
    let mut job = launch(service, 7);
    let job = &mut job;
    match step(job, service, Outcome::Done) {
        Action::StartDriver { path } => assert_eq!(path, "chromedriver"),
        other => panic!("{:?}", other),
    }
    assert_eq!(status(service, 7), RenderStatus::Initializing);
    assert_eq!(pause(step(job, service, Outcome::Started(4321))), 200);
    match step(job, service, Outcome::Done) {
        Action::Connect { origin, port } => {
            assert_eq!(origin, "https://onlinesequencer.net");
            assert_eq!(port, 4321);
        }
        other => panic!("{:?}", other),
    }
    assert_eq!(
        script(step(job, service, Outcome::Connected("123456".to_owned()))),
        "loadDataProto(new Uint8Array([1,2,]))"
    );
    assert_eq!(script(step(job, service, returned(ScriptValue::Other))), OVERRIDE_EXPORT);
    assert_eq!(
        script(step(job, service, returned(ScriptValue::Other))),
        "sampleManager.addOnAllLoadedCallback(()=>{saveAudio(false);window.rdst=true});"
    );
    assert_eq!(script(step(job, service, returned(ScriptValue::Other))), "return window.rdst;");
    assert_eq!(pause(step(job, service, bool_value(true))), 200);
    assert_eq!(
        script(step(job, service, Outcome::Done)),
        "return song.notes.findLast(n => n.time).time"
    );
    assert_eq!(status(service, 7), RenderStatus::Initializing);
    assert_eq!(pause(step(job, service, number(40.0))), 500);
    assert_eq!(status(service, 7), RenderStatus::Rendering);
    assert_eq!(script(step(job, service, Outcome::Done)), "return song.playing;");
    assert_eq!(script(step(job, service, bool_value(true))), "return playTime;");
    match step(job, service, number(10.0)) {
        Action::Measure { time, length } => {
            assert_eq!(f64::from_bits(time), 10.0);
            assert_eq!(f64::from_bits(length), 40.0);
        }
        other => panic!("{:?}", other),
    }
    assert_eq!(service.state(7).unwrap().progress, "0");
    assert_eq!(pause(step(job, service, Outcome::Fraction("0.25".to_owned()))), 500);
    assert_eq!(service.state(7).unwrap().progress, "0.25");
    assert_eq!(script(step(job, service, Outcome::Done)), "return song.playing;");
    assert_eq!(script(step(job, service, bool_value(false))), "return playTime;");
    assert_eq!(pause(step(job, service, returned(ScriptValue::Other))), 500);
    assert_eq!(status(service, 7), RenderStatus::Rendering);
    assert_eq!(
        script(step(job, service, Outcome::Done)),
        "return typeof window.renderResult == 'undefined'"
    );
    assert_eq!(status(service, 7), RenderStatus::Encoding);
    assert_eq!(pause(step(job, service, bool_value(false))), 500);
    assert_eq!(script(step(job, service, Outcome::Done)), "return window.renderResult");
    match step(job, service, returned(ScriptValue::Text("aGVsbG8=".to_owned()))) {
        Action::Write { path, data } => {
            assert_eq!(path, "exports/7.wav");
            assert_eq!(data, b"hello");
        }
        other => panic!("{:?}", other),
    }
    match step(job, service, Outcome::Done) {
        Action::Convert(command) => {
            assert_eq!(command.program, "ffmpeg");
            assert_eq!(command.args[2], "exports/7.wav");
        }
        other => panic!("{:?}", other),
    }
    assert_eq!(status(service, 7), RenderStatus::Converting);
    assert!(matches!(step(job, service, Outcome::Done), Action::Close));
    assert_eq!(status(service, 7), RenderStatus::Complete);
    assert!(matches!(step(job, service, Outcome::Done), Action::StopDriver));
    match step(job, service, Outcome::Done) {
        Action::RemoveProfile { profile_id } => assert_eq!(profile_id, "123456"),
        other => panic!("{:?}", other),
    }
    assert!(matches!(step(job, service, Outcome::Failed), Action::Finish(Ok(()))));
    assert_eq!(job.phase(), Phase::Finished);
    let state = service.state(7).unwrap();
    assert_eq!((state.progress.as_str(), state.status), ("0.25", RenderStatus::Complete));
}

#[test]
fn ended_render_stays_ended() {
    let mut service = service_with(1);
    let mut job = launch(&mut service, 7);
    to_asking_result(&mut job, &mut service);
    let text = returned(ScriptValue::Text("not base64".to_owned()));
    assert_eq!(failure(step(&mut job, &mut service, text)), RenderError::DriverFailure);
    assert_eq!(failure(step(&mut job, &mut service, Outcome::Done)), RenderError::DriverFailure);
    assert_eq!(status(&service, 7), RenderStatus::Encoding);
}

#[test]
fn start_is_asked_for_again_until_it_happened() {
    let mut service = service_with(1);
    let mut job = launch(&mut service, 7);
    assert_eq!(to_asking_started(&mut job, &mut service), "return window.rdst;");
    for outcome in [bool_value(false), returned(ScriptValue::Other), number(1.0)] {
        assert_eq!(pause(step(&mut job, &mut service, outcome)), 200);
        assert_eq!(script(step(&mut job, &mut service, Outcome::Done)), "return window.rdst;");
    }
}

#[test]
fn encoding_is_waited_for() {
    let mut service = service_with(1);
    let mut job = launch(&mut service, 7);
    to_asking_started(&mut job, &mut service);
    step(&mut job, &mut service, bool_value(true));
    step(&mut job, &mut service, Outcome::Done);
    step(&mut job, &mut service, number(10.0));
    step(&mut job, &mut service, Outcome::Done);
    step(&mut job, &mut service, bool_value(false));
    step(&mut job, &mut service, returned(ScriptValue::Number(None)));
    for outcome in [bool_value(true), returned(ScriptValue::Other)] {
        assert_eq!(
            script(step(&mut job, &mut service, Outcome::Done)),
            "return typeof window.renderResult == 'undefined'"
        );
        assert_eq!(pause(step(&mut job, &mut service, outcome)), 500);
    }
    assert_eq!(job.phase(), Phase::AwaitingEncoding { encoding: true });
}

#[test]
fn playing_goes_on_unless_the_page_denies_it() {
    let mut service = service_with(1);
    let mut job = launch(&mut service, 7);
    to_asking_started(&mut job, &mut service);
    step(&mut job, &mut service, bool_value(true));
    step(&mut job, &mut service, Outcome::Done);
    step(&mut job, &mut service, number(10.0));
    step(&mut job, &mut service, Outcome::Done);
    step(&mut job, &mut service, returned(ScriptValue::Other));
    step(&mut job, &mut service, number(20.0));
    assert_eq!(pause(step(&mut job, &mut service, Outcome::Fraction("1".to_owned()))), 500);
    assert_eq!(script(step(&mut job, &mut service, Outcome::Done)), "return song.playing;");
}

#[test]
fn unusable_lengths_fail() {
    let values = vec![
        ScriptValue::Number(None),
        ScriptValue::Bool(true),
        ScriptValue::Text("12".to_owned()),
        ScriptValue::Other,
    ];
    for value in values {
        let mut service = service_with(1);
        let mut job = launch(&mut service, 7);
        to_asking_started(&mut job, &mut service);
        step(&mut job, &mut service, bool_value(true));
        step(&mut job, &mut service, Outcome::Done);
        let action = step(&mut job, &mut service, returned(value));
        assert_eq!(failure(action), RenderError::DriverFailure);
        assert_eq!(status(&service, 7), RenderStatus::Initializing);
    }
}

#[test]
fn failed_connection_and_scripts_are_driver_failures() {
    let mut service = service_with(1);
    let mut job = launch(&mut service, 7);
    step(&mut job, &mut service, Outcome::Done);
    step(&mut job, &mut service, Outcome::Started(9515));
    assert!(matches!(step(&mut job, &mut service, Outcome::Done), Action::Connect { .. }));
    let action = step(&mut job, &mut service, Outcome::Failed);
    assert_eq!(failure(action), RenderError::DriverFailure);

    let mut job = launch(&mut service, 8);
    to_asking_started(&mut job, &mut service);
    let action = step(&mut job, &mut service, Outcome::Failed);
    assert_eq!(failure(action), RenderError::DriverFailure);
}

#[test]
fn failed_write_is_a_file_error() {
    let mut service = service_with(1);
    let mut job = launch(&mut service, 7);
    to_asking_result(&mut job, &mut service);
    step(&mut job, &mut service, returned(ScriptValue::Text("AA==".to_owned())));
    let action = step(&mut job, &mut service, Outcome::Failed);
    assert_eq!(failure(action), RenderError::FileError);
    assert_eq!(status(&service, 7), RenderStatus::Encoding);
}

#[test]
fn failed_conversion_is_not_complete() {
    let mut service = service_with(1);
    let mut job = launch(&mut service, 7);
    to_asking_result(&mut job, &mut service);
    step(&mut job, &mut service, returned(ScriptValue::Text("AA==".to_owned())));
    assert!(matches!(step(&mut job, &mut service, Outcome::Done), Action::Convert(_)));
    let action = step(&mut job, &mut service, Outcome::Failed);
    assert_eq!(failure(action), RenderError::DriverFailure);
    assert_eq!(status(&service, 7), RenderStatus::Converting);
}

#[test]
fn failed_driver_start_ends_the_render() {
    let mut service = service_with(1);
    let mut job = launch(&mut service, 7);
    step(&mut job, &mut service, Outcome::Done);
    let action = step(&mut job, &mut service, Outcome::Failed);
    assert_eq!(failure(action), RenderError::DriverFailure);
    assert_eq!(status(&service, 7), RenderStatus::Initializing);
    let mut next = launch(&mut service, 8);
    assert!(matches!(
        step(&mut next, &mut service, Outcome::Done),
        Action::StartDriver { .. }
    ));
}

#[test]
fn failed_close_leaves_the_render_complete() {
    for done in [0, 1] {
        let mut service = service_with(1);
        let mut job = launch(&mut service, 7);
        to_asking_result(&mut job, &mut service);
        step(&mut job, &mut service, returned(ScriptValue::Text("AA==".to_owned())));
        step(&mut job, &mut service, Outcome::Done);
        assert!(matches!(step(&mut job, &mut service, Outcome::Done), Action::Close));
        for _ in 0..done {
            assert!(matches!(
                step(&mut job, &mut service, Outcome::Done),
                Action::StopDriver
            ));
        }
        failure(step(&mut job, &mut service, Outcome::Failed));
        assert_eq!(status(&service, 7), RenderStatus::Complete);
    }
}

#[test]
fn statuses_come_in_order() {
    let mut service = service_with(1);
    let mut job = launch(&mut service, 7);
    let mut seen: Vec<i32> = Vec::new();
    let mut outcome = Outcome::Done;
    loop {
        let action = step(&mut job, &mut service, outcome);
        let id = status(&service, 7).get_id();
        if seen.last() != Some(&id) {
            seen.push(id);
        }
        outcome = match action {
            Action::Execute(text) if text == "return window.rdst;" => bool_value(true),
            Action::Execute(text) if text == "return window.renderResult" => {
                returned(ScriptValue::Text("AA==".to_owned()))
            }
            Action::Execute(text) if text.ends_with(".time") => number(4.0),
            Action::Execute(text) if text == "return playTime;" => number(1.0),
            Action::Execute(_) => bool_value(false),
            Action::StartDriver { .. } => Outcome::Started(9515),
            Action::Connect { .. } => Outcome::Connected("77".to_owned()),
            Action::Measure { .. } => Outcome::Fraction("0.25".to_owned()),
            Action::Finish(result) => {
                assert_eq!(result, Ok(()));
                break;
            }
            _ => Outcome::Done,
        };
    }
    assert_eq!(seen, vec![1, 2, 3, 4, 5]);
}

#[test]
fn result_that_is_no_text_fails() {
    let mut service = service_with(1);
    let mut job = launch(&mut service, 7);
    assert_eq!(to_asking_result(&mut job, &mut service), "return window.renderResult");
    let action = step(&mut job, &mut service, returned(ScriptValue::Other));
    assert_eq!(failure(action), RenderError::DriverFailure);
}

#[test]
fn recording_is_what_the_page_encoded() {
    let cases: Vec<(&str, Vec<u8>)> = vec![
        ("", vec![]),
        ("AA==", vec![0]),
        ("/w==", vec![255]),
        ("AAE=", vec![0, 1]),
        ("+/+/", vec![251, 255, 191]),
        ("UklGRiQA", b"RIFF$\0".to_vec()),
        ("aGVsbG8gd29ybGR+Cg==", b"hello world~\n".to_vec()),
    ];
    for (text, audio) in cases {
        let mut service = service_with(1);
        let mut job = launch(&mut service, 7);
        to_asking_result(&mut job, &mut service);
        let outcome = returned(ScriptValue::Text(text.to_owned()));
        match step(&mut job, &mut service, outcome) {
            Action::Write { data, .. } => assert_eq!(data, audio),
            other => panic!("{:?}", other),
        }
    }
}

#[test]
fn text_that_is_no_canonical_base64_fails() {
    for text in ["A", "AA", "AAA", "AA=", "AAA", "AB==", "AAF=", "A===", "====", "AA==AAAA", "AA-_", "AAAA\n", " AAAA", "AA\u{e9}="] {
        let mut service = service_with(1);
        let mut job = launch(&mut service, 7);
        to_asking_result(&mut job, &mut service);
        let action = step(&mut job, &mut service, returned(ScriptValue::Text(text.to_owned())));
        assert_eq!(failure(action), RenderError::DriverFailure);
    }
}

#[test]
fn renders_in_parallel_are_limited() {
    let mut service = service_with(2);
    let mut jobs: Vec<RenderJob> = (0..4).map(|id| launch(&mut service, id)).collect();
    for job in jobs.iter_mut() {
        step(job, &mut service, Outcome::Done);
    }
    let phases: Vec<Phase> = jobs.iter().map(|job| job.phase()).collect();
    assert_eq!(
        phases,
        vec![Phase::StartingDriver, Phase::StartingDriver, Phase::Queued, Phase::Queued]
    );
    assert_eq!(pause(step(&mut jobs[2], &mut service, Outcome::Done)), 200);
    assert_eq!(status(&service, 2), RenderStatus::Queued);

    // The first fails, and the third takes its place.
    step(&mut jobs[0], &mut service, Outcome::Started(9515));
    step(&mut jobs[0], &mut service, Outcome::Done);
    failure(step(&mut jobs[0], &mut service, Outcome::Failed));
    assert!(matches!(
        step(&mut jobs[2], &mut service, Outcome::Done),
        Action::StartDriver { .. }
    ));
    assert_eq!(pause(step(&mut jobs[3], &mut service, Outcome::Done)), 200);

    // The second is given up, and the fourth takes its place.
    jobs[1].abandon(&mut service);
    jobs[1].abandon(&mut service);
    assert_eq!(jobs[1].phase(), Phase::Failed(RenderError::DriverFailure));
    assert!(matches!(
        step(&mut jobs[3], &mut service, Outcome::Done),
        Action::StartDriver { .. }
    ));
    let mut late = launch(&mut service, 9);
    assert_eq!(pause(step(&mut late, &mut service, Outcome::Done)), 200);
}

#[test]
fn slots_are_reused_many_times() {
    let mut service = service_with(1);
    for id in 0..200 {
        let mut job = launch(&mut service, id);
        step(&mut job, &mut service, Outcome::Done);
        assert_eq!(job.phase(), Phase::StartingDriver);
        let mut waiting = launch(&mut service, id + 1000);
        assert_eq!(pause(step(&mut waiting, &mut service, Outcome::Done)), 200);
        job.abandon(&mut service);
    }
}

#[test]
fn no_slot_means_no_render() {
    let mut service = service_with(0);
    let mut job = launch(&mut service, 1);
    assert_eq!(pause(step(&mut job, &mut service, Outcome::Done)), 200);
    assert_eq!(job.phase(), Phase::Queued);
    job.abandon(&mut service);
    assert_eq!(job.phase(), Phase::Failed(RenderError::DriverFailure));
}

#[test]
fn all_slots_can_be_taken() {
    let mut service = service_with(255);
    for id in 0..255 {
        let mut job = launch(&mut service, id);
        step(&mut job, &mut service, Outcome::Done);
        assert_eq!(job.phase(), Phase::StartingDriver);
    }
    let mut job = launch(&mut service, 255);
    step(&mut job, &mut service, Outcome::Done);
    assert_eq!(job.phase(), Phase::Queued);
}

#[test]
fn step_leaves_other_renders_alone() {
    let mut service = service_with(2);
    let mut job = launch(&mut service, 1);
    launch(&mut service, 2);
    step(&mut job, &mut service, Outcome::Done);
    assert_eq!(status(&service, 1), RenderStatus::Initializing);
    assert_eq!(status(&service, 2), RenderStatus::Queued);
}

#[test]
fn events_hold_number_and_progress() {
    let state = RenderState { progress: "0.5".to_owned(), status: RenderStatus::Rendering };
    let text = sse_state(state);
    assert_eq!(text, "2|0.5");
    let (id, progress) = text.split_once('|').unwrap();
    assert_eq!(id.parse::<i32>(), Ok(RenderStatus::Rendering.get_id()));
    assert_eq!(progress.parse::<f32>(), Ok(0.5));
}

#[test]
fn poll_of_an_unknown_render_reports_an_error() {
    let service = service_with(1);
    let mut poll = RenderPoll::new(5);
    assert_eq!(poll_render(&mut poll, &service), format!("6|{}", 0.0f32));
    assert_eq!(poll_render(&mut poll, &service), "6|0");
}

#[test]
fn poll_follows_a_render_and_stays_complete() {
    let mut service = service_with(1);
    let mut poll = RenderPoll::new(7);
    let mut job = launch(&mut service, 7);
    assert_eq!(poll_render(&mut poll, &service), "0|0");
    to_asking_result(&mut job, &mut service);
    assert_eq!(poll_render(&mut poll, &service), "3|0");
    step(&mut job, &mut service, returned(ScriptValue::Text("AA==".to_owned())));
    step(&mut job, &mut service, Outcome::Done);
    assert_eq!(poll_render(&mut poll, &service), "4|0");
    step(&mut job, &mut service, Outcome::Done);
    assert_eq!(poll_render(&mut poll, &service), "5|0");
    assert_eq!(poll_render(&mut poll, &service), format!("5|{}", 1.0f32));
    assert_eq!(poll_render(&mut poll, &service_with(1)), "5|1");
    let mut fresh = RenderPoll::new(7);
    assert_eq!(poll_render(&mut fresh, &service), "5|0");
}
