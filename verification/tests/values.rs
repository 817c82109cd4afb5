use bytes::Bytes;
use render_service::args::Args;
use render_service::driver::{
    find_available_port, new_driver, next_port, port_of, profile_id_of, session_of,
    spawn_chromedriver, PortSearch,
};
use render_service::files::{convert_audio, export_path_text, render_exists, AudioFormat};
use render_service::sequence::{
    bytes_to_js_array, fetch_sequence, load_script_text, slice_to_js_array, FetchAction,
    FetchEvent,
};
use render_service::status::{RenderError, RenderState, RenderStatus};
use render_service::text::{around_number, decimal_text};
use std::cell::RefCell;

const STATUSES: [RenderStatus; 7] = [
    RenderStatus::Queued,
    RenderStatus::Initializing,
    RenderStatus::Rendering,
    RenderStatus::Encoding,
    RenderStatus::Converting,
    RenderStatus::Complete,
    RenderStatus::Error,
];

#[test]
fn statuses_are_numbered_in_order() {
    let ids: Vec<i32> = STATUSES.iter().map(|status| status.get_id()).collect();
    assert_eq!(ids, vec![0, 1, 2, 3, 4, 5, 6]);
}

#[test]
fn decimal_text_matches_std() {
    for n in [0u64, 7, 9, 10, 99, 100, 255, 65535, 4294967295, u64::MAX] {
        assert_eq!(decimal_text(n), n.to_string());
    }
    assert_eq!(around_number("a", 120, "b"), "a120b");
}

#[test]
fn state_setters_change_one_field() {
    let mut state = RenderState { progress: "0".to_owned(), status: RenderStatus::Queued };
    state.set_status(RenderStatus::Rendering);
    assert_eq!((state.progress.as_str(), state.status), ("0", RenderStatus::Rendering));
    state.set_progress("0.25".to_owned());
    assert_eq!((state.progress.as_str(), state.status), ("0.25", RenderStatus::Rendering));
}

#[test]
fn errors_share_one_message() {
    for error in [RenderError::SequenceNotFound, RenderError::DriverFailure, RenderError::FileError] {
        assert_eq!(error.message(), "Render error");
    }
}

#[test]
fn default_settings() {
    let args = Args::default();
    assert_eq!(args.origin, "https://onlinesequencer.net");
    assert_eq!(args.sequence_origin, "https://onlinesequencer.net");
    assert_eq!(args.driver_executable, "chromedriver");
    assert_eq!(args.ffmpeg_executable, "ffmpeg");
    assert_eq!(args.renders, 10);
    let copy = Args { renders: 3, ..args }.clone();
    assert_eq!((copy.driver_executable.as_str(), copy.renders), ("chromedriver", 3));
}

#[test]
fn js_array_of_bytes() {
    assert_eq!(bytes_to_js_array(Bytes::new()), "new Uint8Array([])");
    assert_eq!(bytes_to_js_array(Bytes::from_static(&[0, 10, 255])), "new Uint8Array([0,10,255,])");
    let shared = Bytes::from(vec![1u8, 2, 3, 4]).slice(1..3);
    assert_eq!(bytes_to_js_array(shared), "new Uint8Array([2,3,])");
    assert_eq!(slice_to_js_array(&[7]), "new Uint8Array([7,])");
}

#[test]
fn load_scripts_tell_sequences_apart() {
    let joined = load_script_text(Bytes::from_static(&[12]));
    let split = load_script_text(Bytes::from_static(&[1, 2]));
    assert_eq!(joined, "loadDataProto(new Uint8Array([12,]))");
    assert_eq!(split, "loadDataProto(new Uint8Array([1,2,]))");
    assert_ne!(joined, split);
}

#[test]
fn fetching_asks_the_sequence_server() {
    match fetch_sequence("https://host", 42, FetchEvent::Begun) {
        FetchAction::Get { url } => assert_eq!(url, "https://host/app/api/get_proto.php?id=42"),
        _ => panic!("expected a request"),
    }
    assert!(matches!(
        fetch_sequence("https://host", 42, FetchEvent::Responded(200)),
        FetchAction::ReadBody
    ));
    match fetch_sequence("https://host", 42, FetchEvent::Body(Bytes::from_static(b"notes"))) {
        FetchAction::Give(data) => assert_eq!(&data[..], b"notes"),
        _ => panic!("expected the notes"),
    }
}

#[test]
fn fetching_fails_on_other_statuses() {
    for status in [0u16, 199, 201, 204, 302, 404, 500] {
        match fetch_sequence("https://host", 1, FetchEvent::Responded(status)) {
            FetchAction::Fail { message: Some(message) } => {
                assert_eq!(message, "error retrieving sequence")
            }
            _ => panic!("expected a failure"),
        }
    }
    for event in [FetchEvent::NoResponse, FetchEvent::NoBody] {
        assert!(matches!(
            fetch_sequence("https://host", 1, event),
            FetchAction::Fail { message: None }
        ));
    }
}

#[test]
fn exports_are_named_by_sequence_and_format() {
    assert_eq!(export_path_text(123, AudioFormat::Wav), "exports/123.wav");
    assert_eq!(export_path_text(123, AudioFormat::Ogg), "exports/123.ogg");
    assert_eq!(export_path_text(0, AudioFormat::Mp3), "exports/0.mp3");
    assert_ne!(
        export_path_text(12, AudioFormat::Wav),
        export_path_text(1, AudioFormat::Wav)
    );
}

#[test]
fn conversion_command() {
    let command = convert_audio(9, "/usr/bin/ffmpeg".to_owned());
    assert_eq!(command.program, "/usr/bin/ffmpeg");
    assert_eq!(
        command.args,
        vec!["-y", "-i", "exports/9.wav", "exports/9.ogg", "-q:a", "0", "exports/9.mp3"]
    );
}

#[test]
fn render_exists_when_every_format_does() {
    let asked: RefCell<Vec<String>> = RefCell::new(Vec::new());
    assert!(render_exists(5, |path: &str| {
        asked.borrow_mut().push(path.to_owned());
        true
    }));
    assert_eq!(*asked.borrow(), vec!["exports/5.wav", "exports/5.ogg", "exports/5.mp3"]);
}

#[test]
fn render_is_missing_when_a_format_is() {
    for missing in ["exports/5.wav", "exports/5.ogg", "exports/5.mp3"] {
        assert!(!render_exists(5, |path: &str| path != missing));
    }
    let asked: RefCell<u32> = RefCell::new(0);
    assert!(!render_exists(5, |_: &str| {
        *asked.borrow_mut() += 1;
        false
    }));
    assert_eq!(*asked.borrow(), 1);
}

#[test]
fn port_is_the_lower_half_of_the_random_number() {
    assert_eq!(port_of(0), 0);
    assert_eq!(port_of(0xffff), 0xffff);
    assert_eq!(port_of(0x1_0000), 0);
    assert_eq!(port_of(0xdead_beef), 0xbeef);
}

#[test]
fn port_search_ends_with_the_first_free_port() {
    assert_eq!(find_available_port(Some((4444, true))), PortSearch::Found(4444));
    assert!(matches!(find_available_port(None), PortSearch::Try(_)));
    assert!(matches!(find_available_port(Some((4444, false))), PortSearch::Try(_)));
}

#[test]
fn port_search_tries_different_ports() {
    let mut ports: Vec<u16> = Vec::new();
    for _ in 0..64 {
        match find_available_port(None) {
            PortSearch::Try(port) => ports.push(port),
            PortSearch::Found(_) => panic!("nothing was tried"),
        }
    }
    ports.sort();
    ports.dedup();
    assert!(ports.len() > 1);
}

#[test]
fn port_search_draws_once_for_each_port_tried() {
    let draws = [0x0001_0050u32, 0x1234_1F90, 0x0000_2328];
    let mut drawn = 0;
    let mut tried = None;
    let found = loop {
        match next_port(tried, draws[drawn]) {
            PortSearch::Try(port) => {
                drawn += 1;
                tried = Some((port, port == 8080 || port == 9000));
            }
            PortSearch::Found(port) => break port,
        }
    };
    assert_eq!((found, drawn), (8080, 2));
}

#[test]
fn port_search_follows_the_draw() {
    assert_eq!(next_port(None, 0x1_2345), PortSearch::Try(0x2345));
    assert_eq!(next_port(Some((4444, false)), 80), PortSearch::Try(80));
    assert_eq!(next_port(Some((4444, true)), 80), PortSearch::Found(4444));
}

#[test]
fn profile_ids_are_random_numbers() {
    assert_eq!(profile_id_of(18446744073709551615), "18446744073709551615");
    let draw = || new_driver("page".to_owned(), 1, "/work/profiles/", "/work/exports");
    let first = draw();
    assert_eq!(first.profile_id.parse::<u64>().unwrap().to_string(), first.profile_id);
    assert_eq!(
        first.capability.args[0],
        format!("user-data-dir=/work/profiles/{}", first.profile_id)
    );
    assert!((0..8).any(|_| draw().profile_id != first.profile_id));
}

#[test]
fn driver_command() {
    let command = spawn_chromedriver("chromedriver".to_owned(), 9515);
    assert_eq!(command.program, "chromedriver");
    assert_eq!(command.args, vec!["--port=9515"]);
}

#[test]
fn driver_session() {
    let session = session_of("https://page".to_owned(), 80, "/work/profiles/", "/work/exports", 1);
    assert_eq!(session.profile_id, "1");
    assert_eq!(session.address, "http://127.0.0.1:80");
    assert_eq!(session.page, "https://page");
    assert_eq!(session.capability.name, "goog:chromeOptions");
    assert_eq!(
        session.capability.args,
        vec![
            "user-data-dir=/work/profiles/1",
            "--headless",
            "--disable-gpu",
            "--no-sandbox",
            "--disable-extensions",
            "--disable-dev-shm-usage",
            "--media-cache-size=1",
            "--disk-cache-size=1",
            "--disable-back-forward-cache",
            "--disable-gpu-program-cache",
            "--disable-gpu-shader-disk-cache",
            "--skia-font-cache-limit-mb=1",
            "--skia-resource-cache-limit-mb=1",
            "--v8-cache-options=none",
        ]
    );
    assert_eq!(
        session.capability.prefs,
        vec![("download.default_directory".to_owned(), "/work/exports".to_owned())]
    );
}
