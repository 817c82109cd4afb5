//! What the texts that the service puts together say: each reads back as what it was made from.

use crate::driver::{driver_command, driver_session, DOWNLOAD_DIR, PROFILES_DIR};
use crate::files::{answered, conversion, export_path, told, AudioFormat};
use crate::poll::event_text;
use crate::sequence::{
    fetch_step, js_array, js_elements, load_script, sequence_address, FetchActionView, FetchEvent,
};
use crate::status::StateView;
use crate::text::{decimal, is_digit, law_decimal_reads_back, lemma_decimal_digits, number};
use bytes::Bytes;
use vstd::prelude::*;

verus! {

/// Whether `text` is how `n` is written: at least one digit, nothing but digits, no zero that
/// could be left out, and the number it reads as is `n`.
pub open spec fn reads_as(text: Seq<char>, n: int) -> bool {
    &&& text.len() > 0
    &&& forall|i: int| 0 <= i < text.len() ==> is_digit(#[trigger] text[i])
    &&& text.len() > 1 ==> text[0] != '0'
    &&& number(text) == n
}

proof fn lemma_decimal_starts(n: nat)
    requires
        n > 0,
    ensures
        decimal(n).len() > 0,
        decimal(n)[0] != '0',
    decreases n,
{
    if n >= 10 {
        lemma_decimal_starts(n / 10);
    }
}

/// The decimal text of a number is how that number is written.
pub proof fn law_decimal_reads_as(n: nat)
    ensures
        reads_as(decimal(n), n as int),
{
    lemma_decimal_digits(n);
    law_decimal_reads_back(n);
    if n >= 10 {
        lemma_decimal_starts(n);
    }
}

/// The address of a sequence lies on the server it is fetched from, and ends with the number of
/// the sequence.
pub proof fn law_address_names_server_and_sequence(origin: Seq<char>, id: u32)
    ensures
        ({
            let address = sequence_address(origin, id);
            let rest = address.skip(origin.len() as int);
            let query = "/app/api/get_proto.php?id="@;
            &&& address.take(origin.len() as int) == origin
            &&& rest.take(query.len() as int) == query
            &&& reads_as(rest.skip(query.len() as int), id as int)
        }),
{
    let address = sequence_address(origin, id);
    let rest = address.skip(origin.len() as int);
    let query = "/app/api/get_proto.php?id="@;
    assert(address.take(origin.len() as int) =~= origin);
    assert(rest.take(query.len() as int) =~= query);
    assert(rest.skip(query.len() as int) =~= decimal(id as nat));
    law_decimal_reads_as(id as nat);
}

/// Different servers with names of one length are asked at different addresses.
pub proof fn law_servers_distinct(a: Seq<char>, b: Seq<char>, id_a: u32, id_b: u32)
    requires
        a.len() == b.len(),
        sequence_address(a, id_a) == sequence_address(b, id_b),
    ensures
        a == b,
        id_a == id_b,
{
    law_address_names_server_and_sequence(a, id_a);
    law_address_names_server_and_sequence(b, id_b);
}

/// Fetching a sequence begins with a request to the server for that sequence, goes on to the notes
/// if and only if the server answers with success, and gives the notes that were read. It fails
/// with a message for every other answer, and without one where the server could not be asked or
/// read.
pub proof fn law_fetching(origin: Seq<char>, id: u32, status: u16, data: Bytes)
    ensures
        fetch_step(origin, id, FetchEvent::Begun) matches FetchActionView::Get { url } && url.take(
            origin.len() as int,
        ) == origin && reads_as(
            url.skip(origin.len() as int + "/app/api/get_proto.php?id="@.len()),
            id as int,
        ),
        fetch_step(origin, id, FetchEvent::Responded(status)) is ReadBody <==> status == 200,
        status != 200 ==> fetch_step(origin, id, FetchEvent::Responded(status)) == (
        FetchActionView::Fail { message: Some("error retrieving sequence"@) }),
        fetch_step(origin, id, FetchEvent::Body(data)) == FetchActionView::Give(data),
        fetch_step(origin, id, FetchEvent::NoResponse) == (FetchActionView::Fail { message: None }),
        fetch_step(origin, id, FetchEvent::NoBody) == (FetchActionView::Fail { message: None }),
{
    law_address_names_server_and_sequence(origin, id);
    let url = sequence_address(origin, id);
    let query = "/app/api/get_proto.php?id="@;
    assert(url.skip(origin.len() as int).skip(query.len() as int) =~= url.skip(
        origin.len() as int + query.len(),
    ));
}

/// The place of the first comma in `text`, or its length if there is none.
pub open spec fn first_comma(text: Seq<char>) -> int
    decreases text.len(),
{
    if text.len() == 0 || text[0] == ',' {
        0
    } else {
        1 + first_comma(text.drop_first())
    }
}

proof fn lemma_first_comma(text: Seq<char>)
    ensures
        0 <= first_comma(text) <= text.len(),
    decreases text.len(),
{
    if text.len() > 0 && text[0] != ',' {
        lemma_first_comma(text.drop_first());
    }
}

/// The numbers in a list, each of them followed by a comma.
pub open spec fn listed(text: Seq<char>) -> Seq<int>
    decreases text.len(),
{
    let comma = first_comma(text);
    if 0 <= comma < text.len() {
        seq![number(text.take(comma))] + listed(text.skip(comma + 1))
    } else {
        Seq::empty()
    }
}

/// The bytes `data` as numbers.
pub open spec fn numbers(data: Seq<u8>) -> Seq<int> {
    data.map_values(|byte: u8| byte as int)
}

proof fn lemma_first_comma_after(digits: Seq<char>, rest: Seq<char>)
    requires
        forall|i: int| 0 <= i < digits.len() ==> is_digit(#[trigger] digits[i]),
    ensures
        first_comma(digits + seq![','] + rest) == digits.len(),
    decreases digits.len(),
{
    let text = digits + seq![','] + rest;
    if digits.len() > 0 {
        assert(text[0] == digits[0]);
        lemma_first_comma_after(digits.drop_first(), rest);
        assert(text.drop_first() =~= digits.drop_first() + seq![','] + rest);
    } else {
        assert(text[0] == ',');
    }
}

proof fn lemma_listed_first(byte: u8, rest: Seq<char>)
    ensures
        listed(decimal(byte as nat) + seq![','] + rest) == seq![byte as int] + listed(rest),
{
    let digits = decimal(byte as nat);
    let text = digits + seq![','] + rest;
    lemma_decimal_digits(byte as nat);
    law_decimal_reads_back(byte as nat);
    lemma_first_comma_after(digits, rest);
    assert(text.take(digits.len() as int) =~= digits);
    assert(text.skip(digits.len() as int + 1) =~= rest);
}

proof fn lemma_elements_first(data: Seq<u8>)
    requires
        data.len() > 0,
    ensures
        js_elements(data) == decimal(data[0] as nat) + seq![','] + js_elements(data.drop_first()),
    decreases data.len(),
{
    reveal_strlit(",");
    assert(","@ =~= seq![',']);
    if data.len() == 1 {
        assert(data.drop_last() =~= Seq::empty());
        assert(data.drop_first() =~= Seq::empty());
        assert(js_elements(Seq::empty()) =~= Seq::empty());
        assert(js_elements(data) =~= decimal(data[0] as nat) + seq![','] + js_elements(
            data.drop_first(),
        ));
    } else {
        lemma_elements_first(data.drop_last());
        assert(data.drop_last().drop_first() =~= data.drop_first().drop_last());
        assert(js_elements(data) =~= decimal(data[0] as nat) + seq![','] + js_elements(
            data.drop_first(),
        ));
    }
}

proof fn lemma_elements_listed(data: Seq<u8>)
    ensures
        listed(js_elements(data)) == numbers(data),
    decreases data.len(),
{
    if data.len() == 0 {
        assert(js_elements(data) =~= Seq::empty());
        assert(numbers(data) =~= Seq::empty());
        lemma_first_comma(js_elements(data));
    } else {
        lemma_elements_first(data);
        lemma_listed_first(data[0], js_elements(data.drop_first()));
        lemma_elements_listed(data.drop_first());
        assert(numbers(data) =~= seq![data[0] as int] + numbers(data.drop_first()));
    }
}

/// The array that is written for some bytes lists those bytes, every one and in their order.
pub proof fn law_array_lists_data(data: Seq<u8>)
    ensures
        ({
            let text = js_array(data);
            let open = "new Uint8Array(["@;
            let close = "])"@;
            &&& text.len() >= open.len() + close.len()
            &&& text.take(open.len() as int) == open
            &&& text.skip(text.len() - close.len()) == close
            &&& listed(text.subrange(open.len() as int, text.len() - close.len())) == numbers(data)
        }),
{
    let text = js_array(data);
    let open = "new Uint8Array(["@;
    let close = "])"@;
    assert(text.take(open.len() as int) =~= open);
    assert(text.skip(text.len() - close.len()) =~= close);
    assert(text.subrange(open.len() as int, text.len() - close.len()) =~= js_elements(data));
    lemma_elements_listed(data);
}

/// The script that loads a sequence hands the page's loader an array that lists the bytes of the
/// sequence, every one and in their order.
pub proof fn law_load_script_lists_data(data: Seq<u8>)
    ensures
        ({
            let text = load_script(data);
            let open = "loadDataProto(new Uint8Array(["@;
            let close = "]))"@;
            &&& text.len() >= open.len() + close.len()
            &&& text.take(open.len() as int) == open
            &&& text.skip(text.len() - close.len()) == close
            &&& listed(text.subrange(open.len() as int, text.len() - close.len())) == numbers(data)
        }),
{
    reveal_strlit("loadDataProto(new Uint8Array([");
    reveal_strlit("loadDataProto(");
    reveal_strlit("new Uint8Array([");
    reveal_strlit("]))");
    reveal_strlit("])");
    reveal_strlit(")");
    let text = load_script(data);
    let open = "loadDataProto(new Uint8Array(["@;
    let close = "]))"@;
    assert(open =~= "loadDataProto("@ + "new Uint8Array(["@);
    assert(close =~= "])"@ + ")"@);
    assert(text =~= open + js_elements(data) + close);
    assert(text.take(open.len() as int) =~= open);
    assert(text.skip(text.len() - close.len()) =~= close);
    assert(text.subrange(open.len() as int, text.len() - close.len()) =~= js_elements(data));
    lemma_elements_listed(data);
}

/// The path of an audio file lies in the directory of the exports, is named by the number of the
/// sequence, and ends with the name of the format.
pub proof fn law_path_names_sequence_and_format(id: u32, format: AudioFormat)
    ensures
        ({
            let path = export_path(id, format);
            &&& path.len() > 12
            &&& path.take(8) == "exports/"@
            &&& reads_as(path.subrange(8, path.len() - 4), id as int)
            &&& path.skip(path.len() - 4) == match format {
                AudioFormat::Wav => ".wav"@,
                AudioFormat::Ogg => ".ogg"@,
                AudioFormat::Mp3 => ".mp3"@,
            }
        }),
{
    reveal_strlit("exports/");
    reveal_strlit(".wav");
    reveal_strlit(".ogg");
    reveal_strlit(".mp3");
    let path = export_path(id, format);
    law_decimal_reads_as(id as nat);
    assert(path.take(8) =~= "exports/"@);
    assert(path.subrange(8, path.len() - 4) =~= decimal(id as nat));
    assert(path.skip(path.len() - 4) =~= format.extension());
}

/// ffmpeg is told to overwrite, to read the recording of the sequence, to write the Ogg file, and
/// to write the MP3 file at the best quality. Nothing else is asked of it, and conversions of
/// different sequences differ in the three files only.
pub proof fn law_conversion(id: u32, other: u32)
    ensures
        ({
            let args = conversion(id);
            let overwrite = args[0];
            let (input, recording) = (args[1], args[2]);
            let (quality, best) = (args[4], args[5]);
            &&& args.len() == 7
            &&& overwrite == "-y"@
            &&& input == "-i"@ && recording == export_path(id, AudioFormat::Wav)
            &&& args[3] == export_path(id, AudioFormat::Ogg)
            &&& quality == "-q:a"@ && best == "0"@
            &&& args[6] == export_path(id, AudioFormat::Mp3)
            &&& conversion(other) == args.update(2, export_path(other, AudioFormat::Wav)).update(
                3,
                export_path(other, AudioFormat::Ogg),
            ).update(6, export_path(other, AudioFormat::Mp3))
        }),
{
    assert(conversion(other) =~= conversion(id).update(
        2,
        export_path(other, AudioFormat::Wav),
    ).update(3, export_path(other, AudioFormat::Ogg)).update(
        6,
        export_path(other, AudioFormat::Mp3),
    ));
}

/// A render counts as there only if each of its three files was asked for and found, and as missing
/// only if one of them was asked for and not found.
pub proof fn law_every_format_is_needed<F: Fn(&str) -> bool>(probe: F, id: u32, format: AudioFormat)
    ensures
        told(probe, id, true) ==> exists|path: &str|
            path@ == export_path(id, format) && #[trigger] probe.ensures((path,), true),
        told(probe, id, false) ==> exists|path: &str, missing: AudioFormat|
            path@ == #[trigger] export_path(id, missing) && #[trigger] probe.ensures(
                (path,),
                false,
            ),
{
    if told(probe, id, true) {
        assert(answered(probe, export_path(id, format), true));
    }
    if told(probe, id, false) {
        let missing = if answered(probe, export_path(id, AudioFormat::Wav), false) {
            AudioFormat::Wav
        } else if answered(probe, export_path(id, AudioFormat::Ogg), false) {
            AudioFormat::Ogg
        } else {
            AudioFormat::Mp3
        };
        assert(answered(probe, export_path(id, missing), false));
    }
}

/// The driver that is started is the given program, told the given port; and a session is opened
/// through the driver on the port that it was told. The port is known from either text.
pub proof fn law_session_reaches_its_driver(
    path: Seq<char>,
    instance: Seq<char>,
    port: u16,
    profiles_dir: Seq<char>,
    download_dir: Seq<char>,
    random: u64,
)
    ensures
        ({
            let command = driver_command(path, port);
            let address = driver_session(
                instance,
                port,
                profiles_dir,
                download_dir,
                random,
            ).address;
            &&& command.program == path
            &&& command.args.len() == 1
            &&& command.args[0].take(7) == "--port="@
            &&& reads_as(command.args[0].skip(7), port as int)
            &&& address.take(17) == "http://127.0.0.1:"@
            &&& reads_as(address.skip(17), port as int)
            &&& address.skip(17) == command.args[0].skip(7)
        }),
{
    reveal_strlit("--port=");
    reveal_strlit("http://127.0.0.1:");
    reveal_strlit("http://127.0.0.1");
    reveal_strlit(":");
    law_decimal_reads_as(port as nat);
    let command = driver_command(path, port);
    let address = driver_session(instance, port, profiles_dir, download_dir, random).address;
    assert(command.args[0].take(7) =~= "--port="@);
    assert(command.args[0].skip(7) =~= decimal(port as nat));
    assert(address.take(17) =~= "http://127.0.0.1:"@);
    assert(address.skip(17) =~= decimal(port as nat));
}

/// A session goes to the given page, keeps its downloads in the given directory, and keeps its
/// profile in the given directory under the number drawn. In all else, two sessions are alike.
pub proof fn law_session(
    instance: Seq<char>,
    port: u16,
    profiles_dir: Seq<char>,
    download_dir: Seq<char>,
    random: u64,
    instance2: Seq<char>,
    port2: u16,
    profiles_dir2: Seq<char>,
    download_dir2: Seq<char>,
    random2: u64,
)
    ensures
        ({
            let session = driver_session(instance, port, profiles_dir, download_dir, random);
            let capability = session.capability;
            let other = driver_session(
                instance2,
                port2,
                profiles_dir2,
                download_dir2,
                random2,
            ).capability;
            let option = "user-data-dir="@;
            let dir = capability.args[0].skip(option.len() as int);
            &&& session.page == instance
            &&& capability.name == "goog:chromeOptions"@
            &&& capability.prefs == seq![("download.default_directory"@, download_dir)]
            &&& capability.args.len() == 14
            &&& capability.args[0].take(option.len() as int) == option
            &&& dir.take(profiles_dir.len() as int) == profiles_dir
            &&& dir.skip(profiles_dir.len() as int) == session.profile_id
            &&& reads_as(session.profile_id, random as int)
            &&& other.name == capability.name
            &&& other.args == capability.args.update(0, other.args[0])
        }),
{
    let session = driver_session(instance, port, profiles_dir, download_dir, random);
    let capability = session.capability;
    let other = driver_session(
        instance2,
        port2,
        profiles_dir2,
        download_dir2,
        random2,
    ).capability;
    let option = "user-data-dir="@;
    let dir = capability.args[0].skip(option.len() as int);
    law_decimal_reads_as(random as nat);
    assert(capability.args[0].take(option.len() as int) =~= option);
    assert(dir.take(profiles_dir.len() as int) =~= profiles_dir);
    assert(dir.skip(profiles_dir.len() as int) =~= session.profile_id);
    assert(other.args =~= capability.args.update(0, other.args[0]));
}

/// An event is the number of the status, as it is written, then a bar, then the progress.
pub proof fn law_event(state: StateView)
    ensures
        exists|id: Seq<char>|
            reads_as(id, state.status.id() as int) && event_text(state) == #[trigger] id.push('|')
                + state.progress,
{
    reveal_strlit("|");
    let id = decimal(state.status.id());
    law_decimal_reads_as(state.status.id());
    assert(event_text(state) =~= id.push('|') + state.progress);
}

/// The audio files lie in the directory that the browser's downloads go to; the profiles lie in
/// another.
pub proof fn law_directories(id: u32, format: AudioFormat)
    ensures
        export_path(id, format).take(DOWNLOAD_DIR@.len() as int) == DOWNLOAD_DIR@,
        export_path(id, format)[DOWNLOAD_DIR@.len() as int] == '/',
        PROFILES_DIR@ != DOWNLOAD_DIR@,
{
    reveal_strlit("exports/");
    reveal_strlit("exports");
    reveal_strlit("profiles");
    assert(export_path(id, format).take(7) =~= DOWNLOAD_DIR@);
    assert(PROFILES_DIR@[0] == 'p');
    assert(DOWNLOAD_DIR@[0] == 'e');
}

} // verus!
