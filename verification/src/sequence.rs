//! Fetching a sequence and handing it to the page.

use crate::text::{decimal, decimal_text};
use bytes::Bytes;
use vstd::prelude::*;

verus! {

/// A cheaply shared piece of memory, from the `bytes` crate.
#[verifier::external_type_specification]
#[verifier::external_body]
pub struct ExBytes(Bytes);

/// The bytes that a [`Bytes`] holds.
pub uninterp spec fn bytes_contents(data: Bytes) -> Seq<u8>;

/// Calls `Bytes::as_ref`: a view of the bytes that `data` holds, all of them and in their order.
#[verifier::external_body]
fn bytes_slice(data: &Bytes) -> (slice: &[u8])
    ensures
        slice@ == bytes_contents(*data),
{
    data.as_ref()
}

/// The elements of an array literal, each followed by a comma.
pub open spec fn js_elements(data: Seq<u8>) -> Seq<char>
    decreases data.len(),
{
    if data.len() == 0 {
        Seq::empty()
    } else {
        js_elements(data.drop_last()) + decimal(data.last() as nat) + ","@
    }
}

/// The JavaScript expression that builds an array of the bytes `data`.
pub open spec fn js_array(data: Seq<u8>) -> Seq<char> {
    "new Uint8Array(["@ + js_elements(data) + "])"@
}

/// Writes `data` as a JavaScript array.
pub fn slice_to_js_array(data: &[u8]) -> (text: String)
    ensures
        text@ == js_array(data@),
{
    let mut text = "new Uint8Array([".to_owned();
    let mut i: usize = 0;
    assert(data@.take(0) =~= Seq::empty());
    while i < data.len()
        invariant
            i <= data.len(),
            text@ == "new Uint8Array(["@ + js_elements(data@.take(i as int)),
        decreases data.len() - i,
    {
        assert(data@.take(i + 1).drop_last() =~= data@.take(i as int));
        text.append(decimal_text(data[i] as u64).as_str());
        text.append(",");
        i = i + 1;
        assert(text@ =~= "new Uint8Array(["@ + js_elements(data@.take(i as int)));
    }
    assert(data@.take(i as int) =~= data@);
    text.append("])");
    text
}

/// Writes `data` as a JavaScript array.
pub fn bytes_to_js_array(data: Bytes) -> (text: String)
    ensures
        text@ == js_array(bytes_contents(data)),
{
    slice_to_js_array(bytes_slice(&data))
}

/// The script that loads the sequence `data` into the page.
pub open spec fn load_script(data: Seq<u8>) -> Seq<char> {
    "loadDataProto("@ + js_array(data) + ")"@
}

/// The script that loads the sequence `data` into the page.
pub fn load_script_text(data: Bytes) -> (text: String)
    ensures
        text@ == load_script(bytes_contents(data)),
{
    let mut text = "loadDataProto(".to_owned();
    text.append(bytes_to_js_array(data).as_str());
    text.append(")");
    text
}

/// Where the server at `origin` offers the notes of sequence `id`.
pub open spec fn sequence_address(origin: Seq<char>, id: u32) -> Seq<char> {
    origin + "/app/api/get_proto.php?id="@ + decimal(id as nat)
}

/// What has become known while the notes of a sequence are fetched.
pub enum FetchEvent {
    /// Nothing was done yet.
    Begun,
    /// The server could not be asked.
    NoResponse,
    /// The server answered with this HTTP status.
    Responded(u16),
    /// The rest of the answer could not be read.
    NoBody,
    /// The rest of the answer was read.
    Body(Bytes),
}

/// What fetching the notes of a sequence needs next.
pub enum FetchAction {
    /// Ask the server for what is at `url`.
    Get { url: String },
    /// Read the rest of the answer.
    ReadBody,
    /// End: these are the notes.
    Give(Bytes),
    /// End: the notes are not to be had. There is a message where the server answered and has
    /// no such sequence; where it could not be asked or read, the failure speaks for itself.
    Fail { message: Option<String> },
}

/// The values in a [`FetchAction`].
pub enum FetchActionView {
    Get { url: Seq<char> },
    ReadBody,
    Give(Bytes),
    Fail { message: Option<Seq<char>> },
}

impl View for FetchAction {
    type V = FetchActionView;

    open spec fn view(&self) -> FetchActionView {
        match *self {
            FetchAction::Get { url } => FetchActionView::Get { url: url@ },
            FetchAction::ReadBody => FetchActionView::ReadBody,
            FetchAction::Give(data) => FetchActionView::Give(data),
            FetchAction::Fail { message: Some(message) } => FetchActionView::Fail {
                message: Some(message@),
            },
            FetchAction::Fail { message: None } => FetchActionView::Fail { message: None },
        }
    }
}

/// What fetching the notes of sequence `id` from the server at `origin` needs after `event`.
pub open spec fn fetch_step(origin: Seq<char>, id: u32, event: FetchEvent) -> FetchActionView {
    match event {
        FetchEvent::Begun => FetchActionView::Get { url: sequence_address(origin, id) },
        FetchEvent::Responded(200) => FetchActionView::ReadBody,
        FetchEvent::Responded(_) => FetchActionView::Fail {
            message: Some("error retrieving sequence"@),
        },
        FetchEvent::Body(data) => FetchActionView::Give(data),
        FetchEvent::NoResponse | FetchEvent::NoBody => FetchActionView::Fail { message: None },
    }
}

/// Takes fetching the notes of sequence `id` from the server at `origin` one step further.
pub fn fetch_sequence(origin: &str, id: u32, event: FetchEvent) -> (action: FetchAction)
    ensures
        action@ == fetch_step(origin@, id, event),
        match event {
            FetchEvent::Begun => action matches FetchAction::Get { url } && url@
                == sequence_address(origin@, id),
            FetchEvent::NoResponse => action == FetchAction::Fail { message: None },
            FetchEvent::Responded(200) => action == FetchAction::ReadBody,
            FetchEvent::Responded(_) => action matches FetchAction::Fail { message: Some(message) }
                && message@ == "error retrieving sequence"@,
            FetchEvent::NoBody => action == FetchAction::Fail { message: None },
            FetchEvent::Body(data) => action == FetchAction::Give(data),
        },
{
    match event {
        FetchEvent::Begun => {
            let mut url = origin.to_owned();
            url.append("/app/api/get_proto.php?id=");
            url.append(decimal_text(id as u64).as_str());
            FetchAction::Get { url }
        },
        FetchEvent::NoResponse => FetchAction::Fail { message: None },
        FetchEvent::Responded(200) => FetchAction::ReadBody,
        FetchEvent::Responded(_) => FetchAction::Fail {
            message: Some("error retrieving sequence".to_owned()),
        },
        FetchEvent::NoBody => FetchAction::Fail { message: None },
        FetchEvent::Body(data) => FetchAction::Give(data),
    }
}

} // verus!
