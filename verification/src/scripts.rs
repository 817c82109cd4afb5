//! The scripts that a render runs in the page of the sequencer.

use vstd::prelude::*;

verus! {

/// Replaces the page's audio export: the encoded audio ends up in `window.renderResult`, in
/// base64, instead of being offered as a download.
pub const OVERRIDE_EXPORT: &'static str = r#"
window.b64enc = async buffer => {
  const base64url = await new Promise(r => {
    const reader = new FileReader()
    reader.onload = () => r(reader.result)
    reader.readAsDataURL(new Blob([buffer]))
  });
  return base64url.slice(base64url.indexOf(',') + 1);
}

AudioSystem.prototype.encodeWav = function(left, right) {
    let l = toInt16Array(left);
    let r = toInt16Array(right);
    console.assert(l.length == r.length);
    const [start,end] = trimSilence(l, r);
    l = l.subarray(start, end);
    r = r.subarray(start, end);
    const bitsPerSample = 16;
    const samplesPerSec = Math.floor(this.audioContext.sampleRate);
    const channels = 2;
    const sizeOfRIFFChunk = 12;
    const sizeOfFormatChunk = 24;
    const sizeOfDataChunk = l.byteLength + r.byteLength + 8;
    const data = new Uint8Array(sizeOfRIFFChunk + sizeOfFormatChunk + sizeOfDataChunk);
    let i = 0;
    function splitNumToBytesAndAdd(n, bytes) {
        for (let j = 0; j < bytes; j++) {
            data[i + j] = n & 255;
           n >>= 8;
        }
        i += bytes;
    }
    function add(...elems) {
        for (let j = 0; j < elems.length; j++) {
            data[i + j] = elems[j];
       }
        i += elems.length;
    }
    {
        add(0x52, 0x49, 0x46, 0x46);
        splitNumToBytesAndAdd(data.length - 8, 4);
        add(0x57, 0x41, 0x56, 0x45);
        add(0x66, 0x6d, 0x74, 0x20);
        splitNumToBytesAndAdd(sizeOfFormatChunk - 8, 4);
        add(0x1, 0x0);
        add(channels, 0x0);
        splitNumToBytesAndAdd(samplesPerSec, 4);
        splitNumToBytesAndAdd(channels * samplesPerSec * bitsPerSample / 8, 4);
        splitNumToBytesAndAdd(channels * bitsPerSample / 8, 2);
        add(bitsPerSample, 0x0);
        add(0x64, 0x61, 0x74, 0x61);
        splitNumToBytesAndAdd(sizeOfDataChunk - 8, 4);
    }
    for (let j = 0; j < l.length; j++) {
        splitNumToBytesAndAdd(l[j], 2);
        splitNumToBytesAndAdd(r[j], 2);
    }
    window.b64enc(data).then(r => {
        window.renderResult = r;
    });
}
"#;

/// Starts the export once all samples are there, and then sets `window.rdst`.
pub const START_RENDER: &'static str =
    "sampleManager.addOnAllLoadedCallback(()=>{saveAudio(false);window.rdst=true});";

/// Asks whether the export has started.
pub const ASK_STARTED: &'static str = "return window.rdst;";

/// Asks for the time of the last note.
pub const ASK_LENGTH: &'static str = "return song.notes.findLast(n => n.time).time";

/// Asks whether the song is still being played into the export.
pub const ASK_PLAYING: &'static str = "return song.playing;";

/// Asks how far the song has been played.
pub const ASK_TIME: &'static str = "return playTime;";

/// Asks whether the encoded audio is still missing.
pub const ASK_ENCODING: &'static str = "return typeof window.renderResult == 'undefined'";

/// Asks for the encoded audio.
pub const ASK_RESULT: &'static str = "return window.renderResult";

} // verus!
