//! What the scripts have to do with each other.

use crate::scripts::{ASK_ENCODING, ASK_RESULT, OVERRIDE_EXPORT};
use vstd::prelude::*;

verus! {

/// Whether `part` stands in `text` from the place `at` on.
pub open spec fn stands_at(text: Seq<char>, part: Seq<char>, at: int) -> bool {
    0 <= at <= text.len() - part.len() && text.subrange(at, at + part.len()) == part
}

/// Whether `part` stands somewhere in `text`.
pub open spec fn holds(text: Seq<char>, part: Seq<char>) -> bool {
    exists|at: int| #[trigger] stands_at(text, part, at)
}

/// The script that is put in place of the page's audio export replaces that export, and leaves the
/// encoded audio where the scripts that ask for it look.
pub proof fn law_export_is_replaced()
    ensures
        holds(OVERRIDE_EXPORT@, "AudioSystem.prototype.encodeWav = function(left, right)"@),
        holds(OVERRIDE_EXPORT@, "window.b64enc(data).then(r =>"@),
        holds(OVERRIDE_EXPORT@, "window.renderResult = r;"@),
        holds(ASK_ENCODING@, "window.renderResult"@),
        holds(ASK_RESULT@, "window.renderResult"@),
{
    // The text of a constant is known only through a literal that equals it.
    reveal_strlit(
        r#"
window.b64enc = async buffer => {
  const base64url = await new Promise(r => {
    const reader = new FileReader()
    reader.onload = () => r(reader.result)
    reader.readAsDataURL(new Blob([buffer]))
  });
  return base64url.slice(base64url.indexOf(',') + 1);
}

AudioSystem.prototype.encodeWav = function(left, right) {
    let l = toInt16Array(left);
    let r = toInt16Array(right);
    console.assert(l.length == r.length);
    const [start,end] = trimSilence(l, r);
    l = l.subarray(start, end);
    r = r.subarray(start, end);
    const bitsPerSample = 16;
    const samplesPerSec = Math.floor(this.audioContext.sampleRate);
    const channels = 2;
    const sizeOfRIFFChunk = 12;
    const sizeOfFormatChunk = 24;
    const sizeOfDataChunk = l.byteLength + r.byteLength + 8;
    const data = new Uint8Array(sizeOfRIFFChunk + sizeOfFormatChunk + sizeOfDataChunk);
    let i = 0;
    function splitNumToBytesAndAdd(n, bytes) {
        for (let j = 0; j < bytes; j++) {
            data[i + j] = n & 255;
           n >>= 8;
        }
        i += bytes;
    }
    function add(...elems) {
        for (let j = 0; j < elems.length; j++) {
            data[i + j] = elems[j];
       }
        i += elems.length;
    }
    {
        add(0x52, 0x49, 0x46, 0x46);
        splitNumToBytesAndAdd(data.length - 8, 4);
        add(0x57, 0x41, 0x56, 0x45);
        add(0x66, 0x6d, 0x74, 0x20);
        splitNumToBytesAndAdd(sizeOfFormatChunk - 8, 4);
        add(0x1, 0x0);
        add(channels, 0x0);
        splitNumToBytesAndAdd(samplesPerSec, 4);
        splitNumToBytesAndAdd(channels * samplesPerSec * bitsPerSample / 8, 4);
        splitNumToBytesAndAdd(channels * bitsPerSample / 8, 2);
        add(bitsPerSample, 0x0);
        add(0x64, 0x61, 0x74, 0x61);
        splitNumToBytesAndAdd(sizeOfDataChunk - 8, 4);
    }
    for (let j = 0; j < l.length; j++) {
        splitNumToBytesAndAdd(l[j], 2);
        splitNumToBytesAndAdd(r[j], 2);
    }
    window.b64enc(data).then(r => {
        window.renderResult = r;
    });
}
"#,
    );
    reveal_strlit("AudioSystem.prototype.encodeWav = function(left, right)");
    reveal_strlit("window.b64enc(data).then(r =>");
    reveal_strlit("window.renderResult = r;");
    reveal_strlit("window.renderResult");
    reveal_strlit("return typeof window.renderResult == 'undefined'");
    reveal_strlit("return window.renderResult");
    assert(OVERRIDE_EXPORT@.subrange(267, 322) =~= "AudioSystem.prototype.encodeWav = function(left, right)"@);
    assert(stands_at(OVERRIDE_EXPORT@, "AudioSystem.prototype.encodeWav = function(left, right)"@, 267));
    assert(OVERRIDE_EXPORT@.subrange(1958, 1987) =~= "window.b64enc(data).then(r =>"@);
    assert(stands_at(OVERRIDE_EXPORT@, "window.b64enc(data).then(r =>"@, 1958));
    assert(OVERRIDE_EXPORT@.subrange(1998, 2022) =~= "window.renderResult = r;"@);
    assert(stands_at(OVERRIDE_EXPORT@, "window.renderResult = r;"@, 1998));
    assert(ASK_ENCODING@.subrange(14, 33) =~= "window.renderResult"@);
    assert(stands_at(ASK_ENCODING@, "window.renderResult"@, 14));
    assert(ASK_RESULT@.subrange(7, 26) =~= "window.renderResult"@);
    assert(stands_at(ASK_RESULT@, "window.renderResult"@, 7));
}

} // verus!
