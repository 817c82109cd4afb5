//! The audio files that a render leaves behind.

use crate::command::{texts, Command, CommandView};
use crate::text::{around_number, decimal};
use vstd::prelude::*;

verus! {

/// A format in which finished renders are offered.
#[derive(Debug, Copy, Clone, PartialEq, Eq, Structural)]
pub enum AudioFormat {
    Wav,
    Ogg,
    Mp3,
}

impl AudioFormat {
    /// The end of the names of files in this format.
    pub open spec fn extension(self) -> Seq<char> {
        match self {
            AudioFormat::Wav => ".wav"@,
            AudioFormat::Ogg => ".ogg"@,
            AudioFormat::Mp3 => ".mp3"@,
        }
    }
}

/// Where the render of sequence `id` is kept in `format`.
pub open spec fn export_path(id: u32, format: AudioFormat) -> Seq<char> {
    "exports/"@ + decimal(id as nat) + format.extension()
}

/// Where the render of sequence `id` is kept in `format`.
pub fn export_path_text(id: u32, format: AudioFormat) -> (path: String)
    ensures
        path@ == export_path(id, format),
{
    let extension = match format {
        AudioFormat::Wav => ".wav",
        AudioFormat::Ogg => ".ogg",
        AudioFormat::Mp3 => ".mp3",
    };
    around_number("exports/", id as u64, extension)
}

/// The arguments with which ffmpeg turns the recording of sequence `id` into the other formats.
pub open spec fn conversion(id: u32) -> Seq<Seq<char>> {
    seq![
        "-y"@,
        "-i"@,
        export_path(id, AudioFormat::Wav),
        export_path(id, AudioFormat::Ogg),
        "-q:a"@,
        "0"@,
        export_path(id, AudioFormat::Mp3),
    ]
}

/// The command that turns the recording of sequence `id` into the other formats.
pub fn convert_audio(id: u32, ffmpeg_path: String) -> (command: Command)
    ensures
        command@ == (CommandView { program: ffmpeg_path@, args: conversion(id) }),
{
    let mut args: Vec<String> = Vec::new();
    args.push("-y".to_owned());
    args.push("-i".to_owned());
    args.push(export_path_text(id, AudioFormat::Wav));
    args.push(export_path_text(id, AudioFormat::Ogg));
    args.push("-q:a".to_owned());
    args.push("0".to_owned());
    args.push(export_path_text(id, AudioFormat::Mp3));
    assert(texts(args@) =~= conversion(id));
    Command { program: ffmpeg_path, args }
}

/// Whether `probe` gave `answer` when asked about `path`.
pub open spec fn answered<F: Fn(&str) -> bool>(probe: F, path: Seq<char>, answer: bool) -> bool {
    exists|text: &str| text@ == path && #[trigger] probe.ensures((text,), answer)
}

/// Whether `all` is what `probe` told about the files of the render of sequence `id`: that they
/// are all there, or that one is missing after those that were asked for before it were not.
pub open spec fn told<F: Fn(&str) -> bool>(probe: F, id: u32, all: bool) -> bool {
    let wav = export_path(id, AudioFormat::Wav);
    let ogg = export_path(id, AudioFormat::Ogg);
    let mp3 = export_path(id, AudioFormat::Mp3);
    if all {
        answered(probe, wav, true) && answered(probe, ogg, true) && answered(probe, mp3, true)
    } else {
        ||| answered(probe, wav, false)
        ||| answered(probe, wav, true) && answered(probe, ogg, false)
        ||| answered(probe, wav, true) && answered(probe, ogg, true) && answered(probe, mp3, false)
    }
}

/// Whether the render of sequence `id` is there in every format, as told by `probe`, which says
/// whether there is a file at a path. The formats are asked for in turn, up to the first that
/// is missing.
pub fn render_exists<F: Fn(&str) -> bool>(id: u32, probe: F) -> (all: bool)
    requires
        forall|path: &str| probe.requires((path,)),
    ensures
        told(probe, id, all),
        all ==> {
            &&& answered(probe, export_path(id, AudioFormat::Wav), true)
            &&& answered(probe, export_path(id, AudioFormat::Ogg), true)
            &&& answered(probe, export_path(id, AudioFormat::Mp3), true)
        },
        !all ==> {
            ||| answered(probe, export_path(id, AudioFormat::Wav), false)
            ||| answered(probe, export_path(id, AudioFormat::Wav), true)
                && answered(probe, export_path(id, AudioFormat::Ogg), false)
            ||| answered(probe, export_path(id, AudioFormat::Wav), true)
                && answered(probe, export_path(id, AudioFormat::Ogg), true)
                && answered(probe, export_path(id, AudioFormat::Mp3), false)
        },
{
    let wav = export_path_text(id, AudioFormat::Wav);
    let ogg = export_path_text(id, AudioFormat::Ogg);
    let mp3 = export_path_text(id, AudioFormat::Mp3);
    probe(wav.as_str()) && probe(ogg.as_str()) && probe(mp3.as_str())
}

} // verus!
