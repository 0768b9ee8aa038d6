//! What is known about a media file before the catalog is asked: which
//! files count as audio, and whether lyrics already lie beside one.

pub mod clean;
pub mod laws;
pub mod metadata;
pub mod parallel;

use vstd::prelude::*;
use crate::paths::{extension, path_exists, path_extension, path_with_extension, with_extension};
use crate::text::{lowercased, same_text, to_lowercase};

verus! {

/// The extension of a lyrics sidecar file.
pub const LRC_EXTENSION: &'static str = "lrc";

/// Whether a file extension, already in small letters, is one of audio.
pub open spec fn is_audio_extension(ext: Seq<char>) -> bool {
    ext == "flac"@ || ext == "mp3"@ || ext == "m4a"@ || ext == "aac"@ || ext == "opus"@ || ext
        == "ogg"@ || ext == "ape"@ || ext == "wav"@
}

/// Whether a path names an audio file: it has an extension, and that
/// extension in small letters is one of audio.
pub open spec fn is_audio_path(path: Seq<char>) -> bool {
    match path_extension(path) {
        Some(ext) => is_audio_extension(lowercased(ext)),
        None => false,
    }
}

/// Whether a path is to be taken for an audio file, by its extension alone.
pub fn is_audio_file(path: &str) -> (audio: bool)
    ensures
        audio == is_audio_path(path@),
{
    match extension(path) {
        Some(ext) => {
            let ext = to_lowercase(ext.as_str());
            let ext = ext.as_str();
            same_text(ext, "flac") || same_text(ext, "mp3") || same_text(ext, "m4a") || same_text(
                ext,
                "aac",
            ) || same_text(ext, "opus") || same_text(ext, "ogg") || same_text(ext, "ape")
                || same_text(ext, "wav")
        },
        None => false,
    }
}

/// Where the lyrics of an audio file lie: beside it, under the same base
/// name, with the lyrics extension.
pub fn sidecar_path(path: &str) -> (sidecar: String)
    ensures
        sidecar@ == path_with_extension(path@, LRC_EXTENSION@),
{
    proof {
        reveal_strlit("lrc");
    }
    with_extension(path, LRC_EXTENSION)
}

/// Whether lyrics already lie beside the audio file. The answer is the file
/// system's, at the moment of the call.
pub fn has_lrc_sidecar(path: &str) -> bool {
    let sidecar = sidecar_path(path);
    path_exists(sidecar.as_str())
}

} // verus!
