//! Decisions of the pipeline set-up that do not touch a device or a file.

use vstd::prelude::*;
use crate::features::str_eq;

verus! {

/// How many frames may wait between a video source and the render loop.
pub const FRAME_QUEUE_CAPACITY: usize = 3;

/// How many commands may wait between the render loop and a source.
pub const COMMAND_QUEUE_CAPACITY: usize = 10;

/// Where the audio comes from.
#[derive(Clone, Copy, Debug, PartialEq, Eq, Structural)]
pub enum AudioRoute {
    /// Live capture from the default input device.
    Microphone,
    /// Analysis of the audio file at the given path.
    File,
    /// The argument names a file that does not exist.
    Missing,
}

/// Where the pixels come from.
#[derive(Clone, Copy, Debug, PartialEq, Eq, Structural)]
pub enum SourceRoute {
    /// A still image, held as one shared frame.
    Image,
    /// A video, streamed through a bounded queue.
    Video,
    /// No visual source.
    Nothing,
}

/// Whether an audio argument asks for the microphone.
pub open spec fn is_microphone_spec(audio_arg: Seq<char>) -> bool {
    audio_arg == "default"@ || audio_arg == "mic"@ || audio_arg == "microphone"@
}

/// The route for an audio argument: the microphone for `default`, `mic` and
/// `microphone`, else the file of that path if it exists.
pub open spec fn audio_route_spec(audio_arg: Seq<char>, path_exists: bool) -> AudioRoute {
    if is_microphone_spec(audio_arg) {
        AudioRoute::Microphone
    } else if path_exists {
        AudioRoute::File
    } else {
        AudioRoute::Missing
    }
}

/// Whether an audio argument asks for the microphone.
pub fn is_microphone(audio_arg: &str) -> (r: bool)
    ensures
        r == is_microphone_spec(audio_arg@),
{
    str_eq(audio_arg, "default") || str_eq(audio_arg, "mic") || str_eq(audio_arg, "microphone")
}

/// Chooses the audio route. `path_exists` says whether the argument, read
/// as a path, names an existing file; it is not consulted for the
/// microphone.
pub fn audio_route(audio_arg: &str, path_exists: bool) -> (r: AudioRoute)
    ensures
        r == audio_route_spec(audio_arg@, path_exists),
{
    if is_microphone(audio_arg) {
        AudioRoute::Microphone
    } else if path_exists {
        AudioRoute::File
    } else {
        AudioRoute::Missing
    }
}

/// Chooses the visual route: an image wins over a video.
pub fn source_route(has_image: bool, has_video: bool) -> (r: SourceRoute)
    ensures
        has_image ==> r == SourceRoute::Image,
        !has_image && has_video ==> r == SourceRoute::Video,
        !has_image && !has_video ==> r == SourceRoute::Nothing,
{
    if has_image {
        SourceRoute::Image
    } else if has_video {
        SourceRoute::Video
    } else {
        SourceRoute::Nothing
    }
}

} // verus!
