//! The exact argument lists handed to the external transcoder.

use vstd::prelude::*;
use vstd::string::*;

verus! {

/// The name of the external transcoder executable.
pub fn transcoder_program() -> (r: &'static str)
    ensures
        r@ == "ffmpeg"@,
{
    "ffmpeg"
}

/// Arguments for a conversion run: extract the audio stream only, encode it
/// as MP3 at a fixed 192k bitrate, and overwrite the output unconditionally.
pub fn conversion_args(input: &str, output: &str) -> (r: Vec<String>)
    ensures
        r@.len() == 9,
        r@[0]@ == "-i"@,
        r@[1]@ == input@,
        r@[2]@ == "-vn"@,
        r@[3]@ == "-acodec"@,
        r@[4]@ == "libmp3lame"@,
        r@[5]@ == "-ab"@,
        r@[6]@ == "192k"@,
        r@[7]@ == "-y"@,
        r@[8]@ == output@,
{
    let mut v: Vec<String> = Vec::new();
    v.push(String::from_str("-i"));
    v.push(input.to_owned());
    v.push(String::from_str("-vn"));
    v.push(String::from_str("-acodec"));
    v.push(String::from_str("libmp3lame"));
    v.push(String::from_str("-ab"));
    v.push(String::from_str("192k"));
    v.push(String::from_str("-y"));
    v.push(output.to_owned());
    v
}

/// Arguments for a thumbnail run: seek one second into the video, take a
/// single frame at a fixed quality, and overwrite the generated image.
pub fn thumbnail_args(video: &str, thumbnail: &str) -> (r: Vec<String>)
    ensures
        r@.len() == 10,
        r@[0]@ == "-ss"@,
        r@[1]@ == "00:00:01"@,
        r@[2]@ == "-i"@,
        r@[3]@ == video@,
        r@[4]@ == "-vframes"@,
        r@[5]@ == "1"@,
        r@[6]@ == "-q:v"@,
        r@[7]@ == "2"@,
        r@[8]@ == "-y"@,
        r@[9]@ == thumbnail@,
{
    let mut v: Vec<String> = Vec::new();
    v.push(String::from_str("-ss"));
    v.push(String::from_str("00:00:01"));
    v.push(String::from_str("-i"));
    v.push(video.to_owned());
    v.push(String::from_str("-vframes"));
    v.push(String::from_str("1"));
    v.push(String::from_str("-q:v"));
    v.push(String::from_str("2"));
    v.push(String::from_str("-y"));
    v.push(thumbnail.to_owned());
    v
}

} // verus!
