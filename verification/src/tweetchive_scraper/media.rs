//! Media downloads and uploads: where a video is written, which content
//! type a file is given, and what an upload's answer means.

use crate::text::{append_decimal, decimal};
use vstd::prelude::*;
use vstd::string::*;

verus! {

/// The SeaHash digest of `data`, as `seahash::hash` computes it.
pub uninterp spec fn seahash_of(data: Seq<u8>) -> u64;

/// Calls `seahash::hash`. Its result depends on the bytes alone and is named
/// `seahash_of`; nothing more is stated of it.
#[verifier::external_body]
fn seahash(data: &[u8]) -> (h: u64)
    ensures
        h == seahash_of(data@),
{
    seahash::hash(data)
}

/// The file name, without extension, under which the video at `url` is
/// downloaded: the decimal SeaHash digest of the URL's bytes.
pub open spec fn video_stem(url: &str) -> Seq<char> {
    decimal(seahash_of(url.spec_bytes()) as nat)
}

/// The digest part of a video's file name.
pub fn video_file_stem(url: &str) -> (s: String)
    ensures
        s@ == video_stem(url),
{
    let mut s = String::new();
    append_decimal(&mut s, seahash(url.as_bytes()));
    s
}

/// The output option handed to the downloader for the video at `url`.
pub fn video_output_template(url: &str) -> (s: String)
    ensures
        s@ == "-o "@ + video_stem(url) + ".%(ext)s"@,
{
    let mut s = String::from_str("-o ");
    let stem = video_file_stem(url);
    s.append(stem.as_str());
    s.append(".%(ext)s");
    s
}

/// The file that holds the video at `url` once it is remuxed.
pub fn video_file_name(url: &str) -> (s: String)
    ensures
        s@ == video_stem(url) + ".mkv"@,
{
    let mut s = video_file_stem(url);
    s.append(".mkv");
    s
}

/// The content type of a downloaded video.
pub open spec fn video_content_type() -> Seq<char> {
    "video/x-matroska"@
}

/// Why a playlist is not downloaded.
pub open spec fn playlist_message() -> Seq<char> {
    "Playlist Not Supported."@
}

/// The outcome of a video download: its content type when the URL held a
/// single video, an error when it held a playlist.
pub fn video_download_outcome(single_video: bool) -> (r: Result<String, String>)
    ensures
        single_video ==> (r matches Ok(ct) && ct@ == video_content_type()),
        !single_video ==> (r matches Err(m) && m@ == playlist_message()),
{
    if single_video {
        Ok(String::from_str("video/x-matroska"))
    } else {
        Err(String::from_str("Playlist Not Supported."))
    }
}

/// The content type of a downloaded image: the one the server declared,
/// else `image/jpeg`.
pub fn image_content_type(declared: Option<String>) -> (ct: String)
    ensures
        declared matches Some(d) ==> ct@ == d@,
        declared is None ==> ct@ == "image/jpeg"@,
{
    match declared {
        Some(d) => d,
        None => String::from_str("image/jpeg"),
    }
}

/// The object path under which media `id` is stored.
pub fn upload_path(id: &str) -> (p: String)
    ensures
        p@ == "/"@ + id@,
{
    let mut p = String::from_str("/");
    p.append(id);
    p
}

/// The message of a failed upload of media `id` answered with `status`.
pub open spec fn upload_failure(id: Seq<char>, status: u16) -> Seq<char> {
    "Uploading file "@ + id + ": "@ + decimal(status as nat)
}

/// What an upload's status means: stored on 200, failed otherwise.
pub fn upload_outcome(id: &str, status: u16) -> (r: Result<(), String>)
    ensures
        r is Ok <==> status == 200,
        r matches Err(m) ==> m@ == upload_failure(id@, status),
{
    if status == 200 {
        Ok(())
    } else {
        let mut m = String::from_str("Uploading file ");
        m.append(id);
        m.append(": ");
        append_decimal(&mut m, status as u64);
        Err(m)
    }
}

} // verus!
