use vstd::prelude::*;

use crate::error::ContextError;
use crate::frame::MediaKind;
use vstd::string::StringSliceAdditionalSpecFns;

verus! {

#[verifier::external_type_specification]
#[verifier::external_body]
pub struct ExUrl(url::Url);

#[verifier::external_type_specification]
#[verifier::external_body]
pub struct ExUrlParseError(url::ParseError);

#[verifier::external_type_specification]
#[verifier::external_body]
pub struct ExTempPath(tempfile::TempPath);

/// Whether the URL parser accepts a text as an absolute URL.
pub uninterp spec fn url_accepts(s: Seq<char>) -> bool;

/// Relies on url::Url::parse: it succeeds exactly on the texts it accepts, and
/// which those are depends on the text alone.
#[verifier::external_body]
fn parse_url(s: &str) -> (r: Result<url::Url, url::ParseError>)
    ensures
        r is Ok <==> url_accepts(s@),
{
    url::Url::parse(s)
}

/// Where the media to transcode comes from.
pub enum Input {
    Path(String),
    URL(url::Url),
}

/// A local file that holds the input: the given one, or a temporary download
/// that lives as long as this value.
pub enum InputPath {
    Path(String),
    TempPath(tempfile::TempPath),
}

impl Input {
    /// Reads a command-line source: a text that parses as a URL is remote,
    /// anything else is a local path.
    pub fn from_arg(s: &str) -> (r: Input)
        ensures
            r is URL <==> url_accepts(s@),
            r matches Input::Path(p) ==> p@ == s@,
    {
        match parse_url(s) {
            Ok(u) => Input::URL(u),
            Err(_) => Input::Path(s.to_owned()),
        }
    }
}

/// Whether `bytes` starts with `prefix`.
pub open spec fn starts_with(bytes: Seq<u8>, prefix: Seq<u8>) -> bool {
    prefix.len() <= bytes.len() && bytes.subrange(0, prefix.len() as int) == prefix
}

/// The bytes of "video/".
pub open spec fn video_prefix() -> Seq<u8> {
    seq![118u8, 105u8, 100u8, 101u8, 111u8, 47u8]
}

/// The bytes of "audio/".
pub open spec fn audio_prefix() -> Seq<u8> {
    seq![97u8, 117u8, 100u8, 105u8, 111u8, 47u8]
}

/// The media kind that a content-type header announces, if any: its type part,
/// before the first '/', is "video" or "audio".
pub open spec fn content_kind(ct: Seq<u8>) -> Option<MediaKind> {
    if starts_with(ct, video_prefix()) {
        Some(MediaKind::Video)
    } else if starts_with(ct, audio_prefix()) {
        Some(MediaKind::Audio)
    } else {
        None
    }
}

fn has_prefix(bytes: &[u8], prefix: &[u8]) -> (r: bool)
    ensures
        r == starts_with(bytes@, prefix@),
{
    if prefix.len() > bytes.len() {
        return false;
    }
    let mut i: usize = 0;
    while i < prefix.len()
        invariant
            prefix@.len() <= bytes@.len(),
            i <= prefix@.len(),
            forall|j: int| 0 <= j < i ==> bytes@[j] == prefix@[j],
        decreases prefix@.len() - i,
    {
        if bytes[i] != prefix[i] {
            assert(bytes@.subrange(0, prefix@.len() as int)[i as int] != prefix@[i as int]);
            return false;
        }
        i = i + 1;
    }
    assert(bytes@.subrange(0, prefix@.len() as int) =~= prefix@);
    true
}

/// Checks the content type announced for a remote input: it names the media
/// kind, or the download is refused with `InvalidContentType`.
pub fn check_content_type(ct: &str) -> (r: Result<MediaKind, ContextError>)
    ensures
        content_kind(ct.spec_bytes()) matches Some(k) ==> r == Ok::<MediaKind, ContextError>(k),
        content_kind(ct.spec_bytes()) is None ==> (r matches Err(
            ContextError::InvalidContentType(m),
        ) && m@ == ct@),
{
    let bytes = ct.as_bytes();
    let video: [u8; 6] = [118u8, 105u8, 100u8, 101u8, 111u8, 47u8];
    let audio: [u8; 6] = [97u8, 117u8, 100u8, 105u8, 111u8, 47u8];
    assert(video@ =~= video_prefix());
    assert(audio@ =~= audio_prefix());
    if has_prefix(bytes, &video) {
        Ok(MediaKind::Video)
    } else if has_prefix(bytes, &audio) {
        Ok(MediaKind::Audio)
    } else {
        Err(ContextError::InvalidContentType(ct.to_owned()))
    }
}

} // verus!
