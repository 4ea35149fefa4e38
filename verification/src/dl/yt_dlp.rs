//! What yt-dlp reports of a video, and the choice of the formats to download.
use vstd::prelude::*;

use super::spawn::{spawn_message_of, SpawnError};
use super::tmpfile::{TmpFile, TmpFileError};
use crate::text::{occurs_in, push_chars, push_text, str_contains, str_eq, texts};

verus! {

/// Formats taller than this are never chosen by height.
pub const H_LIMIT: u16 = 1080;

/// One format of a video, as yt-dlp lists it.
///
/// yt-dlp gives the bitrates `vbr` and `abr` as floating-point numbers; here
/// each stands as an integer rank: two formats compare by their rank exactly as
/// their bitrates compare in the total order of floats that puts NaN above
/// every number.
pub struct YtDlpFormat {
    pub format_id: String,
    pub format_note: Option<String>,
    pub audio_channels: Option<u8>,
    pub width: Option<u16>,
    pub height: Option<u16>,
    pub ext: String,
    pub vcodec: Option<String>,
    pub acodec: Option<String>,
    pub vbr: Option<u32>,
    pub abr: Option<u32>,
}

/// A format with all that a video format needs.
pub struct VideoFormat<'a> {
    pub format: &'a YtDlpFormat,
    pub format_note: &'a String,
    pub width: u16,
    pub height: u16,
    pub vbr: u32,
}

/// A format with an audio bitrate.
pub struct AudioFormat<'a> {
    pub format: &'a YtDlpFormat,
    pub abr: u32,
}

/// What yt-dlp reports of a video.
pub struct YtDlpInfo {
    pub id: String,
    pub title: String,
    pub formats: Vec<YtDlpFormat>,
}

/// serde_json's error, carried through as it is.
#[verifier::external_type_specification]
#[verifier::external_body]
pub struct ExJsonError(serde_json::Error);

/// Why asking yt-dlp failed.
pub enum YtDlpError {
    SpawnError(SpawnError),
    ErrorMessage(String),
    JsonError,
    NoFormats,
    MakePathError,
    NoFilePresent,
}

/// Runs yt-dlp.
pub struct YtDlp {}

/// The arguments with which yt-dlp reports what it knows of `url`, as JSON.
pub open spec fn info_args_spec(url: Seq<char>) -> Seq<Seq<char>> {
    seq!["-m"@, "yt_dlp"@, url, "-j"@]
}

/// The arguments with which yt-dlp downloads the format `format_id` of `url` to `path`.
pub open spec fn download_args_spec(url: Seq<char>, format_id: Seq<char>, path: Seq<char>) -> Seq<Seq<char>> {
    seq!["-m"@, "yt_dlp"@, url, "-f"@, format_id, "-o"@, path, "--force-overwrites"@]
}

/// The name of the file that a format of a video is downloaded to.
pub open spec fn download_file_name_spec(id: Seq<char>, format_id: Seq<char>, ext: Seq<char>) -> Seq<char> {
    id + "_"@ + format_id + "."@ + ext
}

/// Whether a codec field says that the format has no such stream.
pub open spec fn is_none_codec(codec: Option<String>) -> bool {
    codec matches Some(c) && c@ == "none"@
}

/// A codec field with yt-dlp's `"none"` read as absent.
pub open spec fn processed_codec(codec: Option<String>) -> Option<String> {
    if is_none_codec(codec) { None } else { codec }
}

/// A format with its codec fields processed.
pub open spec fn processed(f: YtDlpFormat) -> YtDlpFormat {
    YtDlpFormat { acodec: processed_codec(f.acodec), vcodec: processed_codec(f.vcodec), ..f }
}

/// The format has a note, a width, a height and a video bitrate.
pub open spec fn has_video_fields(f: YtDlpFormat) -> bool {
    &&& f.format_note is Some
    &&& f.width is Some
    &&& f.height is Some
    &&& f.vbr is Some
}

/// The format is stored in an MP4 container.
pub open spec fn spec_is_mp4(f: YtDlpFormat) -> bool {
    f.ext@ == "mp4"@
}

/// The format note marks the format as reserved to premium users.
pub open spec fn spec_is_premium(note: Seq<char>) -> bool {
    occurs_in("Premium"@, note)
}

/// The ways in which a best format is chosen.
#[derive(PartialEq, Eq, Structural, Clone, Copy)]
pub enum Choice {
    /// A format with both codecs and all video fields, largest by (width, height).
    AudioVideo,
    /// A format with an audio bitrate, largest by that bitrate.
    Audio,
    /// An MP4, non-premium format with all video fields and a height within
    /// the limit, largest by video bitrate.
    Video,
    /// A format with a height within the limit; all of them rank alike.
    Fallback,
}

/// Whether `f` takes part in the choice `c`.
pub open spec fn candidate(c: Choice, f: YtDlpFormat) -> bool {
    match c {
        Choice::AudioVideo => f.vcodec is Some && f.acodec is Some && has_video_fields(f),
        Choice::Audio => f.abr is Some,
        Choice::Video => has_video_fields(f) && f.height->0 <= H_LIMIT && spec_is_mp4(f)
            && !spec_is_premium(f.format_note->0@),
        Choice::Fallback => f.height matches Some(h) && h <= H_LIMIT,
    }
}

/// The rank of a candidate `f` in the choice `c`; (width, height) pairs rank
/// as pairs do, first by width and then by height.
pub open spec fn rank(c: Choice, f: YtDlpFormat) -> int {
    match c {
        Choice::AudioVideo => f.width->0 as int * 65536 + f.height->0 as int,
        Choice::Audio => f.abr->0 as int,
        Choice::Video => f.vbr->0 as int,
        Choice::Fallback => 0,
    }
}

/// `i` is the last position that holds a candidate of the highest rank: the
/// element that std's `Iterator::max_by_key` returns over the candidates.
pub open spec fn is_last_best(s: Seq<YtDlpFormat>, c: Choice, i: int) -> bool {
    &&& 0 <= i < s.len()
    &&& candidate(c, s[i])
    &&& forall|j: int| 0 <= j < s.len() && #[trigger] candidate(c, s[j]) ==> rank(c, s[j]) <= rank(c, s[i])
    &&& forall|j: int| i < j < s.len() && #[trigger] candidate(c, s[j]) ==> rank(c, s[j]) < rank(c, s[i])
}

/// The position of the best candidate, if any format is a candidate.
pub open spec fn best_position(s: Seq<YtDlpFormat>, c: Choice) -> Option<int> {
    if exists|i: int| is_last_best(s, c, i) {
        Some(choose|i: int| is_last_best(s, c, i))
    } else {
        None
    }
}

/// There is one best candidate at most.
pub proof fn lemma_last_best_unique(s: Seq<YtDlpFormat>, c: Choice, i: int, j: int)
    requires
        is_last_best(s, c, i),
        is_last_best(s, c, j),
    ensures
        i == j,
{
    if i < j {
        assert(candidate(c, s[j]));
    } else if j < i {
        assert(candidate(c, s[i]));
    }
}

/// `i` is the first position whose format has the id `id`.
pub open spec fn is_first_with_id(s: Seq<YtDlpFormat>, id: Seq<char>, i: int) -> bool {
    &&& 0 <= i < s.len()
    &&& s[i].format_id@ == id
    &&& forall|j: int| 0 <= j < i ==> #[trigger] s[j].format_id@ != id
}

/// The position of the format that std's `Iterator::find` gives for the first
/// format whose id is `id`.
pub open spec fn first_with_id(s: Seq<YtDlpFormat>, id: Seq<char>) -> Option<int> {
    if exists|i: int| is_first_with_id(s, id, i) {
        Some(choose|i: int| is_first_with_id(s, id, i))
    } else {
        None
    }
}

/// The position of the default format: the last one within the height
/// limit, or else the last one of all.
pub open spec fn default_position(s: Seq<YtDlpFormat>) -> Option<int> {
    match best_position(s, Choice::Fallback) {
        Some(i) => Some(i),
        None => if s.len() > 0 { Some(s.len() - 1) } else { None },
    }
}

/// The format at a position, where there is a position.
pub open spec fn format_at(s: Seq<YtDlpFormat>, p: Option<int>) -> Option<YtDlpFormat> {
    match p {
        Some(i) => Some(s[i]),
        None => None,
    }
}

/// The format that a reference points to, where there is one.
pub open spec fn referenced(r: Option<&YtDlpFormat>) -> Option<YtDlpFormat> {
    match r {
        Some(f) => Some(*f),
        None => None,
    }
}

/// Law: reading `"none"` codecs as absent a second time changes nothing.
pub proof fn law_process_idempotent(f: YtDlpFormat)
    ensures
        processed(processed(f)) == processed(f),
{
}

/// Where some format is a candidate, there is a best candidate.
proof fn lemma_best_exists(s: Seq<YtDlpFormat>, c: Choice, k: int)
    requires
        0 <= k < s.len(),
        candidate(c, s[k]),
    ensures
        exists|i: int| is_last_best(s, c, i),
    decreases s.len(),
{
    let p = s.drop_last();
    let n = s.len() - 1;
    let x = s[n];
    if exists|j: int| 0 <= j < p.len() && #[trigger] candidate(c, p[j]) {
        let j = choose|j: int| 0 <= j < p.len() && #[trigger] candidate(c, p[j]);
        lemma_best_exists(p, c, j);
        let b = choose|b: int| is_last_best(p, c, b);
        assert(candidate(c, s[b]));
        if candidate(c, x) && rank(c, x) >= rank(c, p[b]) {
            assert forall|j: int| 0 <= j < s.len() && #[trigger] candidate(c, s[j]) implies rank(c, s[j]) <= rank(c, s[n]) by {
                if j < n {
                    assert(s[j] == p[j]);
                    assert(candidate(c, p[j]));
                }
            }
            assert(is_last_best(s, c, n));
        } else {
            assert forall|j: int| 0 <= j < s.len() && #[trigger] candidate(c, s[j]) implies rank(c, s[j]) <= rank(c, s[b]) by {
                if j < n {
                    assert(s[j] == p[j]);
                    assert(candidate(c, p[j]));
                }
            }
            assert forall|j: int| b < j < s.len() && #[trigger] candidate(c, s[j]) implies rank(c, s[j]) < rank(c, s[b]) by {
                if j < n {
                    assert(s[j] == p[j]);
                    assert(candidate(c, p[j]));
                }
            }
            assert(is_last_best(s, c, b));
        }
    } else {
        assert(k == n) by {
            if k < n {
                assert(s[k] == p[k]);
            }
        }
        assert forall|j: int| 0 <= j < s.len() && #[trigger] candidate(c, s[j]) implies rank(c, s[j]) <= rank(c, s[n]) by {
            if j < n {
                assert(s[j] == p[j]);
            }
        }
        assert(is_last_best(s, c, n));
    }
}

/// Law: a best candidate is found exactly where some format is a candidate,
/// and it is a candidate whose rank no candidate exceeds.
pub proof fn law_best_exists_iff_candidate(s: Seq<YtDlpFormat>, c: Choice)
    ensures
        best_position(s, c) is Some <==> exists|k: int| 0 <= k < s.len() && #[trigger] candidate(c, s[k]),
        best_position(s, c) matches Some(i) ==> is_last_best(s, c, i),
{
    if exists|k: int| 0 <= k < s.len() && #[trigger] candidate(c, s[k]) {
        let k = choose|k: int| 0 <= k < s.len() && #[trigger] candidate(c, s[k]);
        lemma_best_exists(s, c, k);
    }
}

/// Law: the best video format, where there is one, is an MP4 format within
/// the height limit that is not reserved to premium users, and no such format
/// has a higher video bitrate.
pub proof fn law_best_video_qualifies(s: Seq<YtDlpFormat>)
    ensures
        best_position(s, Choice::Video) matches Some(i) ==> {
            &&& spec_is_mp4(s[i])
            &&& !spec_is_premium(s[i].format_note->0@)
            &&& s[i].height matches Some(h) && h <= H_LIMIT
            &&& forall|j: int| 0 <= j < s.len() && #[trigger] candidate(Choice::Video, s[j])
                ==> s[j].vbr->0 <= s[i].vbr->0
        },
{
    law_best_exists_iff_candidate(s, Choice::Video);
}

/// Law: there is a default format exactly where there is any format.
pub proof fn law_default_exists_iff_nonempty(s: Seq<YtDlpFormat>)
    ensures
        default_position(s) is Some <==> s.len() > 0,
        default_position(s) matches Some(i) ==> 0 <= i < s.len(),
{
    law_best_exists_iff_candidate(s, Choice::Fallback);
}

/// `(w1, h1)` is no larger than `(w2, h2)` as pairs: first by width, then by height.
proof fn lemma_pair_rank(w1: u16, h1: u16, w2: u16, h2: u16)
    ensures
        (w1 * 65536 + h1 <= w2 * 65536 + h2) <==> (w1 < w2 || (w1 == w2 && h1 <= h2)),
        (w1 * 65536 + h1 < w2 * 65536 + h2) <==> (w1 < w2 || (w1 == w2 && h1 < h2)),
{
    assert((w1 * 65536 + h1 <= w2 * 65536 + h2) <==> (w1 < w2 || (w1 == w2 && h1 <= h2))) by (nonlinear_arith);
    assert((w1 * 65536 + h1 < w2 * 65536 + h2) <==> (w1 < w2 || (w1 == w2 && h1 < h2))) by (nonlinear_arith);
}

/// Law: the best format with both video and audio is a format with both
/// codecs, a note, a width, a height and a video bitrate; no such format is
/// larger by (width, height); and no later such format is as large (of equal
/// maxima, the last is taken). There is one exactly where some format
/// qualifies.
pub proof fn law_best_av_is_last_largest(s: Seq<YtDlpFormat>)
    ensures
        best_position(s, Choice::AudioVideo) is Some <==> exists|k: int| 0 <= k < s.len()
            && (#[trigger] s[k]).vcodec is Some && s[k].acodec is Some && s[k].format_note is Some
            && s[k].width is Some && s[k].height is Some && s[k].vbr is Some,
        best_position(s, Choice::AudioVideo) matches Some(i) ==> {
            &&& 0 <= i < s.len()
            &&& s[i].vcodec is Some && s[i].acodec is Some && s[i].format_note is Some
            &&& s[i].width is Some && s[i].height is Some && s[i].vbr is Some
            &&& forall|j: int| 0 <= j < s.len() && (#[trigger] s[j]).vcodec is Some && s[j].acodec is Some
                && s[j].format_note is Some && s[j].width is Some && s[j].height is Some && s[j].vbr is Some
                ==> (s[j].width->0 < s[i].width->0 || (s[j].width->0 == s[i].width->0 && s[j].height->0 <= s[i].height->0))
            &&& forall|j: int| i < j < s.len() && (#[trigger] s[j]).vcodec is Some && s[j].acodec is Some
                && s[j].format_note is Some && s[j].width is Some && s[j].height is Some && s[j].vbr is Some
                ==> (s[j].width->0 < s[i].width->0 || (s[j].width->0 == s[i].width->0 && s[j].height->0 < s[i].height->0))
        },
{
    let c = Choice::AudioVideo;
    law_best_exists_iff_candidate(s, c);
    if exists|k: int| 0 <= k < s.len()
            && (#[trigger] s[k]).vcodec is Some && s[k].acodec is Some && s[k].format_note is Some
            && s[k].width is Some && s[k].height is Some && s[k].vbr is Some {
        let k = choose|k: int| 0 <= k < s.len()
            && (#[trigger] s[k]).vcodec is Some && s[k].acodec is Some && s[k].format_note is Some
            && s[k].width is Some && s[k].height is Some && s[k].vbr is Some;
        assert(candidate(c, s[k]));
    }
    if let Some(i) = best_position(s, c) {
        assert forall|j: int| 0 <= j < s.len() && (#[trigger] s[j]).vcodec is Some && s[j].acodec is Some
            && s[j].format_note is Some && s[j].width is Some && s[j].height is Some && s[j].vbr is Some
            implies (s[j].width->0 < s[i].width->0 || (s[j].width->0 == s[i].width->0 && s[j].height->0 <= s[i].height->0)) by {
            assert(candidate(c, s[j]));
            lemma_pair_rank(s[j].width->0, s[j].height->0, s[i].width->0, s[i].height->0);
        }
        assert forall|j: int| i < j < s.len() && (#[trigger] s[j]).vcodec is Some && s[j].acodec is Some
            && s[j].format_note is Some && s[j].width is Some && s[j].height is Some && s[j].vbr is Some
            implies (s[j].width->0 < s[i].width->0 || (s[j].width->0 == s[i].width->0 && s[j].height->0 < s[i].height->0)) by {
            assert(candidate(c, s[j]));
            lemma_pair_rank(s[j].width->0, s[j].height->0, s[i].width->0, s[i].height->0);
        }
    }
}

/// Law: the best audio format has an audio bitrate that no format exceeds,
/// and no later format has one as high (of equal maxima, the last is taken).
/// There is one exactly where some format has an audio bitrate.
pub proof fn law_best_audio_is_last_largest(s: Seq<YtDlpFormat>)
    ensures
        best_position(s, Choice::Audio) is Some <==> exists|k: int| 0 <= k < s.len() && (#[trigger] s[k]).abr is Some,
        best_position(s, Choice::Audio) matches Some(i) ==> {
            &&& 0 <= i < s.len()
            &&& s[i].abr is Some
            &&& forall|j: int| 0 <= j < s.len() && (#[trigger] s[j]).abr is Some ==> s[j].abr->0 <= s[i].abr->0
            &&& forall|j: int| i < j < s.len() && (#[trigger] s[j]).abr is Some ==> s[j].abr->0 < s[i].abr->0
        },
{
    let c = Choice::Audio;
    law_best_exists_iff_candidate(s, c);
    if exists|k: int| 0 <= k < s.len() && (#[trigger] s[k]).abr is Some {
        let k = choose|k: int| 0 <= k < s.len() && (#[trigger] s[k]).abr is Some;
        assert(candidate(c, s[k]));
    }
    if let Some(i) = best_position(s, c) {
        assert forall|j: int| 0 <= j < s.len() && (#[trigger] s[j]).abr is Some implies s[j].abr->0 <= s[i].abr->0 by {
            assert(candidate(c, s[j]));
        }
        assert forall|j: int| i < j < s.len() && (#[trigger] s[j]).abr is Some implies s[j].abr->0 < s[i].abr->0 by {
            assert(candidate(c, s[j]));
        }
    }
}

/// Law: the best video format is an MP4 format with a note, a width, a height
/// at most 1080 and a video bitrate, whose note does not mark it premium; no
/// such format has a higher video bitrate, and no later one as high. There is
/// one exactly where some format is such a format.
pub proof fn law_best_video_is_last_largest(s: Seq<YtDlpFormat>)
    ensures
        best_position(s, Choice::Video) is Some <==> exists|k: int| 0 <= k < s.len()
            && (#[trigger] s[k]).format_note is Some && s[k].width is Some && s[k].vbr is Some
            && s[k].height is Some && s[k].height->0 <= 1080 && s[k].ext@ == "mp4"@
            && !occurs_in("Premium"@, s[k].format_note->0@),
        best_position(s, Choice::Video) matches Some(i) ==> {
            &&& 0 <= i < s.len()
            &&& s[i].format_note is Some && s[i].width is Some && s[i].vbr is Some
            &&& s[i].height is Some && s[i].height->0 <= 1080
            &&& s[i].ext@ == "mp4"@
            &&& !occurs_in("Premium"@, s[i].format_note->0@)
            &&& forall|j: int| 0 <= j < s.len() && (#[trigger] s[j]).format_note is Some && s[j].width is Some
                && s[j].vbr is Some && s[j].height is Some && s[j].height->0 <= 1080 && s[j].ext@ == "mp4"@
                && !occurs_in("Premium"@, s[j].format_note->0@) ==> s[j].vbr->0 <= s[i].vbr->0
            &&& forall|j: int| i < j < s.len() && (#[trigger] s[j]).format_note is Some && s[j].width is Some
                && s[j].vbr is Some && s[j].height is Some && s[j].height->0 <= 1080 && s[j].ext@ == "mp4"@
                && !occurs_in("Premium"@, s[j].format_note->0@) ==> s[j].vbr->0 < s[i].vbr->0
        },
{
    let c = Choice::Video;
    law_best_exists_iff_candidate(s, c);
    if exists|k: int| 0 <= k < s.len()
            && (#[trigger] s[k]).format_note is Some && s[k].width is Some && s[k].vbr is Some
            && s[k].height is Some && s[k].height->0 <= 1080 && s[k].ext@ == "mp4"@
            && !occurs_in("Premium"@, s[k].format_note->0@) {
        let k = choose|k: int| 0 <= k < s.len()
            && (#[trigger] s[k]).format_note is Some && s[k].width is Some && s[k].vbr is Some
            && s[k].height is Some && s[k].height->0 <= 1080 && s[k].ext@ == "mp4"@
            && !occurs_in("Premium"@, s[k].format_note->0@);
        assert(candidate(c, s[k]));
    }
    if let Some(i) = best_position(s, c) {
        assert forall|j: int| 0 <= j < s.len() && (#[trigger] s[j]).format_note is Some && s[j].width is Some
            && s[j].vbr is Some && s[j].height is Some && s[j].height->0 <= 1080 && s[j].ext@ == "mp4"@
            && !occurs_in("Premium"@, s[j].format_note->0@) implies s[j].vbr->0 <= s[i].vbr->0 by {
            assert(candidate(c, s[j]));
        }
        assert forall|j: int| i < j < s.len() && (#[trigger] s[j]).format_note is Some && s[j].width is Some
            && s[j].vbr is Some && s[j].height is Some && s[j].height->0 <= 1080 && s[j].ext@ == "mp4"@
            && !occurs_in("Premium"@, s[j].format_note->0@) implies s[j].vbr->0 < s[i].vbr->0 by {
            assert(candidate(c, s[j]));
        }
    }
}

/// Law: where some format is at most 1080 pixels tall, the default format is
/// the last such format; where none is, it is the last format of all; where
/// there are no formats, there is none.
pub proof fn law_default_is_last_within_limit(s: Seq<YtDlpFormat>)
    ensures
        (exists|k: int| 0 <= k < s.len() && (#[trigger] s[k]).height is Some && s[k].height->0 <= 1080) ==> (
            default_position(s) matches Some(i) && 0 <= i < s.len()
            && (s[i].height is Some && s[i].height->0 <= 1080)
            && forall|j: int| i < j < s.len() ==> !((#[trigger] s[j]).height is Some && s[j].height->0 <= 1080)),
        (forall|k: int| 0 <= k < s.len() ==> !((#[trigger] s[k]).height is Some && s[k].height->0 <= 1080)) && s.len() > 0
            ==> default_position(s) == Some(s.len() - 1),
        s.len() == 0 ==> default_position(s) is None,
{
    let c = Choice::Fallback;
    law_best_exists_iff_candidate(s, c);
    if exists|k: int| 0 <= k < s.len() && (#[trigger] s[k]).height is Some && s[k].height->0 <= 1080 {
        let k = choose|k: int| 0 <= k < s.len() && (#[trigger] s[k]).height is Some && s[k].height->0 <= 1080;
        assert(candidate(c, s[k]));
        let i = best_position(s, c)->0;
        assert forall|j: int| i < j < s.len() implies !((#[trigger] s[j]).height is Some && s[j].height->0 <= 1080) by {
            if s[j].height is Some && s[j].height->0 <= 1080 {
                assert(candidate(c, s[j]));
            }
        }
    }
    if (forall|k: int| 0 <= k < s.len() ==> !((#[trigger] s[k]).height is Some && s[k].height->0 <= 1080)) {
        assert forall|k: int| 0 <= k < s.len() implies !#[trigger] candidate(c, s[k]) by {
            assert(!(s[k].height is Some && s[k].height->0 <= 1080));
        }
    }
}

impl YtDlpFormat {
    /// Reads yt-dlp's `"none"` codecs as absent.
    pub fn process(&mut self)
        ensures
            *final(self) == processed(*old(self)),
    {
        let a_none = match &self.acodec {
            Some(v) => str_eq(v.as_str(), "none"),
            None => false,
        };
        if a_none {
            self.acodec = None;
        }
        let v_none = match &self.vcodec {
            Some(v) => str_eq(v.as_str(), "none"),
            None => false,
        };
        if v_none {
            self.vcodec = None;
        }
    }

    /// The rank of this format in the choice `c`, if it is a candidate.
    fn candidate_rank(&self, c: Choice) -> (res: Option<u64>)
        ensures
            res is Some <==> candidate(c, *self),
            res matches Some(r) ==> r == rank(c, *self),
    {
        match c {
            Choice::AudioVideo => {
                if self.vcodec.is_some() && self.acodec.is_some() {
                    match VideoFormat::from_format(self) {
                        Some(v) => Some(v.width as u64 * 65536 + v.height as u64),
                        None => None,
                    }
                } else {
                    None
                }
            },
            Choice::Audio => match AudioFormat::from_format(self) {
                Some(a) => Some(a.abr as u64),
                None => None,
            },
            Choice::Video => match VideoFormat::from_format(self) {
                Some(v) => {
                    if v.height <= H_LIMIT && v.is_mp4() && !v.is_premium() {
                        Some(v.vbr as u64)
                    } else {
                        None
                    }
                },
                None => None,
            },
            Choice::Fallback => match self.height {
                Some(h) => if h <= H_LIMIT { Some(0) } else { None },
                None => None,
            },
        }
    }
}

impl<'a> VideoFormat<'a> {
    /// The video view of a format that has all video fields.
    pub fn from_format(format: &'a YtDlpFormat) -> (res: Option<VideoFormat<'a>>)
        ensures
            res is Some <==> has_video_fields(*format),
            res matches Some(v) ==> {
                &&& *v.format == *format
                &&& Some(*v.format_note) == format.format_note
                &&& Some(v.width) == format.width
                &&& Some(v.height) == format.height
                &&& Some(v.vbr) == format.vbr
            },
    {
        match (&format.format_note, format.width, format.height, format.vbr) {
            (Some(note), Some(width), Some(height), Some(vbr)) => Some(
                VideoFormat { format, format_note: note, width, height, vbr },
            ),
            _ => None,
        }
    }

    /// Whether the format is stored in an MP4 container.
    pub fn is_mp4(&self) -> (res: bool)
        ensures
            res == spec_is_mp4(*self.format),
    {
        str_eq(self.format.ext.as_str(), "mp4")
    }

    /// Whether the format is reserved to premium users.
    pub fn is_premium(&self) -> (res: bool)
        ensures
            res == spec_is_premium(self.format_note@),
    {
        str_contains(self.format_note.as_str(), "Premium")
    }
}

impl<'a> AudioFormat<'a> {
    /// The audio view of a format that has an audio bitrate.
    pub fn from_format(format: &'a YtDlpFormat) -> (res: Option<AudioFormat<'a>>)
        ensures
            res is Some <==> format.abr is Some,
            res matches Some(a) ==> *a.format == *format && Some(a.abr) == format.abr,
    {
        match format.abr {
            Some(abr) => Some(AudioFormat { format, abr }),
            None => None,
        }
    }
}

impl YtDlpInfo {
    /// Reads yt-dlp's `"none"` codecs as absent in every format.
    pub fn process_formats(&mut self)
        ensures
            final(self).id == old(self).id,
            final(self).title == old(self).title,
            final(self).formats@.len() == old(self).formats@.len(),
            forall|i: int| 0 <= i < old(self).formats@.len()
                ==> #[trigger] final(self).formats@[i] == processed(old(self).formats@[i]),
    {
        let mut formats: Vec<YtDlpFormat> = Vec::new();
        std::mem::swap(&mut formats, &mut self.formats);
        let ghost orig = formats@;
        let mut done: Vec<YtDlpFormat> = Vec::new();
        let n = formats.len();
        let mut i: usize = 0;
        while i < n
            invariant
                n == orig.len(),
                i <= n,
                formats@ == orig.take(n - i),
                done@.len() == i,
                forall|k: int| 0 <= k < i ==> #[trigger] done@[k] == processed(orig[n - 1 - k]),
            decreases n - i,
        {
            let mut f = formats.pop().unwrap();
            assert(formats@ =~= orig.take(n - i - 1));
            f.process();
            done.push(f);
            i = i + 1;
        }
        // `done` holds the formats back to front; turn it around.
        let mut out: Vec<YtDlpFormat> = Vec::new();
        let mut k: usize = 0;
        while k < n
            invariant
                n == orig.len(),
                k <= n,
                done@.len() == n - k,
                forall|j: int| 0 <= j < done@.len() ==> #[trigger] done@[j] == processed(orig[n - 1 - j]),
                out@.len() == k,
                forall|j: int| 0 <= j < k ==> #[trigger] out@[j] == processed(orig[j]),
            decreases n - k,
        {
            let f = done.pop().unwrap();
            out.push(f);
            k = k + 1;
        }
        self.formats = out;
    }

    /// The position of the best candidate of the choice `c`.
    pub fn best_index(&self, c: Choice) -> (res: Option<usize>)
        ensures
            match res {
                Some(i) => best_position(self.formats@, c) == Some(i as int),
                None => best_position(self.formats@, c) is None,
            },
    {
        let s = &self.formats;
        let mut best: Option<usize> = None;
        let mut best_rank: u64 = 0;
        let mut i: usize = 0;
        while i < s.len()
            invariant
                i <= s@.len(),
                match best {
                    Some(b) => {
                        &&& b < i
                        &&& candidate(c, s@[b as int])
                        &&& best_rank == rank(c, s@[b as int])
                        &&& forall|j: int| 0 <= j < i && #[trigger] candidate(c, s@[j]) ==> rank(c, s@[j]) <= best_rank
                        &&& forall|j: int| b < j < i && #[trigger] candidate(c, s@[j]) ==> rank(c, s@[j]) < best_rank
                    },
                    None => forall|j: int| 0 <= j < i ==> !#[trigger] candidate(c, s@[j]),
                },
            decreases s@.len() - i,
        {
            match s[i].candidate_rank(c) {
                Some(r) => {
                    let better = match best {
                        Some(_) => r >= best_rank,
                        None => true,
                    };
                    if better {
                        best = Some(i);
                        best_rank = r;
                    }
                },
                None => {},
            }
            i = i + 1;
        }
        proof {
            match best {
                Some(b) => {
                    assert(is_last_best(s@, c, b as int));
                    let w = choose|w: int| is_last_best(s@, c, w);
                    lemma_last_best_unique(s@, c, w, b as int);
                },
                None => {
                    assert forall|w: int| !is_last_best(s@, c, w) by {
                        if 0 <= w < s@.len() {
                            assert(!candidate(c, s@[w]));
                        }
                    }
                },
            }
        }
        best
    }

    /// The default format: the last one within the height limit, or else the
    /// last one of all.
    pub fn default_format(&self) -> (res: Option<&YtDlpFormat>)
        ensures
            referenced(res) == format_at(self.formats@, default_position(self.formats@)),
    {
        match self.best_index(Choice::Fallback) {
            Some(i) => Some(&self.formats[i]),
            None => {
                if self.formats.len() > 0 {
                    Some(&self.formats[self.formats.len() - 1])
                } else {
                    None
                }
            },
        }
    }

    /// The format with both codecs that is largest by (width, height).
    pub fn best_av_format(&self) -> (res: Option<&YtDlpFormat>)
        ensures
            referenced(res) == format_at(self.formats@, best_position(self.formats@, Choice::AudioVideo)),
    {
        match self.best_index(Choice::AudioVideo) {
            Some(i) => Some(&self.formats[i]),
            None => None,
        }
    }

    /// The format with the highest audio bitrate.
    pub fn best_audio_format(&self) -> (res: Option<&YtDlpFormat>)
        ensures
            referenced(res) == format_at(self.formats@, best_position(self.formats@, Choice::Audio)),
    {
        match self.best_index(Choice::Audio) {
            Some(i) => Some(&self.formats[i]),
            None => None,
        }
    }

    /// The MP4, non-premium format within the height limit that has the highest
    /// video bitrate.
    pub fn best_video_format(&self) -> (res: Option<&YtDlpFormat>)
        ensures
            referenced(res) == format_at(self.formats@, best_position(self.formats@, Choice::Video)),
    {
        match self.best_index(Choice::Video) {
            Some(i) => Some(&self.formats[i]),
            None => None,
        }
    }

    /// The position of the first format whose id is `id`.
    pub fn find_format_id(&self, id: &str) -> (res: Option<usize>)
        ensures
            match res {
                Some(i) => first_with_id(self.formats@, id@) == Some(i as int),
                None => first_with_id(self.formats@, id@) is None,
            },
    {
        let mut i: usize = 0;
        while i < self.formats.len()
            invariant
                i <= self.formats@.len(),
                forall|j: int| 0 <= j < i ==> #[trigger] self.formats@[j].format_id@ != id@,
            decreases self.formats@.len() - i,
        {
            if str_eq(self.formats[i].format_id.as_str(), id) {
                proof {
                    assert(is_first_with_id(self.formats@, id@, i as int));
                    let w = choose|w: int| is_first_with_id(self.formats@, id@, w);
                    if w < i {
                        assert(self.formats@[w].format_id@ != id@);
                    } else if w > i {
                        assert(self.formats@[i as int].format_id@ != id@);
                    }
                    assert(w == i);
                    assert(first_with_id(self.formats@, id@) == Some(w));
                }
                return Some(i);
            }
            i = i + 1;
        }
        proof {
            assert forall|w: int| !is_first_with_id(self.formats@, id@, w) by {
                if 0 <= w < self.formats@.len() {
                    assert(self.formats@[w].format_id@ != id@);
                }
            }
        }
        None
    }
}

impl YtDlpError {
    /// The text that describes the error.
    pub fn message(&self) -> (res: String)
        ensures
            match self {
                YtDlpError::SpawnError(_) => true,
                YtDlpError::ErrorMessage(msg) => res@ == "yt-dlp error - "@ + msg@,
                YtDlpError::JsonError => res@ == "json parsing error"@,
                YtDlpError::NoFormats => res@ == "no formats were parsed"@,
                YtDlpError::MakePathError => res@ == "make path error"@,
                YtDlpError::NoFilePresent => res@ == "downloaded file doesn't exists"@,
            },
            self matches YtDlpError::SpawnError(e) ==> spawn_message_of(*e, res@),
    {
        match self {
            YtDlpError::SpawnError(e) => e.message(),
            YtDlpError::ErrorMessage(msg) => {
                let mut out = String::from_str("yt-dlp error - ");
                push_chars(&mut out, msg.as_str());
                out
            },
            YtDlpError::JsonError => String::from_str("json parsing error"),
            YtDlpError::NoFormats => String::from_str("no formats were parsed"),
            YtDlpError::MakePathError => String::from_str("make path error"),
            YtDlpError::NoFilePresent => String::from_str("downloaded file doesn't exists"),
        }
    }
}

/// What the error of a failed run becomes: its message is kept as yt-dlp's
/// own message; any other failure is kept as it is.
pub open spec fn from_spawn_error(e: SpawnError) -> YtDlpError {
    match e {
        SpawnError::ErrorMessage(msg) => YtDlpError::ErrorMessage(msg),
        _ => YtDlpError::SpawnError(e),
    }
}

/// Law: the message of a program that failed reaches yt-dlp's error as
/// yt-dlp's own message; any other failure is kept as it is.
pub proof fn law_spawn_error_kept(e: SpawnError)
    ensures
        e matches SpawnError::ErrorMessage(m) ==> from_spawn_error(e) == YtDlpError::ErrorMessage(m),
        !(e is ErrorMessage) ==> from_spawn_error(e) == YtDlpError::SpawnError(e),
{
}

impl From<SpawnError> for YtDlpError {
    fn from(value: SpawnError) -> (res: Self) {
        match value {
            SpawnError::ErrorMessage(msg) => YtDlpError::ErrorMessage(msg),
            _ => YtDlpError::SpawnError(value),
        }
    }
}

impl vstd::std_specs::convert::FromSpecImpl<SpawnError> for YtDlpError {
    open spec fn obeys_from_spec() -> bool {
        true
    }

    open spec fn from_spec(v: SpawnError) -> Self {
        from_spawn_error(v)
    }
}

impl From<TmpFileError> for YtDlpError {
    fn from(value: TmpFileError) -> (res: Self) {
        YtDlpError::MakePathError
    }
}

impl vstd::std_specs::convert::FromSpecImpl<TmpFileError> for YtDlpError {
    open spec fn obeys_from_spec() -> bool {
        true
    }

    open spec fn from_spec(v: TmpFileError) -> Self {
        YtDlpError::MakePathError
    }
}

impl From<serde_json::Error> for YtDlpError {
    fn from(value: serde_json::Error) -> (res: Self) {
        YtDlpError::JsonError
    }
}

impl vstd::std_specs::convert::FromSpecImpl<serde_json::Error> for YtDlpError {
    open spec fn obeys_from_spec() -> bool {
        true
    }

    open spec fn from_spec(v: serde_json::Error) -> Self {
        YtDlpError::JsonError
    }
}

impl YtDlp {
    /// The program that is run; yt-dlp runs as a Python module.
    pub fn program() -> (res: &'static str)
        ensures
            res@ == "python"@,
    {
        "python"
    }

    /// The arguments with which yt-dlp reports what it knows of `url`.
    pub fn info_args(url: &str) -> (res: Vec<String>)
        ensures
            texts(res@) == info_args_spec(url@),
    {
        let mut args: Vec<String> = Vec::new();
        push_text(&mut args, "-m");
        push_text(&mut args, "yt_dlp");
        push_text(&mut args, url);
        push_text(&mut args, "-j");
        assert(texts(args@) =~= info_args_spec(url@));
        args
    }

    /// Takes what yt-dlp reported: reads its `"none"` codecs as absent, and
    /// refuses a report without formats.
    pub fn accept_info(info: YtDlpInfo) -> (res: Result<YtDlpInfo, YtDlpError>)
        ensures
            info.formats@.len() == 0 <==> res matches Err(YtDlpError::NoFormats),
            info.formats@.len() > 0 ==> (res matches Ok(r) && r.id == info.id && r.title == info.title
                && r.formats@.len() == info.formats@.len()
                && forall|i: int| 0 <= i < info.formats@.len() ==> #[trigger] r.formats@[i] == processed(info.formats@[i])),
    {
        let mut info = info;
        info.process_formats();
        if info.formats.len() == 0 {
            return Err(YtDlpError::NoFormats);
        }
        Ok(info)
    }

    /// The name of the file that `format` of the video is downloaded to.
    pub fn download_file_name(info: &YtDlpInfo, format: &YtDlpFormat) -> (res: String)
        ensures
            res@ == download_file_name_spec(info.id@, format.format_id@, format.ext@),
    {
        let mut out = String::new();
        push_chars(&mut out, info.id.as_str());
        push_chars(&mut out, "_");
        push_chars(&mut out, format.format_id.as_str());
        push_chars(&mut out, ".");
        push_chars(&mut out, format.ext.as_str());
        assert(out@ =~= download_file_name_spec(info.id@, format.format_id@, format.ext@));
        out
    }

    /// The arguments with which yt-dlp downloads the format `format_id` of `url` to `path`.
    pub fn download_args(url: &str, format_id: &str, path: &str) -> (res: Vec<String>)
        ensures
            texts(res@) == download_args_spec(url@, format_id@, path@),
    {
        let mut args: Vec<String> = Vec::new();
        push_text(&mut args, "-m");
        push_text(&mut args, "yt_dlp");
        push_text(&mut args, url);
        push_text(&mut args, "-f");
        push_text(&mut args, format_id);
        push_text(&mut args, "-o");
        push_text(&mut args, path);
        push_text(&mut args, "--force-overwrites");
        assert(texts(args@) =~= download_args_spec(url@, format_id@, path@));
        args
    }

    /// The outcome of a download, once it is known whether the file is there.
    pub fn downloaded(file: TmpFile, exists: bool) -> (res: Result<TmpFile, YtDlpError>)
        ensures
            exists ==> (res matches Ok(f) && f == file),
            !exists ==> res matches Err(YtDlpError::NoFilePresent),
    {
        if exists {
            Ok(file)
        } else {
            Err(YtDlpError::NoFilePresent)
        }
    }
}

} // verus!
