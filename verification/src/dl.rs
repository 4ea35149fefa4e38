//! Downloading videos: the choice of formats, and the errors of the outside programs.
pub mod ffmpeg;
pub mod ffprobe;
pub mod spawn;
pub mod tmpfile;
pub mod yt_dlp;

use vstd::prelude::*;

use crate::bot::sanitize::{extract_url, extracted_url, parse_url, url_parse_spec, ParsedUrl};
use crate::text::{push_chars, str_eq};
use self::spawn::{spawn_message_of, SpawnError};
use self::tmpfile::TmpFileError;
use self::yt_dlp::{
    best_position, default_position, first_with_id, is_first_with_id, law_best_av_is_last_largest,
    law_best_exists_iff_candidate, law_default_exists_iff_nonempty, law_default_is_last_within_limit,
    Choice, YtDlpError, YtDlpFormat, YtDlpInfo,
};

verus! {

/// Why a download failed.
pub enum DownloadError {
    Message(String),
    NotAnURL,
    NoFormatFound,
    MakePathError,
}

/// The ways in which a video is downloaded, by the site it is on.
#[derive(PartialEq, Eq, Structural, Clone, Copy, Debug)]
pub enum Downloader {
    Default,
    YouTube,
    TikTok,
}

/// What is downloaded: formats named by their position in the video's formats.
#[derive(PartialEq, Eq, Structural, Clone, Copy, Debug)]
pub enum DownloadPlan {
    /// One format, which holds both video and audio.
    Single(usize),
    /// A video format and an audio format, to be joined into one file.
    Joined { video: usize, audio: usize },
}

/// A link to download, and the way to download it.
pub struct DownloadTarget {
    pub url: ParsedUrl,
    pub downloader: Downloader,
}

/// The downloader for a host: the table of known hosts, or the default.
pub open spec fn downloader_for_host(host: Seq<char>) -> Downloader {
    if host == "www.youtube.com"@ || host == "youtu.be"@ {
        Downloader::YouTube
    } else if host == "www.tiktok.com"@ || host == "vm.tiktok.com"@ {
        Downloader::TikTok
    } else {
        Downloader::Default
    }
}

/// The plan of a downloader for a video's formats, or `None` where no format fits.
pub open spec fn plan_spec(d: Downloader, s: Seq<YtDlpFormat>) -> Option<DownloadPlan> {
    match d {
        Downloader::Default => match best_position(s, Choice::AudioVideo) {
            Some(i) => Some(DownloadPlan::Single(i as usize)),
            None => match default_position(s) {
                Some(i) => Some(DownloadPlan::Single(i as usize)),
                None => None,
            },
        },
        Downloader::YouTube => match (best_position(s, Choice::Video), best_position(s, Choice::Audio)) {
            (Some(v), Some(a)) => Some(DownloadPlan::Joined { video: v as usize, audio: a as usize }),
            _ => None,
        },
        Downloader::TikTok => match first_with_id(s, "0"@) {
            Some(i) => Some(DownloadPlan::Single(i as usize)),
            None => None,
        },
    }
}

/// What `prepare_download` finds in a message: the URL's parts and the
/// downloader for its host, or `None` where there is no link with a host.
pub open spec fn download_target_spec(text: Seq<char>) -> Option<((Seq<char>, Option<Seq<char>>), Downloader)> {
    match extracted_url(text) {
        Some(link) => match url_parse_spec(link) {
            Some((s, Some(host))) => Some(((s, Some(host)), downloader_for_host(host))),
            _ => None,
        },
        None => None,
    }
}

/// The name of the file that the joined video and audio go to.
pub open spec fn joined_file_name_spec(id: Seq<char>, ext: Seq<char>) -> Seq<char> {
    id + "."@ + ext
}

/// The formats that a plan names are formats of the video.
pub open spec fn plan_in_range(p: DownloadPlan, len: int) -> bool {
    match p {
        DownloadPlan::Single(i) => i < len,
        DownloadPlan::Joined { video, audio } => video < len && audio < len,
    }
}

/// Law: a plan only names formats that the video has; and the default
/// downloader finds a plan for every video with a format.
pub proof fn law_plan_in_range(d: Downloader, s: Seq<YtDlpFormat>)
    ensures
        plan_spec(d, s) matches Some(p) ==> plan_in_range(p, s.len() as int),
        d == Downloader::Default ==> (plan_spec(d, s) is Some <==> s.len() > 0),
{
    law_best_exists_iff_candidate(s, Choice::AudioVideo);
    law_best_exists_iff_candidate(s, Choice::Video);
    law_best_exists_iff_candidate(s, Choice::Audio);
    law_default_exists_iff_nonempty(s);
    if let Some(i) = first_with_id(s, "0"@) {
        assert(is_first_with_id(s, "0"@, i));
    }
    if d == Downloader::Default && s.len() > 0 {
        assert(default_position(s) is Some);
    }
}

/// Law: the default downloader downloads the format with both video and
/// audio that is largest by (width, height), the last of equals, wherever
/// some format has both codecs (and a note, a width, a height and a video
/// bitrate). Only where none has does it fall back to the last format at most
/// 1080 pixels tall, or else the last format; with no formats there is no plan.
pub proof fn law_default_plan_prefers_both_codecs(s: Seq<YtDlpFormat>)
    requires
        s.len() <= usize::MAX,
    ensures
        (exists|k: int| 0 <= k < s.len()
            && (#[trigger] s[k]).vcodec is Some && s[k].acodec is Some && s[k].format_note is Some
            && s[k].width is Some && s[k].height is Some && s[k].vbr is Some) ==> (
            plan_spec(Downloader::Default, s) matches Some(DownloadPlan::Single(i))
            && s[i as int].vcodec is Some && s[i as int].acodec is Some && s[i as int].format_note is Some
            && s[i as int].width is Some && s[i as int].height is Some && s[i as int].vbr is Some
            && i < s.len()
            && (forall|j: int| 0 <= j < s.len() && (#[trigger] s[j]).vcodec is Some && s[j].acodec is Some
                && s[j].format_note is Some && s[j].width is Some && s[j].height is Some && s[j].vbr is Some
                ==> (s[j].width->0 < s[i as int].width->0
                    || (s[j].width->0 == s[i as int].width->0 && s[j].height->0 <= s[i as int].height->0)))
            && (forall|j: int| i < j < s.len() && (#[trigger] s[j]).vcodec is Some && s[j].acodec is Some
                && s[j].format_note is Some && s[j].width is Some && s[j].height is Some && s[j].vbr is Some
                ==> (s[j].width->0 < s[i as int].width->0
                    || (s[j].width->0 == s[i as int].width->0 && s[j].height->0 < s[i as int].height->0)))),
        (forall|k: int| 0 <= k < s.len() ==> !((#[trigger] s[k]).vcodec is Some && s[k].acodec is Some
            && s[k].format_note is Some && s[k].width is Some && s[k].height is Some && s[k].vbr is Some)) ==> {
            &&& (exists|k: int| 0 <= k < s.len() && (#[trigger] s[k]).height is Some && s[k].height->0 <= 1080) ==> (
                plan_spec(Downloader::Default, s) matches Some(DownloadPlan::Single(i))
                && i < s.len() && s[i as int].height is Some && s[i as int].height->0 <= 1080
                && forall|j: int| i < j < s.len() ==> !((#[trigger] s[j]).height is Some && s[j].height->0 <= 1080))
            &&& (forall|k: int| 0 <= k < s.len() ==> !((#[trigger] s[k]).height is Some && s[k].height->0 <= 1080))
                && s.len() > 0 ==> plan_spec(Downloader::Default, s) == Some(DownloadPlan::Single((s.len() - 1) as usize))
            &&& s.len() == 0 ==> plan_spec(Downloader::Default, s) is None
        },
{
    law_best_av_is_last_largest(s);
    law_default_is_last_within_limit(s);
    law_default_exists_iff_nonempty(s);
}

/// Law: the YouTube downloader joins the best video format with the best
/// audio format (video first), and has a plan exactly where both exist.
pub proof fn law_youtube_plan_joins_best_video_and_audio(s: Seq<YtDlpFormat>)
    requires
        s.len() <= usize::MAX,
    ensures
        plan_spec(Downloader::YouTube, s) is Some <==>
            (best_position(s, Choice::Video) is Some && best_position(s, Choice::Audio) is Some),
        plan_spec(Downloader::YouTube, s) matches Some(p) ==> (p matches DownloadPlan::Joined { video, audio }
            && best_position(s, Choice::Video) == Some(video as int)
            && best_position(s, Choice::Audio) == Some(audio as int)),
{
    law_best_exists_iff_candidate(s, Choice::Video);
    law_best_exists_iff_candidate(s, Choice::Audio);
}

/// Law: the TikTok downloader downloads the first format whose id is `0`, and
/// has a plan exactly where some format has that id.
pub proof fn law_tiktok_plan_takes_first_zero(s: Seq<YtDlpFormat>)
    requires
        s.len() <= usize::MAX,
    ensures
        plan_spec(Downloader::TikTok, s) is Some <==> exists|k: int| 0 <= k < s.len() && (#[trigger] s[k]).format_id@ == "0"@,
        plan_spec(Downloader::TikTok, s) matches Some(p) ==> (p matches DownloadPlan::Single(i)
            && i < s.len() && s[i as int].format_id@ == "0"@
            && forall|j: int| 0 <= j < i ==> (#[trigger] s[j]).format_id@ != "0"@),
{
    if exists|k: int| 0 <= k < s.len() && (#[trigger] s[k]).format_id@ == "0"@ {
        lemma_first_with_id_exists(s, "0"@);
    }
    if let Some(i) = first_with_id(s, "0"@) {
        assert(is_first_with_id(s, "0"@, i));
    }
}

/// Where some format has the id `id`, there is a first one.
proof fn lemma_first_with_id_exists(s: Seq<YtDlpFormat>, id: Seq<char>)
    requires
        exists|k: int| 0 <= k < s.len() && (#[trigger] s[k]).format_id@ == id,
    ensures
        exists|i: int| is_first_with_id(s, id, i),
    decreases s.len(),
{
    let p = s.drop_last();
    if exists|k: int| 0 <= k < p.len() && (#[trigger] p[k]).format_id@ == id {
        lemma_first_with_id_exists(p, id);
        let i = choose|i: int| is_first_with_id(p, id, i);
        assert forall|j: int| 0 <= j < i implies (#[trigger] s[j]).format_id@ != id by {
            assert(s[j] == p[j]);
        }
        assert(s[i] == p[i]);
        assert(is_first_with_id(s, id, i));
    } else {
        let k = choose|k: int| 0 <= k < s.len() && (#[trigger] s[k]).format_id@ == id;
        assert(k == s.len() - 1) by {
            if k < s.len() - 1 {
                assert(p[k] == s[k]);
            }
        }
        assert forall|j: int| 0 <= j < k implies (#[trigger] s[j]).format_id@ != id by {
            assert(s[j] == p[j]);
        }
        assert(is_first_with_id(s, id, k));
    }
}

impl DownloadError {
    /// The text that describes the error.
    pub fn message(&self) -> (res: String)
        ensures
            match self {
                DownloadError::Message(msg) => res@ == msg@,
                DownloadError::NotAnURL => res@ == "no url or malformed url were provided"@,
                DownloadError::NoFormatFound => res@
                    == "no best format found. you may want to specify one yourself"@,
                DownloadError::MakePathError => res@ == "failed to make path for download file"@,
            },
    {
        match self {
            DownloadError::Message(msg) => String::from_str(msg.as_str()),
            DownloadError::NotAnURL => String::from_str("no url or malformed url were provided"),
            DownloadError::NoFormatFound => String::from_str(
                "no best format found. you may want to specify one yourself",
            ),
            DownloadError::MakePathError => String::from_str("failed to make path for download file"),
        }
    }

    /// The error of a download whose outside program failed: its message.
    pub fn from_spawn_error(value: SpawnError) -> (res: DownloadError)
        ensures
            res matches DownloadError::Message(m) && spawn_message_of(value, m@),
    {
        DownloadError::Message(value.message())
    }

    /// The error of a download that yt-dlp refused: its message.
    pub fn from_yt_dlp_error(value: YtDlpError) -> (res: DownloadError)
        ensures
            res matches DownloadError::Message(m),
            match (value, res) {
                (YtDlpError::SpawnError(e), DownloadError::Message(m)) => spawn_message_of(e, m@),
                (YtDlpError::ErrorMessage(msg), DownloadError::Message(m)) => m@ == "yt-dlp error - "@ + msg@,
                (YtDlpError::JsonError, DownloadError::Message(m)) => m@ == "json parsing error"@,
                (YtDlpError::NoFormats, DownloadError::Message(m)) => m@ == "no formats were parsed"@,
                (YtDlpError::MakePathError, DownloadError::Message(m)) => m@ == "make path error"@,
                (YtDlpError::NoFilePresent, DownloadError::Message(m)) => m@ == "downloaded file doesn't exists"@,
                _ => false,
            },
    {
        DownloadError::Message(value.message())
    }
}

impl From<TmpFileError> for DownloadError {
    fn from(value: TmpFileError) -> (res: Self) {
        match value {
            TmpFileError::MakePathError => DownloadError::MakePathError,
        }
    }
}

impl vstd::std_specs::convert::FromSpecImpl<TmpFileError> for DownloadError {
    open spec fn obeys_from_spec() -> bool {
        true
    }

    open spec fn from_spec(v: TmpFileError) -> Self {
        DownloadError::MakePathError
    }
}

impl Downloader {
    /// The downloader for `host`.
    pub fn for_host(host: &str) -> (res: Downloader)
        ensures
            res == downloader_for_host(host@),
    {
        if str_eq(host, "www.youtube.com") || str_eq(host, "youtu.be") {
            Downloader::YouTube
        } else if str_eq(host, "www.tiktok.com") || str_eq(host, "vm.tiktok.com") {
            Downloader::TikTok
        } else {
            Downloader::Default
        }
    }

    /// The downloader tried after this one fails: the default one, whichever
    /// downloader failed (so the default one is tried a second time).
    pub fn fallback(&self) -> (res: Downloader)
        ensures
            res == Downloader::Default,
    {
        Downloader::Default
    }

    /// The downloader's name.
    pub fn name(&self) -> (res: &'static str)
        ensures
            match self {
                Downloader::Default => res@ == "Default"@,
                Downloader::YouTube => res@ == "YouTube"@,
                Downloader::TikTok => res@ == "TikTok"@,
            },
    {
        match self {
            Downloader::Default => "Default",
            Downloader::YouTube => "YouTube",
            Downloader::TikTok => "TikTok",
        }
    }

    /// Chooses the formats to download: the default downloader takes the best
    /// format with both codecs, or else the default format; the YouTube one
    /// takes the best video and the best audio, to be joined; the TikTok one
    /// takes the uploaded file itself, whose format id is `0`.
    pub fn plan(&self, info: &YtDlpInfo) -> (res: Result<DownloadPlan, DownloadError>)
        ensures
            match plan_spec(*self, info.formats@) {
                Some(p) => res == Ok::<DownloadPlan, DownloadError>(p),
                None => res matches Err(DownloadError::NoFormatFound),
            },
    {
        match self {
            Downloader::Default => match info.best_index(Choice::AudioVideo) {
                Some(i) => Ok(DownloadPlan::Single(i)),
                None => {
                    if info.formats.len() > 0 {
                        match info.best_index(Choice::Fallback) {
                            Some(i) => Ok(DownloadPlan::Single(i)),
                            None => Ok(DownloadPlan::Single(info.formats.len() - 1)),
                        }
                    } else {
                        proof {
                            law_default_exists_iff_nonempty(info.formats@);
                        }
                        Err(DownloadError::NoFormatFound)
                    }
                },
            },
            Downloader::YouTube => {
                let v = info.best_index(Choice::Video);
                let a = info.best_index(Choice::Audio);
                match (v, a) {
                    (Some(v), Some(a)) => Ok(DownloadPlan::Joined { video: v, audio: a }),
                    _ => Err(DownloadError::NoFormatFound),
                }
            },
            Downloader::TikTok => match info.find_format_id("0") {
                Some(i) => Ok(DownloadPlan::Single(i)),
                None => Err(DownloadError::NoFormatFound),
            },
        }
    }

    /// The name of the file that the YouTube downloader joins `video` and the
    /// audio into: the video's id and the video format's extension.
    pub fn joined_file_name(info: &YtDlpInfo, video: &YtDlpFormat) -> (res: String)
        ensures
            res@ == joined_file_name_spec(info.id@, video.ext@),
    {
        let mut out = String::new();
        push_chars(&mut out, info.id.as_str());
        push_chars(&mut out, ".");
        push_chars(&mut out, video.ext.as_str());
        assert(out@ =~= joined_file_name_spec(info.id@, video.ext@));
        out
    }
}

/// Finds the link in `text`, parses it, and picks the downloader for its
/// host; every failure on the way is `NotAnURL`.
pub fn prepare_download(text: &str) -> (res: Result<DownloadTarget, DownloadError>)
    ensures
        match download_target_spec(text@) {
            Some((u, d)) => res matches Ok(t) && t.url@ == u && t.downloader == d,
            None => res matches Err(DownloadError::NotAnURL),
        },
{
    let link = match extract_url(text) {
        Some(l) => l,
        None => return Err(DownloadError::NotAnURL),
    };
    let url = match parse_url(link) {
        Some(u) => u,
        None => return Err(DownloadError::NotAnURL),
    };
    let downloader = match url.host_str() {
        Some(host) => Downloader::for_host(host),
        None => return Err(DownloadError::NotAnURL),
    };
    Ok(DownloadTarget { url, downloader })
}

} // verus!
