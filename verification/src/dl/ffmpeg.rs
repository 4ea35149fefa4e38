//! ffmpeg: the MP3 bitrates, and the command lines that join and convert files.
use vstd::prelude::*;

use crate::text::{decimal_text, push_decimal, texts, push_text};

verus! {

/// Runs ffmpeg.
pub struct FFMpeg {}

/// The bitrates, in kbit/s, that an MP3 stream can have.
pub open spec fn mp3_bitrates() -> Seq<u16> {
    seq![32, 40, 48, 56, 64, 80, 96, 112, 128, 160, 192, 224, 256, 320]
}

/// `b` is the smallest MP3 bitrate that is at least `abr`.
pub open spec fn is_rounded_bitrate(abr: u16, b: u16) -> bool {
    &&& mp3_bitrates().contains(b)
    &&& abr <= b
    &&& forall|i: int| 0 <= i < mp3_bitrates().len() && abr <= #[trigger] mp3_bitrates()[i] ==> b <= mp3_bitrates()[i]
}

/// The MP3 bitrate for an audio bitrate of `abr` kbit/s: the smallest MP3
/// bitrate that is at least `abr`, or the largest MP3 bitrate where `abr`
/// exceeds them all.
pub open spec fn rounded_mp3_bitrate(abr: u16) -> u16 {
    if abr <= 320 {
        choose|b: u16| is_rounded_bitrate(abr, b)
    } else {
        320
    }
}

/// There is one smallest MP3 bitrate at least `abr`, for `abr` up to 320.
proof fn lemma_rounded_bitrate_unique(abr: u16, b: u16, c: u16)
    requires
        is_rounded_bitrate(abr, b),
        is_rounded_bitrate(abr, c),
    ensures
        b == c,
{
    let i = choose|i: int| 0 <= i < mp3_bitrates().len() && mp3_bitrates()[i] == b;
    let j = choose|j: int| 0 <= j < mp3_bitrates().len() && mp3_bitrates()[j] == c;
    assert(c <= mp3_bitrates()[i]);
    assert(b <= mp3_bitrates()[j]);
}

/// Law: a larger audio bitrate never rounds to a smaller MP3 bitrate.
pub proof fn law_round_mp3_bitrate_monotone(a: u16, b: u16)
    requires
        a <= b,
    ensures
        rounded_mp3_bitrate(a) <= rounded_mp3_bitrate(b),
{
    if a <= 320 {
        lemma_rounded_bitrate_exists(a);
        let ra = rounded_mp3_bitrate(a);
        if b <= 320 {
            lemma_rounded_bitrate_exists(b);
            let rb = rounded_mp3_bitrate(b);
            let j = choose|j: int| 0 <= j < mp3_bitrates().len() && mp3_bitrates()[j] == rb;
            assert(a <= mp3_bitrates()[j]);
        } else {
            let i = choose|i: int| 0 <= i < mp3_bitrates().len() && mp3_bitrates()[i] == ra;
            assert(mp3_bitrates()[i] <= 320);
        }
    }
}

/// Law: an MP3 bitrate rounds to itself.
pub proof fn law_round_mp3_bitrate_idempotent(a: u16)
    ensures
        rounded_mp3_bitrate(rounded_mp3_bitrate(a)) == rounded_mp3_bitrate(a),
        mp3_bitrates().contains(rounded_mp3_bitrate(a)),
{
    if a <= 320 {
        lemma_rounded_bitrate_exists(a);
    }
    let r = rounded_mp3_bitrate(a);
    assert(mp3_bitrates()[13] == 320);
    assert(mp3_bitrates().contains(r));
    let i = choose|i: int| 0 <= i < mp3_bitrates().len() && mp3_bitrates()[i] == r;
    assert(r <= 320);
    assert(is_rounded_bitrate(r, r));
    lemma_rounded_bitrate_exists(r);
    lemma_rounded_bitrate_unique(r, r, rounded_mp3_bitrate(r));
}

/// For `abr` up to 320 there is a smallest MP3 bitrate at least `abr`.
proof fn lemma_rounded_bitrate_exists(abr: u16)
    requires
        abr <= 320,
    ensures
        is_rounded_bitrate(abr, rounded_mp3_bitrate(abr)),
{
    let t = mp3_bitrates();
    assert(t[0] == 32 && t[1] == 40 && t[2] == 48 && t[3] == 56 && t[4] == 64 && t[5] == 80
        && t[6] == 96 && t[7] == 112 && t[8] == 128 && t[9] == 160 && t[10] == 192 && t[11] == 224
        && t[12] == 256 && t[13] == 320);
    let b: u16 = if abr <= 32 { 32 } else if abr <= 40 { 40 } else if abr <= 48 { 48 }
        else if abr <= 56 { 56 } else if abr <= 64 { 64 } else if abr <= 80 { 80 }
        else if abr <= 96 { 96 } else if abr <= 112 { 112 } else if abr <= 128 { 128 }
        else if abr <= 160 { 160 } else if abr <= 192 { 192 } else if abr <= 224 { 224 }
        else if abr <= 256 { 256 } else { 320 };
    assert(is_rounded_bitrate(abr, b));
}

/// The bitrate text that ffmpeg reads: the number followed by `k`.
pub open spec fn bitrate_text(kbps: u16) -> Seq<char> {
    decimal_text(kbps as nat).push('k')
}

/// The arguments with which ffmpeg converts `input` to an MP3 file `output`.
pub open spec fn convert_to_mp3_spec(input: Seq<char>, output: Seq<char>, bitrate: u16) -> Seq<Seq<char>> {
    seq!["-i"@, input, "-codec:a"@, "libmp3lame"@, "-b:a"@, bitrate_text(bitrate), "-y"@, output]
}

/// The arguments with which ffmpeg joins the video of one file and the audio of
/// another into `output`, the audio encoded as AAC at `abr`.
pub open spec fn join_video_audio_spec(video: Seq<char>, audio: Seq<char>, abr: u16, output: Seq<char>) -> Seq<Seq<char>> {
    seq!["-i"@, video, "-i"@, audio, "-c"@, "copy"@, "-map"@, "0:v:0"@, "-map"@, "1:a:0"@,
        "-c:a"@, "aac"@, "-b:a"@, bitrate_text(abr), output]
}

/// The bitrate text of `kbps`.
fn bitrate_arg(kbps: u16) -> (res: String)
    ensures
        res@ == bitrate_text(kbps),
{
    let mut out = String::new();
    push_decimal(&mut out, kbps as u64);
    crate::text::push_char(&mut out, 'k');
    out
}

impl FFMpeg {
    /// The program that is run.
    pub fn program() -> (res: &'static str)
        ensures
            res@ == "ffmpeg"@,
    {
        "ffmpeg"
    }

    /// The smallest MP3 bitrate that is at least `abr` (an audio bitrate in
    /// kbit/s, rounded up to a whole number), or the largest MP3 bitrate where
    /// `abr` exceeds them all.
    pub fn round_mp3_bitrate(abr: u16) -> (res: u16)
        ensures
            res == rounded_mp3_bitrate(abr),
            mp3_bitrates().contains(res),
            abr <= 320 ==> abr <= res,
            abr <= 320 ==> forall|i: int| 0 <= i < mp3_bitrates().len() && abr <= #[trigger] mp3_bitrates()[i] ==> res <= mp3_bitrates()[i],
            abr > 320 ==> res == 320,
    {
        let table: [u16; 14] = [32, 40, 48, 56, 64, 80, 96, 112, 128, 160, 192, 224, 256, 320];
        assert(table@ =~= mp3_bitrates());
        let mut i: usize = 0;
        while i < 14
            invariant
                table@ == mp3_bitrates(),
                i <= 14,
                forall|j: int| 0 <= j < i ==> #[trigger] table@[j] < abr,
            decreases 14 - i,
        {
            if abr <= table[i] {
                proof {
                    assert(mp3_bitrates()[i as int] == table[i as int]);
                    assert forall|k: int| 0 <= k < mp3_bitrates().len() && abr <= #[trigger] mp3_bitrates()[k]
                        implies table[i as int] <= mp3_bitrates()[k] by {
                        if k < i {
                            assert(table@[k] < abr);
                        }
                    }
                    assert(is_rounded_bitrate(abr, table[i as int]));
                    lemma_rounded_bitrate_exists(abr);
                    lemma_rounded_bitrate_unique(abr, table[i as int], rounded_mp3_bitrate(abr));
                }
                return table[i];
            }
            i = i + 1;
        }
        assert(mp3_bitrates()[13] == 320);
        assert(table@[13] < abr);
        320
    }

    /// The bitrate at which the audio is joined to the video: the MP3 bitrate
    /// for the audio format's bitrate (in kbit/s, rounded up to a whole
    /// number), or 192 where the audio format gives no bitrate.
    pub fn join_bitrate(abr: Option<u16>) -> (res: u16)
        ensures
            res == match abr {
                Some(a) => rounded_mp3_bitrate(a),
                None => 192,
            },
    {
        match abr {
            Some(a) => FFMpeg::round_mp3_bitrate(a),
            None => 192,
        }
    }

    /// The arguments with which ffmpeg converts `input_path` to an MP3 file.
    pub fn convert_to_mp3_args(input_path: &str, output_path: &str, bitrate: u16) -> (res: Vec<String>)
        ensures
            texts(res@) == convert_to_mp3_spec(input_path@, output_path@, bitrate),
    {
        let mut args: Vec<String> = Vec::new();
        push_text(&mut args, "-i");
        push_text(&mut args, input_path);
        push_text(&mut args, "-codec:a");
        push_text(&mut args, "libmp3lame");
        push_text(&mut args, "-b:a");
        let b = bitrate_arg(bitrate);
        push_text(&mut args, b.as_str());
        push_text(&mut args, "-y");
        push_text(&mut args, output_path);
        assert(texts(args@) =~= convert_to_mp3_spec(input_path@, output_path@, bitrate));
        args
    }

    /// The arguments with which ffmpeg joins the video of `video_path` and the
    /// audio of `audio_path` into `output_path`.
    pub fn join_video_audio_args(video_path: &str, audio_path: &str, abr: u16, output_path: &str) -> (res: Vec<String>)
        ensures
            texts(res@) == join_video_audio_spec(video_path@, audio_path@, abr, output_path@),
    {
        let mut args: Vec<String> = Vec::new();
        push_text(&mut args, "-i");
        push_text(&mut args, video_path);
        push_text(&mut args, "-i");
        push_text(&mut args, audio_path);
        push_text(&mut args, "-c");
        push_text(&mut args, "copy");
        push_text(&mut args, "-map");
        push_text(&mut args, "0:v:0");
        push_text(&mut args, "-map");
        push_text(&mut args, "1:a:0");
        push_text(&mut args, "-c:a");
        push_text(&mut args, "aac");
        push_text(&mut args, "-b:a");
        let b = bitrate_arg(abr);
        push_text(&mut args, b.as_str());
        push_text(&mut args, output_path);
        assert(texts(args@) =~= join_video_audio_spec(video_path@, audio_path@, abr, output_path@));
        args
    }
}

} // verus!
