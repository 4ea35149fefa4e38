use mk_dl_bot::dl::ffmpeg::FFMpeg;

fn round(abr: f32) -> u16 {
    FFMpeg::round_mp3_bitrate(abr.ceil() as u16)
}

#[test]
fn round_mp3_bitrate() {
    assert_eq!(round(0.0), 32);
    assert_eq!(round(30.803), 32);
    assert_eq!(round(31.957), 32);
    assert_eq!(round(47.245), 48);
    assert_eq!(round(62.564), 64);
    assert_eq!(round(124.216), 128);
    assert_eq!(round(129.492), 160);
    assert_eq!(round(320.1), 320);
    assert_eq!(round(319.4), 320);
    assert_eq!(round(999.99), 320);
}

#[test]
fn round_mp3_bitrate_exact_and_monotone() {
    assert_eq!(FFMpeg::round_mp3_bitrate(128), 128);
    assert_eq!(FFMpeg::round_mp3_bitrate(129), 160);
    assert_eq!(FFMpeg::round_mp3_bitrate(320), 320);
    assert_eq!(FFMpeg::round_mp3_bitrate(321), 320);
    let mut last = 0;
    for abr in 0..=400u16 {
        let r = FFMpeg::round_mp3_bitrate(abr);
        assert!(r >= last);
        assert_eq!(FFMpeg::round_mp3_bitrate(r), r);
        last = r;
    }
}

#[test]
fn ffmpeg_command_lines() {
    assert_eq!(FFMpeg::program(), "ffmpeg");
    assert_eq!(
        FFMpeg::convert_to_mp3_args("in.webm", "out.mp3", 192),
        vec!["-i", "in.webm", "-codec:a", "libmp3lame", "-b:a", "192k", "-y", "out.mp3"]
    );
    assert_eq!(
        FFMpeg::join_video_audio_args("v.mp4", "a.m4a", 128, "o.mp4"),
        vec![
            "-i", "v.mp4", "-i", "a.m4a", "-c", "copy", "-map", "0:v:0", "-map", "1:a:0", "-c:a",
            "aac", "-b:a", "128k", "o.mp4"
        ]
    );
}

#[test]
fn join_bitrates() {
    assert_eq!(FFMpeg::join_bitrate(Some(129)), 160);
    assert_eq!(FFMpeg::join_bitrate(Some(400)), 320);
    assert_eq!(FFMpeg::join_bitrate(None), 192);
}
